use image_indexer::error::AppError;
use image_indexer::storage::file_storage::{
    build_original_path, build_thumbnail_path, extract_extension, normalize_extension,
    original_file_name, originals_directory, path_text_or_error, path_to_string,
    thumbnail_file_name, thumbnails_directory,
};

const ID: u128 = 0x33ec0cc1_9147_4129_a2df_4f4afa1eb497;

#[test]
fn extension_is_trimmed_and_lower_cased() {
    assert_eq!(extract_extension("Photo.JPG"), Some("jpg".to_string()));
    assert_eq!(extract_extension("archive.tar.GZ "), Some("gz".to_string()));
    assert_eq!(extract_extension("noextension"), None);
    assert_eq!(extract_extension(".hidden"), None);
    assert_eq!(extract_extension("trailing."), None);
    assert_eq!(extract_extension("spaces.  "), None);
    assert_eq!(normalize_extension(Some(" PnG ".to_string())), Some("png".to_string()));
    assert_eq!(normalize_extension(Some("   ".to_string())), None);
    assert_eq!(normalize_extension(None), None);
}

#[test]
fn stored_file_names_use_the_identifier() {
    assert_eq!(original_file_name(ID, &Some("jpg".to_string())), "33ec0cc1-9147-4129-a2df-4f4afa1eb497.jpg");
    assert_eq!(original_file_name(ID, &None), "33ec0cc1-9147-4129-a2df-4f4afa1eb497");
    assert_eq!(original_file_name(1, &None), "00000000-0000-0000-0000-000000000001");
    assert_eq!(thumbnail_file_name(ID), "33ec0cc1-9147-4129-a2df-4f4afa1eb497.png");
}

#[test]
fn paths_lie_under_the_storage_root() {
    let original = build_original_path("storage", ID, "room.JPG");
    assert_eq!(
        original,
        std::path::Path::new("storage").join("originals").join("33ec0cc1-9147-4129-a2df-4f4afa1eb497.jpg")
    );
    let thumbnail = build_thumbnail_path("storage", ID);
    assert_eq!(
        thumbnail,
        std::path::Path::new("storage").join("thumbnails").join("33ec0cc1-9147-4129-a2df-4f4afa1eb497.png")
    );
    let text = path_to_string(&thumbnail).unwrap();
    assert!(text.ends_with("33ec0cc1-9147-4129-a2df-4f4afa1eb497.png"));
    assert!(text.starts_with("storage"));
}

#[test]
fn a_path_without_text_is_a_storage_error() {
    match path_text_or_error(None) {
        Err(AppError::Storage(message)) => assert_eq!(message, "path contains invalid UTF-8"),
        other => panic!("unexpected {:?}", other),
    }
    assert_eq!(path_text_or_error(Some("a/b".to_string())).unwrap(), "a/b");
    assert_eq!(
        AppError::Storage("path contains invalid UTF-8".to_string()).message(),
        "file storage error: path contains invalid UTF-8"
    );
}

#[test]
fn storage_directories_lie_under_the_root() {
    assert_eq!(originals_directory("storage"), std::path::Path::new("storage").join("originals"));
    assert_eq!(thumbnails_directory("/srv/x/"), std::path::Path::new("/srv/x/").join("thumbnails"));
    assert_eq!(
        build_thumbnail_path("", ID),
        std::path::Path::new("thumbnails").join("33ec0cc1-9147-4129-a2df-4f4afa1eb497.png")
    );
}

#[test]
fn extension_comes_from_the_last_component() {
    assert_eq!(extract_extension("dir.v2/photo"), None);
    assert_eq!(extract_extension("dir.v2/photo.PNG"), Some("png".to_string()));
    assert_eq!(extract_extension("photo.JPG/"), Some("jpg".to_string()));
    assert_eq!(extract_extension(".."), None);
    let original = build_original_path("storage", ID, "dir.v2/photo");
    assert_eq!(
        original,
        std::path::Path::new("storage").join("originals").join("33ec0cc1-9147-4129-a2df-4f4afa1eb497")
    );
}

#[test]
fn path_text_is_the_path_as_written() {
    assert_eq!(path_to_string(std::path::Path::new("storage/originals/a.jpg")).unwrap(), "storage/originals/a.jpg");
    assert_eq!(path_to_string(std::path::Path::new("")).unwrap(), "");
}

#[test]
fn extension_of_paths_read_alike_everywhere() {
    assert_eq!(extract_extension("a/b.c/"), Some("c".to_string()));
    assert_eq!(extract_extension("a/b.c/."), Some("c".to_string()));
    assert_eq!(extract_extension("a/.hidden"), None);
    assert_eq!(extract_extension("a.b/.."), None);
    assert_eq!(extract_extension("./x.TXT\u{a0}"), Some("txt".to_string()));
    assert_eq!(normalize_extension(Some("\u{3000}Gif\t".to_string())), Some("gif".to_string()));
}
