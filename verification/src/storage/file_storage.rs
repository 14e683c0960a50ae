use vstd::prelude::*;

use std::path::{Path, PathBuf};

use crate::error::AppError;
use crate::ids::{uuid_hyphenated, uuid_to_text};
use vstd::utf8::{decode_utf8, encode_utf8, valid_utf8};

verus! {

/// A borrowed file system path, carried through unread.
#[verifier::external_type_specification]
#[verifier::external_body]
pub struct ExPath(Path);

/// An owned file system path, carried through unread.
#[verifier::external_type_specification]
#[verifier::external_body]
pub struct ExPathBuf(PathBuf);

/// What a borrowed path holds: its bytes in the platform's encoding
/// (`OsStr::as_encoded_bytes`), a superset of UTF-8.
pub uninterp spec fn path_bytes(path: &Path) -> Seq<u8>;

/// What an owned path holds: its bytes in the platform's encoding.
pub uninterp spec fn path_buf_bytes(path: &PathBuf) -> Seq<u8>;

/// Whether a byte is a path separator on some platform (`/`, or `\` on Windows).
pub open spec fn is_separator_byte(b: u8) -> bool {
    b == 0x2fu8 || b == 0x5cu8
}

/// Whether a path begins with the Windows verbatim prefix `\\?\`, under which
/// joining rewrites the path.
pub open spec fn is_verbatim(bytes: Seq<u8>) -> bool {
    bytes.len() >= 4 && bytes[0] == 0x5cu8 && bytes[1] == 0x5cu8 && bytes[2] == 0x3fu8 && bytes[3]
        == 0x5cu8
}

/// Whether a text is a relative path on every platform: it begins with no
/// separator and with no Windows drive (a character and `:`).
pub open spec fn is_relative_text(part: Seq<char>) -> bool {
    part.len() == 0 || (part[0] != '/' && part[0] != '\\' && (part.len() < 2 || part[1] != ':'))
}

/// Whether `sep` is what a join may put between `base` and the part: nothing or one
/// separator, and a separator wherever `base` is non-empty and ends in neither a
/// separator nor `:`.
pub open spec fn separator_between(base: Seq<u8>, sep: Seq<u8>) -> bool {
    &&& (sep.len() == 0 || (sep.len() == 1 && is_separator_byte(sep[0])))
    &&& (base.len() > 0 && !is_separator_byte(base.last()) && base.last() != 0x3au8 ==> sep.len()
        == 1)
}

/// Whether `joined` is `base`, a separator where one is needed, then `part`.
pub open spec fn is_joined(base: Seq<u8>, part: Seq<u8>, joined: Seq<u8>) -> bool {
    exists|sep: Seq<u8>| #[trigger] separator_between(base, sep) && joined == base + sep + part
}

/// `base` with `part` adjoined, from `std::path::Path::join`. Trusted: std documents
/// that a relative part is appended after a separator where one is needed (none after
/// an empty path, a trailing separator or a bare drive such as `C:`), and that only a
/// verbatim prefix rewrites the path; which separator is the platform's.
#[verifier::external_body]
fn join_path(base: &Path, part: &str) -> (res: PathBuf)
    ensures
        !is_verbatim(path_bytes(base)) && is_relative_text(part@) ==> is_joined(
            path_bytes(base),
            encode_utf8(part@),
            path_buf_bytes(&res),
        ),
{
    base.join(part)
}

/// The path that `text` names, from `std::path::Path::new`. Trusted: std documents
/// that it wraps the text, whose encoding is its UTF-8.
#[verifier::external_body]
fn path_of(text: &str) -> (res: &Path)
    ensures
        path_bytes(res) == encode_utf8(text@),
{
    Path::new(text)
}

/// The path as a borrowed path (`PathBuf::as_path`). Trusted: it is the same path.
#[verifier::external_body]
fn as_path(path: &PathBuf) -> (res: &Path)
    ensures
        path_bytes(res) == path_buf_bytes(path),
{
    path.as_path()
}

/// The text of a path's bytes: their UTF-8 decoding where they are valid UTF-8.
pub open spec fn path_chars(bytes: Seq<u8>) -> Option<Seq<char>> {
    if valid_utf8(bytes) {
        Some(decode_utf8(bytes))
    } else {
        None
    }
}

/// The text of a path, from `std::path::Path::to_str`. Trusted: std documents that it
/// yields the text where the path is valid Unicode, which its encoding holds as UTF-8
/// and holds nothing else as.
#[verifier::external_body]
fn path_text(path: &Path) -> (res: Option<String>)
    ensures
        res.deep_view() == path_chars(path_bytes(path)),
{
    match path.to_str() {
        Some(text) => Some(text.to_string()),
        None => None,
    }
}

/// Whether a character can stand after a file name's last component: a separator
/// (`/`, or a backslash on Windows), or the dot of a trailing `.` component.
pub open spec fn is_trailing_char(c: char) -> bool {
    c == '/' || c == '\\' || c == '.'
}

/// Whether `name` has a dot at `i` followed by `extension`, with only trailing
/// separators and `.` components after it: the dot lies in the last component.
pub open spec fn extension_at(name: Seq<char>, extension: Seq<char>, i: int) -> bool {
    &&& 0 <= i && i + 1 + extension.len() <= name.len()
    &&& name[i] == '.'
    &&& name.subrange(i + 1, i + 1 + extension.len()) == extension
    &&& forall|k: int| i + 1 + extension.len() <= k < name.len() ==> is_trailing_char(#[trigger] name[k])
}

/// Whether `extension` can be what `Path::extension` finds in `name` on any platform:
/// it follows a dot of the last component and holds no dot and no `/`.
pub open spec fn extension_candidate(name: Seq<char>, extension: Seq<char>) -> bool {
    &&& exists|i: int| #[trigger] extension_at(name, extension, i)
    &&& !extension.contains('.')
    &&& !extension.contains('/')
}

/// Whether every platform reads the components of `name` alike, separated by `/`:
/// it holds no backslash and no `:`, and does not begin with two slashes (which
/// Windows reads as a network share).
pub open spec fn reads_alike(name: Seq<char>) -> bool {
    &&& !name.contains('\\')
    &&& !name.contains(':')
    &&& !(name.len() >= 2 && name[0] == '/' && name[1] == '/')
}

/// `name` without its trailing separators and trailing `.` components, which
/// reading a path's components passes over.
pub open spec fn without_trailing(name: Seq<char>) -> Seq<char>
    decreases name.len(),
{
    if name.len() > 0 && name.last() == '/' {
        without_trailing(name.drop_last())
    } else if name.len() >= 2 && name.last() == '.' && name[name.len() - 2] == '/' {
        without_trailing(name.drop_last())
    } else {
        name
    }
}

/// The text of `name` after its last `/` (all of it where it has none).
pub open spec fn after_last_slash(name: Seq<char>) -> Seq<char>
    decreases name.len(),
{
    if name.len() == 0 {
        name
    } else if name.last() == '/' {
        Seq::empty()
    } else {
        after_last_slash(name.drop_last()).push(name.last())
    }
}

/// The file name of a path read alike everywhere (`Path::file_name`): its last
/// component, or none where that is the root, `.` or `..`.
pub open spec fn file_name_of(name: Seq<char>) -> Option<Seq<char>> {
    let last = after_last_slash(without_trailing(name));
    if last.len() == 0 || last == seq!['.'] || last == seq!['.', '.'] {
        None
    } else {
        Some(last)
    }
}

/// The extension of a path read alike everywhere (`Path::extension`): that of its
/// file name, if it has one.
pub open spec fn path_extension_of(name: Seq<char>) -> Option<Seq<char>> {
    match file_name_of(name) {
        Some(file_name) => extension_after_last_dot(file_name),
        None => None,
    }
}

/// The extension of a single file name as `Path::extension` documents it: none
/// without a dot, none where the only dot is the first character, otherwise the
/// text after the last dot.
pub open spec fn extension_after_last_dot(name: Seq<char>) -> Option<Seq<char>>
    decreases name.len(),
{
    if name.len() == 0 {
        None
    } else if name.last() == '.' {
        if name.len() == 1 {
            None
        } else {
            Some(Seq::empty())
        }
    } else {
        match extension_after_last_dot(name.drop_last()) {
            Some(e) => Some(e.push(name.last())),
            None => None,
        }
    }
}

/// The extension of a path, from `std::path::Path::extension`, as text
/// (`OsStr::to_str`, which cannot fail on a part of a path that has text).
/// Trusted: std documents that the extension is taken from the file name (the last
/// component, after which only separators and `.` components may follow): none
/// without a file name or an embedded dot, none where the file name begins with its
/// only dot, otherwise the text after its last dot. So it holds no dot and no `/`.
/// Where the path's text holds a backslash or `:`, or begins with two slashes,
/// which component is last depends on the platform, and only that is left unsaid.
#[verifier::external_body]
fn path_extension(path: &Path) -> (res: Option<String>)
    ensures
        path_chars(path_bytes(path)) matches Some(name) ==> (res matches Some(e)
            ==> extension_candidate(name, e@)),
        path_chars(path_bytes(path)) matches Some(name) ==> (reads_alike(name) ==> res.deep_view()
            == path_extension_of(name)),
{
    match path.extension() {
        Some(extension) => match extension.to_str() {
            Some(text) => Some(text.to_string()),
            None => None,
        },
        None => None,
    }
}

/// Whether `c` has the Unicode `White_Space` property (`char::is_whitespace`).
pub open spec fn is_white_space(c: char) -> bool {
    ||| '\u{9}' <= c <= '\u{d}'
    ||| c == ' '
    ||| c == '\u{85}'
    ||| c == '\u{a0}'
    ||| c == '\u{1680}'
    ||| '\u{2000}' <= c <= '\u{200a}'
    ||| c == '\u{2028}'
    ||| c == '\u{2029}'
    ||| c == '\u{202f}'
    ||| c == '\u{205f}'
    ||| c == '\u{3000}'
}

/// `text` without its leading white space.
pub open spec fn trimmed_start(text: Seq<char>) -> Seq<char>
    decreases text.len(),
{
    if text.len() > 0 && is_white_space(text[0]) {
        trimmed_start(text.drop_first())
    } else {
        text
    }
}

/// `text` without its trailing white space.
pub open spec fn trimmed_end(text: Seq<char>) -> Seq<char>
    decreases text.len(),
{
    if text.len() > 0 && is_white_space(text.last()) {
        trimmed_end(text.drop_last())
    } else {
        text
    }
}

/// What `str::trim` leaves of a text: leading and trailing white space removed.
pub open spec fn trimmed(text: Seq<char>) -> Seq<char> {
    trimmed_end(trimmed_start(text))
}

/// What `str::to_lowercase` makes of a text (Unicode lower case).
pub uninterp spec fn lowercased(text: Seq<char>) -> Seq<char>;

/// Trims a text with `str::trim`. Trusted: std documents that it removes leading
/// and trailing characters with the Unicode `White_Space` property.
#[verifier::external_body]
fn trim_text(text: &str) -> (res: &str)
    ensures
        res@ == trimmed(text@),
{
    text.trim()
}

/// Lower-cases a text with `str::to_lowercase`. Trusted: the result is named by `lowercased`.
#[verifier::external_body]
fn lowercase_text(text: &str) -> (res: String)
    ensures
        res@ == lowercased(text@),
{
    text.to_lowercase()
}

/// The extension kept for a stored file, from the raw extension of the uploaded name:
/// trimmed and lower-cased, and none where nothing is left.
pub open spec fn normalized_extension(raw: Option<Seq<char>>) -> Option<Seq<char>> {
    match raw {
        Some(e) => if trimmed(e).len() == 0 {
            None
        } else {
            Some(lowercased(trimmed(e)))
        },
        None => None,
    }
}

/// The extension kept for a stored file, from the raw extension of the uploaded name.
pub fn normalize_extension(raw: Option<String>) -> (res: Option<String>)
    ensures
        res.deep_view() == normalized_extension(raw.deep_view()),
{
    match raw {
        Some(value) => {
            let trimmed_value = trim_text(value.as_str());
            if trimmed_value.is_empty() {
                None
            } else {
                Some(lowercase_text(trimmed_value))
            }
        },
        None => None,
    }
}

/// What the stored extension of `filename` may be: none, or a normalized
/// extension found after a dot of its last component; none without a dot; and for a
/// name that every platform reads alike, exactly the normalized extension of its
/// file name.
pub open spec fn extension_read(filename: Seq<char>, extension: Option<Seq<char>>) -> bool {
    &&& (extension is None || exists|e: Seq<char>|
        #[trigger] extension_candidate(filename, e) && extension == normalized_extension(Some(e)))
    &&& (!filename.contains('.') ==> extension is None)
    &&& (reads_alike(filename) ==> extension == normalized_extension(path_extension_of(filename)))
}

/// The extension of an uploaded file's name, trimmed and lower-cased, if it has one.
pub fn extract_extension(filename: &str) -> (res: Option<String>)
    ensures
        extension_read(filename@, res.deep_view()),
{
    let raw = path_extension(path_of(filename));
    proof {
        vstd::utf8::encode_utf8_valid_utf8(filename@);
        vstd::utf8::encode_utf8_decode_utf8(filename@);
    }
    let ghost raw_view = raw.deep_view();
    let res = normalize_extension(raw);
    proof {
        if let Some(e) = raw_view {
            assert(extension_candidate(filename@, e));
            let i: int = choose|i: int| #[trigger] extension_at(filename@, e, i);
            assert(filename@[i] == '.');
        }
    }
    res
}

/// The name of a stored original: the identifier, then a dot and the extension if any.
pub open spec fn original_name(id: u128, extension: Option<Seq<char>>) -> Seq<char> {
    match extension {
        Some(e) => uuid_hyphenated(id) + seq!['.'] + e,
        None => uuid_hyphenated(id),
    }
}

/// The name of a stored thumbnail: the identifier and `.png`.
pub open spec fn thumbnail_name(id: u128) -> Seq<char> {
    uuid_hyphenated(id) + ".png"@
}

/// Whether `path` is the file `name` in `directory` under `root`: the root, a
/// separator where needed, the directory, a separator, the name. (Under a verbatim
/// root, where joining rewrites the path, nothing is claimed.)
pub open spec fn stored_at(root: Seq<char>, directory: Seq<char>, name: Seq<char>, path: Seq<u8>) -> bool {
    !is_verbatim(encode_utf8(root)) ==> exists|dir: Seq<u8>|
        #[trigger] is_joined(encode_utf8(root), encode_utf8(directory), dir) && (!is_verbatim(dir)
            ==> is_joined(dir, encode_utf8(name), path))
}

/// A text that begins with an identifier is a relative path on every platform.
proof fn lemma_identifier_first(id: u128, rest: Seq<char>)
    ensures
        is_relative_text(uuid_hyphenated(id) + rest),
{
    let text = uuid_hyphenated(id) + rest;
    let hex = crate::ids::uuid_hex(id);
    assert(text[0] == hex[0]);
    assert(text[1] == hex[1]);
}

/// The name of a stored original: the identifier, then a dot and the extension if any.
pub fn original_file_name(id: u128, extension: &Option<String>) -> (res: String)
    ensures
        res@ == original_name(id, extension.deep_view()),
{
    let mut name = uuid_to_text(id);
    match extension {
        Some(e) => {
            name.append(".");
            name.append(e.as_str());
            proof {
                reveal_strlit(".");
            }
        },
        None => {},
    }
    name
}

/// The name of a stored thumbnail: the identifier and `.png`.
pub fn thumbnail_file_name(id: u128) -> (res: String)
    ensures
        res@ == thumbnail_name(id),
{
    let mut name = uuid_to_text(id);
    name.append(".png");
    name
}

/// The directory of stored originals: `originals` under the storage root.
pub fn originals_directory(storage_root: &str) -> (res: PathBuf)
    ensures
        !is_verbatim(encode_utf8(storage_root@)) ==> is_joined(
            encode_utf8(storage_root@),
            encode_utf8("originals"@),
            path_buf_bytes(&res),
        ),
{
    proof {
        reveal_strlit("originals");
    }
    join_path(path_of(storage_root), "originals")
}

/// The directory of thumbnails: `thumbnails` under the storage root.
pub fn thumbnails_directory(storage_root: &str) -> (res: PathBuf)
    ensures
        !is_verbatim(encode_utf8(storage_root@)) ==> is_joined(
            encode_utf8(storage_root@),
            encode_utf8("thumbnails"@),
            path_buf_bytes(&res),
        ),
{
    proof {
        reveal_strlit("thumbnails");
    }
    join_path(path_of(storage_root), "thumbnails")
}

/// Where upload `id` is stored: in `originals` under the storage root, named by
/// the identifier and the uploaded name's extension.
pub fn build_original_path(storage_root: &str, id: u128, original_filename: &str) -> (res: PathBuf)
    ensures
        exists|extension: Option<Seq<char>>|
            #[trigger] extension_read(original_filename@, extension) && stored_at(
                storage_root@,
                "originals"@,
                original_name(id, extension),
                path_buf_bytes(&res),
            ),
{
    let extension = extract_extension(original_filename);
    let directory = originals_directory(storage_root);
    let name = original_file_name(id, &extension);
    proof {
        match extension.deep_view() {
            Some(e) => lemma_identifier_first(id, seq!['.'] + e),
            None => lemma_identifier_first(id, Seq::empty()),
        }
        assert(uuid_hyphenated(id) + Seq::<char>::empty() =~= uuid_hyphenated(id));
    }
    let res = join_path(as_path(&directory), name.as_str());
    proof {
        match extension.deep_view() {
            Some(e) => assert(uuid_hyphenated(id) + (seq!['.'] + e) =~= uuid_hyphenated(id) + seq!['.'] + e),
            None => {},
        }
        assert(extension_read(original_filename@, extension.deep_view()));
    }
    res
}

/// Where the thumbnail of job `id` is stored: in `thumbnails` under the storage
/// root, named by the identifier and `.png`.
pub fn build_thumbnail_path(storage_root: &str, id: u128) -> (res: PathBuf)
    ensures
        stored_at(storage_root@, "thumbnails"@, thumbnail_name(id), path_buf_bytes(&res)),
{
    let directory = thumbnails_directory(storage_root);
    let name = thumbnail_file_name(id);
    proof {
        lemma_identifier_first(id, ".png"@);
    }
    join_path(as_path(&directory), name.as_str())
}

/// The message of a path that is not valid Unicode.
pub open spec fn invalid_path_message() -> Seq<char> {
    "path contains invalid UTF-8"@
}

/// A path's text, or the storage error for a path that has none.
pub fn path_text_or_error(text: Option<String>) -> (res: Result<String, AppError>)
    ensures
        match text {
            Some(t) => res matches Ok(s) && s@ == t@,
            None => res matches Err(AppError::Storage(m)) && m@ == invalid_path_message(),
        },
{
    match text {
        Some(value) => Ok(value),
        None => Err(AppError::Storage(String::from_str("path contains invalid UTF-8"))),
    }
}

/// A path's text; a path that is not valid Unicode is a storage error.
pub fn path_to_string(path: &Path) -> (res: Result<String, AppError>)
    ensures
        match path_chars(path_bytes(path)) {
            Some(text) => res matches Ok(s) && s@ == text,
            None => res matches Err(AppError::Storage(m)) && m@ == invalid_path_message(),
        },
{
    path_text_or_error(path_text(path))
}

} // verus!
