pub mod images;
