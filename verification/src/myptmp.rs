//! Wallpapers made from templates: which files a generated wallpaper
//! consists of, and where it is put.

pub mod common;
pub mod image;
pub mod parallax;
pub mod video;
