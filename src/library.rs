use vstd::prelude::*;

use crate::text::{lower_of, lowercase};

verus! {

/// The kind of content a wallpaper file holds.
#[derive(Clone, Copy, Debug, PartialEq, Eq, Structural)]
pub enum WallpaperType {
    /// A still picture: jpg, jpeg, png, bmp, webp.
    Image,
    /// An animated picture: gif.
    Gif,
    /// A video: mp4, webm, avi, mov, mkv.
    Video,
    /// A web page with animations: html, htm.
    Html,
}

/// The kind of wallpaper for a lower-case file extension; anything unknown is
/// taken for a picture.
pub open spec fn type_for_extension(ext: Seq<char>) -> WallpaperType {
    if ext == "jpg"@ || ext == "jpeg"@ || ext == "png"@ || ext == "bmp"@ || ext == "webp"@ {
        WallpaperType::Image
    } else if ext == "gif"@ {
        WallpaperType::Gif
    } else if ext == "mp4"@ || ext == "webm"@ || ext == "avi"@ || ext == "mov"@ || ext == "mkv"@ {
        WallpaperType::Video
    } else if ext == "html"@ || ext == "htm"@ {
        WallpaperType::Html
    } else {
        WallpaperType::Image
    }
}

/// The kind of wallpaper for each type code of a Lively Wallpaper library
/// entry.
pub open spec fn type_for_lively_code(code: u32) -> WallpaperType {
    if code == 1 {
        WallpaperType::Video
    } else if code == 2 {
        WallpaperType::Gif
    } else if code == 5 {
        WallpaperType::Image
    } else {
        WallpaperType::Html
    }
}

/// Whether a string holds exactly the given text.
fn is_text(s: &String, literal: &str) -> (r: bool)
    ensures
        r == (s@ == literal@),
{
    let expected = String::from_str(literal);
    *s == expected
}

impl WallpaperType {
    /// The kind of wallpaper for a file extension, in any case.
    pub fn from_extension(ext: &str) -> (r: WallpaperType)
        ensures
            r == type_for_extension(lower_of(ext@)),
    {
        let lower = lowercase(ext);
        WallpaperType::from_lowercase_extension(&lower)
    }

    /// The kind of wallpaper for an extension already in lower case.
    pub fn from_lowercase_extension(ext: &String) -> (r: WallpaperType)
        ensures
            r == type_for_extension(ext@),
    {
        if is_text(ext, "jpg") || is_text(ext, "jpeg") || is_text(ext, "png") || is_text(ext, "bmp")
            || is_text(ext, "webp") {
            WallpaperType::Image
        } else if is_text(ext, "gif") {
            WallpaperType::Gif
        } else if is_text(ext, "mp4") || is_text(ext, "webm") || is_text(ext, "avi") || is_text(
            ext,
            "mov",
        ) || is_text(ext, "mkv") {
            WallpaperType::Video
        } else if is_text(ext, "html") || is_text(ext, "htm") {
            WallpaperType::Html
        } else {
            WallpaperType::Image
        }
    }

    /// The kind of wallpaper for the type code of a Lively Wallpaper entry.
    pub fn from_lively_code(code: u32) -> (r: WallpaperType)
        ensures
            r == type_for_lively_code(code),
    {
        if code == 1 {
            WallpaperType::Video
        } else if code == 2 {
            WallpaperType::Gif
        } else if code == 5 {
            WallpaperType::Image
        } else {
            WallpaperType::Html
        }
    }

    /// Whether the wallpaper is drawn by the video renderer.
    pub fn is_video(&self) -> (r: bool)
        ensures
            r == (*self == WallpaperType::Video),
    {
        *self == WallpaperType::Video
    }
}

/// One wallpaper of the local library.
#[derive(Clone, Debug)]
pub struct NativeWallpaper {
    pub id: String,
    pub title: String,
    pub file_path: String,
    pub wallpaper_type: WallpaperType,
    pub thumbnail: Option<String>,
}

impl NativeWallpaper {
    /// The entry for a single wallpaper file: named after the file's stem,
    /// typed by its extension, without a thumbnail.
    pub fn from_file(stem: String, file_path: String, extension: &str) -> (r: NativeWallpaper)
        ensures
            r.id@ == stem@,
            r.title@ == stem@,
            r.file_path@ == file_path@,
            r.wallpaper_type == type_for_extension(lower_of(extension@)),
            r.thumbnail is None,
    {
        let title = stem.clone();
        NativeWallpaper {
            id: stem,
            title,
            file_path,
            wallpaper_type: WallpaperType::from_extension(extension),
            thumbnail: None,
        }
    }
}

/// Finds the wallpaper with the given id; the first one wins if several
/// share it.
pub fn find_wallpaper(wallpapers: &Vec<NativeWallpaper>, id: &String) -> (r: Option<usize>)
    ensures
        match r {
            Some(i) => i < wallpapers@.len() && wallpapers@[i as int].id@ == id@ && forall|j: int|
                0 <= j < i ==> (#[trigger] wallpapers@[j]).id@ != id@,
            None => forall|j: int| 0 <= j < wallpapers@.len() ==> (#[trigger] wallpapers@[j]).id@ != id@,
        },
{
    let mut i: usize = 0;
    while i < wallpapers.len()
        invariant
            i <= wallpapers@.len(),
            forall|j: int| 0 <= j < i ==> (#[trigger] wallpapers@[j]).id@ != id@,
        decreases wallpapers@.len() - i,
    {
        if wallpapers[i].id == *id {
            return Some(i);
        }
        i = i + 1;
    }
    None
}

/// Information on one wallpaper of a Lively Wallpaper library.
#[derive(Clone, Debug)]
pub struct LivelyInfo {
    pub app_version: Option<String>,
    pub title: String,
    pub thumbnail: String,
    pub preview: String,
    pub description: Option<String>,
    pub author: Option<String>,
    pub license: Option<String>,
    pub contact: Option<String>,
    pub wallpaper_type: u32,
    pub file_name: String,
    pub arguments: Option<String>,
    pub is_absolute_path: Option<bool>,
}

/// One wallpaper found in a Lively Wallpaper library.
#[derive(Clone, Debug)]
pub struct WallpaperItem {
    pub id: String,
    pub title: String,
    pub thumbnail_path: String,
    pub preview_path: String,
    pub wallpaper_type: u32,
    pub folder_path: String,
    pub file_path: String,
}

/// One picture offered by the system; `source` says where it was found
/// (spotlight, theme or user).
#[derive(Clone, Debug)]
pub struct WallpaperInfo {
    pub path: String,
    pub title: Option<String>,
    pub copyright: Option<String>,
    pub source: String,
}

} // verus!
