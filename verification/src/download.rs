//! Downloading images: where a download goes, where its thumbnails go, when it is
//! complete, and what is recorded of it.
use vstd::prelude::*;

use crate::decimal::{int_decimal, u64_to_decimal};
use crate::paths::{
    extension, extension_spec, file_stem, file_stem_spec, path_join, path_join_spec,
};
use crate::error::framed;
use crate::text::{contains_text, contains_text_spec, push_char, text_eq};

verus! {

/// A task to download an image from a URL to a file. Paths are relative to `root_dir`.
#[derive(Debug)]
pub struct DownloadTask {
    pub url: String,
    pub root_dir: String,
    pub subdir: String,
    pub filename: String,
    pub image_id: i32,
}

/// A downloaded image on disk. All paths are relative to the root directory.
#[derive(Debug)]
pub struct LocalImage {
    pub filename: String,
    pub relpath: String,
    pub thumbnail_relpath: Option<String>,
    pub small_thumbnail_relpath: Option<String>,
    pub width: Option<u32>,
    pub height: Option<u32>,
    pub size: u64,
}

/// What can go wrong while downloading an image. Errors raised by other components
/// (I/O, the network, image decoding and encoding) carry their message.
#[derive(Debug)]
pub enum DownloadError {
    InvalidUrl(String),
    IOError(String),
    NetworkError(String),
    ImageError(String),
    JPEGError(String),
    IncompleteDownload(String),
}

/// How a download error reads: a phrase naming its kind before the message it carries.
pub open spec fn download_error_message(e: DownloadError) -> Seq<char> {
    match e {
        DownloadError::InvalidUrl(m) => "Invalid URL: "@ + m@,
        DownloadError::IOError(m) => "IO Error: "@ + m@,
        DownloadError::NetworkError(m) => "Network Error: "@ + m@,
        DownloadError::ImageError(m) => "Image error: "@ + m@,
        DownloadError::JPEGError(m) => "JPEG error: "@ + m@,
        DownloadError::IncompleteDownload(m) => "Incomplete download: "@ + m@,
    }
}

impl DownloadError {
    /// The error as text (see `download_error_message`).
    pub fn message(&self) -> (r: String)
        ensures
            r@ == download_error_message(*self),
    {
        proof {
            reveal_strlit("");
        }
        let r = match self {
            DownloadError::InvalidUrl(m) => framed("Invalid URL: ", m.as_str(), ""),
            DownloadError::IOError(m) => framed("IO Error: ", m.as_str(), ""),
            DownloadError::NetworkError(m) => framed("Network Error: ", m.as_str(), ""),
            DownloadError::ImageError(m) => framed("Image error: ", m.as_str(), ""),
            DownloadError::JPEGError(m) => framed("JPEG error: ", m.as_str(), ""),
            DownloadError::IncompleteDownload(m) => framed("Incomplete download: ", m.as_str(), ""),
        };
        assert(r@ =~= download_error_message(*self));
        r
    }
}

/// The `Referer` header a download from this URL is sent with: images served by
/// Pixiv's image host (`pximg.net`) are only given to requests that come from
/// `https://www.pixiv.net/`; other URLs are fetched without one.
pub fn referer_for(url: &str) -> (r: Option<String>)
    ensures
        match r {
            Some(h) => contains_text_spec(url@, "pximg.net"@) && h@ == "https://www.pixiv.net/"@,
            None => !contains_text_spec(url@, "pximg.net"@),
        },
{
    if contains_text(url, "pximg.net") {
        Some(String::from_str("https://www.pixiv.net/"))
    } else {
        None
    }
}

/// Longest side of the large thumbnail.
pub const THUMBNAIL_SIZE: u32 = 1200;
/// Longest side of the small thumbnail.
pub const SMALL_THUMBNAIL_SIZE: u32 = 300;

/// What `str::to_lowercase` gives for a text: each character in lower case, by the
/// Unicode rules.
pub uninterp spec fn lowercase_of(s: Seq<char>) -> Seq<char>;

/// Whether every character of a text is ASCII.
pub open spec fn is_ascii_text(s: Seq<char>) -> bool {
    forall|i: int| 0 <= i < s.len() ==> (#[trigger] s[i] as u32) < 128
}

/// A text with its ASCII capital letters made small, every other character kept.
pub open spec fn ascii_lowercase(s: Seq<char>) -> Seq<char> {
    s.map_values(
        |c: char|
            if 'A' <= c && c <= 'Z' {
                ((c as u32) + 32) as char
            } else {
                c
            },
    )
}

/// `str::to_lowercase`. Its result is named: the Unicode case tables are not written
/// out here. On ASCII text it makes the capital letters small and keeps the rest.
#[verifier::external_body]
fn to_lowercase(s: &str) -> (r: String)
    ensures
        r@ == lowercase_of(s@),
        is_ascii_text(s@) ==> r@ == ascii_lowercase(s@),
{
    s.to_lowercase()
}

/// The extension a file is taken to have: that of its name in lower case, `jpg` when
/// the name has none.
pub open spec fn file_extension_spec(path: Seq<char>) -> Seq<char> {
    lowercase_of(
        match extension_spec(path) {
            Some(e) => e,
            None => seq!['j', 'p', 'g'],
        },
    )
}

/// The extension a file is taken to have.
pub fn get_extension(path: &str) -> (r: String)
    ensures
        r@ == file_extension_spec(path@),
        ({
            let e = match extension_spec(path@) {
                Some(e) => e,
                None => seq!['j', 'p', 'g'],
            };
            is_ascii_text(e) ==> r@ == ascii_lowercase(e)
        }),
{
    match extension(path) {
        Some(e) => to_lowercase(e.as_str()),
        None => {
            let jpg = "jpg";
            proof {
                reveal_strlit("jpg");
            }
            assert(jpg@ =~= seq!['j', 'p', 'g']);
            to_lowercase(jpg)
        },
    }
}

/// Whether an extension (in lower case) is that of a video file, which gets no
/// dimensions and no thumbnails.
pub open spec fn is_video_extension_spec(ext: Seq<char>) -> bool {
    ||| ext == seq!['m', 'p', '4']
    ||| ext == seq!['w', 'e', 'b', 'm']
    ||| ext == seq!['m', 'k', 'v']
    ||| ext == seq!['a', 'v', 'i']
    ||| ext == seq!['f', 'l', 'v']
    ||| ext == seq!['m', 'o', 'v']
    ||| ext == seq!['w', 'm', 'v']
    ||| ext == seq!['m', '4', 'v']
}

/// Whether an extension (in lower case) is that of a video file.
pub fn is_video_extension(ext: &str) -> (r: bool)
    ensures
        r == is_video_extension_spec(ext@),
{
    proof {
        reveal_strlit("mp4");
        reveal_strlit("webm");
        reveal_strlit("mkv");
        reveal_strlit("avi");
        reveal_strlit("flv");
        reveal_strlit("mov");
        reveal_strlit("wmv");
        reveal_strlit("m4v");
    }
    assert("mp4"@ =~= seq!['m', 'p', '4']);
    assert("webm"@ =~= seq!['w', 'e', 'b', 'm']);
    assert("mkv"@ =~= seq!['m', 'k', 'v']);
    assert("avi"@ =~= seq!['a', 'v', 'i']);
    assert("flv"@ =~= seq!['f', 'l', 'v']);
    assert("mov"@ =~= seq!['m', 'o', 'v']);
    assert("wmv"@ =~= seq!['w', 'm', 'v']);
    assert("m4v"@ =~= seq!['m', '4', 'v']);
    text_eq(ext, "mp4") || text_eq(ext, "webm") || text_eq(ext, "mkv") || text_eq(ext, "avi")
        || text_eq(ext, "flv") || text_eq(ext, "mov") || text_eq(ext, "wmv") || text_eq(ext, "m4v")
}

/// Whether a downloaded file gets its dimensions read and thumbnails made: every file
/// but a video.
pub fn has_thumbnails(filename: &str) -> (r: bool)
    ensures
        r == !is_video_extension_spec(file_extension_spec(filename@)),
{
    let ext = get_extension(filename);
    !is_video_extension(ext.as_str())
}

/// Where the thumbnail of an image at `subdir/filename` goes, with its longest side
/// `size`: `thumb/<subdir>/<stem>.<size>.jpg`; `None` when the filename has no stem.
pub open spec fn thumbnail_relpath_spec(subdir: Seq<char>, filename: Seq<char>, size: u32) -> Option<
    Seq<char>,
> {
    match file_stem_spec(filename) {
        Some(stem) => Some(
            path_join_spec(
                path_join_spec(seq!['t', 'h', 'u', 'm', 'b'], subdir),
                stem + seq!['.'] + int_decimal(size as int) + seq!['.', 'j', 'p', 'g'],
            ),
        ),
        None => None,
    }
}

/// The default path of the thumbnail of an image at `subdir/filename`, relative to the
/// root directory. For example the 1200 thumbnail of `path/to/image.jpg` is
/// `thumb/path/to/image.1200.jpg`.
pub fn get_default_thumbnail_relpath(subdir: &str, filename: &str, size: u32) -> (r: Result<
    String,
    DownloadError,
>)
    ensures
        match thumbnail_relpath_spec(subdir@, filename@, size) {
            Some(p) => r matches Ok(s) && s@ == p,
            None => r matches Err(DownloadError::InvalidUrl(m)) && m@ == filename@,
        },
{
    let stem = match file_stem(filename) {
        Some(s) => s,
        None => return Err(DownloadError::InvalidUrl(String::from_str(filename))),
    };
    let mut basename = stem;
    push_char(&mut basename, '.');
    let digits = u64_to_decimal(size as u64);
    basename.append(digits.as_str());
    let jpg = ".jpg";
    proof {
        reveal_strlit(".jpg");
        reveal_strlit("thumb");
    }
    basename.append(jpg);
    assert(jpg@ =~= seq!['.', 'j', 'p', 'g']);
    assert("thumb"@ =~= seq!['t', 'h', 'u', 'm', 'b']);
    let dir = path_join("thumb", subdir);
    Ok(path_join(dir.as_str(), basename.as_str()))
}

/// Where a task's file goes: `root_dir/subdir/filename`.
pub fn destination_path(task: &DownloadTask) -> (r: String)
    ensures
        r@ == path_join_spec(path_join_spec(task.root_dir@, task.subdir@), task.filename@),
{
    let dir = path_join(task.root_dir.as_str(), task.subdir.as_str());
    path_join(dir.as_str(), task.filename.as_str())
}

/// Whether a download is complete: it must hold as many bytes as the server announced,
/// if it announced a length, and at least one.
pub fn check_download_complete(url: &str, size: u64, content_length: Option<u64>) -> (r: Result<
    (),
    DownloadError,
>)
    ensures
        (match content_length {
            Some(n) => size == n,
            None => true,
        } && size > 0) ==> r is Ok,
        !(match content_length {
            Some(n) => size == n,
            None => true,
        } && size > 0) ==> (r matches Err(DownloadError::IncompleteDownload(u)) && u@ == url@),
{
    if let Some(n) = content_length {
        if size != n {
            return Err(DownloadError::IncompleteDownload(String::from_str(url)));
        }
    }
    if size == 0 {
        return Err(DownloadError::IncompleteDownload(String::from_str(url)));
    }
    Ok(())
}

/// What is recorded of a downloaded image: its name and its path relative to the root
/// directory (`subdir/filename`), with the thumbnails, dimensions and size found.
pub fn local_image_of(
    task: &DownloadTask,
    thumbnail_relpath: Option<String>,
    small_thumbnail_relpath: Option<String>,
    width: Option<u32>,
    height: Option<u32>,
    size: u64,
) -> (r: LocalImage)
    ensures
        r.relpath@ == path_join_spec(task.subdir@, task.filename@),
        r.filename@ == task.filename@,
        r.thumbnail_relpath == thumbnail_relpath,
        r.small_thumbnail_relpath == small_thumbnail_relpath,
        r.width == width,
        r.height == height,
        r.size == size,
{
    LocalImage {
        relpath: path_join(task.subdir.as_str(), task.filename.as_str()),
        filename: task.filename.clone(),
        thumbnail_relpath,
        small_thumbnail_relpath,
        width,
        height,
        size,
    }
}

} // verus!
