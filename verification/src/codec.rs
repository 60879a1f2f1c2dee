//! Decoding downloaded image bytes and making thumbnails, with the `image` crate.
use vstd::prelude::*;

use std::io::Cursor;

use image::{DynamicImage, ImageFormat};

use crate::download::{
    file_extension_spec, get_default_thumbnail_relpath, has_thumbnails, is_video_extension_spec, thumbnail_relpath_spec, DownloadError,
    DownloadTask, LocalImage, SMALL_THUMBNAIL_SIZE, THUMBNAIL_SIZE,
};
use crate::paths::{path_join, path_join_spec};

verus! {

/// A decoded image.
#[verifier::external_type_specification]
#[verifier::external_body]
pub struct ExDynamicImage(image::DynamicImage);

/// An image file format.
#[verifier::external_type_specification]
#[verifier::external_body]
pub struct ExImageFormat(image::ImageFormat);

/// The format `ImageFormat::from_mime_type` gives for a MIME type, if any.
pub uninterp spec fn format_of_mime(mime: Seq<char>) -> Option<ImageFormat>;

/// The format `ImageFormat::from_path` gives for a file name, from its extension, if any.
pub uninterp spec fn format_of_file_name(filename: Seq<char>) -> Option<ImageFormat>;

/// The image that decoding the bytes in the given format gives, if they decode.
pub uninterp spec fn decoded_as(bytes: Seq<u8>, format: ImageFormat) -> Option<DynamicImage>;

/// The width of a decoded image.
pub uninterp spec fn image_width(img: DynamicImage) -> u32;

/// The height of a decoded image.
pub uninterp spec fn image_height(img: DynamicImage) -> u32;

/// The thumbnail `DynamicImage::thumbnail` makes of an image within the given bounds.
pub uninterp spec fn thumbnail_of(img: DynamicImage, max_width: u32, max_height: u32) -> DynamicImage;

/// The pixels of an image as 8-bit RGB, row by row, as `DynamicImage::to_rgb8` gives them.
pub uninterp spec fn rgb8_of(img: DynamicImage) -> Seq<u8>;

/// The MIME types `ImageFormat::from_mime_type` knows.
pub open spec fn known_image_mime(mime: Seq<char>) -> bool {
    ||| mime == "image/avif"@
    ||| mime == "image/jpeg"@
    ||| mime == "image/png"@
    ||| mime == "image/gif"@
    ||| mime == "image/webp"@
    ||| mime == "image/tiff"@
    ||| mime == "image/x-targa"@
    ||| mime == "image/x-tga"@
    ||| mime == "image/vnd-ms.dds"@
    ||| mime == "image/bmp"@
    ||| mime == "image/x-icon"@
    ||| mime == "image/vnd.microsoft.icon"@
    ||| mime == "image/vnd.radiance"@
    ||| mime == "image/x-exr"@
    ||| mime == "image/x-portable-bitmap"@
    ||| mime == "image/x-portable-graymap"@
    ||| mime == "image/x-portable-pixmap"@
    ||| mime == "image/x-portable-anymap"@
    ||| mime == "image/x-qoi"@
}

/// `ImageFormat::from_mime_type`: a fixed table from MIME types to formats. The
/// contract states which MIME types have a format and names the format; which format
/// each gets is left to the name.
#[verifier::external_body]
fn format_from_mime(mime: &str) -> (r: Option<ImageFormat>)
    ensures
        r == format_of_mime(mime@),
        r is Some <==> known_image_mime(mime@),
{
    ImageFormat::from_mime_type(mime)
}

/// `ImageFormat::from_path`, its error dropped: the format that the file name's
/// extension names, if any. It reads only the name, not a file.
#[verifier::external_body]
fn format_from_path(filename: &str) -> (r: Option<ImageFormat>)
    ensures
        r == format_of_file_name(filename@),
{
    ImageFormat::from_path(filename).ok()
}

/// `ImageReader::with_format(..).decode()` on the bytes, its error dropped: the image
/// the bytes hold in that format, if they decode.
#[verifier::external_body]
fn decode_as(bytes: &[u8], format: ImageFormat) -> (r: Option<DynamicImage>)
    ensures
        r == decoded_as(bytes@, format),
{
    image::ImageReader::with_format(Cursor::new(bytes), format).decode().ok()
}

/// `ImageReader::new(..).with_guessed_format()` then `decode()` on the bytes. The
/// format is guessed from the first bytes through hooks that a process may register,
/// so the result is not named; an error is `IOError` from the guess or `ImageError`
/// from decoding, with its message.
#[verifier::external_body]
fn decode_guessed(bytes: &[u8]) -> (r: Result<DynamicImage, DownloadError>)
    ensures
        r matches Err(e) ==> (e is IOError || e is ImageError),
{
    match image::ImageReader::new(Cursor::new(bytes)).with_guessed_format() {
        Ok(reader) => reader.decode().map_err(|e| DownloadError::ImageError(e.to_string())),
        Err(e) => Err(DownloadError::IOError(e.to_string())),
    }
}

/// `DynamicImage::width` and `DynamicImage::height`.
#[verifier::external_body]
fn image_dimensions(img: &DynamicImage) -> (r: (u32, u32))
    ensures
        r == (image_width(*img), image_height(*img)),
{
    (img.width(), img.height())
}

/// `DynamicImage::thumbnail`: the image resized to fit within the bounds, keeping its
/// aspect ratio; a smaller image is enlarged until it touches them.
#[verifier::external_body]
pub fn create_thumbnail(img: &DynamicImage, max_width: u32, max_height: u32) -> (r: DynamicImage)
    ensures
        r == thumbnail_of(*img, max_width, max_height),
{
    img.thumbnail(max_width, max_height)
}

/// `DynamicImage::to_rgb8`, as raw bytes: the pixels converted to 8-bit RGB.
#[verifier::external_body]
fn rgb8_bytes(img: &DynamicImage) -> (r: Vec<u8>)
    ensures
        r@ == rgb8_of(*img),
{
    img.to_rgb8().into_raw()
}

/// The format a download is decoded in first: that of its MIME type when the type
/// names one, else that of its file name's extension.
pub open spec fn chosen_format(filename: Seq<char>, mime_type: Option<Seq<char>>) -> Option<ImageFormat> {
    match mime_type {
        Some(m) if format_of_mime(m) is Some => format_of_mime(m),
        _ => format_of_file_name(filename),
    }
}

/// Decodes downloaded bytes: in the format their MIME type names, else in the one
/// their file name's extension names; when there is none, or the bytes do not decode
/// in it, in the format guessed from the bytes themselves.
pub fn open_image_bytes(bytes: &[u8], filename: &str, mime_type: Option<&str>) -> (r: Result<
    DynamicImage,
    DownloadError,
>)
    ensures
        ({
            let format = chosen_format(
                filename@,
                match mime_type {
                    Some(m) => Some(m@),
                    None => None,
                },
            );
            &&& (format matches Some(f) && decoded_as(bytes@, f) is Some) ==> r == Ok::<DynamicImage, DownloadError>(
                decoded_as(bytes@, format->0)->0,
            )
            &&& r matches Err(e) ==> (e is IOError || e is ImageError)
        }),
{
    let from_mime = match mime_type {
        Some(m) => format_from_mime(m),
        None => None,
    };
    let format = match from_mime {
        Some(f) => Some(f),
        None => format_from_path(filename),
    };
    if let Some(f) = format {
        if let Some(img) = decode_as(bytes, f) {
            return Ok(img);
        }
    }
    decode_guessed(bytes)
}

/// The width and height of a decoded image.
pub fn image_size(img: &DynamicImage) -> (r: (u32, u32))
    ensures
        r == (image_width(*img), image_height(*img)),
{
    image_dimensions(img)
}

/// A thumbnail ready to be written as a JPEG: its size and its 8-bit RGB pixels.
#[derive(Debug)]
pub struct ThumbnailPixels {
    pub width: u32,
    pub height: u32,
    pub rgb: Vec<u8>,
}

/// The thumbnail of an image that fits in a square of side `size`, as 8-bit RGB
/// pixels with its size, ready to be encoded.
pub fn thumbnail_pixels(img: &DynamicImage, size: u32) -> (r: ThumbnailPixels)
    ensures
        r.width == image_width(thumbnail_of(*img, size, size)),
        r.height == image_height(thumbnail_of(*img, size, size)),
        r.rgb@ == rgb8_of(thumbnail_of(*img, size, size)),
{
    let thumbnail = create_thumbnail(img, size, size);
    let (width, height) = image_dimensions(&thumbnail);
    let rgb = rgb8_bytes(&thumbnail);
    ThumbnailPixels { width, height, rgb }
}

/// A thumbnail to be written: where it goes, relative to the root directory, and its pixels.
#[derive(Debug)]
pub struct ThumbnailFile {
    pub relpath: String,
    pub pixels: ThumbnailPixels,
}

/// What a download leaves: the record of the image and the thumbnails to write.
#[derive(Debug)]
pub struct DownloadedImage {
    pub image: LocalImage,
    pub thumbnails: Vec<ThumbnailFile>,
}

/// Whether a thumbnail file is the thumbnail of `img` within a square of side `size`,
/// to be written at `relpath`.
pub open spec fn is_thumbnail_file(f: ThumbnailFile, img: DynamicImage, relpath: Seq<char>, size: u32) -> bool {
    &&& f.relpath@ == relpath
    &&& f.pixels.width == image_width(thumbnail_of(img, size, size))
    &&& f.pixels.height == image_height(thumbnail_of(img, size, size))
    &&& f.pixels.rgb@ == rgb8_of(thumbnail_of(img, size, size))
}

/// Whether `d` is what a task's download of `size` bytes leaves: the image at
/// `subdir/filename`; with no decoded image (a video), no dimensions and no thumbnails;
/// else the image's dimensions and its large and small thumbnails, at their default
/// places, in that order.
pub open spec fn is_download_record(task: DownloadTask, img: Option<DynamicImage>, size: u64, d: DownloadedImage) -> bool {
    &&& d.image.relpath@ == path_join_spec(task.subdir@, task.filename@)
    &&& d.image.filename@ == task.filename@
    &&& d.image.size == size
    &&& match img {
        None => {
            &&& d.image.width is None
            &&& d.image.height is None
            &&& d.image.thumbnail_relpath is None
            &&& d.image.small_thumbnail_relpath is None
            &&& d.thumbnails@.len() == 0
        },
        Some(i) => {
            let large = thumbnail_relpath_spec(task.subdir@, task.filename@, THUMBNAIL_SIZE)->0;
            let small = thumbnail_relpath_spec(task.subdir@, task.filename@, SMALL_THUMBNAIL_SIZE)->0;
            &&& d.image.width == Some(image_width(i))
            &&& d.image.height == Some(image_height(i))
            &&& d.image.thumbnail_relpath matches Some(p) && p@ == large
            &&& d.image.small_thumbnail_relpath matches Some(p) && p@ == small
            &&& d.thumbnails@.len() == 2
            &&& is_thumbnail_file(d.thumbnails@[0], i, large, THUMBNAIL_SIZE)
            &&& is_thumbnail_file(d.thumbnails@[1], i, small, SMALL_THUMBNAIL_SIZE)
        },
    }
}

/// The record of a downloaded file of `size` bytes and the thumbnails to write for it:
/// for a decoded image, its dimensions and thumbnails of sides `THUMBNAIL_SIZE` and
/// `SMALL_THUMBNAIL_SIZE` at their default places; for none (a video), neither.
/// A file name with no stem has no place for thumbnails: `InvalidUrl` with the name.
pub fn image_record(task: &DownloadTask, img: Option<DynamicImage>, size: u64) -> (r: Result<
    DownloadedImage,
    DownloadError,
>)
    ensures
        img is Some && thumbnail_relpath_spec(task.subdir@, task.filename@, THUMBNAIL_SIZE) is None ==> (r matches Err(
            DownloadError::InvalidUrl(m),
        ) && m@ == task.filename@),
        !(img is Some && thumbnail_relpath_spec(task.subdir@, task.filename@, THUMBNAIL_SIZE) is None) ==> (r matches Ok(
            d,
        ) && is_download_record(*task, img, size, d)),
{
    let relpath = path_join(task.subdir.as_str(), task.filename.as_str());
    let filename = task.filename.clone();
    match img {
        None => Ok(
            DownloadedImage {
                image: LocalImage {
                    filename,
                    relpath,
                    thumbnail_relpath: None,
                    small_thumbnail_relpath: None,
                    width: None,
                    height: None,
                    size,
                },
                thumbnails: Vec::new(),
            },
        ),
        Some(i) => {
            let (width, height) = image_dimensions(&i);
            let large = get_default_thumbnail_relpath(task.subdir.as_str(), task.filename.as_str(), THUMBNAIL_SIZE)?;
            let small = get_default_thumbnail_relpath(
                task.subdir.as_str(),
                task.filename.as_str(),
                SMALL_THUMBNAIL_SIZE,
            )?;
            let large_pixels = thumbnail_pixels(&i, THUMBNAIL_SIZE);
            let small_pixels = thumbnail_pixels(&i, SMALL_THUMBNAIL_SIZE);
            let mut thumbnails: Vec<ThumbnailFile> = Vec::new();
            thumbnails.push(ThumbnailFile { relpath: large.clone(), pixels: large_pixels });
            thumbnails.push(ThumbnailFile { relpath: small.clone(), pixels: small_pixels });
            Ok(
                DownloadedImage {
                    image: LocalImage {
                        filename,
                        relpath,
                        thumbnail_relpath: Some(large),
                        small_thumbnail_relpath: Some(small),
                        width: Some(width),
                        height: Some(height),
                        size,
                    },
                    thumbnails,
                },
            )
        },
    }
}

/// What downloading a task's bytes leaves (see `image_record`): a video is recorded as
/// it is; any other file is decoded first (see `open_image_bytes`), and an error in
/// decoding is the download's error.
pub fn downloaded_image(task: &DownloadTask, bytes: &[u8], mime_type: Option<&str>) -> (r: Result<
    DownloadedImage,
    DownloadError,
>)
    ensures
        ({
            let size = bytes@.len() as u64;
            let format = chosen_format(
                task.filename@,
                match mime_type {
                    Some(m) => Some(m@),
                    None => None,
                },
            );
            let no_place = thumbnail_relpath_spec(task.subdir@, task.filename@, THUMBNAIL_SIZE) is None;
            &&& is_video_extension_spec(file_extension_spec(task.filename@)) ==> (r matches Ok(d)
                && is_download_record(*task, None, size, d))
            &&& !is_video_extension_spec(file_extension_spec(task.filename@)) ==> {
                &&& (format matches Some(f) && decoded_as(bytes@, f) is Some && !no_place) ==> (r matches Ok(d)
                    && is_download_record(*task, Some(decoded_as(bytes@, format->0)->0), size, d))
                &&& (format matches Some(f) && decoded_as(bytes@, f) is Some && no_place) ==> (r matches Err(
                    DownloadError::InvalidUrl(m),
                ) && m@ == task.filename@)
                &&& r matches Ok(d) ==> exists|i: DynamicImage| is_download_record(*task, Some(i), size, d)
                &&& r matches Err(e) ==> (e is IOError || e is ImageError || (no_place && (e matches DownloadError::InvalidUrl(
                    m,
                ) && m@ == task.filename@)))
            }
        }),
{
    let size = bytes.len() as u64;
    if !has_thumbnails(task.filename.as_str()) {
        return image_record(task, None, size);
    }
    match open_image_bytes(bytes, task.filename.as_str(), mime_type) {
        Ok(img) => {
            let ghost decoded = img;
            let r = image_record(task, Some(img), size);
            proof {
                if r is Ok {
                    assert(is_download_record(*task, Some(decoded), size, r->Ok_0));
                }
            }
            r
        },
        Err(e) => Err(e),
    }
}

} // verus!
