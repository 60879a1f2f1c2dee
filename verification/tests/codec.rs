use bottle::codec::{create_thumbnail, downloaded_image, image_record, image_size, open_image_bytes, thumbnail_pixels};
use bottle::download::{get_extension, DownloadError, DownloadTask};

fn png_bytes(width: u32, height: u32) -> Vec<u8> {
    let img = image::DynamicImage::new_rgb8(width, height);
    let mut out = std::io::Cursor::new(Vec::new());
    img.write_to(&mut out, image::ImageFormat::Png).unwrap();
    out.into_inner()
}

#[test]
fn decodes_by_mime_type() {
    let img = open_image_bytes(&png_bytes(3, 2), "x.bin", Some("image/png")).unwrap();
    assert_eq!(image_size(&img), (3, 2));
}

#[test]
fn decodes_by_file_name() {
    let img = open_image_bytes(&png_bytes(4, 5), "picture.png", None).unwrap();
    assert_eq!(image_size(&img), (4, 5));
    let img = open_image_bytes(&png_bytes(4, 5), "picture.png", Some("application/octet-stream")).unwrap();
    assert_eq!(image_size(&img), (4, 5));
}

#[test]
fn falls_back_to_guessing() {
    let img = open_image_bytes(&png_bytes(6, 1), "picture.jpg", Some("image/jpeg")).unwrap();
    assert_eq!(image_size(&img), (6, 1));
    let img = open_image_bytes(&png_bytes(2, 2), "noext", None).unwrap();
    assert_eq!(image_size(&img), (2, 2));
}

#[test]
fn garbage_is_an_image_error() {
    assert!(matches!(open_image_bytes(b"not an image", "a.png", Some("image/png")), Err(DownloadError::ImageError(_))));
}

#[test]
fn thumbnails_and_pixels() {
    let img = open_image_bytes(&png_bytes(400, 200), "a.png", None).unwrap();
    let thumb = create_thumbnail(&img, 100, 100);
    assert_eq!(image_size(&thumb), (100, 50));
    let pixels = thumbnail_pixels(&img, 100);
    assert_eq!((pixels.width, pixels.height, pixels.rgb.len()), (100, 50, 100 * 50 * 3));
}

#[test]
fn ascii_extensions_are_lowercased() {
    assert_eq!(get_extension("a/B.JPEG"), "jpeg");
    assert_eq!(get_extension("no_extension"), "jpg");
}

fn task(subdir: &str, filename: &str) -> DownloadTask {
    DownloadTask {
        url: "https://example.com/f".to_string(),
        root_dir: "/data".to_string(),
        subdir: subdir.to_string(),
        filename: filename.to_string(),
        image_id: 1,
    }
}

#[test]
fn downloaded_image_gets_dimensions_and_two_thumbnails() {
    let bytes = png_bytes(2400, 600);
    let d = downloaded_image(&task("pixiv/1", "p0.png"), &bytes, Some("image/png")).unwrap();
    assert_eq!(d.image.relpath, "pixiv/1/p0.png");
    assert_eq!(d.image.filename, "p0.png");
    assert_eq!((d.image.width, d.image.height, d.image.size), (Some(2400), Some(600), bytes.len() as u64));
    assert_eq!(d.image.thumbnail_relpath.as_deref(), Some("thumb/pixiv/1/p0.1200.jpg"));
    assert_eq!(d.image.small_thumbnail_relpath.as_deref(), Some("thumb/pixiv/1/p0.300.jpg"));
    assert_eq!(d.thumbnails.len(), 2);
    assert_eq!(d.thumbnails[0].relpath, "thumb/pixiv/1/p0.1200.jpg");
    assert_eq!((d.thumbnails[0].pixels.width, d.thumbnails[0].pixels.height), (1200, 300));
    assert_eq!(d.thumbnails[1].relpath, "thumb/pixiv/1/p0.300.jpg");
    assert_eq!((d.thumbnails[1].pixels.width, d.thumbnails[1].pixels.height), (300, 75));
    assert_eq!(d.thumbnails[1].pixels.rgb.len(), 300 * 75 * 3);
}

#[test]
fn downloaded_video_gets_no_thumbnails() {
    let d = downloaded_image(&task("t", "clip.MP4"), b"not decoded at all", None).unwrap();
    assert_eq!(d.image.relpath, "t/clip.MP4");
    assert_eq!((d.image.width, d.image.height, d.image.size), (None, None, 18));
    assert!(d.image.thumbnail_relpath.is_none() && d.image.small_thumbnail_relpath.is_none());
    assert!(d.thumbnails.is_empty());
}

#[test]
fn undecodable_download_is_an_image_error() {
    assert!(matches!(
        downloaded_image(&task("t", "broken.png"), b"garbage", Some("image/png")),
        Err(DownloadError::ImageError(_))
    ));
}

#[test]
fn image_without_a_stem_has_no_place_for_thumbnails() {
    let img = open_image_bytes(&png_bytes(2, 2), "a.png", None).unwrap();
    match image_record(&task("t", ""), Some(img), 10) {
        Err(DownloadError::InvalidUrl(m)) => assert_eq!(m, ""),
        other => panic!("unexpected {:?}", other.map(|d| d.image)),
    }
    let d = image_record(&task("t", "movie.webm"), None, 10).unwrap();
    assert_eq!((d.image.relpath.as_str(), d.image.size), ("t/movie.webm", 10));
}
