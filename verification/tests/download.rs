use bottle::download::{
    check_download_complete, destination_path, get_default_thumbnail_relpath, get_extension, has_thumbnails,
    is_video_extension, local_image_of, referer_for, DownloadError, DownloadTask, SMALL_THUMBNAIL_SIZE,
    THUMBNAIL_SIZE,
};

fn task() -> DownloadTask {
    DownloadTask {
        url: "https://example.com/img/1.png".to_string(),
        root_dir: "/data/images".to_string(),
        subdir: "pixiv/42".to_string(),
        filename: "1_p0.PNG".to_string(),
        image_id: 9,
    }
}

#[test]
fn extension_is_lowercased_with_jpg_default() {
    assert_eq!(get_extension("a/b/photo.PNG"), "png");
    assert_eq!(get_extension("clip.Mp4"), "mp4");
    assert_eq!(get_extension("noext"), "jpg");
    assert_eq!(get_extension(".hidden"), "jpg");
}

#[test]
fn videos_get_no_thumbnails() {
    for e in ["mp4", "webm", "mkv", "avi", "flv", "mov", "wmv", "m4v"] {
        assert!(is_video_extension(e));
    }
    assert!(!is_video_extension("MP4"));
    assert!(!is_video_extension("jpg"));
    assert!(!has_thumbnails("movie.MOV"));
    assert!(has_thumbnails("picture.webp"));
    assert!(has_thumbnails("no_extension"));
}

#[test]
fn thumbnail_paths() {
    assert_eq!(get_default_thumbnail_relpath("twitter/12", "abc.png", THUMBNAIL_SIZE).unwrap(), "thumb/twitter/12/abc.1200.jpg");
    assert_eq!(get_default_thumbnail_relpath("pixiv", "1_p0.jpg", SMALL_THUMBNAIL_SIZE).unwrap(), "thumb/pixiv/1_p0.300.jpg");
    assert_eq!(get_default_thumbnail_relpath("", "a.b.c", 5).unwrap(), "thumb/a.b.5.jpg");
    assert_eq!(
        get_default_thumbnail_relpath("path/to", "image.jpg", THUMBNAIL_SIZE).unwrap(),
        "thumb/path/to/image.1200.jpg"
    );
}

#[test]
fn thumbnail_path_without_stem_is_invalid_url() {
    match get_default_thumbnail_relpath("sub", "..", THUMBNAIL_SIZE) {
        Err(DownloadError::InvalidUrl(m)) => assert_eq!(m, ".."),
        other => panic!("unexpected {:?}", other),
    }
}

#[test]
fn destination_joins_root_subdir_and_name() {
    assert_eq!(destination_path(&task()), "/data/images/pixiv/42/1_p0.PNG");
}

#[test]
fn completeness_of_downloads() {
    assert!(check_download_complete("u", 10, Some(10)).is_ok());
    assert!(check_download_complete("u", 10, None).is_ok());
    match check_download_complete("https://x/y.png", 9, Some(10)) {
        Err(DownloadError::IncompleteDownload(u)) => assert_eq!(u, "https://x/y.png"),
        other => panic!("unexpected {:?}", other),
    }
    assert!(matches!(check_download_complete("u", 0, None), Err(DownloadError::IncompleteDownload(_))));
    assert!(matches!(check_download_complete("u", 0, Some(0)), Err(DownloadError::IncompleteDownload(_))));
}

#[test]
fn local_image_paths_are_relative() {
    let image = local_image_of(&task(), Some("t".to_string()), None, Some(3), Some(4), 77);
    assert_eq!(image.relpath, "pixiv/42/1_p0.PNG");
    assert_eq!(image.filename, "1_p0.PNG");
    assert_eq!(image.thumbnail_relpath.as_deref(), Some("t"));
    assert_eq!(image.small_thumbnail_relpath, None);
    assert_eq!((image.width, image.height, image.size), (Some(3), Some(4), 77));
}

#[test]
fn pixiv_images_get_a_referer() {
    assert_eq!(referer_for("https://i.pximg.net/img-original/1.png").as_deref(), Some("https://www.pixiv.net/"));
    assert_eq!(referer_for("https://pbs.twimg.com/media/x.jpg"), None);
}

#[test]
fn download_error_messages() {
    let cases = [
        (DownloadError::InvalidUrl("u".to_string()), "Invalid URL: u"),
        (DownloadError::IOError("e".to_string()), "IO Error: e"),
        (DownloadError::NetworkError("n".to_string()), "Network Error: n"),
        (DownloadError::ImageError("i".to_string()), "Image error: i"),
        (DownloadError::JPEGError("j".to_string()), "JPEG error: j"),
        (DownloadError::IncompleteDownload("d".to_string()), "Incomplete download: d"),
    ];
    for (e, m) in cases {
        assert_eq!(e.message(), m);
    }
}
