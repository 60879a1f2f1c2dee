use std::collections::HashMap;

use bottle::download::LocalImage;
use bottle::error::Error;
use bottle::library::{
    album_works, build_download_tasks, image_exists_error, new_images, next_position, not_found_error,
    order_works_by_post_ids, reorder_position, unique_source_post_ids, Album, AlbumView, AlbumWork, Folder,
    FolderView, Image, ImageUpdate, ImageView, NewImage, NewWork, RemoteImage, RemoteWork, Work, WorkView,
    POSITION_GAP,
};
use bottle::library::work_exists_error;

fn work(id: i32, source: Option<&str>, post_id: Option<&str>, post_id_int: Option<i64>) -> Work {
    Work {
        id,
        source: source.map(|s| s.to_string()),
        post_id: post_id.map(|s| s.to_string()),
        post_id_int,
        page_index: None,
        as_archive: false,
        image_count: 1,
        name: None,
        caption: None,
        favorite: false,
        rating: 0,
        thumbnail_path: None,
        small_thumbnail_path: None,
        added_date: 1_700_000_000_000_000,
        modified_date: 1_700_000_000_000_001,
        viewed_date: None,
    }
}

fn image(id: i32, work_id: i32, filename: &str, url: &str) -> Image {
    Image {
        id,
        work_id,
        page_index: Some(0),
        filename: filename.to_string(),
        remote_url: Some(url.to_string()),
        path: None,
        thumbnail_path: None,
        small_thumbnail_path: None,
        width: None,
        height: None,
        size: None,
    }
}

fn remote_work() -> RemoteWork {
    RemoteWork {
        source: Some("pixiv".to_string()),
        post_id: Some("123".to_string()),
        post_id_int: Some(123),
        page_index: Some(2),
        media_count: 2,
        name: Some("n".to_string()),
        caption: None,
        images: vec![
            RemoteImage { filename: "a.png".to_string(), url: "https://x/a.png".to_string(), page_index: None },
            RemoteImage { filename: "b.png".to_string(), url: "https://x/b.png".to_string(), page_index: Some(7) },
        ],
    }
}

#[test]
fn new_images_keep_their_page_index() {
    let images = new_images(&remote_work(), 9);
    assert_eq!(images.len(), 2);
    assert_eq!((images[0].work_id, images[0].page_index, images[0].filename.as_str()), (9, None, "a.png"));
    assert_eq!(images[1].page_index, Some(7));
    assert_eq!(images[1].remote_url.as_deref(), Some("https://x/b.png"));
    assert_eq!(images[1].path, None);
}

#[test]
fn single_image_records() {
    let r = RemoteImage { filename: "a.png".to_string(), url: "u".to_string(), page_index: Some(3) };
    let n = NewImage::from_remote_image(&r);
    assert_eq!((n.page_index, n.filename.as_str(), n.remote_url.as_deref()), (Some(3), "a.png", Some("u")));
    let n = NewImage::for_work(&r, 4);
    assert_eq!(n.work_id, 4);
    let w = NewWork::from_remote_work(&remote_work());
    assert_eq!((w.source.as_deref(), w.post_id.as_deref(), w.image_count), (Some("pixiv"), Some("123"), 2));
}

#[test]
fn image_update_from_local_image() {
    let local = LocalImage {
        filename: "a.png".to_string(),
        relpath: "pixiv/a.png".to_string(),
        thumbnail_relpath: Some("thumb/pixiv/a.1200.jpg".to_string()),
        small_thumbnail_relpath: None,
        width: Some(640),
        height: Some(480),
        size: 1000,
    };
    let u = ImageUpdate::from_local_image(&local);
    assert_eq!(u.path.as_deref(), Some("pixiv/a.png"));
    assert_eq!(u.thumbnail_path.as_deref(), Some("thumb/pixiv/a.1200.jpg"));
    assert_eq!((u.width, u.height, u.size), (Some(640), Some(480), Some(1000)));
}

#[test]
fn views_keep_the_fields() {
    let v = WorkView::from_work(work(3, Some("twitter"), Some("9"), Some(9)));
    assert_eq!((v.id, v.community.as_deref(), v.post_id.as_deref()), (3, Some("twitter"), Some("9")));
    assert_eq!(v.added_date, 1_700_000_000_000_000);
    let v = ImageView::from_image(image(1, 3, "f.jpg", "u"));
    assert_eq!((v.id, v.work_id, v.filename.as_str()), (1, 3, "f.jpg"));
    let v = AlbumView::from_album(Album {
        id: 2,
        name: "A".to_string(),
        folder_id: Some(1),
        position: 100,
        added_date: 5,
        modified_date: 6,
    });
    assert_eq!((v.id, v.name.as_str(), v.folder_id, v.position), (2, "A", Some(1), 100));
    let v = FolderView::from_folder(Folder {
        id: 1,
        name: "F".to_string(),
        parent_id: None,
        position: 200,
        added_date: 5,
        modified_date: 6,
    });
    assert_eq!((v.id, v.name.as_str(), v.parent_id, v.position), (1, "F", None, 200));
}

#[test]
fn library_errors() {
    match work_exists_error(&remote_work()) {
        Error::ObjectAlreadyExists(m) => assert_eq!(m, "Post 123:2@pixiv"),
        other => panic!("unexpected {:?}", other),
    }
    let mut w = remote_work();
    w.post_id = None;
    w.page_index = None;
    w.source = None;
    assert_eq!(w.describe(), "Post 123");
    match image_exists_error(4, Some(1)) {
        Error::ObjectAlreadyExists(m) => assert_eq!(m, "4:1"),
        other => panic!("unexpected {:?}", other),
    }
    match not_found_error("Folder", 3) {
        Error::ObjectNotFound(m) => assert_eq!(m, "Folder 3"),
        other => panic!("unexpected {:?}", other),
    }
}

#[test]
fn positions() {
    assert_eq!(next_position(None), POSITION_GAP);
    assert_eq!(next_position(Some(250)), 350);
    assert_eq!(reorder_position(Some(7), Some(1000)), 7);
    assert_eq!(reorder_position(None, Some(1000)), 1100);
}

#[test]
fn album_works_rise_above_the_last_position() {
    let r = album_works(1, &vec![10, 20, 30], Some(500));
    assert_eq!(
        r,
        vec![
            AlbumWork { album_id: 1, work_id: 10, position: 600 },
            AlbumWork { album_id: 1, work_id: 20, position: 700 },
            AlbumWork { album_id: 1, work_id: 30, position: 800 },
        ]
    );
    let r = album_works(2, &vec![5], None);
    assert_eq!(r, vec![AlbumWork { album_id: 2, work_id: 5, position: 100 }]);
    for pair in album_works(3, &vec![1, 2, 3, 4], Some(-50)).windows(2) {
        assert!(pair[0].position < pair[1].position);
    }
}

#[test]
fn works_ordered_by_post_ids() {
    let works = vec![
        work(1, Some("pixiv"), Some("a"), None),
        work(2, Some("pixiv"), Some("b"), None),
        work(3, Some("pixiv"), Some("a"), None),
        work(4, Some("pixiv"), None, None),
    ];
    let r = order_works_by_post_ids(&works, &vec!["b".to_string(), "a".to_string(), "c".to_string()]);
    let ids: Vec<i32> = r.iter().map(|w| w.id).collect();
    assert_eq!(ids, vec![2, 1, 3]);
    let r = order_works_by_post_ids(&works, &vec!["a".to_string(), "a".to_string()]);
    assert_eq!(r.len(), 4);
}

#[test]
fn distinct_post_ids_of_a_source() {
    let records = vec![
        (work(1, Some("twitter"), None, Some(5)), image(1, 1, "a", "u")),
        (work(2, Some("pixiv"), None, Some(6)), image(2, 2, "b", "u")),
        (work(3, Some("twitter"), None, Some(5)), image(3, 3, "c", "u")),
        (work(4, Some("twitter"), None, Some(7)), image(4, 4, "d", "u")),
        (work(5, Some("twitter"), None, None), image(5, 5, "e", "u")),
    ];
    assert_eq!(unique_source_post_ids(&records, "twitter"), vec![5, 7]);
    assert_eq!(unique_source_post_ids(&records, "pixiv"), vec![6]);
    assert_eq!(unique_source_post_ids(&records, "panda"), Vec::<i64>::new());
}

#[test]
fn download_tasks_per_author() {
    let records = vec![
        (work(1, Some("twitter"), None, Some(5)), image(10, 1, "a.jpg", "https://t/a.jpg")),
        (work(2, Some("pixiv"), None, Some(6)), image(11, 2, "b.png", "https://p/b.png")),
        (work(3, Some("panda"), None, Some(8)), image(12, 3, "c.jpg", "https://e/c.jpg")),
        (work(4, Some("twitter"), None, Some(99)), image(13, 4, "d.jpg", "https://t/d.jpg")),
    ];
    let twitter: HashMap<i64, i64> = [(5, 500)].into_iter().collect();
    let pixiv: HashMap<i64, i64> = [(6, 600)].into_iter().collect();
    let tasks = build_download_tasks(&records, &twitter, &pixiv, "/root");
    let subdirs: Vec<&str> = tasks.iter().map(|t| t.subdir.as_str()).collect();
    assert_eq!(subdirs, vec!["twitter/500", "pixiv/600", "panda", "twitter"]);
    assert_eq!((tasks[1].url.as_str(), tasks[1].filename.as_str(), tasks[1].image_id), ("https://p/b.png", "b.png", 11));
    assert_eq!(tasks[0].root_dir, "/root");
}
