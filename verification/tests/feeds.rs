use bottle::panda::{stored_panda_params, PandaWatchList};
use bottle::feed::MediaExtra;
use bottle::panda::panda_media_view;
use std::collections::{HashMap, HashSet};

use bottle::feed::{
    fetched_info, fresh_post_ids, ids_to_strings, join_with_comma, sort_indices, use_account, AccountInfo,
    CommunityMetadata, Direction,
};
use bottle::library::Image;
use bottle::panda::{
    artist_view, combine_download_tasks, download_task_for_gallery, gallery_remote_work, media_cache_plan, media_id,
    panda_continue_offset, panda_feed_description, panda_fetch_direction, panda_fetch_offset, panda_kind_name,
    panda_offset_source, panda_save_plan, CachedPreview, PandaWatchListGallery, GalleryListOffset, OffsetSource, PandaFeedKind,
    PandaGallery, PandaMedia,
};
use bottle::error::Error;

fn gallery(id: i64, media_count: i32, detail: bool) -> PandaGallery {
    PandaGallery {
        id,
        token: "tk".to_string(),
        title: "Gallery".to_string(),
        media_count,
        english_title: detail.then(|| "E".to_string()),
        parent: detail.then(|| "P".to_string()),
        visible: detail.then_some(true),
        language: detail.then(|| "ja".to_string()),
        file_size: detail.then_some(10),
    }
}

fn media(gid: i64, index: i32, url: Option<&str>) -> PandaMedia {
    PandaMedia {
        gallery_id: gid,
        media_index: index,
        token: format!("m{}", index),
        thumbnail_url: None,
        url: url.map(|u| u.to_string()),
        filename: url.map(|_| format!("{}.jpg", index)),
        file_size: None,
        width: None,
        height: None,
    }
}

fn stored_image(id: i32, work_id: i32, index: i32, downloaded: bool) -> Image {
    Image {
        id,
        work_id,
        page_index: Some(index),
        filename: format!("{}.jpg", index),
        remote_url: None,
        path: downloaded.then(|| "p".to_string()),
        thumbnail_path: None,
        small_thumbnail_path: None,
        width: None,
        height: None,
        size: None,
    }
}

#[test]
fn sort_indices_are_fresh_and_descending() {
    assert_eq!(sort_indices(Some(9), 3), vec![12, 11, 10]);
    assert_eq!(sort_indices(None, 3), vec![2, 1, 0]);
    assert_eq!(sort_indices(Some(4), 0), Vec::<i32>::new());
}

#[test]
fn joined_ids() {
    let ids = ids_to_strings(&vec![3, -1, 20]);
    assert_eq!(ids, vec!["3", "-1", "20"]);
    assert_eq!(join_with_comma(&ids), "3, -1, 20");
    assert_eq!(join_with_comma(&vec![]), "");
    assert_eq!(join_with_comma(&vec!["x".to_string()]), "x");
}

#[test]
fn fresh_posts_leave_out_known_ones() {
    let existing: HashSet<i64> = [2, 4].into_iter().collect();
    assert_eq!(fresh_post_ids(&vec![1, 2, 3, 4, 5], &existing), vec![1, 3, 5]);
    assert_eq!(fresh_post_ids(&vec![2, 4], &existing), Vec::<i64>::new());
}

#[test]
fn metadata_helpers() {
    let m = CommunityMetadata { name: "panda".to_string(), feeds: vec![], account: None };
    assert!(!use_account(&m));
    assert!(fetched_info(&Some(AccountInfo { name: None, username: None, avatar_url: None })));
    assert!(!fetched_info(&None));
}

#[test]
fn gallery_ids_and_artists() {
    assert_eq!(media_id(123, 4), "123-4");
    let v = artist_view("someone");
    assert_eq!(v.user_id, "someone");
    assert_eq!(v.community, "panda");
    assert_eq!(v.tag_name.as_deref(), Some("artist:someone"));
    assert_eq!(v.name.as_deref(), Some("someone"));
}

#[test]
fn download_task_of_a_gallery() {
    let g = gallery(7, 3, true);
    let images = vec![stored_image(1, 70, 0, true), stored_image(2, 70, 1, false)];
    let media = vec![media(7, 0, None), media(7, 1, None), media(7, 2, None)];
    let t = download_task_for_gallery(&g, 70, &images, &media).unwrap();
    assert_eq!((t.gid, t.work_id, t.media_count, t.has_detail), (7, 70, 3, true));
    let summary: Vec<(i32, Option<i32>, bool)> = t.image_tasks.iter().map(|i| (i.index, i.image_id, i.downloaded)).collect();
    assert_eq!(summary, vec![(0, Some(1), true), (1, Some(2), false), (2, None, false)]);
}

#[test]
fn downloaded_gallery_is_refused() {
    let g = gallery(7, 1, false);
    let images = vec![stored_image(1, 70, 0, true)];
    match download_task_for_gallery(&g, 70, &images, &vec![media(7, 0, None)]) {
        Err(Error::ObjectAlreadyExists(m)) => assert_eq!(m, "Panda gallery 7 already downloaded"),
        other => panic!("unexpected {:?}", other),
    }
}

#[test]
fn combined_tasks_follow_the_media_count() {
    let galleries = vec![gallery(1, 3, false), gallery(2, 0, true)];
    let work_ids: HashMap<i64, i32> = [(1, 10), (2, 20)].into_iter().collect();
    let media = vec![media(1, 0, None), media(1, 2, None), media(2, 0, None), media(1, 5, None)];
    let images = vec![stored_image(1, 10, 2, true), stored_image(2, 20, 0, true)];
    let tasks = combine_download_tasks(&galleries, &work_ids, &media, &images);
    assert_eq!(tasks.len(), 2);
    let indices: Vec<(i32, bool)> = tasks[0].image_tasks.iter().map(|t| (t.index, t.downloaded)).collect();
    assert_eq!(indices, vec![(0, false), (2, true)]);
    assert_eq!(tasks[0].work_id, 10);
    assert!(tasks[1].image_tasks.is_empty());
}

#[test]
fn gallery_as_remote_work() {
    let g = gallery(9, 2, true);
    let media = vec![media(9, 0, Some("https://e/0.jpg")), media(9, 1, None)];
    let w = gallery_remote_work(&g, &media);
    assert_eq!((w.source.as_deref(), w.post_id.as_deref(), w.post_id_int), (Some("panda"), Some("9"), Some(9)));
    assert_eq!(w.images.len(), 1);
    assert_eq!((w.images[0].url.as_str(), w.images[0].filename.as_str(), w.images[0].page_index), ("https://e/0.jpg", "0.jpg", Some(0)));
    assert_eq!(w.name.as_deref(), Some("Gallery"));
}

#[test]
fn gallery_feed_offsets() {
    assert_eq!(panda_kind_name(PandaFeedKind::Favorites), "favorites");
    assert_eq!(panda_offset_source(PandaFeedKind::Search, true), OffsetSource::Previous);
    assert_eq!(panda_offset_source(PandaFeedKind::Watched, false), OffsetSource::Next);
    assert_eq!(panda_offset_source(PandaFeedKind::Favorites, true), OffsetSource::Start);
    let o = panda_fetch_offset(OffsetSource::Previous, Some("5".to_string()));
    assert!(matches!(&o, Some(GalleryListOffset::NewerThan(s)) if s == "5"));
    assert_eq!(panda_fetch_direction(&o), Direction::Forward);
    let o = panda_fetch_offset(OffsetSource::Next, Some("5".to_string()));
    assert!(matches!(&o, Some(GalleryListOffset::OlderThan(s)) if s == "5"));
    assert_eq!(panda_fetch_direction(&o), Direction::Backward);
    assert!(panda_fetch_offset(OffsetSource::Start, Some("5".to_string())).is_none());
    let prev = Some(GalleryListOffset::NewerThan("p".to_string()));
    let next = Some(GalleryListOffset::OlderThan("n".to_string()));
    assert!(matches!(panda_continue_offset(Direction::Forward, &prev, &next), Some(GalleryListOffset::NewerThan(s)) if s == "p"));
    assert!(matches!(panda_continue_offset(Direction::Backward, &prev, &next), Some(GalleryListOffset::OlderThan(s)) if s == "n"));
}

#[test]
fn gallery_feed_save_plans() {
    let none: HashSet<i64> = HashSet::new();
    let plan = panda_save_plan(3, &vec![], &none, Direction::Backward, &None, &None);
    assert!(plan.mark_reached_end && plan.result.should_stop && plan.result.reached_end && plan.history.is_none());
    let existing: HashSet<i64> = [30].into_iter().collect();
    let next = Some(GalleryListOffset::OlderThan("25".to_string()));
    let plan = panda_save_plan(3, &vec![50, 40, 30], &existing, Direction::Backward, &None, &next);
    assert!(!plan.mark_reached_end);
    assert_eq!(plan.new_gids, vec![50, 40]);
    let entry = |gallery_id: i64| PandaWatchListGallery { watch_list_id: 3, gallery_id, sort_index: None, stale: false };
    assert_eq!(plan.entries, vec![entry(50), entry(40)]);
    assert_eq!(plan.result.post_ids, vec!["50", "40"]);
    assert!(plan.result.should_stop);
    let h = plan.history.unwrap();
    assert_eq!((h.watch_list_id, h.ids.as_str(), h.count), (3, "50, 40", 2));
    assert_eq!((h.prev_offset.as_deref(), h.next_offset.as_deref()), (Some("50"), Some("25")));
    let plan = panda_save_plan(3, &vec![60, 50], &none, Direction::Backward, &None, &None);
    assert!(plan.mark_reached_end && plan.result.reached_end && plan.result.should_stop);
    assert_eq!(plan.new_gids, vec![60, 50]);
    let unrelated: HashSet<i64> = [99].into_iter().collect();
    let plan = panda_save_plan(3, &vec![60, 50], &unrelated, Direction::Backward, &None, &next);
    assert!(!plan.result.should_stop && !plan.result.reached_end);
    let all: HashSet<i64> = [1, 2].into_iter().collect();
    let plan = panda_save_plan(3, &vec![1, 2], &all, Direction::Forward, &None, &None);
    assert!(plan.result.should_stop && plan.new_gids.is_empty() && !plan.mark_reached_end);
}

#[test]
fn gallery_feed_descriptions() {
    assert_eq!(panda_feed_description(PandaFeedKind::Search, &Some("cat".to_string()), None), "Search: cat");
    assert_eq!(panda_feed_description(PandaFeedKind::Search, &None, None), "Homepage");
    assert_eq!(panda_feed_description(PandaFeedKind::Watched, &None, None), "Watched");
    assert_eq!(panda_feed_description(PandaFeedKind::Favorites, &Some("x".to_string()), Some(3)), "Favorites 3: x");
    assert_eq!(panda_feed_description(PandaFeedKind::Favorites, &None, None), "Favorites all");
}

#[test]
fn previews_completed_from_cache() {
    let stored = vec![media(4, 0, Some("u0")), media(4, 1, None)];
    let previews = vec![
        CachedPreview { index: 1, token: "a".to_string(), thumbnail_url: "t1".to_string() },
        CachedPreview { index: 2, token: "b".to_string(), thumbnail_url: "t2".to_string() },
        CachedPreview { index: 2, token: "c".to_string(), thumbnail_url: "t3".to_string() },
    ];
    let plan = media_cache_plan(4, &stored, &previews, &vec![0, 1, 2, 3]);
    assert_eq!(plan.new_media.len(), 1);
    let m = &plan.new_media[0];
    assert_eq!((m.gallery_id, m.media_index, m.token.as_str(), m.thumbnail_url.as_deref()), (4, 2, "b", Some("t2")));
    assert_eq!(plan.updated_indices, vec![1, 2]);
}

#[test]
fn stored_gallery_feeds() {
    let w = |kind: &str, query: Option<&str>| PandaWatchList {
        id: 1,
        name: None,
        watching: true,
        first_fetch_limit: None,
        account_id: 1,
        kind: kind.to_string(),
        query: query.map(|q| q.to_string()),
        reached_end: false,
    };
    let p = stored_panda_params(&w("favorites", Some("f_search=x"))).unwrap();
    assert_eq!((p.kind, p.query.as_str()), (PandaFeedKind::Favorites, "f_search=x"));
    match stored_panda_params(&w("watched", None)) {
        Err(Error::ObjectNotComplete(m)) => assert_eq!(m, "panda query cannot be null for watched feed"),
        other => panic!("unexpected {:?}", other),
    }
    match stored_panda_params(&w("popular", Some("q"))) {
        Err(Error::UnknownField(m)) => assert_eq!(m, "panda watch list kind popular"),
        other => panic!("unexpected {:?}", other),
    }
}

#[test]
fn gallery_media_views() {
    let v = panda_media_view(media(12, 3, Some("https://e/3.jpg")));
    assert_eq!((v.media_id.as_str(), v.community.as_str(), v.post_id.as_str(), v.page_index), ("12-3", "panda", "12", 3));
    assert_eq!(v.url.as_deref(), Some("https://e/3.jpg"));
    assert!(matches!(v.extra, Some(MediaExtra::Panda { token }) if token == "m3"));
}

#[test]
fn sort_indices_for_saved_batches() {
    let batch = |ids: &[&str]| bottle::feed::SaveResult {
        post_ids: ids.iter().map(|s| s.to_string()).collect(),
        should_stop: false,
        reached_end: false,
    };
    let results = vec![batch(&["30", "20"]), batch(&[]), batch(&["10"])];
    let updates = bottle::feed::sort_index_updates(&results, Some(4)).unwrap();
    assert_eq!(updates, vec![(30, 7), (20, 6), (10, 5)]);
    let updates = bottle::feed::sort_index_updates(&results, None).unwrap();
    assert_eq!(updates, vec![(30, 2), (20, 1), (10, 0)]);
    match bottle::feed::sort_index_updates(&vec![batch(&["1", "x2", "y"])], None) {
        Err(Error::IntegerError(m)) => assert_eq!(m, "invalid digit found in string"),
        other => panic!("unexpected {:?}", other),
    }
}

#[test]
fn sort_index_errors_carry_the_parse_message() {
    let batch = |ids: &[&str]| bottle::feed::SaveResult {
        post_ids: ids.iter().map(|s| s.to_string()).collect(),
        should_stop: false,
        reached_end: false,
    };
    match bottle::feed::sort_index_updates(&vec![batch(&["12", "99999999999999999999"])], Some(0)) {
        Err(Error::IntegerError(m)) => assert_eq!(m, "number too large to fit in target type"),
        other => panic!("unexpected {:?}", other),
    }
    match bottle::feed::sort_index_updates(&vec![batch(&[""])], None) {
        Err(Error::IntegerError(m)) => assert_eq!(m, "cannot parse integer from empty string"),
        other => panic!("unexpected {:?}", other),
    }
}

#[test]
fn stored_gallery_feeds_read_back() {
    for kind in [PandaFeedKind::Search, PandaFeedKind::Watched, PandaFeedKind::Favorites] {
        let w = PandaWatchList {
            id: 1,
            name: None,
            watching: true,
            first_fetch_limit: None,
            account_id: 1,
            kind: panda_kind_name(kind),
            query: Some("q".to_string()),
            reached_end: false,
        };
        let p = stored_panda_params(&w).unwrap();
        assert_eq!((p.kind, p.query.as_str()), (kind, "q"));
    }
}

#[test]
fn artists_ranked_by_post_count() {
    let counts = vec![Some(3), None, Some(7), Some(3), Some(10), None];
    assert_eq!(bottle::feed::rank_by_post_count(&counts), vec![4, 2, 0, 3, 1, 5]);
    let mut by_std: Vec<usize> = (0..counts.len()).collect();
    by_std.sort_by(|a, b| counts[*b].cmp(&counts[*a]));
    assert_eq!(bottle::feed::rank_by_post_count(&counts), by_std);
    assert_eq!(bottle::feed::rank_by_post_count(&vec![]), Vec::<usize>::new());
}

#[test]
fn loaded_posts_in_record_order() {
    let ids = vec![30, 10, 99, 20, 10];
    let loaded = vec![10, 20, 30];
    assert_eq!(bottle::feed::order_loaded_posts(&ids, &loaded), vec![2, 0, 1, 0]);
}

#[test]
fn grouped_artists_ranked_by_attached_counts() {
    let mut counts = std::collections::HashMap::new();
    counts.insert(10i64, 3i64);
    counts.insert(20, 7);
    counts.insert(40, 3);
    let ranking = bottle::feed::artist_ranking(&vec![10, 20, 30, 40], &counts);
    assert_eq!(ranking, vec![(1, Some(7)), (0, Some(3)), (3, Some(3)), (2, None)]);
    assert!(bottle::feed::artist_ranking(&vec![], &counts).is_empty());
}

#[test]
fn media_filtered_by_works_shown() {
    let media = vec![(1i64, 0i32), (1, 1), (2, 0), (2, 5), (3, 0)];
    let post_pages = vec![(1i64, Some(1i32)), (2, None)];
    assert_eq!(bottle::feed::filter_media_by_works(&media, &post_pages), vec![1, 2, 3]);
    assert!(bottle::feed::filter_media_by_works(&media, &vec![]).is_empty());
}
