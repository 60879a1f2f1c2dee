use bottle::pixiv::{pixiv_media_view, PixivMedia};
use bottle::feed::MediaExtra;
use std::collections::HashSet;

use bottle::error::Error;
use bottle::feed::Direction;
use bottle::pixiv::{
    advance_fetch_context, following_restriction_text, illust_type_text, initial_fetch_context,
    parse_following_restriction, parse_illust_type, parse_restriction, pixiv_media, pixiv_save_plan, restriction_text, PixivWatchListIllust,
    FollowingRestriction, IllustType, PixivFeed, PixivFeedParams, PixivFetchContext, PixivIllustPages,
    PixivImageUrls, PixivWatchList, Restriction,
};
use bottle::twitter::{
    advance_cursor, twitter_save_records, CursorSource, TimelineCursor, TwitterFeed, TwitterFeedParams,
    TwitterWatchListTweet,
    TwitterFetchContext, TwitterMedia, TwitterWatchList,
};

fn pixiv_list(kind: &str) -> PixivWatchList {
    PixivWatchList {
        id: 1,
        name: Some("n".to_string()),
        watching: true,
        first_fetch_limit: Some(100),
        account_id: 2,
        kind: kind.to_string(),
        restriction: None,
        user_id: None,
        search_query: None,
        bookmark_tag: None,
        illust_type: None,
        reached_end: false,
    }
}

fn pixiv_feed(params: PixivFeedParams) -> PixivFeed {
    PixivFeed { id: 4, name: None, watching: true, first_fetch_limit: None, account_id: 1, params, reached_end: false }
}

fn twitter_list(kind: &str) -> TwitterWatchList {
    TwitterWatchList {
        id: 1,
        name: None,
        watching: false,
        first_fetch_limit: None,
        account_id: 3,
        kind: kind.to_string(),
        twitter_list_id: None,
        user_id: None,
        search_query: None,
        reached_end: true,
    }
}

fn twitter_feed(params: TwitterFeedParams, reached_end: bool) -> TwitterFeed {
    TwitterFeed { id: 8, name: Some("f".to_string()), watching: true, first_fetch_limit: None, account_id: 1, params, reached_end }
}

fn urls(tag: &str, original: Option<&str>) -> PixivImageUrls {
    PixivImageUrls {
        square_medium: format!("{}-sq", tag),
        medium: format!("{}-m", tag),
        large: format!("{}-l", tag),
        original: original.map(|o| o.to_string()),
    }
}

#[test]
fn pixiv_names_round_trip() {
    for r in [FollowingRestriction::Public, FollowingRestriction::Private, FollowingRestriction::All] {
        assert_eq!(parse_following_restriction(&following_restriction_text(r)), Some(r));
    }
    for r in [Restriction::Public, Restriction::Private] {
        assert_eq!(parse_restriction(&restriction_text(r)), Some(r));
    }
    for t in [IllustType::Illust, IllustType::Manga] {
        assert_eq!(parse_illust_type(&illust_type_text(t)), Some(t));
    }
    assert_eq!(parse_restriction("all"), None);
    assert_eq!(parse_illust_type("novel"), None);
}

#[test]
fn pixiv_params_helpers() {
    let p = PixivFeedParams::Bookmarks { user_id: 5, tag: Some("cat".to_string()), restriction: Restriction::Private };
    assert_eq!(p.kind_str(), "bookmarks");
    assert!(p.is_private_bookmark());
    assert_eq!(p.user_id(), Some(5));
    assert_eq!(p.restriction().as_deref(), Some("private"));
    assert_eq!(p.bookmark_tag().as_deref(), Some("cat"));
    assert_eq!(p.illust_type(), None);
    let p = PixivFeedParams::Posts { user_id: 6, type_: IllustType::Manga };
    assert!(!p.is_private_bookmark());
    assert_eq!(p.illust_type().as_deref(), Some("manga"));
    assert_eq!(p.restriction(), None);
    let p = PixivFeedParams::Search { query: "q".to_string() };
    assert_eq!(p.search_query().as_deref(), Some("q"));
    assert_eq!(p.user_id(), None);
}

#[test]
fn pixiv_descriptions() {
    let d = |p| pixiv_feed(p).view().description;
    assert_eq!(d(PixivFeedParams::Timeline { restriction: FollowingRestriction::All }), "all Timeline");
    assert_eq!(
        d(PixivFeedParams::Bookmarks { user_id: 5, tag: Some("cat".to_string()), restriction: Restriction::Public }),
        "public Bookmarks tagged #cat by 5"
    );
    assert_eq!(d(PixivFeedParams::Bookmarks { user_id: 5, tag: None, restriction: Restriction::Private }), "private Bookmarks by 5");
    assert_eq!(d(PixivFeedParams::Posts { user_id: 6, type_: IllustType::Illust }), "illust by 6");
    assert_eq!(d(PixivFeedParams::Search { query: "q".to_string() }), "Search q");
    let v = pixiv_feed(PixivFeedParams::Search { query: "q".to_string() }).view();
    assert_eq!((v.feed_id, v.community.as_str(), v.watching), (4, "pixiv", true));
}

#[test]
fn pixiv_feed_from_storage() {
    let mut w = pixiv_list("bookmarks");
    w.user_id = Some(9);
    w.restriction = Some("private".to_string());
    w.bookmark_tag = Some("t".to_string());
    let f = PixivFeed::from_watch_list(w).unwrap();
    assert_eq!((f.id, f.account_id, f.first_fetch_limit), (1, 2, Some(100)));
    assert!(matches!(f.params, PixivFeedParams::Bookmarks { user_id: 9, restriction: Restriction::Private, .. }));

    let mut w = pixiv_list("bookmarks");
    w.user_id = Some(9);
    match PixivFeed::from_watch_list(w) {
        Err(Error::ObjectNotComplete(m)) => assert_eq!(m, "pixiv restriction cannot be null for bookmarks feed"),
        other => panic!("unexpected {:?}", other),
    }
    match PixivFeed::from_watch_list(pixiv_list("timeline")) {
        Err(Error::ObjectNotComplete(m)) => assert_eq!(m, "pixiv restriction cannot be null for timeline feed"),
        other => panic!("unexpected {:?}", other),
    }
    match PixivFeed::from_watch_list(pixiv_list("posts")) {
        Err(Error::ObjectNotComplete(m)) => assert_eq!(m, "pixiv user id cannot be null for posts feed"),
        other => panic!("unexpected {:?}", other),
    }
    match PixivFeed::from_watch_list(pixiv_list("search")) {
        Err(Error::ObjectNotComplete(m)) => assert_eq!(m, "pixiv search query cannot be null for search feed"),
        other => panic!("unexpected {:?}", other),
    }
    match PixivFeed::from_watch_list(pixiv_list("novels")) {
        Err(Error::UnknownField(m)) => assert_eq!(m, "pixiv watch list kind novels"),
        other => panic!("unexpected {:?}", other),
    }
    let mut w = pixiv_list("timeline");
    w.restriction = Some("friends".to_string());
    match PixivFeed::from_watch_list(w) {
        Err(Error::Other(m)) => assert_eq!(m, "friends"),
        other => panic!("unexpected {:?}", other),
    }
}

#[test]
fn pixiv_fetch_context() {
    let bookmarks = PixivFeedParams::Bookmarks { user_id: 1, tag: None, restriction: Restriction::Public };
    let ctx = initial_fetch_context(&bookmarks, Some(77));
    assert_eq!((ctx.offset, ctx.total_fetched), (Some(77), 0));
    let timeline = PixivFeedParams::Timeline { restriction: FollowingRestriction::Public };
    assert_eq!(initial_fetch_context(&timeline, Some(77)).offset, None);
    let mut ctx = PixivFetchContext { offset: None, total_fetched: 10 };
    advance_fetch_context(&mut ctx, &bookmarks, Some(30), Some(55), 5);
    assert_eq!((ctx.offset, ctx.total_fetched), (Some(55), 15));
    advance_fetch_context(&mut ctx, &timeline, Some(30), Some(55), 5);
    assert_eq!((ctx.offset, ctx.total_fetched), (Some(30), 20));
    advance_fetch_context(&mut ctx, &timeline, None, Some(55), 0);
    assert_eq!(ctx.offset, None);
}

#[test]
fn pixiv_save_plans() {
    let params = PixivFeedParams::Bookmarks { user_id: 1, tag: None, restriction: Restriction::Private };
    let none: HashSet<i64> = HashSet::new();
    let plan = pixiv_save_plan(7, &vec![], &none, false, None, &params, None, false, 0);
    assert!(plan.mark_reached_end && plan.result.should_stop && plan.result.reached_end && plan.history.is_none());

    let existing: HashSet<i64> = [3].into_iter().collect();
    let plan = pixiv_save_plan(7, &vec![3], &existing, false, None, &params, None, false, 0);
    assert!(plan.mark_reached_end && plan.result.should_stop && plan.result.reached_end);
    let plan = pixiv_save_plan(7, &vec![3], &existing, true, None, &params, None, false, 0);
    assert!(!plan.mark_reached_end && plan.result.should_stop && !plan.result.reached_end);
    let unrelated: HashSet<i64> = [77].into_iter().collect();
    let plan = pixiv_save_plan(7, &vec![5, 4], &unrelated, true, None, &params, None, false, 2);
    assert!(!plan.result.should_stop);

    let plan = pixiv_save_plan(7, &vec![5, 4, 3], &existing, true, Some(99), &params, None, false, 3);
    assert_eq!(plan.new_ids, vec![5, 4]);
    let entry = |illust_id: i64| PixivWatchListIllust {
        watch_list_id: 7,
        illust_id,
        private_bookmark: true,
        stale: false,
        sort_index: None,
    };
    assert_eq!(plan.entries, vec![entry(5), entry(4)]);
    assert_eq!(plan.result.post_ids, vec!["5", "4"]);
    assert!(plan.result.should_stop && !plan.result.reached_end && !plan.mark_limit_reached);
    let h = plan.history.unwrap();
    assert_eq!((h.watch_list_id, h.ids.as_str(), h.count, h.next_bookmark_id), (7, "5, 4", 2, Some(99)));

    let plan = pixiv_save_plan(7, &vec![5, 4], &none, true, None, &params, Some(10), false, 10);
    assert!(plan.mark_limit_reached && plan.result.should_stop && plan.result.reached_end);
    let plan = pixiv_save_plan(7, &vec![5, 4], &none, true, None, &params, Some(10), true, 10);
    assert!(!plan.mark_limit_reached && !plan.result.should_stop && !plan.result.reached_end);
    let plan = pixiv_save_plan(7, &vec![5, 4], &none, true, None, &params, Some(10), false, 9);
    assert!(!plan.mark_limit_reached && !plan.result.should_stop);
}

#[test]
fn pixiv_media_records() {
    let single = PixivIllustPages {
        id: 10,
        page_count: 1,
        width: 100,
        height: 200,
        single_page: urls("s", Some("orig")),
        pages: vec![],
    };
    let m = pixiv_media(&single);
    assert_eq!(m.len(), 1);
    assert_eq!((m[0].illust_id, m[0].page, m[0].original_url.as_str(), m[0].medium_url.as_str()), (10, 0, "orig", "s-m"));
    let multi = PixivIllustPages {
        id: 11,
        page_count: 2,
        width: 1,
        height: 2,
        single_page: urls("s", None),
        pages: vec![urls("a", Some("oa")), urls("b", None)],
    };
    let m = pixiv_media(&multi);
    let summary: Vec<(i32, &str, &str)> = m.iter().map(|x| (x.page, x.large_url.as_str(), x.original_url.as_str())).collect();
    assert_eq!(summary, vec![(0, "a-l", "oa"), (1, "b-l", "")]);
    assert_eq!((m[1].width, m[1].height), (1, 2));
}

#[test]
fn twitter_params_helpers() {
    assert_eq!(TwitterFeedParams::Timeline.kind(), "timeline");
    assert_eq!(TwitterFeedParams::List { list_id: 4 }.kind(), "list");
    assert_eq!(TwitterFeedParams::List { list_id: 4 }.twitter_list_id(), Some(4));
    assert_eq!(TwitterFeedParams::Likes { user_id: 2 }.user_id(), Some(2));
    assert_eq!(TwitterFeedParams::Posts { user_id: 3 }.user_id(), Some(3));
    assert_eq!(TwitterFeedParams::Bookmarks.user_id(), None);
    assert_eq!(TwitterFeedParams::Search { query: "q".to_string() }.search_query().as_deref(), Some("q"));
}

#[test]
fn twitter_descriptions() {
    let d = |p| twitter_feed(p, false).view().description;
    assert_eq!(d(TwitterFeedParams::Timeline), "Timeline");
    assert_eq!(d(TwitterFeedParams::Bookmarks), "Bookmarks");
    assert_eq!(d(TwitterFeedParams::Likes { user_id: 12 }), "Likes by 12");
    assert_eq!(d(TwitterFeedParams::Posts { user_id: 13 }), "Posts by 13");
    assert_eq!(d(TwitterFeedParams::List { list_id: 14 }), "List 14");
    assert_eq!(d(TwitterFeedParams::Search { query: "art".to_string() }), "Search art");
    let v = twitter_feed(TwitterFeedParams::Timeline, false).view();
    assert_eq!((v.feed_id, v.community.as_str(), v.name.as_deref()), (8, "twitter", Some("f")));
}

#[test]
fn twitter_feed_from_storage() {
    let mut w = twitter_list("likes");
    w.user_id = Some(5);
    let f = TwitterFeed::from_watch_list(w).unwrap();
    assert!(matches!(f.params, TwitterFeedParams::Likes { user_id: 5 }));
    assert!(f.reached_end);
    assert!(matches!(TwitterFeed::from_watch_list(twitter_list("bookmarks")).unwrap().params, TwitterFeedParams::Bookmarks));
    let cases = [
        ("likes", "twitter user id cannot be null for likes feed"),
        ("posts", "twitter user id cannot be null for posts feed"),
        ("list", "twitter list id cannot be null for list feed"),
        ("search", "twitter search query cannot be null for search feed"),
    ];
    for (kind, message) in cases {
        match TwitterFeed::from_watch_list(twitter_list(kind)) {
            Err(Error::ObjectNotComplete(m)) => assert_eq!(m, message),
            other => panic!("unexpected {:?}", other),
        }
    }
    match TwitterFeed::from_watch_list(twitter_list("spaces")) {
        Err(Error::UnknownField(m)) => assert_eq!(m, "twitter watch list kind spaces"),
        other => panic!("unexpected {:?}", other),
    }
}

#[test]
fn twitter_fetch_contexts() {
    let likes_done = twitter_feed(TwitterFeedParams::Likes { user_id: 1 }, true);
    assert_eq!(likes_done.cursor_source(), CursorSource::Top);
    assert_eq!(likes_done.fetch_direction(), Direction::Forward);
    let likes = twitter_feed(TwitterFeedParams::Likes { user_id: 1 }, false);
    assert_eq!(likes.cursor_source(), CursorSource::Bottom);
    assert_eq!(likes.fetch_direction(), Direction::Backward);
    let search = twitter_feed(TwitterFeedParams::Search { query: "q".to_string() }, true);
    assert_eq!(search.cursor_source(), CursorSource::Start);
    assert_eq!(search.fetch_direction(), Direction::Backward);
    let ctx = search.fetch_context(Some("c".to_string()));
    assert_eq!((ctx.cursor, ctx.direction), (None, Direction::Backward));
    let ctx = likes.fetch_context(Some("c".to_string()));
    assert_eq!(ctx.cursor.as_deref(), Some("c"));

    let mut ctx = TwitterFetchContext { cursor: None, direction: Direction::Forward };
    advance_cursor(&mut ctx, Some("top".to_string()), Some("bottom".to_string()));
    assert_eq!(ctx.cursor.as_deref(), Some("top"));
    let mut ctx = TwitterFetchContext { cursor: None, direction: Direction::Backward };
    advance_cursor(&mut ctx, Some("top".to_string()), Some("bottom".to_string()));
    assert_eq!(ctx.cursor.as_deref(), Some("bottom"));
}

#[test]
fn twitter_save_records_pair_sort_indices() {
    let existing: HashSet<i64> = [2].into_iter().collect();
    let r = twitter_save_records(
        9,
        &vec![1, 2, 3],
        &vec![30, 20, 10],
        &existing,
        Some(TimelineCursor { value: "t".to_string(), sort_index: 31 }),
        None,
    );
    assert_eq!(r.new_ids, vec![1, 3]);
    let entry = |tweet_id: i64, sort_index: i64| TwitterWatchListTweet {
        watch_list_id: 9,
        tweet_id,
        sort_index: Some(sort_index),
        stale: false,
    };
    assert_eq!(r.entries, vec![entry(1, 30), entry(3, 10)]);
    assert_eq!((r.history.watch_list_id, r.history.ids.as_str(), r.history.count), (9, "1, 3", 2));
    assert_eq!((r.history.top_cursor.as_deref(), r.history.top_sort_index), (Some("t"), Some(31)));
    assert_eq!((r.history.bottom_cursor, r.history.bottom_sort_index), (None, None));
    let r = twitter_save_records(9, &vec![1, 3], &vec![30], &existing, None, None);
    assert_eq!(r.entries, vec![entry(1, 30)]);
}

#[test]
fn twitter_media_urls() {
    let mut m = TwitterMedia {
        id: "3_1".to_string(),
        tweet_id: 1,
        type_: "photo".to_string(),
        url: "https://pbs.twimg.com/media/x.jpg".to_string(),
        width: 1,
        height: 1,
        preview_image_url: None,
        duration: None,
        page: 0,
    };
    assert_eq!(m.original_url(), "https://pbs.twimg.com/media/x.jpg?name=orig");
    assert_eq!(m.thumbnail_url().as_deref(), Some("https://pbs.twimg.com/media/x.jpg?name=medium"));
    m.type_ = "video".to_string();
    m.preview_image_url = Some("prev".to_string());
    assert_eq!(m.original_url(), "https://pbs.twimg.com/media/x.jpg");
    assert_eq!(m.thumbnail_url().as_deref(), Some("prev"));
    m.preview_image_url = None;
    assert_eq!(m.thumbnail_url(), None);
}

#[test]
fn pixiv_media_views() {
    let v = pixiv_media_view(PixivMedia {
        illust_id: 42,
        page: 1,
        square_medium_url: "sq".to_string(),
        medium_url: "m".to_string(),
        large_url: "l".to_string(),
        original_url: "o".to_string(),
        width: 3,
        height: 4,
    });
    assert_eq!((v.media_id.as_str(), v.community.as_str(), v.post_id.as_str(), v.page_index), ("42_1", "pixiv", "42", 1));
    assert_eq!((v.url.as_deref(), v.thumbnail_url.as_deref(), v.width, v.height), (Some("o"), Some("m"), Some(3), Some(4)));
    assert!(v.extra.is_none());
}

#[test]
fn twitter_media_views() {
    let m = TwitterMedia {
        id: "3_1".to_string(),
        tweet_id: 99,
        type_: "photo".to_string(),
        url: "https://pbs.twimg.com/media/x.jpg".to_string(),
        width: 5,
        height: 6,
        preview_image_url: None,
        duration: None,
        page: 2,
    };
    let v = m.view();
    assert_eq!((v.media_id.as_str(), v.community.as_str(), v.post_id.as_str(), v.page_index), ("3_1", "twitter", "99", 2));
    assert_eq!(v.url.as_deref(), Some("https://pbs.twimg.com/media/x.jpg?name=orig"));
    assert_eq!(v.thumbnail_url.as_deref(), Some("https://pbs.twimg.com/media/x.jpg?name=medium"));
    assert!(matches!(v.extra, Some(MediaExtra::Twitter { type_ }) if type_ == "photo"));
}

#[test]
fn stored_twitter_feeds_read_back() {
    let all = vec![
        TwitterFeedParams::Timeline,
        TwitterFeedParams::Bookmarks,
        TwitterFeedParams::Likes { user_id: 1 },
        TwitterFeedParams::Posts { user_id: 2 },
        TwitterFeedParams::List { list_id: 3 },
        TwitterFeedParams::Search { query: "q".to_string() },
    ];
    for p in all {
        let mut w = twitter_list(&p.kind());
        w.twitter_list_id = p.twitter_list_id();
        w.user_id = p.user_id();
        w.search_query = p.search_query();
        let f = TwitterFeed::from_watch_list(w).unwrap();
        assert_eq!(format!("{:?}", f.params), format!("{:?}", p));
    }
}

#[test]
fn stored_pixiv_feeds_read_back() {
    let all = vec![
        PixivFeedParams::Timeline { restriction: FollowingRestriction::All },
        PixivFeedParams::Bookmarks { user_id: 5, tag: Some("t".to_string()), restriction: Restriction::Private },
        PixivFeedParams::Posts { user_id: 6, type_: IllustType::Manga },
        PixivFeedParams::Search { query: "q".to_string() },
    ];
    for p in all {
        let mut w = pixiv_list(&p.kind_str());
        w.restriction = p.restriction();
        w.user_id = p.user_id();
        w.bookmark_tag = p.bookmark_tag();
        w.illust_type = p.illust_type();
        w.search_query = p.search_query();
        let f = PixivFeed::from_watch_list(w).unwrap();
        assert_eq!(format!("{:?}", f.params), format!("{:?}", p));
    }
}
