use bottle::error::Error;
use bottle::feed::{object_scheme, scheme_of, FieldKind, Scheme};
use bottle::library::unique_ids;
use bottle::panda::{
    cached_preview_token, favorite_search_option_scheme, gallery_not_found_error, image_joins_cache,
    listing_next_offset, media_not_found_error, merge_cached_previews, panda_community_metadata, search_option_scheme,
    CachedPreview, GalleryListOffset,
};
use bottle::pixiv::pixiv_community_metadata;
use bottle::twitter::twitter_community_metadata;

fn field_names(s: &Scheme) -> Vec<String> {
    match s {
        Scheme::Object(fields) => fields.iter().map(|f| f.0.clone()).collect(),
        _ => vec![],
    }
}

fn preview(index: u32, token: &str) -> CachedPreview {
    CachedPreview { index, token: token.to_string(), thumbnail_url: format!("thumb{}", index) }
}

#[test]
fn twitter_metadata() {
    let m = twitter_community_metadata();
    assert_eq!(m.name, "twitter");
    let names: Vec<&str> = m.feeds.iter().map(|f| f.name.as_str()).collect();
    assert_eq!(names, vec!["timeline", "bookmarks", "likes", "posts", "list", "search"]);
    assert!(m.feeds.iter().all(|f| f.need_auth));
    assert!(matches!(m.feeds[0].scheme, Scheme::Null));
    assert_eq!(field_names(&m.feeds[4].scheme), vec!["list_id"]);
    let account = m.account.unwrap();
    assert_eq!(field_names(&account.credential_scheme), vec!["ct0", "auth_token"]);
    assert!(account.can_fetch_info && !account.need_refresh);
}

#[test]
fn pixiv_metadata() {
    let m = pixiv_community_metadata();
    assert_eq!(m.name, "pixiv");
    let names: Vec<&str> = m.feeds.iter().map(|f| f.name.as_str()).collect();
    assert_eq!(names, vec!["timeline", "bookmarks", "posts", "search"]);
    assert_eq!(field_names(&m.feeds[1].scheme), vec!["user_id", "tag", "restriction"]);
    match &m.feeds[1].scheme {
        Scheme::Object(fields) => assert!(matches!(&fields[1].1, Scheme::Optional(b) if matches!(**b, Scheme::String))),
        _ => panic!("not an object"),
    }
    let account = m.account.unwrap();
    assert!(matches!(account.credential_scheme, Scheme::String));
    assert!(account.can_fetch_info && account.need_refresh);
}

#[test]
fn panda_metadata() {
    let m = panda_community_metadata();
    assert_eq!(m.name, "panda");
    let names: Vec<&str> = m.feeds.iter().map(|f| f.name.as_str()).collect();
    assert_eq!(names, vec!["search", "watched", "favorites"]);
    assert_eq!(field_names(&m.feeds[2].scheme), vec!["option"]);
    assert_eq!(field_names(&search_option_scheme()).len(), 16);
    assert_eq!(
        field_names(&favorite_search_option_scheme()),
        vec!["keyword", "category_index", "search_name", "search_tags", "search_note"]
    );
    let account = m.account.unwrap();
    assert_eq!(field_names(&account.credential_scheme), vec!["ipb_member_id", "ipb_pass_hash", "igneous"]);
    assert!(!account.can_fetch_info && !account.need_refresh);
}

#[test]
fn schemes_of_kinds() {
    assert!(matches!(scheme_of(FieldKind::StringArray), Scheme::Array(b) if matches!(*b, Scheme::String)));
    assert!(matches!(scheme_of(FieldKind::OptionalInt), Scheme::Optional(b) if matches!(*b, Scheme::Int)));
    let s = object_scheme(&vec!["a", "b"], &vec![FieldKind::Bool, FieldKind::Bigint]);
    assert_eq!(field_names(&s), vec!["a", "b"]);
}

#[test]
fn unique_ids_keep_first_appearance() {
    assert_eq!(unique_ids(&vec![3, 1, 3, 2, 1]), vec![3, 1, 2]);
    assert_eq!(unique_ids(&vec![]), Vec::<i64>::new());
}

#[test]
fn kept_previews_merge() {
    let fetched = vec![preview(1, "a"), preview(2, "b"), preview(2, "c")];
    let r = merge_cached_previews(None, &fetched);
    assert_eq!(r.len(), 3);
    let r = merge_cached_previews(Some(vec![preview(1, "x")]), &fetched);
    let summary: Vec<(u32, &str)> = r.iter().map(|p| (p.index, p.token.as_str())).collect();
    assert_eq!(summary, vec![(1, "x"), (2, "b"), (2, "c")]);
}

#[test]
fn kept_preview_tokens() {
    let previews = vec![preview(1, "a"), preview(2, "b"), preview(2, "c")];
    assert_eq!(cached_preview_token(&previews, 2).as_deref(), Some("b"));
    assert_eq!(cached_preview_token(&previews, 3), None);
    match media_not_found_error(12, 3) {
        Error::ObjectNotFound(m) => assert_eq!(m, "Media 12-3 not found"),
        other => panic!("unexpected {:?}", other),
    }
    match gallery_not_found_error(12) {
        Error::ObjectNotFound(m) => assert_eq!(m, "Gallery 12 not found"),
        other => panic!("unexpected {:?}", other),
    }
    assert!(image_joins_cache(&vec![1, 2], 3));
    assert!(!image_joins_cache(&vec![1, 2], 2));
}

#[test]
fn listing_offsets() {
    assert_eq!(listing_next_offset(Some(GalleryListOffset::OlderThan("9".to_string()))).as_deref(), Some("9"));
    assert_eq!(listing_next_offset(Some(GalleryListOffset::NewerThan("9".to_string()))), None);
    assert_eq!(listing_next_offset(None), None);
}

#[test]
fn preview_page_answers() {
    let previews = vec![preview(3, "a"), preview(4, "b")];
    let answer = bottle::panda::preview_page_answer(12, &previews, 7);
    assert_eq!(answer.total_items, Some(7));
    let ids: Vec<&str> = answer.media.iter().map(|m| m.media_id.as_str()).collect();
    assert_eq!(ids, vec!["12-3", "12-4"]);
    assert_eq!(answer.media[1].thumbnail_url.as_deref(), Some("thumb4"));
    assert_eq!((answer.media[1].post_id.as_str(), answer.media[1].page_index), ("12", 4));
    assert!(answer.media[0].url.is_none());
    let v = bottle::panda::fetched_image_view(12, 4, "https://e/4.jpg".to_string(), 800, 600);
    assert_eq!((v.media_id.as_str(), v.url.as_deref(), v.width, v.height), ("12-4", Some("https://e/4.jpg"), Some(800), Some(600)));
}

#[test]
fn listing_answers() {
    let a = bottle::panda::listing_answer(0, Some(GalleryListOffset::OlderThan("5".to_string())), Some(40));
    assert!(a.reached_end);
    assert_eq!((a.next_offset.as_deref(), a.total_items), (Some("5"), Some(40)));
    let a = bottle::panda::listing_answer(3, None, None);
    assert!(!a.reached_end);
    assert_eq!((a.next_offset, a.total_items), (None, None));
    let tags = vec![
        bottle::panda::GalleryTag { is_artist: false, name: "cat".to_string() },
        bottle::panda::GalleryTag { is_artist: true, name: "someone".to_string() },
    ];
    let users = bottle::panda::artist_users(&tags);
    assert_eq!(users.len(), 1);
    assert_eq!((users[0].user_id.as_str(), users[0].tag_name.as_deref()), ("someone", Some("artist:someone")));
}
