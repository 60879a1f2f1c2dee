//! Twitter community: feed parameters as stored and shown, where a fetch continues
//! from, what saving a fetched timeline records, and the URLs of stored media.
use vstd::prelude::*;

use std::collections::HashSet;

use crate::decimal::{i64_to_decimal, int_decimal};
use crate::error::{framed, Error};
use crate::feed::{
    feed_metadata, fresh_post_ids, fresh_posts, id_texts, ids_to_strings, join_comma, join_with_comma,
    object_fields_are, object_scheme, views, AccountMetadata, CommunityMetadata, Direction, FeedMetadata, FeedView,
    FieldKind, MediaExtra, MediaView, Scheme,
};
use crate::library::clone_opt_string;
use crate::text::{text_eq, text_of};

verus! {

/// What a Twitter feed follows.
#[derive(Debug)]
pub enum TwitterFeedParams {
    Timeline,
    Bookmarks,
    Likes { user_id: i64 },
    Posts { user_id: i64 },
    List { list_id: i64 },
    Search { query: String },
}

/// A Twitter feed.
#[derive(Debug)]
pub struct TwitterFeed {
    pub id: i32,
    pub name: Option<String>,
    pub watching: bool,
    pub first_fetch_limit: Option<i32>,
    pub account_id: i32,
    pub params: TwitterFeedParams,
    pub reached_end: bool,
}

/// A Twitter feed as stored: its kind by name, and the parameters of every kind,
/// of which the kind's own must be there.
#[derive(Debug)]
pub struct TwitterWatchList {
    pub id: i32,
    pub name: Option<String>,
    pub watching: bool,
    pub first_fetch_limit: Option<i32>,
    pub account_id: i32,
    pub kind: String,
    pub twitter_list_id: Option<i64>,
    pub user_id: Option<i64>,
    pub search_query: Option<String>,
    pub reached_end: bool,
}

/// Where a fetch of a Twitter feed stands: the cursor to continue from and the
/// direction it goes in.
#[derive(Debug)]
pub struct TwitterFetchContext {
    pub cursor: Option<String>,
    pub direction: Direction,
}

/// The name under which a kind of Twitter feed is stored.
pub open spec fn twitter_kind_name(p: TwitterFeedParams) -> Seq<char> {
    match p {
        TwitterFeedParams::Timeline => "timeline"@,
        TwitterFeedParams::Bookmarks => "bookmarks"@,
        TwitterFeedParams::Likes { .. } => "likes"@,
        TwitterFeedParams::Posts { .. } => "posts"@,
        TwitterFeedParams::List { .. } => "list"@,
        TwitterFeedParams::Search { .. } => "search"@,
    }
}

/// How a Twitter feed is described to the client.
pub open spec fn twitter_description(p: TwitterFeedParams) -> Seq<char> {
    match p {
        TwitterFeedParams::Timeline => "Timeline"@,
        TwitterFeedParams::Bookmarks => "Bookmarks"@,
        TwitterFeedParams::Likes { user_id } => "Likes by "@ + int_decimal(user_id as int),
        TwitterFeedParams::Posts { user_id } => "Posts by "@ + int_decimal(user_id as int),
        TwitterFeedParams::List { list_id } => "List "@ + int_decimal(list_id as int),
        TwitterFeedParams::Search { query } => "Search "@ + query@,
    }
}

impl TwitterFeedParams {
    /// The name under which the feed's kind is stored.
    pub fn kind(&self) -> (r: String)
        ensures
            r@ == twitter_kind_name(*self),
    {
        match self {
            TwitterFeedParams::Timeline => text_of("timeline"),
            TwitterFeedParams::Bookmarks => text_of("bookmarks"),
            TwitterFeedParams::Likes { .. } => text_of("likes"),
            TwitterFeedParams::Posts { .. } => text_of("posts"),
            TwitterFeedParams::List { .. } => text_of("list"),
            TwitterFeedParams::Search { .. } => text_of("search"),
        }
    }

    /// The list followed, for a list feed.
    pub fn twitter_list_id(&self) -> (r: Option<i64>)
        ensures
            r == match *self {
                TwitterFeedParams::List { list_id } => Some(list_id),
                _ => None,
            },
    {
        match self {
            TwitterFeedParams::List { list_id } => Some(*list_id),
            _ => None,
        }
    }

    /// The user whose likes or posts are followed.
    pub fn user_id(&self) -> (r: Option<i64>)
        ensures
            r == match *self {
                TwitterFeedParams::Likes { user_id } => Some(user_id),
                TwitterFeedParams::Posts { user_id } => Some(user_id),
                _ => None,
            },
    {
        match self {
            TwitterFeedParams::Likes { user_id } => Some(*user_id),
            TwitterFeedParams::Posts { user_id } => Some(*user_id),
            _ => None,
        }
    }

    /// The query searched, for a search feed.
    pub fn search_query(&self) -> (r: Option<String>)
        ensures
            r == match *self {
                TwitterFeedParams::Search { query } => Some(query),
                _ => None,
            },
    {
        match self {
            TwitterFeedParams::Search { query } => Some(query.clone()),
            _ => None,
        }
    }
}

/// Whether `f` carries the stored feed's own fields, and parameters `p`.
pub open spec fn twitter_feed_of(w: TwitterWatchList, p: TwitterFeedParams, f: TwitterFeed) -> bool {
    &&& f.id == w.id
    &&& f.name == w.name
    &&& f.watching == w.watching
    &&& f.first_fetch_limit == w.first_fetch_limit
    &&& f.account_id == w.account_id
    &&& f.reached_end == w.reached_end
    &&& f.params == p
}

/// Whether `r` is the feed read back from the stored `w`: the feed with the
/// parameters of its kind, an `ObjectNotComplete` error when the kind's parameter is
/// missing, and an `UnknownField` error for a kind that is none of Twitter's.
pub open spec fn twitter_feed_read(w: TwitterWatchList, r: Result<TwitterFeed, Error>) -> bool {
    if w.kind@ == "timeline"@ {
        r matches Ok(f) && twitter_feed_of(w, TwitterFeedParams::Timeline, f)
    } else if w.kind@ == "bookmarks"@ {
        r matches Ok(f) && twitter_feed_of(w, TwitterFeedParams::Bookmarks, f)
    } else if w.kind@ == "likes"@ {
        match w.user_id {
            Some(u) => r matches Ok(f) && twitter_feed_of(w, TwitterFeedParams::Likes { user_id: u }, f),
            None => r matches Err(Error::ObjectNotComplete(m)) && m@
                == "twitter user id cannot be null for likes feed"@,
        }
    } else if w.kind@ == "posts"@ {
        match w.user_id {
            Some(u) => r matches Ok(f) && twitter_feed_of(w, TwitterFeedParams::Posts { user_id: u }, f),
            None => r matches Err(Error::ObjectNotComplete(m)) && m@
                == "twitter user id cannot be null for posts feed"@,
        }
    } else if w.kind@ == "list"@ {
        match w.twitter_list_id {
            Some(l) => r matches Ok(f) && twitter_feed_of(w, TwitterFeedParams::List { list_id: l }, f),
            None => r matches Err(Error::ObjectNotComplete(m)) && m@
                == "twitter list id cannot be null for list feed"@,
        }
    } else if w.kind@ == "search"@ {
        match w.search_query {
            Some(q) => r matches Ok(f) && twitter_feed_of(w, TwitterFeedParams::Search { query: q }, f),
            None => r matches Err(Error::ObjectNotComplete(m)) && m@
                == "twitter search query cannot be null for search feed"@,
        }
    } else {
        r matches Err(Error::UnknownField(m)) && m@ == "twitter watch list kind "@ + w.kind@
    }
}

/// A Twitter feed stored under its kind's name, with the parameters of its kind (as
/// `kind`, `twitter_list_id`, `user_id` and `search_query` give them), is read back
/// with the same parameters and fields.
pub proof fn law_stored_twitter_feed_reads_back(
    w: TwitterWatchList,
    p: TwitterFeedParams,
    r: Result<TwitterFeed, Error>,
)
    requires
        w.kind@ == twitter_kind_name(p),
        w.twitter_list_id == (match p {
            TwitterFeedParams::List { list_id } => Some(list_id),
            _ => None,
        }),
        w.user_id == (match p {
            TwitterFeedParams::Likes { user_id } => Some(user_id),
            TwitterFeedParams::Posts { user_id } => Some(user_id),
            _ => None,
        }),
        w.search_query == (match p {
            TwitterFeedParams::Search { query } => Some(query),
            _ => None,
        }),
        twitter_feed_read(w, r),
    ensures
        r matches Ok(f) && twitter_feed_of(w, p, f),
{
    reveal_strlit("timeline");
    reveal_strlit("bookmarks");
    reveal_strlit("likes");
    reveal_strlit("posts");
    reveal_strlit("list");
    reveal_strlit("search");
    assert("timeline"@ != "bookmarks"@ && "timeline"@ != "likes"@ && "timeline"@ != "posts"@ && "timeline"@
        != "list"@ && "timeline"@ != "search"@) by {
        assert("timeline"@[0] != "bookmarks"@[0]);
        assert("timeline"@.len() != "likes"@.len());
        assert("timeline"@[0] != "posts"@[0]);
        assert("timeline"@.len() != "list"@.len());
        assert("timeline"@.len() != "search"@.len());
    }
    assert("bookmarks"@ != "likes"@ && "bookmarks"@ != "posts"@ && "bookmarks"@ != "list"@ && "bookmarks"@
        != "search"@) by {
        assert("bookmarks"@.len() != "likes"@.len());
        assert("bookmarks"@.len() != "posts"@.len());
        assert("bookmarks"@.len() != "list"@.len());
        assert("bookmarks"@.len() != "search"@.len());
    }
    assert("likes"@ != "posts"@ && "likes"@ != "list"@ && "likes"@ != "search"@) by {
        assert("likes"@[0] != "posts"@[0]);
        assert("likes"@.len() != "list"@.len());
        assert("likes"@.len() != "search"@.len());
    }
    assert("posts"@ != "list"@ && "posts"@ != "search"@) by {
        assert("posts"@.len() != "list"@.len());
        assert("posts"@.len() != "search"@.len());
    }
    assert("list"@ != "search"@) by {
        assert("list"@.len() != "search"@.len());
    }
}

fn incomplete(m: &str) -> (r: Error)
    ensures
        r matches Error::ObjectNotComplete(t) && t@ == m@,
{
    Error::ObjectNotComplete(text_of(m))
}

impl TwitterFeed {
    /// The feed read back from how it is stored (see `twitter_feed_read`).
    pub fn from_watch_list(w: TwitterWatchList) -> (r: Result<TwitterFeed, Error>)
        ensures
            twitter_feed_read(w, r),
    {
        let ghost w0 = w;
        let params = if text_eq(w.kind.as_str(), "timeline") {
            TwitterFeedParams::Timeline
        } else if text_eq(w.kind.as_str(), "bookmarks") {
            TwitterFeedParams::Bookmarks
        } else if text_eq(w.kind.as_str(), "likes") {
            match w.user_id {
                Some(u) => TwitterFeedParams::Likes { user_id: u },
                None => return Err(incomplete("twitter user id cannot be null for likes feed")),
            }
        } else if text_eq(w.kind.as_str(), "posts") {
            match w.user_id {
                Some(u) => TwitterFeedParams::Posts { user_id: u },
                None => return Err(incomplete("twitter user id cannot be null for posts feed")),
            }
        } else if text_eq(w.kind.as_str(), "list") {
            match w.twitter_list_id {
                Some(l) => TwitterFeedParams::List { list_id: l },
                None => return Err(incomplete("twitter list id cannot be null for list feed")),
            }
        } else if text_eq(w.kind.as_str(), "search") {
            match w.search_query {
                Some(q) => TwitterFeedParams::Search { query: q },
                None => return Err(incomplete("twitter search query cannot be null for search feed")),
            }
        } else {
            proof {
                reveal_strlit("");
            }
            return Err(Error::UnknownField(framed("twitter watch list kind ", w.kind.as_str(), "")));
        };
        Ok(
            TwitterFeed {
                id: w.id,
                name: w.name,
                watching: w.watching,
                first_fetch_limit: w.first_fetch_limit,
                account_id: w.account_id,
                params,
                reached_end: w.reached_end,
            },
        )
    }

    /// The feed as the client sees it, described by what it follows.
    pub fn view(&self) -> (r: FeedView)
        ensures
            r.feed_id == self.id,
            r.community@ == "twitter"@,
            r.name == self.name,
            r.watching == self.watching,
            r.description@ == twitter_description(self.params),
    {
        proof {
            reveal_strlit("");
        }
        let description = match &self.params {
            TwitterFeedParams::Timeline => text_of("Timeline"),
            TwitterFeedParams::Bookmarks => text_of("Bookmarks"),
            TwitterFeedParams::Likes { user_id } => {
                let d = i64_to_decimal(*user_id);
                framed("Likes by ", d.as_str(), "")
            },
            TwitterFeedParams::Posts { user_id } => {
                let d = i64_to_decimal(*user_id);
                framed("Posts by ", d.as_str(), "")
            },
            TwitterFeedParams::List { list_id } => {
                let d = i64_to_decimal(*list_id);
                framed("List ", d.as_str(), "")
            },
            TwitterFeedParams::Search { query } => framed("Search ", query.as_str(), ""),
        };
        assert(description@ =~= twitter_description(self.params));
        FeedView {
            feed_id: self.id,
            community: text_of("twitter"),
            name: clone_opt_string(&self.name),
            description,
            watching: self.watching,
        }
    }

    /// Which recorded cursor a fetch starts from: a likes feed that reached its end
    /// looks for newer posts from the top cursor, one that did not goes on from the
    /// bottom cursor; a search always starts from the top of the results.
    ///
    /// Only likes and search feeds can be fetched.
    pub fn cursor_source(&self) -> (r: CursorSource)
        requires
            self.params is Likes || self.params is Search,
        ensures
            r == match self.params {
                TwitterFeedParams::Likes { .. } => if self.reached_end {
                    CursorSource::Top
                } else {
                    CursorSource::Bottom
                },
                _ => CursorSource::Start,
            },
    {
        match &self.params {
            TwitterFeedParams::Likes { .. } => if self.reached_end {
                CursorSource::Top
            } else {
                CursorSource::Bottom
            },
            _ => CursorSource::Start,
        }
    }

    /// The direction a fetch goes in: a search goes back in time; another feed goes
    /// forward once it reached its end, and back before.
    pub fn fetch_direction(&self) -> (r: Direction)
        ensures
            r == if self.params is Search {
                Direction::Backward
            } else if self.reached_end {
                Direction::Forward
            } else {
                Direction::Backward
            },
    {
        match &self.params {
            TwitterFeedParams::Search { .. } => Direction::Backward,
            _ => if self.reached_end {
                Direction::Forward
            } else {
                Direction::Backward
            },
        }
    }

    /// Where a fetch starts, from the cursor that `cursor_source` points to.
    pub fn fetch_context(&self, recorded: Option<String>) -> (r: TwitterFetchContext)
        requires
            self.params is Likes || self.params is Search,
        ensures
            r.cursor == if self.params is Search {
                None
            } else {
                recorded
            },
            r.direction == if self.params is Search {
                Direction::Backward
            } else if self.reached_end {
                Direction::Forward
            } else {
                Direction::Backward
            },
    {
        let cursor = match self.cursor_source() {
            CursorSource::Start => None,
            _ => recorded,
        };
        TwitterFetchContext { cursor, direction: self.fetch_direction() }
    }
}

/// Which recorded cursor a fetch of a Twitter feed starts from.
#[derive(Debug, Clone, Copy, PartialEq, Eq, Structural)]
pub enum CursorSource {
    /// The top cursor of the most recent batch: fetch newer posts.
    Top,
    /// The bottom cursor of the oldest batch: fetch older posts.
    Bottom,
    /// No cursor: start from the top.
    Start,
}

/// The cursor to continue from after a fetch: the fetched page's top cursor going
/// forward, its bottom cursor going backward.
pub fn advance_cursor(ctx: &mut TwitterFetchContext, top_cursor: Option<String>, bottom_cursor: Option<String>)
    ensures
        final(ctx).direction == old(ctx).direction,
        final(ctx).cursor == match old(ctx).direction {
            Direction::Forward => top_cursor,
            Direction::Backward => bottom_cursor,
        },
{
    ctx.cursor = match ctx.direction {
        Direction::Forward => top_cursor,
        Direction::Backward => bottom_cursor,
    };
}

// MARK: Saving fetched tweets

/// A cursor of a fetched timeline: its value and the sort index it stands at.
#[derive(Debug)]
pub struct TimelineCursor {
    pub value: String,
    pub sort_index: i64,
}

/// A tweet's entry in a Twitter feed, with the sort index it was fetched at.
#[derive(Debug, PartialEq, Eq)]
pub struct TwitterWatchListTweet {
    pub watch_list_id: i32,
    pub tweet_id: i64,
    pub sort_index: Option<i64>,
    pub stale: bool,
}

/// The entry a newly saved tweet gets in feed `watch_list_id`: its sort index, not stale.
pub open spec fn new_tweet_entry(watch_list_id: i32, e: (i64, i64)) -> TwitterWatchListTweet {
    TwitterWatchListTweet { watch_list_id, tweet_id: e.0, sort_index: Some(e.1), stale: false }
}

/// The record of one saved batch in a Twitter feed's history.
#[derive(Debug)]
pub struct TwitterHistoryEntry {
    pub watch_list_id: i32,
    /// The new tweet IDs, joined with `, `.
    pub ids: String,
    pub count: i32,
    pub top_cursor: Option<String>,
    pub top_sort_index: Option<i64>,
    pub bottom_cursor: Option<String>,
    pub bottom_sort_index: Option<i64>,
}

/// What saving a fetched timeline that holds new tweets records.
#[derive(Debug)]
pub struct TwitterSaveRecords {
    /// The tweets new to the feed, in fetched order.
    pub new_ids: Vec<i64>,
    /// The feed's entries for the new tweets: each tweet with the sort index it was
    /// fetched at.
    pub entries: Vec<TwitterWatchListTweet>,
    pub history: TwitterHistoryEntry,
}

/// Each fetched tweet with the sort index at the same place (as far as both go), for
/// the tweets not in the feed yet.
pub open spec fn new_entries(fetched: Seq<i64>, sort_indices: Seq<i64>, existing: Set<i64>) -> Seq<(i64, i64)> {
    let n = if fetched.len() <= sort_indices.len() {
        fetched.len()
    } else {
        sort_indices.len()
    };
    Seq::new(n, |i: int| (fetched[i], sort_indices[i])).filter(|e: (i64, i64)| !existing.contains(e.0))
}

/// The entries saved for a fetched timeline pair each tweet not yet in the feed with
/// the sort index at its own position: every entry is such a pair, and every such pair
/// (as far as both lists go) has an entry.
pub proof fn law_new_entries_pair_new_tweets_with_their_indices(
    fetched: Seq<i64>,
    sort_indices: Seq<i64>,
    existing: Set<i64>,
)
    ensures
        forall|k: int|
            0 <= k < new_entries(fetched, sort_indices, existing).len() ==> !existing.contains(
                (#[trigger] new_entries(fetched, sort_indices, existing)[k]).0,
            ) && exists|j: int|
                0 <= j < fetched.len() && j < sort_indices.len() && #[trigger] fetched[j] == new_entries(
                    fetched,
                    sort_indices,
                    existing,
                )[k].0 && sort_indices[j] == new_entries(fetched, sort_indices, existing)[k].1,
        forall|j: int|
            0 <= j < fetched.len() && j < sort_indices.len() && !existing.contains(#[trigger] fetched[j])
                ==> new_entries(fetched, sort_indices, existing).contains((fetched[j], sort_indices[j])),
{
    broadcast use vstd::seq_lib::group_filter_ensures;

    let n = if fetched.len() <= sort_indices.len() {
        fetched.len()
    } else {
        sort_indices.len()
    };
    let pairs = Seq::new(n, |i: int| (fetched[i], sort_indices[i]));
    let pred = |e: (i64, i64)| !existing.contains(e.0);
    let ne = new_entries(fetched, sort_indices, existing);
    assert(ne == pairs.filter(pred));
    assert forall|k: int| 0 <= k < ne.len() implies !existing.contains((#[trigger] ne[k]).0) && exists|j: int|
        0 <= j < fetched.len() && j < sort_indices.len() && #[trigger] fetched[j] == ne[k].0 && sort_indices[j]
            == ne[k].1 by {
        assert(pairs.filter(pred).contains(ne[k]));
        pairs.lemma_filter_contains_rev(pred, ne[k]);
        let j = choose|j: int| 0 <= j < pairs.len() && pairs[j] == ne[k];
        assert(pairs[j] == (fetched[j], sort_indices[j]));
    }
    assert forall|j: int|
        0 <= j < fetched.len() && j < sort_indices.len() && !existing.contains(#[trigger] fetched[j]) implies ne.contains(
        (fetched[j], sort_indices[j]),
    ) by {
        assert(pairs[j] == (fetched[j], sort_indices[j]));
        pairs.lemma_filter_contains(pred, j);
    }
}

/// What saving a fetched timeline records: the new tweets, an entry for each with its
/// sort index, and a history entry with their IDs, their count and the page's cursors.
///
/// `existing` holds tweets that the feed already has.
pub fn twitter_save_records(
    watch_list_id: i32,
    fetched: &Vec<i64>,
    sort_indices: &Vec<i64>,
    existing: &HashSet<i64>,
    top_cursor: Option<TimelineCursor>,
    bottom_cursor: Option<TimelineCursor>,
) -> (r: TwitterSaveRecords)
    ensures
        r.new_ids@ == fresh_posts(fetched@, existing@),
        r.entries@ == new_entries(fetched@, sort_indices@, existing@).map_values(
            |e: (i64, i64)| new_tweet_entry(watch_list_id, e),
        ),
        r.history.watch_list_id == watch_list_id,
        r.history.ids@ == join_comma(id_texts(fresh_posts(fetched@, existing@))),
        fresh_posts(fetched@, existing@).len() <= i32::MAX ==> r.history.count == fresh_posts(
            fetched@,
            existing@,
        ).len(),
        r.history.top_cursor == match top_cursor {
            Some(c) => Some(c.value),
            None => None::<String>,
        },
        r.history.top_sort_index == match top_cursor {
            Some(c) => Some(c.sort_index),
            None => None::<i64>,
        },
        r.history.bottom_cursor == match bottom_cursor {
            Some(c) => Some(c.value),
            None => None::<String>,
        },
        r.history.bottom_sort_index == match bottom_cursor {
            Some(c) => Some(c.sort_index),
            None => None::<i64>,
        },
{
    broadcast use vstd::std_specs::hash::group_hash_axioms;

    let new_ids = fresh_post_ids(fetched, existing);

    let n: usize = if fetched.len() <= sort_indices.len() {
        fetched.len()
    } else {
        sort_indices.len()
    };
    let ghost pairs = Seq::new(n as nat, |k: int| (fetched@[k], sort_indices@[k]));
    let mut entries: Vec<TwitterWatchListTweet> = Vec::new();
    let mut j: usize = 0;
    while j < n
        invariant
            n <= fetched@.len(),
            n <= sort_indices@.len(),
            j <= n,
            pairs == Seq::new(n as nat, |k: int| (fetched@[k], sort_indices@[k])),
            entries@ == pairs.take(j as int).filter(|e: (i64, i64)| !existing@.contains(e.0)).map_values(
                |e: (i64, i64)| new_tweet_entry(watch_list_id, e),
            ),
        decreases n - j,
    {
        reveal_with_fuel(Seq::<_>::filter, 1);
        assert(pairs.take(j + 1).drop_last() =~= pairs.take(j as int));
        assert(pairs.take(j + 1).last() == (fetched@[j as int], sort_indices@[j as int]));
        let ghost kept = pairs.take(j as int).filter(|e: (i64, i64)| !existing@.contains(e.0));
        if !existing.contains(&fetched[j]) {
            entries.push(
                TwitterWatchListTweet {
                    watch_list_id,
                    tweet_id: fetched[j],
                    sort_index: Some(sort_indices[j]),
                    stale: false,
                },
            );
            assert(entries@ =~= kept.push(pairs[j as int]).map_values(
                |e: (i64, i64)| new_tweet_entry(watch_list_id, e),
            ));
        }
        j += 1;
    }
    assert(pairs.take(n as int) =~= pairs);

    let ids = ids_to_strings(&new_ids);
    let history = TwitterHistoryEntry {
        watch_list_id,
        ids: join_with_comma(&ids),
        count: #[verifier::truncate] (new_ids.len() as i32),
        top_cursor: match &top_cursor {
            Some(c) => Some(c.value.clone()),
            None => None,
        },
        top_sort_index: match &top_cursor {
            Some(c) => Some(c.sort_index),
            None => None,
        },
        bottom_cursor: match &bottom_cursor {
            Some(c) => Some(c.value.clone()),
            None => None,
        },
        bottom_sort_index: match &bottom_cursor {
            Some(c) => Some(c.sort_index),
            None => None,
        },
    };
    TwitterSaveRecords { new_ids, entries, history }
}

// MARK: Media

/// A stored Twitter media item.
#[derive(Debug)]
pub struct TwitterMedia {
    pub id: String,
    pub tweet_id: i64,
    pub type_: String,
    pub url: String,
    pub width: i32,
    pub height: i32,
    pub preview_image_url: Option<String>,
    pub duration: Option<i32>,
    pub page: i32,
}

impl TwitterMedia {
    /// The URL of the media at full size: a photo's URL asks for the original size.
    pub fn original_url(&self) -> (r: String)
        ensures
            r@ == if self.type_@ == "photo"@ {
                self.url@ + "?name=orig"@
            } else {
                self.url@
            },
    {
        if text_eq(self.type_.as_str(), "photo") {
            proof {
                reveal_strlit("");
            }
            framed("", self.url.as_str(), "?name=orig")
        } else {
            self.url.clone()
        }
    }

    /// The media as the client sees it: its own ID, the tweet as the post, its full-size
    /// and preview URLs and size, and its type.
    pub fn view(&self) -> (r: MediaView)
        ensures
            r.media_id == self.id,
            r.community@ == "twitter"@,
            r.post_id@ == int_decimal(self.tweet_id as int),
            r.page_index == self.page,
            r.url matches Some(u) && u@ == if self.type_@ == "photo"@ {
                self.url@ + "?name=orig"@
            } else {
                self.url@
            },
            match r.thumbnail_url {
                Some(u) => if self.type_@ == "photo"@ {
                    u@ == self.url@ + "?name=medium"@
                } else {
                    self.preview_image_url matches Some(p) && u@ == p@
                },
                None => self.type_@ != "photo"@ && self.preview_image_url is None,
            },
            r.width == Some(self.width),
            r.height == Some(self.height),
            r.extra == Some(MediaExtra::Twitter { type_: self.type_ }),
    {
        MediaView {
            media_id: self.id.clone(),
            community: text_of("twitter"),
            post_id: i64_to_decimal(self.tweet_id),
            page_index: self.page,
            url: Some(self.original_url()),
            width: Some(self.width),
            height: Some(self.height),
            thumbnail_url: self.thumbnail_url(),
            extra: Some(MediaExtra::Twitter { type_: self.type_.clone() }),
        }
    }

    /// The URL of a preview of the media: a photo's URL at medium size, else the
    /// stored preview image, if any.
    pub fn thumbnail_url(&self) -> (r: Option<String>)
        ensures
            match r {
                Some(u) => if self.type_@ == "photo"@ {
                    u@ == self.url@ + "?name=medium"@
                } else {
                    self.preview_image_url matches Some(p) && u@ == p@
                },
                None => self.type_@ != "photo"@ && self.preview_image_url is None,
            },
    {
        if text_eq(self.type_.as_str(), "photo") {
            proof {
                reveal_strlit("");
            }
            Some(framed("", self.url.as_str(), "?name=medium"))
        } else {
            clone_opt_string(&self.preview_image_url)
        }
    }
}

// MARK: Metadata

/// Whether `r` describes the kinds of Twitter feeds and their parameters: timeline and
/// bookmarks take none, likes and posts a user ID, a list its ID, a search its query;
/// all need an account.
pub open spec fn twitter_feed_kinds(r: Seq<FeedMetadata>) -> bool {
    &&& r.len() == 6
    &&& forall|k: int| 0 <= k < 6 ==> (#[trigger] r[k]).need_auth
    &&& r[0].name@ == "timeline"@ && r[0].scheme is Null
    &&& r[1].name@ == "bookmarks"@ && r[1].scheme is Null
    &&& r[2].name@ == "likes"@ && object_fields_are(r[2].scheme, seq![("user_id"@, FieldKind::Bigint)])
    &&& r[3].name@ == "posts"@ && object_fields_are(r[3].scheme, seq![("user_id"@, FieldKind::Bigint)])
    &&& r[4].name@ == "list"@ && object_fields_are(r[4].scheme, seq![("list_id"@, FieldKind::Bigint)])
    &&& r[5].name@ == "search"@ && object_fields_are(r[5].scheme, seq![("query"@, FieldKind::String)])
}

/// Whether `a` describes Twitter accounts: their credential is the `ct0` and
/// `auth_token` cookies; their details can be fetched, and they need no refreshing.
pub open spec fn twitter_account_kind(a: AccountMetadata) -> bool {
    &&& object_fields_are(
        a.credential_scheme,
        seq![("ct0"@, FieldKind::String), ("auth_token"@, FieldKind::String)],
    )
    &&& a.can_fetch_info
    &&& !a.need_refresh
}

/// The kinds of Twitter feeds and their parameters (see `twitter_feed_kinds`).
pub fn twitter_feed_metadata() -> (r: Vec<FeedMetadata>)
    ensures
        twitter_feed_kinds(r@),
{
    let mut r: Vec<FeedMetadata> = Vec::new();
    r.push(feed_metadata("timeline", Scheme::Null, true));
    r.push(feed_metadata("bookmarks", Scheme::Null, true));
    let user_id = vec!["user_id"];
    let bigint = vec![FieldKind::Bigint];
    assert(Seq::new(1, |k: int| (user_id@[k]@, bigint@[k])) =~= seq![("user_id"@, FieldKind::Bigint)]);
    r.push(feed_metadata("likes", object_scheme(&user_id, &bigint), true));
    r.push(feed_metadata("posts", object_scheme(&user_id, &bigint), true));
    let list_id = vec!["list_id"];
    assert(Seq::new(1, |k: int| (list_id@[k]@, bigint@[k])) =~= seq![("list_id"@, FieldKind::Bigint)]);
    r.push(feed_metadata("list", object_scheme(&list_id, &bigint), true));
    let query = vec!["query"];
    let string = vec![FieldKind::String];
    assert(Seq::new(1, |k: int| (query@[k]@, string@[k])) =~= seq![("query"@, FieldKind::String)]);
    r.push(feed_metadata("search", object_scheme(&query, &string), true));
    r
}

/// Twitter accounts (see `twitter_account_kind`).
pub fn twitter_account_metadata() -> (r: AccountMetadata)
    ensures
        twitter_account_kind(r),
{
    let names = vec!["ct0", "auth_token"];
    let kinds = vec![FieldKind::String, FieldKind::String];
    assert(Seq::new(2, |k: int| (names@[k]@, kinds@[k])) =~= seq![
        ("ct0"@, FieldKind::String),
        ("auth_token"@, FieldKind::String),
    ]);
    AccountMetadata { credential_scheme: object_scheme(&names, &kinds), can_fetch_info: true, need_refresh: false }
}

/// The Twitter community: its name, feed kinds and accounts.
pub fn twitter_community_metadata() -> (r: CommunityMetadata)
    ensures
        r.name@ == "twitter"@,
        twitter_feed_kinds(r.feeds@),
        r.account matches Some(a) && twitter_account_kind(a),
{
    CommunityMetadata {
        name: text_of("twitter"),
        feeds: twitter_feed_metadata(),
        account: Some(twitter_account_metadata()),
    }
}

} // verus!
