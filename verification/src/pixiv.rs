//! Pixiv community: feed parameters as stored and shown, where a fetch continues
//! from, what saving a fetched page does, and the media records of an illustration.
use vstd::prelude::*;

use std::collections::HashSet;

use crate::decimal::{i32_to_decimal, i64_to_decimal, int_decimal};
use crate::error::{framed, Error};
use crate::feed::{
    feed_metadata, any_post_known, fresh_post_ids, fresh_posts, some_post_known, id_texts, ids_to_strings, join_comma, join_with_comma,
    object_fields_are, object_scheme, views, AccountMetadata, CommunityMetadata, FeedMetadata, FeedView, FieldKind,
    MediaView, SaveResult, Scheme,
};
use crate::library::clone_opt_string;
use crate::text::{push_char, text_eq, text_of};

verus! {

/// Whose works a timeline shows.
#[derive(Debug, Clone, Copy, PartialEq, Eq, Structural)]
pub enum FollowingRestriction {
    Public,
    Private,
    All,
}

/// Which bookmarks a bookmarks feed shows.
#[derive(Debug, Clone, Copy, PartialEq, Eq, Structural)]
pub enum Restriction {
    Public,
    Private,
}

/// The kind of works a posts feed shows.
#[derive(Debug, Clone, Copy, PartialEq, Eq, Structural)]
pub enum IllustType {
    Illust,
    Manga,
}

/// The name of a timeline restriction, as Pixiv writes it.
pub open spec fn following_restriction_name(r: FollowingRestriction) -> Seq<char> {
    match r {
        FollowingRestriction::Public => "public"@,
        FollowingRestriction::Private => "private"@,
        FollowingRestriction::All => "all"@,
    }
}

/// The name of a bookmark restriction, as Pixiv writes it.
pub open spec fn restriction_name(r: Restriction) -> Seq<char> {
    match r {
        Restriction::Public => "public"@,
        Restriction::Private => "private"@,
    }
}

/// The name of a kind of works, as Pixiv writes it.
pub open spec fn illust_type_name(t: IllustType) -> Seq<char> {
    match t {
        IllustType::Illust => "illust"@,
        IllustType::Manga => "manga"@,
    }
}

/// The name of a timeline restriction.
pub fn following_restriction_text(r: FollowingRestriction) -> (s: String)
    ensures
        s@ == following_restriction_name(r),
{
    match r {
        FollowingRestriction::Public => text_of("public"),
        FollowingRestriction::Private => text_of("private"),
        FollowingRestriction::All => text_of("all"),
    }
}

/// The name of a bookmark restriction.
pub fn restriction_text(r: Restriction) -> (s: String)
    ensures
        s@ == restriction_name(r),
{
    match r {
        Restriction::Public => text_of("public"),
        Restriction::Private => text_of("private"),
    }
}

/// The name of a kind of works.
pub fn illust_type_text(t: IllustType) -> (s: String)
    ensures
        s@ == illust_type_name(t),
{
    match t {
        IllustType::Illust => text_of("illust"),
        IllustType::Manga => text_of("manga"),
    }
}

/// The timeline restriction with the given name, if any.
pub fn parse_following_restriction(s: &str) -> (r: Option<FollowingRestriction>)
    ensures
        match r {
            Some(v) => following_restriction_name(v) == s@,
            None => forall|v: FollowingRestriction| following_restriction_name(v) != s@,
        },
{
    if text_eq(s, "public") {
        Some(FollowingRestriction::Public)
    } else if text_eq(s, "private") {
        Some(FollowingRestriction::Private)
    } else if text_eq(s, "all") {
        Some(FollowingRestriction::All)
    } else {
        None
    }
}

/// The bookmark restriction with the given name, if any.
pub fn parse_restriction(s: &str) -> (r: Option<Restriction>)
    ensures
        match r {
            Some(v) => restriction_name(v) == s@,
            None => forall|v: Restriction| restriction_name(v) != s@,
        },
{
    if text_eq(s, "public") {
        Some(Restriction::Public)
    } else if text_eq(s, "private") {
        Some(Restriction::Private)
    } else {
        None
    }
}

/// The kind of works with the given name, if any.
pub fn parse_illust_type(s: &str) -> (r: Option<IllustType>)
    ensures
        match r {
            Some(v) => illust_type_name(v) == s@,
            None => forall|v: IllustType| illust_type_name(v) != s@,
        },
{
    if text_eq(s, "illust") {
        Some(IllustType::Illust)
    } else if text_eq(s, "manga") {
        Some(IllustType::Manga)
    } else {
        None
    }
}

/// What a Pixiv feed follows.
#[derive(Debug)]
#[allow(inconsistent_fields)]
pub enum PixivFeedParams {
    Timeline { restriction: FollowingRestriction },
    Bookmarks { user_id: i64, tag: Option<String>, restriction: Restriction },
    Posts { user_id: i64, type_: IllustType },
    Search { query: String },
}

/// A Pixiv feed.
#[derive(Debug)]
pub struct PixivFeed {
    pub id: i32,
    pub name: Option<String>,
    pub watching: bool,
    pub first_fetch_limit: Option<i32>,
    pub account_id: i32,
    pub params: PixivFeedParams,
    pub reached_end: bool,
}

/// A Pixiv feed as stored: its kind by name, and the parameters of every kind, of
/// which the kind's own must be there.
#[derive(Debug)]
pub struct PixivWatchList {
    pub id: i32,
    pub name: Option<String>,
    pub watching: bool,
    pub first_fetch_limit: Option<i32>,
    pub account_id: i32,
    pub kind: String,
    pub restriction: Option<String>,
    pub user_id: Option<i64>,
    pub search_query: Option<String>,
    pub bookmark_tag: Option<String>,
    pub illust_type: Option<String>,
    pub reached_end: bool,
}

/// The name under which a kind of Pixiv feed is stored.
pub open spec fn pixiv_kind_name(p: PixivFeedParams) -> Seq<char> {
    match p {
        PixivFeedParams::Timeline { .. } => "timeline"@,
        PixivFeedParams::Bookmarks { .. } => "bookmarks"@,
        PixivFeedParams::Posts { .. } => "posts"@,
        PixivFeedParams::Search { .. } => "search"@,
    }
}

/// How a Pixiv feed is described to the client.
pub open spec fn pixiv_description(p: PixivFeedParams) -> Seq<char> {
    match p {
        PixivFeedParams::Timeline { restriction } => following_restriction_name(restriction) + " Timeline"@,
        PixivFeedParams::Bookmarks { user_id, tag, restriction } => match tag {
            Some(t) => restriction_name(restriction) + " Bookmarks tagged #"@ + t@ + " by "@ + int_decimal(
                user_id as int,
            ),
            None => restriction_name(restriction) + " Bookmarks by "@ + int_decimal(user_id as int),
        },
        PixivFeedParams::Posts { user_id, type_ } => illust_type_name(type_) + " by "@ + int_decimal(
            user_id as int,
        ),
        PixivFeedParams::Search { query } => "Search "@ + query@,
    }
}

impl PixivFeedParams {
    /// The name under which the feed's kind is stored.
    pub fn kind_str(&self) -> (r: String)
        ensures
            r@ == pixiv_kind_name(*self),
    {
        match self {
            PixivFeedParams::Timeline { .. } => text_of("timeline"),
            PixivFeedParams::Bookmarks { .. } => text_of("bookmarks"),
            PixivFeedParams::Posts { .. } => text_of("posts"),
            PixivFeedParams::Search { .. } => text_of("search"),
        }
    }

    /// Whether the feed follows private bookmarks.
    pub fn is_private_bookmark(&self) -> (r: bool)
        ensures
            r == (*self matches PixivFeedParams::Bookmarks { restriction: Restriction::Private, .. }),
    {
        match self {
            PixivFeedParams::Bookmarks { restriction: Restriction::Private, .. } => true,
            _ => false,
        }
    }

    /// The user whose bookmarks or posts are followed.
    pub fn user_id(&self) -> (r: Option<i64>)
        ensures
            r == match *self {
                PixivFeedParams::Bookmarks { user_id, .. } => Some(user_id),
                PixivFeedParams::Posts { user_id, .. } => Some(user_id),
                _ => None,
            },
    {
        match self {
            PixivFeedParams::Bookmarks { user_id, .. } => Some(*user_id),
            PixivFeedParams::Posts { user_id, .. } => Some(*user_id),
            _ => None,
        }
    }

    /// The name of the feed's restriction, for a timeline or bookmarks feed.
    pub fn restriction(&self) -> (r: Option<String>)
        ensures
            match *self {
                PixivFeedParams::Timeline { restriction } => r matches Some(s) && s@
                    == following_restriction_name(restriction),
                PixivFeedParams::Bookmarks { restriction, .. } => r matches Some(s) && s@ == restriction_name(
                    restriction,
                ),
                _ => r is None,
            },
    {
        match self {
            PixivFeedParams::Timeline { restriction } => Some(following_restriction_text(*restriction)),
            PixivFeedParams::Bookmarks { restriction, .. } => Some(restriction_text(*restriction)),
            _ => None,
        }
    }

    /// The tag of the bookmarks followed, if any.
    pub fn bookmark_tag(&self) -> (r: Option<String>)
        ensures
            r == match *self {
                PixivFeedParams::Bookmarks { tag, .. } => tag,
                _ => None,
            },
    {
        match self {
            PixivFeedParams::Bookmarks { tag, .. } => clone_opt_string(tag),
            _ => None,
        }
    }

    /// The name of the kind of works followed, for a posts feed.
    pub fn illust_type(&self) -> (r: Option<String>)
        ensures
            match *self {
                PixivFeedParams::Posts { type_, .. } => r matches Some(s) && s@ == illust_type_name(type_),
                _ => r is None,
            },
    {
        match self {
            PixivFeedParams::Posts { type_, .. } => Some(illust_type_text(*type_)),
            _ => None,
        }
    }

    /// The query searched, for a search feed.
    pub fn search_query(&self) -> (r: Option<String>)
        ensures
            r == match *self {
                PixivFeedParams::Search { query } => Some(query),
                _ => None,
            },
    {
        match self {
            PixivFeedParams::Search { query } => Some(query.clone()),
            _ => None,
        }
    }
}

/// Whether `f` carries the stored feed's own fields.
pub open spec fn pixiv_feed_fields(w: PixivWatchList, f: PixivFeed) -> bool {
    &&& f.id == w.id
    &&& f.name == w.name
    &&& f.watching == w.watching
    &&& f.first_fetch_limit == w.first_fetch_limit
    &&& f.account_id == w.account_id
    &&& f.reached_end == w.reached_end
}

/// The error for a stored name that names no value: `Other`, with the name.
pub open spec fn unparsed(r: Result<PixivFeed, Error>, name: Seq<char>) -> bool {
    r matches Err(Error::Other(m)) && m@ == name
}

/// Whether `r` is the feed read back from the stored `w`: the feed with the
/// parameters of its kind; an `ObjectNotComplete` error when a parameter the kind
/// needs is missing, an `Other` error with the stored name when a restriction or kind
/// of works names none, and an `UnknownField` error for a kind that is none of Pixiv's.
pub open spec fn pixiv_feed_read(w: PixivWatchList, r: Result<PixivFeed, Error>) -> bool {
    if w.kind@ == "timeline"@ {
        match w.restriction {
            None => r matches Err(Error::ObjectNotComplete(m)) && m@
                == "pixiv restriction cannot be null for timeline feed"@,
            Some(s) => if exists|v: FollowingRestriction| following_restriction_name(v) == s@ {
                r matches Ok(f) && {
                    &&& pixiv_feed_fields(w, f)
                    &&& f.params matches PixivFeedParams::Timeline { restriction }
                        && following_restriction_name(restriction) == s@
                }
            } else {
                unparsed(r, s@)
            },
        }
    } else if w.kind@ == "bookmarks"@ {
        match (w.user_id, w.restriction) {
            (None, _) => r matches Err(Error::ObjectNotComplete(m)) && m@
                == "pixiv user id cannot be null for bookmarks feed"@,
            (Some(_), None) => r matches Err(Error::ObjectNotComplete(m)) && m@
                == "pixiv restriction cannot be null for bookmarks feed"@,
            (Some(u), Some(s)) => if exists|v: Restriction| restriction_name(v) == s@ {
                r matches Ok(f) && {
                    &&& pixiv_feed_fields(w, f)
                    &&& f.params matches PixivFeedParams::Bookmarks { user_id, tag, restriction } && user_id
                        == u && tag == w.bookmark_tag && restriction_name(restriction) == s@
                }
            } else {
                unparsed(r, s@)
            },
        }
    } else if w.kind@ == "posts"@ {
        match (w.user_id, w.illust_type) {
            (None, _) => r matches Err(Error::ObjectNotComplete(m)) && m@
                == "pixiv user id cannot be null for posts feed"@,
            (Some(_), None) => r matches Err(Error::ObjectNotComplete(m)) && m@
                == "pixiv restriction cannot be null for posts feed"@,
            (Some(u), Some(s)) => if exists|v: IllustType| illust_type_name(v) == s@ {
                r matches Ok(f) && {
                    &&& pixiv_feed_fields(w, f)
                    &&& f.params matches PixivFeedParams::Posts { user_id, type_ } && user_id == u
                        && illust_type_name(type_) == s@
                }
            } else {
                unparsed(r, s@)
            },
        }
    } else if w.kind@ == "search"@ {
        match w.search_query {
            Some(q) => r matches Ok(f) && pixiv_feed_fields(w, f) && f.params == PixivFeedParams::Search {
                query: q,
            },
            None => r matches Err(Error::ObjectNotComplete(m)) && m@
                == "pixiv search query cannot be null for search feed"@,
        }
    } else {
        r matches Err(Error::UnknownField(m)) && m@ == "pixiv watch list kind "@ + w.kind@
    }
}

/// Different restrictions and kinds of works have different names.
pub proof fn lemma_names_tell_values_apart()
    ensures
        forall|a: FollowingRestriction, b: FollowingRestriction|
            following_restriction_name(a) == following_restriction_name(b) ==> a == b,
        forall|a: Restriction, b: Restriction| restriction_name(a) == restriction_name(b) ==> a == b,
        forall|a: IllustType, b: IllustType| illust_type_name(a) == illust_type_name(b) ==> a == b,
{
    reveal_strlit("public");
    reveal_strlit("private");
    reveal_strlit("all");
    reveal_strlit("illust");
    reveal_strlit("manga");
    assert("public"@ != "private"@) by {
        assert("public"@.len() != "private"@.len());
    }
    assert("public"@ != "all"@) by {
        assert("public"@.len() != "all"@.len());
    }
    assert("private"@ != "all"@) by {
        assert("private"@.len() != "all"@.len());
    }
    assert("illust"@ != "manga"@) by {
        assert("illust"@.len() != "manga"@.len());
    }
}

/// A Pixiv feed stored under its kind's name, with the parameters of its kind (as
/// `kind_str`, `restriction`, `user_id`, `bookmark_tag`, `illust_type` and
/// `search_query` give them), is read back with the same parameters and fields.
pub proof fn law_stored_pixiv_feed_reads_back(w: PixivWatchList, p: PixivFeedParams, r: Result<PixivFeed, Error>)
    requires
        w.kind@ == pixiv_kind_name(p),
        match p {
            PixivFeedParams::Timeline { restriction } => w.restriction matches Some(s) && s@
                == following_restriction_name(restriction),
            PixivFeedParams::Bookmarks { user_id, tag, restriction } => w.restriction matches Some(s) && s@
                == restriction_name(restriction) && w.user_id == Some(user_id) && w.bookmark_tag == tag,
            PixivFeedParams::Posts { user_id, type_ } => w.illust_type matches Some(s) && s@ == illust_type_name(
                type_,
            ) && w.user_id == Some(user_id),
            PixivFeedParams::Search { query } => w.search_query == Some(query),
        },
        pixiv_feed_read(w, r),
    ensures
        r matches Ok(f) && pixiv_feed_fields(w, f) && f.params == p,
{
    lemma_names_tell_values_apart();
    reveal_strlit("timeline");
    reveal_strlit("bookmarks");
    reveal_strlit("posts");
    reveal_strlit("search");
    assert("timeline"@ != "bookmarks"@ && "timeline"@ != "posts"@ && "timeline"@ != "search"@) by {
        assert("timeline"@[0] != "bookmarks"@[0]);
        assert("timeline"@[0] != "posts"@[0]);
        assert("timeline"@[0] != "search"@[0]);
    }
    assert("bookmarks"@ != "posts"@ && "bookmarks"@ != "search"@) by {
        assert("bookmarks"@[0] != "posts"@[0]);
        assert("bookmarks"@[0] != "search"@[0]);
    }
    assert("posts"@ != "search"@) by {
        assert("posts"@[0] != "search"@[0]);
    }
    match p {
        PixivFeedParams::Timeline { restriction } => {
            assert(following_restriction_name(restriction) == w.restriction->0@);
        },
        PixivFeedParams::Bookmarks { restriction, .. } => {
            assert(restriction_name(restriction) == w.restriction->0@);
        },
        PixivFeedParams::Posts { type_, .. } => {
            assert(illust_type_name(type_) == w.illust_type->0@);
        },
        PixivFeedParams::Search { .. } => {},
    }
}

fn incomplete(m: &str) -> (r: Error)
    ensures
        r matches Error::ObjectNotComplete(t) && t@ == m@,
{
    Error::ObjectNotComplete(text_of(m))
}

fn other(m: &str) -> (r: Error)
    ensures
        r matches Error::Other(t) && t@ == m@,
{
    Error::Other(text_of(m))
}

impl PixivFeed {
    /// The feed read back from how it is stored (see `pixiv_feed_read`).
    pub fn from_watch_list(w: PixivWatchList) -> (r: Result<PixivFeed, Error>)
        ensures
            pixiv_feed_read(w, r),
    {
        let params = if text_eq(w.kind.as_str(), "timeline") {
            let s = match &w.restriction {
                Some(s) => s,
                None => return Err(incomplete("pixiv restriction cannot be null for timeline feed")),
            };
            match parse_following_restriction(s.as_str()) {
                Some(v) => PixivFeedParams::Timeline { restriction: v },
                None => return Err(other(s.as_str())),
            }
        } else if text_eq(w.kind.as_str(), "bookmarks") {
            let u = match w.user_id {
                Some(u) => u,
                None => return Err(incomplete("pixiv user id cannot be null for bookmarks feed")),
            };
            let s = match &w.restriction {
                Some(s) => s,
                None => return Err(incomplete("pixiv restriction cannot be null for bookmarks feed")),
            };
            match parse_restriction(s.as_str()) {
                Some(v) => PixivFeedParams::Bookmarks {
                    user_id: u,
                    tag: clone_opt_string(&w.bookmark_tag),
                    restriction: v,
                },
                None => return Err(other(s.as_str())),
            }
        } else if text_eq(w.kind.as_str(), "posts") {
            let u = match w.user_id {
                Some(u) => u,
                None => return Err(incomplete("pixiv user id cannot be null for posts feed")),
            };
            let s = match &w.illust_type {
                Some(s) => s,
                None => return Err(incomplete("pixiv restriction cannot be null for posts feed")),
            };
            match parse_illust_type(s.as_str()) {
                Some(v) => PixivFeedParams::Posts { user_id: u, type_: v },
                None => return Err(other(s.as_str())),
            }
        } else if text_eq(w.kind.as_str(), "search") {
            match &w.search_query {
                Some(q) => PixivFeedParams::Search { query: q.clone() },
                None => return Err(incomplete("pixiv search query cannot be null for search feed")),
            }
        } else {
            proof {
                reveal_strlit("");
            }
            return Err(Error::UnknownField(framed("pixiv watch list kind ", w.kind.as_str(), "")));
        };
        Ok(
            PixivFeed {
                id: w.id,
                name: w.name,
                watching: w.watching,
                first_fetch_limit: w.first_fetch_limit,
                account_id: w.account_id,
                params,
                reached_end: w.reached_end,
            },
        )
    }

    /// The feed as the client sees it, described by what it follows.
    pub fn view(&self) -> (r: FeedView)
        ensures
            r.feed_id == self.id,
            r.community@ == "pixiv"@,
            r.name == self.name,
            r.watching == self.watching,
            r.description@ == pixiv_description(self.params),
    {
        proof {
            reveal_strlit("");
        }
        let description = match &self.params {
            PixivFeedParams::Timeline { restriction } => {
                let r = following_restriction_text(*restriction);
                framed("", r.as_str(), " Timeline")
            },
            PixivFeedParams::Bookmarks { user_id, tag, restriction } => {
                let r = restriction_text(*restriction);
                let d = i64_to_decimal(*user_id);
                match tag {
                    Some(t) => {
                        let mut s = framed("", r.as_str(), " Bookmarks tagged #");
                        s.append(t.as_str());
                        s.append(" by ");
                        s.append(d.as_str());
                        s
                    },
                    None => {
                        let mut s = framed("", r.as_str(), " Bookmarks by ");
                        s.append(d.as_str());
                        s
                    },
                }
            },
            PixivFeedParams::Posts { user_id, type_ } => {
                let t = illust_type_text(*type_);
                let d = i64_to_decimal(*user_id);
                let mut s = framed("", t.as_str(), " by ");
                s.append(d.as_str());
                s
            },
            PixivFeedParams::Search { query } => framed("Search ", query.as_str(), ""),
        };
        assert(description@ =~= pixiv_description(self.params));
        FeedView {
            feed_id: self.id,
            community: text_of("pixiv"),
            name: clone_opt_string(&self.name),
            description,
            watching: self.watching,
        }
    }
}

// MARK: Fetching

/// Where a fetch of a Pixiv feed stands: the offset to continue from, and how many
/// works have been fetched so far.
#[derive(Debug)]
pub struct PixivFetchContext {
    pub offset: Option<i64>,
    pub total_fetched: usize,
}

/// Where a fetch starts: a bookmarks feed goes on from the last bookmark recorded,
/// another feed from the top.
pub fn initial_fetch_context(params: &PixivFeedParams, last_bookmark_id: Option<i64>) -> (r: PixivFetchContext)
    ensures
        r.offset == if params is Bookmarks {
            last_bookmark_id
        } else {
            None
        },
        r.total_fetched == 0,
{
    let offset = match params {
        PixivFeedParams::Bookmarks { .. } => last_bookmark_id,
        _ => None,
    };
    PixivFetchContext { offset, total_fetched: 0 }
}

/// Where a fetch goes on from after a page: a bookmarks feed from the page's next
/// bookmark ID, another feed from its next offset; the page's works are counted.
///
/// Search feeds cannot be fetched.
pub fn advance_fetch_context(
    ctx: &mut PixivFetchContext,
    params: &PixivFeedParams,
    next_offset: Option<u64>,
    next_bookmark_id: Option<u64>,
    fetched_count: usize,
)
    requires
        !(params is Search),
        old(ctx).total_fetched + fetched_count <= usize::MAX,
    ensures
        final(ctx).offset == match (if params is Bookmarks {
            next_bookmark_id
        } else {
            next_offset
        }) {
            Some(o) => Some(o as i64),
            None => None::<i64>,
        },
        final(ctx).total_fetched == old(ctx).total_fetched + fetched_count,
{
    let next = match params {
        PixivFeedParams::Bookmarks { .. } => next_bookmark_id,
        _ => next_offset,
    };
    ctx.offset = match next {
        Some(o) => Some(#[verifier::truncate] (o as i64)),
        None => None,
    };
    ctx.total_fetched = ctx.total_fetched + fetched_count;
}

// MARK: Saving fetched works

/// A work's entry in a Pixiv feed.
#[derive(Debug, PartialEq, Eq)]
pub struct PixivWatchListIllust {
    pub watch_list_id: i32,
    pub illust_id: i64,
    pub private_bookmark: bool,
    pub stale: bool,
    pub sort_index: Option<i32>,
}

/// The entry a newly saved work gets in feed `watch_list_id`: not stale, and with no
/// sort index until the update that saved it is done.
pub open spec fn new_illust_entry(watch_list_id: i32, illust_id: i64, private_bookmark: bool) -> PixivWatchListIllust {
    PixivWatchListIllust { watch_list_id, illust_id, private_bookmark, stale: false, sort_index: None }
}

/// The entries newly saved works get in feed `watch_list_id`, in the works' order.
pub fn new_illust_entries(watch_list_id: i32, ids: &Vec<i64>, private_bookmark: bool) -> (r: Vec<PixivWatchListIllust>)
    ensures
        r@ == ids@.map_values(|id: i64| new_illust_entry(watch_list_id, id, private_bookmark)),
{
    let mut out: Vec<PixivWatchListIllust> = Vec::new();
    let mut j: usize = 0;
    while j < ids.len()
        invariant
            j <= ids@.len(),
            out@ == ids@.take(j as int).map_values(|id: i64| new_illust_entry(watch_list_id, id, private_bookmark)),
        decreases ids@.len() - j,
    {
        out.push(PixivWatchListIllust {
            watch_list_id,
            illust_id: ids[j],
            private_bookmark,
            stale: false,
            sort_index: None,
        });
        assert(out@ =~= ids@.take(j + 1).map_values(|id: i64| new_illust_entry(watch_list_id, id, private_bookmark)));
        j += 1;
    }
    assert(ids@.take(ids@.len() as int) =~= ids@);
    out
}

/// The record of one saved batch in a Pixiv feed's history.
#[derive(Debug)]
pub struct PixivHistoryEntry {
    pub watch_list_id: i32,
    /// The new work IDs, joined with `, `.
    pub ids: String,
    pub count: i32,
    pub next_bookmark_id: Option<i64>,
}

/// What saving a fetched page of a Pixiv feed does.
#[derive(Debug)]
pub struct PixivSavePlan {
    /// Whether the feed is to be marked as having reached its end because the page
    /// was the last one.
    pub mark_reached_end: bool,
    /// The works new to the feed, in fetched order; these are inserted.
    pub new_ids: Vec<i64>,
    /// The feed's entries for the new works.
    pub entries: Vec<PixivWatchListIllust>,
    /// The history entry to record, when there are new works.
    pub history: Option<PixivHistoryEntry>,
    /// Whether the feed is to be marked as having reached its end because its first
    /// fetch reached its limit.
    pub mark_limit_reached: bool,
    pub result: SaveResult,
}

/// Whether a first fetch has reached its limit: the feed has a limit, has not
/// reached its end before, and has fetched at least that many works.
pub open spec fn first_fetch_limit_hit(first_fetch_limit: Option<i32>, feed_reached_end: bool, total_fetched: usize) -> bool {
    first_fetch_limit matches Some(l) && !feed_reached_end && (total_fetched as i32) >= l
}

/// Only a feed still on its first fetch, with a limit, hits that limit, and it does so
/// once it has fetched at least that many works.
pub proof fn law_first_fetch_limit(first_fetch_limit: Option<i32>, feed_reached_end: bool, total_fetched: usize)
    ensures
        first_fetch_limit is None ==> !first_fetch_limit_hit(first_fetch_limit, feed_reached_end, total_fetched),
        feed_reached_end ==> !first_fetch_limit_hit(first_fetch_limit, feed_reached_end, total_fetched),
        first_fetch_limit is Some && !feed_reached_end && total_fetched <= i32::MAX ==> (first_fetch_limit_hit(
            first_fetch_limit,
            feed_reached_end,
            total_fetched,
        ) <==> total_fetched >= first_fetch_limit->0),
{
}

/// Decides how a fetched page of a Pixiv feed is saved.
///
/// A page with no next page marks the feed as having reached its end. An empty page,
/// or one with no work new to the feed, saves nothing and stops the update. Otherwise
/// the new works are saved, each with an entry in the feed (private when the feed
/// follows private bookmarks), and with a history entry. If the feed's first fetch then
/// reached its limit, the feed is marked as having reached its end and the update
/// stops; else the update stops when the page held works already in the feed. The
/// result reports the feed's end whenever the feed is marked so.
///
/// `existing` holds works that the feed already has (those among the fetched ones are
/// what counts).
pub fn pixiv_save_plan(
    watch_list_id: i32,
    fetched: &Vec<i64>,
    existing: &HashSet<i64>,
    has_next_page: bool,
    next_bookmark_id: Option<i64>,
    params: &PixivFeedParams,
    first_fetch_limit: Option<i32>,
    feed_reached_end: bool,
    total_fetched: usize,
) -> (r: PixivSavePlan)
    ensures
        ({
            let fresh = fresh_posts(fetched@, existing@);
            let limit_hit = first_fetch_limit_hit(first_fetch_limit, feed_reached_end, total_fetched);
            &&& r.mark_reached_end == !has_next_page
            &&& forall|k: int|
                0 <= k < fetched@.len() && existing@.contains(#[trigger] fetched@[k]) ==> r.result.should_stop
            &&& fetched@.len() == 0 ==> {
                &&& r.new_ids@.len() == 0
                &&& r.entries@.len() == 0
                &&& r.history is None
                &&& !r.mark_limit_reached
                &&& r.result.post_ids@.len() == 0
                &&& r.result.should_stop
                &&& r.result.reached_end == !has_next_page
            }
            &&& fetched@.len() > 0 && fresh.len() == 0 ==> {
                &&& r.new_ids@.len() == 0
                &&& r.entries@.len() == 0
                &&& r.history is None
                &&& !r.mark_limit_reached
                &&& r.result.post_ids@.len() == 0
                &&& r.result.should_stop
                &&& r.result.reached_end == !has_next_page
            }
            &&& fresh.len() > 0 ==> {
                &&& r.new_ids@ == fresh
                &&& r.entries@ == fresh.map_values(
                    |id: i64|
                        new_illust_entry(
                            watch_list_id,
                            id,
                            *params matches PixivFeedParams::Bookmarks { restriction: Restriction::Private, .. },
                        ),
                )
                &&& views(r.result.post_ids@) == id_texts(fresh)
                &&& r.history matches Some(h) && {
                    &&& h.watch_list_id == watch_list_id
                    &&& h.ids@ == join_comma(id_texts(fresh))
                    &&& fresh.len() <= i32::MAX ==> h.count == fresh.len()
                    &&& h.next_bookmark_id == next_bookmark_id
                }
                &&& r.mark_limit_reached == limit_hit
                &&& r.result.should_stop == (limit_hit || some_post_known(fetched@, existing@))
                &&& r.result.reached_end == (limit_hit || !has_next_page)
            }
        }),
{
    let reached_end = !has_next_page;
    if fetched.len() == 0 {
        return PixivSavePlan {
            mark_reached_end: reached_end,
            new_ids: Vec::new(),
            entries: Vec::new(),
            history: None,
            mark_limit_reached: false,
            result: SaveResult { post_ids: Vec::new(), should_stop: true, reached_end },
        };
    }
    let fresh = fresh_post_ids(fetched, existing);
    if fresh.len() == 0 {
        return PixivSavePlan {
            mark_reached_end: reached_end,
            new_ids: Vec::new(),
            entries: Vec::new(),
            history: None,
            mark_limit_reached: false,
            result: SaveResult { post_ids: Vec::new(), should_stop: true, reached_end },
        };
    }
    let ids = ids_to_strings(&fresh);
    let entries = new_illust_entries(watch_list_id, &fresh, params.is_private_bookmark());
    let history = PixivHistoryEntry {
        watch_list_id,
        ids: join_with_comma(&ids),
        count: #[verifier::truncate] (fresh.len() as i32),
        next_bookmark_id,
    };
    let limit_hit = match first_fetch_limit {
        Some(limit) => !feed_reached_end && (#[verifier::truncate] (total_fetched as i32)) >= limit,
        None => false,
    };
    let has_existing = any_post_known(fetched, existing);
    PixivSavePlan {
        mark_reached_end: reached_end,
        new_ids: fresh,
        entries,
        history: Some(history),
        mark_limit_reached: limit_hit,
        result: SaveResult {
            post_ids: ids,
            should_stop: limit_hit || has_existing,
            reached_end: limit_hit || reached_end,
        },
    }
}

// MARK: Media

/// The URLs of one page of an illustration at each size; the original may be missing.
#[derive(Debug)]
pub struct PixivImageUrls {
    pub square_medium: String,
    pub medium: String,
    pub large: String,
    pub original: Option<String>,
}

/// What the media records of an illustration are made from: its ID, page count and
/// size, the URLs of a single-page illustration, and the URLs of each page of a
/// multi-page one.
#[derive(Debug)]
pub struct PixivIllustPages {
    pub id: i64,
    pub page_count: u64,
    pub width: i32,
    pub height: i32,
    pub single_page: PixivImageUrls,
    pub pages: Vec<PixivImageUrls>,
}

/// A stored page of a Pixiv illustration.
#[derive(Debug)]
pub struct PixivMedia {
    pub illust_id: i64,
    pub page: i32,
    pub square_medium_url: String,
    pub medium_url: String,
    pub large_url: String,
    pub original_url: String,
    pub width: i32,
    pub height: i32,
}

/// Whether `m` is the record of page `page` of illustration `illust`, with the URLs
/// `urls` (a missing original URL is empty).
pub open spec fn media_record(m: PixivMedia, illust: PixivIllustPages, page: i32, urls: PixivImageUrls) -> bool {
    &&& m.illust_id == illust.id
    &&& m.page == page
    &&& m.square_medium_url == urls.square_medium
    &&& m.medium_url == urls.medium
    &&& m.large_url == urls.large
    &&& m.original_url@ == match urls.original {
        Some(o) => o@,
        None => Seq::<char>::empty(),
    }
    &&& m.width == illust.width
    &&& m.height == illust.height
}

fn media_of(illust: &PixivIllustPages, page: i32, urls: &PixivImageUrls) -> (m: PixivMedia)
    ensures
        media_record(m, *illust, page, *urls),
{
    PixivMedia {
        illust_id: illust.id,
        page,
        square_medium_url: urls.square_medium.clone(),
        medium_url: urls.medium.clone(),
        large_url: urls.large.clone(),
        original_url: match &urls.original {
            Some(o) => o.clone(),
            None => String::new(),
        },
        width: illust.width,
        height: illust.height,
    }
}

/// The media records of an illustration: one record of page 0 for a single-page
/// illustration, else one per page, in order.
pub fn pixiv_media(illust: &PixivIllustPages) -> (r: Vec<PixivMedia>)
    ensures
        illust.page_count == 1 ==> r@.len() == 1 && media_record(r@[0], *illust, 0, illust.single_page),
        illust.page_count != 1 ==> r@.len() == illust.pages@.len() && forall|k: int|
            0 <= k < r@.len() ==> media_record(#[trigger] r@[k], *illust, k as i32, illust.pages@[k]),
{
    let mut out: Vec<PixivMedia> = Vec::new();
    if illust.page_count == 1 {
        out.push(media_of(illust, 0, &illust.single_page));
        return out;
    }
    let mut k: usize = 0;
    while k < illust.pages.len()
        invariant
            k <= illust.pages@.len(),
            out@.len() == k,
            forall|j: int| 0 <= j < k ==> media_record(#[trigger] out@[j], *illust, j as i32, illust.pages@[j]),
        decreases illust.pages@.len() - k,
    {
        let m = media_of(illust, #[verifier::truncate] (k as i32), &illust.pages[k]);
        out.push(m);
        k += 1;
    }
    out
}

/// A stored page of an illustration as the client sees it: its ID
/// `<illustration>_<page>`, the illustration as the post, its original URL and size,
/// and its medium-size URL as the thumbnail.
pub fn pixiv_media_view(m: PixivMedia) -> (r: MediaView)
    ensures
        r.media_id@ == int_decimal(m.illust_id as int) + seq!['_'] + int_decimal(m.page as int),
        r.community@ == "pixiv"@,
        r.post_id@ == int_decimal(m.illust_id as int),
        r.page_index == m.page,
        r.url == Some(m.original_url),
        r.width == Some(m.width),
        r.height == Some(m.height),
        r.thumbnail_url == Some(m.medium_url),
        r.extra is None,
{
    let mut media_id = i64_to_decimal(m.illust_id);
    push_char(&mut media_id, '_');
    let page = i32_to_decimal(m.page);
    media_id.append(page.as_str());
    MediaView {
        media_id,
        community: text_of("pixiv"),
        post_id: i64_to_decimal(m.illust_id),
        page_index: m.page,
        url: Some(m.original_url),
        width: Some(m.width),
        height: Some(m.height),
        thumbnail_url: Some(m.medium_url),
        extra: None,
    }
}

// MARK: Metadata

/// Whether `r` describes the kinds of Pixiv feeds and their parameters: a timeline
/// takes its restriction; bookmarks a user ID, an optional tag and a restriction;
/// posts a user ID and a kind of works; a search its query. All need an account.
pub open spec fn pixiv_feed_kinds(r: Seq<FeedMetadata>) -> bool {
    &&& r.len() == 4
    &&& forall|k: int| 0 <= k < 4 ==> (#[trigger] r[k]).need_auth
    &&& r[0].name@ == "timeline"@ && object_fields_are(r[0].scheme, seq![("restriction"@, FieldKind::String)])
    &&& r[1].name@ == "bookmarks"@ && object_fields_are(
        r[1].scheme,
        seq![
            ("user_id"@, FieldKind::Bigint),
            ("tag"@, FieldKind::OptionalString),
            ("restriction"@, FieldKind::String),
        ],
    )
    &&& r[2].name@ == "posts"@ && object_fields_are(
        r[2].scheme,
        seq![("user_id"@, FieldKind::Bigint), ("type"@, FieldKind::String)],
    )
    &&& r[3].name@ == "search"@ && object_fields_are(r[3].scheme, seq![("query"@, FieldKind::String)])
}

/// Whether `a` describes Pixiv accounts: their credential is a refresh token; their
/// details can be fetched, and their access expires and must be refreshed.
pub open spec fn pixiv_account_kind(a: AccountMetadata) -> bool {
    &&& a.credential_scheme is String
    &&& a.can_fetch_info
    &&& a.need_refresh
}

/// The kinds of Pixiv feeds and their parameters (see `pixiv_feed_kinds`).
pub fn pixiv_feed_metadata() -> (r: Vec<FeedMetadata>)
    ensures
        pixiv_feed_kinds(r@),
{
    let mut r: Vec<FeedMetadata> = Vec::new();
    let names = vec!["restriction"];
    let kinds = vec![FieldKind::String];
    assert(Seq::new(1, |k: int| (names@[k]@, kinds@[k])) =~= seq![("restriction"@, FieldKind::String)]);
    r.push(feed_metadata("timeline", object_scheme(&names, &kinds), true));
    let names = vec!["user_id", "tag", "restriction"];
    let kinds = vec![FieldKind::Bigint, FieldKind::OptionalString, FieldKind::String];
    assert(Seq::new(3, |k: int| (names@[k]@, kinds@[k])) =~= seq![
        ("user_id"@, FieldKind::Bigint),
        ("tag"@, FieldKind::OptionalString),
        ("restriction"@, FieldKind::String),
    ]);
    r.push(feed_metadata("bookmarks", object_scheme(&names, &kinds), true));
    let names = vec!["user_id", "type"];
    let kinds = vec![FieldKind::Bigint, FieldKind::String];
    assert(Seq::new(2, |k: int| (names@[k]@, kinds@[k])) =~= seq![
        ("user_id"@, FieldKind::Bigint),
        ("type"@, FieldKind::String),
    ]);
    r.push(feed_metadata("posts", object_scheme(&names, &kinds), true));
    let names = vec!["query"];
    let kinds = vec![FieldKind::String];
    assert(Seq::new(1, |k: int| (names@[k]@, kinds@[k])) =~= seq![("query"@, FieldKind::String)]);
    r.push(feed_metadata("search", object_scheme(&names, &kinds), true));
    r
}

/// Pixiv accounts (see `pixiv_account_kind`).
pub fn pixiv_account_metadata() -> (r: AccountMetadata)
    ensures
        pixiv_account_kind(r),
{
    AccountMetadata { credential_scheme: Scheme::String, can_fetch_info: true, need_refresh: true }
}

/// The Pixiv community: its name, feed kinds and accounts.
pub fn pixiv_community_metadata() -> (r: CommunityMetadata)
    ensures
        r.name@ == "pixiv"@,
        pixiv_feed_kinds(r.feeds@),
        r.account matches Some(a) && pixiv_account_kind(a),
{
    CommunityMetadata { name: text_of("pixiv"), feeds: pixiv_feed_metadata(), account: Some(pixiv_account_metadata()) }
}

} // verus!
