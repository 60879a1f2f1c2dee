//! What every community shares: metadata about communities, accounts and feeds, the
//! views sent to the client, the result of saving fetched posts, and the order that
//! new posts get in a feed.
use vstd::prelude::*;

use std::collections::{HashMap, HashSet};

use crate::decimal::{i64_to_decimal, int_decimal, int_parse_error_text, parse_i64_reporting, parse_i64_spec};
use crate::error::Error;
use crate::text::push_char;

verus! {

// MARK: Schemes and metadata

/// The shape of an object the client fills in: a feed's parameters or an account's
/// credential. The fields of an object come in the order given.
#[derive(Debug)]
pub enum Scheme {
    Null,
    Bool,
    Int,
    Bigint,
    Double,
    String,
    Optional(Box<Scheme>),
    Array(Box<Scheme>),
    Object(Vec<(String, Scheme)>),
}

/// Metadata of a feed kind.
#[derive(Debug)]
pub struct FeedMetadata {
    pub name: String,
    pub scheme: Scheme,
    /// Whether fetching the feed needs an account.
    pub need_auth: bool,
}

/// Metadata of the accounts a community uses.
#[derive(Debug)]
pub struct AccountMetadata {
    pub credential_scheme: Scheme,
    /// Whether account details can be fetched from the community.
    pub can_fetch_info: bool,
    /// Whether accounts expire and must log in again.
    pub need_refresh: bool,
}

/// Metadata of a community; `account` is none when it needs no account.
#[derive(Debug)]
pub struct CommunityMetadata {
    pub name: String,
    pub feeds: Vec<FeedMetadata>,
    pub account: Option<AccountMetadata>,
}

/// The kinds of fields the feed and account schemes use.
#[derive(Debug, Clone, Copy, PartialEq, Eq, Structural)]
pub enum FieldKind {
    Bool,
    Int,
    Bigint,
    String,
    OptionalInt,
    OptionalString,
    StringArray,
}

/// Whether a scheme is the one of a field kind.
pub open spec fn has_kind(s: Scheme, kind: FieldKind) -> bool {
    match kind {
        FieldKind::Bool => s is Bool,
        FieldKind::Int => s is Int,
        FieldKind::Bigint => s is Bigint,
        FieldKind::String => s is String,
        FieldKind::OptionalInt => s matches Scheme::Optional(b) && *b is Int,
        FieldKind::OptionalString => s matches Scheme::Optional(b) && *b is String,
        FieldKind::StringArray => s matches Scheme::Array(b) && *b is String,
    }
}

/// Whether a scheme is an object with the given fields, by name and kind, in order.
pub open spec fn object_fields_are(s: Scheme, expected: Seq<(Seq<char>, FieldKind)>) -> bool {
    s matches Scheme::Object(fields) && fields@.len() == expected.len() && forall|k: int|
        0 <= k < expected.len() ==> (#[trigger] fields@[k]).0@ == expected[k].0 && has_kind(
            fields@[k].1,
            expected[k].1,
        )
}

/// The scheme of a field kind.
pub fn scheme_of(kind: FieldKind) -> (r: Scheme)
    ensures
        has_kind(r, kind),
{
    match kind {
        FieldKind::Bool => Scheme::Bool,
        FieldKind::Int => Scheme::Int,
        FieldKind::Bigint => Scheme::Bigint,
        FieldKind::String => Scheme::String,
        FieldKind::OptionalInt => Scheme::Optional(Box::new(Scheme::Int)),
        FieldKind::OptionalString => Scheme::Optional(Box::new(Scheme::String)),
        FieldKind::StringArray => Scheme::Array(Box::new(Scheme::String)),
    }
}

/// An object scheme with the given fields, by name and kind, in order.
pub fn object_scheme(names: &Vec<&str>, kinds: &Vec<FieldKind>) -> (r: Scheme)
    requires
        names@.len() == kinds@.len(),
    ensures
        object_fields_are(r, Seq::new(names@.len(), |k: int| (names@[k]@, kinds@[k]))),
{
    let mut fields: Vec<(String, Scheme)> = Vec::new();
    let mut i: usize = 0;
    while i < names.len()
        invariant
            names@.len() == kinds@.len(),
            i <= names@.len(),
            fields@.len() == i,
            forall|k: int|
                0 <= k < i ==> (#[trigger] fields@[k]).0@ == names@[k]@ && has_kind(fields@[k].1, kinds@[k]),
        decreases names@.len() - i,
    {
        fields.push((String::from_str(names[i]), scheme_of(kinds[i])));
        i += 1;
    }
    Scheme::Object(fields)
}

/// A feed kind's metadata: its name, scheme, and whether it needs an account.
pub fn feed_metadata(name: &str, scheme: Scheme, need_auth: bool) -> (r: FeedMetadata)
    ensures
        r.name@ == name@,
        r.scheme == scheme,
        r.need_auth == need_auth,
{
    FeedMetadata { name: String::from_str(name), scheme, need_auth }
}

/// Whether a community works with accounts: whether its metadata describes them.
pub fn use_account(metadata: &CommunityMetadata) -> (r: bool)
    ensures
        r == metadata.account is Some,
{
    metadata.account.is_some()
}

// MARK: Views

/// An account as the client sees it.
#[derive(Debug)]
pub struct AccountView {
    pub account_id: i32,
    pub community: String,
}

/// What is known of an account from its community.
#[derive(Debug)]
pub struct AccountInfo {
    pub name: Option<String>,
    pub username: Option<String>,
    pub avatar_url: Option<String>,
}

/// Whether an account's details have been fetched: whether there are any.
pub fn fetched_info(info: &Option<AccountInfo>) -> (r: bool)
    ensures
        r == info is Some,
{
    info.is_some()
}

/// A feed as the client sees it.
#[derive(Debug)]
pub struct FeedView {
    pub feed_id: i32,
    pub community: String,
    pub name: Option<String>,
    pub description: String,
    pub watching: bool,
}

/// What a media item carries beyond the common fields, by community: a Twitter
/// media's type, a gallery preview's token.
#[derive(Debug)]
pub enum MediaExtra {
    Twitter { type_: String },
    Panda { token: String },
}

/// A media item of a post as the client sees it.
#[derive(Debug)]
pub struct MediaView {
    pub media_id: String,
    pub community: String,
    pub post_id: String,
    pub page_index: i32,
    pub url: Option<String>,
    pub width: Option<i32>,
    pub height: Option<i32>,
    pub thumbnail_url: Option<String>,
    pub extra: Option<MediaExtra>,
}

/// What is needed to create or change a feed.
#[derive(Debug)]
pub struct FeedInfo {
    pub name: Option<String>,
    pub watching: bool,
    pub first_fetch_limit: Option<i32>,
}

/// An artist as the client sees it.
#[derive(Debug)]
pub struct UserView {
    pub user_id: String,
    pub community: String,
    pub name: Option<String>,
    pub username: Option<String>,
    pub tag_name: Option<String>,
    pub avatar_url: Option<String>,
    pub description: Option<String>,
    pub url: Option<String>,
    pub post_count: Option<i64>,
}

/// A request to a community endpoint: its parameters and where to continue from.
#[derive(Debug)]
pub struct EndpointRequest<Params> {
    pub params: Params,
    pub offset: Option<String>,
}

// MARK: Saving fetched posts

/// The direction a feed is fetched in: towards newer posts or towards older ones.
#[derive(Debug, Clone, Copy, PartialEq, Eq, Structural)]
pub enum Direction {
    Forward,
    Backward,
}

/// The outcome of saving one batch of fetched posts to a feed: the IDs of the posts
/// that were new, whether fetching should stop, and whether the feed reached its end.
#[derive(Debug)]
pub struct SaveResult {
    pub post_ids: Vec<String>,
    pub should_stop: bool,
    pub reached_end: bool,
}

/// The fetched posts that are not in the feed yet, in fetched order.
pub open spec fn fresh_posts(fetched: Seq<i64>, existing: Set<i64>) -> Seq<i64> {
    fetched.filter(|p: i64| !existing.contains(p))
}

/// The fetched posts that are not in the feed yet (see `fresh_posts`); `existing`
/// holds posts that the feed already has.
pub fn fresh_post_ids(fetched: &Vec<i64>, existing: &HashSet<i64>) -> (r: Vec<i64>)
    ensures
        r@ == fresh_posts(fetched@, existing@),
{
    broadcast use vstd::std_specs::hash::group_hash_axioms;

    let mut out: Vec<i64> = Vec::new();
    let mut i: usize = 0;
    while i < fetched.len()
        invariant
            i <= fetched@.len(),
            out@ == fresh_posts(fetched@.take(i as int), existing@),
        decreases fetched@.len() - i,
    {
        reveal_with_fuel(Seq::<_>::filter, 1);
        assert(fetched@.take(i + 1).drop_last() =~= fetched@.take(i as int));
        if !existing.contains(&fetched[i]) {
            out.push(fetched[i]);
        }
        i += 1;
    }
    assert(fetched@.take(fetched@.len() as int) =~= fetched@);
    out
}

/// The posts saved over a whole update, batch after batch.
pub open spec fn saved_posts(results: Seq<SaveResult>) -> Seq<String>
    decreases results.len(),
{
    if results.len() == 0 {
        Seq::empty()
    } else {
        saved_posts(results.drop_last()) + results.last().post_ids@
    }
}

/// Whether a post ID reads as an `i64`.
pub open spec fn numeric_id(id: String) -> bool {
    parse_i64_spec(id@) is Some
}

/// The sort index each post saved over an update gets, with the post's ID read as an
/// integer: the posts, batch after batch, take `sort_indices` after the greatest sort
/// index the feed had (`last`). A post ID that is no integer fails the whole update
/// with `IntegerError`, carrying what integer parsing says of the first such ID.
pub fn sort_index_updates(results: &Vec<SaveResult>, last: Option<i32>) -> (r: Result<Vec<(i64, i32)>, Error>)
    requires
        match last {
            Some(l) => l as int,
            None => -1,
        } + saved_posts(results@).len() <= i32::MAX,
    ensures
        ({
            let posts = saved_posts(results@);
            let indices = sort_indices_spec(last, posts.len());
            &&& (forall|k: int| 0 <= k < posts.len() ==> numeric_id(#[trigger] posts[k])) ==> (r matches Ok(u)
                && u@.len() == posts.len() && forall|k: int|
                0 <= k < posts.len() ==> #[trigger] u@[k] == (parse_i64_spec(posts[k]@)->0, indices[k]))
            &&& !(forall|k: int| 0 <= k < posts.len() ==> numeric_id(#[trigger] posts[k])) ==> (r matches Err(
                Error::IntegerError(m),
            ) && exists|k: int|
                0 <= k < posts.len() && !numeric_id(#[trigger] posts[k]) && m@ == int_parse_error_text(posts[k]@) && forall|j: int|
                    0 <= j < k ==> numeric_id(#[trigger] posts[j]))
        }),
{
    let mut posts: Vec<String> = Vec::new();
    let mut i: usize = 0;
    while i < results.len()
        invariant
            i <= results@.len(),
            posts@ == saved_posts(results@.take(i as int)),
        decreases results@.len() - i,
    {
        assert(results@.take(i + 1).drop_last() =~= results@.take(i as int));
        let ids = &results[i].post_ids;
        let mut j: usize = 0;
        while j < ids.len()
            invariant
                j <= ids@.len(),
                posts@ == saved_posts(results@.take(i as int)) + ids@.take(j as int),
            decreases ids@.len() - j,
        {
            posts.push(ids[j].clone());
            assert(posts@ =~= saved_posts(results@.take(i as int)) + ids@.take(j + 1));
            j += 1;
        }
        assert(ids@.take(ids@.len() as int) =~= ids@);
        i += 1;
    }
    assert(results@.take(results@.len() as int) =~= results@);
    let indices = sort_indices(last, posts.len());
    let mut out: Vec<(i64, i32)> = Vec::new();
    let mut k: usize = 0;
    while k < posts.len()
        invariant
            k <= posts@.len(),
            posts@ == saved_posts(results@),
            indices@ == sort_indices_spec(last, posts@.len()),
            out@.len() == k,
            forall|q: int| 0 <= q < k ==> numeric_id(#[trigger] posts@[q]),
            forall|q: int|
                0 <= q < k ==> #[trigger] out@[q] == (parse_i64_spec(posts@[q]@)->0, indices@[q]),
        decreases posts@.len() - k,
    {
        match parse_i64_reporting(posts[k].as_str()) {
            Ok(v) => {
                out.push((v, indices[k]));
            },
            Err(m) => {
                assert(!numeric_id(posts@[k as int]));
                return Err(Error::IntegerError(m));
            },
        }
        k += 1;
    }
    Ok(out)
}

/// Whether some fetched post is one the feed already has.
pub open spec fn some_post_known(fetched: Seq<i64>, existing: Set<i64>) -> bool {
    exists|k: int| 0 <= k < fetched.len() && existing.contains(#[trigger] fetched[k])
}

/// Whether some fetched post is one the feed already has (see `some_post_known`).
pub fn any_post_known(fetched: &Vec<i64>, existing: &HashSet<i64>) -> (r: bool)
    ensures
        r == some_post_known(fetched@, existing@),
        r <==> exists|k: int| 0 <= k < fetched@.len() && existing@.contains(#[trigger] fetched@[k]),
{
    broadcast use vstd::std_specs::hash::group_hash_axioms;

    let mut i: usize = 0;
    while i < fetched.len()
        invariant
            i <= fetched@.len(),
            forall|k: int| 0 <= k < i ==> !existing@.contains(#[trigger] fetched@[k]),
        decreases fetched@.len() - i,
    {
        if existing.contains(&fetched[i]) {
            assert(existing@.contains(fetched@[i as int]));
            return true;
        }
        i += 1;
    }
    false
}

/// A fetched page holds a post the feed already has exactly when one of its posts, at
/// whatever position, is in the feed: a known post anywhere on the page is seen.
pub proof fn law_known_post_anywhere_is_seen(fetched: Seq<i64>, existing: Set<i64>, k: int)
    requires
        0 <= k < fetched.len(),
        existing.contains(fetched[k]),
    ensures
        some_post_known(fetched, existing),
{
    assert(existing.contains(fetched[k]));
}

/// A page seen as holding a known post does hold one, at some position.
pub proof fn law_seen_known_post_is_on_the_page(fetched: Seq<i64>, existing: Set<i64>)
    requires
        some_post_known(fetched, existing),
    ensures
        exists|k: int| 0 <= k < fetched.len() && existing.contains(#[trigger] fetched[k]),
{
}

/// Saving a fetched page never adds a post the feed already has, adds only posts that
/// were fetched, and leaves out no fetched post that the feed lacks.
pub proof fn law_fresh_posts_are_exactly_the_new_ones(fetched: Seq<i64>, existing: Set<i64>)
    ensures
        forall|k: int|
            0 <= k < fresh_posts(fetched, existing).len() ==> !existing.contains(
                #[trigger] fresh_posts(fetched, existing)[k],
            ) && fetched.contains(fresh_posts(fetched, existing)[k]),
        forall|k: int|
            0 <= k < fetched.len() && !existing.contains(fetched[k]) ==> #[trigger] fresh_posts(
                fetched,
                existing,
            ).contains(fetched[k]),
        fresh_posts(fetched, existing).len() <= fetched.len(),
{
    broadcast use vstd::seq_lib::group_filter_ensures;

    let pred = |p: i64| !existing.contains(p);
    assert forall|k: int| 0 <= k < fresh_posts(fetched, existing).len() implies !existing.contains(
        #[trigger] fresh_posts(fetched, existing)[k],
    ) && fetched.contains(fresh_posts(fetched, existing)[k]) by {
        assert(fetched.filter(pred).contains(fetched.filter(pred)[k]));
        fetched.lemma_filter_contains_rev(pred, fetched.filter(pred)[k]);
    }
}

/// The texts joined with `, ` between them.
pub open spec fn join_comma(items: Seq<Seq<char>>) -> Seq<char>
    decreases items.len(),
{
    if items.len() == 0 {
        Seq::empty()
    } else if items.len() == 1 {
        items[0]
    } else {
        join_comma(items.drop_last()) + seq![',', ' '] + items.last()
    }
}

/// The views of a list of strings.
pub open spec fn views(items: Seq<String>) -> Seq<Seq<char>> {
    items.map_values(|s: String| s@)
}

/// Joins texts with `, ` between them, as the history of a feed records post IDs.
pub fn join_with_comma(items: &Vec<String>) -> (r: String)
    ensures
        r@ == join_comma(views(items@)),
{
    let mut s = String::new();
    let mut i: usize = 0;
    while i < items.len()
        invariant
            i <= items@.len(),
            s@ == join_comma(views(items@.take(i as int))),
        decreases items@.len() - i,
    {
        let ghost prev = views(items@.take(i as int));
        assert(views(items@.take(i + 1)).drop_last() =~= prev);
        if i > 0 {
            push_char(&mut s, ',');
            push_char(&mut s, ' ');
        } else {
            assert(views(items@.take(1))[0] == items@[0]@);
        }
        s.append(items[i].as_str());
        proof {
            let next = views(items@.take(i + 1));
            assert(next.last() == items@[i as int]@);
            if i == 0 {
                assert(s@ =~= join_comma(next));
            } else {
                assert(s@ =~= join_comma(next));
            }
        }
        i += 1;
    }
    assert(items@.take(items@.len() as int) =~= items@);
    s
}

/// The decimal texts of the given IDs, in order.
pub open spec fn id_texts(ids: Seq<i64>) -> Seq<Seq<char>> {
    ids.map_values(|id: i64| int_decimal(id as int))
}

/// Writes IDs as decimal text, in order.
pub fn ids_to_strings(ids: &Vec<i64>) -> (r: Vec<String>)
    ensures
        views(r@) == id_texts(ids@),
        r@.len() == ids@.len(),
{
    let mut out: Vec<String> = Vec::new();
    let mut i: usize = 0;
    while i < ids.len()
        invariant
            i <= ids@.len(),
            out@.len() == i,
            forall|j: int| 0 <= j < i ==> (#[trigger] out@[j])@ == int_decimal(ids@[j] as int),
        decreases ids@.len() - i,
    {
        out.push(i64_to_decimal(ids[i]));
        i += 1;
    }
    assert(views(out@) =~= id_texts(ids@));
    out
}

// MARK: Order of new posts

/// The sort indices given to `count` new posts after a feed whose greatest index is
/// `last` (none counts as -1): the next `count` integers, highest first, so that the
/// first post saved, the newest, sorts first.
pub open spec fn sort_indices_spec(last: Option<i32>, count: nat) -> Seq<i32> {
    let base: int = match last {
        Some(l) => l as int,
        None => -1,
    };
    Seq::new(count, |k: int| (base + count - k) as i32)
}

/// The sort indices for `count` new posts of a feed, in the order of the posts.
pub fn sort_indices(last: Option<i32>, count: usize) -> (r: Vec<i32>)
    requires
        match last {
            Some(l) => l as int,
            None => -1,
        } + count <= i32::MAX,
    ensures
        r@ == sort_indices_spec(last, count as nat),
{
    let base: i32 = match last {
        Some(l) => l,
        None => -1,
    };
    let mut out: Vec<i32> = Vec::new();
    let mut k: usize = 0;
    while k < count
        invariant
            k <= count,
            base + count <= i32::MAX,
            base >= -1 || base == match last {
                Some(l) => l as int,
                None => -1,
            },
            base == match last {
                Some(l) => l as int,
                None => -1,
            },
            out@ =~= sort_indices_spec(last, count as nat).take(k as int),
        decreases count - k,
    {
        let v: i32 = (base as i64 + count as i64 - k as i64) as i32;
        out.push(v);
        k += 1;
    }
    out
}

/// Sort indices given to new posts are distinct, fall as the posts go on, and all lie
/// above the feed's greatest index.
pub proof fn law_sort_indices_fresh_and_descending(last: Option<i32>, count: nat)
    requires
        match last {
            Some(l) => l as int,
            None => -1,
        } + count <= i32::MAX,
    ensures
        forall|a: int, b: int|
            0 <= a < b < count ==> sort_indices_spec(last, count)[a] > sort_indices_spec(last, count)[b],
        forall|a: int|
            0 <= a < count ==> sort_indices_spec(last, count)[a] > match last {
                Some(l) => l as int,
                None => -1,
            },
{
}

// MARK: Posts grouped by artist

/// Whether a post count ranks above another: a larger count does, and any count ranks
/// above an unknown one.
pub open spec fn count_above(x: Option<i64>, y: Option<i64>) -> bool {
    match (x, y) {
        (Some(a), Some(b)) => a > b,
        (Some(_), None) => true,
        _ => false,
    }
}

/// Whether artist `a` comes before artist `b` when artists are listed by post count,
/// largest first, artists with the same count keeping their order.
pub open spec fn ranked_before(counts: Seq<Option<i64>>, a: int, b: int) -> bool {
    count_above(counts[a], counts[b]) || (!count_above(counts[b], counts[a]) && a < b)
}

/// The order in which artists are listed, by their post counts: largest first, an
/// unknown count last, artists with the same count in their given order (a stable
/// sort). The result lists each artist's position once.
pub fn rank_by_post_count(counts: &Vec<Option<i64>>) -> (r: Vec<usize>)
    ensures
        r@.len() == counts@.len(),
        forall|k: int| 0 <= k < r@.len() ==> r@[k] < counts@.len(),
        forall|a: int, b: int| 0 <= a < b < r@.len() ==> r@[a] != r@[b],
        forall|a: int, b: int|
            0 <= a < b < r@.len() ==> ranked_before(counts@, r@[a] as int, r@[b] as int),
{
    let mut out: Vec<usize> = Vec::new();
    let mut i: usize = 0;
    while i < counts.len()
        invariant
            i <= counts@.len(),
            out@.len() == i,
            forall|k: int| 0 <= k < out@.len() ==> out@[k] < i,
            forall|a: int, b: int| 0 <= a < b < out@.len() ==> out@[a] != out@[b],
            forall|a: int, b: int|
                0 <= a < b < out@.len() ==> ranked_before(counts@, out@[a] as int, out@[b] as int),
        decreases counts@.len() - i,
    {
        let ci = counts[i];
        let mut p: usize = 0;
        while p < out.len() && !above_count(ci, counts[out[p]])
            invariant
                i < counts@.len(),
                ci == counts@[i as int],
                p <= out@.len(),
                forall|k: int| 0 <= k < out@.len() ==> out@[k] < i,
                forall|q: int| 0 <= q < p ==> !count_above(ci, counts@[out@[q] as int]),
            decreases out@.len() - p,
        {
            p += 1;
        }
        let ghost old_out = out@;
        proof {
            assert forall|q: int| p <= q < old_out.len() implies count_above(ci, counts@[old_out[q] as int]) by {
                if q > p {
                    assert(ranked_before(counts@, old_out[p as int] as int, old_out[q] as int));
                }
            }
        }
        out.insert(p, i);
        proof {
            assert forall|a: int, b: int| 0 <= a < b < out@.len() implies ranked_before(
                counts@,
                out@[a] as int,
                out@[b] as int,
            ) by {
                if a < p && b < p {
                    assert(out@[a] == old_out[a] && out@[b] == old_out[b]);
                } else if a < p && b == p {
                    assert(out@[a] == old_out[a]);
                } else if a < p {
                    assert(out@[a] == old_out[a] && out@[b] == old_out[b - 1]);
                } else if a == p {
                    assert(out@[b] == old_out[b - 1]);
                } else {
                    assert(out@[a] == old_out[a - 1] && out@[b] == old_out[b - 1]);
                }
            }
            assert forall|a: int, b: int| 0 <= a < b < out@.len() implies out@[a] != out@[b] by {
                if a < p && b < p {
                    assert(out@[a] == old_out[a] && out@[b] == old_out[b]);
                } else if a < p && b > p {
                    assert(out@[a] == old_out[a] && out@[b] == old_out[b - 1]);
                } else if a > p {
                    assert(out@[a] == old_out[a - 1] && out@[b] == old_out[b - 1]);
                }
            }
        }
        i += 1;
    }
    out
}

fn above_count(x: Option<i64>, y: Option<i64>) -> (r: bool)
    ensures
        r == count_above(x, y),
{
    match (x, y) {
        (Some(a), Some(b)) => a > b,
        (Some(_), None) => true,
        _ => false,
    }
}

/// Where a post with the given ID stands among the loaded posts: the last one with it.
pub open spec fn loaded_at(loaded: Seq<i64>, id: i64) -> Option<int>
    decreases loaded.len(),
{
    if loaded.len() == 0 {
        None
    } else if loaded.last() == id {
        Some(loaded.len() - 1)
    } else {
        loaded_at(loaded.drop_last(), id)
    }
}

/// The loaded posts put back in the order of the records that named them: for each
/// record's post ID, in order, the position of the loaded post with that ID; a record
/// whose post was not loaded is skipped.
pub open spec fn in_record_order(ids: Seq<i64>, loaded: Seq<i64>) -> Seq<usize>
    decreases ids.len(),
{
    if ids.len() == 0 {
        Seq::empty()
    } else {
        let rest = in_record_order(ids.drop_last(), loaded);
        match loaded_at(loaded, ids.last()) {
            Some(k) => rest.push(k as usize),
            None => rest,
        }
    }
}

fn find_loaded(loaded: &Vec<i64>, id: i64) -> (r: Option<usize>)
    ensures
        match loaded_at(loaded@, id) {
            Some(k) => r == Some(k as usize),
            None => r is None,
        },
{
    let mut k: usize = loaded.len();
    assert(loaded@.take(loaded@.len() as int) =~= loaded@);
    while k > 0
        invariant
            k <= loaded@.len(),
            loaded_at(loaded@, id) == loaded_at(loaded@.take(k as int), id),
        decreases k,
    {
        assert(loaded@.take(k as int).drop_last() =~= loaded@.take(k - 1));
        if loaded[k - 1] == id {
            return Some(k - 1);
        }
        k -= 1;
    }
    None
}

/// The loaded posts put back in record order (see `in_record_order`).
pub fn order_loaded_posts(ids: &Vec<i64>, loaded: &Vec<i64>) -> (r: Vec<usize>)
    ensures
        r@ == in_record_order(ids@, loaded@),
{
    let mut out: Vec<usize> = Vec::new();
    let mut i: usize = 0;
    while i < ids.len()
        invariant
            i <= ids@.len(),
            out@ == in_record_order(ids@.take(i as int), loaded@),
        decreases ids@.len() - i,
    {
        assert(ids@.take(i + 1).drop_last() =~= ids@.take(i as int));
        if let Some(k) = find_loaded(loaded, ids[i]) {
            out.push(k);
        }
        i += 1;
    }
    assert(ids@.take(ids@.len() as int) =~= ids@);
    out
}

/// The post count of each artist, from the counts the grouped query gave: unknown
/// for an artist it gave none.
pub open spec fn attached_counts(user_ids: Seq<i64>, counts: Map<i64, i64>) -> Seq<Option<i64>> {
    user_ids.map_values(
        |id: i64|
            if counts.dom().contains(id) {
                Some(counts[id])
            } else {
                None
            },
    )
}

/// The artists of a grouped listing, each given its post count and listed by it (see
/// `rank_by_post_count`): each entry is an artist's position among `user_ids` and its
/// count.
pub fn artist_ranking(user_ids: &Vec<i64>, counts: &HashMap<i64, i64>) -> (r: Vec<(usize, Option<i64>)>)
    ensures
        ({
            let c = attached_counts(user_ids@, counts@);
            &&& r@.len() == user_ids@.len()
            &&& forall|k: int| 0 <= k < r@.len() ==> #[trigger] r@[k].0 < user_ids@.len() && r@[k].1 == c[r@[k].0 as int]
            &&& forall|a: int, b: int| 0 <= a < b < r@.len() ==> r@[a].0 != r@[b].0
            &&& forall|a: int, b: int| 0 <= a < b < r@.len() ==> ranked_before(c, r@[a].0 as int, r@[b].0 as int)
        }),
{
    broadcast use vstd::std_specs::hash::group_hash_axioms;

    let ghost c = attached_counts(user_ids@, counts@);
    let mut attached: Vec<Option<i64>> = Vec::new();
    let mut i: usize = 0;
    while i < user_ids.len()
        invariant
            i <= user_ids@.len(),
            c == attached_counts(user_ids@, counts@),
            attached@ == c.take(i as int),
        decreases user_ids@.len() - i,
    {
        let count = match counts.get(&user_ids[i]) {
            Some(n) => Some(*n),
            None => None,
        };
        attached.push(count);
        assert(attached@ =~= c.take(i + 1));
        i += 1;
    }
    assert(c.take(c.len() as int) =~= c);
    let order = rank_by_post_count(&attached);
    let mut out: Vec<(usize, Option<i64>)> = Vec::new();
    let mut k: usize = 0;
    while k < order.len()
        invariant
            k <= order@.len(),
            attached@ == c,
            c.len() == user_ids@.len(),
            order@.len() == c.len(),
            forall|q: int| 0 <= q < order@.len() ==> order@[q] < c.len(),
            out@.len() == k,
            forall|q: int| 0 <= q < k ==> #[trigger] out@[q] == (order@[q], c[order@[q] as int]),
        decreases order@.len() - k,
    {
        out.push((order[k], attached[order[k]]));
        k += 1;
    }
    assert forall|a: int, b: int| 0 <= a < b < out@.len() implies out@[a].0 != out@[b].0 by {
        assert(out@[a] == (order@[a], c[order@[a] as int]));
        assert(out@[b] == (order@[b], c[order@[b] as int]));
    }
    assert forall|a: int, b: int| 0 <= a < b < out@.len() implies ranked_before(c, out@[a].0 as int, out@[b].0 as int) by {
        assert(out@[a] == (order@[a], c[order@[a] as int]));
        assert(out@[b] == (order@[b], c[order@[b] as int]));
    }
    out
}

/// Whether a media item (its post and page) belongs to one of the works a listing
/// shows: a work names its post and page, or its post alone for every page.
pub open spec fn media_of_works(m: (i64, i32), post_pages: Seq<(i64, Option<i32>)>) -> bool {
    post_pages.contains((m.0, Some(m.1))) || post_pages.contains((m.0, None))
}

/// The positions of the media items that belong to the works shown, in order.
pub open spec fn kept_media(media: Seq<(i64, i32)>, post_pages: Seq<(i64, Option<i32>)>) -> Seq<usize>
    decreases media.len(),
{
    if media.len() == 0 {
        Seq::empty()
    } else {
        let rest = kept_media(media.drop_last(), post_pages);
        if media_of_works(media.last(), post_pages) {
            rest.push((media.len() - 1) as usize)
        } else {
            rest
        }
    }
}

fn contains_post_page(post_pages: &Vec<(i64, Option<i32>)>, key: (i64, Option<i32>)) -> (r: bool)
    ensures
        r == post_pages@.contains(key),
{
    let mut i: usize = 0;
    while i < post_pages.len()
        invariant
            i <= post_pages@.len(),
            forall|q: int| 0 <= q < i ==> post_pages@[q] != key,
        decreases post_pages@.len() - i,
    {
        let (post, page) = post_pages[i];
        let same_page = match (page, key.1) {
            (Some(a), Some(b)) => a == b,
            (None, None) => true,
            _ => false,
        };
        if post == key.0 && same_page {
            assert(post_pages@[i as int] == key);
            return true;
        }
        i += 1;
    }
    false
}

/// The media items (each its post and page) that belong to the works shown (see
/// `media_of_works`), as positions in order: a grouped listing that is filtered by
/// works shows only these.
pub fn filter_media_by_works(media: &Vec<(i64, i32)>, post_pages: &Vec<(i64, Option<i32>)>) -> (r: Vec<usize>)
    ensures
        r@ == kept_media(media@, post_pages@),
{
    let mut out: Vec<usize> = Vec::new();
    let mut i: usize = 0;
    while i < media.len()
        invariant
            i <= media@.len(),
            out@ == kept_media(media@.take(i as int), post_pages@),
        decreases media@.len() - i,
    {
        let ghost prefix = media@.take(i + 1);
        assert(prefix.drop_last() =~= media@.take(i as int));
        assert(prefix.last() == media@[i as int]);
        let (post, page) = media[i];
        if contains_post_page(post_pages, (post, Some(page))) || contains_post_page(post_pages, (post, None)) {
            out.push(i);
        }
        i += 1;
    }
    assert(media@.take(media@.len() as int) =~= media@);
    out
}

} // verus!
