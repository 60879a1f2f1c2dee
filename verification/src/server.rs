//! Server-side helpers: feed identifiers, query parameters, retries, and the HTTP
//! status answered for an error.
use vstd::prelude::*;

use crate::decimal::{i32_to_decimal, int_decimal, law_i64_decimal_roundtrip, parse_i64, parse_i64_spec, u64_to_decimal};
use crate::download::{download_error_message, DownloadError};
use crate::error::{error_message, Error};
use crate::text::push_char;

verus! {

/// Identifies a feed across communities: the community name and the feed's ID there.
#[derive(Debug)]
pub struct FeedIdentifier {
    pub community: String,
    pub feed_id: i32,
}

impl Clone for FeedIdentifier {
    fn clone(&self) -> (r: Self)
        ensures
            r == *self,
    {
        FeedIdentifier { community: self.community.clone(), feed_id: self.feed_id }
    }
}

/// How a feed identifier is written: `<feed_id>@<community>`.
pub open spec fn feed_identifier_text(id: FeedIdentifier) -> Seq<char> {
    int_decimal(id.feed_id as int) + seq!['@'] + id.community@
}

impl FeedIdentifier {
    pub fn new(community: &str, feed_id: i32) -> (r: Self)
        ensures
            r.community@ == community@,
            r.feed_id == feed_id,
    {
        FeedIdentifier { community: String::from_str(community), feed_id }
    }

    /// The identifier as text, `<feed_id>@<community>`.
    pub fn describe(&self) -> (r: String)
        ensures
            r@ == feed_identifier_text(*self),
    {
        let mut s = i32_to_decimal(self.feed_id);
        push_char(&mut s, '@');
        s.append(self.community.as_str());
        s
    }
}

// MARK: Query parameters

/// Page size used when a request gives none.
pub const DEFAULT_PAGE_SIZE: i64 = 30;
/// Number of recent posts shown per user when a request gives none.
pub const DEFAULT_RECENT_COUNT: i64 = 10;
/// How long a call to a community may take, in milliseconds.
pub const DEFAULT_TIMEOUT_MS: u64 = 30000;
/// The pause between two tries of a call that failed and may succeed later, in milliseconds.
pub const DEFAULT_RETRY_DELAY_MS: u64 = 1000;
/// How many times a call that failed is tried again at most.
pub const DEFAULT_RETRY_COUNT: usize = 5;

/// A query parameter read as an integer: the parsed value when it is given and is a
/// decimal integer, else the default.
pub open spec fn param_or(value: Option<Seq<char>>, default: i64) -> i64 {
    match value {
        Some(v) => match parse_i64_spec(v) {
            Some(n) => n,
            None => default,
        },
        None => default,
    }
}

/// A paging parameter given as the decimal text of a number is read as that number;
/// a missing one, an empty one, or one that starts with anything but a sign or a digit
/// is the default.
pub proof fn law_paging_reads_the_given_number(n: i64, text: Seq<char>, default: i64)
    ensures
        param_or(Some(int_decimal(n as int)), default) == n,
        param_or(None, default) == default,
        text.len() == 0 || (text[0] != '+' && text[0] != '-' && !('0' <= text[0] && text[0] <= '9')) ==> param_or(
            Some(text),
            default,
        ) == default,
{
    law_i64_decimal_roundtrip(n);
}

/// The page and page size of a request, from its `page` and `page_size` query
/// parameters: a missing or malformed page is 0, a missing or malformed size is
/// `DEFAULT_PAGE_SIZE`.
pub fn get_page_and_size(page: Option<&str>, page_size: Option<&str>) -> (r: (i64, i64))
    ensures
        r.0 == param_or(
            match page {
                Some(p) => Some(p@),
                None => None,
            },
            0,
        ),
        r.1 == param_or(
            match page_size {
                Some(p) => Some(p@),
                None => None,
            },
            DEFAULT_PAGE_SIZE,
        ),
{
    let p = match page {
        Some(v) => match parse_i64(v) {
            Some(n) => n,
            None => 0,
        },
        None => 0,
    };
    let size = match page_size {
        Some(v) => match parse_i64(v) {
            Some(n) => n,
            None => DEFAULT_PAGE_SIZE,
        },
        None => DEFAULT_PAGE_SIZE,
    };
    (p, size)
}

/// The error a call that ran out of time ends with: `Timeout` with `after 30000 ms`.
pub fn timeout_error() -> (r: Error)
    ensures
        r matches Error::Timeout(m) && m@ == seq!['a', 'f', 't', 'e', 'r', ' '] + int_decimal(
            DEFAULT_TIMEOUT_MS as int,
        ) + seq![' ', 'm', 's'],
{
    proof {
        reveal_strlit("after ");
        reveal_strlit(" ms");
    }
    let mut m = String::from_str("after ");
    let d = u64_to_decimal(DEFAULT_TIMEOUT_MS);
    m.append(d.as_str());
    m.append(" ms");
    assert(m@ =~= seq!['a', 'f', 't', 'e', 'r', ' '] + int_decimal(DEFAULT_TIMEOUT_MS as int) + seq![' ', 'm', 's']);
    Error::Timeout(m)
}

/// Whether to try a failed call again, and after how long: a call whose error may go
/// away (see `ServerError::retryable`) is tried again after `DEFAULT_RETRY_DELAY_MS`,
/// at most `DEFAULT_RETRY_COUNT` times; `retries_done` counts the tries made after the
/// first.
pub open spec fn retry_delay(retries_done: int, retryable: bool) -> Option<u64> {
    if retryable && retries_done < DEFAULT_RETRY_COUNT {
        Some(DEFAULT_RETRY_DELAY_MS)
    } else {
        None
    }
}

/// Whether to try a failed call again, and after how long (see `retry_delay`).
pub fn next_retry_delay(retries_done: usize, retryable: bool) -> (r: Option<u64>)
    ensures
        r == retry_delay(retries_done as int, retryable),
{
    if retryable && retries_done < DEFAULT_RETRY_COUNT {
        Some(DEFAULT_RETRY_DELAY_MS)
    } else {
        None
    }
}

/// How many tries a call gets under `retry_delay`, counting from try `done` (from 0),
/// when try `k` ends as `outcomes[k]`: `None` when it succeeds, `Some(retryable)` when
/// it fails.
pub open spec fn tries_made(outcomes: Seq<Option<bool>>, done: nat) -> nat
    decreases outcomes.len() - done,
{
    if done >= outcomes.len() {
        done
    } else {
        match outcomes[done as int] {
            None => done + 1,
            Some(retryable) => if retry_delay(done as int, retryable) is Some {
                tries_made(outcomes, done + 1)
            } else {
                done + 1
            },
        }
    }
}

proof fn lemma_tries_made(outcomes: Seq<Option<bool>>, done: nat)
    requires
        done <= DEFAULT_RETRY_COUNT,
        outcomes.len() > DEFAULT_RETRY_COUNT,
    ensures
        done + 1 <= tries_made(outcomes, done) <= DEFAULT_RETRY_COUNT + 1,
        forall|j: int| done <= j < tries_made(outcomes, done) - 1 ==> outcomes[j] == Some(true),
        tries_made(outcomes, done) < DEFAULT_RETRY_COUNT + 1 ==> outcomes[tries_made(outcomes, done) - 1]
            != Some(true),
    decreases DEFAULT_RETRY_COUNT - done,
{
    match outcomes[done as int] {
        Some(true) => {
            if done < DEFAULT_RETRY_COUNT {
                lemma_tries_made(outcomes, done + 1);
            }
        },
        _ => {},
    }
}

/// A failing call is tried at most `DEFAULT_RETRY_COUNT + 1` times and at least once;
/// every try but the last failed with an error that may go away, each followed by a
/// pause of `DEFAULT_RETRY_DELAY_MS`; and when the call stops before its last allowed
/// try, its last try succeeded or failed for good.
pub proof fn law_retries_are_bounded(outcomes: Seq<Option<bool>>)
    requires
        outcomes.len() > DEFAULT_RETRY_COUNT,
    ensures
        1 <= tries_made(outcomes, 0) <= DEFAULT_RETRY_COUNT + 1,
        forall|j: int|
            0 <= j < tries_made(outcomes, 0) - 1 ==> outcomes[j] == Some(true) && retry_delay(j, true) == Some(
                DEFAULT_RETRY_DELAY_MS,
            ),
        tries_made(outcomes, 0) < DEFAULT_RETRY_COUNT + 1 ==> outcomes[tries_made(outcomes, 0) - 1] != Some(true),
{
    lemma_tries_made(outcomes, 0);
}

// MARK: Errors and status codes

/// The errors of the Twitter client that the status mapping tells apart.
#[derive(Debug, Clone, Copy, PartialEq, Eq, Structural)]
pub enum TwitterClientError {
    InvalidGraphqlResponse,
    InvalidCookie,
    InvalidEndpoint,
    NetworkError,
    Other,
}

/// The errors of the Pixiv client that the status mapping tells apart.
#[derive(Debug, Clone, Copy, PartialEq, Eq, Structural)]
pub enum PixivClientError {
    InvalidField,
    NetworkError,
    Other,
}

/// The errors of the Yande.re client that the status mapping tells apart.
#[derive(Debug, Clone, Copy, PartialEq, Eq, Structural)]
pub enum YandereClientError {
    NetworkError,
    Other,
}

/// The errors of the gallery client that the status mapping tells apart.
#[derive(Debug, Clone, Copy, PartialEq, Eq, Structural)]
pub enum PandaClientError {
    RateLimit,
    NetworkError,
    Other,
}

/// One error in the chain of causes of a failed request, as far as the status
/// mapping reads it.
#[derive(Debug)]
pub enum ErrorCause {
    Download(DownloadError),
    Twitter(TwitterClientError),
    Pixiv(PixivClientError),
    Yandere(YandereClientError),
    Panda(PandaClientError),
    Library(Error),
    /// An error of another kind, which decides nothing.
    Unrecognized,
}

/// An error answered to a client: its message and its chain of causes, outermost first.
#[derive(Debug)]
pub struct ServerError {
    pub message: String,
    pub causes: Vec<ErrorCause>,
}

pub const BAD_REQUEST: u16 = 400;
pub const UNAUTHORIZED: u16 = 401;
pub const NOT_FOUND: u16 = 404;
pub const CONFLICT: u16 = 409;
pub const TOO_MANY_REQUESTS: u16 = 429;
pub const INTERNAL_SERVER_ERROR: u16 = 500;
pub const BAD_GATEWAY: u16 = 502;
pub const GATEWAY_TIMEOUT: u16 = 504;

/// The status a cause decides, if it is one the mapping recognizes.
pub open spec fn cause_status(c: ErrorCause) -> Option<u16> {
    match c {
        ErrorCause::Download(e) => Some(
            match e {
                DownloadError::InvalidUrl(_) => BAD_REQUEST,
                DownloadError::NetworkError(_) => BAD_GATEWAY,
                DownloadError::IncompleteDownload(_) => BAD_GATEWAY,
                _ => INTERNAL_SERVER_ERROR,
            },
        ),
        ErrorCause::Twitter(e) => Some(
            match e {
                TwitterClientError::InvalidGraphqlResponse => BAD_GATEWAY,
                TwitterClientError::InvalidCookie => BAD_REQUEST,
                TwitterClientError::InvalidEndpoint => BAD_REQUEST,
                TwitterClientError::NetworkError => BAD_GATEWAY,
                TwitterClientError::Other => INTERNAL_SERVER_ERROR,
            },
        ),
        ErrorCause::Pixiv(e) => Some(
            match e {
                PixivClientError::InvalidField => BAD_REQUEST,
                PixivClientError::NetworkError => BAD_GATEWAY,
                PixivClientError::Other => INTERNAL_SERVER_ERROR,
            },
        ),
        ErrorCause::Yandere(e) => Some(
            match e {
                YandereClientError::NetworkError => BAD_GATEWAY,
                YandereClientError::Other => INTERNAL_SERVER_ERROR,
            },
        ),
        ErrorCause::Panda(e) => Some(
            match e {
                PandaClientError::RateLimit => TOO_MANY_REQUESTS,
                PandaClientError::NetworkError => BAD_GATEWAY,
                PandaClientError::Other => INTERNAL_SERVER_ERROR,
            },
        ),
        ErrorCause::Library(e) => Some(
            match e {
                Error::ObjectNotFound(_) => NOT_FOUND,
                Error::ObjectAlreadyExists(_) => CONFLICT,
                Error::ObjectNotComplete(_) => BAD_REQUEST,
                Error::InvalidEndpoint(_) => BAD_REQUEST,
                Error::NotLoggedIn(_) => UNAUTHORIZED,
                Error::RateLimit(_) => TOO_MANY_REQUESTS,
                Error::Timeout(_) => GATEWAY_TIMEOUT,
                _ => INTERNAL_SERVER_ERROR,
            },
        ),
        ErrorCause::Unrecognized => None,
    }
}

/// The status of a chain of causes: that of the first recognized cause, else 500.
pub open spec fn chain_status(causes: Seq<ErrorCause>) -> u16
    decreases causes.len(),
{
    if causes.len() == 0 {
        INTERNAL_SERVER_ERROR
    } else {
        match cause_status(causes[0]) {
            Some(s) => s,
            None => chain_status(causes.drop_first()),
        }
    }
}

/// The status of an error is decided by the first cause in its chain that the mapping
/// recognizes: causes of other kinds before it change nothing, and nothing after it
/// counts.
pub proof fn law_first_recognized_cause_decides(before: Seq<ErrorCause>, cause: ErrorCause, after: Seq<ErrorCause>)
    requires
        forall|k: int| 0 <= k < before.len() ==> cause_status(#[trigger] before[k]) is None,
        cause_status(cause) is Some,
    ensures
        chain_status(before + seq![cause] + after) == cause_status(cause)->0,
    decreases before.len(),
{
    let whole = before + seq![cause] + after;
    if before.len() == 0 {
        assert(whole[0] == cause);
    } else {
        assert(whole[0] == before[0]);
        assert(cause_status(before[0]) is None);
        assert(whole.drop_first() =~= before.drop_first() + seq![cause] + after);
        law_first_recognized_cause_decides(before.drop_first(), cause, after);
    }
}

/// An error none of whose causes the mapping recognizes is answered with 500.
pub proof fn law_unrecognized_chain_is_internal(causes: Seq<ErrorCause>)
    requires
        forall|k: int| 0 <= k < causes.len() ==> cause_status(#[trigger] causes[k]) is None,
    ensures
        chain_status(causes) == INTERNAL_SERVER_ERROR,
    decreases causes.len(),
{
    if causes.len() > 0 {
        assert(cause_status(causes[0]) is None);
        law_unrecognized_chain_is_internal(causes.drop_first());
    }
}

fn status_of_cause(c: &ErrorCause) -> (r: Option<u16>)
    ensures
        r == cause_status(*c),
{
    match c {
        ErrorCause::Download(e) => Some(
            match e {
                DownloadError::InvalidUrl(_) => BAD_REQUEST,
                DownloadError::NetworkError(_) => BAD_GATEWAY,
                DownloadError::IncompleteDownload(_) => BAD_GATEWAY,
                _ => INTERNAL_SERVER_ERROR,
            },
        ),
        ErrorCause::Twitter(e) => Some(
            match e {
                TwitterClientError::InvalidGraphqlResponse => BAD_GATEWAY,
                TwitterClientError::InvalidCookie => BAD_REQUEST,
                TwitterClientError::InvalidEndpoint => BAD_REQUEST,
                TwitterClientError::NetworkError => BAD_GATEWAY,
                TwitterClientError::Other => INTERNAL_SERVER_ERROR,
            },
        ),
        ErrorCause::Pixiv(e) => Some(
            match e {
                PixivClientError::InvalidField => BAD_REQUEST,
                PixivClientError::NetworkError => BAD_GATEWAY,
                PixivClientError::Other => INTERNAL_SERVER_ERROR,
            },
        ),
        ErrorCause::Yandere(e) => Some(
            match e {
                YandereClientError::NetworkError => BAD_GATEWAY,
                YandereClientError::Other => INTERNAL_SERVER_ERROR,
            },
        ),
        ErrorCause::Panda(e) => Some(
            match e {
                PandaClientError::RateLimit => TOO_MANY_REQUESTS,
                PandaClientError::NetworkError => BAD_GATEWAY,
                PandaClientError::Other => INTERNAL_SERVER_ERROR,
            },
        ),
        ErrorCause::Library(e) => Some(
            match e {
                Error::ObjectNotFound(_) => NOT_FOUND,
                Error::ObjectAlreadyExists(_) => CONFLICT,
                Error::ObjectNotComplete(_) => BAD_REQUEST,
                Error::InvalidEndpoint(_) => BAD_REQUEST,
                Error::NotLoggedIn(_) => UNAUTHORIZED,
                Error::RateLimit(_) => TOO_MANY_REQUESTS,
                Error::Timeout(_) => GATEWAY_TIMEOUT,
                _ => INTERNAL_SERVER_ERROR,
            },
        ),
        ErrorCause::Unrecognized => None,
    }
}

/// Whether a cause is a failure to reach the remote side: a network error of a
/// download or of any community's client.
pub open spec fn is_network_failure(c: ErrorCause) -> bool {
    ||| c matches ErrorCause::Download(DownloadError::NetworkError(_))
    ||| c == ErrorCause::Twitter(TwitterClientError::NetworkError)
    ||| c == ErrorCause::Pixiv(PixivClientError::NetworkError)
    ||| c == ErrorCause::Yandere(YandereClientError::NetworkError)
    ||| c == ErrorCause::Panda(PandaClientError::NetworkError)
}

/// A network failure, of a download or of any community's client, answers 502 (bad
/// gateway) wherever it first decides the chain, so the call is tried again after
/// the retry delay.
pub proof fn law_network_failures_are_bad_gateway_and_retried(c: ErrorCause, before: Seq<ErrorCause>, after: Seq<ErrorCause>)
    requires
        is_network_failure(c),
        forall|k: int| 0 <= k < before.len() ==> cause_status(#[trigger] before[k]) is None,
    ensures
        cause_status(c) == Some(502u16),
        chain_status(before + seq![c] + after) == 502,
        retry_delay(0, chain_status(before + seq![c] + after) == 502 || chain_status(before + seq![c] + after) == 504)
            == Some(1000u64),
{
    law_first_recognized_cause_decides(before, c, after);
}

/// A call that ran out of time answers 504 (gateway timeout), and is tried again after
/// the retry delay.
pub proof fn law_timeouts_are_gateway_timeout_and_retried(m: String)
    ensures
        chain_status(seq![ErrorCause::Library(Error::Timeout(m))]) == 504,
        retry_delay(0, chain_status(seq![ErrorCause::Library(Error::Timeout(m))]) == 502 || chain_status(
            seq![ErrorCause::Library(Error::Timeout(m))],
        ) == 504) == Some(1000u64),
{
}

/// Faults in the request itself are answered with their 4xx status and are not tried
/// again: a bad URL, cookie, endpoint or field is 400, a missing object 404, an existing
/// one 409, a missing login 401, a rate limit 429.
pub proof fn law_request_faults_are_client_errors(m: String, u: String)
    ensures
        cause_status(ErrorCause::Download(DownloadError::InvalidUrl(u))) == Some(400u16),
        cause_status(ErrorCause::Twitter(TwitterClientError::InvalidCookie)) == Some(400u16),
        cause_status(ErrorCause::Twitter(TwitterClientError::InvalidEndpoint)) == Some(400u16),
        cause_status(ErrorCause::Pixiv(PixivClientError::InvalidField)) == Some(400u16),
        cause_status(ErrorCause::Library(Error::InvalidEndpoint(m))) == Some(400u16),
        cause_status(ErrorCause::Library(Error::ObjectNotComplete(m))) == Some(400u16),
        cause_status(ErrorCause::Library(Error::ObjectNotFound(m))) == Some(404u16),
        cause_status(ErrorCause::Library(Error::ObjectAlreadyExists(m))) == Some(409u16),
        cause_status(ErrorCause::Library(Error::NotLoggedIn(m))) == Some(401u16),
        cause_status(ErrorCause::Library(Error::RateLimit(m))) == Some(429u16),
        cause_status(ErrorCause::Panda(PandaClientError::RateLimit)) == Some(429u16),
{
}

impl ServerError {
    /// A server error from an error of the library: its message, and the error as the
    /// only cause.
    pub fn from_library(e: Error) -> (r: ServerError)
        ensures
            r.message@ == error_message(e),
            r.causes@ == seq![ErrorCause::Library(e)],
    {
        let message = e.message();
        let mut causes: Vec<ErrorCause> = Vec::new();
        causes.push(ErrorCause::Library(e));
        ServerError { message, causes }
    }

    /// A server error from a download error: its message, and the error as the only cause.
    pub fn from_download(e: DownloadError) -> (r: ServerError)
        ensures
            r.message@ == download_error_message(e),
            r.causes@ == seq![ErrorCause::Download(e)],
            (e is NetworkError || e is IncompleteDownload) ==> chain_status(r.causes@) == 502,
    {
        let message = e.message();
        let mut causes: Vec<ErrorCause> = Vec::new();
        causes.push(ErrorCause::Download(e));
        ServerError { message, causes }
    }

    /// The HTTP status answered for this error: the first cause in the chain that the
    /// mapping recognizes decides it; with none, 500.
    pub fn status_code(&self) -> (r: u16)
        ensures
            r == chain_status(self.causes@),
    {
        let mut i: usize = 0;
        assert(self.causes@.skip(0) =~= self.causes@);
        while i < self.causes.len()
            invariant
                i <= self.causes@.len(),
                chain_status(self.causes@) == chain_status(self.causes@.skip(i as int)),
            decreases self.causes@.len() - i,
        {
            assert(self.causes@.skip(i as int).drop_first() =~= self.causes@.skip(i + 1));
            assert(self.causes@.skip(i as int)[0] == self.causes@[i as int]);
            match status_of_cause(&self.causes[i]) {
                Some(s) => return s,
                None => {},
            }
            i += 1;
        }
        assert(self.causes@.skip(i as int).len() == 0);
        INTERNAL_SERVER_ERROR
    }

    /// Whether the failed call may succeed if tried again: when its status is 502 or 504.
    pub fn retryable(&self) -> (r: bool)
        ensures
            r == (chain_status(self.causes@) == BAD_GATEWAY || chain_status(self.causes@) == GATEWAY_TIMEOUT),
    {
        let status = self.status_code();
        status == BAD_GATEWAY || status == GATEWAY_TIMEOUT
    }
}

} // verus!