//! Background jobs: the state of the image download job, of feed update jobs and of
//! gallery download jobs, how each state moves, and what the client is shown of it.
use vstd::prelude::*;

use std::collections::{HashMap, HashSet};

use crate::decimal::{i32_to_decimal, i64_to_decimal, int_decimal, nat_digits, zero_padded, zero_padded_decimal};
use crate::download::DownloadTask;
use crate::panda::{PandaDownloadTask, PandaImageTask};
use crate::paths::{path_join, path_join_spec};
use crate::server::FeedIdentifier;
use crate::text::push_char;

verus! {

/// The coarse state of any background job, as the client sees it.
#[derive(Debug, Clone, Copy, PartialEq, Eq, Structural)]
pub enum GeneralJobState {
    Ready,
    Running,
    Success,
    Failed,
}

impl Default for GeneralJobState {
    fn default() -> (r: Self)
        ensures
            r == GeneralJobState::Ready,
    {
        GeneralJobState::Ready
    }
}

// MARK: Image download job

/// An image that could not be downloaded, and why.
#[derive(Debug)]
pub struct ImageDownloadFailure {
    pub url: String,
    pub error: String,
}

impl Clone for ImageDownloadFailure {
    fn clone(&self) -> (r: Self)
        ensures
            r == *self,
    {
        ImageDownloadFailure { url: self.url.clone(), error: self.error.clone() }
    }
}

/// State of the image download job.
#[derive(Debug)]
pub enum ImageDownloadJobState {
    Ready,
    Running { total: u64, success: u64, failure: u64 },
    Success { total: u64 },
    PartialSuccess { total: u64, success: u64, failures: Vec<ImageDownloadFailure> },
    Failed { error: String },
}

fn clone_image_failures(v: &Vec<ImageDownloadFailure>) -> (r: Vec<ImageDownloadFailure>)
    ensures
        r@ == v@,
{
    let r = v.clone();
    assert(r@ =~= v@);
    r
}

/// Two image download job states are the same: same variant, same counts, same
/// failures in the same order, same error.
pub open spec fn image_state_same(a: ImageDownloadJobState, b: ImageDownloadJobState) -> bool {
    match (a, b) {
        (ImageDownloadJobState::Ready, ImageDownloadJobState::Ready) => true,
        (
            ImageDownloadJobState::Running { total: t1, success: s1, failure: f1 },
            ImageDownloadJobState::Running { total: t2, success: s2, failure: f2 },
        ) => t1 == t2 && s1 == s2 && f1 == f2,
        (ImageDownloadJobState::Success { total: t1 }, ImageDownloadJobState::Success { total: t2 }) => t1
            == t2,
        (
            ImageDownloadJobState::PartialSuccess { total: t1, success: s1, failures: f1 },
            ImageDownloadJobState::PartialSuccess { total: t2, success: s2, failures: f2 },
        ) => t1 == t2 && s1 == s2 && f1@ == f2@,
        (ImageDownloadJobState::Failed { error: e1 }, ImageDownloadJobState::Failed { error: e2 }) => e1
            == e2,
        _ => false,
    }
}

impl Clone for ImageDownloadJobState {
    fn clone(&self) -> (r: Self)
        ensures
            image_state_same(r, *self),
    {
        match self {
            ImageDownloadJobState::Ready => ImageDownloadJobState::Ready,
            ImageDownloadJobState::Running { total, success, failure } => {
                ImageDownloadJobState::Running { total: *total, success: *success, failure: *failure }
            },
            ImageDownloadJobState::Success { total } => ImageDownloadJobState::Success { total: *total },
            ImageDownloadJobState::PartialSuccess { total, success, failures } => {
                ImageDownloadJobState::PartialSuccess {
                    total: *total,
                    success: *success,
                    failures: clone_image_failures(failures),
                }
            },
            ImageDownloadJobState::Failed { error } => ImageDownloadJobState::Failed { error: error.clone() },
        }
    }
}

impl ImageDownloadJobState {
    /// Whether no download is under way: every state but `Running`.
    pub fn finished(&self) -> (r: bool)
        ensures
            r == !(*self is Running),
    {
        !matches!(self, ImageDownloadJobState::Running { .. })
    }

    /// A job that has started on `total` images, none done yet.
    pub fn new_running(total: u64) -> (r: Self)
        ensures
            r == (ImageDownloadJobState::Running { total, success: 0, failure: 0 }),
    {
        ImageDownloadJobState::Running { total, success: 0, failure: 0 }
    }

    /// A job that ended with some failures: the images that did not fail succeeded.
    pub fn new_partial(total: u64, failures: Vec<ImageDownloadFailure>) -> (r: Self)
        requires
            failures.len() <= total,
        ensures
            r matches ImageDownloadJobState::PartialSuccess { total: t, success, failures: f }
                && t == total && success == total - failures@.len() && f@ == failures@,
    {
        let n = failures.len() as u64;
        ImageDownloadJobState::PartialSuccess { total, success: total - n, failures }
    }

    /// One more image downloaded. Only a running job counts it; any other state is kept.
    pub fn adding_success(&self) -> (r: Self)
        requires
            self is Running ==> self->Running_success < u64::MAX,
        ensures
            match *self {
                ImageDownloadJobState::Running { total, success, failure } => r == (
                ImageDownloadJobState::Running { total, success: (success + 1) as u64, failure }),
                _ => image_state_same(r, *self),
            },
            *self is Running ==> r == image_counted(*self, seq![true]),
    {
        proof {
            reveal_with_fuel(image_counted, 2);
            assert(seq![true].drop_last() =~= Seq::<bool>::empty());
        }
        match self {
            ImageDownloadJobState::Running { total, success, failure } => ImageDownloadJobState::Running {
                total: *total,
                success: *success + 1,
                failure: *failure,
            },
            _ => self.clone(),
        }
    }

    /// One more image failed. Only a running job counts it; any other state is kept.
    pub fn adding_failure(&self) -> (r: Self)
        requires
            self is Running ==> self->Running_failure < u64::MAX,
        ensures
            match *self {
                ImageDownloadJobState::Running { total, success, failure } => r == (
                ImageDownloadJobState::Running { total, success, failure: (failure + 1) as u64 }),
                _ => image_state_same(r, *self),
            },
            *self is Running ==> r == image_counted(*self, seq![false]),
    {
        proof {
            reveal_with_fuel(image_counted, 2);
            assert(seq![false].drop_last() =~= Seq::<bool>::empty());
        }
        match self {
            ImageDownloadJobState::Running { total, success, failure } => ImageDownloadJobState::Running {
                total: *total,
                success: *success,
                failure: *failure + 1,
            },
            _ => self.clone(),
        }
    }
}

/// What the client is shown of the image download job.
#[derive(Debug)]
pub struct ImageDownloadJobStateResponse {
    pub state: GeneralJobState,
    pub total: u64,
    pub success: u64,
    pub failure: u64,
    pub error: Option<String>,
    pub failures: Option<Vec<ImageDownloadFailure>>,
}

/// The response shown for a state of the image download job: a ready job shows
/// nothing, a running one its counts, a finished one its totals, a job that ended
/// with failures lists them and counts as failed, a failed job shows its error.
pub open spec fn image_download_response(
    state: ImageDownloadJobState,
    r: ImageDownloadJobStateResponse,
) -> bool {
    match state {
        ImageDownloadJobState::Ready => r.state == GeneralJobState::Ready && r.total == 0 && r.success == 0
            && r.failure == 0 && r.error is None && r.failures is None,
        ImageDownloadJobState::Running { total, success, failure } => r.state == GeneralJobState::Running
            && r.total == total && r.success == success && r.failure == failure && r.error is None
            && r.failures is None,
        ImageDownloadJobState::Success { total } => r.state == GeneralJobState::Success && r.total == total
            && r.success == total && r.failure == 0 && r.error is None && r.failures is None,
        ImageDownloadJobState::PartialSuccess { total, success, failures } => r.state
            == GeneralJobState::Failed && r.total == total && r.success == success && r.failure
            == failures@.len() as u64 && r.error is None && (r.failures matches Some(f)
            && f@ == failures@),
        ImageDownloadJobState::Failed { error } => r.state == GeneralJobState::Failed && r.total == 0
            && r.success == 0 && r.failure == 0 && r.error == Some(error) && r.failures is None,
    }
}

/// What the client is shown of the image download job is the job's own progress: while
/// running, the images done and failed of all; at the end, the total, all of it
/// succeeded, or with failures, each failure and the rest succeeded.
pub proof fn law_image_job_shows_its_own_counts(state: ImageDownloadJobState, r: ImageDownloadJobStateResponse)
    requires
        image_download_response(state, r),
    ensures
        state matches ImageDownloadJobState::Running { total, success, failure } ==> r.state
            == GeneralJobState::Running && r.total == total && r.success == success && r.failure == failure,
        state matches ImageDownloadJobState::Success { total } ==> r.state == GeneralJobState::Success && r.total
            == total && r.success == total && r.failure == 0,
        state matches ImageDownloadJobState::PartialSuccess { total, success, failures } ==> r.state
            == GeneralJobState::Failed && r.total == total && r.success == success && r.failure == failures@.len() as u64
            && (r.failures matches Some(f) && f@ == failures@),
        state matches ImageDownloadJobState::Failed { error } ==> r.state == GeneralJobState::Failed && r.error
            == Some(error),
{
}

/// Once the image download job has ended, what the client is shown accounts for every
/// image: as many succeeded or failed as there were images to download.
pub proof fn law_ended_image_job_accounts_for_every_image(
    task_count: u64,
    failures: Seq<ImageDownloadFailure>,
    state: ImageDownloadJobState,
    r: ImageDownloadJobStateResponse,
)
    requires
        failures.len() <= task_count,
        failures.len() == 0 ==> state == (ImageDownloadJobState::Success { total: task_count }),
        failures.len() > 0 ==> (state matches ImageDownloadJobState::PartialSuccess { total, success, failures: f }
            && total == task_count && success == task_count - failures.len() && f@ == failures),
        image_download_response(state, r),
    ensures
        r.total == task_count,
        r.success + r.failure == r.total,
        r.failure == failures.len(),
{
}

impl ImageDownloadJobStateResponse {
    /// The response for a state of the image download job.
    pub fn from_state(state: &ImageDownloadJobState) -> (r: Self)
        ensures
            image_download_response(*state, r),
    {
        match state {
            ImageDownloadJobState::Ready => ImageDownloadJobStateResponse {
                state: GeneralJobState::Ready,
                total: 0,
                success: 0,
                failure: 0,
                error: None,
                failures: None,
            },
            ImageDownloadJobState::Running { total, success, failure } => ImageDownloadJobStateResponse {
                state: GeneralJobState::Running,
                total: *total,
                success: *success,
                failure: *failure,
                error: None,
                failures: None,
            },
            ImageDownloadJobState::Success { total } => ImageDownloadJobStateResponse {
                state: GeneralJobState::Success,
                total: *total,
                success: *total,
                failure: 0,
                error: None,
                failures: None,
            },
            ImageDownloadJobState::PartialSuccess { total, success, failures } => {
                ImageDownloadJobStateResponse {
                    state: GeneralJobState::Failed,
                    total: *total,
                    success: *success,
                    failure: failures.len() as u64,
                    error: None,
                    failures: Some(clone_image_failures(failures)),
                }
            },
            ImageDownloadJobState::Failed { error } => ImageDownloadJobStateResponse {
                state: GeneralJobState::Failed,
                total: 0,
                success: 0,
                failure: 0,
                error: Some(error.clone()),
                failures: None,
            },
        }
    }
}

// MARK: Feed update job

/// State of the update job of one feed.
#[derive(Debug)]
pub enum FeedUpdateJobState {
    Ready,
    Running { fetched: u64 },
    Success { fetched: u64 },
    Failed { error: String },
}

impl Clone for FeedUpdateJobState {
    fn clone(&self) -> (r: Self)
        ensures
            r == *self,
    {
        match self {
            FeedUpdateJobState::Ready => FeedUpdateJobState::Ready,
            FeedUpdateJobState::Running { fetched } => FeedUpdateJobState::Running { fetched: *fetched },
            FeedUpdateJobState::Success { fetched } => FeedUpdateJobState::Success { fetched: *fetched },
            FeedUpdateJobState::Failed { error } => FeedUpdateJobState::Failed { error: error.clone() },
        }
    }
}

impl FeedUpdateJobState {
    /// Whether the job has ended, well or not.
    pub fn finished(&self) -> (r: bool)
        ensures
            r == (*self is Success || *self is Failed),
    {
        matches!(self, FeedUpdateJobState::Success { .. } | FeedUpdateJobState::Failed { .. })
    }
}

/// What the client is shown of a feed update job.
#[derive(Debug)]
pub struct FeedUpdateJobStateResponse {
    pub community: String,
    pub feed_id: i32,
    pub fetched: u64,
    pub state: GeneralJobState,
    pub error: Option<String>,
}

/// The coarse state of a feed update job.
pub open spec fn feed_general_state(state: FeedUpdateJobState) -> GeneralJobState {
    match state {
        FeedUpdateJobState::Ready => GeneralJobState::Ready,
        FeedUpdateJobState::Running { .. } => GeneralJobState::Running,
        FeedUpdateJobState::Success { .. } => GeneralJobState::Success,
        FeedUpdateJobState::Failed { .. } => GeneralJobState::Failed,
    }
}

/// How many posts a feed update job has fetched so far, as shown.
pub open spec fn feed_fetched(state: FeedUpdateJobState) -> u64 {
    match state {
        FeedUpdateJobState::Running { fetched } => fetched,
        FeedUpdateJobState::Success { fetched } => fetched,
        _ => 0,
    }
}

/// What a feed update shows of its progress is the job's own count: a running job
/// shows how many posts it has fetched so far, a finished one how many it fetched in
/// all; a job that has not started or has failed shows none.
pub proof fn law_feed_update_shows_its_own_count(state: FeedUpdateJobState)
    ensures
        state matches FeedUpdateJobState::Running { fetched } ==> feed_fetched(state) == fetched,
        state matches FeedUpdateJobState::Success { fetched } ==> feed_fetched(state) == fetched,
        (state is Ready || state is Failed) ==> feed_fetched(state) == 0,
        state is Running <==> feed_general_state(state) == GeneralJobState::Running,
        state matches FeedUpdateJobState::Failed { error } ==> feed_error(state) == Some(error),
        !(state is Failed) ==> feed_error(state) is None,
{
}

/// The error message of a failed feed update job.
pub open spec fn feed_error(state: FeedUpdateJobState) -> Option<String> {
    match state {
        FeedUpdateJobState::Failed { error } => Some(error),
        _ => None,
    }
}

impl FeedUpdateJobStateResponse {
    pub fn new(id: &FeedIdentifier, state: &FeedUpdateJobState) -> (r: Self)
        ensures
            r.community == id.community,
            r.feed_id == id.feed_id,
            r.state == feed_general_state(*state),
            r.fetched == feed_fetched(*state),
            *state matches FeedUpdateJobState::Running { fetched } ==> r.fetched == fetched,
            *state matches FeedUpdateJobState::Success { fetched } ==> r.fetched == fetched,
            r.error == feed_error(*state),
    {
        FeedUpdateJobStateResponse {
            community: id.community.clone(),
            feed_id: id.feed_id,
            state: match state {
                FeedUpdateJobState::Ready => GeneralJobState::Ready,
                FeedUpdateJobState::Running { .. } => GeneralJobState::Running,
                FeedUpdateJobState::Success { .. } => GeneralJobState::Success,
                FeedUpdateJobState::Failed { .. } => GeneralJobState::Failed,
            },
            fetched: match state {
                FeedUpdateJobState::Running { fetched } => *fetched,
                FeedUpdateJobState::Success { fetched } => *fetched,
                _ => 0,
            },
            error: match state {
                FeedUpdateJobState::Failed { error } => Some(error.clone()),
                _ => None,
            },
        }
    }
}

// MARK: Gallery download job

/// Identifies a gallery download job by the gallery's ID.
#[derive(Debug, Clone, Copy, PartialEq, Eq, Hash, Structural)]
pub struct PandaGalleryID(pub i64);

/// A gallery download job: the gallery and its image tasks.
#[derive(Debug)]
pub struct PandaDownloadJob(pub PandaDownloadTask);

impl PandaDownloadJob {
    pub fn id(&self) -> (r: PandaGalleryID)
        ensures
            r == PandaGalleryID(self.0.gid),
    {
        PandaGalleryID(self.0.gid)
    }
}

/// An image of a gallery that could not be downloaded, and why.
#[derive(Debug)]
pub struct PandaImageDownloadFailure {
    pub gid: i64,
    pub index: i32,
    pub error: String,
}

impl Clone for PandaImageDownloadFailure {
    fn clone(&self) -> (r: Self)
        ensures
            r == *self,
    {
        PandaImageDownloadFailure { gid: self.gid, index: self.index, error: self.error.clone() }
    }
}

fn clone_panda_failures(v: &Vec<PandaImageDownloadFailure>) -> (r: Vec<PandaImageDownloadFailure>)
    ensures
        r@ == v@,
{
    let r = v.clone();
    assert(r@ =~= v@);
    r
}

/// State of a gallery download job: first its preview pages are fetched, then its images.
#[derive(Debug)]
pub enum PandaDownloadJobState {
    Ready,
    FetchingMetadata { total: i32, success: i32 },
    Running { total: i32, success: i32, failure: i32 },
    Success { total: i32 },
    PartialSuccess { total: i32, success: i32, failures: Vec<PandaImageDownloadFailure> },
    Failed { error: String },
}

/// Two gallery download job states are the same: same variant, same counts, same
/// failures in the same order, same error.
pub open spec fn panda_state_same(a: PandaDownloadJobState, b: PandaDownloadJobState) -> bool {
    match (a, b) {
        (PandaDownloadJobState::Ready, PandaDownloadJobState::Ready) => true,
        (
            PandaDownloadJobState::FetchingMetadata { total: t1, success: s1 },
            PandaDownloadJobState::FetchingMetadata { total: t2, success: s2 },
        ) => t1 == t2 && s1 == s2,
        (
            PandaDownloadJobState::Running { total: t1, success: s1, failure: f1 },
            PandaDownloadJobState::Running { total: t2, success: s2, failure: f2 },
        ) => t1 == t2 && s1 == s2 && f1 == f2,
        (PandaDownloadJobState::Success { total: t1 }, PandaDownloadJobState::Success { total: t2 }) => t1
            == t2,
        (
            PandaDownloadJobState::PartialSuccess { total: t1, success: s1, failures: f1 },
            PandaDownloadJobState::PartialSuccess { total: t2, success: s2, failures: f2 },
        ) => t1 == t2 && s1 == s2 && f1@ == f2@,
        (PandaDownloadJobState::Failed { error: e1 }, PandaDownloadJobState::Failed { error: e2 }) => e1
            == e2,
        _ => false,
    }
}

impl Clone for PandaDownloadJobState {
    fn clone(&self) -> (r: Self)
        ensures
            panda_state_same(r, *self),
    {
        match self {
            PandaDownloadJobState::Ready => PandaDownloadJobState::Ready,
            PandaDownloadJobState::FetchingMetadata { total, success } => {
                PandaDownloadJobState::FetchingMetadata { total: *total, success: *success }
            },
            PandaDownloadJobState::Running { total, success, failure } => {
                PandaDownloadJobState::Running { total: *total, success: *success, failure: *failure }
            },
            PandaDownloadJobState::Success { total } => PandaDownloadJobState::Success { total: *total },
            PandaDownloadJobState::PartialSuccess { total, success, failures } => {
                PandaDownloadJobState::PartialSuccess {
                    total: *total,
                    success: *success,
                    failures: clone_panda_failures(failures),
                }
            },
            PandaDownloadJobState::Failed { error } => PandaDownloadJobState::Failed { error: error.clone() },
        }
    }
}

/// How many of the image tasks are already downloaded.
pub open spec fn count_downloaded(tasks: Seq<PandaImageTask>) -> nat
    decreases tasks.len(),
{
    if tasks.len() == 0 {
        0
    } else {
        count_downloaded(tasks.drop_last()) + if tasks.last().downloaded {
            1nat
        } else {
            0nat
        }
    }
}

impl PandaDownloadJobState {
    /// Whether the job has ended: succeeded, partly succeeded or failed.
    pub fn finished(&self) -> (r: bool)
        ensures
            r == (*self is Success || *self is Failed || *self is PartialSuccess),
    {
        matches!(
            self,
            PandaDownloadJobState::Success { .. } | PandaDownloadJobState::Failed { .. }
                | PandaDownloadJobState::PartialSuccess { .. }
        )
    }

    /// A job that starts downloading: every task counts, those already downloaded as successes.
    pub fn new_running(tasks: &[PandaImageTask]) -> (r: Self)
        ensures
            r == (PandaDownloadJobState::Running {
                total: tasks@.len() as i32,
                success: count_downloaded(tasks@) as i32,
                failure: 0,
            }),
    {
        let mut count: usize = 0;
        let mut i: usize = 0;
        while i < tasks.len()
            invariant
                i <= tasks@.len(),
                count <= i,
                count == count_downloaded(tasks@.take(i as int)),
            decreases tasks@.len() - i,
        {
            assert(tasks@.take(i + 1).drop_last() =~= tasks@.take(i as int));
            if tasks[i].downloaded {
                count += 1;
            }
            i += 1;
        }
        assert(tasks@.take(tasks@.len() as int) =~= tasks@);
        PandaDownloadJobState::Running { total: tasks.len() as i32, success: count as i32, failure: 0 }
    }

    /// A job that ended with some failures: the images that did not fail succeeded.
    pub fn new_partial(total: i32, failures: Vec<PandaImageDownloadFailure>) -> (r: Self)
        requires
            i32::MIN <= total - (failures@.len() as i32) <= i32::MAX,
        ensures
            r matches PandaDownloadJobState::PartialSuccess { total: t, success, failures: f }
                && t == total && success == total - (failures@.len() as i32) && f@ == failures@,
    {
        let n = failures.len() as i32;
        PandaDownloadJobState::PartialSuccess { total, success: total - n, failures }
    }

    /// One more image downloaded. Only a job that is downloading counts it; any other
    /// state is kept.
    pub fn adding_success(&self) -> (r: Self)
        requires
            self is Running ==> self->Running_success < i32::MAX,
        ensures
            match *self {
                PandaDownloadJobState::Running { total, success, failure } => r == (
                PandaDownloadJobState::Running { total, success: (success + 1) as i32, failure }),
                _ => panda_state_same(r, *self),
            },
            *self is Running ==> r == panda_counted(*self, seq![true]),
    {
        proof {
            reveal_with_fuel(panda_counted, 2);
            assert(seq![true].drop_last() =~= Seq::<bool>::empty());
        }
        match self {
            PandaDownloadJobState::Running { total, success, failure } => PandaDownloadJobState::Running {
                total: *total,
                success: *success + 1,
                failure: *failure,
            },
            _ => self.clone(),
        }
    }

    /// One more image failed. Only a job that is downloading counts it; any other
    /// state is kept.
    pub fn adding_failure(&self) -> (r: Self)
        requires
            self is Running ==> self->Running_failure < i32::MAX,
        ensures
            match *self {
                PandaDownloadJobState::Running { total, success, failure } => r == (
                PandaDownloadJobState::Running { total, success, failure: (failure + 1) as i32 }),
                _ => panda_state_same(r, *self),
            },
            *self is Running ==> r == panda_counted(*self, seq![false]),
    {
        proof {
            reveal_with_fuel(panda_counted, 2);
            assert(seq![false].drop_last() =~= Seq::<bool>::empty());
        }
        match self {
            PandaDownloadJobState::Running { total, success, failure } => PandaDownloadJobState::Running {
                total: *total,
                success: *success,
                failure: *failure + 1,
            },
            _ => self.clone(),
        }
    }
}

/// What the client is shown of a gallery download job.
#[derive(Debug)]
pub struct PandaDownloadJobStateResponse {
    pub gid: i64,
    pub title: String,
    pub state: GeneralJobState,
    pub metadata_fetched: bool,
    pub total_pages: i32,
    pub success_pages: i32,
    pub total_images: i32,
    pub success_images: i32,
    pub failure_images: i32,
    pub failures: Option<Vec<PandaImageDownloadFailure>>,
    pub error: Option<String>,
}

/// The response shown for a state of a gallery download job, apart from the gallery's
/// ID and title: page counts while previews are fetched, image counts once images are
/// downloaded, the failures of a job that partly failed, the error of a failed one.
pub open spec fn panda_download_response(state: PandaDownloadJobState, r: PandaDownloadJobStateResponse) -> bool {
    match state {
        PandaDownloadJobState::Ready => r.state == GeneralJobState::Ready && !r.metadata_fetched
            && r.total_pages == 0 && r.success_pages == 0 && r.total_images == 0 && r.success_images == 0
            && r.failure_images == 0 && r.failures is None && r.error is None,
        PandaDownloadJobState::FetchingMetadata { total, success } => r.state == GeneralJobState::Running
            && !r.metadata_fetched && r.total_pages == total && r.success_pages == success
            && r.total_images == 0 && r.success_images == 0 && r.failure_images == 0 && r.failures is None
            && r.error is None,
        PandaDownloadJobState::Running { total, success, failure } => r.state == GeneralJobState::Running
            && r.metadata_fetched && r.total_pages == 0 && r.success_pages == 0 && r.total_images == total
            && r.success_images == success && r.failure_images == failure && r.failures is None
            && r.error is None,
        PandaDownloadJobState::Success { total } => r.state == GeneralJobState::Success
            && r.metadata_fetched && r.total_pages == 0 && r.success_pages == 0 && r.total_images == total
            && r.success_images == 0 && r.failure_images == 0 && r.failures is None && r.error is None,
        PandaDownloadJobState::PartialSuccess { total, success, failures } => r.state
            == GeneralJobState::Failed && r.metadata_fetched && r.total_pages == 0 && r.success_pages == 0
            && r.total_images == total && r.success_images == success && r.failure_images
            == failures@.len() as i32 && (r.failures matches Some(f) && f@ == failures@) && r.error is None,
        PandaDownloadJobState::Failed { error } => r.state == GeneralJobState::Failed && !r.metadata_fetched
            && r.total_pages == 0 && r.success_pages == 0 && r.total_images == 0 && r.success_images == 0
            && r.failure_images == 0 && r.failures is None && r.error == Some(error),
    }
}

/// What the client is shown of a gallery download is the job's own progress: while
/// previews are fetched, the pages fetched of all; while images download, the images
/// done and failed of all; at the end, the total, and with failures, each failure.
pub proof fn law_gallery_job_shows_its_own_counts(state: PandaDownloadJobState, r: PandaDownloadJobStateResponse)
    requires
        panda_download_response(state, r),
    ensures
        state matches PandaDownloadJobState::FetchingMetadata { total, success } ==> r.state
            == GeneralJobState::Running && !r.metadata_fetched && r.total_pages == total && r.success_pages == success,
        state matches PandaDownloadJobState::Running { total, success, failure } ==> r.state
            == GeneralJobState::Running && r.metadata_fetched && r.total_images == total && r.success_images == success
            && r.failure_images == failure,
        state matches PandaDownloadJobState::Success { total } ==> r.state == GeneralJobState::Success
            && r.total_images == total,
        state matches PandaDownloadJobState::PartialSuccess { total, success, failures } ==> r.state
            == GeneralJobState::Failed && r.total_images == total && r.success_images == success && r.failure_images
            == failures@.len() as i32 && (r.failures matches Some(f) && f@ == failures@),
        state matches PandaDownloadJobState::Failed { error } ==> r.state == GeneralJobState::Failed && r.error
            == Some(error),
{
}

impl PandaDownloadJobStateResponse {
    pub fn new(id: &PandaGalleryID, title: String, state: &PandaDownloadJobState) -> (r: Self)
        ensures
            r.gid == id.0,
            r.title == title,
            panda_download_response(*state, r),
    {
        let mut result = PandaDownloadJobStateResponse {
            gid: 0,
            title: String::new(),
            state: GeneralJobState::Ready,
            metadata_fetched: false,
            total_pages: 0,
            success_pages: 0,
            total_images: 0,
            success_images: 0,
            failure_images: 0,
            failures: None,
            error: None,
        };
        match state {
            PandaDownloadJobState::Ready => {},
            PandaDownloadJobState::FetchingMetadata { total, success } => {
                result.state = GeneralJobState::Running;
                result.total_pages = *total;
                result.success_pages = *success;
            },
            PandaDownloadJobState::Running { total, success, failure } => {
                result.state = GeneralJobState::Running;
                result.metadata_fetched = true;
                result.total_images = *total;
                result.success_images = *success;
                result.failure_images = *failure;
            },
            PandaDownloadJobState::Success { total } => {
                result.state = GeneralJobState::Success;
                result.metadata_fetched = true;
                result.total_images = *total;
            },
            PandaDownloadJobState::PartialSuccess { total, success, failures } => {
                result.state = GeneralJobState::Failed;
                result.metadata_fetched = true;
                result.total_images = *total;
                result.success_images = *success;
                result.failure_images = failures.len() as i32;
                result.failures = Some(clone_panda_failures(failures));
            },
            PandaDownloadJobState::Failed { error } => {
                result.state = GeneralJobState::Failed;
                result.error = Some(error.clone());
            },
        }
        result.gid = id.0;
        result.title = title;
        result
    }
}

/// The state of every background job, as the client sees it.
#[derive(Debug)]
pub struct JobsStateResponse {
    pub feed_update_jobs: Vec<FeedUpdateJobStateResponse>,
    pub image_download_job: ImageDownloadJobStateResponse,
    pub panda_download_jobs: Vec<PandaDownloadJobStateResponse>,
}

// MARK: Preview pages of a gallery

/// How many previews a gallery page is assumed to hold before one has been fetched.
pub const GUESSED_PAGE_SIZE: i32 = 20;

/// The quotient `a / b` rounded up to an integer (`b` not zero): the magnitude is
/// rounded up where the quotient is positive, down where it is negative.
pub open spec fn ceil_quotient(a: int, b: int) -> int {
    let m = if a >= 0 { a } else { -a };
    let d = if b >= 0 { b } else { -b };
    if (a >= 0) == (b > 0) {
        (m + d - 1) / d
    } else {
        -(m / d)
    }
}

/// The page count guessed from the media count and a page size: the quotient rounded
/// up, kept within `i32`. A page size of zero gives the largest `i32` for a positive
/// media count, the smallest for a negative one and zero for none (the media count
/// divided as a float, rounded up and converted back).
pub open spec fn guessed_page_count_spec(media_count: int, page_size: int) -> int {
    if page_size == 0 {
        if media_count > 0 {
            i32::MAX as int
        } else if media_count < 0 {
            i32::MIN as int
        } else {
            0
        }
    } else {
        let q = ceil_quotient(media_count, page_size);
        if q > i32::MAX {
            i32::MAX as int
        } else if q < i32::MIN {
            i32::MIN as int
        } else {
            q
        }
    }
}

/// The number of preview pages a gallery of `media_count` images is guessed to have.
pub fn guessed_page_count(media_count: i32, page_size: i32) -> (r: i32)
    ensures
        r == guessed_page_count_spec(media_count as int, page_size as int),
{
    if page_size == 0 {
        if media_count > 0 {
            return i32::MAX;
        } else if media_count < 0 {
            return i32::MIN;
        } else {
            return 0;
        }
    }
    let m: u64 = if media_count >= 0 {
        media_count as u64
    } else {
        (-(media_count as i64)) as u64
    };
    let d: u64 = if page_size >= 0 {
        page_size as u64
    } else {
        (-(page_size as i64)) as u64
    };
    let num: u64 = m + d - 1;
    assert(num / d <= num) by (nonlinear_arith)
        requires
            d >= 1,
    ;
    assert(m / d <= m) by (nonlinear_arith)
        requires
            d >= 1,
    ;
    let q: i64 = if (media_count >= 0) == (page_size > 0) {
        (num / d) as i64
    } else {
        -((m / d) as i64)
    };
    if q > i32::MAX as i64 {
        i32::MAX
    } else if q < i32::MIN as i64 {
        i32::MIN
    } else {
        q as i32
    }
}

/// Whether page `page` (of `page_size` previews) holds an image of the gallery, below
/// `media_count`, whose preview is not yet known.
pub open spec fn page_has_missing(page: int, page_size: int, media_count: int, existing: Set<i32>) -> bool {
    exists|j: i32|
        page * page_size <= j < (page + 1) * page_size && 0 <= j < media_count && !#[trigger] existing.contains(j)
}

/// The page size used: the known one, or the guessed one.
pub open spec fn effective_page_size(page_size: Option<i32>) -> int {
    match page_size {
        Some(s) => s as int,
        None => GUESSED_PAGE_SIZE as int,
    }
}

/// The page count used: the known one, or the one guessed from the media count.
pub open spec fn effective_page_count(media_count: i32, page_count: Option<i32>, page_size: Option<i32>) -> int {
    match page_count {
        Some(c) => c as int,
        None => guessed_page_count_spec(media_count as int, effective_page_size(page_size)),
    }
}

/// Once the preview of every image below the media count is known, no page is left
/// to fetch.
pub proof fn law_no_page_left_when_all_known(page_size: int, media_count: int, existing: Set<i32>)
    requires
        forall|j: i32| 0 <= j < media_count ==> #[trigger] existing.contains(j),
    ensures
        forall|page: int| !#[trigger] page_has_missing(page, page_size, media_count, existing),
{
}

/// While the preview of some image is missing, the page that holds it is still to
/// fetch, as long as the pages cover the whole gallery.
pub proof fn law_missing_preview_keeps_its_page(
    media_count: i32,
    page_count: Option<i32>,
    page_size: Option<i32>,
    existing: Set<i32>,
    j: i32,
)
    requires
        effective_page_size(page_size) > 0,
        effective_page_count(media_count, page_count, page_size) * effective_page_size(page_size) >= media_count,
        0 <= j < media_count,
        !existing.contains(j),
    ensures
        exists|p: i32|
            0 <= p < effective_page_count(media_count, page_count, page_size) && page_has_missing(
                p as int,
                effective_page_size(page_size),
                media_count as int,
                existing,
            ),
{
    let ps = effective_page_size(page_size);
    let pc = effective_page_count(media_count, page_count, page_size);
    let jj: int = j as int;
    let p: int = jj / ps;
    assert(p * ps <= jj < (p + 1) * ps) by (nonlinear_arith)
        requires
            ps > 0,
            jj >= 0,
            p == jj / ps,
    ;
    assert(0 <= p <= jj) by (nonlinear_arith)
        requires
            ps > 0,
            jj >= 0,
            p == jj / ps,
    ;
    let mc: int = media_count as int;
    assert(p < pc) by (nonlinear_arith)
        requires
            ps > 0,
            p * ps <= jj,
            jj < mc,
            pc * ps >= mc,
    ;
    assert(page_has_missing(p, ps, media_count as int, existing));
    assert(page_has_missing((p as i32) as int, ps, media_count as int, existing));
}

/// The preview pages still to fetch, last page first: those among the pages of the
/// gallery that hold an image whose preview is not known. The pages come in strictly
/// decreasing order, so that the next page to fetch is the one popped from the end.
pub fn pages_to_fetch(
    media_count: i32,
    page_count: Option<i32>,
    page_size: Option<i32>,
    existing_indices: &HashSet<i32>,
) -> (r: Vec<i32>)
    requires
        effective_page_count(media_count, page_count, page_size) <= 0 || i32::MIN
            <= effective_page_count(media_count, page_count, page_size) * effective_page_size(page_size)
            <= i32::MAX,
    ensures
        forall|a: int, b: int| 0 <= a < b < r@.len() ==> r@[a] > r@[b],
        forall|p: i32|
            r@.contains(p) <==> (0 <= p < effective_page_count(media_count, page_count, page_size)
                && page_has_missing(
                p as int,
                effective_page_size(page_size),
                media_count as int,
                existing_indices@,
            )),
{
    broadcast use vstd::std_specs::hash::group_hash_axioms;

    let page_size: i32 = match page_size {
        Some(s) => s,
        None => GUESSED_PAGE_SIZE,
    };
    let page_count: i32 = match page_count {
        Some(c) => c,
        None => guessed_page_count(media_count, page_size),
    };
    let ghost ps = page_size as int;
    let ghost pc = page_count as int;
    let mut result: Vec<i32> = Vec::new();
    let mut i: i32 = if page_count > 0 {
        page_count
    } else {
        0
    };
    while i > 0
        invariant
            0 <= i,
            i <= pc || pc <= 0,
            pc > 0 ==> i <= pc,
            pc <= 0 ==> i == 0,
            ps == page_size,
            pc == page_count,
            pc <= 0 || i32::MIN <= pc * ps <= i32::MAX,
            forall|a: int, b: int| 0 <= a < b < result@.len() ==> result@[a] > result@[b],
            forall|a: int| 0 <= a < result@.len() ==> result@[a] >= i,
            forall|p: i32|
                result@.contains(p) <==> (i <= p < pc && page_has_missing(
                    p as int,
                    ps,
                    media_count as int,
                    existing_indices@,
                )),
        decreases i,
    {
        let page = i - 1;
        assert(0 <= page * ps <= pc * ps || pc * ps <= page * ps <= 0) by (nonlinear_arith)
            requires
                0 <= page < pc,
        ;
        assert(0 <= (page + 1) * ps <= pc * ps || pc * ps <= (page + 1) * ps <= 0) by (nonlinear_arith)
            requires
                0 <= page < pc,
        ;
        let start: i32 = page * page_size;
        let end: i32 = (page + 1) * page_size;
        let lo: i32 = if start > 0 {
            start
        } else {
            0
        };
        let hi: i32 = if end < media_count {
            end
        } else {
            media_count
        };
        let mut found = false;
        let mut j: i32 = lo;
        while j < hi && !found
            invariant
                lo <= j,
                j <= hi || hi <= lo,
                hi <= lo ==> j == lo,
                lo == (if start > 0 { start } else { 0 }),
                hi == (if end < media_count { end } else { media_count }),
                found ==> page_has_missing(page as int, ps, media_count as int, existing_indices@),
                !found ==> forall|k: i32| lo <= k < j ==> #[trigger] existing_indices@.contains(k),
                start == page * ps,
                end == (page + 1) * ps,
            decreases hi - j, if found { 0int } else { 1int },
        {
            if !existing_indices.contains(&j) {
                found = true;
                assert(page * ps <= j < (page + 1) * ps && 0 <= j < media_count && !existing_indices@.contains(j));
            } else {
                j += 1;
            }
        }
        if !found {
            assert forall|k: i32|
                page * ps <= k < (page + 1) * ps && 0 <= k < media_count implies #[trigger] existing_indices@.contains(
                k,
            ) by {
                assert(lo <= k < hi);
            }
            assert(!page_has_missing(page as int, ps, media_count as int, existing_indices@));
        }
        let ghost before = result@;
        if found {
            result.push(page);
            assert(result@ == before.push(page));
            assert forall|p: i32|
                result@.contains(p) <==> (page <= p < pc && page_has_missing(
                    p as int,
                    ps,
                    media_count as int,
                    existing_indices@,
                )) by {
                if result@.contains(p) {
                    let k = choose|k: int| 0 <= k < result@.len() && result@[k] == p;
                    if k < before.len() {
                        assert(before.contains(p));
                    }
                }
                if p == page && page_has_missing(p as int, ps, media_count as int, existing_indices@) {
                    assert(result@[result@.len() - 1] == p);
                }
                if i <= p < pc && page_has_missing(p as int, ps, media_count as int, existing_indices@) {
                    assert(before.contains(p));
                    let k = choose|k: int| 0 <= k < before.len() && before[k] == p;
                    assert(result@[k] == p);
                }
            }
        }
        i = page;
    }
    result
}

// MARK: Starting jobs

/// What to do with a request to start a job, given what is known of the job so far.
#[derive(Debug, Clone, Copy, PartialEq, Eq, Structural)]
pub enum JobAdmission {
    /// The job has never run: set up its state, then queue it.
    Start,
    /// The job ran and ended: reset its state to ready, then queue it.
    Restart,
    /// The job is under way: leave it alone.
    AlreadyRunning,
}

/// Whether a feed update job may be queued: always when it never ran, again once it
/// has ended, never while it is ready or running.
pub fn feed_update_admission(state: Option<&FeedUpdateJobState>) -> (r: JobAdmission)
    ensures
        r == (match state {
            None => JobAdmission::Start,
            Some(s) => if *s is Success || *s is Failed {
                JobAdmission::Restart
            } else {
                JobAdmission::AlreadyRunning
            },
        }),
{
    match state {
        None => JobAdmission::Start,
        Some(s) => if s.finished() {
            JobAdmission::Restart
        } else {
            JobAdmission::AlreadyRunning
        },
    }
}

/// Whether a gallery download job may be queued: always when it never ran, again once
/// it has ended, never while it is ready, fetching previews or downloading.
pub fn panda_download_admission(state: Option<&PandaDownloadJobState>) -> (r: JobAdmission)
    ensures
        r == (match state {
            None => JobAdmission::Start,
            Some(s) => if *s is Success || *s is Failed || *s is PartialSuccess {
                JobAdmission::Restart
            } else {
                JobAdmission::AlreadyRunning
            },
        }),
{
    match state {
        None => JobAdmission::Start,
        Some(s) => if s.finished() {
            JobAdmission::Restart
        } else {
            JobAdmission::AlreadyRunning
        },
    }
}

// MARK: Running jobs

/// Where a feed update job stands after one more batch of posts was fetched and saved.
#[derive(Debug)]
pub struct FeedUpdateStep {
    pub fetched: u64,
    pub state: FeedUpdateJobState,
    pub done: bool,
}

/// Counts a saved batch of `post_count` posts into a feed update job that had fetched
/// `fetched` posts; the job is done once a batch says to stop.
pub fn feed_update_step(fetched: u64, post_count: u64, should_stop: bool) -> (r: FeedUpdateStep)
    requires
        fetched + post_count <= u64::MAX,
    ensures
        r.fetched == fetched + post_count,
        r.state == (FeedUpdateJobState::Running { fetched: r.fetched }),
        r.done == should_stop,
{
    let total = fetched + post_count;
    FeedUpdateStep { fetched: total, state: FeedUpdateJobState::Running { fetched: total }, done: should_stop }
}

/// The failures of a run of downloads: for each task whose download gave an error, in
/// task order, its URL and the error. Tasks and outcomes are paired up to the shorter.
pub open spec fn image_failures_spec(urls: Seq<String>, errors: Seq<Option<String>>) -> Seq<
    ImageDownloadFailure,
>
    decreases urls.len(),
{
    if urls.len() == 0 || errors.len() == 0 {
        Seq::empty()
    } else {
        let rest = image_failures_spec(urls.drop_first(), errors.drop_first());
        match errors[0] {
            Some(e) => seq![ImageDownloadFailure { url: urls[0], error: e }] + rest,
            None => rest,
        }
    }
}

/// Collects the failures of the image download job from the task URLs and outcomes.
pub fn image_download_failures(urls: &Vec<String>, errors: &Vec<Option<String>>) -> (r: Vec<
    ImageDownloadFailure,
>)
    ensures
        r@ == image_failures_spec(urls@, errors@),
{
    let n = if urls.len() < errors.len() {
        urls.len()
    } else {
        errors.len()
    };
    let mut out: Vec<ImageDownloadFailure> = Vec::new();
    let mut i: usize = 0;
    assert(urls@.skip(0) =~= urls@);
    assert(errors@.skip(0) =~= errors@);
    assert(out@ + image_failures_spec(urls@, errors@) =~= image_failures_spec(urls@, errors@));
    while i < n
        invariant
            n <= urls@.len(),
            n <= errors@.len(),
            n == urls@.len() || n == errors@.len(),
            i <= n,
            image_failures_spec(urls@, errors@) == out@ + image_failures_spec(
                urls@.skip(i as int),
                errors@.skip(i as int),
            ),
        decreases n - i,
    {
        let ghost before = out@;
        assert(urls@.skip(i as int).drop_first() =~= urls@.skip(i + 1));
        assert(errors@.skip(i as int).drop_first() =~= errors@.skip(i + 1));
        match &errors[i] {
            Some(e) => {
                out.push(ImageDownloadFailure { url: urls[i].clone(), error: e.clone() });
                assert(out@ =~= before + seq![ImageDownloadFailure { url: urls@[i as int], error: *e }]);
            },
            None => {},
        }
        i += 1;
    }
    assert(urls@.skip(n as int).len() == 0 || errors@.skip(n as int).len() == 0);
    assert(out@ + Seq::<ImageDownloadFailure>::empty() =~= out@);
    out
}

/// The final state of an image download job over `task_count` images: success when
/// nothing failed, partial success otherwise.
pub fn image_download_outcome(task_count: u64, failures: Vec<ImageDownloadFailure>) -> (r:
    ImageDownloadJobState)
    requires
        failures@.len() <= task_count,
    ensures
        failures@.len() == 0 ==> r == (ImageDownloadJobState::Success { total: task_count }),
        failures@.len() > 0 ==> (r matches ImageDownloadJobState::PartialSuccess {
            total,
            success,
            failures: f,
        } && total == task_count && success == task_count - failures@.len() && f@ == failures@),
{
    if failures.len() == 0 {
        ImageDownloadJobState::Success { total: task_count }
    } else {
        ImageDownloadJobState::new_partial(task_count, failures)
    }
}

/// The image tasks of a gallery that still need downloading, in order.
pub open spec fn pending_tasks_spec(tasks: Seq<PandaImageTask>) -> Seq<PandaImageTask> {
    tasks.filter(|t: PandaImageTask| !t.downloaded)
}

/// The image tasks of a gallery that still need downloading, in order.
pub fn pending_image_tasks(tasks: &Vec<PandaImageTask>) -> (r: Vec<PandaImageTask>)
    ensures
        r@ == pending_tasks_spec(tasks@),
{
    let mut out: Vec<PandaImageTask> = Vec::new();
    let mut i: usize = 0;
    while i < tasks.len()
        invariant
            i <= tasks@.len(),
            out@ == pending_tasks_spec(tasks@.take(i as int)),
        decreases tasks@.len() - i,
    {
        reveal_with_fuel(Seq::<_>::filter, 1);
        assert(tasks@.take(i + 1).drop_last() =~= tasks@.take(i as int));
        if !tasks[i].downloaded {
            out.push(tasks[i].clone());
        }
        i += 1;
    }
    assert(tasks@.take(tasks@.len() as int) =~= tasks@);
    out
}

/// The tasks a gallery download works on are exactly its tasks not yet downloaded: each
/// one is a task of the gallery and not downloaded, every task not downloaded is among
/// them, and they keep the tasks' order.
pub proof fn law_pending_tasks_are_the_undownloaded(tasks: Seq<PandaImageTask>)
    ensures
        forall|k: int|
            0 <= k < pending_tasks_spec(tasks).len() ==> !(#[trigger] pending_tasks_spec(tasks)[k]).downloaded
                && tasks.contains(pending_tasks_spec(tasks)[k]),
        forall|k: int| 0 <= k < tasks.len() && !(#[trigger] tasks[k]).downloaded ==> pending_tasks_spec(tasks).contains(tasks[k]),
        pending_tasks_spec(tasks).len() <= tasks.len(),
{
    broadcast use vstd::seq_lib::group_filter_ensures;

    let pred = |t: PandaImageTask| !t.downloaded;
    assert forall|k: int| 0 <= k < pending_tasks_spec(tasks).len() implies !(#[trigger] pending_tasks_spec(
        tasks,
    )[k]).downloaded && tasks.contains(pending_tasks_spec(tasks)[k]) by {
        assert(tasks.filter(pred).contains(tasks.filter(pred)[k]));
        tasks.lemma_filter_contains_rev(pred, tasks.filter(pred)[k]);
    }
}

/// The failures of a gallery download: for each pending task whose download gave an
/// error, in task order, the gallery, the image index and the error. Tasks and
/// outcomes are paired up to the shorter.
pub open spec fn panda_failures_spec(tasks: Seq<PandaImageTask>, errors: Seq<Option<String>>) -> Seq<
    PandaImageDownloadFailure,
>
    decreases tasks.len(),
{
    if tasks.len() == 0 || errors.len() == 0 {
        Seq::empty()
    } else {
        let rest = panda_failures_spec(tasks.drop_first(), errors.drop_first());
        match errors[0] {
            Some(e) => seq![PandaImageDownloadFailure { gid: tasks[0].gid, index: tasks[0].index, error: e }]
                + rest,
            None => rest,
        }
    }
}

/// Collects the failures of a gallery download from its pending tasks and outcomes.
pub fn panda_download_failures(tasks: &Vec<PandaImageTask>, errors: &Vec<Option<String>>) -> (r: Vec<
    PandaImageDownloadFailure,
>)
    ensures
        r@ == panda_failures_spec(tasks@, errors@),
{
    let n = if tasks.len() < errors.len() {
        tasks.len()
    } else {
        errors.len()
    };
    let mut out: Vec<PandaImageDownloadFailure> = Vec::new();
    let mut i: usize = 0;
    assert(tasks@.skip(0) =~= tasks@);
    assert(errors@.skip(0) =~= errors@);
    assert(out@ + panda_failures_spec(tasks@, errors@) =~= panda_failures_spec(tasks@, errors@));
    while i < n
        invariant
            n <= tasks@.len(),
            n <= errors@.len(),
            n == tasks@.len() || n == errors@.len(),
            i <= n,
            panda_failures_spec(tasks@, errors@) == out@ + panda_failures_spec(
                tasks@.skip(i as int),
                errors@.skip(i as int),
            ),
        decreases n - i,
    {
        let ghost before = out@;
        assert(tasks@.skip(i as int).drop_first() =~= tasks@.skip(i + 1));
        assert(errors@.skip(i as int).drop_first() =~= errors@.skip(i + 1));
        match &errors[i] {
            Some(e) => {
                out.push(PandaImageDownloadFailure { gid: tasks[i].gid, index: tasks[i].index, error: e.clone() });
                assert(out@ =~= before + seq![
                    PandaImageDownloadFailure { gid: tasks@[i as int].gid, index: tasks@[i as int].index, error: *e },
                ]);
            },
            None => {},
        }
        i += 1;
    }
    assert(tasks@.skip(n as int).len() == 0 || errors@.skip(n as int).len() == 0);
    assert(out@ + Seq::<PandaImageDownloadFailure>::empty() =~= out@);
    out
}

/// The final state of a gallery download job over `media_count` images: success when
/// nothing failed, partial success otherwise.
pub fn panda_download_outcome(media_count: i32, failures: Vec<PandaImageDownloadFailure>) -> (r:
    PandaDownloadJobState)
    requires
        i32::MIN <= media_count - (failures@.len() as i32) <= i32::MAX,
    ensures
        failures@.len() == 0 ==> r == (PandaDownloadJobState::Success { total: media_count }),
        failures@.len() > 0 ==> (r matches PandaDownloadJobState::PartialSuccess {
            total,
            success,
            failures: f,
        } && total == media_count && success == media_count - (failures@.len() as i32) && f@
            == failures@),
{
    if failures.len() == 0 {
        PandaDownloadJobState::Success { total: media_count }
    } else {
        PandaDownloadJobState::new_partial(media_count, failures)
    }
}

/// The state shown while previews are fetched: the known page count (or the guessed
/// one), and how many of those pages are done.
pub fn metadata_progress(page_count: Option<i32>, guessed_count: i32, remaining_pages: usize) -> (r:
    PandaDownloadJobState)
    requires
        i32::MIN <= (match page_count {
            Some(c) => c,
            None => guessed_count,
        }) - (remaining_pages as i32) <= i32::MAX,
    ensures
        ({
            let total = match page_count {
                Some(c) => c,
                None => guessed_count,
            };
            r == (PandaDownloadJobState::FetchingMetadata {
                total,
                success: (total - (remaining_pages as i32)) as i32,
            })
        }),
{
    let total = match page_count {
        Some(c) => c,
        None => guessed_count,
    };
    PandaDownloadJobState::FetchingMetadata { total, success: total - remaining_pages as i32 }
}

/// The state a gallery download job reaches once the outcomes of its images (`true`:
/// downloaded, `false`: failed) are counted in, in order, as `adding_success` and
/// `adding_failure` count them.
pub open spec fn panda_counted(state: PandaDownloadJobState, outcomes: Seq<bool>) -> PandaDownloadJobState
    decreases outcomes.len(),
{
    if outcomes.len() == 0 {
        state
    } else {
        let before = panda_counted(state, outcomes.drop_last());
        match before {
            PandaDownloadJobState::Running { total, success, failure } => if outcomes.last() {
                PandaDownloadJobState::Running { total, success: (success + 1) as i32, failure }
            } else {
                PandaDownloadJobState::Running { total, success, failure: (failure + 1) as i32 }
            },
            _ => before,
        }
    }
}

proof fn lemma_downloaded_plus_pending(tasks: Seq<PandaImageTask>)
    ensures
        count_downloaded(tasks) + pending_tasks_spec(tasks).len() == tasks.len(),
    decreases tasks.len(),
{
    reveal_with_fuel(Seq::<_>::filter, 1);
    if tasks.len() > 0 {
        lemma_downloaded_plus_pending(tasks.drop_last());
    }
}

proof fn lemma_counted_running(total: i32, success: i32, failure: i32, outcomes: Seq<bool>)
    requires
        0 <= success,
        0 <= failure,
        success + failure + outcomes.len() <= total,
    ensures
        panda_counted(PandaDownloadJobState::Running { total, success, failure }, outcomes) matches PandaDownloadJobState::Running {
            total: t,
            success: s,
            failure: f,
        } && t == total && s >= success && f >= failure && s + f == success + failure + outcomes.len(),
    decreases outcomes.len(),
{
    if outcomes.len() > 0 {
        lemma_counted_running(total, success, failure, outcomes.drop_last());
    }
}

/// A gallery download job counts every image exactly once: it starts with the images
/// already downloaded as successes and downloads the others (`pending_image_tasks`);
/// while their outcomes come in, successes and failures together never exceed the
/// total, and once every pending image has reported they make up the total.
pub proof fn law_gallery_job_counts_every_image(tasks: Seq<PandaImageTask>, outcomes: Seq<bool>)
    requires
        tasks.len() <= i32::MAX,
        outcomes.len() <= pending_tasks_spec(tasks).len(),
    ensures
        panda_counted(
            PandaDownloadJobState::Running {
                total: tasks.len() as i32,
                success: count_downloaded(tasks) as i32,
                failure: 0,
            },
            outcomes,
        ) matches PandaDownloadJobState::Running { total, success, failure } && total == tasks.len()
            && success + failure <= total && (outcomes.len() == pending_tasks_spec(tasks).len() ==> success
            + failure == total),
{
    lemma_downloaded_plus_pending(tasks);
    lemma_counted_running(tasks.len() as i32, count_downloaded(tasks) as i32, 0, outcomes);
}

/// The image download job counts every image exactly once: from a fresh start, while
/// outcomes come in, successes and failures together never exceed the total, and once
/// every image has reported they make up the total.
pub proof fn law_image_job_counts_every_image(total: u64, outcomes: Seq<bool>)
    requires
        outcomes.len() <= total,
    ensures
        image_counted(ImageDownloadJobState::Running { total, success: 0, failure: 0 }, outcomes) matches ImageDownloadJobState::Running {
            total: t,
            success,
            failure,
        } && t == total && success + failure == outcomes.len() && success + failure <= total,
    decreases outcomes.len(),
{
    if outcomes.len() > 0 {
        law_image_job_counts_every_image(total, outcomes.drop_last());
    }
}

/// The state the image download job reaches once the outcomes of its images (`true`:
/// downloaded, `false`: failed) are counted in, in order, as `adding_success` and
/// `adding_failure` count them.
pub open spec fn image_counted(state: ImageDownloadJobState, outcomes: Seq<bool>) -> ImageDownloadJobState
    decreases outcomes.len(),
{
    if outcomes.len() == 0 {
        state
    } else {
        let before = image_counted(state, outcomes.drop_last());
        match before {
            ImageDownloadJobState::Running { total, success, failure } => if outcomes.last() {
                ImageDownloadJobState::Running { total, success: (success + 1) as u64, failure }
            } else {
                ImageDownloadJobState::Running { total, success, failure: (failure + 1) as u64 }
            },
            _ => before,
        }
    }
}

/// Strictly falling integers each at least 0 and below `bound` number at most `bound`.
proof fn lemma_falling_pages_fit(pages: Seq<i32>, bound: int)
    requires
        forall|a: int, b: int| 0 <= a < b < pages.len() ==> pages[a] > pages[b],
        forall|k: int| 0 <= k < pages.len() ==> 0 <= #[trigger] pages[k] < bound,
    ensures
        pages.len() <= if bound > 0 {
            bound
        } else {
            0
        },
    decreases pages.len(),
{
    if pages.len() > 0 {
        let rest = pages.drop_first();
        assert forall|k: int| 0 <= k < rest.len() implies 0 <= #[trigger] rest[k] < pages[0] by {
            assert(rest[k] == pages[k + 1]);
        }
        lemma_falling_pages_fit(rest, pages[0] as int);
    }
}

/// While previews are fetched, the pages still to fetch (as `pages_to_fetch` gives
/// them) never outnumber the gallery's pages, so the progress shown by
/// `metadata_progress` stays between 0 and the total; it reaches the total exactly
/// when no page is left.
pub proof fn law_metadata_progress_within_total(pages: Seq<i32>, page_count: i32)
    requires
        page_count >= 0,
        forall|a: int, b: int| 0 <= a < b < pages.len() ==> pages[a] > pages[b],
        forall|p: i32| #[trigger] pages.contains(p) ==> 0 <= p < page_count,
    ensures
        0 <= page_count - pages.len() <= page_count,
        page_count - pages.len() == page_count <==> pages.len() == 0,
{
    assert forall|k: int| 0 <= k < pages.len() implies 0 <= #[trigger] pages[k] < page_count by {
        assert(pages.contains(pages[k]));
    }
    lemma_falling_pages_fit(pages, page_count as int);
}

/// A preview of one image of a gallery page: its index in the gallery and its token.
#[derive(Debug)]
pub struct PreviewEntry {
    pub index: i32,
    pub token: String,
}

/// Whether some preview carries a token other than the one known for its index.
pub open spec fn tokens_inconsistent(known: Map<i32, String>, previews: Seq<PreviewEntry>) -> bool {
    exists|k: int|
        0 <= k < previews.len() && known.contains_key(#[trigger] previews[k].index) && known[previews[k].index]@
            != previews[k].token@
}

/// The image tasks added for a page of previews, in page order: one for each preview
/// whose index is not yet known (nor added earlier on the page).
pub open spec fn added_tasks(gid: i64, existing: Set<i32>, previews: Seq<PreviewEntry>) -> Seq<PandaImageTask>
    decreases previews.len(),
{
    if previews.len() == 0 {
        Seq::empty()
    } else {
        let p = previews[0];
        if existing.contains(p.index) {
            added_tasks(gid, existing, previews.drop_first())
        } else {
            seq![PandaImageTask { gid, index: p.index, token: p.token, image_id: None, downloaded: false }]
                + added_tasks(gid, existing.insert(p.index), previews.drop_first())
        }
    }
}

/// Every image task a page of previews adds belongs to the gallery, is still to be
/// downloaded, has no image recorded yet, is for an index not known before, and carries
/// the token of a preview on the page with that index.
pub proof fn law_added_tasks_are_pending(gid: i64, existing: Set<i32>, previews: Seq<PreviewEntry>)
    ensures
        forall|k: int|
            0 <= k < added_tasks(gid, existing, previews).len() ==> {
                &&& (#[trigger] added_tasks(gid, existing, previews)[k]).gid == gid
                &&& !added_tasks(gid, existing, previews)[k].downloaded
                &&& added_tasks(gid, existing, previews)[k].image_id is None
                &&& !existing.contains(added_tasks(gid, existing, previews)[k].index)
                &&& exists|j: int|
                    0 <= j < previews.len() && (#[trigger] previews[j]).index == added_tasks(
                        gid,
                        existing,
                        previews,
                    )[k].index && previews[j].token == added_tasks(gid, existing, previews)[k].token
            },
    decreases previews.len(),
{
    if previews.len() > 0 {
        let p = previews[0];
        let rest = previews.drop_first();
        let all = added_tasks(gid, existing, previews);
        if existing.contains(p.index) {
            law_added_tasks_are_pending(gid, existing, rest);
            assert forall|k: int| #![trigger all[k]] 0 <= k < all.len() implies exists|j: int|
                0 <= j < previews.len() && (#[trigger] previews[j]).index == all[k].index && previews[j].token
                    == all[k].token by {
                let j = choose|j: int|
                    0 <= j < rest.len() && (#[trigger] rest[j]).index == all[k].index && rest[j].token == all[k].token;
                assert(previews[j + 1] == rest[j]);
            }
        } else {
            let ins = existing.insert(p.index);
            law_added_tasks_are_pending(gid, ins, rest);
            let tail = added_tasks(gid, ins, rest);
            assert forall|k: int| #![trigger all[k]] 0 <= k < all.len() implies {
                &&& all[k].gid == gid
                &&& !all[k].downloaded
                &&& all[k].image_id is None
                &&& !existing.contains(all[k].index)
                &&& exists|j: int|
                    0 <= j < previews.len() && (#[trigger] previews[j]).index == all[k].index && previews[j].token
                        == all[k].token
            } by {
                if k == 0 {
                    assert(previews[0].index == all[0].index);
                } else {
                    assert(all[k] == tail[k - 1]);
                    let j = choose|j: int|
                        0 <= j < rest.len() && (#[trigger] rest[j]).index == tail[k - 1].index && rest[j].token
                            == tail[k - 1].token;
                    assert(previews[j + 1] == rest[j]);
                }
            }
        }
    }
}

/// The indices known after a page of previews was taken in.
pub open spec fn preview_indices(previews: Seq<PreviewEntry>) -> Set<i32> {
    Set::new(|i: i32| exists|k: int| 0 <= k < previews.len() && #[trigger] previews[k].index == i)
}

/// Whether the image tasks and the known indices agree: no two tasks share an index,
/// and an index is known exactly when some task has it.
pub open spec fn one_task_per_known_index(tasks: Seq<PandaImageTask>, known: Set<i32>) -> bool {
    &&& forall|a: int, b: int| 0 <= a < b < tasks.len() ==> #[trigger] tasks[a].index != #[trigger] tasks[b].index
    &&& forall|x: i32|
        #[trigger] known.contains(x) <==> exists|k: int| 0 <= k < tasks.len() && #[trigger] tasks[k].index == x
}

/// Taking in a page of previews whose tokens agree with the known ones keeps exactly
/// one image task per known index: no image is downloaded twice, and every known
/// preview has its task.
pub proof fn law_preview_page_keeps_one_task_per_index(
    gid: i64,
    tasks: Seq<PandaImageTask>,
    known: Set<i32>,
    previews: Seq<PreviewEntry>,
)
    requires
        one_task_per_known_index(tasks, known),
    ensures
        one_task_per_known_index(
            tasks + added_tasks(gid, known, previews),
            known.union(preview_indices(previews)),
        ),
    decreases previews.len(),
{
    if previews.len() == 0 {
        assert(tasks + added_tasks(gid, known, previews) =~= tasks);
        assert(known.union(preview_indices(previews)) =~= known);
    } else {
        let p = previews[0];
        let rest = previews.drop_first();
        assert(preview_indices(previews) =~= preview_indices(rest).insert(p.index)) by {
            assert forall|i: i32| #[trigger] preview_indices(previews).contains(i) implies preview_indices(
                rest,
            ).insert(p.index).contains(i) by {
                let k = choose|k: int| 0 <= k < previews.len() && #[trigger] previews[k].index == i;
                if k > 0 {
                    assert(rest[k - 1].index == i);
                }
            }
            assert forall|i: i32| #[trigger] preview_indices(rest).insert(p.index).contains(i) implies preview_indices(
                previews,
            ).contains(i) by {
                if i == p.index {
                    assert(previews[0].index == i);
                } else {
                    let k = choose|k: int| 0 <= k < rest.len() && #[trigger] rest[k].index == i;
                    assert(previews[k + 1].index == i);
                }
            }
        }
        if known.contains(p.index) {
            law_preview_page_keeps_one_task_per_index(gid, tasks, known, rest);
            assert(known.union(preview_indices(previews)) =~= known.union(preview_indices(rest)));
        } else {
            let t = PandaImageTask { gid, index: p.index, token: p.token, image_id: None, downloaded: false };
            let tasks2 = tasks.push(t);
            let known2 = known.insert(p.index);
            assert forall|a: int, b: int| 0 <= a < b < tasks2.len() implies #[trigger] tasks2[a].index
                != #[trigger] tasks2[b].index by {
                if b == tasks.len() {
                    if tasks[a].index == p.index {
                        assert(known.contains(p.index));
                    }
                } else {
                    assert(tasks[a].index != tasks[b].index);
                }
            }
            assert forall|x: i32| #[trigger] known2.contains(x) <==> exists|k: int|
                0 <= k < tasks2.len() && #[trigger] tasks2[k].index == x by {
                if known2.contains(x) {
                    if x == p.index {
                        assert(tasks2[tasks.len() as int].index == x);
                    } else {
                        assert(known.contains(x));
                        let k = choose|k: int| 0 <= k < tasks.len() && #[trigger] tasks[k].index == x;
                        assert(tasks2[k].index == x);
                    }
                }
                if exists|k: int| 0 <= k < tasks2.len() && #[trigger] tasks2[k].index == x {
                    let k = choose|k: int| 0 <= k < tasks2.len() && #[trigger] tasks2[k].index == x;
                    if k < tasks.len() {
                        assert(tasks[k].index == x);
                        assert(known.contains(x));
                    }
                }
            }
            law_preview_page_keeps_one_task_per_index(gid, tasks2, known2, rest);
            assert(added_tasks(gid, known, previews) == seq![t] + added_tasks(gid, known2, rest));
            assert(tasks + added_tasks(gid, known, previews) =~= tasks2 + added_tasks(gid, known2, rest));
            assert(known.union(preview_indices(previews)) =~= known2.union(preview_indices(rest)));
        }
    }
}

/// Takes in one fetched page of previews of a gallery. When a preview's token differs
/// from the token known for its index, the gallery's previews are stale: every image
/// task, known token and known index is dropped, and `true` is returned. Otherwise a
/// task is added for each preview whose index was not known, and the indices become
/// known; the known tokens stay as they were.
pub fn apply_preview_page(
    task: &mut PandaDownloadTask,
    page_token: &mut HashMap<i32, String>,
    existing_indices: &mut HashSet<i32>,
    previews: &Vec<PreviewEntry>,
) -> (inconsistent: bool)
    ensures
        inconsistent == tokens_inconsistent(old(page_token)@, previews@),
        final(task).gid == old(task).gid,
        final(task).token == old(task).token,
        final(task).title == old(task).title,
        final(task).has_detail == old(task).has_detail,
        final(task).media_count == old(task).media_count,
        final(task).work_id == old(task).work_id,
        inconsistent ==> final(task).image_tasks@.len() == 0 && final(page_token)@ == Map::<
            i32,
            String,
        >::empty() && final(existing_indices)@ == Set::<i32>::empty(),
        !inconsistent ==> forall|k: int|
            old(task).image_tasks@.len() <= k < final(task).image_tasks@.len() ==> !(
            #[trigger] final(task).image_tasks@[k]).downloaded && final(task).image_tasks@[k].image_id is None
                && final(task).image_tasks@[k].gid == old(task).gid,
        !inconsistent ==> final(task).image_tasks@ == old(task).image_tasks@ + added_tasks(
            old(task).gid,
            old(existing_indices)@,
            previews@,
        ) && final(page_token)@ == old(page_token)@ && final(existing_indices)@ == old(
            existing_indices,
        )@.union(preview_indices(previews@)),
{
    broadcast use vstd::std_specs::hash::group_hash_axioms;

    // 1. Check the tokens against the known ones
    let mut inconsistent = false;
    let mut i: usize = 0;
    while i < previews.len() && !inconsistent
        invariant
            i <= previews@.len(),
            page_token@ == old(page_token)@,
            !inconsistent ==> forall|k: int|
                0 <= k < i ==> !(page_token@.contains_key(#[trigger] previews@[k].index) && page_token@[previews@[k].index]@
                    != previews@[k].token@),
            inconsistent ==> tokens_inconsistent(page_token@, previews@),
        decreases previews@.len() - i, if inconsistent { 0int } else { 1int },
    {
        let p = &previews[i];
        match page_token.get(&p.index) {
            Some(token) => {
                if *token != p.token {
                    inconsistent = true;
                    assert(page_token@.contains_key(previews@[i as int].index));
                }
            },
            None => {},
        }
        i += 1;
    }
    if inconsistent {
        task.image_tasks.clear();
        page_token.clear();
        existing_indices.clear();
        assert(task.image_tasks@ =~= Seq::<PandaImageTask>::empty());
        return true;
    }
    assert(!tokens_inconsistent(old(page_token)@, previews@));
    // 2. Add tasks for the new previews
    let gid = task.gid;
    let ghost old_tasks = task.image_tasks@;
    let ghost old_existing = existing_indices@;
    let mut j: usize = 0;
    assert(previews@.skip(0) =~= previews@);
    assert(previews@.take(0) =~= Seq::<PreviewEntry>::empty());
    assert(old_existing.union(preview_indices(previews@.take(0))) =~= old_existing);
    while j < previews.len()
        invariant
            j <= previews@.len(),
            gid == task.gid,
            task.gid == old(task).gid,
            task.token == old(task).token,
            task.title == old(task).title,
            task.has_detail == old(task).has_detail,
            task.media_count == old(task).media_count,
            task.work_id == old(task).work_id,
            old_tasks + added_tasks(gid, old_existing, previews@) == task.image_tasks@ + added_tasks(
                gid,
                existing_indices@,
                previews@.skip(j as int),
            ),
            existing_indices@ == old_existing.union(preview_indices(previews@.take(j as int))),
        decreases previews@.len() - j,
    {
        let p = &previews[j];
        let ghost before_tasks = task.image_tasks@;
        let ghost before_existing = existing_indices@;
        assert(previews@.skip(j as int).drop_first() =~= previews@.skip(j + 1));
        assert(previews@.skip(j as int)[0] == previews@[j as int]);
        if !existing_indices.contains(&p.index) {
            existing_indices.insert(p.index);
            task.image_tasks.push(
                PandaImageTask { gid, index: p.index, token: p.token.clone(), image_id: None, downloaded: false },
            );
            assert(task.image_tasks@ == before_tasks.push(
                PandaImageTask { gid, index: p.index, token: p.token, image_id: None, downloaded: false },
            ));
            assert(seq![PandaImageTask { gid, index: p.index, token: p.token, image_id: None, downloaded: false }]
                + added_tasks(gid, existing_indices@, previews@.skip(j + 1)) == added_tasks(
                gid,
                before_existing,
                previews@.skip(j as int),
            ));
            assert(before_tasks + added_tasks(gid, before_existing, previews@.skip(j as int)) =~= task.image_tasks@
                + added_tasks(gid, existing_indices@, previews@.skip(j + 1)));
        }
        assert(existing_indices@ =~= old_existing.union(preview_indices(previews@.take(j + 1)))) by {
            assert forall|x: i32|
                existing_indices@.contains(x) <==> old_existing.union(
                    preview_indices(previews@.take(j + 1)),
                ).contains(x) by {
                if preview_indices(previews@.take(j + 1)).contains(x) {
                    let k = choose|k: int| 0 <= k < j + 1 && #[trigger] previews@.take(j + 1)[k].index == x;
                    if k < j {
                        assert(previews@.take(j as int)[k].index == x);
                    }
                }
                if preview_indices(previews@.take(j as int)).contains(x) {
                    let k = choose|k: int| 0 <= k < j && #[trigger] previews@.take(j as int)[k].index == x;
                    assert(previews@.take(j + 1)[k].index == x);
                }
                if x == p.index {
                    assert(previews@.take(j + 1)[j as int].index == x);
                }
            }
        }
        j += 1;
    }
    assert(previews@.take(previews@.len() as int) =~= previews@);
    assert(previews@.skip(previews@.len() as int) =~= Seq::<PreviewEntry>::empty());
    assert(task.image_tasks@ + Seq::<PandaImageTask>::empty() =~= task.image_tasks@);
    proof {
        law_added_tasks_are_pending(gid, old_existing, previews@);
        let added = added_tasks(gid, old_existing, previews@);
        assert forall|k: int| old_tasks.len() <= k < task.image_tasks@.len() implies !(
        #[trigger] task.image_tasks@[k]).downloaded && task.image_tasks@[k].image_id is None
            && task.image_tasks@[k].gid == gid by {
            assert(task.image_tasks@[k] == added[k - old_tasks.len()]);
        }
    }
    false
}

/// What one fetched page of previews does to a gallery download job while its
/// previews are fetched.
#[derive(Debug)]
pub struct MetadataStep {
    /// Whether the gallery's record needs updating (see `reconcile_media_count`).
    pub update_gallery: bool,
    /// Whether the previews turned out stale and were all dropped (see `apply_preview_page`).
    pub previews_stale: bool,
    /// The preview pages still to fetch, last page first.
    pub pages: Vec<i32>,
    /// The state shown afterwards.
    pub state: PandaDownloadJobState,
    /// Whether no page is left to fetch.
    pub done: bool,
}

/// Takes in one fetched page of a gallery's previews: the media count the page
/// reports (`reconcile_media_count`), its previews (`apply_preview_page`), then the
/// pages still to fetch now that the page count and the page size (the page's number
/// of previews) are known (`pages_to_fetch`), and the progress shown
/// (`metadata_progress`). The fetching goes on while a page is left.
pub fn metadata_step(
    task: &mut PandaDownloadTask,
    page_token: &mut HashMap<i32, String>,
    existing_indices: &mut HashSet<i32>,
    previews: &Vec<PreviewEntry>,
    reported_count: i32,
    preview_page_count: i32,
) -> (r: MetadataStep)
    requires
        previews@.len() <= i32::MAX,
        preview_page_count <= 0 || i32::MIN <= preview_page_count * previews@.len() <= i32::MAX,
    ensures
        final(task).media_count == reported_count,
        r.update_gallery == (!old(task).has_detail || reported_count != old(task).media_count),
        final(task).gid == old(task).gid,
        final(task).token == old(task).token,
        final(task).title == old(task).title,
        final(task).has_detail == old(task).has_detail,
        final(task).work_id == old(task).work_id,
        r.previews_stale == tokens_inconsistent(old(page_token)@, previews@),
        r.previews_stale ==> final(task).image_tasks@.len() == 0 && final(page_token)@ == Map::<
            i32,
            String,
        >::empty() && final(existing_indices)@ == Set::<i32>::empty(),
        !r.previews_stale ==> final(task).image_tasks@ == old(task).image_tasks@ + added_tasks(
            old(task).gid,
            old(existing_indices)@,
            previews@,
        ) && final(page_token)@ == old(page_token)@ && final(existing_indices)@ == old(
            existing_indices,
        )@.union(preview_indices(previews@)),
        forall|a: int, b: int| 0 <= a < b < r.pages@.len() ==> r.pages@[a] > r.pages@[b],
        forall|p: i32|
            r.pages@.contains(p) <==> (0 <= p < preview_page_count && page_has_missing(
                p as int,
                previews@.len() as int,
                reported_count as int,
                final(existing_indices)@,
            )),
        r.state == (PandaDownloadJobState::FetchingMetadata {
            total: preview_page_count,
            success: (preview_page_count - r.pages@.len()) as i32,
        }),
        r.done == (r.pages@.len() == 0),
{
    let update_gallery = reconcile_media_count(task, reported_count);
    let previews_stale = apply_preview_page(task, page_token, existing_indices, previews);
    let page_size = previews.len() as i32;
    let pages = pages_to_fetch(task.media_count, Some(preview_page_count), Some(page_size), existing_indices);
    proof {
        if preview_page_count >= 0 {
            let ps = pages@;
            assert(effective_page_count(task.media_count, Some(preview_page_count), Some(page_size))
                == preview_page_count);
            law_metadata_progress_within_total(ps, preview_page_count);
        } else {
            if pages@.len() > 0 {
                assert(pages@.contains(pages@[0]));
            }
        }
    }
    let state = metadata_progress(Some(preview_page_count), preview_page_count, pages.len());
    let done = pages.len() == 0;
    MetadataStep { update_gallery, previews_stale, pages, state, done }
}

/// Takes the media count a gallery page reports. The task takes it on; the gallery's
/// record needs updating when the task lacked the gallery's details or the count changed.
pub fn reconcile_media_count(task: &mut PandaDownloadTask, reported: i32) -> (update_gallery: bool)
    ensures
        final(task).media_count == reported,
        update_gallery == (!old(task).has_detail || reported != old(task).media_count),
        final(task).gid == old(task).gid,
        final(task).token == old(task).token,
        final(task).title == old(task).title,
        final(task).has_detail == old(task).has_detail,
        final(task).work_id == old(task).work_id,
        final(task).image_tasks == old(task).image_tasks,
{
    let count_inconsistent = reported != task.media_count;
    if count_inconsistent {
        task.media_count = reported;
    }
    !task.has_detail || count_inconsistent
}

/// Name under which a downloaded gallery image is saved: its index padded with zeros
/// to as many digits as the gallery's media count has, `_`, then the remote filename.
pub open spec fn panda_image_filename_spec(index: i32, media_count: i32, filename: Seq<char>) -> Seq<char> {
    zero_padded(index as int, int_decimal(media_count as int).len() as int) + seq!['_'] + filename
}

/// Name under which a downloaded gallery image is saved.
pub fn panda_image_filename(index: i32, media_count: i32, filename: &str) -> (r: String)
    ensures
        r@ == panda_image_filename_spec(index, media_count, filename@),
{
    let width = i32_to_decimal(media_count).unicode_len();
    let mut s = zero_padded_decimal(index as i64, width);
    push_char(&mut s, '_');
    s.append(filename);
    s
}

/// The download of one gallery image: from the URL the gallery gives for it, into
/// `panda/<gallery>` under the image directory, named by `panda_image_filename`. The
/// image record is made after the download, so the task names none yet (0).
pub fn panda_image_download_task(
    image: &PandaImageTask,
    media_count: i32,
    url: &str,
    filename: &str,
    root_dir: &str,
) -> (r: DownloadTask)
    ensures
        r.url@ == url@,
        r.root_dir@ == root_dir@,
        r.subdir@ == path_join_spec("panda"@, int_decimal(image.gid as int)),
        r.filename@ == panda_image_filename_spec(image.index, media_count, filename@),
        r.image_id == 0,
{
    let gid = i64_to_decimal(image.gid);
    DownloadTask {
        url: String::from_str(url),
        root_dir: String::from_str(root_dir),
        subdir: path_join("panda", gid.as_str()),
        filename: panda_image_filename(image.index, media_count, filename),
        image_id: 0,
    }
}

} // verus!
