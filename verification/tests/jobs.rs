use std::collections::{HashMap, HashSet};

use bottle::jobs::{
    apply_preview_page, feed_update_admission, feed_update_step, guessed_page_count, image_download_failures,
    image_download_outcome, metadata_progress, panda_download_admission, panda_download_failures,
    panda_download_outcome, panda_image_filename, pages_to_fetch, pending_image_tasks, reconcile_media_count,
    FeedUpdateJobState, FeedUpdateJobStateResponse, GeneralJobState, ImageDownloadFailure, ImageDownloadJobState,
    ImageDownloadJobStateResponse, JobAdmission, PandaDownloadJob, PandaDownloadJobState,
    PandaDownloadJobStateResponse, PandaGalleryID, PandaImageDownloadFailure, PreviewEntry, GUESSED_PAGE_SIZE,
};
use bottle::panda::{PandaDownloadTask, PandaImageTask};
use bottle::server::FeedIdentifier;

fn image_task(index: i32, downloaded: bool) -> PandaImageTask {
    PandaImageTask { gid: 5, index, token: format!("t{}", index), image_id: None, downloaded }
}

fn gallery_task(tasks: Vec<PandaImageTask>) -> PandaDownloadTask {
    PandaDownloadTask {
        gid: 5,
        token: "tok".to_string(),
        title: "Title".to_string(),
        has_detail: true,
        media_count: 3,
        work_id: 11,
        image_tasks: tasks,
    }
}

#[test]
fn image_job_counts_only_while_running() {
    let s = ImageDownloadJobState::new_running(3);
    assert!(!s.finished());
    let s = s.adding_success().adding_failure().adding_success();
    match s {
        ImageDownloadJobState::Running { total, success, failure } => assert_eq!((total, success, failure), (3, 2, 1)),
        other => panic!("unexpected {:?}", other),
    }
    let done = ImageDownloadJobState::Success { total: 4 };
    assert!(done.finished());
    assert!(matches!(done.adding_success(), ImageDownloadJobState::Success { total: 4 }));
    assert!(matches!(ImageDownloadJobState::Ready.adding_failure(), ImageDownloadJobState::Ready));
}

#[test]
fn image_job_success_and_failure_commute() {
    let a = ImageDownloadJobState::new_running(5).adding_success().adding_failure();
    let b = ImageDownloadJobState::new_running(5).adding_failure().adding_success();
    let counts = |s: &ImageDownloadJobState| match s {
        ImageDownloadJobState::Running { total, success, failure } => (*total, *success, *failure),
        _ => panic!("not running"),
    };
    assert_eq!(counts(&a), counts(&b));
}

#[test]
fn image_job_partial_success() {
    let failures = vec![ImageDownloadFailure { url: "u".to_string(), error: "e".to_string() }];
    match ImageDownloadJobState::new_partial(4, failures) {
        ImageDownloadJobState::PartialSuccess { total, success, failures } => {
            assert_eq!((total, success, failures.len()), (4, 3, 1));
        },
        other => panic!("unexpected {:?}", other),
    }
}

#[test]
fn image_job_responses() {
    let r = ImageDownloadJobStateResponse::from_state(&ImageDownloadJobState::Ready);
    assert_eq!(r.state, GeneralJobState::Ready);
    let r = ImageDownloadJobStateResponse::from_state(&ImageDownloadJobState::Running { total: 5, success: 2, failure: 1 });
    assert_eq!((r.state, r.total, r.success, r.failure), (GeneralJobState::Running, 5, 2, 1));
    let r = ImageDownloadJobStateResponse::from_state(&ImageDownloadJobState::Failed { error: "boom".to_string() });
    assert_eq!(r.state, GeneralJobState::Failed);
    assert_eq!(r.error.as_deref(), Some("boom"));
    let failures = vec![ImageDownloadFailure { url: "u".to_string(), error: "e".to_string() }];
    let r = ImageDownloadJobStateResponse::from_state(&ImageDownloadJobState::PartialSuccess {
        total: 2,
        success: 1,
        failures,
    });
    assert_eq!(r.state, GeneralJobState::Failed);
    assert_eq!(r.failures.as_ref().map(|f| f.len()), Some(1));
    assert_eq!(GeneralJobState::default(), GeneralJobState::Ready);
}

#[test]
fn image_job_failures_and_outcome() {
    let urls = vec!["a".to_string(), "b".to_string(), "c".to_string()];
    let errors = vec![None, Some("bad".to_string()), None];
    let failures = image_download_failures(&urls, &errors);
    assert_eq!(failures.len(), 1);
    assert_eq!((failures[0].url.as_str(), failures[0].error.as_str()), ("b", "bad"));
    match image_download_outcome(3, failures) {
        ImageDownloadJobState::PartialSuccess { total, success, .. } => assert_eq!((total, success), (3, 2)),
        other => panic!("unexpected {:?}", other),
    }
    assert!(matches!(image_download_outcome(3, vec![]), ImageDownloadJobState::Success { total: 3 }));
}

#[test]
fn feed_job_state_and_response() {
    assert!(!FeedUpdateJobState::Running { fetched: 1 }.finished());
    assert!(!FeedUpdateJobState::Ready.finished());
    assert!(FeedUpdateJobState::Success { fetched: 1 }.finished());
    assert!(FeedUpdateJobState::Failed { error: "x".to_string() }.finished());
    let id = FeedIdentifier::new("pixiv", 3);
    let r = FeedUpdateJobStateResponse::new(&id, &FeedUpdateJobState::Success { fetched: 12 });
    assert_eq!(r.state, GeneralJobState::Success);
    assert_eq!(r.fetched, 12);
    assert_eq!(r.community, "pixiv");
    assert_eq!(r.feed_id, 3);
}

#[test]
fn feed_update_steps_accumulate() {
    let s = feed_update_step(10, 5, false);
    assert_eq!(s.fetched, 15);
    assert!(!s.done);
    assert!(matches!(s.state, FeedUpdateJobState::Running { fetched: 15 }));
    assert!(feed_update_step(0, 0, true).done);
}

#[test]
fn job_admission() {
    assert_eq!(feed_update_admission(None), JobAdmission::Start);
    assert_eq!(feed_update_admission(Some(&FeedUpdateJobState::Ready)), JobAdmission::AlreadyRunning);
    assert_eq!(feed_update_admission(Some(&FeedUpdateJobState::Running { fetched: 0 })), JobAdmission::AlreadyRunning);
    assert_eq!(feed_update_admission(Some(&FeedUpdateJobState::Success { fetched: 0 })), JobAdmission::Restart);
    assert_eq!(panda_download_admission(None), JobAdmission::Start);
    assert_eq!(
        panda_download_admission(Some(&PandaDownloadJobState::FetchingMetadata { total: 1, success: 0 })),
        JobAdmission::AlreadyRunning
    );
    assert_eq!(
        panda_download_admission(Some(&PandaDownloadJobState::PartialSuccess { total: 1, success: 0, failures: vec![] })),
        JobAdmission::Restart
    );
    assert_eq!(panda_download_admission(Some(&PandaDownloadJobState::Ready)), JobAdmission::AlreadyRunning);
}

#[test]
fn panda_job_states() {
    let tasks = vec![image_task(0, true), image_task(1, false), image_task(2, true)];
    match PandaDownloadJobState::new_running(&tasks) {
        PandaDownloadJobState::Running { total, success, failure } => assert_eq!((total, success, failure), (3, 2, 0)),
        other => panic!("unexpected {:?}", other),
    }
    let s = PandaDownloadJobState::Running { total: 3, success: 2, failure: 0 }.adding_failure();
    assert!(matches!(s, PandaDownloadJobState::Running { total: 3, success: 2, failure: 1 }));
    let s = PandaDownloadJobState::FetchingMetadata { total: 2, success: 1 }.adding_success();
    assert!(matches!(s, PandaDownloadJobState::FetchingMetadata { total: 2, success: 1 }));
    assert!(!PandaDownloadJobState::FetchingMetadata { total: 2, success: 1 }.finished());
    assert!(PandaDownloadJobState::Success { total: 2 }.finished());
    let job = PandaDownloadJob(gallery_task(vec![]));
    assert_eq!(job.id(), PandaGalleryID(5));
}

#[test]
fn panda_job_responses() {
    let id = PandaGalleryID(77);
    let r = PandaDownloadJobStateResponse::new(&id, "T".to_string(), &PandaDownloadJobState::FetchingMetadata {
        total: 4,
        success: 1,
    });
    assert_eq!((r.gid, r.title.as_str()), (77, "T"));
    assert_eq!((r.state, r.metadata_fetched, r.total_pages, r.success_pages), (GeneralJobState::Running, false, 4, 1));
    let failures = vec![PandaImageDownloadFailure { gid: 77, index: 2, error: "e".to_string() }];
    let r = PandaDownloadJobStateResponse::new(&id, "T".to_string(), &PandaDownloadJobState::PartialSuccess {
        total: 5,
        success: 4,
        failures,
    });
    assert_eq!((r.state, r.total_images, r.success_images, r.failure_images), (GeneralJobState::Failed, 5, 4, 1));
    let r = PandaDownloadJobStateResponse::new(&id, "T".to_string(), &PandaDownloadJobState::Success { total: 5 });
    assert_eq!((r.state, r.metadata_fetched, r.total_images), (GeneralJobState::Success, true, 5));
}

#[test]
fn panda_failures_and_outcome() {
    let tasks = vec![image_task(1, false), image_task(4, false)];
    let errors = vec![Some("x".to_string()), None];
    let failures = panda_download_failures(&tasks, &errors);
    assert_eq!(failures.len(), 1);
    assert_eq!((failures[0].gid, failures[0].index, failures[0].error.as_str()), (5, 1, "x"));
    match panda_download_outcome(10, failures) {
        PandaDownloadJobState::PartialSuccess { total, success, .. } => assert_eq!((total, success), (10, 9)),
        other => panic!("unexpected {:?}", other),
    }
    assert!(matches!(panda_download_outcome(10, vec![]), PandaDownloadJobState::Success { total: 10 }));
    let pending = pending_image_tasks(&vec![image_task(0, true), image_task(1, false)]);
    assert_eq!(pending.len(), 1);
    assert_eq!(pending[0].index, 1);
}

#[test]
fn guessed_page_counts_round_up() {
    assert_eq!(guessed_page_count(0, GUESSED_PAGE_SIZE), 0);
    assert_eq!(guessed_page_count(1, 20), 1);
    assert_eq!(guessed_page_count(20, 20), 1);
    assert_eq!(guessed_page_count(21, 20), 2);
    assert_eq!(guessed_page_count(-5, 20), 0);
    assert_eq!(guessed_page_count(5, 0), i32::MAX);
    for (m, p) in [(7, 3), (-7, 3), (7, -3), (100, 40), (i32::MAX, 1), (i32::MIN, -1)] {
        assert_eq!(guessed_page_count(m, p), (m as f64 / p as f64).ceil() as i32, "{} {}", m, p);
    }
}

#[test]
fn pages_to_fetch_last_page_first() {
    let existing: HashSet<i32> = HashSet::new();
    assert_eq!(pages_to_fetch(45, None, None, &existing), vec![2, 1, 0]);
    let existing: HashSet<i32> = (0..20).collect();
    assert_eq!(pages_to_fetch(45, None, None, &existing), vec![2, 1]);
    let existing: HashSet<i32> = (0..45).collect();
    assert_eq!(pages_to_fetch(45, None, None, &existing), Vec::<i32>::new());
    let existing: HashSet<i32> = [0, 1, 2, 5].into_iter().collect();
    assert_eq!(pages_to_fetch(6, Some(3), Some(2), &existing), vec![2, 1]);
}

#[test]
fn missing_preview_keeps_its_page() {
    let existing: HashSet<i32> = (0..45).filter(|i| *i != 33).collect();
    let pages = pages_to_fetch(45, None, Some(20), &existing);
    assert_eq!(pages, vec![33 / 20]);
}

#[test]
fn metadata_progress_counts_pages() {
    assert!(matches!(metadata_progress(Some(5), 3, 2), PandaDownloadJobState::FetchingMetadata { total: 5, success: 3 }));
    assert!(matches!(metadata_progress(None, 3, 3), PandaDownloadJobState::FetchingMetadata { total: 3, success: 0 }));
}

#[test]
fn preview_page_adds_new_indices() {
    let mut task = gallery_task(vec![image_task(0, false)]);
    let mut tokens: HashMap<i32, String> = [(0, "t0".to_string())].into_iter().collect();
    let mut existing: HashSet<i32> = [0].into_iter().collect();
    let previews = vec![
        PreviewEntry { index: 0, token: "t0".to_string() },
        PreviewEntry { index: 1, token: "t1".to_string() },
        PreviewEntry { index: 1, token: "t1".to_string() },
        PreviewEntry { index: 2, token: "t2".to_string() },
    ];
    let inconsistent = apply_preview_page(&mut task, &mut tokens, &mut existing, &previews);
    assert!(!inconsistent);
    let indices: Vec<i32> = task.image_tasks.iter().map(|t| t.index).collect();
    assert_eq!(indices, vec![0, 1, 2]);
    assert_eq!(existing, [0, 1, 2].into_iter().collect());
    assert_eq!(tokens.len(), 1);
}

#[test]
fn preview_page_with_changed_token_drops_everything() {
    let mut task = gallery_task(vec![image_task(0, false)]);
    let mut tokens: HashMap<i32, String> = [(0, "t0".to_string())].into_iter().collect();
    let mut existing: HashSet<i32> = [0].into_iter().collect();
    let previews = vec![PreviewEntry { index: 0, token: "other".to_string() }];
    assert!(apply_preview_page(&mut task, &mut tokens, &mut existing, &previews));
    assert!(task.image_tasks.is_empty());
    assert!(tokens.is_empty());
    assert!(existing.is_empty());
}

#[test]
fn media_count_reconciliation() {
    let mut task = gallery_task(vec![]);
    assert!(!reconcile_media_count(&mut task, 3));
    assert!(reconcile_media_count(&mut task, 4));
    assert_eq!(task.media_count, 4);
    task.has_detail = false;
    assert!(reconcile_media_count(&mut task, 4));
}

#[test]
fn gallery_image_file_names() {
    assert_eq!(panda_image_filename(3, 120, "a.jpg"), "003_a.jpg");
    assert_eq!(panda_image_filename(12, 9, "b.png"), "12_b.png");
    assert_eq!(panda_image_filename(0, 0, "c"), "0_c");
}

#[test]
fn ended_image_job_accounts_for_every_image() {
    let failures = vec![
        ImageDownloadFailure { url: "a".to_string(), error: "x".to_string() },
        ImageDownloadFailure { url: "b".to_string(), error: "y".to_string() },
    ];
    let r = ImageDownloadJobStateResponse::from_state(&image_download_outcome(5, failures));
    assert_eq!((r.total, r.success, r.failure), (5, 3, 2));
    let r = ImageDownloadJobStateResponse::from_state(&image_download_outcome(4, vec![]));
    assert_eq!((r.total, r.success, r.failure), (4, 4, 0));
}

#[test]
fn gallery_image_download_tasks() {
    let t = bottle::jobs::panda_image_download_task(&image_task(7, false), 120, "https://e/i.jpg", "i.jpg", "/images");
    assert_eq!(t.url, "https://e/i.jpg");
    assert_eq!(t.root_dir, "/images");
    assert_eq!(t.subdir, "panda/5");
    assert_eq!(t.filename, "007_i.jpg");
    assert_eq!(t.image_id, 0);
}

#[test]
fn gallery_job_counts_every_image() {
    let tasks = vec![image_task(0, true), image_task(1, false), image_task(2, false)];
    let pending = pending_image_tasks(&tasks);
    let mut state = PandaDownloadJobState::new_running(&tasks);
    for (k, _) in pending.iter().enumerate() {
        state = if k == 0 { state.adding_failure() } else { state.adding_success() };
    }
    match state {
        PandaDownloadJobState::Running { total, success, failure } => {
            assert_eq!((total, success, failure), (3, 2, 1));
            assert_eq!(success + failure, total);
        },
        other => panic!("unexpected {:?}", other),
    }
}

#[test]
fn image_job_counts_every_image() {
    let mut state = ImageDownloadJobState::new_running(4);
    for ok in [true, false, true, true] {
        state = if ok { state.adding_success() } else { state.adding_failure() };
    }
    assert!(matches!(state, ImageDownloadJobState::Running { total: 4, success: 3, failure: 1 }));
}

#[test]
fn metadata_steps() {
    let mut task = gallery_task(vec![image_task(0, false)]);
    task.media_count = 3;
    let mut tokens: HashMap<i32, String> = [(0, "t0".to_string())].into_iter().collect();
    let mut existing: HashSet<i32> = [0].into_iter().collect();
    let previews = vec![PreviewEntry { index: 0, token: "t0".to_string() }, PreviewEntry { index: 1, token: "t1".to_string() }];
    let step = bottle::jobs::metadata_step(&mut task, &mut tokens, &mut existing, &previews, 5, 3);
    assert!(step.update_gallery);
    assert!(!step.previews_stale);
    assert_eq!(task.media_count, 5);
    assert_eq!(step.pages, vec![2, 1]);
    assert!(matches!(step.state, PandaDownloadJobState::FetchingMetadata { total: 3, success: 1 }));
    assert!(!step.done);
    let previews = vec![PreviewEntry { index: 2, token: "t2".to_string() }, PreviewEntry { index: 3, token: "t3".to_string() }, PreviewEntry { index: 4, token: "t4".to_string() }];
    let step = bottle::jobs::metadata_step(&mut task, &mut tokens, &mut existing, &previews, 5, 3);
    assert!(step.done);
    assert!(matches!(step.state, PandaDownloadJobState::FetchingMetadata { total: 3, success: 3 }));
}
