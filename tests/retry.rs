use gallery_downloader::backoff::delay_for;
use gallery_downloader::error::{DownloadError, RequestKind};
use gallery_downloader::retry::{
    next_pass, next_step, BatchOutcome, DownloadTask, PassDecision, Step, FIRST_ATTEMPT, MAX_ATTEMPTS,
    PASS_DELAY_MS,
};

fn failure(kind: RequestKind) -> Result<(), DownloadError> {
    Err(DownloadError::Request { kind, detail: String::new() })
}

fn names(tasks: &[DownloadTask]) -> Vec<String> {
    tasks.iter().map(|t| t.destination_filename.clone()).collect()
}

#[test]
fn not_found_fails_at_once_and_batch_stops() {
    let a = DownloadTask::new("https://host/a.jpg", "a.jpg");
    let b = DownloadTask::new("https://host/b.jpg", "b.jpg");
    assert_eq!(next_step(FIRST_ATTEMPT, &Ok(()), 0), Step::Succeeded);
    assert_eq!(next_step(FIRST_ATTEMPT, &failure(RequestKind::Status(404)), 0), Step::Permanent);
    let outcome = BatchOutcome::from_results(&vec![(a.clone(), true), (b.clone(), false)]);
    assert_eq!(names(&outcome.succeeded), vec!["a.jpg"]);
    assert_eq!(names(&outcome.failed), vec!["b.jpg"]);
    match next_pass(outcome.clone(), false) {
        PassDecision::Stop { failed } => {
            assert_eq!(names(&failed), vec!["b.jpg"]);
            assert_eq!(failed[0].source_url, "https://host/b.jpg");
        }
        other => panic!("unexpected {:?}", other),
    }
    match next_pass(outcome, true) {
        PassDecision::Retry { pending, delay_ms } => {
            assert_eq!(names(&pending), vec!["b.jpg"]);
            assert_eq!(delay_ms, PASS_DELAY_MS);
            assert_eq!(delay_ms, 5000);
        }
        other => panic!("unexpected {:?}", other),
    }
}

#[test]
fn timeouts_then_success() {
    let j = 120;
    let mut attempt = FIRST_ATTEMPT;
    let mut delays = Vec::new();
    for _ in 0..3 {
        match next_step(attempt, &failure(RequestKind::Timeout), j) {
            Step::Retry { delay_ms, next_attempt } => {
                delays.push(delay_ms);
                assert_eq!(next_attempt, attempt + 1);
                attempt = next_attempt;
            }
            other => panic!("unexpected {:?}", other),
        }
    }
    assert_eq!(attempt, 4);
    assert_eq!(delays, vec![1120, 2120, 4120]);
    assert_eq!(next_step(attempt, &Ok(()), j), Step::Succeeded);
}

#[test]
fn retryable_failures_exhaust_at_the_ceiling() {
    assert_eq!(MAX_ATTEMPTS, 5);
    assert_eq!(
        next_step(4, &failure(RequestKind::Status(503)), 7),
        Step::Retry { delay_ms: delay_for(4, 7), next_attempt: 5 }
    );
    assert_eq!(next_step(5, &failure(RequestKind::Status(503)), 7), Step::Exhausted);
    assert_eq!(next_step(5, &failure(RequestKind::Connect), 7), Step::Exhausted);
}

#[test]
fn complete_when_nothing_failed() {
    let a = DownloadTask::new("https://host/a.jpg", "a.jpg");
    let outcome = BatchOutcome::from_results(&vec![(a, true)]);
    assert!(outcome.failed.is_empty());
    assert!(matches!(next_pass(outcome, true), PassDecision::Complete));
    let empty = BatchOutcome::from_results(&Vec::new());
    assert!(matches!(next_pass(empty, false), PassDecision::Complete));
}

#[test]
fn results_keep_their_order() {
    let t = |n: &str| DownloadTask::new(&format!("https://host/{}", n), n);
    let results = vec![(t("1"), false), (t("2"), true), (t("3"), false), (t("4"), true), (t("5"), false)];
    let outcome = BatchOutcome::from_results(&results);
    assert_eq!(names(&outcome.succeeded), vec!["2", "4"]);
    assert_eq!(names(&outcome.failed), vec!["1", "3", "5"]);
}
