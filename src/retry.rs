//! The per-task retry state machine and the decision between passes.
use vstd::prelude::*;
use crate::backoff::{delay_for, delay_ms};
use crate::error::{retryable, DownloadError};

verus! {

/// Attempts per task within one pass.
pub const MAX_ATTEMPTS: u32 = 5;

/// The number of the first attempt.
pub const FIRST_ATTEMPT: u32 = 1;

/// The pause before a new pass over the failed tasks, in milliseconds.
pub const PASS_DELAY_MS: u64 = 5_000;

/// One unit of work: a source URL and the file name to store it under.
#[derive(Debug, Clone)]
pub struct DownloadTask {
    pub source_url: String,
    pub destination_filename: String,
}

impl DownloadTask {
    pub fn new(source_url: &str, destination_filename: &str) -> (r: DownloadTask)
        ensures
            r.source_url@ == source_url@,
            r.destination_filename@ == destination_filename@,
    {
        DownloadTask {
            source_url: source_url.to_string(),
            destination_filename: destination_filename.to_string(),
        }
    }
}

fn copy_task(t: &DownloadTask) -> (r: DownloadTask)
    ensures
        r == *t,
{
    DownloadTask {
        source_url: t.source_url.clone(),
        destination_filename: t.destination_filename.clone(),
    }
}

/// What to do after an attempt.
#[derive(Debug, Clone, Copy, PartialEq, Eq, Structural)]
pub enum Step {
    /// The attempt succeeded: the task is done.
    Succeeded,
    /// The failure cannot be helped by another attempt: the task failed.
    Permanent,
    /// The last allowed attempt failed: the task failed.
    Exhausted,
    /// Wait `delay_ms` milliseconds, then make attempt `next_attempt`.
    Retry { delay_ms: u64, next_attempt: u32 },
}

pub open spec fn step_spec(attempt: u32, outcome: Result<(), DownloadError>, jitter: u64) -> Step {
    match outcome {
        Ok(()) => Step::Succeeded,
        Err(e) => if !retryable(e) {
            Step::Permanent
        } else if attempt >= MAX_ATTEMPTS {
            Step::Exhausted
        } else {
            Step::Retry { delay_ms: delay_ms(attempt, jitter) as u64, next_attempt: (attempt + 1) as u32 }
        },
    }
}

/// Decides what follows attempt `attempt` of a task, given how it ended and
/// a jitter for the backoff.
pub fn next_step(attempt: u32, outcome: &Result<(), DownloadError>, jitter: u64) -> (r: Step)
    ensures
        r == step_spec(attempt, *outcome, jitter),
{
    match outcome {
        Ok(()) => Step::Succeeded,
        Err(e) => {
            if !e.is_retryable() {
                Step::Permanent
            } else if attempt >= MAX_ATTEMPTS {
                Step::Exhausted
            } else {
                Step::Retry { delay_ms: delay_for(attempt, jitter), next_attempt: attempt + 1 }
            }
        },
    }
}

/// The tasks of one pass, split by how they ended.
#[derive(Debug, Clone)]
pub struct BatchOutcome {
    pub succeeded: Vec<DownloadTask>,
    pub failed: Vec<DownloadTask>,
}

/// Results in order, split into the succeeded and the failed tasks, each in
/// the order of the results.
pub open spec fn split_results(rs: Seq<(DownloadTask, bool)>) -> (Seq<DownloadTask>, Seq<DownloadTask>)
    decreases rs.len(),
{
    if rs.len() == 0 {
        (Seq::empty(), Seq::empty())
    } else {
        let (s, f) = split_results(rs.drop_last());
        if rs.last().1 {
            (s.push(rs.last().0), f)
        } else {
            (s, f.push(rs.last().0))
        }
    }
}

pub open spec fn tasks_of(rs: Seq<(DownloadTask, bool)>) -> Seq<DownloadTask> {
    rs.map_values(|r: (DownloadTask, bool)| r.0)
}

impl BatchOutcome {
    /// Gathers the results of a pass: each task with whether it succeeded.
    pub fn from_results(results: &Vec<(DownloadTask, bool)>) -> (r: BatchOutcome)
        ensures
            (r.succeeded@, r.failed@) == split_results(results@),
    {
        let mut succeeded: Vec<DownloadTask> = Vec::new();
        let mut failed: Vec<DownloadTask> = Vec::new();
        let mut i: usize = 0;
        while i < results.len()
            invariant
                i <= results@.len(),
                (succeeded@, failed@) == split_results(results@.subrange(0, i as int)),
            decreases results@.len() - i,
        {
            let task = copy_task(&results[i].0);
            if results[i].1 {
                succeeded.push(task);
            } else {
                failed.push(task);
            }
            proof {
                assert(results@.subrange(0, i + 1).drop_last() =~= results@.subrange(0, i as int));
            }
            i = i + 1;
        }
        proof {
            assert(results@.subrange(0, i as int) =~= results@);
        }
        BatchOutcome { succeeded, failed }
    }
}

/// Every task of a pass ends up in exactly one of the two sets: none is
/// dropped, none is counted twice.
pub proof fn lemma_split_keeps_tasks(rs: Seq<(DownloadTask, bool)>)
    ensures
        split_results(rs).0.to_multiset().add(split_results(rs).1.to_multiset())
            =~= tasks_of(rs).to_multiset(),
    decreases rs.len(),
{
    broadcast use vstd::seq_lib::group_to_multiset_ensures;

    if rs.len() > 0 {
        lemma_split_keeps_tasks(rs.drop_last());
        assert(tasks_of(rs) =~= tasks_of(rs.drop_last()).push(rs.last().0));
    }
}

/// What follows a pass.
#[derive(Debug, Clone)]
pub enum PassDecision {
    /// Every task succeeded.
    Complete,
    /// Some tasks failed and no further pass was asked for.
    Stop { failed: Vec<DownloadTask> },
    /// Wait `delay_ms` milliseconds, then run a pass over `pending`.
    Retry { pending: Vec<DownloadTask>, delay_ms: u64 },
}

/// Decides what follows a pass. The failed tasks of one pass are exactly the
/// pending tasks of the next.
pub fn next_pass(outcome: BatchOutcome, allow_outer_retry: bool) -> (r: PassDecision)
    ensures
        outcome.failed@.len() == 0 ==> r is Complete,
        outcome.failed@.len() > 0 && !allow_outer_retry ==> (r matches PassDecision::Stop { failed }
            && failed@ == outcome.failed@),
        outcome.failed@.len() > 0 && allow_outer_retry ==> (r matches PassDecision::Retry {
            pending,
            delay_ms,
        } && pending@ == outcome.failed@ && delay_ms == PASS_DELAY_MS),
{
    if outcome.failed.len() == 0 {
        PassDecision::Complete
    } else if !allow_outer_retry {
        PassDecision::Stop { failed: outcome.failed }
    } else {
        PassDecision::Retry { pending: outcome.failed, delay_ms: PASS_DELAY_MS }
    }
}

} // verus!
