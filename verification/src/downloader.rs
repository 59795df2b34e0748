//! Download retry logic: up to five sequential attempts, each failed attempt
//! followed by a linear backoff delay, and retry exhaustion surfaced as an
//! explicit error, never as a disguised success.

use vstd::prelude::*;
use crate::backoff::{backoff_delay, spec_backoff_delay};
use crate::checksum::{checksum_matches, spec_checksum_matches};
use crate::errors::PipelineError;

verus! {

/// Ceiling on download attempts for one asset.
pub const MAX_DOWNLOAD_ATTEMPTS: u64 = 5;

/// How one download attempt ended, as the caller observed it.
#[derive(Clone, Copy, PartialEq, Eq, Structural, Debug)]
pub enum DownloadEvent {
    /// The HTTP request could not be sent or answered.
    RequestFailed,
    /// The response body could not be read in full.
    BodyReadFailed,
    /// The body was written but its digest does not match the checksum.
    ChecksumMismatch,
    /// The written file's digest matches the expected checksum.
    Verified,
}

/// What the downloader does after an attempt.
#[derive(Clone, Copy, PartialEq, Eq, Structural, Debug)]
pub enum DownloadStep {
    /// Wait for the given delay, then make the next attempt.
    Retry { delay_ms: u64 },
    /// Every attempt failed; the destination file is untrusted.
    Failed,
    /// The asset was downloaded and verified.
    Done,
}

/// Retry bookkeeping for one download call: the 1-based attempt counter and
/// the cumulative backoff delay so far. Reset per call, never persisted.
#[derive(Clone, Copy, PartialEq, Eq, Structural, Debug)]
pub struct RetryState {
    /// Number of the attempt about to be made or just made, starting at 1.
    pub attempt: u64,
    /// Total milliseconds of backoff delay requested so far.
    pub total_delay_ms: u64,
}

impl RetryState {
    /// The attempt counter stays within the ceiling and the cumulative delay
    /// stays bounded by the delays the past attempts can have requested.
    pub open spec fn wf(self) -> bool {
        &&& 1 <= self.attempt <= MAX_DOWNLOAD_ATTEMPTS
        &&& self.total_delay_ms <= 10000 * (self.attempt - 1)
    }

    /// Fresh state for one download call: first attempt, no delay yet.
    pub fn new() -> (s: Self)
        ensures
            s.wf(),
            s.attempt == 1,
            s.total_delay_ms == 0,
    {
        RetryState { attempt: 1, total_delay_ms: 0 }
    }

    /// Advances the retry state by one attempt's outcome. A verified attempt
    /// finishes the download. A failed attempt below the ceiling schedules a
    /// retry after the backoff delay of the attempt just made and increments
    /// the counter; a failed attempt at the ceiling gives up explicitly, with
    /// no delay: the backoff sits between retry attempts, and no attempt
    /// follows the last one, so exhaustion is reported at once.
    pub fn step(&mut self, ev: DownloadEvent) -> (r: DownloadStep)
        requires
            old(self).wf(),
        ensures
            final(self).wf(),
            ev == DownloadEvent::Verified ==> r == DownloadStep::Done && *final(self) == *old(self),
            ev != DownloadEvent::Verified && old(self).attempt < MAX_DOWNLOAD_ATTEMPTS ==> {
                &&& r == (DownloadStep::Retry {
                    delay_ms: (spec_backoff_delay(old(self).attempt as int)) as u64,
                })
                &&& final(self).attempt == old(self).attempt + 1
                &&& final(self).total_delay_ms == old(self).total_delay_ms + spec_backoff_delay(
                    old(self).attempt as int,
                )
            },
            ev != DownloadEvent::Verified && old(self).attempt == MAX_DOWNLOAD_ATTEMPTS ==> r
                == DownloadStep::Failed && *final(self) == *old(self),
    {
        match ev {
            DownloadEvent::Verified => DownloadStep::Done,
            _ => {
                if self.attempt < MAX_DOWNLOAD_ATTEMPTS {
                    let delay: u64 = backoff_delay(self.attempt);
                    self.total_delay_ms = self.total_delay_ms + delay;
                    self.attempt = self.attempt + 1;
                    DownloadStep::Retry { delay_ms: delay }
                } else {
                    DownloadStep::Failed
                }
            },
        }
    }
}

/// Classifies a written file's content: the attempt is verified exactly when
/// the content's digest matches the expected checksum, and is a checksum
/// mismatch otherwise.
pub fn download_event_for_content(content: &Vec<u8>, expected: &String) -> (r: DownloadEvent)
    ensures
        r == DownloadEvent::Verified <==> spec_checksum_matches(content@, expected@),
        r == DownloadEvent::Verified || r == DownloadEvent::ChecksumMismatch,
{
    if checksum_matches(content, expected) {
        DownloadEvent::Verified
    } else {
        DownloadEvent::ChecksumMismatch
    }
}

/// How a whole download call ends, given the outcomes of its attempts.
pub enum DownloadOutcome {
    /// The attempt with the given 1-based number was verified.
    Delivered { attempts: int },
    /// No attempt up to the ceiling was verified.
    Exhausted,
}

/// The outcome of running the retry loop from the given attempt number over
/// a trace of attempt outcomes, one per attempt made.
pub open spec fn spec_download_run(events: Seq<DownloadEvent>, attempt: int) -> DownloadOutcome
    decreases events.len(),
{
    if events.len() == 0 {
        DownloadOutcome::Exhausted
    } else if events[0] == DownloadEvent::Verified {
        DownloadOutcome::Delivered { attempts: attempt }
    } else if attempt >= MAX_DOWNLOAD_ATTEMPTS {
        DownloadOutcome::Exhausted
    } else {
        spec_download_run(events.drop_first(), attempt + 1)
    }
}

/// Replays a trace of attempt outcomes through the retry state machine.
/// Returns the 1-based number of the verified attempt, or the explicit
/// exhaustion error when the attempt ceiling is reached (or the trace ends)
/// without a verified attempt.
pub fn run_download(events: &Vec<DownloadEvent>) -> (r: Result<u64, PipelineError>)
    ensures
        r matches Ok(a) ==> spec_download_run(events@, 1) == (DownloadOutcome::Delivered {
            attempts: a as int,
        }) && 1 <= a <= MAX_DOWNLOAD_ATTEMPTS,
        r is Err ==> r == Err::<u64, PipelineError>(PipelineError::RetriesExhausted)
            && spec_download_run(events@, 1) == DownloadOutcome::Exhausted,
{
    let mut state: RetryState = RetryState::new();
    let mut i: usize = 0;
    proof {
        assert(events@.skip(0) =~= events@);
    }
    while i < events.len()
        invariant
            state.wf(),
            i <= events@.len(),
            state.attempt == i + 1,
            spec_download_run(events@, 1) == spec_download_run(
                events@.skip(i as int),
                state.attempt as int,
            ),
        decreases events@.len() - i,
    {
        let ghost before = events@.skip(i as int);
        let ev: DownloadEvent = events[i];
        proof {
            assert(before[0] == ev);
            assert(before.drop_first() =~= events@.skip(i as int + 1));
        }
        let step: DownloadStep = state.step(ev);
        i = i + 1;
        match step {
            DownloadStep::Done => {
                return Ok(state.attempt);
            },
            DownloadStep::Failed => {
                return Err(PipelineError::RetriesExhausted);
            },
            DownloadStep::Retry { delay_ms: _ } => {},
        }
    }
    proof {
        assert(events@.skip(i as int) =~= Seq::<DownloadEvent>::empty());
    }
    Err(PipelineError::RetriesExhausted)
}

/// Retry exhaustion is a failure: when the first five attempt outcomes of a
/// trace are all failures, the download call ends exhausted, whatever comes
/// after, and never as a success.
pub proof fn lemma_five_failures_exhaust(events: Seq<DownloadEvent>)
    requires
        events.len() >= MAX_DOWNLOAD_ATTEMPTS,
        forall|i: int|
            0 <= i < MAX_DOWNLOAD_ATTEMPTS ==> events[i] != DownloadEvent::Verified,
    ensures
        spec_download_run(events, 1) == DownloadOutcome::Exhausted,
{
    lemma_failures_exhaust_from(events, 1);
}

/// Generalisation over the starting attempt: with only failures among the
/// attempts left before the ceiling, the run ends exhausted.
proof fn lemma_failures_exhaust_from(events: Seq<DownloadEvent>, attempt: int)
    requires
        1 <= attempt <= MAX_DOWNLOAD_ATTEMPTS,
        events.len() >= MAX_DOWNLOAD_ATTEMPTS - attempt + 1,
        forall|i: int|
            0 <= i < MAX_DOWNLOAD_ATTEMPTS - attempt + 1 ==> events[i]
                != DownloadEvent::Verified,
    ensures
        spec_download_run(events, attempt) == DownloadOutcome::Exhausted,
    decreases MAX_DOWNLOAD_ATTEMPTS - attempt,
{
    if attempt < MAX_DOWNLOAD_ATTEMPTS {
        lemma_failures_exhaust_from(events.drop_first(), attempt + 1);
    }
}

/// A verified attempt within the ceiling delivers: when the first `k`
/// attempt outcomes are failures and outcome `k` is verified, with `k` below
/// the ceiling, the download succeeds on attempt `k + 1`.
pub proof fn lemma_success_within_ceiling(events: Seq<DownloadEvent>, k: int)
    requires
        0 <= k < MAX_DOWNLOAD_ATTEMPTS,
        events.len() > k,
        forall|i: int| 0 <= i < k ==> events[i] != DownloadEvent::Verified,
        events[k] == DownloadEvent::Verified,
    ensures
        spec_download_run(events, 1) == (DownloadOutcome::Delivered { attempts: k + 1 }),
{
    lemma_success_from(events, k, 1);
}

/// Generalisation over the starting attempt for the success lemma.
proof fn lemma_success_from(events: Seq<DownloadEvent>, k: int, attempt: int)
    requires
        1 <= attempt <= MAX_DOWNLOAD_ATTEMPTS,
        0 <= k <= MAX_DOWNLOAD_ATTEMPTS - attempt,
        events.len() > k,
        forall|i: int| 0 <= i < k ==> events[i] != DownloadEvent::Verified,
        events[k] == DownloadEvent::Verified,
    ensures
        spec_download_run(events, attempt) == (DownloadOutcome::Delivered {
            attempts: attempt + k,
        }),
    decreases k,
{
    if k > 0 {
        lemma_success_from(events.drop_first(), k - 1, attempt + 1);
    }
}

} // verus!
