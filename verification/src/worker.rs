//! Per-chunk transfer: retry with non-decreasing backoff.
//!
//! Each attempt is one network call made outside the engine; the engine
//! decides. `RetryState` is the small state machine a live worker steps
//! through, and `transfer` is the same policy applied to a whole row of
//! attempt results at once, which pins down what outcome any sequence of
//! attempts produces.

use vstd::prelude::*;

use crate::errors::ChunkError;

verus! {

/// What one attempt at transferring a chunk came back with.
#[derive(Debug)]
pub enum AttemptResult {
    /// The store accepted the chunk and assigned it a tag; for downloads
    /// `bytes` is the span that came back.
    Delivered { part_tag: String, bytes: Vec<u8> },
    /// The attempt failed, transiently or permanently.
    Failed { cause: ChunkError },
}

/// The mathematical value of an `AttemptResult`.
pub enum AttemptResultView {
    Delivered { part_tag: Seq<char>, bytes: Seq<u8> },
    Failed { cause: ChunkError },
}

impl View for AttemptResult {
    type V = AttemptResultView;

    open spec fn view(&self) -> AttemptResultView {
        match self {
            AttemptResult::Delivered { part_tag, bytes } => AttemptResultView::Delivered {
                part_tag: part_tag@,
                bytes: bytes@,
            },
            AttemptResult::Failed { cause } => AttemptResultView::Failed { cause: *cause },
        }
    }
}

/// The terminal report for one chunk.
#[derive(Debug)]
pub enum ChunkOutcome {
    /// The chunk went through: the store-assigned tag, and for downloads
    /// the received bytes.
    Success { index: u32, part_tag: String, bytes: Vec<u8> },
    /// The chunk gave up after `attempts_made` attempts; `cause` is the
    /// last error seen.
    Failure { index: u32, cause: ChunkError, attempts_made: u32 },
}

/// The mathematical value of a `ChunkOutcome`.
pub enum ChunkOutcomeView {
    Success { index: u32, part_tag: Seq<char>, bytes: Seq<u8> },
    Failure { index: u32, cause: ChunkError, attempts_made: u32 },
}

impl View for ChunkOutcome {
    type V = ChunkOutcomeView;

    open spec fn view(&self) -> ChunkOutcomeView {
        match self {
            ChunkOutcome::Success { index, part_tag, bytes } => ChunkOutcomeView::Success {
                index: *index,
                part_tag: part_tag@,
                bytes: bytes@,
            },
            ChunkOutcome::Failure { index, cause, attempts_made } => ChunkOutcomeView::Failure {
                index: *index,
                cause: *cause,
                attempts_made: *attempts_made,
            },
        }
    }
}

impl ChunkOutcome {
    /// The chunk index this outcome reports on.
    pub fn index(&self) -> (i: u32)
        ensures
            i == self.spec_index(),
    {
        match self {
            ChunkOutcome::Success { index, .. } => *index,
            ChunkOutcome::Failure { index, .. } => *index,
        }
    }

    /// The chunk index, as a specification value.
    pub open spec fn spec_index(self) -> u32 {
        match self {
            ChunkOutcome::Success { index, .. } => index,
            ChunkOutcome::Failure { index, .. } => index,
        }
    }
}

/// The view of a sequence of attempt results.
pub open spec fn attempts_view(s: Seq<AttemptResult>) -> Seq<AttemptResultView> {
    s.map_values(|a: AttemptResult| a@)
}

/// The outcome the retry policy reaches for chunk `index` when attempt
/// `k` (0-based) and those after it come back as `attempts` says: stop
/// on a delivery, stop on a permanent error, stop when `max_retries`
/// attempts are used up, retry otherwise.
pub open spec fn worker_outcome_from(
    index: u32,
    attempts: Seq<AttemptResultView>,
    max_retries: u32,
    k: int,
) -> ChunkOutcomeView
    recommends
        0 <= k < max_retries <= attempts.len(),
    decreases max_retries - k,
{
    match attempts[k] {
        AttemptResultView::Delivered { part_tag, bytes } => ChunkOutcomeView::Success {
            index,
            part_tag,
            bytes,
        },
        AttemptResultView::Failed { cause } => {
            if cause == ChunkError::Permanent || k + 1 >= max_retries {
                ChunkOutcomeView::Failure { index, cause, attempts_made: (k + 1) as u32 }
            } else {
                worker_outcome_from(index, attempts, max_retries, k + 1)
            }
        },
    }
}

/// The outcome of running the whole retry policy from the first attempt.
pub open spec fn worker_outcome(
    index: u32,
    attempts: Seq<AttemptResultView>,
    max_retries: u32,
) -> ChunkOutcomeView {
    worker_outcome_from(index, attempts, max_retries, 0)
}

/// What a worker does after a failed attempt: wait and try again, or
/// give up.
#[derive(Clone, Copy, Debug, PartialEq, Eq, Structural)]
pub enum RetryDecision {
    RetryAfter { delay_ms: u64 },
    GiveUp,
}

/// The inter-retry delay after `attempt` attempts have been made.
pub open spec fn spec_backoff_delay_ms(attempt: u32) -> u64 {
    (300 * attempt as u64) as u64
}

/// The delay before the next try, growing linearly with the attempt
/// number.
pub fn backoff_delay_ms(attempt: u32) -> (d: u64)
    ensures
        d == spec_backoff_delay_ms(attempt),
{
    300u64 * (attempt as u64)
}

/// The backoff law: the delay never decreases from one attempt to the
/// next.
pub proof fn lemma_backoff_non_decreasing(a: u32, b: u32)
    requires
        a <= b,
    ensures
        spec_backoff_delay_ms(a) <= spec_backoff_delay_ms(b),
{
}

/// The retry state machine of one live worker: how many attempts are
/// made so far and the last error seen.
#[derive(Clone, Copy, Debug)]
pub struct RetryState {
    pub max_retries: u32,
    pub attempts_made: u32,
    pub last_cause: Option<ChunkError>,
}

impl RetryState {
    /// The state invariant: attempts never exceed the allowance.
    pub open spec fn wf(self) -> bool {
        &&& self.max_retries >= 1
        &&& self.attempts_made <= self.max_retries
        &&& self.last_cause is Some <==> self.attempts_made > 0
    }

    /// A fresh worker that has attempted nothing.
    pub fn new(max_retries: u32) -> (s: RetryState)
        requires
            max_retries >= 1,
        ensures
            s.wf(),
            s.max_retries == max_retries,
            s.attempts_made == 0,
    {
        RetryState { max_retries, attempts_made: 0, last_cause: None }
    }

    /// Record one failed attempt and decide: retry after a backoff
    /// exactly when the failure was transient and attempts remain.
    pub fn on_failure(&mut self, cause: ChunkError) -> (d: RetryDecision)
        requires
            old(self).wf(),
            old(self).attempts_made < old(self).max_retries,
        ensures
            final(self).wf(),
            final(self).max_retries == old(self).max_retries,
            final(self).attempts_made == old(self).attempts_made + 1,
            final(self).last_cause == Some(cause),
            d == (if cause == ChunkError::Transient && old(self).attempts_made + 1 < old(
                self,
            ).max_retries {
                RetryDecision::RetryAfter {
                    delay_ms: spec_backoff_delay_ms((old(self).attempts_made + 1) as u32),
                }
            } else {
                RetryDecision::GiveUp
            }),
    {
        self.attempts_made = self.attempts_made + 1;
        self.last_cause = Some(cause);
        if cause == ChunkError::Transient && self.attempts_made < self.max_retries {
            RetryDecision::RetryAfter { delay_ms: backoff_delay_ms(self.attempts_made) }
        } else {
            RetryDecision::GiveUp
        }
    }
}

/// Run the retry policy for chunk `index` over a row of attempt results,
/// one per attempt the policy may make. Returns exactly the outcome the
/// policy model assigns to that row.
pub fn transfer(index: u32, attempts: &Vec<AttemptResult>, max_retries: u32) -> (r: ChunkOutcome)
    requires
        max_retries >= 1,
        attempts@.len() >= max_retries,
    ensures
        r@ == worker_outcome(index, attempts_view(attempts@), max_retries),
{
    let ghost avs = attempts_view(attempts@);
    let mut k: u32 = 0;
    loop
        invariant
            max_retries >= 1,
            attempts@.len() >= max_retries,
            avs == attempts_view(attempts@),
            0 <= k < max_retries,
            worker_outcome_from(index, avs, max_retries, k as int) == worker_outcome(
                index,
                avs,
                max_retries,
            ),
        decreases max_retries - k,
    {
        match &attempts[k as usize] {
            AttemptResult::Delivered { part_tag, bytes } => {
                let tag = part_tag.clone();
                let body = bytes.clone();
                proof {
                    assert(body@ =~= bytes@);
                }
                return ChunkOutcome::Success { index, part_tag: tag, bytes: body };
            },
            AttemptResult::Failed { cause } => {
                let c = *cause;
                if matches!(c, ChunkError::Permanent) || k + 1 >= max_retries {
                    return ChunkOutcome::Failure { index, cause: c, attempts_made: k + 1 };
                }
            },
        }
        k = k + 1;
    }
}

/// The retry law, first half: a chunk whose first `max_retries - 1`
/// attempts fail transiently and whose last attempt delivers is reported
/// as an overall success.
pub proof fn lemma_retry_eventual_success(
    index: u32,
    attempts: Seq<AttemptResultView>,
    max_retries: u32,
)
    requires
        max_retries >= 1,
        attempts.len() >= max_retries,
        forall|k: int|
            0 <= k < max_retries - 1 ==> attempts[k] == (AttemptResultView::Failed {
                cause: ChunkError::Transient,
            }),
        attempts[max_retries - 1] is Delivered,
    ensures
        worker_outcome(index, attempts, max_retries) == (ChunkOutcomeView::Success {
            index,
            part_tag: attempts[max_retries - 1]->Delivered_part_tag,
            bytes: attempts[max_retries - 1]->Delivered_bytes,
        }),
{
    lemma_retry_runs_to(index, attempts, max_retries, (max_retries - 1) as int);
}

/// The retry law, second half: a chunk all of whose `max_retries`
/// attempts fail transiently is reported as a failure whose attempt
/// count is exactly `max_retries`.
pub proof fn lemma_retry_exhausted(index: u32, attempts: Seq<AttemptResultView>, max_retries: u32)
    requires
        max_retries >= 1,
        attempts.len() >= max_retries,
        forall|k: int|
            0 <= k < max_retries ==> attempts[k] == (AttemptResultView::Failed {
                cause: ChunkError::Transient,
            }),
    ensures
        worker_outcome(index, attempts, max_retries) == (ChunkOutcomeView::Failure {
            index,
            cause: ChunkError::Transient,
            attempts_made: max_retries,
        }),
{
    lemma_retry_runs_to(index, attempts, max_retries, (max_retries - 1) as int);
}

/// While every attempt before `k` fails transiently, the policy is still
/// running at attempt `k`.
proof fn lemma_retry_runs_to(
    index: u32,
    attempts: Seq<AttemptResultView>,
    max_retries: u32,
    k: int,
)
    requires
        max_retries >= 1,
        attempts.len() >= max_retries,
        0 <= k < max_retries,
        forall|j: int|
            0 <= j < k ==> attempts[j] == (AttemptResultView::Failed {
                cause: ChunkError::Transient,
            }),
    ensures
        worker_outcome(index, attempts, max_retries) == worker_outcome_from(
            index,
            attempts,
            max_retries,
            k,
        ),
    decreases k,
{
    if k > 0 {
        lemma_retry_runs_to(index, attempts, max_retries, k - 1);
    }
}

} // verus!
