//! The transfer orchestrator: one state machine from planning to a
//! single terminal outcome.
//!
//! The orchestrator owns the plan, the admission gate and the result
//! aggregator. It never performs I/O itself: `next_action` says what the
//! driver should do next (open the session, start a worker, wait, commit,
//! verify, abort), and each `on_*` event feeds the answer back in. A
//! failed chunk stops further dispatch, lets the in-flight workers drain,
//! and abandons an open session; a size mismatch after all chunks
//! succeeded is a failure, never a silent partial success.

use vstd::prelude::*;

use crate::aggregator::{
    all_filled, assembled_bytes, count_filled, lemma_count_filled_full, lemma_count_filled_le_len,
    FailureEntry, ResultAggregator, TransferResult,
};
use crate::errors::TransferError;
use crate::gate::ConcurrencyGate;
use crate::planner::{chunk_count_of, plan, valid_plan, ChunkRange, TransferSpec};
use crate::worker::ChunkOutcome;

verus! {

/// Which way the bytes move.
#[derive(Clone, Copy, Debug, PartialEq, Eq, Structural)]
pub enum TransferKind {
    Upload,
    Download,
}

/// Where the transfer stands.
#[derive(Clone, Copy, Debug, PartialEq, Eq, Structural)]
pub enum Phase {
    /// Waiting for the store to open a multipart session (uploads only).
    OpeningSession,
    /// Dispatching workers and aggregating their outcomes.
    Running,
    /// All chunks succeeded; waiting for the completion call (uploads).
    Committing,
    /// Committed; waiting for the destination's reported size (uploads).
    Verifying,
    /// Failing, but an open session must be abandoned first.
    Aborting,
    /// Terminal success.
    Completed,
    /// Terminal failure.
    Failed,
}

/// What the driver should do next.
#[derive(Clone, Copy, Debug, PartialEq, Eq, Structural)]
pub enum Action {
    /// Open a multipart session and report back.
    OpenSession,
    /// Take the next chunk from `start_chunk` and run a worker for it.
    Dispatch { index: usize },
    /// Wait for any in-flight worker and report its outcome.
    AwaitCompletion,
    /// Send the completion call with the ordered part list of `result`.
    Commit,
    /// Ask the destination for the object's size and report it.
    VerifySize,
    /// Abandon the open session (best effort), then report back.
    AbortSession,
    /// The transfer is over; read `result` or `error`.
    Done,
}

/// The orchestrator of one transfer.
#[derive(Debug)]
pub struct TransferOrchestrator {
    pub kind: TransferKind,
    pub cfg: TransferSpec,
    pub phase: Phase,
    pub ranges: Vec<ChunkRange>,
    /// How many chunks have been handed to workers so far; dispatch is
    /// index-ascending.
    pub next_chunk: usize,
    pub gate: ConcurrencyGate,
    pub agg: ResultAggregator,
    pub session_open: bool,
    pub error: Option<TransferError>,
    pub result: Option<TransferResult>,
}

impl TransferOrchestrator {
    /// The phases in which the transfer is still moving.
    pub open spec fn active(self) -> bool {
        match self.phase {
            Phase::OpeningSession | Phase::Running | Phase::Committing | Phase::Verifying
                | Phase::Aborting => true,
            Phase::Completed | Phase::Failed => false,
        }
    }

    /// Outcomes recorded so far: every dispatched chunk not in flight
    /// has reported.
    pub open spec fn finished_chunks(self) -> int {
        self.next_chunk - self.gate.in_use
    }

    /// The result the aggregator's slots justify.
    pub open spec fn result_matches(self, res: TransferResult) -> bool {
        &&& res.parts@.len() == self.ranges@.len()
        &&& forall|i: int|
            0 <= i < res.parts@.len() ==> (#[trigger] res.parts@[i]).part_number == i + 1
        &&& forall|i: int|
            0 <= i < res.parts@.len() ==> (#[trigger] res.parts@[i]).part_tag@
                == self.agg.slots@[i]->Some_0.part_tag@
        &&& res.data@ == assembled_bytes(self.agg.slots@)
    }

    /// Shape of every non-terminal state.
    pub open spec fn wf_active(self) -> bool {
        &&& self.cfg.total_size > 0
        &&& chunk_count_of(self.cfg.total_size, self.cfg.chunk_size) <= self.cfg.max_chunks
        &&& valid_plan(self.ranges@, self.cfg.total_size, self.cfg.chunk_size)
        &&& self.agg.slots@.len() == self.ranges@.len()
        &&& self.next_chunk <= self.ranges@.len()
        &&& self.gate.in_use <= self.next_chunk
        &&& count_filled(self.agg.slots@) <= self.finished_chunks()
        &&& (self.agg.failure is None ==> count_filled(self.agg.slots@)
            == self.finished_chunks())
    }

    /// Shape of the `Running` phase: a session is open exactly for
    /// uploads, and the phase persists only while something is in flight
    /// or still to dispatch.
    pub open spec fn wf_running(self) -> bool {
        &&& (self.kind is Upload <==> self.session_open)
        &&& (self.agg.failure is Some ==> self.gate.in_use >= 1)
        &&& (self.agg.failure is None && self.next_chunk == self.ranges@.len()
            ==> self.gate.in_use >= 1)
    }

    /// Shape shared by `Committing` and `Verifying`: every chunk
    /// succeeded and the ordered result is built.
    pub open spec fn wf_done_ok(self) -> bool {
        &&& self.next_chunk == self.ranges@.len()
        &&& self.gate.in_use == 0
        &&& self.agg.failure is None
        &&& all_filled(self.agg.slots@)
        &&& (self.result matches Some(res) && self.result_matches(res))
    }

    /// The orchestrator's invariant.
    pub open spec fn wf(self) -> bool {
        &&& self.cfg.wf()
        &&& self.gate.wf()
        &&& self.gate.budget == self.cfg.worker_budget
        &&& self.agg.wf()
        &&& self.active() ==> self.wf_active()
        &&& (self.phase is OpeningSession || self.phase is Running || self.phase is Committing
            || self.phase is Verifying) ==> self.error is None
        &&& self.phase is OpeningSession ==> (self.kind is Upload && !self.session_open
            && self.next_chunk == 0 && self.gate.in_use == 0 && self.agg.failure is None)
        &&& self.phase is Running ==> self.wf_running()
        &&& self.phase is Committing ==> (self.kind is Upload && self.session_open
            && self.wf_done_ok())
        &&& self.phase is Verifying ==> (self.kind is Upload && !self.session_open
            && self.wf_done_ok())
        &&& self.phase is Aborting ==> (self.session_open && self.error is Some)
        &&& self.phase is Failed ==> (self.error is Some && !self.session_open)
        &&& self.phase is Completed ==> (!self.session_open && self.error is None
            && self.agg.failure is None && all_filled(self.agg.slots@) && (
        self.result matches Some(res) && self.result_matches(res)) && (self.kind is Download
            ==> assembled_bytes(self.agg.slots@).len() == self.cfg.total_size))
    }

    /// The failure the aggregator will hold after taking `outcome`.
    pub open spec fn failure_after(self, outcome: ChunkOutcome) -> Option<FailureEntry> {
        match outcome {
            ChunkOutcome::Failure { index, cause, attempts_made } => if self.agg.failure
                is Some {
                self.agg.failure
            } else {
                Some(FailureEntry { index, cause, attempts_made })
            },
            ChunkOutcome::Success { .. } => self.agg.failure,
        }
    }

    /// The terminal error one exhausted chunk produces.
    pub open spec fn chunk_error_of(f: FailureEntry) -> TransferError {
        TransferError::Chunk { index: f.index, cause: f.cause, attempts_made: f.attempts_made }
    }

    /// What the driver should do next, as a function of the state.
    pub open spec fn action_spec(self) -> Action {
        match self.phase {
            Phase::OpeningSession => Action::OpenSession,
            Phase::Running => if self.agg.failure is None && self.next_chunk
                < self.ranges@.len() && self.gate.in_use < self.gate.budget {
                Action::Dispatch { index: self.next_chunk }
            } else {
                Action::AwaitCompletion
            },
            Phase::Committing => Action::Commit,
            Phase::Verifying => Action::VerifySize,
            Phase::Aborting => Action::AbortSession,
            Phase::Completed | Phase::Failed => Action::Done,
        }
    }

    /// Plan the transfer. A plan error is terminal at once: no session
    /// is opened and no chunk dispatched. Otherwise an upload waits for
    /// its session and a download starts dispatching directly.
    pub fn new(cfg: TransferSpec, kind: TransferKind) -> (o: TransferOrchestrator)
        requires
            cfg.wf(),
        ensures
            o.wf(),
            o.cfg == cfg,
            o.kind == kind,
            !o.session_open,
            o.next_chunk == 0,
            o.gate.in_use == 0,
            cfg.total_size == 0 <==> (o.phase is Failed && o.error == Some(
                TransferError::Plan(crate::errors::PlanError::EmptyObject),
            )),
            (cfg.total_size > 0 && chunk_count_of(cfg.total_size, cfg.chunk_size)
                > cfg.max_chunks) <==> (o.phase is Failed && o.error == Some(
                TransferError::Plan(crate::errors::PlanError::TooManyChunks),
            )),
            (cfg.total_size > 0 && chunk_count_of(cfg.total_size, cfg.chunk_size)
                <= cfg.max_chunks) ==> (o.phase == (match kind {
                TransferKind::Upload => Phase::OpeningSession,
                TransferKind::Download => Phase::Running,
            }) && valid_plan(o.ranges@, cfg.total_size, cfg.chunk_size)),
    {
        match plan(cfg.total_size, cfg.chunk_size, cfg.max_chunks) {
            Err(e) => TransferOrchestrator {
                kind,
                cfg,
                phase: Phase::Failed,
                ranges: Vec::new(),
                next_chunk: 0,
                gate: ConcurrencyGate::new(cfg.worker_budget),
                agg: ResultAggregator::new(0),
                session_open: false,
                error: Some(TransferError::Plan(e)),
                result: None,
            },
            Ok(ranges) => {
                proof {
                    // A plan for a non-empty object has at least one
                    // chunk, and no more than the (u32-sized) ceiling.
                    crate::planner::lemma_chunk_count_bounds(cfg.total_size, cfg.chunk_size);
                }
                let n = ranges.len();
                let agg = ResultAggregator::new(n);
                let phase = match kind {
                    TransferKind::Upload => Phase::OpeningSession,
                    TransferKind::Download => Phase::Running,
                };
                TransferOrchestrator {
                    kind,
                    cfg,
                    phase,
                    ranges,
                    next_chunk: 0,
                    gate: ConcurrencyGate::new(cfg.worker_budget),
                    agg,
                    session_open: false,
                    error: None,
                    result: None,
                }
            },
        }
    }

    /// Read off the next thing to do.
    pub fn next_action(&self) -> (a: Action)
        requires
            self.wf(),
        ensures
            a == self.action_spec(),
    {
        match self.phase {
            Phase::OpeningSession => Action::OpenSession,
            Phase::Running => {
                if !self.agg.failed() && self.next_chunk < self.ranges.len() && self.gate.in_use
                    < self.gate.budget {
                    Action::Dispatch { index: self.next_chunk }
                } else {
                    Action::AwaitCompletion
                }
            },
            Phase::Committing => Action::Commit,
            Phase::Verifying => Action::VerifySize,
            Phase::Aborting => Action::AbortSession,
            Phase::Completed => Action::Done,
            Phase::Failed => Action::Done,
        }
    }

    /// The store answered the session request (uploads only).
    pub fn on_session_opened(&mut self, ok: bool)
        requires
            old(self).wf(),
            old(self).phase is OpeningSession,
        ensures
            final(self).wf(),
            final(self).kind == old(self).kind,
            final(self).cfg == old(self).cfg,
            final(self).ranges == old(self).ranges,
            final(self).next_chunk == 0,
            final(self).gate == old(self).gate,
            final(self).agg == old(self).agg,
            ok ==> (final(self).phase is Running && final(self).session_open && final(self).error is None),
            !ok ==> (final(self).phase is Failed && !final(self).session_open && final(self).error == Some(TransferError::Session)),
    {
        proof {
            // There is at least one chunk still to dispatch.
            crate::planner::lemma_chunk_count_bounds(
                self.cfg.total_size,
                self.cfg.chunk_size,
            );
        }
        if ok {
            self.session_open = true;
            self.phase = Phase::Running;
        } else {
            self.error = Some(TransferError::Session);
            self.phase = Phase::Failed;
        }
    }

    /// Take a permit and hand out the next chunk, in ascending index
    /// order. Only legal when `next_action` said `Dispatch`.
    pub fn start_chunk(&mut self) -> (c: ChunkRange)
        requires
            old(self).wf(),
            old(self).action_spec() is Dispatch,
        ensures
            final(self).wf(),
            c == old(self).ranges@[old(self).next_chunk as int],
            final(self).kind == old(self).kind,
            final(self).cfg == old(self).cfg,
            final(self).phase == old(self).phase,
            final(self).ranges == old(self).ranges,
            final(self).next_chunk == old(self).next_chunk + 1,
            final(self).gate.budget == old(self).gate.budget,
            final(self).gate.in_use == old(self).gate.in_use + 1,
            final(self).agg == old(self).agg,
            final(self).session_open == old(self).session_open,
            final(self).error == old(self).error,
            final(self).result == old(self).result,
    {
        let c = self.ranges[self.next_chunk];
        let _granted = self.gate.try_acquire();
        self.next_chunk = self.next_chunk + 1;
        c
    }

    /// An in-flight worker reported its outcome. The permit returns;
    /// a success fills its slot and a failure (the first) is kept. When
    /// the last in-flight worker drains after a failure, the transfer
    /// fails (abandoning an open session first); when the last chunk
    /// succeeds, an upload moves on to its completion call and a
    /// download is checked against the declared size at once.
    pub fn on_chunk_done(&mut self, outcome: ChunkOutcome)
        requires
            old(self).wf(),
            old(self).phase is Running,
            old(self).gate.in_use >= 1,
            outcome.spec_index() < old(self).ranges@.len(),
            outcome is Success ==> old(self).agg.slots@[outcome.spec_index() as int] is None,
        ensures
            final(self).wf(),
            final(self).kind == old(self).kind,
            final(self).cfg == old(self).cfg,
            final(self).ranges == old(self).ranges,
            final(self).next_chunk == old(self).next_chunk,
            final(self).gate.budget == old(self).gate.budget,
            final(self).gate.in_use == old(self).gate.in_use - 1,
            final(self).session_open == old(self).session_open || (final(self).phase is Failed
                && !final(self).session_open),
            final(self).agg.slots@.len() == old(self).agg.slots@.len(),
            final(self).agg.failure == old(self).failure_after(outcome),
            outcome matches ChunkOutcome::Success { index, part_tag, bytes } ==> final(self).agg.slots@ == old(self).agg.slots@.update(
                index as int,
                Some((crate::aggregator::SuccessEntry { part_tag, bytes })),
            ),
            outcome is Failure ==> final(self).agg.slots@ == old(self).agg.slots@,
            // Draining after a failure: the last permit back decides.
            old(self).failure_after(outcome) matches Some(f) ==> (old(self).gate.in_use == 1
                ==> (final(self).error == Some(Self::chunk_error_of(f)) && (if old(self).session_open {
                final(self).phase is Aborting
            } else {
                final(self).phase is Failed
            }))),
            (old(self).failure_after(outcome) is Some && old(self).gate.in_use > 1) ==> final(self).phase is Running,
            // All chunks succeeded: finish the transfer.
            (old(self).failure_after(outcome) is None && old(self).next_chunk == old(self).ranges@.len() && old(self).gate.in_use == 1) ==> (if old(self).kind is Upload {
                final(self).phase is Committing
            } else {
                if assembled_bytes(final(self).agg.slots@).len() == old(self).cfg.total_size {
                    final(self).phase is Completed
                } else {
                    final(self).phase is Failed && final(self).error == Some(
                        TransferError::IntegrityMismatch {
                            expected: old(self).cfg.total_size,
                            actual: assembled_bytes(final(self).agg.slots@).len() as u64,
                        },
                    )
                }
            }),
            (old(self).failure_after(outcome) is None && !(old(self).next_chunk == old(self).ranges@.len() && old(self).gate.in_use == 1)) ==> final(self).phase is Running,
    {
        proof {
            lemma_count_filled_le_len(self.agg.slots@);
        }
        self.gate.release();
        self.agg.record(outcome);
        if self.agg.failed() {
            if self.gate.in_use == 0 {
                let f = self.agg.first_failure().unwrap();
                self.error = Some(
                    TransferError::Chunk {
                        index: f.index,
                        cause: f.cause,
                        attempts_made: f.attempts_made,
                    },
                );
                if self.session_open {
                    self.phase = Phase::Aborting;
                } else {
                    self.phase = Phase::Failed;
                }
            }
        } else {
            if self.next_chunk == self.ranges.len() && self.gate.in_use == 0 {
                proof {
                    lemma_count_filled_full(self.agg.slots@);
                }
                let res = self.agg.finalize();
                match self.kind {
                    TransferKind::Upload => {
                        self.result = Some(res);
                        self.phase = Phase::Committing;
                    },
                    TransferKind::Download => {
                        let actual: u64 = res.data.len() as u64;
                        if actual == self.cfg.total_size {
                            self.result = Some(res);
                            self.phase = Phase::Completed;
                        } else {
                            self.error = Some(
                                TransferError::IntegrityMismatch {
                                    expected: self.cfg.total_size,
                                    actual,
                                },
                            );
                            self.phase = Phase::Failed;
                        }
                    },
                }
            }
        }
    }

    /// The store answered the completion call. On success the session is
    /// spent and only the size check remains; on failure the session is
    /// still abandoned before the transfer fails.
    pub fn on_commit(&mut self, ok: bool)
        requires
            old(self).wf(),
            old(self).phase is Committing,
        ensures
            final(self).wf(),
            final(self).kind == old(self).kind,
            final(self).cfg == old(self).cfg,
            final(self).ranges == old(self).ranges,
            final(self).agg == old(self).agg,
            final(self).result == old(self).result,
            ok ==> (final(self).phase is Verifying && !final(self).session_open && final(self).error is None),
            !ok ==> (final(self).phase is Aborting && final(self).session_open && final(self).error == Some(TransferError::Session)),
    {
        if ok {
            self.session_open = false;
            self.phase = Phase::Verifying;
        } else {
            self.error = Some(TransferError::Session);
            self.phase = Phase::Aborting;
        }
    }

    /// The destination reported its size for the uploaded object. Equal
    /// to the source length means success; anything else is an integrity
    /// failure even though every chunk succeeded.
    pub fn on_size_report(&mut self, actual: u64)
        requires
            old(self).wf(),
            old(self).phase is Verifying,
        ensures
            final(self).wf(),
            final(self).kind == old(self).kind,
            final(self).cfg == old(self).cfg,
            final(self).ranges == old(self).ranges,
            final(self).agg == old(self).agg,
            final(self).result == old(self).result,
            actual == old(self).cfg.total_size ==> (final(self).phase is Completed && final(self).error is None),
            actual != old(self).cfg.total_size ==> (final(self).phase is Failed && final(self).error == Some(
                TransferError::IntegrityMismatch {
                    expected: old(self).cfg.total_size,
                    actual,
                },
            )),
    {
        if actual == self.cfg.total_size {
            self.phase = Phase::Completed;
        } else {
            self.error = Some(
                TransferError::IntegrityMismatch { expected: self.cfg.total_size, actual },
            );
            self.phase = Phase::Failed;
        }
    }

    /// The open session was abandoned (or the attempt was made: the
    /// abort is best effort); the failure becomes terminal.
    pub fn on_session_aborted(&mut self)
        requires
            old(self).wf(),
            old(self).phase is Aborting,
        ensures
            final(self).wf(),
            final(self).kind == old(self).kind,
            final(self).cfg == old(self).cfg,
            final(self).ranges == old(self).ranges,
            final(self).agg == old(self).agg,
            final(self).phase is Failed,
            !final(self).session_open,
            final(self).error == old(self).error,
    {
        self.session_open = false;
        self.phase = Phase::Failed;
    }
}

} // verus!
