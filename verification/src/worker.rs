//! One worker of the search: its state and what it does between two looks at
//! the shared stop signal.

use crate::difficulty::{accepts, evaluate};
use crate::pool::CandidatePool;
use crate::word::Word;
use vstd::prelude::*;

verus! {

/// Rounds over the whole pool that a worker makes between two looks at the
/// stop signal.
pub const BATCHES_BEFORE_CHECK: usize = 2;

/// Whether a worker still searches.
#[derive(Clone, Copy, Debug, PartialEq, Eq, Structural)]
pub enum WorkerState {
    Running,
    Terminated,
}

/// What the caller of a step has to do next.
#[derive(Clone, Copy, Debug)]
pub enum WorkerAction {
    /// Nothing was found: look at the stop signal and step again.
    Continue,
    /// This candidate is accepted: raise the stop signal and hand it over.
    Deliver(Word),
    /// The worker has ended and has nothing to hand over.
    Stop,
}

/// What one step did.
#[derive(Clone, Copy, Debug)]
pub struct StepReport {
    pub action: WorkerAction,
    /// How many candidates the step put to the difficulty rule.
    pub evaluations: usize,
}

/// A worker: the session's hash and target, and a pool of its own.
pub struct Worker {
    pub session_hash: Word,
    pub gas_target: u64,
    pub pool: CandidatePool,
    pub state: WorkerState,
}

/// The most evaluations one step makes on a pool of the given size.
pub open spec fn check_interval(batch_size: nat) -> nat {
    BATCHES_BEFORE_CHECK as nat * batch_size
}

/// The number of evaluations made when, in the given round over a pool of the
/// given size, the candidate at `index` has been evaluated.
pub open spec fn evaluations_until(round: int, batch_size: nat, index: int) -> int {
    round * batch_size + index + 1
}

impl Worker {
    /// The count of one step's evaluations fits in a machine word.
    pub open spec fn wf(&self) -> bool {
        check_interval(self.pool@.len()) <= usize::MAX
    }

    /// Whether no candidate of the pool is accepted.
    pub open spec fn all_rejected(&self) -> bool {
        self.rejected_before(self.pool@.len() as int)
    }

    /// Whether no candidate before index `end` is accepted.
    pub open spec fn rejected_before(&self, end: int) -> bool {
        forall|i: int|
            0 <= i < end ==> !accepts(
                self.session_hash@,
                #[trigger] self.pool@[i]@,
                self.gas_target,
            )
    }

    /// Whether `other` has the same session, as many candidates, and in each
    /// of them the same last twenty-four bytes.
    pub open spec fn carries_over(&self, other: &Worker) -> bool {
        &&& self.session_hash == other.session_hash
        &&& self.gas_target == other.gas_target
        &&& self.pool@.len() == other.pool@.len()
        &&& forall|i: int|
            0 <= i < self.pool@.len() ==> (#[trigger] self.pool@[i])@.subrange(8, 32)
                == other.pool@[i]@.subrange(8, 32)
    }

    /// How a worker `after` and a report stand to the worker before a step
    /// that saw the stop signal as `cancelled`.
    ///
    /// The session, the number of candidates and their last twenty-four bytes
    /// stay. A worker that had ended, or saw the signal, is terminated, has
    /// evaluated nothing and kept its pool. Any other worker either delivers
    /// a candidate that the session accepts, the first such in its pool, has
    /// evaluated nothing after it and is terminated, or has rejected every candidate of its pool after a
    /// full check interval, and runs on.
    pub open spec fn stepped(self, cancelled: bool, after: Worker, report: StepReport) -> bool {
        &&& after.wf()
        &&& after.carries_over(&self)
        &&& report.evaluations <= check_interval(self.pool@.len())
        &&& (self.state == WorkerState::Terminated || cancelled) ==> {
            &&& report.action is Stop
            &&& report.evaluations == 0
            &&& after.pool == self.pool
            &&& after.state == WorkerState::Terminated
        }
        &&& (self.state == WorkerState::Running && !cancelled) ==> match report.action {
            WorkerAction::Deliver(found) => {
                &&& after.state == WorkerState::Terminated
                &&& accepts(self.session_hash@, found@, self.gas_target)
                &&& report.evaluations >= 1
                &&& exists|round: int, i: int|
                    0 <= round < BATCHES_BEFORE_CHECK && 0 <= i < after.pool@.len()
                        && after.pool@[i] == found && after.rejected_before(i)
                        && report.evaluations == #[trigger] evaluations_until(
                        round,
                        after.pool@.len(),
                        i,
                    )
            },
            WorkerAction::Continue => {
                &&& after.state == WorkerState::Running
                &&& after.all_rejected()
                &&& report.evaluations == check_interval(self.pool@.len())
            },
            WorkerAction::Stop => false,
        }
    }

    /// A running worker with a pool of `batch_size` random candidates.
    pub fn new(session_hash: Word, gas_target: u64, batch_size: usize) -> (worker: Worker)
        requires
            check_interval(batch_size as nat) <= usize::MAX,
        ensures
            worker.wf(),
            worker.state == WorkerState::Running,
            worker.session_hash == session_hash,
            worker.gas_target == gas_target,
            worker.pool@.len() == batch_size,
    {
        Worker {
            session_hash,
            gas_target,
            pool: CandidatePool::seeded(batch_size),
            state: WorkerState::Running,
        }
    }

    /// A running worker on a pool that the caller made.
    pub fn with_pool(session_hash: Word, gas_target: u64, pool: CandidatePool) -> (worker: Worker)
        requires
            check_interval(pool@.len()) <= usize::MAX,
        ensures
            worker.wf(),
            worker.state == WorkerState::Running,
            worker.session_hash == session_hash,
            worker.gas_target == gas_target,
            worker.pool == pool,
    {
        Worker { session_hash, gas_target, pool, state: WorkerState::Running }
    }

    /// Whether the worker still searches.
    pub fn is_running(&self) -> (running: bool)
        ensures
            running == (self.state == WorkerState::Running),
    {
        self.state == WorkerState::Running
    }

    /// One step, begun by a look at the stop signal, whose value is `cancelled`.
    ///
    /// A worker that has ended, or that sees the signal, ends without touching
    /// a candidate. Otherwise it goes over its pool `BATCHES_BEFORE_CHECK`
    /// times. Each candidate in turn is mutated and put to the difficulty
    /// rule; the first one accepted ends the step and the worker at once, so
    /// the candidates before it in the pool are ones the rule rejected.
    pub fn step(&mut self, cancelled: bool) -> (report: StepReport)
        requires
            old(self).wf(),
        ensures
            old(self).stepped(cancelled, *final(self), report),
    {
        if cancelled || !self.is_running() {
            self.state = WorkerState::Terminated;
            return StepReport { action: WorkerAction::Stop, evaluations: 0 };
        }
        let size = self.pool.len();
        let mut evaluations: usize = 0;
        let mut round: usize = 0;
        while round < BATCHES_BEFORE_CHECK
            invariant
                round <= BATCHES_BEFORE_CHECK,
                size == old(self).pool@.len(),
                BATCHES_BEFORE_CHECK * size <= usize::MAX,
                self.carries_over(old(self)),
                self.state == WorkerState::Running,
                old(self).state == WorkerState::Running,
                !cancelled,
                evaluations == round * size,
                round >= 1 ==> self.all_rejected(),
            decreases BATCHES_BEFORE_CHECK - round,
        {
            let mut index: usize = 0;
            while index < size
                invariant
                    index <= size,
                    round < BATCHES_BEFORE_CHECK,
                    size == old(self).pool@.len(),
                    BATCHES_BEFORE_CHECK * size <= usize::MAX,
                    self.carries_over(old(self)),
                    self.state == WorkerState::Running,
                    old(self).state == WorkerState::Running,
                    !cancelled,
                    evaluations == round * size + index,
                    self.rejected_before(index as int),
                decreases size - index,
            {
                assert(round * size + index < BATCHES_BEFORE_CHECK * size) by (nonlinear_arith)
                    requires
                        round < BATCHES_BEFORE_CHECK,
                        index < size,
                ;
                self.pool.mutate(index);
                let candidate = self.pool.candidate(index);
                let result = evaluate(&self.session_hash, &candidate, self.gas_target);
                evaluations += 1;
                if result.passes {
                    self.state = WorkerState::Terminated;
                    assert(self.pool@[index as int] == candidate && self.rejected_before(
                        index as int,
                    ) && evaluations == evaluations_until(
                        round as int,
                        self.pool@.len(),
                        index as int,
                    ));
                    return StepReport { action: WorkerAction::Deliver(candidate), evaluations };
                }
                index += 1;
            }
            round += 1;
            assert(round * size == (round - 1) * size + size) by (nonlinear_arith);
        }
        StepReport { action: WorkerAction::Continue, evaluations }
    }
}

/// Once the stop signal is up, a worker ends at its next look at it. The step
/// under way when the signal rose makes at most one check interval of
/// evaluations; the step after it makes none, changes no candidate, and
/// leaves the worker terminated.
pub proof fn lemma_cancellation_converges(
    start: Worker,
    seen: bool,
    middle: Worker,
    first: StepReport,
    end: Worker,
    second: StepReport,
)
    requires
        start.stepped(seen, middle, first),
        middle.stepped(true, end, second),
    ensures
        end.state == WorkerState::Terminated,
        second.action is Stop,
        second.evaluations == 0,
        end.pool == middle.pool,
        first.evaluations + second.evaluations <= check_interval(start.pool@.len()),
{
}

} // verus!
