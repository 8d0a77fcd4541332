//! A mining session as its coordinator sees it: the session hash, the
//! configuration, and the protocol from the first message to the outcome.

use crate::difficulty::{accepts, evaluate, keccak256_digest, keccak256_of, result_hash_of};
use crate::pool::DEFAULT_BATCH_SIZE;
use crate::word::{be_bytes, be_value, max_word, word_of, xor_bytes, xor_words, Word};
use crate::worker::{check_interval, Worker, WorkerState};
use vstd::prelude::*;

verus! {

/// A 20-byte account address.
pub type AddressBytes = [u8; 20];

/// How a search is run.
#[derive(Clone, Copy, Debug)]
pub struct MiningConfig {
    /// Candidates per worker.
    pub batch_size: usize,
    /// Number of workers; `None` stands for one per logical processor.
    pub thread_count: Option<usize>,
}

impl Default for MiningConfig {
    fn default() -> (config: MiningConfig)
        ensures
            config.batch_size == DEFAULT_BATCH_SIZE,
            config.thread_count is None,
    {
        MiningConfig { batch_size: DEFAULT_BATCH_SIZE, thread_count: None }
    }
}

/// Calls `num_cpus::get`, the number of logical processors that this process
/// may use. Nothing is claimed of it: it depends on the machine.
#[verifier::external_body]
pub(crate) fn logical_cpus() -> (count: usize) {
    num_cpus::get()
}

/// The number of workers for a request, given the processors at hand.
pub open spec fn resolved_threads(requested: Option<usize>, available: usize) -> usize {
    match requested {
        Some(count) => count,
        None => available,
    }
}

/// The number of workers for a request, given the processors at hand.
pub fn resolve_thread_count(requested: Option<usize>, available: usize) -> (count: usize)
    ensures
        count == resolved_threads(requested, available),
{
    match requested {
        Some(count) => count,
        None => available,
    }
}

impl MiningConfig {
    /// A step's evaluations on a pool of this size can be counted.
    pub open spec fn wf(&self) -> bool {
        check_interval(self.batch_size as nat) <= usize::MAX
    }

    /// Whether the batch size is one that a worker can take.
    pub fn is_valid(&self) -> (valid: bool)
        ensures
            valid == self.wf(),
    {
        self.batch_size <= usize::MAX / 2
    }

    /// The number of workers to start: the one asked for, else the number of
    /// logical processors.
    pub fn threads(&self) -> (count: usize)
        ensures
            self.thread_count is Some ==> count == self.thread_count->Some_0,
    {
        match self.thread_count {
            Some(count) => count,
            None => resolve_thread_count(None, logical_cpus()),
        }
    }
}

/// The one way a search fails: the channel closed and no accepted candidate
/// had come.
#[derive(Clone, Copy, Debug, PartialEq, Eq, Structural)]
pub enum MiningError {
    SearchExhausted,
}

impl MiningError {
    /// The failure in words.
    pub fn message(&self) -> (text: String)
        ensures
            text@ == "Mining failed - no solution found"@,
    {
        "Mining failed - no solution found".to_owned()
    }
}

/// A finished search: the winning candidate, and the gas price, which is the
/// candidate read as a big-endian number.
#[derive(Clone, Copy, Debug)]
pub struct MiningResult {
    pub candidate: Word,
    pub gas_price: Word,
}

impl MiningResult {
    /// The gas price as a number.
    pub open spec fn gas_price_value(&self) -> nat {
        be_value(self.gas_price@)
    }
}

/// The session hash of a nonce and an address: the digest of the nonce as a
/// 32-byte big-endian word, combined by exclusive-or with the digest of the
/// address.
pub open spec fn session_hash_of(nonce: u64, address: Seq<u8>) -> Seq<u8> {
    xor_bytes(keccak256_digest(be_bytes(nonce as nat, 32)), keccak256_digest(address))
}

/// Computes the session hash of a nonce and an address.
pub fn session_hash(nonce: u64, address: &AddressBytes) -> (out: Word)
    ensures
        out@ == session_hash_of(nonce, address@),
{
    let nonce_word = word_of(nonce);
    let nonce_digest = keccak256_of(nonce_word.as_slice());
    let address_digest = keccak256_of(address.as_slice());
    xor_words(&nonce_digest, &address_digest)
}

/// What a session reports for what its channel gave: the candidate when one
/// came and the session accepts it, else exhaustion.
pub open spec fn outcome_of(session_hash: Seq<u8>, gas_target: u64, received: Option<Word>) -> Result<
    MiningResult,
    MiningError,
> {
    match received {
        Some(candidate) => if accepts(session_hash, candidate@, gas_target) {
            Ok(MiningResult { candidate, gas_price: candidate })
        } else {
            Err(MiningError::SearchExhausted)
        },
        None => Err(MiningError::SearchExhausted),
    }
}

/// Turns what the channel gave into the outcome of the search. A candidate is
/// put to the difficulty rule once more, so that every outcome returned is one
/// the session accepts, whoever sent it.
pub fn conclude(session_hash: &Word, gas_target: u64, received: Option<Word>) -> (res: Result<
    MiningResult,
    MiningError,
>)
    ensures
        res == outcome_of(session_hash@, gas_target, received),
        res is Ok ==> accepts(session_hash@, res->Ok_0.candidate@, gas_target),
        res is Ok ==> res->Ok_0.gas_price_value() == be_value(res->Ok_0.candidate@),
        res is Ok <==> received is Some && accepts(
            session_hash@,
            received->Some_0@,
            gas_target,
        ),
{
    match received {
        Some(candidate) => {
            if evaluate(session_hash, &candidate, gas_target).passes {
                Ok(MiningResult { candidate, gas_price: candidate })
            } else {
                Err(MiningError::SearchExhausted)
            }
        },
        None => Err(MiningError::SearchExhausted),
    }
}

/// Every candidate that a session reports is one it accepts: the session hash
/// combined with the candidate's digest is not zero, and 2^256 - 1 divided by
/// it reaches the gas target.
pub proof fn lemma_reported_candidate_accepted(
    session_hash: Seq<u8>,
    gas_target: u64,
    received: Option<Word>,
)
    ensures
        outcome_of(session_hash, gas_target, received) matches Ok(found) ==> {
            let result = be_value(result_hash_of(session_hash, keccak256_digest(found.candidate@)));
            &&& result != 0
            &&& max_word() / result >= gas_target
            &&& received == Some(found.candidate)
            &&& found.gas_price_value() == be_value(found.candidate@)
        },
{
}

/// Where a coordinator stands in its protocol.
#[derive(Clone, Copy, Debug, PartialEq, Eq, Structural)]
pub enum Phase {
    /// Workers search; the coordinator waits for the first message.
    Searching,
    /// The stop signal is raised; the coordinator waits for the workers to end.
    Joining,
    /// The outcome has been reported.
    Finished,
}

/// What the world tells a coordinator.
#[derive(Clone, Copy, Debug)]
pub enum CoordinatorEvent {
    /// A candidate arrived on the channel.
    Message(Word),
    /// The channel closed with nothing in it.
    ChannelClosed,
    /// Every worker has ended.
    WorkersJoined,
}

/// What a coordinator asks of the world in return.
#[derive(Clone, Copy, Debug)]
pub enum CoordinatorAction {
    /// Raise the stop signal and wait for every worker to end.
    CancelAndJoin,
    /// Hand this outcome to the caller.
    Report(Result<MiningResult, MiningError>),
    /// Nothing: the event comes too late or too early and changes nothing.
    Ignore,
}

/// The coordinator of one search.
pub struct Coordinator {
    pub session_hash: Word,
    pub gas_target: u64,
    pub batch_size: usize,
    pub thread_count: usize,
    /// Whether the coordinator has asked for the stop signal.
    pub cancelled: bool,
    /// What the one read of the channel gave, once it was made.
    pub received: Option<Word>,
    pub phase: Phase,
}

impl Coordinator {
    /// The batch size is one a worker can take; the stop signal is asked for
    /// from the first message on; nothing is held before it.
    pub open spec fn wf(&self) -> bool {
        &&& check_interval(self.batch_size as nat) <= usize::MAX
        &&& self.cancelled == (self.phase != Phase::Searching)
        &&& self.phase == Phase::Searching ==> self.received is None
    }

    /// Whether `other` is a coordinator of the same session.
    pub open spec fn same_session(&self, other: &Coordinator) -> bool {
        &&& self.session_hash == other.session_hash
        &&& self.gas_target == other.gas_target
        &&& self.batch_size == other.batch_size
        &&& self.thread_count == other.thread_count
    }

    /// Opens a search: computes the session hash and fixes the number of
    /// workers. The stop signal is clear and nothing is received.
    pub fn start(nonce: u64, address: &AddressBytes, gas_target: u64, config: &MiningConfig) -> (me:
        Coordinator)
        requires
            config.wf(),
        ensures
            me.wf(),
            me.phase == Phase::Searching,
            !me.cancelled,
            me.received is None,
            me.session_hash@ == session_hash_of(nonce, address@),
            me.gas_target == gas_target,
            me.batch_size == config.batch_size,
            config.thread_count is Some ==> me.thread_count == config.thread_count->Some_0,
    {
        Coordinator {
            session_hash: session_hash(nonce, address),
            gas_target,
            batch_size: config.batch_size,
            thread_count: config.threads(),
            cancelled: false,
            received: None,
            phase: Phase::Searching,
        }
    }

    /// A new worker of this session, running, with a random pool of its own.
    pub fn spawn_worker(&self) -> (worker: Worker)
        requires
            self.wf(),
        ensures
            worker.wf(),
            worker.state == WorkerState::Running,
            worker.session_hash == self.session_hash,
            worker.gas_target == self.gas_target,
            worker.pool@.len() == self.batch_size,
    {
        Worker::new(self.session_hash, self.gas_target, self.batch_size)
    }

    /// Takes one event and says what to do.
    ///
    /// While searching, the first message or the closing of the channel is
    /// recorded, and the answer is to raise the stop signal and join. While
    /// joining, the end of the workers finishes the search, and the answer is
    /// the outcome. Every other event is ignored and changes nothing: a second
    /// message never replaces the first.
    pub fn advance(&mut self, event: CoordinatorEvent) -> (action: CoordinatorAction)
        requires
            old(self).wf(),
        ensures
            final(self).wf(),
            final(self).same_session(old(self)),
            match (old(self).phase, event) {
                (Phase::Searching, CoordinatorEvent::Message(candidate)) => {
                    &&& final(self).phase == Phase::Joining
                    &&& final(self).received == Some(candidate)
                    &&& action is CancelAndJoin
                },
                (Phase::Searching, CoordinatorEvent::ChannelClosed) => {
                    &&& final(self).phase == Phase::Joining
                    &&& final(self).received is None
                    &&& action is CancelAndJoin
                },
                (Phase::Joining, CoordinatorEvent::WorkersJoined) => {
                    &&& final(self).phase == Phase::Finished
                    &&& final(self).received == old(self).received
                    &&& action == CoordinatorAction::Report(
                        outcome_of(old(self).session_hash@, old(self).gas_target, old(self).received),
                    )
                },
                _ => *final(self) == *old(self) && action is Ignore,
            },
            action matches CoordinatorAction::Report(Ok(found)) ==> accepts(
                old(self).session_hash@,
                found.candidate@,
                old(self).gas_target,
            ),
    {
        match (self.phase, event) {
            (Phase::Searching, CoordinatorEvent::Message(candidate)) => {
                self.received = Some(candidate);
                self.cancelled = true;
                self.phase = Phase::Joining;
                CoordinatorAction::CancelAndJoin
            },
            (Phase::Searching, CoordinatorEvent::ChannelClosed) => {
                self.cancelled = true;
                self.phase = Phase::Joining;
                CoordinatorAction::CancelAndJoin
            },
            (Phase::Joining, CoordinatorEvent::WorkersJoined) => {
                self.phase = Phase::Finished;
                CoordinatorAction::Report(conclude(&self.session_hash, self.gas_target, self.received))
            },
            _ => CoordinatorAction::Ignore,
        }
    }
}

/// What a search reports does not depend on how many workers ran it or how
/// large their pools were: two coordinators of one nonce, address and target
/// report the same for the same message, and a candidate reported by either is
/// accepted by both.
pub proof fn lemma_outcome_ignores_parallelism(
    first: Coordinator,
    second: Coordinator,
    received: Option<Word>,
)
    requires
        first.session_hash == second.session_hash,
        first.gas_target == second.gas_target,
    ensures
        outcome_of(first.session_hash@, first.gas_target, received) == outcome_of(
            second.session_hash@,
            second.gas_target,
            received,
        ),
        outcome_of(first.session_hash@, first.gas_target, received) matches Ok(found) ==> accepts(
            second.session_hash@,
            found.candidate@,
            second.gas_target,
        ),
{
}

} // verus!
