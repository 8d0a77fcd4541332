//! The candidates a worker owns, and how they change between rounds.

use crate::word::Word;
use rand::RngCore;
use vstd::prelude::*;

verus! {

/// Candidates per worker unless the caller asks otherwise.
pub const DEFAULT_BATCH_SIZE: usize = 2048;

/// Leading bytes of a candidate that are drawn afresh each round.
pub const PREFIX_BYTES: usize = 8;

/// Calls `rand::thread_rng` and `RngCore::fill_bytes` on a buffer of 32
/// bytes. Nothing is claimed of the bytes: they are random.
#[verifier::external_body]
pub(crate) fn random_word() -> (out: Word) {
    let mut out = [0u8; 32];
    rand::thread_rng().fill_bytes(&mut out);
    out
}

/// Calls `rand::thread_rng` and `RngCore::next_u32`. Nothing is claimed of
/// the number: it is random.
#[verifier::external_body]
pub(crate) fn random_u32() -> (out: u32) {
    rand::thread_rng().next_u32()
}

/// The candidate with its leading bytes replaced by the low bytes of `fresh`.
pub open spec fn with_prefix(candidate: Seq<u8>, fresh: Seq<u32>) -> Seq<u8> {
    Seq::new(
        candidate.len(),
        |i: int|
            if i < fresh.len() {
                (fresh[i] % 256) as u8
            } else {
                candidate[i]
            },
    )
}

/// Replaces the first eight bytes of a candidate by the low byte of each of
/// eight numbers, and keeps the other twenty-four.
pub fn reseed_prefix(candidate: &Word, fresh: &[u32; 8]) -> (out: Word)
    ensures
        out@ == with_prefix(candidate@, fresh@),
        out@.subrange(8, 32) == candidate@.subrange(8, 32),
{
    let mut out: Word = *candidate;
    let mut i: usize = 0;
    while i < 8
        invariant
            i <= 8,
            forall|j: int| 0 <= j < i ==> out@[j] == (fresh@[j] % 256) as u8,
            forall|j: int| i <= j < 32 ==> out@[j] == candidate@[j],
        decreases 8 - i,
    {
        out[i] = (fresh[i] % 256) as u8;
        i += 1;
    }
    assert(out@ =~= with_prefix(candidate@, fresh@));
    assert(out@.subrange(8, 32) =~= candidate@.subrange(8, 32));
    out
}

/// The batch of candidates that one worker owns.
pub struct CandidatePool {
    pub candidates: Vec<Word>,
}

impl View for CandidatePool {
    type V = Seq<Word>;

    open spec fn view(&self) -> Seq<Word> {
        self.candidates@
    }
}

impl CandidatePool {
    /// A pool of `batch_size` random candidates.
    pub fn seeded(batch_size: usize) -> (pool: CandidatePool)
        ensures
            pool@.len() == batch_size,
    {
        let mut candidates: Vec<Word> = Vec::new();
        let mut i: usize = 0;
        while i < batch_size
            invariant
                i <= batch_size,
                candidates@.len() == i,
            decreases batch_size - i,
        {
            candidates.push(random_word());
            i += 1;
        }
        CandidatePool { candidates }
    }

    /// A pool of the given candidates, in their order.
    pub fn from_candidates(candidates: Vec<Word>) -> (pool: CandidatePool)
        ensures
            pool@ == candidates@,
    {
        CandidatePool { candidates }
    }

    /// The number of candidates.
    pub fn len(&self) -> (n: usize)
        ensures
            n == self@.len(),
    {
        self.candidates.len()
    }

    /// The candidate at an index.
    pub fn candidate(&self, index: usize) -> (out: Word)
        requires
            index < self@.len(),
        ensures
            out == self@[index as int],
    {
        self.candidates[index]
    }

    /// Puts `fresh` in place of the first eight bytes of one candidate.
    pub fn reseed(&mut self, index: usize, fresh: &[u32; 8])
        requires
            index < old(self)@.len(),
        ensures
            final(self)@.len() == old(self)@.len(),
            final(self)@[index as int]@ == with_prefix(old(self)@[index as int]@, fresh@),
            forall|j: int| 0 <= j < old(self)@.len() && j != index ==> final(self)@[j] == old(self)@[j],
    {
        let next = reseed_prefix(&self.candidates[index], fresh);
        self.candidates.set(index, next);
    }

    /// Draws the first eight bytes of one candidate afresh. The other
    /// twenty-four bytes, and every other candidate, stay as they were.
    pub fn mutate(&mut self, index: usize)
        requires
            index < old(self)@.len(),
        ensures
            final(self)@.len() == old(self)@.len(),
            final(self)@[index as int]@.subrange(8, 32) == old(self)@[index as int]@.subrange(8, 32),
            forall|j: int| 0 <= j < old(self)@.len() && j != index ==> final(self)@[j] == old(self)@[j],
    {
        let mut fresh: [u32; 8] = [0u32; 8];
        let mut i: usize = 0;
        while i < 8
            invariant
                i <= 8,
            decreases 8 - i,
        {
            fresh[i] = random_u32();
            i += 1;
        }
        self.reseed(index, &fresh);
        assert(with_prefix(old(self)@[index as int]@, fresh@).subrange(8, 32)
            =~= old(self)@[index as int]@.subrange(8, 32));
    }
}

} // verus!
