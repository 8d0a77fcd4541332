//! The difficulty rule: which candidates a session accepts.

use crate::word::{
    be_value, is_zero_word, lemma_be_value_bound, lemma_be_value_injective, max_word,
    max_word_bytes, word_div, word_ge, word_of, xor_bytes, xor_words, Word,
};
use ethers::utils::keccak256;
use vstd::arithmetic::div_mod::{lemma_div_is_ordered_by_denominator, lemma_div_non_zero};
use vstd::prelude::*;

verus! {

/// The Keccak-256 digest of a byte sequence, as `ethers::utils::keccak256`
/// computes it.
pub uninterp spec fn keccak256_digest(input: Seq<u8>) -> Seq<u8>;

/// Calls `ethers::utils::keccak256`, which feeds the bytes to one Keccak-256
/// hasher and returns its 32-byte output. The contract only gives that output
/// its name: it depends on the input bytes and on nothing else.
#[verifier::external_body]
pub(crate) fn keccak256_of(input: &[u8]) -> (out: Word)
    ensures
        out@ == keccak256_digest(input@),
{
    keccak256(input)
}

/// What the rule computes for one candidate.
#[derive(Clone, Copy, Debug)]
pub struct DifficultyResult {
    /// The session hash combined with the candidate's digest.
    pub result_hash: Word,
    /// 2^256 - 1 divided by the result hash; absent when the result hash is zero.
    pub external_value: Option<Word>,
    /// Whether the external value reaches the target.
    pub passes: bool,
}

/// The result hash of a digest under a session hash.
pub open spec fn result_hash_of(session_hash: Seq<u8>, digest: Seq<u8>) -> Seq<u8> {
    xor_bytes(session_hash, digest)
}

/// The external value of a result hash: none for zero, else the quotient.
pub open spec fn external_value_of(result_hash: Seq<u8>) -> Option<nat> {
    if be_value(result_hash) == 0 {
        None
    } else {
        Some(max_word() / be_value(result_hash))
    }
}

/// Whether a result hash meets a target: it is not zero and its external value
/// is at least the target.
pub open spec fn meets(result_hash: Seq<u8>, target: nat) -> bool {
    be_value(result_hash) != 0 && max_word() / be_value(result_hash) >= target
}

/// Whether a session with the given value and gas target accepts a candidate.
pub open spec fn accepts(session_hash: Seq<u8>, candidate: Seq<u8>, gas_target: u64) -> bool {
    meets(result_hash_of(session_hash, keccak256_digest(candidate)), gas_target as nat)
}

impl DifficultyResult {
    /// The external value as a number.
    pub open spec fn external_number(self) -> Option<nat> {
        match self.external_value {
            Some(word) => Some(be_value(word@)),
            None => None,
        }
    }

    /// Whether this is the result for a digest under a session hash and a target.
    pub open spec fn describes(self, session_hash: Seq<u8>, digest: Seq<u8>, target: nat) -> bool {
        &&& self.result_hash@ == result_hash_of(session_hash, digest)
        &&& self.external_number() == external_value_of(self.result_hash@)
        &&& self.passes == meets(self.result_hash@, target)
    }
}

/// Applies the rule to a candidate's digest, with a target of full width.
/// A zero result hash is a plain failure: nothing is divided.
pub fn evaluate_digest(session_hash: &Word, digest: &Word, target: &Word) -> (res: DifficultyResult)
    ensures
        res.describes(session_hash@, digest@, be_value(target@)),
        be_value(res.result_hash@) == 0 ==> !res.passes && res.external_value is None,
{
    let result_hash = xor_words(session_hash, digest);
    if is_zero_word(&result_hash) {
        return DifficultyResult { result_hash, external_value: None, passes: false };
    }
    let ceiling = max_word_bytes();
    let external = word_div(&ceiling, &result_hash);
    let passes = word_ge(&external, target);
    DifficultyResult { result_hash, external_value: Some(external), passes }
}

/// Applies the rule to a candidate: hashes it and compares the external value
/// of the result hash with the gas target.
pub fn evaluate(session_hash: &Word, candidate: &Word, gas_target: u64) -> (res: DifficultyResult)
    ensures
        res.describes(session_hash@, keccak256_digest(candidate@), gas_target as nat),
        res.passes == accepts(session_hash@, candidate@, gas_target),
        be_value(res.result_hash@) == 0 ==> !res.passes && res.external_value is None,
{
    let digest = keccak256_of(candidate.as_slice());
    let target = word_of(gas_target);
    evaluate_digest(session_hash, &digest, &target)
}

/// The rule is a function of its inputs: two results for the same session
/// value, digest and target agree in every field.
pub proof fn lemma_evaluation_deterministic(
    first: DifficultyResult,
    second: DifficultyResult,
    session_hash: Seq<u8>,
    digest: Seq<u8>,
    target: nat,
)
    requires
        first.describes(session_hash, digest, target),
        second.describes(session_hash, digest, target),
    ensures
        first.passes == second.passes,
        first.external_number() == second.external_number(),
        first == second,
{
    assert(first.result_hash@ == second.result_hash@);
    assert(first.result_hash == second.result_hash);
    match (first.external_value, second.external_value) {
        (Some(a), Some(b)) => {
            lemma_be_value_injective(a@, b@);
            assert(a == b);
        },
        _ => {},
    }
}

/// A zero result hash never meets a target, whatever the target is.
pub proof fn lemma_zero_result_fails(result_hash: Seq<u8>, target: nat)
    requires
        be_value(result_hash) == 0,
    ensures
        !meets(result_hash, target),
        external_value_of(result_hash) is None,
{
}

/// With a target of one or less, every result hash of 32 bytes but zero passes.
pub proof fn lemma_unit_target(result_hash: Seq<u8>, target: nat)
    requires
        result_hash.len() == 32,
        target <= 1,
    ensures
        meets(result_hash, target) <==> be_value(result_hash) != 0,
{
    lemma_be_value_bound(result_hash);
    let r = be_value(result_hash);
    if r != 0 {
        lemma_div_non_zero(max_word() as int, r as int);
    }
}

/// With the largest target, 2^256 - 1, only the result hash one passes.
pub proof fn lemma_extreme_target(result_hash: Seq<u8>)
    ensures
        meets(result_hash, max_word()) <==> be_value(result_hash) == 1,
{
    let r = be_value(result_hash) as int;
    let m = max_word() as int;
    assert(m > 0) by {
        vstd::arithmetic::power::lemma_pow_strictly_increases(256, 0, 32);
        vstd::arithmetic::power::lemma_pow0(256);
    }
    if r >= 2 {
        lemma_div_is_ordered_by_denominator(m, 2, r);
        assert(m / 2 < m);
    }
}

} // verus!
