//! 256-bit unsigned words, held as 32 bytes with the most significant first.

use ethers::types::U256;
use vstd::arithmetic::power::*;
use vstd::arithmetic::power2::{lemma_pow2, pow2};
use vstd::prelude::*;

verus! {

/// A 256-bit word, most significant byte first.
pub type Word = [u8; 32];

/// The number that a byte sequence denotes, most significant byte first.
pub open spec fn be_value(bytes: Seq<u8>) -> nat
    decreases bytes.len(),
{
    if bytes.len() == 0 {
        0
    } else {
        be_value(bytes.drop_last()) * 256 + bytes.last() as nat
    }
}

/// The `len` bytes that denote `value`, most significant byte first.
pub open spec fn be_bytes(value: nat, len: nat) -> Seq<u8>
    decreases len,
{
    if len == 0 {
        Seq::empty()
    } else {
        be_bytes(value / 256, (len - 1) as nat).push((value % 256) as u8)
    }
}

/// The largest number a word can hold: 2^256 - 1.
pub open spec fn max_word() -> nat {
    (pow(256, 32) - 1) as nat
}

/// Byte-by-byte exclusive-or of two sequences of the same length.
pub open spec fn xor_bytes(a: Seq<u8>, b: Seq<u8>) -> Seq<u8> {
    Seq::new(a.len(), |i: int| a[i] ^ b[i])
}

/// A sequence of `len` bytes that are all `0xff`.
pub open spec fn ones(len: nat) -> Seq<u8> {
    Seq::new(len, |i: int| 0xffu8)
}

/// A sequence of bytes denotes a number below 256 to the power of its length.
pub proof fn lemma_be_value_bound(bytes: Seq<u8>)
    ensures
        be_value(bytes) < pow(256, bytes.len()),
    decreases bytes.len(),
{
    reveal(pow);
    if bytes.len() > 0 {
        lemma_be_value_bound(bytes.drop_last());
    }
}

/// A sequence of bytes denotes zero exactly when every byte is zero.
pub proof fn lemma_be_value_zero(bytes: Seq<u8>)
    ensures
        be_value(bytes) == 0 <==> (forall|i: int| 0 <= i < bytes.len() ==> bytes[i] == 0),
    decreases bytes.len(),
{
    if bytes.len() > 0 {
        let front = bytes.drop_last();
        lemma_be_value_zero(front);
        if be_value(bytes) == 0 {
            assert forall|i: int| 0 <= i < bytes.len() implies bytes[i] == 0 by {
                if i < bytes.len() - 1 {
                    assert(front[i] == bytes[i]);
                }
            }
        }
        if forall|i: int| 0 <= i < bytes.len() ==> bytes[i] == 0 {
            assert(bytes.last() == 0);
            assert forall|i: int| 0 <= i < front.len() implies front[i] == 0 by {
                assert(front[i] == bytes[i]);
            }
        }
    }
}

/// Two byte sequences of one length that denote the same number are equal.
pub proof fn lemma_be_value_injective(a: Seq<u8>, b: Seq<u8>)
    requires
        a.len() == b.len(),
        be_value(a) == be_value(b),
    ensures
        a == b,
    decreases a.len(),
{
    if a.len() > 0 {
        lemma_be_value_injective(a.drop_last(), b.drop_last());
        assert(a =~= a.drop_last().push(a.last()));
        assert(b =~= b.drop_last().push(b.last()));
    } else {
        assert(a =~= b);
    }
}

/// Encoding a number that fits in `len` bytes and reading it back gives the number.
pub proof fn lemma_be_bytes_value(value: nat, len: nat)
    requires
        value < pow(256, len),
    ensures
        be_bytes(value, len).len() == len,
        be_value(be_bytes(value, len)) == value,
    decreases len,
{
    reveal(pow);
    if len > 0 {
        let front = be_bytes(value / 256, (len - 1) as nat);
        lemma_be_bytes_value(value / 256, (len - 1) as nat);
        let all = front.push((value % 256) as u8);
        assert(all.drop_last() =~= front);
    }
}

/// Bytes that are all `0xff` denote the largest number of their length.
pub proof fn lemma_ones_value(len: nat)
    ensures
        be_value(ones(len)) + 1 == pow(256, len),
    decreases len,
{
    reveal(pow);
    if len > 0 {
        lemma_ones_value((len - 1) as nat);
        assert(ones(len).drop_last() =~= ones((len - 1) as nat));
    }
}

/// The largest word is 2^256 - 1.
pub proof fn lemma_max_word_is_pow2()
    ensures
        max_word() == pow2(256) - 1,
{
    lemma_pow2(256);
    lemma_pow_multiplies(2, 8, 32);
    assert(pow(2, 8) == 256) by {
        reveal_with_fuel(pow, 9);
    }
    assert(8nat * 32nat == 256nat);
    assert(pow(pow(2, 8), 32) == pow(2, 256));
    assert(pow(256, 32) == pow(2, 256));
    lemma_pow_positive(256, 32);
}

/// Every 64-bit number fits in a word.
pub proof fn lemma_u64_fits_word(n: u64)
    ensures
        n < pow(256, 32),
{
    lemma_pow_strictly_increases(256, 8, 32);
    lemma_u64_below_pow(n);
}

proof fn lemma_u64_below_pow(n: u64)
    ensures
        n < pow(256, 8),
{
    assert(pow(256, 8) == 0x1_0000_0000_0000_0000int) by {
        reveal_with_fuel(pow, 9);
    }
}

/// The exclusive-or of two words.
pub fn xor_words(a: &Word, b: &Word) -> (out: Word)
    ensures
        out@ == xor_bytes(a@, b@),
{
    let mut out: Word = [0u8; 32];
    let mut i: usize = 0;
    while i < 32
        invariant
            i <= 32,
            forall|j: int| 0 <= j < i ==> out@[j] == a@[j] ^ b@[j],
        decreases 32 - i,
    {
        out[i] = a[i] ^ b[i];
        i += 1;
    }
    assert(out@ =~= xor_bytes(a@, b@));
    out
}

/// Whether a word denotes zero.
pub fn is_zero_word(a: &Word) -> (zero: bool)
    ensures
        zero == (be_value(a@) == 0),
{
    let mut i: usize = 0;
    while i < 32
        invariant
            i <= 32,
            forall|j: int| 0 <= j < i ==> a@[j] == 0,
        decreases 32 - i,
    {
        if a[i] != 0 {
            proof {
                lemma_be_value_zero(a@);
            }
            return false;
        }
        i += 1;
    }
    proof {
        lemma_be_value_zero(a@);
    }
    true
}

/// The word that denotes 2^256 - 1.
pub fn max_word_bytes() -> (out: Word)
    ensures
        be_value(out@) == max_word(),
{
    let out: Word = [0xffu8; 32];
    proof {
        lemma_ones_value(32);
        assert(out@ =~= ones(32));
    }
    out
}

/// Calls `U256::from_big_endian` on both words, divides the first by the second
/// with `U256`'s `/`, and writes the quotient back with `U256::to_big_endian`.
/// The contract claims that this is truncating division of the numbers the
/// words denote. `U256` panics on a zero divisor, which `requires` leaves out.
#[verifier::external_body]
pub(crate) fn word_div(a: &Word, b: &Word) -> (out: Word)
    requires
        be_value(b@) != 0,
    ensures
        be_value(out@) == be_value(a@) / be_value(b@),
{
    let quotient = U256::from_big_endian(a) / U256::from_big_endian(b);
    let mut out = [0u8; 32];
    quotient.to_big_endian(&mut out);
    out
}

/// Calls `U256::from_big_endian` on both words and compares them with `U256`'s
/// `>=`. The contract claims that this is the order of the numbers the words
/// denote.
#[verifier::external_body]
pub(crate) fn word_ge(a: &Word, b: &Word) -> (ge: bool)
    ensures
        ge == (be_value(a@) >= be_value(b@)),
{
    U256::from_big_endian(a) >= U256::from_big_endian(b)
}

/// Calls `U256::from` on a 64-bit number and writes it out with
/// `U256::to_big_endian`. The contract claims that the 32 bytes are the
/// number's big-endian encoding: 24 zero bytes, then its own 8 bytes.
#[verifier::external_body]
pub(crate) fn word_from_u64(n: u64) -> (out: Word)
    ensures
        out@ == be_bytes(n as nat, 32),
{
    let mut out = [0u8; 32];
    U256::from(n).to_big_endian(&mut out);
    out
}

/// The word that denotes a 64-bit number.
pub fn word_of(n: u64) -> (out: Word)
    ensures
        out@ == be_bytes(n as nat, 32),
        be_value(out@) == n,
{
    proof {
        lemma_u64_fits_word(n);
        lemma_be_bytes_value(n as nat, 32);
    }
    word_from_u64(n)
}

} // verus!
