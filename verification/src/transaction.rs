//! The gas request itself: what the transaction carries once a gas price is
//! found.

use crate::miner::AddressBytes;
use crate::word::Word;
use ethers::utils::hex::FromHexError;
use vstd::prelude::*;

verus! {

/// The gas limit of a gas request.
pub const GAS_LIMIT: u64 = 100000;

/// Zero bytes put before the sender's address to fill a 32-byte argument.
pub const ADDRESS_PADDING: usize = 12;

#[verifier::external_type_specification]
#[verifier::external_body]
pub struct ExFromHexError(ethers::utils::hex::FromHexError);

/// The bytes that `hex::decode` of `ethers::utils` reads from a text of hex
/// digits; none where it refuses the text.
pub uninterp spec fn hex_decoded(text: Seq<char>) -> Option<Seq<u8>>;

/// Calls `ethers::utils::hex::decode`, which reads two hex digits per byte,
/// after an optional `0x`, and fails on a text of odd length or with another
/// character in it. The contract only gives the outcome its name: it depends
/// on the text and on nothing else.
#[verifier::external_body]
pub(crate) fn decode_hex(text: &str) -> (res: Result<Vec<u8>, FromHexError>)
    ensures
        res is Ok <==> hex_decoded(text@) is Some,
        res is Ok ==> res->Ok_0@ == hex_decoded(text@)->Some_0,
{
    ethers::utils::hex::decode(text)
}

/// Why a gas request cannot be built.
#[derive(Clone, Copy, Debug, PartialEq, Eq, Structural)]
pub enum TransactionError {
    /// The function selector is not a text of hex digits.
    InvalidSelector,
}

/// A gas request, ready to be signed and sent.
#[derive(Clone, Debug)]
pub struct GasRequest {
    pub from: AddressBytes,
    pub to: AddressBytes,
    pub nonce: u64,
    pub gas_price: Word,
    pub gas: u64,
    pub data: Vec<u8>,
}

/// The call data of a gas request: the selector, then the sender's address as
/// one 32-byte argument, zeros first.
pub open spec fn call_data_of(selector: Seq<u8>, from: Seq<u8>) -> Seq<u8> {
    selector + Seq::new(ADDRESS_PADDING as nat, |i: int| 0u8) + from
}

/// Builds the call data of a gas request from a decoded selector.
pub fn call_data(selector: Vec<u8>, from: &AddressBytes) -> (data: Vec<u8>)
    ensures
        data@ == call_data_of(selector@, from@),
{
    let mut data = selector;
    let mut i: usize = 0;
    while i < ADDRESS_PADDING
        invariant
            i <= ADDRESS_PADDING,
            data@ == selector@ + Seq::new(i as nat, |k: int| 0u8),
        decreases ADDRESS_PADDING - i,
    {
        data.push(0u8);
        i += 1;
        assert(data@ =~= selector@ + Seq::new(i as nat, |k: int| 0u8));
    }
    let mut j: usize = 0;
    while j < 20
        invariant
            j <= 20,
            data@ == selector@ + Seq::new(ADDRESS_PADDING as nat, |k: int| 0u8) + from@.subrange(
                0,
                j as int,
            ),
        decreases 20 - j,
    {
        data.push(from[j]);
        j += 1;
        assert(data@ =~= selector@ + Seq::new(ADDRESS_PADDING as nat, |k: int| 0u8)
            + from@.subrange(0, j as int));
    }
    assert(from@.subrange(0, 20) =~= from@);
    data
}

/// Builds a gas request with a mined gas price. It fails exactly when the
/// function selector cannot be decoded.
pub fn create_transaction(
    from: AddressBytes,
    to: AddressBytes,
    nonce: u64,
    gas_price: Word,
    gas: u64,
    function_signature: &str,
) -> (res: Result<GasRequest, TransactionError>)
    ensures
        res is Ok <==> hex_decoded(function_signature@) is Some,
        res is Err ==> res->Err_0 == TransactionError::InvalidSelector,
        res is Ok ==> {
            let request = res->Ok_0;
            &&& request.from == from
            &&& request.to == to
            &&& request.nonce == nonce
            &&& request.gas_price == gas_price
            &&& request.gas == gas
            &&& request.data@ == call_data_of(hex_decoded(function_signature@)->Some_0, from@)
        },
{
    match decode_hex(function_signature) {
        Ok(selector) => Ok(
            GasRequest { from, to, nonce, gas_price, gas, data: call_data(selector, &from) },
        ),
        Err(_) => Err(TransactionError::InvalidSelector),
    }
}

/// Whether `needle` stands somewhere in `text`.
pub open spec fn occurs_in(needle: Seq<char>, text: Seq<char>) -> bool {
    exists|i: int|
        0 <= i && i + needle.len() <= text.len() && #[trigger] text.subrange(
            i,
            i + needle.len(),
        ) == needle
}

/// Calls `str::contains` with a text as the pattern. The contract claims what
/// its documentation says: the result is whether the pattern matches a part
/// of the text.
#[verifier::external_body]
pub(crate) fn text_contains(text: &str, needle: &str) -> (found: bool)
    ensures
        found == occurs_in(needle@, text@),
{
    text.contains(needle)
}

/// Whether a node's answer says that it refused the signature, which is what
/// a chain answers to an account that does not exist there or has no funds.
pub fn is_signature_rejection(message: &str) -> (hit: bool)
    ensures
        hit == occurs_in("Invalid transaction signature"@, message@),
{
    text_contains(message, "Invalid transaction signature")
}

} // verus!
