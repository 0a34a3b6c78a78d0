//! The values that travel between a client and a node: what a node answers
//! RPC requests with, and the forms in which a client names blocks and bytes.

use crate::error::DecodeError;
use crate::scale::{byte_vec_decoded, decode_byte_vec};
use vstd::prelude::*;
use vstd::std_specs::convert::{FromSpecImpl, TryFromSpecImpl};

verus! {

/// An unsigned integer of 256 bits, as its two halves.
#[derive(Clone, Copy, Debug, PartialEq, Eq, Structural)]
pub struct U256 {
    /// The upper 128 bits.
    pub high: u128,
    /// The lower 128 bits.
    pub low: u128,
}

impl U256 {
    /// The number.
    pub open spec fn value(self) -> nat {
        (self.high as nat) * 0x1_0000_0000_0000_0000_0000_0000_0000_0000 + self.low as nat
    }
}

impl From<u64> for U256 {
    fn from(n: u64) -> (r: U256) {
        U256 { high: 0, low: n as u128 }
    }
}

impl FromSpecImpl<u64> for U256 {
    open spec fn obeys_from_spec() -> bool {
        true
    }

    open spec fn from_spec(n: u64) -> U256 {
        U256 { high: 0, low: n as u128 }
    }
}

impl From<u128> for U256 {
    fn from(n: u128) -> (r: U256) {
        U256 { high: 0, low: n }
    }
}

impl FromSpecImpl<u128> for U256 {
    open spec fn obeys_from_spec() -> bool {
        true
    }

    open spec fn from_spec(n: u128) -> U256 {
        U256 { high: 0, low: n }
    }
}

/// A number that is written either as a number or as a text of hexadecimal
/// digits. The second form holds what a `u64` cannot.
#[derive(Clone, Copy, Debug, PartialEq, Eq, Structural)]
pub enum NumberOrHex {
    /// The number represented directly.
    Number(u64),
    /// Hex representation of the number.
    Hex(U256),
}

impl NumberOrHex {
    /// The number, in whichever form it is held.
    pub open spec fn value(self) -> nat {
        match self {
            NumberOrHex::Number(n) => n as nat,
            NumberOrHex::Hex(h) => h.value(),
        }
    }

    /// Converts this number into an U256.
    pub fn into_u256(self) -> (r: U256)
        ensures
            r.value() == self.value(),
            self matches NumberOrHex::Hex(h) ==> r == h,
            self matches NumberOrHex::Number(n) ==> r == (U256 { high: 0, low: n as u128 }),
    {
        match self {
            NumberOrHex::Number(n) => U256 { high: 0, low: n as u128 },
            NumberOrHex::Hex(h) => h,
        }
    }
}

impl Default for NumberOrHex {
    fn default() -> (r: Self)
        ensures
            r == NumberOrHex::Number(0),
    {
        NumberOrHex::Number(0)
    }
}

impl From<u32> for NumberOrHex {
    fn from(n: u32) -> (r: NumberOrHex) {
        NumberOrHex::Number(n as u64)
    }
}

impl FromSpecImpl<u32> for NumberOrHex {
    open spec fn obeys_from_spec() -> bool {
        true
    }

    open spec fn from_spec(n: u32) -> NumberOrHex {
        NumberOrHex::Number(n as u64)
    }
}

impl From<u64> for NumberOrHex {
    fn from(n: u64) -> (r: NumberOrHex) {
        NumberOrHex::Number(n)
    }
}

impl FromSpecImpl<u64> for NumberOrHex {
    open spec fn obeys_from_spec() -> bool {
        true
    }

    open spec fn from_spec(n: u64) -> NumberOrHex {
        NumberOrHex::Number(n)
    }
}

impl From<u128> for NumberOrHex {
    fn from(n: u128) -> (r: NumberOrHex) {
        NumberOrHex::Hex(U256 { high: 0, low: n })
    }
}

impl FromSpecImpl<u128> for NumberOrHex {
    open spec fn obeys_from_spec() -> bool {
        true
    }

    open spec fn from_spec(n: u128) -> NumberOrHex {
        NumberOrHex::Hex(U256 { high: 0, low: n })
    }
}

impl From<U256> for NumberOrHex {
    fn from(n: U256) -> (r: NumberOrHex) {
        NumberOrHex::Hex(n)
    }
}

impl FromSpecImpl<U256> for NumberOrHex {
    open spec fn obeys_from_spec() -> bool {
        true
    }

    open spec fn from_spec(n: U256) -> NumberOrHex {
        NumberOrHex::Hex(n)
    }
}

impl From<NumberOrHex> for U256 {
    fn from(n: NumberOrHex) -> (r: U256) {
        n.into_u256()
    }
}

impl FromSpecImpl<NumberOrHex> for U256 {
    open spec fn obeys_from_spec() -> bool {
        true
    }

    open spec fn from_spec(n: NumberOrHex) -> U256 {
        match n {
            NumberOrHex::Number(n) => U256 { high: 0, low: n as u128 },
            NumberOrHex::Hex(h) => h,
        }
    }
}

/// An error type that signals an out-of-range conversion attempt.
#[derive(Clone, Copy, Debug, PartialEq, Eq, Structural)]
pub struct TryFromIntError;

impl TryFrom<NumberOrHex> for u32 {
    type Error = TryFromIntError;

    fn try_from(n: NumberOrHex) -> (r: Result<u32, TryFromIntError>) {
        let wide = n.into_u256();
        if wide.high == 0 && wide.low <= u32::MAX as u128 {
            Ok(wide.low as u32)
        } else {
            Err(TryFromIntError)
        }
    }
}

impl TryFromSpecImpl<NumberOrHex> for u32 {
    open spec fn obeys_try_from_spec() -> bool {
        true
    }

    open spec fn try_from_spec(n: NumberOrHex) -> Result<u32, TryFromIntError> {
        if n.value() <= u32::MAX {
            Ok(n.value() as u32)
        } else {
            Err(TryFromIntError)
        }
    }
}

impl TryFrom<NumberOrHex> for u64 {
    type Error = TryFromIntError;

    fn try_from(n: NumberOrHex) -> (r: Result<u64, TryFromIntError>) {
        let wide = n.into_u256();
        if wide.high == 0 && wide.low <= u64::MAX as u128 {
            Ok(wide.low as u64)
        } else {
            Err(TryFromIntError)
        }
    }
}

impl TryFromSpecImpl<NumberOrHex> for u64 {
    open spec fn obeys_try_from_spec() -> bool {
        true
    }

    open spec fn try_from_spec(n: NumberOrHex) -> Result<u64, TryFromIntError> {
        if n.value() <= u64::MAX {
            Ok(n.value() as u64)
        } else {
            Err(TryFromIntError)
        }
    }
}

impl TryFrom<NumberOrHex> for u128 {
    type Error = TryFromIntError;

    fn try_from(n: NumberOrHex) -> (r: Result<u128, TryFromIntError>) {
        let wide = n.into_u256();
        if wide.high == 0 {
            Ok(wide.low)
        } else {
            Err(TryFromIntError)
        }
    }
}

impl TryFromSpecImpl<NumberOrHex> for u128 {
    open spec fn obeys_try_from_spec() -> bool {
        true
    }

    open spec fn try_from_spec(n: NumberOrHex) -> Result<u128, TryFromIntError> {
        if n.value() <= u128::MAX {
            Ok(n.value() as u128)
        } else {
            Err(TryFromIntError)
        }
    }
}

/// The number of a block, in the form in which a request names it.
#[derive(Clone, Copy, Debug, PartialEq, Eq, Structural)]
pub struct BlockNumber(pub NumberOrHex);

impl From<NumberOrHex> for BlockNumber {
    fn from(x: NumberOrHex) -> (r: BlockNumber) {
        BlockNumber(x)
    }
}

impl FromSpecImpl<NumberOrHex> for BlockNumber {
    open spec fn obeys_from_spec() -> bool {
        true
    }

    open spec fn from_spec(x: NumberOrHex) -> BlockNumber {
        BlockNumber(x)
    }
}

impl From<u8> for BlockNumber {
    fn from(x: u8) -> (r: BlockNumber) {
        BlockNumber(NumberOrHex::Number(x as u64))
    }
}

impl FromSpecImpl<u8> for BlockNumber {
    open spec fn obeys_from_spec() -> bool {
        true
    }

    open spec fn from_spec(x: u8) -> BlockNumber {
        BlockNumber(NumberOrHex::Number(x as u64))
    }
}

impl From<u16> for BlockNumber {
    fn from(x: u16) -> (r: BlockNumber) {
        BlockNumber(NumberOrHex::Number(x as u64))
    }
}

impl FromSpecImpl<u16> for BlockNumber {
    open spec fn obeys_from_spec() -> bool {
        true
    }

    open spec fn from_spec(x: u16) -> BlockNumber {
        BlockNumber(NumberOrHex::Number(x as u64))
    }
}

impl From<u32> for BlockNumber {
    fn from(x: u32) -> (r: BlockNumber) {
        BlockNumber(NumberOrHex::Number(x as u64))
    }
}

impl FromSpecImpl<u32> for BlockNumber {
    open spec fn obeys_from_spec() -> bool {
        true
    }

    open spec fn from_spec(x: u32) -> BlockNumber {
        BlockNumber(NumberOrHex::Number(x as u64))
    }
}

impl From<u64> for BlockNumber {
    fn from(x: u64) -> (r: BlockNumber) {
        BlockNumber(NumberOrHex::Number(x))
    }
}

impl FromSpecImpl<u64> for BlockNumber {
    open spec fn obeys_from_spec() -> bool {
        true
    }

    open spec fn from_spec(x: u64) -> BlockNumber {
        BlockNumber(NumberOrHex::Number(x))
    }
}

/// Bytes representing an extrinsic in a block.
#[derive(Clone, Debug, PartialEq, Eq)]
pub struct ChainBlockExtrinsic(pub Vec<u8>);

impl ChainBlockExtrinsic {
    /// The extrinsic that `encoded` holds behind a length prefix, as a node
    /// reports it. What follows the extrinsic in `encoded` is passed over.
    pub fn decode(encoded: &[u8]) -> (r: Result<ChainBlockExtrinsic, DecodeError>)
        ensures
            match r {
                Ok(extrinsic) => byte_vec_decoded(encoded@) matches Some((bytes, _))
                    && extrinsic.0@ == bytes,
                Err(e) => e == DecodeError::Codec && byte_vec_decoded(encoded@) is None,
            },
    {
        let mut input: &[u8] = encoded;
        match decode_byte_vec(&mut input) {
            Ok(bytes) => Ok(ChainBlockExtrinsic(bytes)),
            Err(_) => Err(DecodeError::Codec),
        }
    }
}

/// Possible transaction status events.
#[derive(Clone, Debug, PartialEq, Eq)]
pub enum SubstrateTxStatus<Hash, BlockHash> {
    /// Transaction is part of the future queue.
    Future,
    /// Transaction is part of the ready queue.
    Ready,
    /// The transaction has been broadcast to the given peers.
    Broadcast(Vec<String>),
    /// Transaction has been included in block with given hash.
    InBlock(BlockHash),
    /// The block this transaction was included in has been retracted.
    Retracted(BlockHash),
    /// Maximum number of finality watchers has been reached,
    /// old watchers are being removed.
    FinalityTimeout(BlockHash),
    /// Transaction has been finalized by a finality-gadget, e.g GRANDPA
    Finalized(BlockHash),
    /// Transaction has been replaced in the pool, by another transaction
    /// that provides the same tags. (e.g. same (sender, nonce)).
    Usurped(Hash),
    /// Transaction has been dropped from the pool because of the limit.
    Dropped,
    /// Transaction is no longer valid in the current state.
    Invalid,
}

/// Statistics of a block returned by the `dev_getBlockStats` RPC.
#[derive(Clone, Copy, Debug, PartialEq, Eq, Structural)]
pub struct BlockStats {
    /// The length in bytes of the storage proof produced by executing the block.
    pub witness_len: u64,
    /// The length in bytes of the storage proof after compaction.
    pub witness_compact_len: u64,
    /// Length of the block in bytes.
    pub block_len: u64,
    /// Number of extrinsics in the block.
    pub num_extrinsics: u64,
}

/// Health struct returned by the RPC
#[derive(Clone, Copy, Debug, PartialEq, Eq, Structural)]
pub struct Health {
    /// Number of connected peers
    pub peers: usize,
    /// Is the node syncing
    pub is_syncing: bool,
    /// Should this node have any peers
    ///
    /// Might be false for local chains or when running without discovery.
    pub should_have_peers: bool,
}

/// The digit of a number below 16, in lower case.
pub open spec fn hex_digit(nibble: u8) -> char {
    if nibble < 10 {
        ((0x30 + nibble) as u8) as char
    } else {
        ((0x57 + nibble) as u8) as char
    }
}

/// The text of two hexadecimal digits for each byte, the upper four bits
/// first.
pub open spec fn hex_encoded(bytes: Seq<u8>) -> Seq<char> {
    Seq::new(
        2 * bytes.len(),
        |i: int|
            if i % 2 == 0 {
                hex_digit(bytes[i / 2] / 16)
            } else {
                hex_digit(bytes[i / 2] % 16)
            },
    )
}

/// Calls `hex::encode`. Trusted: the text holds two lower-case hexadecimal
/// digits for each byte, in the order of the bytes, the upper four bits of a
/// byte first.
#[verifier::external_body]
pub(crate) fn hex_encode(bytes: &[u8]) -> (r: String)
    ensures
        r@ == hex_encoded(bytes@),
{
    hex::encode(bytes)
}

/// The bytes as a text of hexadecimal digits behind `0x`, the form in which a
/// request names a storage key.
pub fn to_hex(bytes: &[u8]) -> (r: String)
    ensures
        r@ == seq!['0', 'x'] + hex_encoded(bytes@),
{
    let mut text = String::from_str("0x");
    proof {
        reveal_strlit("0x");
    }
    let digits = hex_encode(bytes);
    text.append(digits.as_str());
    assert(text@ == seq!['0', 'x'] + hex_encoded(bytes@));
    text
}

} // verus!
