//! SCALE encodings, byte order and the blake2 digests from which pool ids,
//! liquidity token ids and pool accounts are derived.
use frame_support::pallet_prelude::{Decode, Encode};
use frame_support::{Hashable, PalletId};
use sp_runtime::traits::{AccountIdConversion, TrailingZeroInput};
use vstd::prelude::*;

verus! {

/// The SCALE encoding of a `u32`: its four bytes, least significant first.
pub open spec fn le_bytes_u32(x: u32) -> Seq<u8> {
    seq![
        (x % 256) as u8,
        ((x / 256) % 256) as u8,
        ((x / 65536) % 256) as u8,
        (x / 16777216) as u8,
    ]
}

/// The SCALE encoding of a pair of `u32`: the encodings of its two components, one after the other.
pub open spec fn le_bytes_pair(pair: (u32, u32)) -> Seq<u8> {
    le_bytes_u32(pair.0) + le_bytes_u32(pair.1)
}

/// The `u32` whose little-endian bytes are the first four bytes of `s`.
pub open spec fn le_u32_value(s: Seq<u8>) -> int {
    s[0] as int + s[1] as int * 256 + s[2] as int * 65536 + s[3] as int * 16777216
}

/// The `u64` whose little-endian bytes are the first eight bytes of `s`.
pub open spec fn le_u64_value(s: Seq<u8>) -> int {
    le_u32_value(s) + le_u32_value(s.subrange(4, s.len() as int)) * 4294967296
}

/// Lexicographic order on byte strings from position `i` on, as `<` on `Vec<u8>` compares:
/// the first differing byte decides, and a proper prefix comes first.
pub open spec fn lex_lt_from(x: Seq<u8>, y: Seq<u8>, i: int) -> bool
    decreases x.len() - i,
{
    if i < 0 || i >= x.len() {
        i >= 0 && i < y.len()
    } else if i >= y.len() {
        false
    } else if x[i] < y[i] {
        true
    } else if x[i] > y[i] {
        false
    } else {
        lex_lt_from(x, y, i + 1)
    }
}

/// Lexicographic order on byte strings, as `<` on `Vec<u8>` compares.
pub open spec fn lex_lt(x: Seq<u8>, y: Seq<u8>) -> bool {
    lex_lt_from(x, y, 0)
}

/// Two byte strings of equal length are either equal from `i` on, or exactly one of them
/// comes first from `i` on.
pub proof fn lemma_lex_trichotomy(x: Seq<u8>, y: Seq<u8>, i: int)
    requires
        x.len() == y.len(),
        0 <= i <= x.len(),
    ensures
        !(lex_lt_from(x, y, i) && lex_lt_from(y, x, i)),
        lex_lt_from(x, y, i) || lex_lt_from(y, x, i) || (forall|j: int|
            i <= j < x.len() ==> x[j] == y[j]),
    decreases x.len() - i,
{
    if i < x.len() {
        lemma_lex_trichotomy(x, y, i + 1);
        if x[i] == y[i] {
            assert forall|j: int| i <= j < x.len() && (forall|k: int|
                i + 1 <= k < x.len() ==> x[k] == y[k]) implies x[j] == y[j] by {
                if j > i {
                }
            }
        }
    }
}

/// Distinct `u32` values have distinct encodings.
pub proof fn lemma_le_bytes_u32_injective(a: u32, b: u32)
    requires
        le_bytes_u32(a) == le_bytes_u32(b),
    ensures
        a == b,
{
    assert(le_bytes_u32(a)[0] == le_bytes_u32(b)[0]);
    assert(le_bytes_u32(a)[1] == le_bytes_u32(b)[1]);
    assert(le_bytes_u32(a)[2] == le_bytes_u32(b)[2]);
    assert(le_bytes_u32(a)[3] == le_bytes_u32(b)[3]);
    assert(((a % 256) as u8 == (b % 256) as u8 && ((a / 256) % 256) as u8 == ((b / 256)
        % 256) as u8 && ((a / 65536) % 256) as u8 == ((b / 65536) % 256) as u8 && (a
        / 16777216) as u8 == (b / 16777216) as u8) ==> a == b) by (bit_vector);
}

/// Compares two byte strings as `<` on `Vec<u8>` does.
pub fn bytes_lt(x: &Vec<u8>, y: &Vec<u8>) -> (r: bool)
    ensures
        r == lex_lt(x@, y@),
{
    let mut i: usize = 0;
    while i < x.len() && i < y.len()
        invariant
            i <= x@.len(),
            i <= y@.len(),
            lex_lt(x@, y@) == lex_lt_from(x@, y@, i as int),
        decreases x@.len() - i,
    {
        if x[i] < y[i] {
            return true;
        }
        if x[i] > y[i] {
            return false;
        }
        i = i + 1;
    }
    i < y.len()
}

/// The SCALE encoding of an asset id, as `Encode::encode` gives it.
#[verifier::external_body]
pub(crate) fn encode_asset_id(asset_id: u32) -> (bytes: Vec<u8>)
    ensures
        bytes@ == le_bytes_u32(asset_id),
{
    Encode::encode(&asset_id)
}

/// The SCALE encoding of a pool id, as `Encode::encode` gives it for the tuple.
#[verifier::external_body]
pub(crate) fn encode_pool_id(pool_id: &(u32, u32)) -> (bytes: Vec<u8>)
    ensures
        bytes@ == le_bytes_pair(*pool_id),
{
    Encode::encode(pool_id)
}

/// What `frame_support::Hashable::blake2_256` returns for a byte vector: the blake2-256
/// digest of the vector's SCALE encoding (its compact length, then its bytes).
pub uninterp spec fn blake2_256_of_bytes(data: Seq<u8>) -> Seq<u8>;

/// Hashes a byte vector with `frame_support::Hashable::blake2_256`. The contract names the
/// digest and states its length of 32 bytes; what the digest is, is left to the name.
#[verifier::external_body]
pub(crate) fn hash_bytes(data: &Vec<u8>) -> (digest: Vec<u8>)
    ensures
        digest@ == blake2_256_of_bytes(data@),
        digest@.len() == 32,
{
    Hashable::blake2_256(data).to_vec()
}

/// Decodes a `u32` with `Decode::decode` from `sp_runtime::traits::TrailingZeroInput` over
/// `data`: a `u32` reads its four little-endian bytes, which `data` holds, and this input
/// never fails a read.
#[verifier::external_body]
pub(crate) fn decode_u32_trailing_zero(data: &Vec<u8>) -> (value: u32)
    requires
        data@.len() >= 4,
    ensures
        value as int == le_u32_value(data@),
{
    u32::decode(&mut TrailingZeroInput::new(data.as_slice())).expect("Failed to decode lp token id")
}

/// Decodes a `u64` with `Decode::decode` from the front of `data`: its eight little-endian
/// bytes where `data` holds eight, else the decoding fails.
#[verifier::external_body]
pub(crate) fn decode_u64(data: &Vec<u8>) -> (value: Option<u64>)
    ensures
        data@.len() >= 8 ==> value is Some && value->0 as int == le_u64_value(data@),
        data@.len() < 8 ==> value is None,
{
    u64::decode(&mut data.as_slice()).ok()
}

/// The account that `AccountIdConversion::into_account_truncating` gives a `PalletId` for a
/// `u64` account id: the first eight bytes of `b"modl"` followed by the pallet id, read
/// little-endian.
#[verifier::external_body]
pub(crate) fn pallet_id_into_account(pallet_id: [u8; 8]) -> (account: u64)
    ensures
        account as int == le_u64_value(seq![109u8, 111u8, 100u8, 108u8] + pallet_id@),
{
    PalletId(pallet_id).into_account_truncating()
}

} // verus!
