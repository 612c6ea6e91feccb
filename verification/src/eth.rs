//! Ethereum values as plain data, and the calls into `ethers` that parse,
//! format and encode them.

use vstd::prelude::*;
use crate::text::{all_dec_digits, dec_digits, dec_value, fixed_digits, hex_digit_value, hex_lower, is_hex_digit};

verus! {

/// Wei in one ether.
pub open spec fn wei_per_ether() -> nat {
    1_000_000_000_000_000_000
}

/// 2^64.
pub open spec fn limb_base() -> nat {
    0x1_0000_0000_0000_0000
}

/// 2^256, the bound of a 256-bit unsigned integer.
pub open spec fn u256_bound() -> nat {
    limb_base() * limb_base() * limb_base() * limb_base()
}

/// The number that four 64-bit limbs hold, least significant limb first
/// (the layout of `ethers::types::U256`).
pub open spec fn u256_value(limbs: [u64; 4]) -> nat {
    (limbs@[0] + limbs@[1] * limb_base() + limbs@[2] * (limb_base() * limb_base())
        + limbs@[3] * (limb_base() * limb_base() * limb_base())) as nat
}

/// Whether `s` is the decimal text of a 256-bit unsigned integer: decimal
/// digits only (the empty text reads as zero), with a value below 2^256.
pub open spec fn fits_u256_decimal(s: Seq<char>) -> bool {
    all_dec_digits(s) && dec_value(s) < u256_bound()
}

/// An amount of wei written in ether: the whole ethers, a point, and
/// eighteen digits of the fraction.
pub open spec fn ether_text(wei: nat) -> Seq<char> {
    dec_digits(wei / wei_per_ether()) + seq!['.'] + fixed_digits(wei % wei_per_ether(), 18)
}

/// The `Debug` text of a fixed-size hash: `0x` and its bytes in lower-case hex.
pub open spec fn prefixed_hex(bytes: Seq<u8>) -> Seq<char> {
    seq!['0', 'x'] + hex_lower(bytes)
}

/// Characters that hex decoding skips.
pub open spec fn is_hex_space(c: char) -> bool {
    c == ' ' || c == '\r' || c == '\n' || c == '\t'
}

/// The text of an address without its `0x` prefix, if it has one.
pub open spec fn address_digits_text(s: Seq<char>) -> Seq<char> {
    if s.len() >= 2 && s[0] == '0' && s[1] == 'x' {
        s.subrange(2, s.len() as int)
    } else {
        s
    }
}

/// The hex digits of an address text, spaces left out.
pub open spec fn address_hex_digits(s: Seq<char>) -> Seq<char> {
    address_digits_text(s).filter(|c: char| is_hex_digit(c))
}

/// Whether `s` reads as an address: after an optional `0x`, only hex digits
/// and spaces, with exactly forty digits.
pub open spec fn is_address_text(s: Seq<char>) -> bool {
    &&& forall|i: int|
        0 <= i < address_digits_text(s).len() ==> is_hex_digit(#[trigger] address_digits_text(s)[i])
            || is_hex_space(address_digits_text(s)[i])
    &&& address_hex_digits(s).len() == 40
}

/// The bytes that the hex digits `h` write, two digits per byte.
pub open spec fn hex_bytes(h: Seq<char>) -> Seq<u8> {
    Seq::new(
        h.len() / 2,
        |i: int| (hex_digit_value(h[2 * i]) * 16 + hex_digit_value(h[2 * i + 1])) as u8,
    )
}

/// The twenty bytes of the address that `s` reads as.
pub open spec fn address_bytes(s: Seq<char>) -> Seq<u8> {
    hex_bytes(address_hex_digits(s))
}

/// 256 to the power `k`.
pub open spec fn pow256(k: nat) -> nat
    decreases k,
{
    if k == 0 {
        1
    } else {
        256 * pow256((k - 1) as nat)
    }
}

/// A 32-byte big-endian word holding `v` (modulo 2^256).
pub open spec fn word(v: nat) -> Seq<u8> {
    Seq::new(32, |i: int| ((v / pow256((31 - i) as nat)) % 256) as u8)
}

/// `n` zero bytes.
pub open spec fn zeros(n: nat) -> Seq<u8> {
    Seq::new(n, |i: int| 0u8)
}

/// The ABI encoding of the arguments `(address, uint256, bytes)`: the
/// address and the number in a word each, the offset of the tail (three
/// words), then the length of the bytes, the bytes, and zeros up to a whole
/// number of words.
pub open spec fn abi_address_uint_bytes(to: Seq<u8>, value: nat, data: Seq<u8>) -> Seq<u8> {
    zeros(12) + to + word(value) + word(96) + word(data.len()) + data + zeros(
        ((32 - data.len() % 32) % 32) as nat,
    )
}

/// Reads a decimal text as a 256-bit unsigned integer with
/// `U256::from_dec_str`, giving its limbs: the text reads iff it is made of
/// decimal digits and its value stays below 2^256, and then the limbs hold
/// that value.
#[verifier::external_body]
pub(crate) fn u256_from_dec_str(s: &str) -> (r: Option<[u64; 4]>)
    ensures
        r is Some <==> fits_u256_decimal(s@),
        r matches Some(l) ==> u256_value(l) == dec_value(s@),
{
    ethers::types::U256::from_dec_str(s).ok().map(|v| v.0)
}

/// Writes an amount of wei in ether with `ethers::utils::format_ether`:
/// the quotient by 10^18 in decimal, a point, and the remainder in eighteen
/// zero-padded digits.
#[verifier::external_body]
pub(crate) fn format_ether(amount: [u64; 4]) -> (r: String)
    ensures
        r@ == ether_text(u256_value(amount)),
{
    ethers::utils::format_ether(ethers::types::U256(amount))
}

/// Reads an address with `Address::from_str`: an optional `0x` prefix, then
/// forty hex digits in either case, spaces, tabs and line breaks skipped.
#[verifier::external_body]
pub(crate) fn parse_address(s: &str) -> (r: Option<[u8; 20]>)
    ensures
        r is Some <==> is_address_text(s@),
        r matches Some(a) ==> a@ == address_bytes(s@),
{
    s.parse::<ethers::types::Address>().ok().map(|a| a.0)
}

/// The `Debug` text of an address (`format!("{:?}", address)`): `0x` and its
/// twenty bytes in lower-case hex.
#[verifier::external_body]
pub(crate) fn address_text(address: [u8; 20]) -> (r: String)
    ensures
        r@ == prefixed_hex(address@),
{
    format!("{:?}", ethers::types::Address::from(address))
}

/// The `Debug` text of a 32-byte hash (`format!("{:?}", hash)`): `0x` and its
/// bytes in lower-case hex.
#[verifier::external_body]
pub(crate) fn hash_text(hash: [u8; 32]) -> (r: String)
    ensures
        r@ == prefixed_hex(hash@),
{
    format!("{:?}", ethers::types::H256::from(hash))
}

/// The Keccak-256 hash of the UTF-8 bytes of a text.
pub uninterp spec fn keccak256_text(text: Seq<char>) -> Seq<u8>;

/// The Keccak-256 hash of a text's bytes, from `ethers::utils::keccak256`.
#[verifier::external_body]
pub(crate) fn keccak256(text: &str) -> (r: [u8; 32])
    ensures
        r@ == keccak256_text(text@),
{
    ethers::utils::keccak256(text.as_bytes())
}

/// The largest argument data that the ABI encoder handles: its offsets and
/// lengths are 32-bit numbers, and the encoding of the arguments adds four
/// words and up to 31 padding bytes to the data.
pub open spec fn max_abi_data_len() -> nat {
    0xffff_ff3f
}

/// The limbs of `U256::from(x)`: `x` in the lowest limb.
pub fn u256_from_u64(x: u64) -> (r: [u64; 4])
    ensures
        u256_value(r) == x,
{
    let r = [x, 0, 0, 0];
    assert(r@[0] == x && r@[1] == 0 && r@[2] == 0 && r@[3] == 0);
    r
}

} // verus!
