//! Recursive Length Prefix encoding, as the relayed event records are framed.

use vstd::prelude::*;
use crate::primitives::be_minimal;

verus! {

/// The header that announces a string (`list == false`) or a list payload of
/// `len` bytes.
pub open spec fn rlp_header(list: bool, len: nat) -> Seq<u8> {
    let short: nat = if list { 0xc0 } else { 0x80 };
    let long: nat = if list { 0xf7 } else { 0xb7 };
    if len < 56 {
        seq![(short + len) as u8]
    } else {
        seq![(long + be_minimal(len).len()) as u8] + be_minimal(len)
    }
}

/// The encoding of a byte string: a single byte below 0x80 stands for itself,
/// anything else follows a string header.
pub open spec fn rlp_bytes(s: Seq<u8>) -> Seq<u8> {
    if s.len() == 1 && s[0] < 0x80 {
        s
    } else {
        rlp_header(false, s.len()) + s
    }
}

/// The encoding of an unsigned integer: its minimal big-endian bytes as a
/// string, with zero as the empty string.
pub open spec fn rlp_uint(n: nat) -> Seq<u8> {
    if n == 0 {
        seq![0x80u8]
    } else if n < 0x80 {
        seq![n as u8]
    } else {
        seq![(0x80 + be_minimal(n).len()) as u8] + be_minimal(n)
    }
}

/// Relies on alloy_rlp::encode for u64: zero as 0x80, values below 0x80 as one
/// byte, others as 0x80 plus their length, then their trimmed big-endian bytes.
#[verifier::external_body]
pub(crate) fn rlp_encode_u64(n: u64) -> (r: Vec<u8>)
    ensures
        r@ == rlp_uint(n as nat),
{
    alloy_rlp::encode(n)
}

/// Relies on alloy_rlp::encode for byte slices: one byte below 0x80 alone,
/// otherwise a string header, then the bytes.
#[verifier::external_body]
pub(crate) fn rlp_encode_bytes(b: &[u8]) -> (r: Vec<u8>)
    ensures
        r@ == rlp_bytes(b@),
{
    alloy_rlp::encode(b)
}

/// Relies on alloy_rlp::Header::encode with `list: true`: the header of a list
/// whose payload is `payload_length` bytes.
#[verifier::external_body]
pub(crate) fn rlp_list_header(payload_length: usize) -> (r: Vec<u8>)
    ensures
        r@ == rlp_header(true, payload_length as nat),
{
    let mut out: Vec<u8> = Vec::new();
    alloy_rlp::Header { list: true, payload_length }.encode(&mut out);
    out
}

} // verus!
