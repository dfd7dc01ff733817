//! Fixed-width integer decoding over a `Reader`, in either byte order.
//!
//! Each decoder reads exactly `size_of` the integer's width through
//! `Reader::read_bytes` and fails with `EndOfInput` — leaving the cursor
//! unchanged — when fewer bytes remain. Each width/order pair also has an
//! encoder and a proof that decoding an encoded value gives the value back.

use crate::reader::{EndOfInput, Reader};
use vstd::prelude::*;

verus! {

/// The value of the two bytes `s`, most significant byte first.
pub open spec fn u16_of_be_bytes(s: Seq<u8>) -> u16
    recommends
        s.len() == 2,
{
    ((s[0] as u16) << 8) | (s[1] as u16)
}

/// The value of the two bytes `s`, least significant byte first.
pub open spec fn u16_of_le_bytes(s: Seq<u8>) -> u16
    recommends
        s.len() == 2,
{
    ((s[1] as u16) << 8) | (s[0] as u16)
}

/// The big-endian bytes of `v`, most significant first.
pub open spec fn u16_be_bytes(v: u16) -> Seq<u8> {
    seq![(v >> 8) as u8, v as u8]
}

/// The little-endian bytes of `v`, least significant first.
pub open spec fn u16_le_bytes(v: u16) -> Seq<u8> {
    seq![v as u8, (v >> 8) as u8]
}

/// The value of the four bytes `s`, most significant byte first.
pub open spec fn u32_of_be_bytes(s: Seq<u8>) -> u32
    recommends
        s.len() == 4,
{
    ((s[0] as u32) << 24) | ((s[1] as u32) << 16) | ((s[2] as u32) << 8) | (s[3] as u32)
}

/// The value of the four bytes `s`, least significant byte first.
pub open spec fn u32_of_le_bytes(s: Seq<u8>) -> u32
    recommends
        s.len() == 4,
{
    ((s[3] as u32) << 24) | ((s[2] as u32) << 16) | ((s[1] as u32) << 8) | (s[0] as u32)
}

/// The big-endian bytes of `v`, most significant first.
pub open spec fn u32_be_bytes(v: u32) -> Seq<u8> {
    seq![(v >> 24) as u8, (v >> 16) as u8, (v >> 8) as u8, v as u8]
}

/// The little-endian bytes of `v`, least significant first.
pub open spec fn u32_le_bytes(v: u32) -> Seq<u8> {
    seq![v as u8, (v >> 8) as u8, (v >> 16) as u8, (v >> 24) as u8]
}

/// The value of the eight bytes `s`, most significant byte first.
pub open spec fn u64_of_be_bytes(s: Seq<u8>) -> u64
    recommends
        s.len() == 8,
{
    ((s[0] as u64) << 56) | ((s[1] as u64) << 48) | ((s[2] as u64) << 40) | ((s[3] as u64) << 32)
        | ((s[4] as u64) << 24) | ((s[5] as u64) << 16) | ((s[6] as u64) << 8) | (s[7] as u64)
}

/// The value of the eight bytes `s`, least significant byte first.
pub open spec fn u64_of_le_bytes(s: Seq<u8>) -> u64
    recommends
        s.len() == 8,
{
    ((s[7] as u64) << 56) | ((s[6] as u64) << 48) | ((s[5] as u64) << 40) | ((s[4] as u64) << 32)
        | ((s[3] as u64) << 24) | ((s[2] as u64) << 16) | ((s[1] as u64) << 8) | (s[0] as u64)
}

/// The big-endian bytes of `v`, most significant first.
pub open spec fn u64_be_bytes(v: u64) -> Seq<u8> {
    seq![
        (v >> 56) as u8,
        (v >> 48) as u8,
        (v >> 40) as u8,
        (v >> 32) as u8,
        (v >> 24) as u8,
        (v >> 16) as u8,
        (v >> 8) as u8,
        v as u8,
    ]
}

/// The little-endian bytes of `v`, least significant first.
pub open spec fn u64_le_bytes(v: u64) -> Seq<u8> {
    seq![
        v as u8,
        (v >> 8) as u8,
        (v >> 16) as u8,
        (v >> 24) as u8,
        (v >> 32) as u8,
        (v >> 40) as u8,
        (v >> 48) as u8,
        (v >> 56) as u8,
    ]
}

/// Decoding the big-endian encoding of any `v` yields `v` back.
pub proof fn lemma_u64_be_round_trip(v: u64)
    ensures
        u64_of_be_bytes(u64_be_bytes(v)) == v,
{
    assert((((v >> 56) as u8 as u64) << 56) | (((v >> 48) as u8 as u64) << 48) | (((v
        >> 40) as u8 as u64) << 40) | (((v >> 32) as u8 as u64) << 32) | (((v
        >> 24) as u8 as u64) << 24) | (((v >> 16) as u8 as u64) << 16) | (((v
        >> 8) as u8 as u64) << 8) | (v as u8 as u64) == v) by (bit_vector);
}

/// Decoding the little-endian encoding of any `v` yields `v` back.
pub proof fn lemma_u64_le_round_trip(v: u64)
    ensures
        u64_of_le_bytes(u64_le_bytes(v)) == v,
{
    assert((((v >> 56) as u8 as u64) << 56) | (((v >> 48) as u8 as u64) << 48) | (((v
        >> 40) as u8 as u64) << 40) | (((v >> 32) as u8 as u64) << 32) | (((v
        >> 24) as u8 as u64) << 24) | (((v >> 16) as u8 as u64) << 16) | (((v
        >> 8) as u8 as u64) << 8) | (v as u8 as u64) == v) by (bit_vector);
}

/// Decoding the big-endian encoding of any `v` yields `v` back.
pub proof fn lemma_u16_be_round_trip(v: u16)
    ensures
        u16_of_be_bytes(u16_be_bytes(v)) == v,
{
    assert((((v >> 8) as u8 as u16) << 8) | (v as u8 as u16) == v) by (bit_vector);
}

/// Decoding the little-endian encoding of any `v` yields `v` back.
pub proof fn lemma_u16_le_round_trip(v: u16)
    ensures
        u16_of_le_bytes(u16_le_bytes(v)) == v,
{
    assert((((v >> 8) as u8 as u16) << 8) | (v as u8 as u16) == v) by (bit_vector);
}

/// Decoding the big-endian encoding of any `v` yields `v` back.
pub proof fn lemma_u32_be_round_trip(v: u32)
    ensures
        u32_of_be_bytes(u32_be_bytes(v)) == v,
{
    assert((((v >> 24) as u8 as u32) << 24) | (((v >> 16) as u8 as u32) << 16) | (((v
        >> 8) as u8 as u32) << 8) | (v as u8 as u32) == v) by (bit_vector);
}

/// Decoding the little-endian encoding of any `v` yields `v` back.
pub proof fn lemma_u32_le_round_trip(v: u32)
    ensures
        u32_of_le_bytes(u32_le_bytes(v)) == v,
{
    assert((((v >> 24) as u8 as u32) << 24) | (((v >> 16) as u8 as u32) << 16) | (((v
        >> 8) as u8 as u32) << 8) | (v as u8 as u32) == v) by (bit_vector);
}

/// Encodes `v` as its two big-endian bytes.
pub fn u16_to_be_bytes(v: u16) -> (out: Vec<u8>)
    ensures
        out@ == u16_be_bytes(v),
{
    let mut out: Vec<u8> = Vec::new();
    out.push(#[verifier::truncate] ((v >> 8) as u8));
    out.push(#[verifier::truncate] (v as u8));
    proof {
        assert(out@ =~= u16_be_bytes(v));
    }
    out
}

/// Encodes `v` as its two little-endian bytes.
pub fn u16_to_le_bytes(v: u16) -> (out: Vec<u8>)
    ensures
        out@ == u16_le_bytes(v),
{
    let mut out: Vec<u8> = Vec::new();
    out.push(#[verifier::truncate] (v as u8));
    out.push(#[verifier::truncate] ((v >> 8) as u8));
    proof {
        assert(out@ =~= u16_le_bytes(v));
    }
    out
}

/// Encodes `v` as its four big-endian bytes.
pub fn u32_to_be_bytes(v: u32) -> (out: Vec<u8>)
    ensures
        out@ == u32_be_bytes(v),
{
    let mut out: Vec<u8> = Vec::new();
    out.push(#[verifier::truncate] ((v >> 24) as u8));
    out.push(#[verifier::truncate] ((v >> 16) as u8));
    out.push(#[verifier::truncate] ((v >> 8) as u8));
    out.push(#[verifier::truncate] (v as u8));
    proof {
        assert(out@ =~= u32_be_bytes(v));
    }
    out
}

/// Encodes `v` as its four little-endian bytes.
pub fn u32_to_le_bytes(v: u32) -> (out: Vec<u8>)
    ensures
        out@ == u32_le_bytes(v),
{
    let mut out: Vec<u8> = Vec::new();
    out.push(#[verifier::truncate] (v as u8));
    out.push(#[verifier::truncate] ((v >> 8) as u8));
    out.push(#[verifier::truncate] ((v >> 16) as u8));
    out.push(#[verifier::truncate] ((v >> 24) as u8));
    proof {
        assert(out@ =~= u32_le_bytes(v));
    }
    out
}

/// Encodes `v` as its eight big-endian bytes.
pub fn u64_to_be_bytes(v: u64) -> (out: Vec<u8>)
    ensures
        out@ == u64_be_bytes(v),
{
    let mut out: Vec<u8> = Vec::new();
    out.push(#[verifier::truncate] ((v >> 56) as u8));
    out.push(#[verifier::truncate] ((v >> 48) as u8));
    out.push(#[verifier::truncate] ((v >> 40) as u8));
    out.push(#[verifier::truncate] ((v >> 32) as u8));
    out.push(#[verifier::truncate] ((v >> 24) as u8));
    out.push(#[verifier::truncate] ((v >> 16) as u8));
    out.push(#[verifier::truncate] ((v >> 8) as u8));
    out.push(#[verifier::truncate] (v as u8));
    proof {
        assert(out@ =~= u64_be_bytes(v));
    }
    out
}

/// Encodes `v` as its eight little-endian bytes.
pub fn u64_to_le_bytes(v: u64) -> (out: Vec<u8>)
    ensures
        out@ == u64_le_bytes(v),
{
    let mut out: Vec<u8> = Vec::new();
    out.push(#[verifier::truncate] (v as u8));
    out.push(#[verifier::truncate] ((v >> 8) as u8));
    out.push(#[verifier::truncate] ((v >> 16) as u8));
    out.push(#[verifier::truncate] ((v >> 24) as u8));
    out.push(#[verifier::truncate] ((v >> 32) as u8));
    out.push(#[verifier::truncate] ((v >> 40) as u8));
    out.push(#[verifier::truncate] ((v >> 48) as u8));
    out.push(#[verifier::truncate] ((v >> 56) as u8));
    proof {
        assert(out@ =~= u64_le_bytes(v));
    }
    out
}

/// Decodes a big-endian `u64` from the cursor; on failure the cursor is
/// unchanged.
pub fn read_u64_be<'a>(reader: &mut Reader<'a>) -> (r: Result<u64, EndOfInput>)
    ensures
        old(reader)@.len() >= 8 ==> (r matches Ok(v) && v == u64_of_be_bytes(
            old(reader)@.take(8),
        ) && final(reader)@ == old(reader)@.skip(8)),
        old(reader)@.len() < 8 ==> (r matches Err(e) && e == EndOfInput && final(reader)@ == old(
            reader,
        )@),
{
    match reader.read_bytes(8) {
        Ok(chunk) => {
            let s = chunk.as_slice_less_safe();
            Ok(
                ((s[0] as u64) << 56) | ((s[1] as u64) << 48) | ((s[2] as u64) << 40) | ((
                s[3] as u64) << 32) | ((s[4] as u64) << 24) | ((s[5] as u64) << 16) | ((
                s[6] as u64) << 8) | (s[7] as u64),
            )
        },
        Err(e) => Err(e),
    }
}

/// Decodes a little-endian `u64` from the cursor; on failure the cursor is
/// unchanged.
pub fn read_u64_le<'a>(reader: &mut Reader<'a>) -> (r: Result<u64, EndOfInput>)
    ensures
        old(reader)@.len() >= 8 ==> (r matches Ok(v) && v == u64_of_le_bytes(
            old(reader)@.take(8),
        ) && final(reader)@ == old(reader)@.skip(8)),
        old(reader)@.len() < 8 ==> (r matches Err(e) && e == EndOfInput && final(reader)@ == old(
            reader,
        )@),
{
    match reader.read_bytes(8) {
        Ok(chunk) => {
            let s = chunk.as_slice_less_safe();
            Ok(
                ((s[7] as u64) << 56) | ((s[6] as u64) << 48) | ((s[5] as u64) << 40) | ((
                s[4] as u64) << 32) | ((s[3] as u64) << 24) | ((s[2] as u64) << 16) | ((
                s[1] as u64) << 8) | (s[0] as u64),
            )
        },
        Err(e) => Err(e),
    }
}

/// Decodes a big-endian `u16` from the cursor; on failure the cursor is
/// unchanged.
pub fn read_u16_be<'a>(reader: &mut Reader<'a>) -> (r: Result<u16, EndOfInput>)
    ensures
        old(reader)@.len() >= 2 ==> (r matches Ok(v) && v == u16_of_be_bytes(
            old(reader)@.take(2),
        ) && final(reader)@ == old(reader)@.skip(2)),
        old(reader)@.len() < 2 ==> (r matches Err(e) && e == EndOfInput && final(reader)@ == old(
            reader,
        )@),
{
    match reader.read_bytes(2) {
        Ok(chunk) => {
            let s = chunk.as_slice_less_safe();
            Ok(((s[0] as u16) << 8) | (s[1] as u16))
        },
        Err(e) => Err(e),
    }
}

/// Decodes a little-endian `u16` from the cursor; on failure the cursor is
/// unchanged.
pub fn read_u16_le<'a>(reader: &mut Reader<'a>) -> (r: Result<u16, EndOfInput>)
    ensures
        old(reader)@.len() >= 2 ==> (r matches Ok(v) && v == u16_of_le_bytes(
            old(reader)@.take(2),
        ) && final(reader)@ == old(reader)@.skip(2)),
        old(reader)@.len() < 2 ==> (r matches Err(e) && e == EndOfInput && final(reader)@ == old(
            reader,
        )@),
{
    match reader.read_bytes(2) {
        Ok(chunk) => {
            let s = chunk.as_slice_less_safe();
            Ok(((s[1] as u16) << 8) | (s[0] as u16))
        },
        Err(e) => Err(e),
    }
}

/// Decodes a big-endian `u32` from the cursor; on failure the cursor is
/// unchanged.
pub fn read_u32_be<'a>(reader: &mut Reader<'a>) -> (r: Result<u32, EndOfInput>)
    ensures
        old(reader)@.len() >= 4 ==> (r matches Ok(v) && v == u32_of_be_bytes(
            old(reader)@.take(4),
        ) && final(reader)@ == old(reader)@.skip(4)),
        old(reader)@.len() < 4 ==> (r matches Err(e) && e == EndOfInput && final(reader)@ == old(
            reader,
        )@),
{
    match reader.read_bytes(4) {
        Ok(chunk) => {
            let s = chunk.as_slice_less_safe();
            Ok(((s[0] as u32) << 24) | ((s[1] as u32) << 16) | ((s[2] as u32) << 8) | (s[3] as u32))
        },
        Err(e) => Err(e),
    }
}

/// Decodes a little-endian `u32` from the cursor; on failure the cursor is
/// unchanged.
pub fn read_u32_le<'a>(reader: &mut Reader<'a>) -> (r: Result<u32, EndOfInput>)
    ensures
        old(reader)@.len() >= 4 ==> (r matches Ok(v) && v == u32_of_le_bytes(
            old(reader)@.take(4),
        ) && final(reader)@ == old(reader)@.skip(4)),
        old(reader)@.len() < 4 ==> (r matches Err(e) && e == EndOfInput && final(reader)@ == old(
            reader,
        )@),
{
    match reader.read_bytes(4) {
        Ok(chunk) => {
            let s = chunk.as_slice_less_safe();
            Ok(((s[3] as u32) << 24) | ((s[2] as u32) << 16) | ((s[1] as u32) << 8) | (s[0] as u32))
        },
        Err(e) => Err(e),
    }
}

} // verus!
