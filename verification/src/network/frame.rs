//! How messages follow each other on a connection: each one after its length.

use vstd::prelude::*;
use vstd::arithmetic::div_mod::{lemma_div_denominator, lemma_fundamental_div_mod_converse};
use vstd::slice::slice_to_vec;

verus! {

/// The number of bytes that hold the length of a message.
pub const HEADER_SIZE: usize = 4;

/// The length that a header holds, the most significant byte first.
pub open spec fn header_value(header: Seq<u8>) -> nat
    recommends
        header.len() == HEADER_SIZE,
{
    (header[0] * 0x100_0000 + header[1] * 0x1_0000 + header[2] * 0x100 + header[3]) as nat
}

/// The header that holds a length.
pub open spec fn header_bytes(size: nat) -> Seq<u8>
    recommends
        size <= u32::MAX,
{
    seq![
        (size / 0x100_0000 % 0x100) as u8,
        (size / 0x1_0000 % 0x100) as u8,
        (size / 0x100 % 0x100) as u8,
        (size % 0x100) as u8,
    ]
}

/// A message on a connection: its length, then its bytes.
pub open spec fn frame_bytes(payload: Seq<u8>) -> Seq<u8>
    recommends
        payload.len() <= u32::MAX,
{
    header_bytes(payload.len()) + payload
}

/// The length that a header holds.
pub fn frame_size(header: &[u8]) -> (size: u32)
    requires
        header.len() == HEADER_SIZE,
    ensures
        size == header_value(header@),
{
    header[0] as u32 * 0x100_0000 + header[1] as u32 * 0x1_0000 + header[2] as u32 * 0x100
        + header[3] as u32
}

/// The bytes to send for a message, unless it is too long for its length to be told.
pub fn encode_frame(payload: &[u8]) -> (frame: Option<Vec<u8>>)
    ensures
        match frame {
            Some(frame) => payload.len() <= u32::MAX && frame@ == frame_bytes(payload@),
            None => payload.len() > u32::MAX,
        },
{
    if payload.len() > u32::MAX as usize {
        return None;
    }
    let size: u32 = payload.len() as u32;
    let mut frame: Vec<u8> = Vec::new();
    frame.push((size / 0x100_0000 % 0x100) as u8);
    frame.push((size / 0x1_0000 % 0x100) as u8);
    frame.push((size / 0x100 % 0x100) as u8);
    frame.push((size % 0x100) as u8);
    let mut body: Vec<u8> = slice_to_vec(payload);
    frame.append(&mut body);
    assert(frame@ =~= frame_bytes(payload@));
    Some(frame)
}

/// A header holds the length that it was made for.
pub proof fn law_header_round_trip(size: nat)
    requires
        size <= u32::MAX,
    ensures
        header_bytes(size).len() == HEADER_SIZE,
        header_value(header_bytes(size)) == size,
{
}

/// Every header is that of the length that it holds: different headers hold different lengths.
pub proof fn law_header_is_unique(header: Seq<u8>)
    requires
        header.len() == HEADER_SIZE,
    ensures
        header_value(header) <= u32::MAX,
        header_bytes(header_value(header)) == header,
{
    let value = header_value(header) as int;
    let upper = header[0] as int;
    let half = upper * 0x100 + header[1];
    let most = half * 0x100 + header[2];
    lemma_fundamental_div_mod_converse(value, 0x100, most, header[3] as int);
    lemma_fundamental_div_mod_converse(most, 0x100, half, header[2] as int);
    lemma_fundamental_div_mod_converse(half, 0x100, upper, header[1] as int);
    lemma_div_denominator(value, 0x100, 0x100);
    lemma_div_denominator(value, 0x1_0000, 0x100);
    assert(header_bytes(header_value(header)) =~= header);
}

/// What comes first on a connection after a frame was sent is that frame's length, then its
/// payload, then what was sent after it.
pub proof fn law_frame_is_read_back(payload: Seq<u8>, rest: Seq<u8>)
    requires
        payload.len() <= u32::MAX,
    ensures
        header_value((frame_bytes(payload) + rest).take(HEADER_SIZE as int)) == payload.len(),
        (frame_bytes(payload) + rest).skip(HEADER_SIZE as int).take(payload.len() as int) == payload,
        (frame_bytes(payload) + rest).skip(HEADER_SIZE as int).skip(payload.len() as int) == rest,
{
    law_header_round_trip(payload.len());
    let stream = frame_bytes(payload) + rest;
    assert(stream.take(HEADER_SIZE as int) =~= header_bytes(payload.len()));
    assert(stream.skip(HEADER_SIZE as int).take(payload.len() as int) =~= payload);
    assert(stream.skip(HEADER_SIZE as int).skip(payload.len() as int) =~= rest);
}

/// Headers are ordered as the lengths that they hold, byte by byte from the front: the first
/// byte in which two headers differ decides which length is greater.
pub proof fn law_first_byte_counts_most(a: Seq<u8>, b: Seq<u8>, i: int)
    requires
        a.len() == HEADER_SIZE,
        b.len() == HEADER_SIZE,
        0 <= i < HEADER_SIZE,
        forall|j: int| 0 <= j < i ==> a[j] == b[j],
        a[i] < b[i],
    ensures
        header_value(a) < header_value(b),
{
    assert(i == 0 || i == 1 || i == 2 || i == 3);
    if i >= 1 {
        assert(a[0] == b[0]);
    }
    if i >= 2 {
        assert(a[1] == b[1]);
    }
    if i >= 3 {
        assert(a[2] == b[2]);
    }
}

} // verus!
