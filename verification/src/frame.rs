//! The RPC frame codec.
//!
//! A frame is `total_len (u32 LE) || seq_no (i32 LE) || payload || crc32 (u32 LE)`.
//! `total_len` counts every byte of the frame, itself and the checksum
//! included, and must lie in `12 ..= 2^24`.  The checksum covers the first
//! `total_len - 4` bytes.  A bare length word of 4 is a noop padding word.

use vstd::prelude::*;

use crate::bytes_util::{vec_copy_range, vec_push_all};
use crate::consts::{FRAME_MAX_LEN, FRAME_MIN_LEN};
use crate::crc::{crc32, crc32_of};
use crate::errors::{FramingFault, MeError};
use crate::le::{
    i32_le, le_to_i32, le_to_u32, lemma_i32_le_round_trip, lemma_u32_le_round_trip, push_i32_le,
    push_u32_le, u32_le,
};

verus! {

/// The first eight bytes plus the payload: everything the checksum covers.
pub open spec fn frame_body(seq_no: i32, payload: Seq<u8>) -> Seq<u8> {
    u32_le((payload.len() + 12) as u32) + i32_le(seq_no) + payload
}

/// The full frame: body followed by its checksum.
pub open spec fn frame_bytes(seq_no: i32, payload: Seq<u8>) -> Seq<u8> {
    frame_bytes_with(seq_no, payload, crc32_of(frame_body(seq_no, payload)))
}

/// A frame carrying an arbitrary checksum word; the codec accepts it only
/// when the word is the body's CRC.
pub open spec fn frame_bytes_with(seq_no: i32, payload: Seq<u8>, crc: u32) -> Seq<u8> {
    frame_body(seq_no, payload) + u32_le(crc)
}

/// `bytes` is exactly one well-formed frame: the declared length is in
/// range and matches, and the checksum holds.
pub open spec fn frame_wf(bytes: Seq<u8>) -> bool {
    &&& bytes.len() >= 12
    &&& 12 <= le_to_u32(bytes) <= 0x1000000
    &&& le_to_u32(bytes) == bytes.len()
    &&& le_to_u32(bytes.skip(bytes.len() - 4)) == crc32_of(bytes.take(bytes.len() - 4))
}

/// The sequence number of a frame.
pub open spec fn frame_seq_no(bytes: Seq<u8>) -> i32
    recommends
        bytes.len() >= 8,
{
    le_to_i32(bytes.skip(4))
}

/// The payload of a frame.
pub open spec fn frame_payload(bytes: Seq<u8>) -> Seq<u8>
    recommends
        bytes.len() >= 12,
{
    bytes.subrange(8, bytes.len() - 4)
}

/// Build an RPC frame around `payload` under sequence number `seq_no`.
pub fn build_rpc_frame(seq_no: i32, payload: &Vec<u8>) -> (r: Vec<u8>)
    requires
        payload@.len() + 12 <= 0x1000000,
    ensures
        r@ == frame_bytes(seq_no, payload@),
        r@.len() == payload@.len() + 12,
{
    let total: u32 = (payload.len() + 12) as u32;
    let mut f: Vec<u8> = Vec::new();
    push_u32_le(&mut f, total);
    push_i32_le(&mut f, seq_no);
    vec_push_all(&mut f, payload.as_slice());
    assert(f@ =~= frame_body(seq_no, payload@));
    let c = crc32(f.as_slice());
    push_u32_le(&mut f, c);
    assert(f@ =~= frame_bytes(seq_no, payload@));
    f
}

/// Check whether a declared frame length is legal; `Ok` carries it as a
/// `usize`.  The caller then knows how many bytes the frame occupies.
pub fn frame_total_len(len_word: u32) -> (r: Result<usize, MeError>)
    ensures
        FRAME_MIN_LEN <= len_word <= FRAME_MAX_LEN ==> r == Ok::<usize, MeError>(
            len_word as usize,
        ),
        !(FRAME_MIN_LEN <= len_word <= FRAME_MAX_LEN) ==> r == Err::<usize, MeError>(
            MeError::Framing(FramingFault::LengthOutOfRange),
        ),
{
    if len_word < FRAME_MIN_LEN || len_word > FRAME_MAX_LEN {
        Err(MeError::Framing(FramingFault::LengthOutOfRange))
    } else {
        Ok(len_word as usize)
    }
}

/// Parse one complete frame: validate the declared length and the checksum,
/// and return the sequence number and the payload.
pub fn parse_frame(bytes: &Vec<u8>) -> (r: Result<(i32, Vec<u8>), MeError>)
    ensures
        (r matches Ok(_)) <==> frame_wf(bytes@),
        r matches Ok((s, p)) ==> s == frame_seq_no(bytes@) && p@ == frame_payload(bytes@),
        bytes@.len() < 4 ==> r == Err::<(i32, Vec<u8>), MeError>(
            MeError::Framing(FramingFault::Truncated),
        ),
        bytes@.len() >= 4 && !(12 <= le_to_u32(bytes@) <= 0x1000000) ==> r == Err::<
            (i32, Vec<u8>),
            MeError,
        >(MeError::Framing(FramingFault::LengthOutOfRange)),
        bytes@.len() >= 4 && 12 <= le_to_u32(bytes@) <= 0x1000000 && le_to_u32(bytes@)
            != bytes@.len() ==> r == Err::<(i32, Vec<u8>), MeError>(
            MeError::Framing(FramingFault::Truncated),
        ),
        bytes@.len() >= 4 && 12 <= le_to_u32(bytes@) <= 0x1000000 && le_to_u32(bytes@)
            == bytes@.len() && !frame_wf(bytes@) ==> r == Err::<(i32, Vec<u8>), MeError>(
            MeError::Framing(FramingFault::CrcMismatch),
        ),
{
    let n = bytes.len();
    if n < 4 {
        return Err(MeError::Framing(FramingFault::Truncated));
    }
    let len_word = crate::le::read_u32_le(bytes, 0);
    assert(bytes@.skip(0) =~= bytes@);
    if len_word < FRAME_MIN_LEN || len_word > FRAME_MAX_LEN {
        return Err(MeError::Framing(FramingFault::LengthOutOfRange));
    }
    let fl = len_word as usize;
    if fl != n {
        return Err(MeError::Framing(FramingFault::Truncated));
    }
    let crc_offset = fl - 4;
    let expected = crate::le::read_u32_le(bytes, crc_offset);
    let head = vec_copy_range(bytes, 0, crc_offset);
    assert(head@ =~= bytes@.take(bytes@.len() - 4));
    let actual = crc32(head.as_slice());
    if expected != actual {
        return Err(MeError::Framing(FramingFault::CrcMismatch));
    }
    let seq_no = crate::le::read_i32_le(bytes, 4);
    let payload = vec_copy_range(bytes, 8, crc_offset);
    assert(payload@ =~= frame_payload(bytes@));
    Ok((seq_no, payload))
}

/// A well-built frame parses back to what went in, and its bytes pass the
/// checksum test.
pub proof fn lemma_frame_round_trip(seq_no: i32, payload: Seq<u8>)
    requires
        payload.len() + 12 <= 0x1000000,
    ensures
        frame_wf(frame_bytes(seq_no, payload)),
        frame_seq_no(frame_bytes(seq_no, payload)) == seq_no,
        frame_payload(frame_bytes(seq_no, payload)) == payload,
{
    let total: u32 = (payload.len() + 12) as u32;
    let body = frame_body(seq_no, payload);
    let fb = frame_bytes(seq_no, payload);
    assert(fb.len() == payload.len() + 12);
    lemma_u32_le_round_trip(total);
    assert(forall|i: int| 0 <= i < 4 ==> fb[i] == u32_le(total)[i]);
    assert(le_to_u32(fb) == le_to_u32(u32_le(total)));
    assert(le_to_u32(fb) == total);
    lemma_i32_le_round_trip(seq_no);
    assert(forall|i: int| 0 <= i < 4 ==> fb.skip(4)[i] == i32_le(seq_no)[i]);
    assert(le_to_i32(fb.skip(4)) == le_to_i32(i32_le(seq_no)));
    assert(frame_seq_no(fb) == seq_no);
    let crc = crc32_of(body);
    lemma_u32_le_round_trip(crc);
    assert(fb.take(fb.len() - 4) =~= body);
    assert(forall|i: int| 0 <= i < 4 ==> fb.skip(fb.len() - 4)[i] == u32_le(crc)[i]);
    assert(le_to_u32(fb.skip(fb.len() - 4)) == le_to_u32(u32_le(crc)));
    assert(frame_payload(fb) =~= payload);
}

} // verus!
