//! The two-phase handshake with a middle proxy.
//!
//! Phase one is a plaintext nonce exchange under the reserved sequence
//! number -2.  Phase two derives one key pair per direction and sends an
//! encrypted handshake frame under sequence number -1; the reply arrives
//! as a stream of partially filled CBC blocks and is scanned frame by
//! frame.  Whatever encrypted or decrypted residue is left when the reply
//! is accepted carries over into the steady-state reader.

use vstd::prelude::*;

use crate::bytes_util::{vec_copy_range, vec_drop_front, vec_push_all};
use crate::cbc::{
    aligned_take, cbc_dec, cbc_dec_iv_after, cbc_enc, cbc_enc_iv_after, cbc_encrypt_padded, pad04,
    CbcStream,
};
use crate::consts::{
    FRAME_NOOP_LEN, RPC_CRYPTO_AES, RPC_HANDSHAKE, RPC_HANDSHAKE_ERROR, RPC_NONCE, SEQ_HANDSHAKE,
    SEQ_NONCE,
};
use crate::crc::{crc32, crc32_of};
use crate::errors::{FramingFault, HandshakeFault, MeError};
use crate::frame::{build_rpc_frame, frame_bytes, lemma_frame_round_trip};
use crate::le::{
    i32_le, le_to_i32, le_to_u32, lemma_i32_le_round_trip, lemma_le_to_i32_prefix,
    lemma_le_to_u32_prefix, lemma_u32_le_round_trip, push_u16_le, push_u32_le, read_i32_le,
    read_u32_le, u16_le, u32_le,
};
use crate::proxy_req::zeros;

verus! {

/// The 32-byte nonce payload: opcode, key selector, crypto schema,
/// timestamp, and the 16 random client nonce bytes.
pub open spec fn nonce_payload(key_selector: u32, crypto_ts: u32, nonce: Seq<u8>) -> Seq<u8>
    recommends
        nonce.len() == 16,
{
    u32_le(RPC_NONCE) + u32_le(key_selector) + u32_le(RPC_CRYPTO_AES) + u32_le(crypto_ts) + nonce
}

/// Build the nonce payload.
pub fn build_nonce_payload(key_selector: u32, crypto_ts: u32, nonce: &Vec<u8>) -> (r: Vec<u8>)
    requires
        nonce@.len() == 16,
    ensures
        r@ == nonce_payload(key_selector, crypto_ts, nonce@),
        r@.len() == 32,
{
    let mut p: Vec<u8> = Vec::new();
    push_u32_le(&mut p, RPC_NONCE);
    push_u32_le(&mut p, key_selector);
    push_u32_le(&mut p, RPC_CRYPTO_AES);
    push_u32_le(&mut p, crypto_ts);
    vec_push_all(&mut p, nonce.as_slice());
    assert(p@ =~= nonce_payload(key_selector, crypto_ts, nonce@));
    p
}

/// The plaintext nonce frame, ready to write: the nonce payload framed
/// under the reserved sequence number.
pub fn build_nonce_frame(key_selector: u32, crypto_ts: u32, nonce: &Vec<u8>) -> (r: Vec<u8>)
    requires
        nonce@.len() == 16,
    ensures
        r@ == frame_bytes(SEQ_NONCE, nonce_payload(key_selector, crypto_ts, nonce@)),
{
    let p = build_nonce_payload(key_selector, crypto_ts, nonce);
    build_rpc_frame(SEQ_NONCE, &p)
}

/// Take a nonce payload apart: the schema, the timestamp and the peer's
/// nonce.  Rejected when too short or not opening with `RPC_NONCE`.
pub fn parse_nonce_payload(d: &Vec<u8>) -> (r: Result<(u32, u32, Vec<u8>), MeError>)
    ensures
        (r matches Ok(_)) <==> (d@.len() >= 32 && le_to_u32(d@) == RPC_NONCE),
        r matches Ok((schema, ts, nonce)) ==> schema == le_to_u32(d@.skip(8)) && ts == le_to_u32(
            d@.skip(12),
        ) && nonce@ == d@.subrange(16, 32),
        d@.len() < 32 ==> r == Err::<(u32, u32, Vec<u8>), MeError>(
            MeError::Handshake(HandshakeFault::ShortPayload),
        ),
        d@.len() >= 32 && le_to_u32(d@) != RPC_NONCE ==> r == Err::<(u32, u32, Vec<u8>), MeError>(
            MeError::Handshake(HandshakeFault::WrongOpcode),
        ),
{
    let n = d.len();
    if n < 32 {
        return Err(MeError::Handshake(HandshakeFault::ShortPayload));
    }
    let opcode = read_u32_le(d, 0);
    assert(d@.skip(0) =~= d@);
    if opcode != RPC_NONCE {
        return Err(MeError::Handshake(HandshakeFault::WrongOpcode));
    }
    let schema = read_u32_le(d, 8);
    let ts = read_u32_le(d, 12);
    let nonce = vec_copy_range(d, 16, 32);
    Ok((schema, ts, nonce))
}

/// Validate the peer's nonce reply as a whole: the reserved sequence
/// number, the opcode, and the AES schema.  `Ok` carries the peer's
/// timestamp and nonce.
pub fn process_nonce_reply(seq_no: i32, payload: &Vec<u8>) -> (r: Result<(u32, Vec<u8>), MeError>)
    ensures
        (r matches Ok(_)) <==> (seq_no == SEQ_NONCE && payload@.len() >= 32 && le_to_u32(payload@)
            == RPC_NONCE && le_to_u32(payload@.skip(8)) == RPC_CRYPTO_AES),
        r matches Ok((ts, sn)) ==> ts == le_to_u32(payload@.skip(12)) && sn@ == payload@.subrange(
            16,
            32,
        ),
        seq_no != SEQ_NONCE ==> r == Err::<(u32, Vec<u8>), MeError>(
            MeError::Handshake(HandshakeFault::WrongSeq),
        ),
        seq_no == SEQ_NONCE && payload@.len() < 32 ==> r == Err::<(u32, Vec<u8>), MeError>(
            MeError::Handshake(HandshakeFault::ShortPayload),
        ),
        seq_no == SEQ_NONCE && payload@.len() >= 32 && le_to_u32(payload@) != RPC_NONCE ==> r
            == Err::<(u32, Vec<u8>), MeError>(MeError::Handshake(HandshakeFault::WrongOpcode)),
        seq_no == SEQ_NONCE && payload@.len() >= 32 && le_to_u32(payload@) == RPC_NONCE
            && le_to_u32(payload@.skip(8)) != RPC_CRYPTO_AES ==> r == Err::<
            (u32, Vec<u8>),
            MeError,
        >(MeError::Handshake(HandshakeFault::WrongSchema)),
{
    if seq_no != SEQ_NONCE {
        return Err(MeError::Handshake(HandshakeFault::WrongSeq));
    }
    match parse_nonce_payload(payload) {
        Err(e) => Err(e),
        Ok((schema, ts, nonce)) => {
            if schema != RPC_CRYPTO_AES {
                return Err(MeError::Handshake(HandshakeFault::WrongSchema));
            }
            Ok((ts, nonce))
        },
    }
}

/// The 32-byte handshake payload: opcode, zero flags, our `(ip, port,
/// pid, utime)` quad, the peer's `(ip, port)`, and six bytes of padding.
pub open spec fn handshake_payload(
    our_ip: u32,
    our_port: u16,
    our_pid: u16,
    utime: u32,
    peer_ip: u32,
    peer_port: u16,
) -> Seq<u8> {
    u32_le(RPC_HANDSHAKE) + u32_le(0) + u32_le(our_ip) + u16_le(our_port) + u16_le(our_pid)
        + u32_le(utime) + u32_le(peer_ip) + u16_le(peer_port) + zeros(6)
}

/// Build the handshake payload.  The pid is the low 16 bits of the
/// process id and `utime` the current Unix time, both supplied by the
/// caller.
pub fn build_handshake_payload(
    our_ip: u32,
    our_port: u16,
    our_pid: u16,
    utime: u32,
    peer_ip: u32,
    peer_port: u16,
) -> (r: Vec<u8>)
    ensures
        r@ == handshake_payload(our_ip, our_port, our_pid, utime, peer_ip, peer_port),
        r@.len() == 32,
{
    let mut p: Vec<u8> = Vec::new();
    push_u32_le(&mut p, RPC_HANDSHAKE);
    push_u32_le(&mut p, 0);
    push_u32_le(&mut p, our_ip);
    push_u16_le(&mut p, our_port);
    push_u16_le(&mut p, our_pid);
    push_u32_le(&mut p, utime);
    push_u32_le(&mut p, peer_ip);
    push_u16_le(&mut p, peer_port);
    let mut i: usize = 0;
    let before = Ghost(p@);
    while i < 6
        invariant
            i <= 6,
            p@ == before@ + zeros(i as nat),
        decreases 6 - i,
    {
        p.push(0);
        i = i + 1;
        assert(p@ =~= before@ + zeros(i as nat));
    }
    assert(p@ =~= handshake_payload(our_ip, our_port, our_pid, utime, peer_ip, peer_port));
    p
}

/// The encrypted handshake frame, ready to write: payload framed under
/// sequence number -1, aligned with the `04 00 00 00` padding, and
/// CBC-encrypted under the write key.  Also returns the write IV for the
/// first data frame.
pub fn seal_handshake_frame(
    write_key: &Vec<u8>,
    write_iv: &Vec<u8>,
    our_ip: u32,
    our_port: u16,
    our_pid: u16,
    utime: u32,
    peer_ip: u32,
    peer_port: u16,
) -> (r: (Vec<u8>, Vec<u8>))
    requires
        write_key@.len() == 32,
        write_iv@.len() == 16,
    ensures
        ({
            let plain = pad04(
                frame_bytes(
                    SEQ_HANDSHAKE,
                    handshake_payload(our_ip, our_port, our_pid, utime, peer_ip, peer_port),
                ),
            );
            r.0@ == cbc_enc(write_key@, write_iv@, plain) && r.1@ == cbc_enc_iv_after(
                write_key@,
                write_iv@,
                plain,
            ) && r.1@.len() == 16
        }),
{
    let p = build_handshake_payload(our_ip, our_port, our_pid, utime, peer_ip, peer_port);
    let f = build_rpc_frame(SEQ_HANDSHAKE, &p);
    cbc_encrypt_padded(write_key, write_iv, &f)
}

/// What a scan of the decrypted reply buffer concludes.
pub enum HsScanView {
    /// No complete frame yet; the buffer (after any noop words) is kept.
    NeedMore(Seq<u8>),
    /// The handshake was accepted; what follows the frame is kept for the
    /// reader.
    Done(Seq<u8>),
    /// The handshake failed.
    Fail(HandshakeFault),
}

/// Scan the decrypted reply buffer: skip noop length words, demand a
/// well-formed frame, and accept exactly an `RPC_HANDSHAKE` answer.  An
/// `RPC_HANDSHAKE_ERROR` answer fails with the signed code its body
/// carries, or -1 when the body is too short to hold one.
pub open spec fn hs_scan(d: Seq<u8>) -> HsScanView
    decreases d.len(),
{
    if d.len() < 4 {
        HsScanView::NeedMore(d)
    } else {
        let fl = le_to_u32(d) as int;
        if fl == 4 {
            hs_scan(d.skip(4))
        } else if fl < 12 || fl > 0x1000000 {
            HsScanView::Fail(HandshakeFault::BadFrame(FramingFault::LengthOutOfRange))
        } else if d.len() < fl {
            HsScanView::NeedMore(d)
        } else if le_to_u32(d.skip(fl - 4)) != crc32_of(d.take(fl - 4)) {
            HsScanView::Fail(HandshakeFault::BadFrame(FramingFault::CrcMismatch))
        } else {
            let op = le_to_u32(d.skip(8));
            if op == RPC_HANDSHAKE_ERROR {
                HsScanView::Fail(
                    HandshakeFault::Rejected(
                        if fl >= 16 {
                            le_to_i32(d.skip(12))
                        } else {
                            -1i32
                        },
                    ),
                )
            } else if op != RPC_HANDSHAKE {
                HsScanView::Fail(HandshakeFault::WrongOpcode)
            } else {
                HsScanView::Done(d.skip(fl))
            }
        }
    }
}

/// Whether the reply is complete.
#[derive(Clone, Copy, Debug, PartialEq, Eq, Structural)]
pub enum HsProgress {
    /// Keep reading.
    NeedMore,
    /// The handshake was accepted.
    Done,
}

/// The streaming receiver of the encrypted handshake reply: the read-side
/// CBC stream and the decrypted bytes not yet forming a frame.
pub struct HsRecv {
    pub stream: CbcStream,
    pub dec: Vec<u8>,
}

impl HsRecv {
    /// The stream is well-formed.
    pub open spec fn wf(self) -> bool {
        self.stream.wf()
    }

    /// Start receiving under the read key and read IV.
    pub fn new(read_key: Vec<u8>, read_iv: Vec<u8>) -> (r: HsRecv)
        requires
            read_key@.len() == 32,
            read_iv@.len() == 16,
        ensures
            r.wf(),
            r.stream.key@ == read_key@,
            r.stream.iv@ == read_iv@,
            r.stream.residue@ == Seq::<u8>::empty(),
            r.dec@ == Seq::<u8>::empty(),
    {
        HsRecv { stream: CbcStream::new(read_key, read_iv), dec: Vec::new() }
    }

    /// Feed the bytes of one socket read.  Complete blocks are decrypted,
    /// the buffer is scanned, and the call reports acceptance, rejection,
    /// or the need for more bytes, exactly as `hs_scan` concludes on the
    /// decrypted buffer.
    pub fn feed(&mut self, chunk: &Vec<u8>) -> (r: Result<HsProgress, MeError>)
        requires
            old(self).wf(),
            old(self).stream.residue@.len() + chunk@.len() <= usize::MAX,
            old(self).dec@.len() + old(self).stream.residue@.len() + chunk@.len() <= usize::MAX,
        ensures
            final(self).wf(),
            final(self).stream.key@ == old(self).stream.key@,
            final(self).stream.iv@ == cbc_dec_iv_after(
                old(self).stream.iv@,
                aligned_take(old(self).stream.residue@ + chunk@),
            ),
            final(self).stream.residue@ == (old(self).stream.residue@ + chunk@).skip(
                aligned_take(old(self).stream.residue@ + chunk@).len() as int,
            ),
            ({
                let newdec = old(self).dec@ + cbc_dec(
                    old(self).stream.key@,
                    old(self).stream.iv@,
                    aligned_take(old(self).stream.residue@ + chunk@),
                );
                match hs_scan(newdec) {
                    HsScanView::NeedMore(rest) => r == Ok::<HsProgress, MeError>(
                        HsProgress::NeedMore,
                    ) && final(self).dec@ == rest,
                    HsScanView::Done(rest) => r == Ok::<HsProgress, MeError>(HsProgress::Done)
                        && final(self).dec@ == rest,
                    HsScanView::Fail(f) => r == Err::<HsProgress, MeError>(MeError::Handshake(f)),
                }
            }),
    {
        let out = self.stream.absorb(chunk);
        vec_push_all(&mut self.dec, out.as_slice());
        let ghost newdec = self.dec@;
        loop
            invariant
                self.stream.wf(),
                self.stream.key@ == old(self).stream.key@,
                self.stream.iv@ == cbc_dec_iv_after(
                    old(self).stream.iv@,
                    aligned_take(old(self).stream.residue@ + chunk@),
                ),
                self.stream.residue@ == (old(self).stream.residue@ + chunk@).skip(
                    aligned_take(old(self).stream.residue@ + chunk@).len() as int,
                ),
                newdec == old(self).dec@ + cbc_dec(
                    old(self).stream.key@,
                    old(self).stream.iv@,
                    aligned_take(old(self).stream.residue@ + chunk@),
                ),
                hs_scan(self.dec@) == hs_scan(newdec),
            decreases self.dec@.len(),
        {
            let n = self.dec.len();
            if n < 4 {
                return Ok(HsProgress::NeedMore);
            }
            let fl_w = read_u32_le(&self.dec, 0);
            assert(self.dec@.skip(0) =~= self.dec@);
            if fl_w == FRAME_NOOP_LEN {
                vec_drop_front(&mut self.dec, 4);
                continue ;
            }
            if fl_w < 12 || fl_w > 0x1000000 {
                return Err(MeError::Handshake(HandshakeFault::BadFrame(
                    FramingFault::LengthOutOfRange,
                )));
            }
            let fl = fl_w as usize;
            if n < fl {
                return Ok(HsProgress::NeedMore);
            }
            let head = vec_copy_range(&self.dec, 0, fl - 4);
            assert(head@ =~= self.dec@.take(fl as int - 4));
            let expected = read_u32_le(&self.dec, fl - 4);
            let actual = crc32(head.as_slice());
            if expected != actual {
                return Err(MeError::Handshake(HandshakeFault::BadFrame(
                    FramingFault::CrcMismatch,
                )));
            }
            let op = read_u32_le(&self.dec, 8);
            if op == RPC_HANDSHAKE_ERROR {
                let code = if fl >= 16 {
                    read_i32_le(&self.dec, 12)
                } else {
                    -1
                };
                return Err(MeError::Handshake(HandshakeFault::Rejected(code)));
            }
            if op != RPC_HANDSHAKE {
                return Err(MeError::Handshake(HandshakeFault::WrongOpcode));
            }
            vec_drop_front(&mut self.dec, fl);
            return Ok(HsProgress::Done);
        }
    }
}

/// Handshake rejection: a reply stream that opens with a well-built
/// `RPC_HANDSHAKE_ERROR` frame scans to exactly that rejection, whatever
/// follows it.
#[verifier::rlimit(100)]
#[verifier::spinoff_prover]
pub proof fn lemma_handshake_rejection(seq_no: i32, code: i32, rest: Seq<u8>)
    ensures
        hs_scan(frame_bytes(seq_no, u32_le(RPC_HANDSHAKE_ERROR) + i32_le(code)) + rest)
            == HsScanView::Fail(HandshakeFault::Rejected(code)),
{
    let payload = u32_le(RPC_HANDSHAKE_ERROR) + i32_le(code);
    assert(payload.len() == 8);
    lemma_frame_round_trip(seq_no, payload);
    let fb = frame_bytes(seq_no, payload);
    assert(fb.len() == 20);
    let d = fb + rest;
    assert(le_to_u32(d) == 20) by {
        assert(d.take(4) =~= fb.take(4));
        lemma_le_to_u32_prefix(d, fb);
    }
    assert(le_to_u32(d.skip(16)) == crc32_of(d.take(16))) by {
        assert(d.skip(16).take(4) =~= fb.skip(16).take(4));
        lemma_le_to_u32_prefix(d.skip(16), fb.skip(16));
        assert(d.take(16) =~= fb.take(16));
        assert(le_to_u32(fb.skip(16)) == crc32_of(fb.take(16)));
    }
    assert(le_to_u32(d.skip(8)) == RPC_HANDSHAKE_ERROR) by {
        assert(d.skip(8).take(4) =~= u32_le(RPC_HANDSHAKE_ERROR).take(4));
        lemma_le_to_u32_prefix(d.skip(8), u32_le(RPC_HANDSHAKE_ERROR));
        lemma_u32_le_round_trip(RPC_HANDSHAKE_ERROR);
    }
    assert(le_to_i32(d.skip(12)) == code) by {
        assert(d.skip(12).take(4) =~= i32_le(code).take(4));
        lemma_le_to_i32_prefix(d.skip(12), i32_le(code));
        lemma_i32_le_round_trip(code);
    }
}

/// Rewrite a framing error into the handshake fault the handshake phase
/// surfaces it as; any other error passes through.
pub fn framing_to_handshake(e: MeError) -> (r: MeError)
    ensures
        e matches MeError::Framing(f) ==> r == MeError::Handshake(HandshakeFault::BadFrame(f)),
        !(e matches MeError::Framing(_)) ==> r == e,
{
    match e {
        MeError::Framing(f) => MeError::Handshake(HandshakeFault::BadFrame(f)),
        other => other,
    }
}

} // verus!
