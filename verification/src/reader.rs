//! The steady-state reader of one peer connection.
//!
//! Each socket read is absorbed into the streaming CBC unit; complete
//! frames are taken off the decrypted buffer and dispatched by the first
//! four payload bytes.  A frame with a bad checksum is dropped and the
//! stream goes on; a frame with an illegal length ends the reader.

use vstd::prelude::*;

use crate::bytes_util::{vec_copy_range, vec_drop_front, vec_push_all};
use crate::cbc::{aligned_take, cbc_dec, cbc_dec_iv_after, CbcStream};
use crate::consts::{
    FRAME_NOOP_LEN, RPC_CLOSE_CONN, RPC_CLOSE_EXT, RPC_PING, RPC_PONG, RPC_PROXY_ANS,
    RPC_SIMPLE_ACK,
};
use crate::crc::{crc32, crc32_of};
use crate::errors::{FramingFault, MeError};
use crate::handshake::HsRecv;
use crate::le::{
    i64_le, le_to_i64, le_to_u32, le_to_u64, push_i64_le, push_u32_le, read_i64_le, read_u32_le,
    read_u64_le, u32_le,
};

verus! {

/// One dispatched frame, with every field a plain value.
pub enum ActionView {
    /// Answer bytes for a logical connection.
    Data(u64, Seq<u8>),
    /// A delivery confirmation for a logical connection.
    Ack(u64, u32),
    /// The peer closed a logical connection.
    Close(u64),
    /// The peer probed liveness; answer with this id.
    Pong(i64),
}

/// What the reader does with one frame it received.
#[derive(Debug)]
pub enum ReaderAction {
    /// Route these answer bytes to the session owning the id.
    Data(u64, Vec<u8>),
    /// Route this confirmation to the session owning the id.
    Ack(u64, u32),
    /// Route a close to the session owning the id, then unregister it.
    Close(u64),
    /// Send an `RPC_PONG` frame carrying this id back over this peer's
    /// writer.
    Pong(i64),
}

/// The plain-value view of an action.
pub open spec fn action_view(a: ReaderAction) -> ActionView {
    match a {
        ReaderAction::Data(cid, d) => ActionView::Data(cid, d@),
        ReaderAction::Ack(cid, confirm) => ActionView::Ack(cid, confirm),
        ReaderAction::Close(cid) => ActionView::Close(cid),
        ReaderAction::Pong(ping_id) => ActionView::Pong(ping_id),
    }
}

/// What one frame payload dispatches to: at most one action.  An unknown
/// opcode or a body too short for its opcode dispatches to nothing.
pub open spec fn dispatch_view(payload: Seq<u8>) -> Seq<ActionView> {
    if payload.len() < 4 {
        Seq::empty()
    } else {
        let pt = le_to_u32(payload);
        let body = payload.skip(4);
        if pt == RPC_PROXY_ANS && body.len() >= 12 {
            seq![ActionView::Data(le_to_u64(body.skip(4)), body.skip(12))]
        } else if pt == RPC_SIMPLE_ACK && body.len() >= 12 {
            seq![ActionView::Ack(le_to_u64(body), le_to_u32(body.skip(8)))]
        } else if (pt == RPC_CLOSE_EXT || pt == RPC_CLOSE_CONN) && body.len() >= 8 {
            seq![ActionView::Close(le_to_u64(body))]
        } else if pt == RPC_PING && body.len() >= 8 {
            seq![ActionView::Pong(le_to_i64(body))]
        } else {
            Seq::empty()
        }
    }
}

/// What a scan of the decrypted buffer concludes: the dispatched actions,
/// the bytes kept for the next read, and the fault that ends the reader,
/// if one was hit.
pub struct ReaderScanView {
    pub actions: Seq<ActionView>,
    pub rest: Seq<u8>,
    pub fault: Option<FramingFault>,
}

/// Scan the decrypted buffer: skip noop length words, stop before an
/// incomplete frame, drop a frame whose checksum fails, dispatch the
/// rest, and fault on an illegal length.
pub open spec fn reader_scan(d: Seq<u8>) -> ReaderScanView
    decreases d.len(),
{
    if d.len() < 12 {
        ReaderScanView { actions: Seq::empty(), rest: d, fault: None }
    } else {
        let fl = le_to_u32(d) as int;
        if fl == 4 {
            reader_scan(d.skip(4))
        } else if fl < 12 || fl > 0x1000000 {
            ReaderScanView {
                actions: Seq::empty(),
                rest: d,
                fault: Some(FramingFault::LengthOutOfRange),
            }
        } else if d.len() < fl {
            ReaderScanView { actions: Seq::empty(), rest: d, fault: None }
        } else {
            let tail = reader_scan(d.skip(fl));
            if le_to_u32(d.skip(fl - 4)) != crc32_of(d.take(fl - 4)) {
                tail
            } else {
                ReaderScanView {
                    actions: dispatch_view(d.subrange(8, fl - 4)) + tail.actions,
                    rest: tail.rest,
                    fault: tail.fault,
                }
            }
        }
    }
}

/// Dispatch one frame payload.
pub fn parse_rpc_payload(payload: &Vec<u8>) -> (r: Option<ReaderAction>)
    ensures
        r matches Some(a) ==> dispatch_view(payload@) == seq![action_view(a)],
        r matches None ==> dispatch_view(payload@) == Seq::<ActionView>::empty(),
{
    let n = payload.len();
    if n < 4 {
        return None;
    }
    let pt = read_u32_le(payload, 0);
    assert(payload@.skip(0) =~= payload@);
    let ghost body = payload@.skip(4);
    if pt == RPC_PROXY_ANS && n >= 16 {
        let cid = read_u64_le(payload, 8);
        assert(payload@.skip(8) =~= body.skip(4));
        let data = vec_copy_range(payload, 16, n);
        assert(data@ =~= body.skip(12));
        Some(ReaderAction::Data(cid, data))
    } else if pt == RPC_SIMPLE_ACK && n >= 16 {
        let cid = read_u64_le(payload, 4);
        let confirm = read_u32_le(payload, 12);
        assert(payload@.skip(4) =~= body);
        assert(payload@.skip(12) =~= body.skip(8));
        Some(ReaderAction::Ack(cid, confirm))
    } else if (pt == RPC_CLOSE_EXT || pt == RPC_CLOSE_CONN) && n >= 12 {
        let cid = read_u64_le(payload, 4);
        assert(payload@.skip(4) =~= body);
        Some(ReaderAction::Close(cid))
    } else if pt == RPC_PING && n >= 12 {
        let ping_id = read_i64_le(payload, 4);
        assert(payload@.skip(4) =~= body);
        Some(ReaderAction::Pong(ping_id))
    } else {
        None
    }
}

/// The payload answering a liveness probe: `RPC_PONG` and the probe's id.
pub open spec fn pong_payload(ping_id: i64) -> Seq<u8> {
    u32_le(RPC_PONG) + i64_le(ping_id)
}

/// Build the payload answering a liveness probe.
pub fn build_pong_payload(ping_id: i64) -> (r: Vec<u8>)
    ensures
        r@ == pong_payload(ping_id),
        r@.len() == 12,
{
    let mut p: Vec<u8> = Vec::new();
    push_u32_le(&mut p, RPC_PONG);
    push_i64_le(&mut p, ping_id);
    assert(p@ =~= pong_payload(ping_id));
    p
}

/// The per-peer read state: the streaming CBC unit and the decrypted
/// bytes not yet forming a complete frame.
pub struct ReaderState {
    pub stream: CbcStream,
    pub dec: Vec<u8>,
}

impl ReaderState {
    /// The stream is well-formed.
    pub open spec fn wf(self) -> bool {
        self.stream.wf()
    }

    /// Carry the residues that the handshake receiver left over into the
    /// steady state.
    pub fn from_handshake(hs: HsRecv) -> (r: ReaderState)
        requires
            hs.wf(),
        ensures
            r.wf(),
            r.stream == hs.stream,
            r.dec == hs.dec,
    {
        ReaderState { stream: hs.stream, dec: hs.dec }
    }

    /// Feed the bytes of one socket read and collect the actions of every
    /// complete frame, exactly as `reader_scan` concludes on the
    /// decrypted buffer.
    pub fn feed(&mut self, chunk: &Vec<u8>) -> (r: Result<Vec<ReaderAction>, MeError>)
        requires
            old(self).wf(),
            old(self).stream.residue@.len() + chunk@.len() <= usize::MAX,
            old(self).dec@.len() + old(self).stream.residue@.len() + chunk@.len() <= usize::MAX,
        ensures
            final(self).wf(),
            final(self).stream.key@ == old(self).stream.key@,
            final(self).stream.iv@ == cbc_dec_iv_after(
                old(self).stream.iv@,
                aligned_take(old(self).stream.residue@ + chunk@),
            ),
            final(self).stream.residue@ == (old(self).stream.residue@ + chunk@).skip(
                aligned_take(old(self).stream.residue@ + chunk@).len() as int,
            ),
            ({
                let newdec = old(self).dec@ + cbc_dec(
                    old(self).stream.key@,
                    old(self).stream.iv@,
                    aligned_take(old(self).stream.residue@ + chunk@),
                );
                let scan = reader_scan(newdec);
                &&& final(self).dec@ == scan.rest
                &&& (match scan.fault {
                    Some(f) => r == Err::<Vec<ReaderAction>, MeError>(MeError::Framing(f)),
                    None => r matches Ok(acts) && acts@.map_values(
                        |a: ReaderAction| action_view(a),
                    ) == scan.actions,
                })
            }),
    {
        let out = self.stream.absorb(chunk);
        vec_push_all(&mut self.dec, out.as_slice());
        let ghost newdec = self.dec@;
        let mut actions: Vec<ReaderAction> = Vec::new();
        loop
            invariant
                self.stream.wf(),
                self.stream.key@ == old(self).stream.key@,
                self.stream.iv@ == cbc_dec_iv_after(
                    old(self).stream.iv@,
                    aligned_take(old(self).stream.residue@ + chunk@),
                ),
                self.stream.residue@ == (old(self).stream.residue@ + chunk@).skip(
                    aligned_take(old(self).stream.residue@ + chunk@).len() as int,
                ),
                newdec == old(self).dec@ + cbc_dec(
                    old(self).stream.key@,
                    old(self).stream.iv@,
                    aligned_take(old(self).stream.residue@ + chunk@),
                ),
                reader_scan(newdec).actions == actions@.map_values(
                    |a: ReaderAction| action_view(a),
                ) + reader_scan(self.dec@).actions,
                reader_scan(newdec).rest == reader_scan(self.dec@).rest,
                reader_scan(newdec).fault == reader_scan(self.dec@).fault,
            decreases self.dec@.len(),
        {
            let n = self.dec.len();
            if n < 12 {
                proof {
                    assert(actions@.map_values(|a: ReaderAction| action_view(a))
                        + Seq::<ActionView>::empty() =~= actions@.map_values(
                        |a: ReaderAction| action_view(a),
                    ));
                }
                return Ok(actions);
            }
            let fl_w = read_u32_le(&self.dec, 0);
            assert(self.dec@.skip(0) =~= self.dec@);
            if fl_w == FRAME_NOOP_LEN {
                vec_drop_front(&mut self.dec, 4);
                continue ;
            }
            if fl_w < 12 || fl_w > 0x1000000 {
                return Err(MeError::Framing(FramingFault::LengthOutOfRange));
            }
            let fl = fl_w as usize;
            if n < fl {
                proof {
                    assert(actions@.map_values(|a: ReaderAction| action_view(a))
                        + Seq::<ActionView>::empty() =~= actions@.map_values(
                        |a: ReaderAction| action_view(a),
                    ));
                }
                return Ok(actions);
            }
            let head = vec_copy_range(&self.dec, 0, fl - 4);
            assert(head@ =~= self.dec@.take(fl as int - 4));
            let expected = read_u32_le(&self.dec, fl - 4);
            let actual = crc32(head.as_slice());
            if expected != actual {
                vec_drop_front(&mut self.dec, fl);
                continue ;
            }
            let payload = vec_copy_range(&self.dec, 8, fl - 4);
            assert(payload@ =~= self.dec@.subrange(8, fl as int - 4));
            let ghost before_dec = self.dec@;
            let ghost before_actions = actions@;
            match parse_rpc_payload(&payload) {
                Some(a) => {
                    actions.push(a);
                },
                None => {
                },
            }
            vec_drop_front(&mut self.dec, fl);
            proof {
                assert(reader_scan(before_dec).actions == dispatch_view(payload@) + reader_scan(
                    self.dec@,
                ).actions);
                assert(actions@.map_values(|a: ReaderAction| action_view(a)) =~= before_actions
                    .map_values(|a: ReaderAction| action_view(a)) + dispatch_view(payload@));
            }
        }
    }
}

} // verus!
