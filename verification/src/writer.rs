//! The write half of one peer connection: key, chained IV and the data
//! sequence counter.
//!
//! Every send wraps the payload in a frame under the current sequence
//! number, aligns it with the `04 00 00 00` padding, encrypts it under the
//! chained IV, and advances both the counter and the IV.  The caller
//! serialises sends and writes the returned block to the socket whole.

use vstd::prelude::*;

use crate::cbc::{cbc_enc, cbc_enc_iv_after, cbc_encrypt_padded, pad04};
use crate::frame::{build_rpc_frame, frame_bytes};

verus! {

/// What one send puts on the wire.
pub open spec fn sealed_bytes(key: Seq<u8>, iv: Seq<u8>, seq_no: i32, payload: Seq<u8>) -> Seq<
    u8,
> {
    cbc_enc(key, iv, pad04(frame_bytes(seq_no, payload)))
}

/// The IV left after one send.
pub open spec fn sealed_iv_after(key: Seq<u8>, iv: Seq<u8>, seq_no: i32, payload: Seq<u8>) -> Seq<
    u8,
> {
    cbc_enc_iv_after(key, iv, pad04(frame_bytes(seq_no, payload)))
}

/// The write-side state of one peer connection.
pub struct RpcWriter {
    /// The 32-byte CBC write key.
    pub key: Vec<u8>,
    /// The 16-byte IV the next send chains from.
    pub iv: Vec<u8>,
    /// The sequence number of the next data frame, from 0.
    pub seq_no: i32,
}

impl RpcWriter {
    /// A 32-byte key, a 16-byte IV, and a non-negative counter.
    pub open spec fn wf(self) -> bool {
        &&& self.key@.len() == 32
        &&& self.iv@.len() == 16
        &&& self.seq_no >= 0
    }

    /// A writer fresh out of the handshake: data frames start at 0.
    pub fn new(key: Vec<u8>, iv: Vec<u8>) -> (r: RpcWriter)
        requires
            key@.len() == 32,
            iv@.len() == 16,
        ensures
            r.wf(),
            r.key@ == key@,
            r.iv@ == iv@,
            r.seq_no == 0,
    {
        RpcWriter { key, iv, seq_no: 0 }
    }

    /// Seal one payload: frame it under the current sequence number, pad,
    /// encrypt, and advance the counter and the IV.
    pub fn seal(&mut self, payload: &Vec<u8>) -> (r: Vec<u8>)
        requires
            old(self).wf(),
            payload@.len() + 12 <= 0x1000000,
            old(self).seq_no < i32::MAX,
        ensures
            final(self).wf(),
            final(self).key@ == old(self).key@,
            final(self).seq_no == old(self).seq_no + 1,
            r@ == sealed_bytes(old(self).key@, old(self).iv@, old(self).seq_no, payload@),
            final(self).iv@ == sealed_iv_after(
                old(self).key@,
                old(self).iv@,
                old(self).seq_no,
                payload@,
            ),
    {
        let f = build_rpc_frame(self.seq_no, payload);
        self.seq_no = self.seq_no + 1;
        let (ct, next_iv) = cbc_encrypt_padded(&self.key, &self.iv, &f);
        self.iv = next_iv;
        ct
    }
}

} // verus!
