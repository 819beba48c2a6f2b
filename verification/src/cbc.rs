//! AES-256-CBC with chained IV, as the transport uses it.
//!
//! The block cipher itself is the outside routine; the chaining, the
//! `04 00 00 00` alignment padding and the streaming discipline are the
//! library's own and are verified.  The ciphertext of the last complete
//! block of one call becomes the IV of the next call, on both directions.

use vstd::prelude::*;

use aes::cipher::{BlockDecrypt, BlockEncrypt, KeyInit};

use crate::bytes_util::{vec_copy_range, vec_push_all};

verus! {

/// AES-256 encryption of one 16-byte block, a function of key and block
/// alone.  Contracts speak through this name; nothing unfolds it.
pub uninterp spec fn aes256_enc(key: Seq<u8>, block: Seq<u8>) -> Seq<u8>;

/// AES-256 decryption of one 16-byte block.
pub uninterp spec fn aes256_dec(key: Seq<u8>, block: Seq<u8>) -> Seq<u8>;

/// Relies on aes::Aes256 through cipher::BlockEncrypt::encrypt_block: one
/// AES-256 block encryption, 16 bytes from 16 bytes, determined by key and
/// block alone.
#[verifier::external_body]
fn aes256_encrypt_block(key: &[u8], block: &[u8]) -> (r: Vec<u8>)
    requires
        key@.len() == 32,
        block@.len() == 16,
    ensures
        r@ == aes256_enc(key@, block@),
        r@.len() == 16,
{
    let cipher = aes::Aes256::new(aes::cipher::generic_array::GenericArray::from_slice(key));
    let mut b = aes::cipher::generic_array::GenericArray::clone_from_slice(block);
    cipher.encrypt_block(&mut b);
    b.to_vec()
}

/// Relies on aes::Aes256 through cipher::BlockDecrypt::decrypt_block: one
/// AES-256 block decryption, 16 bytes from 16 bytes, determined by key and
/// block alone.
#[verifier::external_body]
fn aes256_decrypt_block(key: &[u8], block: &[u8]) -> (r: Vec<u8>)
    requires
        key@.len() == 32,
        block@.len() == 16,
    ensures
        r@ == aes256_dec(key@, block@),
        r@.len() == 16,
{
    let cipher = aes::Aes256::new(aes::cipher::generic_array::GenericArray::from_slice(key));
    let mut b = aes::cipher::generic_array::GenericArray::clone_from_slice(block);
    cipher.decrypt_block(&mut b);
    b.to_vec()
}

/// Byte-wise XOR of two 16-byte blocks.
pub open spec fn xor16(a: Seq<u8>, b: Seq<u8>) -> Seq<u8>
    recommends
        a.len() == 16,
        b.len() == 16,
{
    Seq::new(16, |i: int| a[i] ^ b[i])
}

/// CBC encryption of the complete 16-byte blocks of `pt` under `key`,
/// chaining from `iv`.  A trailing partial block contributes nothing.
pub open spec fn cbc_enc(key: Seq<u8>, iv: Seq<u8>, pt: Seq<u8>) -> Seq<u8>
    decreases pt.len(),
{
    if pt.len() < 16 {
        Seq::empty()
    } else {
        let c = aes256_enc(key, xor16(pt.take(16), iv));
        c + cbc_enc(key, c, pt.skip(16))
    }
}

/// The IV that CBC encryption chains out: the ciphertext of the last
/// complete block, or `iv` itself when there was none.
pub open spec fn cbc_enc_iv_after(key: Seq<u8>, iv: Seq<u8>, pt: Seq<u8>) -> Seq<u8>
    decreases pt.len(),
{
    if pt.len() < 16 {
        iv
    } else {
        cbc_enc_iv_after(key, aes256_enc(key, xor16(pt.take(16), iv)), pt.skip(16))
    }
}

/// CBC decryption of the complete 16-byte blocks of `ct` under `key`,
/// chaining from `iv`.  A trailing partial block contributes nothing.
pub open spec fn cbc_dec(key: Seq<u8>, iv: Seq<u8>, ct: Seq<u8>) -> Seq<u8>
    decreases ct.len(),
{
    if ct.len() < 16 {
        Seq::empty()
    } else {
        xor16(aes256_dec(key, ct.take(16)), iv) + cbc_dec(key, ct.take(16), ct.skip(16))
    }
}

/// The IV that CBC decryption chains out: the last complete ciphertext
/// block, or `iv` itself when there was none.
pub open spec fn cbc_dec_iv_after(iv: Seq<u8>, ct: Seq<u8>) -> Seq<u8>
    recommends
        ct.len() % 16 == 0,
{
    if ct.len() < 16 {
        iv
    } else {
        ct.skip(ct.len() - 16)
    }
}

/// The byte at offset `i` of the `04 00 00 00` alignment padding.
pub open spec fn pad_byte(i: int) -> u8 {
    if i % 4 == 0 {
        4
    } else {
        0
    }
}

/// How many padding bytes align `n` bytes to a block boundary.
pub open spec fn pad04_len(n: nat) -> nat {
    (((16 - (n % 16) as int) % 16) as nat)
}

/// `s` aligned to a block boundary with the repeating `04 00 00 00` pattern.
pub open spec fn pad04(s: Seq<u8>) -> Seq<u8> {
    s + Seq::new(pad04_len(s.len()), |i: int| pad_byte(i))
}

/// Both directions of CBC on exactly one block, written out.
pub proof fn lemma_cbc_single_block(key: Seq<u8>, iv: Seq<u8>, b: Seq<u8>)
    requires
        b.len() == 16,
    ensures
        cbc_enc(key, iv, b) == aes256_enc(key, xor16(b, iv)),
        cbc_enc_iv_after(key, iv, b) == aes256_enc(key, xor16(b, iv)),
        cbc_dec(key, iv, b) == xor16(aes256_dec(key, b), iv),
        cbc_dec_iv_after(iv, b) == b,
{
    reveal_with_fuel(cbc_enc, 2);
    reveal_with_fuel(cbc_enc_iv_after, 2);
    reveal_with_fuel(cbc_dec, 2);
    assert(b.take(16) =~= b);
    assert(b.skip(16) =~= Seq::<u8>::empty());
    assert(b.skip(b.len() - 16) =~= b);
    assert(cbc_enc(key, iv, b) =~= aes256_enc(key, xor16(b, iv)) + Seq::<u8>::empty());
    assert(aes256_enc(key, xor16(b, iv)) + Seq::<u8>::empty() =~= aes256_enc(key, xor16(b, iv)));
    assert(cbc_dec(key, iv, b) =~= xor16(aes256_dec(key, b), iv) + Seq::<u8>::empty());
    assert(xor16(aes256_dec(key, b), iv) + Seq::<u8>::empty() =~= xor16(aes256_dec(key, b), iv));
}

/// Decrypting a block-aligned buffer yields exactly as many bytes.
pub proof fn lemma_cbc_dec_len(key: Seq<u8>, iv: Seq<u8>, ct: Seq<u8>)
    requires
        ct.len() % 16 == 0,
    ensures
        cbc_dec(key, iv, ct).len() == ct.len(),
    decreases ct.len(),
{
    if ct.len() >= 16 {
        lemma_cbc_dec_len(key, ct.take(16), ct.skip(16));
    }
}

/// CBC chaining, encrypt side: encrypting `a + b` from `iv` is encrypting
/// `a` from `iv` and then `b` from the chained-out IV, for block-aligned `a`.
pub proof fn lemma_cbc_enc_chain(key: Seq<u8>, iv: Seq<u8>, a: Seq<u8>, b: Seq<u8>)
    requires
        a.len() % 16 == 0,
    ensures
        cbc_enc(key, iv, a + b) == cbc_enc(key, iv, a) + cbc_enc(key, cbc_enc_iv_after(key, iv, a), b),
        cbc_enc_iv_after(key, iv, a + b) == cbc_enc_iv_after(key, cbc_enc_iv_after(key, iv, a), b),
    decreases a.len(),
{
    if a.len() == 0 {
        assert(a + b =~= b);
        assert(cbc_enc(key, iv, a) =~= Seq::<u8>::empty());
        assert(cbc_enc(key, iv, a) + cbc_enc(key, iv, b) =~= cbc_enc(key, iv, b));
    } else {
        let ab = a + b;
        assert(ab.len() >= 16);
        assert(ab.take(16) =~= a.take(16));
        assert(ab.skip(16) =~= a.skip(16) + b);
        let c = aes256_enc(key, xor16(a.take(16), iv));
        lemma_cbc_enc_chain(key, c, a.skip(16), b);
        assert(cbc_enc(key, iv, ab) == c + cbc_enc(key, c, a.skip(16) + b));
        assert(cbc_enc(key, iv, ab) =~= cbc_enc(key, iv, a) + cbc_enc(
            key,
            cbc_enc_iv_after(key, iv, a),
            b,
        ));
    }
}

/// CBC chaining, decrypt side: decrypting `a + b` from `iv` is decrypting
/// `a` from `iv` and then `b` from the chained-out IV, for block-aligned `a`.
pub proof fn lemma_cbc_dec_chain(key: Seq<u8>, iv: Seq<u8>, a: Seq<u8>, b: Seq<u8>)
    requires
        a.len() % 16 == 0,
    ensures
        cbc_dec(key, iv, a + b) == cbc_dec(key, iv, a) + cbc_dec(key, cbc_dec_iv_after(iv, a), b),
        b.len() % 16 == 0 ==> cbc_dec_iv_after(iv, a + b) == cbc_dec_iv_after(
            cbc_dec_iv_after(iv, a),
            b,
        ),
    decreases a.len(),
{
    if a.len() == 0 {
        assert(a + b =~= b);
        assert(cbc_dec(key, iv, a) =~= Seq::<u8>::empty());
        assert(cbc_dec(key, iv, a) + cbc_dec(key, iv, b) =~= cbc_dec(key, iv, b));
    } else {
        let ab = a + b;
        assert(ab.take(16) =~= a.take(16));
        assert(ab.skip(16) =~= a.skip(16) + b);
        lemma_cbc_dec_chain(key, a.take(16), a.skip(16), b);
        assert(cbc_dec(key, iv, ab) =~= cbc_dec(key, iv, a) + cbc_dec(
            key,
            cbc_dec_iv_after(iv, a),
            b,
        ));
        if b.len() % 16 == 0 {
            if b.len() == 0 {
                assert(ab =~= a);
            } else {
                assert(ab.skip(ab.len() - 16) =~= b.skip(b.len() - 16));
            }
        }
    }
}

/// The longest block-aligned prefix of `s`.
pub open spec fn aligned_take(s: Seq<u8>) -> Seq<u8> {
    s.take((s.len() - s.len() % 16) as int)
}

/// What a streaming decrypt unit emits when fed `chunks` one at a time,
/// starting with residue `residue` and IV `iv`: each step decrypts the
/// complete blocks of residue-plus-chunk and carries the remainder over.
pub open spec fn cbc_dec_stream(key: Seq<u8>, iv: Seq<u8>, residue: Seq<u8>, chunks: Seq<Seq<u8>>)
    -> Seq<u8>
    decreases chunks.len(),
{
    if chunks.len() == 0 {
        Seq::empty()
    } else {
        let buf = residue + chunks[0];
        let aligned = aligned_take(buf);
        cbc_dec(key, iv, aligned) + cbc_dec_stream(
            key,
            cbc_dec_iv_after(iv, aligned),
            buf.skip(aligned.len() as int),
            chunks.drop_first(),
        )
    }
}

proof fn lemma_aligned_take_shift(p: Seq<u8>, t: Seq<u8>)
    requires
        p.len() % 16 == 0,
    ensures
        aligned_take(p + t) == p + aligned_take(t),
{
    assert(aligned_take(p + t) =~= p + aligned_take(t));
}

proof fn lemma_cbc_dec_stream_shift(
    key: Seq<u8>,
    iv0: Seq<u8>,
    p: Seq<u8>,
    r: Seq<u8>,
    chunks: Seq<Seq<u8>>,
)
    requires
        p.len() % 16 == 0,
        r.len() < 16,
    ensures
        cbc_dec_stream(key, cbc_dec_iv_after(iv0, p), r, chunks) == cbc_dec(
            key,
            iv0,
            aligned_take(p + r + chunks.flatten()),
        ).skip(p.len() as int),
    decreases chunks.len(),
{
    lemma_cbc_dec_len(key, iv0, p);
    if chunks.len() == 0 {
        assert(chunks.flatten() =~= Seq::<u8>::empty());
        assert(p + r + chunks.flatten() =~= p + r);
        assert(aligned_take(p + r) =~= p);
        assert(cbc_dec(key, iv0, p).skip(p.len() as int) =~= Seq::<u8>::empty());
    } else {
        let ivp = cbc_dec_iv_after(iv0, p);
        let buf = r + chunks[0];
        let aligned = aligned_take(buf);
        let rest = chunks.drop_first();
        let p2 = p + aligned;
        let r2 = buf.skip(aligned.len() as int);
        assert(aligned.len() % 16 == 0);
        assert(r2.len() == buf.len() % 16);
        lemma_cbc_dec_chain(key, iv0, p, aligned);
        assert(cbc_dec_iv_after(iv0, p2) == cbc_dec_iv_after(ivp, aligned));
        lemma_cbc_dec_stream_shift(key, iv0, p2, r2, rest);
        // the bytes of the whole stream do not depend on where the cut lies
        assert(chunks.flatten() == chunks[0] + rest.flatten());
        assert(p2 + r2 + rest.flatten() =~= p + r + chunks.flatten());
        let whole = p + r + chunks.flatten();
        let tail = r2 + rest.flatten();
        lemma_aligned_take_shift(p2, tail);
        assert(p2 + tail =~= whole);
        assert(aligned_take(whole) == p2 + aligned_take(tail));
        lemma_cbc_dec_chain(key, iv0, p2, aligned_take(tail));
        lemma_cbc_dec_len(key, iv0, p2);
        let x = cbc_dec(key, iv0, aligned_take(whole));
        assert(x == cbc_dec(key, iv0, p2) + cbc_dec(key, cbc_dec_iv_after(iv0, p2), aligned_take(tail)));
        assert(cbc_dec(key, iv0, p2) == cbc_dec(key, iv0, p) + cbc_dec(key, ivp, aligned));
        lemma_cbc_dec_len(key, ivp, aligned);
        assert(x.skip(p.len() as int) =~= cbc_dec(key, ivp, aligned) + cbc_dec(
            key,
            cbc_dec_iv_after(iv0, p2),
            aligned_take(tail),
        ));
        assert(x.skip(p2.len() as int) =~= cbc_dec(key, cbc_dec_iv_after(iv0, p2), aligned_take(tail)));
        assert(cbc_dec_stream(key, ivp, r, chunks) == cbc_dec(key, ivp, aligned)
            + cbc_dec_stream(key, cbc_dec_iv_after(ivp, aligned), r2, rest));
    }
}

/// Streaming decrypt equivalence: however a ciphertext stream is cut into
/// chunks, the streaming unit emits exactly the decryption of the stream's
/// block-aligned prefix in one piece.
pub proof fn lemma_streaming_decrypt_equivalence(key: Seq<u8>, iv: Seq<u8>, chunks: Seq<Seq<u8>>)
    ensures
        cbc_dec_stream(key, iv, Seq::empty(), chunks) == cbc_dec(
            key,
            iv,
            aligned_take(chunks.flatten()),
        ),
{
    let p = Seq::<u8>::empty();
    lemma_cbc_dec_stream_shift(key, iv, p, Seq::empty(), chunks);
    assert(p + Seq::<u8>::empty() + chunks.flatten() =~= chunks.flatten());
    assert(cbc_dec_iv_after(iv, p) == iv);
    assert(cbc_dec(key, iv, aligned_take(chunks.flatten())).skip(0) =~= cbc_dec(
        key,
        iv,
        aligned_take(chunks.flatten()),
    ));
}

/// Append the `04 00 00 00` padding that aligns `v` to a block boundary.
fn push_pad04(v: &mut Vec<u8>)
    requires
        old(v)@.len() + 15 <= usize::MAX,
    ensures
        final(v)@ == pad04(old(v)@),
        final(v)@.len() % 16 == 0,
{
    let rem = v.len() % 16;
    let pad: usize = (16 - rem) % 16;
    let mut i: usize = 0;
    while i < pad
        invariant
            i <= pad,
            pad == pad04_len(old(v)@.len()),
            v@ == old(v)@ + Seq::new(i as nat, |j: int| pad_byte(j)),
        decreases pad - i,
    {
        if i % 4 == 0 {
            v.push(4);
        } else {
            v.push(0);
        }
        i = i + 1;
        assert(v@ =~= old(v)@ + Seq::new(i as nat, |j: int| pad_byte(j)));
    }
    assert(v@ =~= pad04(old(v)@));
}

/// Encrypt the complete blocks of `pt` (which must be block-aligned) under
/// `key`, chaining from `iv`; return the ciphertext and the chained-out IV.
fn cbc_encrypt_blocks(key: &Vec<u8>, iv: &Vec<u8>, pt: &Vec<u8>) -> (r: (Vec<u8>, Vec<u8>))
    requires
        key@.len() == 32,
        iv@.len() == 16,
        pt@.len() % 16 == 0,
    ensures
        r.0@ == cbc_enc(key@, iv@, pt@),
        r.0@.len() == pt@.len(),
        r.1@ == cbc_enc_iv_after(key@, iv@, pt@),
        r.1@.len() == 16,
{
    let n = pt.len();
    let mut out: Vec<u8> = Vec::new();
    let mut cur_iv: Vec<u8> = vec_copy_range(iv, 0, 16);
    assert(cur_iv@ =~= iv@);
    assert(pt@.take(0) =~= Seq::<u8>::empty());
    let mut off: usize = 0;
    while off < n
        invariant
            key@.len() == 32,
            n == pt@.len(),
            n % 16 == 0,
            off % 16 == 0,
            off <= n,
            out@ == cbc_enc(key@, iv@, pt@.take(off as int)),
            out@.len() == off,
            cur_iv@ == cbc_enc_iv_after(key@, iv@, pt@.take(off as int)),
            cur_iv@.len() == 16,
        decreases n - off,
    {
        let mut blk: Vec<u8> = Vec::new();
        let mut i: usize = 0;
        while i < 16
            invariant
                i <= 16,
                off + 16 <= n,
                n == pt@.len(),
                cur_iv@.len() == 16,
                blk@ == Seq::new(i as nat, |j: int| pt@[off + j] ^ cur_iv@[j]),
            decreases 16 - i,
        {
            blk.push(pt[off + i] ^ cur_iv[i]);
            i = i + 1;
            assert(blk@ =~= Seq::new(i as nat, |j: int| pt@[off + j] ^ cur_iv@[j]));
        }
        let blk_spec = Ghost(pt@.subrange(off as int, off as int + 16));
        assert(blk@ =~= xor16(blk_spec@, cur_iv@));
        let c = aes256_encrypt_block(key.as_slice(), blk.as_slice());
        vec_push_all(&mut out, c.as_slice());
        proof {
            lemma_cbc_enc_chain(key@, iv@, pt@.take(off as int), blk_spec@);
            assert(pt@.take(off as int) + blk_spec@ =~= pt@.take(off as int + 16));
            lemma_cbc_single_block(key@, cur_iv@, blk_spec@);
        }
        cur_iv = c;
        off = off + 16;
    }
    assert(pt@.take(n as int) =~= pt@);
    (out, cur_iv)
}

/// Pad `plaintext` with the `04 00 00 00` pattern to a block boundary and
/// CBC-encrypt it under `key`, chaining from `iv`.  Returns the ciphertext
/// and the IV for the next send.
pub fn cbc_encrypt_padded(key: &Vec<u8>, iv: &Vec<u8>, plaintext: &Vec<u8>) -> (r: (Vec<u8>, Vec<
    u8,
>))
    requires
        key@.len() == 32,
        iv@.len() == 16,
        plaintext@.len() + 15 <= usize::MAX,
    ensures
        r.0@ == cbc_enc(key@, iv@, pad04(plaintext@)),
        r.0@.len() == pad04(plaintext@).len(),
        r.1@ == cbc_enc_iv_after(key@, iv@, pad04(plaintext@)),
        r.1@.len() == 16,
{
    let mut buf = vec_copy_range(plaintext, 0, plaintext.len());
    assert(buf@ =~= plaintext@);
    push_pad04(&mut buf);
    cbc_encrypt_blocks(key, iv, &buf)
}

/// CBC-decrypt the block-aligned buffer `data` in place under `key`,
/// chaining from `iv`; return the IV for the next receive step.
pub fn cbc_decrypt_inplace(key: &Vec<u8>, iv: &Vec<u8>, data: &mut Vec<u8>) -> (r: Vec<u8>)
    requires
        key@.len() == 32,
        iv@.len() == 16,
        old(data)@.len() % 16 == 0,
    ensures
        final(data)@ == cbc_dec(key@, iv@, old(data)@),
        final(data)@.len() == old(data)@.len(),
        r@ == cbc_dec_iv_after(iv@, old(data)@),
        r@.len() == 16,
{
    let ct = Ghost(old(data)@);
    let n = data.len();
    let mut out: Vec<u8> = Vec::new();
    let mut cur_iv: Vec<u8> = vec_copy_range(iv, 0, 16);
    assert(cur_iv@ =~= iv@);
    assert(ct@.take(0) =~= Seq::<u8>::empty());
    let mut off: usize = 0;
    while off < n
        invariant
            key@.len() == 32,
            data@ == ct@,
            n == ct@.len(),
            n % 16 == 0,
            off % 16 == 0,
            off <= n,
            out@ == cbc_dec(key@, iv@, ct@.take(off as int)),
            out@.len() == off,
            cur_iv@ == cbc_dec_iv_after(iv@, ct@.take(off as int)),
            cur_iv@.len() == 16,
        decreases n - off,
    {
        let cblk = vec_copy_range(data, off, off + 16);
        let blk_spec = Ghost(ct@.subrange(off as int, off as int + 16));
        assert(cblk@ =~= blk_spec@);
        let p = aes256_decrypt_block(key.as_slice(), cblk.as_slice());
        let mut blk: Vec<u8> = Vec::new();
        let mut i: usize = 0;
        while i < 16
            invariant
                i <= 16,
                p@.len() == 16,
                cur_iv@.len() == 16,
                blk@ == Seq::new(i as nat, |j: int| p@[j] ^ cur_iv@[j]),
            decreases 16 - i,
        {
            blk.push(p[i] ^ cur_iv[i]);
            i = i + 1;
            assert(blk@ =~= Seq::new(i as nat, |j: int| p@[j] ^ cur_iv@[j]));
        }
        assert(blk@ =~= xor16(aes256_dec(key@, blk_spec@), cur_iv@));
        vec_push_all(&mut out, blk.as_slice());
        proof {
            lemma_cbc_dec_chain(key@, iv@, ct@.take(off as int), blk_spec@);
            assert(ct@.take(off as int) + blk_spec@ =~= ct@.take(off as int + 16));
            lemma_cbc_single_block(key@, cur_iv@, blk_spec@);
            assert(ct@.take(off as int + 16).skip(off as int) =~= blk_spec@);
        }
        cur_iv = cblk;
        off = off + 16;
    }
    assert(ct@.take(n as int) =~= ct@);
    *data = out;
    cur_iv
}

/// The receive-side streaming decrypt unit: a read key, the current read
/// IV, and the encrypted bytes not yet forming a complete block.
pub struct CbcStream {
    pub key: Vec<u8>,
    pub iv: Vec<u8>,
    pub residue: Vec<u8>,
}

impl CbcStream {
    /// A 32-byte key, a 16-byte IV, and less than one block of residue.
    pub open spec fn wf(self) -> bool {
        &&& self.key@.len() == 32
        &&& self.iv@.len() == 16
        &&& self.residue@.len() < 16
    }

    /// Start a stream from a key and an IV, with nothing pending.
    pub fn new(key: Vec<u8>, iv: Vec<u8>) -> (r: CbcStream)
        requires
            key@.len() == 32,
            iv@.len() == 16,
        ensures
            r.wf(),
            r.key@ == key@,
            r.iv@ == iv@,
            r.residue@ == Seq::<u8>::empty(),
    {
        CbcStream { key, iv, residue: Vec::new() }
    }

    /// Absorb one chunk of ciphertext: decrypt the complete blocks of the
    /// pending residue plus the chunk, advance the IV past them, and keep
    /// the partial block back.  One step of the streaming discipline.
    pub fn absorb(&mut self, chunk: &Vec<u8>) -> (out: Vec<u8>)
        requires
            old(self).wf(),
            old(self).residue@.len() + chunk@.len() <= usize::MAX,
        ensures
            final(self).wf(),
            final(self).key@ == old(self).key@,
            out@ == cbc_dec(
                old(self).key@,
                old(self).iv@,
                aligned_take(old(self).residue@ + chunk@),
            ),
            final(self).iv@ == cbc_dec_iv_after(
                old(self).iv@,
                aligned_take(old(self).residue@ + chunk@),
            ),
            final(self).residue@ == (old(self).residue@ + chunk@).skip(
                aligned_take(old(self).residue@ + chunk@).len() as int,
            ),
            out@.len() == aligned_take(old(self).residue@ + chunk@).len(),
    {
        let mut buf = vec_copy_range(&self.residue, 0, self.residue.len());
        vec_push_all(&mut buf, chunk.as_slice());
        assert(buf@ =~= old(self).residue@ + chunk@);
        let n = buf.len();
        let blocks = n / 16 * 16;
        assert(blocks == n - n % 16);
        let mut aligned = vec_copy_range(&buf, 0, blocks);
        assert(aligned@ =~= aligned_take(buf@));
        let rest = vec_copy_range(&buf, blocks, n);
        assert(rest@ =~= buf@.skip(aligned_take(buf@).len() as int));
        let new_iv = cbc_decrypt_inplace(&self.key, &self.iv, &mut aligned);
        proof {
            lemma_cbc_dec_len(old(self).key@, old(self).iv@, aligned_take(buf@));
        }
        self.iv = new_iv;
        self.residue = rest;
        aligned
    }
}

} // verus!
