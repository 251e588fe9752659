//! AES-256-GCM codec state.
//!
//! The cipher mathematics live in the `aes-gcm` crate; this module gives its
//! two operations names and contracts, and keeps the per-direction key and
//! invocation-counter nonce as plain verified data.

use aes_gcm::aead::AeadInPlace;
use aes_gcm::{Aes256Gcm, KeyInit, Nonce, Tag};
use vstd::prelude::*;

verus! {

/// Key length of AES-256-GCM, in bytes.
pub const GCM_KEY_LEN: usize = 32;

/// Nonce length of AES-256-GCM, in bytes.
pub const GCM_NONCE_LEN: usize = 12;

/// Tag length of AES-256-GCM, in bytes.
pub const GCM_TAG_LEN: usize = 16;

/// The AES-256-GCM ciphertext for a key, nonce, associated data and
/// plaintext. A function of its arguments alone; what it is on given values
/// only the cipher computes.
pub uninterp spec fn gcm_ct(key: Seq<u8>, nonce: Seq<u8>, aad: Seq<u8>, pt: Seq<u8>) -> Seq<u8>;

/// The AES-256-GCM authentication tag for a key, nonce, associated data and
/// plaintext; the second output of the same sealing operation as [`gcm_ct`].
pub uninterp spec fn gcm_tag(key: Seq<u8>, nonce: Seq<u8>, aad: Seq<u8>, pt: Seq<u8>) -> Seq<u8>;

/// Relies on `aes_gcm::Aes256Gcm::encrypt_in_place_detached`: encryption
/// applies a keystream in place (so the ciphertext has the plaintext's
/// length), returns a 16-byte tag, and both outputs depend on key, nonce,
/// associated data and plaintext alone. It fails only above a plaintext or
/// associated-data size far beyond `u32::MAX`, which the caller rules out.
#[verifier::external_body]
fn gcm_seal_raw(key: &[u8], nonce: &[u8], aad: &[u8], data: &mut Vec<u8>) -> (tag: Vec<u8>)
    requires
        key@.len() == GCM_KEY_LEN,
        nonce@.len() == GCM_NONCE_LEN,
        old(data)@.len() <= u32::MAX,
        aad@.len() <= u32::MAX,
    ensures
        final(data)@ == gcm_ct(key@, nonce@, aad@, old(data)@),
        final(data)@.len() == old(data)@.len(),
        tag@ == gcm_tag(key@, nonce@, aad@, old(data)@),
        tag@.len() == GCM_TAG_LEN,
{
    let cipher = Aes256Gcm::new_from_slice(key).unwrap();
    let tag = cipher
        .encrypt_in_place_detached(Nonce::from_slice(nonce), aad, data.as_mut_slice())
        .unwrap();
    tag.to_vec()
}

/// Relies on `aes_gcm::Aes256Gcm::decrypt_in_place_detached`: it recomputes
/// the tag over the ciphertext and compares; on a match it applies the same
/// keystream as encryption, so the result is the unique plaintext whose
/// sealing gives this ciphertext and tag, and on a mismatch it returns an
/// error without decrypting anything.
#[verifier::external_body]
fn gcm_open_raw(key: &[u8], nonce: &[u8], aad: &[u8], ct: &[u8], tag: &[u8]) -> (r: Option<
    Vec<u8>,
>)
    requires
        key@.len() == GCM_KEY_LEN,
        nonce@.len() == GCM_NONCE_LEN,
        tag@.len() == GCM_TAG_LEN,
        ct@.len() <= u32::MAX,
        aad@.len() <= u32::MAX,
    ensures
        match r {
            Some(pt) => {
                &&& ct@ == gcm_ct(key@, nonce@, aad@, pt@)
                &&& tag@ == gcm_tag(key@, nonce@, aad@, pt@)
                &&& pt@.len() == ct@.len()
                &&& forall|p: Seq<u8>|
                    (ct@ == gcm_ct(key@, nonce@, aad@, p) && tag@ == gcm_tag(
                        key@,
                        nonce@,
                        aad@,
                        p,
                    )) ==> p == pt@
            },
            None => !(exists|p: Seq<u8>|
                ct@ == gcm_ct(key@, nonce@, aad@, p) && tag@ == gcm_tag(key@, nonce@, aad@, p)),
        },
{
    let mut buf = ct.to_vec();
    let cipher = Aes256Gcm::new_from_slice(key).unwrap();
    match cipher.decrypt_in_place_detached(
        Nonce::from_slice(nonce),
        aad,
        &mut buf,
        Tag::from_slice(tag),
    ) {
        Ok(()) => Some(buf),
        Err(_) => None,
    }
}

/// Per-direction AES-256-GCM state: the key schedule source and the current
/// invocation-counter nonce. The nonce's last eight bytes are a big-endian
/// counter stepped once per packet.
pub struct GcmKey {
    /// 32 bytes of key material.
    pub key: Vec<u8>,
    /// 12 bytes of nonce: 4 fixed bytes, then an 8-byte big-endian counter.
    pub nonce: Vec<u8>,
}

/// The eight big-endian bytes of `n`.
pub open spec fn be64(n: u64) -> Seq<u8> {
    seq![
        ((n >> 56) & 0xff) as u8,
        ((n >> 48) & 0xff) as u8,
        ((n >> 40) & 0xff) as u8,
        ((n >> 32) & 0xff) as u8,
        ((n >> 24) & 0xff) as u8,
        ((n >> 16) & 0xff) as u8,
        ((n >> 8) & 0xff) as u8,
        (n & 0xff) as u8,
    ]
}

/// The value of an eight-byte big-endian field.
pub open spec fn be64_val(s: Seq<u8>) -> u64
    recommends
        s.len() == 8,
{
    (((s[0] as u64) << 56) | ((s[1] as u64) << 48) | ((s[2] as u64) << 40) | ((s[3] as u64) << 32)
        | ((s[4] as u64) << 24) | ((s[5] as u64) << 16) | ((s[6] as u64) << 8) | (s[7] as u64)) as u64
}

/// The nonce after one packet: fixed prefix kept, counter stepped by one,
/// wrapping modulo 2^64.
pub open spec fn next_nonce(n: Seq<u8>) -> Seq<u8>
    recommends
        n.len() == 12,
{
    n.take(4) + be64(wrap64_inc(be64_val(n.skip(4))))
}

/// `n + 1` wrapping modulo 2^64.
pub open spec fn wrap64_inc(n: u64) -> u64 {
    if n == u64::MAX {
        0
    } else {
        (n + 1) as u64
    }
}

impl GcmKey {
    /// Well-formedness: the key and nonce have the cipher's fixed lengths.
    pub open spec fn wf(&self) -> bool {
        &&& self.key@.len() == GCM_KEY_LEN
        &&& self.nonce@.len() == GCM_NONCE_LEN
    }

    /// Builds the state from raw key exchange output.
    pub fn new(key: Vec<u8>, nonce: Vec<u8>) -> (r: GcmKey)
        requires
            key@.len() == GCM_KEY_LEN,
            nonce@.len() == GCM_NONCE_LEN,
        ensures
            r.wf(),
            r.key@ == key@,
            r.nonce@ == nonce@,
    {
        GcmKey { key, nonce }
    }

    /// Steps the invocation counter after a packet has been processed.
    pub fn advance_nonce(&mut self)
        requires
            old(self).wf(),
        ensures
            final(self).wf(),
            final(self).key@ == old(self).key@,
            final(self).nonce@ == next_nonce(old(self).nonce@),
    {
        let b0 = self.nonce[4];
        let b1 = self.nonce[5];
        let b2 = self.nonce[6];
        let b3 = self.nonce[7];
        let b4 = self.nonce[8];
        let b5 = self.nonce[9];
        let b6 = self.nonce[10];
        let b7 = self.nonce[11];
        let n: u64 = ((b0 as u64) << 56) | ((b1 as u64) << 48) | ((b2 as u64) << 40) | ((
        b3 as u64) << 32) | ((b4 as u64) << 24) | ((b5 as u64) << 16) | ((b6 as u64) << 8) | (
        b7 as u64);
        assert(n == be64_val(self.nonce@.skip(4)));
        let n2: u64 = if n == u64::MAX {
            0
        } else {
            n + 1
        };
        let mut fresh: Vec<u8> = Vec::new();
        fresh.push(self.nonce[0]);
        fresh.push(self.nonce[1]);
        fresh.push(self.nonce[2]);
        fresh.push(self.nonce[3]);
        fresh.push(((n2 >> 56) & 0xff) as u8);
        fresh.push(((n2 >> 48) & 0xff) as u8);
        fresh.push(((n2 >> 40) & 0xff) as u8);
        fresh.push(((n2 >> 32) & 0xff) as u8);
        fresh.push(((n2 >> 24) & 0xff) as u8);
        fresh.push(((n2 >> 16) & 0xff) as u8);
        fresh.push(((n2 >> 8) & 0xff) as u8);
        fresh.push((n2 & 0xff) as u8);
        assert(fresh@ =~= next_nonce(self.nonce@));
        self.nonce = fresh;
    }

    /// Seals one packet region: encrypts `data` in place under the current
    /// nonce with `aad` as associated data and returns the 16-byte tag.
    pub fn seal(&self, aad: &[u8], data: &mut Vec<u8>) -> (tag: Vec<u8>)
        requires
            self.wf(),
            old(data)@.len() <= u32::MAX,
            aad@.len() <= u32::MAX,
        ensures
            final(data)@ == gcm_ct(self.key@, self.nonce@, aad@, old(data)@),
            final(data)@.len() == old(data)@.len(),
            tag@ == gcm_tag(self.key@, self.nonce@, aad@, old(data)@),
            tag@.len() == GCM_TAG_LEN,
    {
        gcm_seal_raw(self.key.as_slice(), self.nonce.as_slice(), aad, data)
    }

    /// Opens one packet region: verifies `tag` over `ct` under the current
    /// nonce and returns the plaintext only on success.
    pub fn open(&self, aad: &[u8], ct: &[u8], tag: &[u8]) -> (r: Option<Vec<u8>>)
        requires
            self.wf(),
            tag@.len() == GCM_TAG_LEN,
            ct@.len() <= u32::MAX,
            aad@.len() <= u32::MAX,
        ensures
            match r {
                Some(pt) => {
                    &&& ct@ == gcm_ct(self.key@, self.nonce@, aad@, pt@)
                    &&& tag@ == gcm_tag(self.key@, self.nonce@, aad@, pt@)
                    &&& pt@.len() == ct@.len()
                    &&& forall|p: Seq<u8>|
                        (ct@ == gcm_ct(self.key@, self.nonce@, aad@, p) && tag@ == gcm_tag(
                            self.key@,
                            self.nonce@,
                            aad@,
                            p,
                        )) ==> p == pt@
                },
                None => !(exists|p: Seq<u8>|
                    ct@ == gcm_ct(self.key@, self.nonce@, aad@, p) && tag@ == gcm_tag(
                        self.key@,
                        self.nonce@,
                        aad@,
                        p,
                    )),
            },
    {
        gcm_open_raw(self.key.as_slice(), self.nonce.as_slice(), aad, ct, tag)
    }
}

} // verus!
