//! The sealing codec: padding policy, packet serialization and the
//! write-side sequence counter.

use crate::bytes::{be32, extend_bytes, push_u32_be, push_zeros, subvec, zero_seq};
use crate::cipher::Cipher;
use crate::gcm::{gcm_ct, gcm_tag, next_nonce, GcmKey, GCM_TAG_LEN};
use crate::sshbuffer::{wrap32_inc, SSHBuffer};
use crate::{MAX_PAYLOAD_LEN, PADDING_LENGTH_LEN};
use vstd::prelude::*;

verus! {

/// Padding length chosen for the no-op cipher: at least 4 bytes, aligning
/// the length field plus packet to an 8-byte boundary, bumped once more if
/// the packet would fall short of the minimum packet length.
pub open spec fn clear_padding(payload_len: nat) -> nat {
    let p0 = 8 - ((5 + payload_len) % 8);
    let p1: nat = if p0 < 4 {
        (p0 + 8) as nat
    } else {
        p0 as nat
    };
    if 1 + payload_len + p1 < 16 {
        (p1 + 8) as nat
    } else {
        p1
    }
}

/// Padding length chosen for AES-256-GCM: the protocol minimum of 4 bytes,
/// raised only as far as the minimum packet length demands.
pub open spec fn gcm_padding(payload_len: nat) -> nat {
    if payload_len >= 11 {
        4
    } else {
        (15 - payload_len) as nat
    }
}

/// The padding length the sealing codec of `c` chooses for a payload of
/// `payload_len` bytes.
pub open spec fn padding_of(c: Cipher, payload_len: nat) -> nat {
    match c {
        Cipher::Clear => clear_padding(payload_len),
        Cipher::Aes256Gcm => gcm_padding(payload_len),
    }
}

/// The plaintext region of a packet: the padding-length byte, the payload,
/// then `padlen` bytes of (zero) padding.
pub open spec fn padded_plaintext(payload: Seq<u8>, padlen: nat) -> Seq<u8>
    recommends
        padlen <= 255,
{
    seq![padlen as u8] + payload + zero_seq(padlen)
}

/// The write-side codec of one direction.
pub enum SealingKey {
    /// The no-op cipher: packets pass through unencrypted and untagged.
    Clear,
    /// AES-256-GCM with its per-direction state.
    Aes256Gcm(GcmKey),
}

impl SealingKey {
    /// The descriptor this codec was built from.
    pub open spec fn alg(&self) -> Cipher {
        match self {
            SealingKey::Clear => Cipher::Clear,
            SealingKey::Aes256Gcm(_) => Cipher::Aes256Gcm,
        }
    }

    /// Well-formedness: cipher state has the fixed key and nonce lengths.
    pub open spec fn wf(&self) -> bool {
        match self {
            SealingKey::Clear => true,
            SealingKey::Aes256Gcm(k) => k.wf(),
        }
    }

    /// How one sealed packet advances the codec: the no-op codec is
    /// stateless; the GCM codec keeps its key and steps its nonce counter.
    pub open spec fn advances(pre: SealingKey, post: SealingKey) -> bool {
        match (pre, post) {
            (SealingKey::Clear, SealingKey::Clear) => true,
            (SealingKey::Aes256Gcm(k1), SealingKey::Aes256Gcm(k2)) => {
                &&& k2.key@ == k1.key@
                &&& k2.nonce@ == next_nonce(k1.nonce@)
            },
            _ => false,
        }
    }

    /// The sealed body for a packet region `region` (length field plus
    /// plaintext): the no-op codec returns it unchanged; GCM keeps the
    /// length field as associated data and encrypts the rest.
    pub open spec fn sealed_body(&self, region: Seq<u8>) -> Seq<u8>
        recommends
            region.len() >= 4,
    {
        match self {
            SealingKey::Clear => region,
            SealingKey::Aes256Gcm(k) => region.take(4) + gcm_ct(
                k.key@,
                k.nonce@,
                region.take(4),
                region.skip(4),
            ),
        }
    }

    /// The tag for a packet region, empty for the no-op codec.
    pub open spec fn sealed_tag(&self, region: Seq<u8>) -> Seq<u8>
        recommends
            region.len() >= 4,
    {
        match self {
            SealingKey::Clear => Seq::<u8>::empty(),
            SealingKey::Aes256Gcm(k) => gcm_tag(k.key@, k.nonce@, region.take(4), region.skip(4)),
        }
    }

    /// The packet region this codec seals for `payload`: the length field
    /// followed by the padded plaintext.
    pub open spec fn seal_region(&self, payload: Seq<u8>) -> Seq<u8> {
        let padlen = padding_of(self.alg(), payload.len());
        let packet_len = 1 + payload.len() + padlen;
        be32(packet_len as u32) + padded_plaintext(payload, padlen)
    }

    /// The complete wire bytes this codec produces for `payload`: length
    /// field, sealed plaintext region, tag.
    pub open spec fn sealed_wire(&self, payload: Seq<u8>) -> Seq<u8> {
        let region = self.seal_region(payload);
        self.sealed_body(region) + self.sealed_tag(region)
    }

    /// Length of the authentication tag this codec appends to each packet.
    pub open spec fn tag_len_spec(&self) -> nat {
        match self {
            SealingKey::Clear => 0,
            SealingKey::Aes256Gcm(_) => GCM_TAG_LEN as nat,
        }
    }

    /// Length of the authentication tag this codec appends to each packet.
    pub fn tag_len(&self) -> (r: usize)
        ensures
            r == self.tag_len_spec(),
    {
        match self {
            SealingKey::Clear => 0,
            SealingKey::Aes256Gcm(_) => GCM_TAG_LEN,
        }
    }

    /// The padding length for `payload`, per this codec's policy.
    pub fn padding_length(&self, payload: &[u8]) -> (r: usize)
        requires
            payload@.len() <= MAX_PAYLOAD_LEN,
        ensures
            r == padding_of(self.alg(), payload@.len()),
            4 <= r <= 255,
    {
        let len = payload.len();
        let r = match self {
            SealingKey::Clear => {
                let mut p: usize = 8 - ((5 + len) % 8);
                if p < 4 {
                    p = p + 8;
                }
                if 1 + len + p < 16 {
                    p = p + 8;
                }
                p
            },
            SealingKey::Aes256Gcm(_) => {
                if len >= 11 {
                    4
                } else {
                    15 - len
                }
            },
        };
        r
    }

    /// Appends `n` bytes of padding to `out`. The protocol puts no
    /// requirement on the content, only the length; this codec pads with
    /// zeros.
    pub fn fill_padding(&self, out: &mut Vec<u8>, n: usize)
        requires
            old(out)@.len() + n <= usize::MAX,
        ensures
            final(out)@ == old(out)@ + zero_seq(n as nat),
    {
        push_zeros(out, n);
    }

    /// Seals one packet region in place (length field plus plaintext) and
    /// returns the tag. `seqn` is the packet's sequence number; the ciphers
    /// linked here key their work off their own state instead, but the
    /// parameter is part of the codec interface (MAC-based and
    /// nonce-from-sequence ciphers consume it).
    pub fn seal(&mut self, seqn: u32, region: &mut Vec<u8>) -> (tag: Vec<u8>)
        requires
            old(self).wf(),
            old(region)@.len() >= 4,
            old(region)@.len() <= u32::MAX,
        ensures
            final(self).wf(),
            SealingKey::advances(*old(self), *final(self)),
            final(region)@ == old(self).sealed_body(old(region)@),
            final(region)@.len() == old(region)@.len(),
            tag@ == old(self).sealed_tag(old(region)@),
            tag@.len() == old(self).tag_len_spec(),
    {
        match self {
            SealingKey::Clear => Vec::new(),
            SealingKey::Aes256Gcm(k) => {
                let aad = subvec(region.as_slice(), 0, 4);
                let mut body = subvec(region.as_slice(), 4, region.len());
                let tag = k.seal(aad.as_slice(), &mut body);
                let mut rebuilt = aad;
                extend_bytes(&mut rebuilt, body.as_slice());
                assert(rebuilt@ =~= old(self).sealed_body(old(region)@));
                *region = rebuilt;
                k.advance_nonce();
                tag
            },
        }
    }

    /// Serializes `payload` as one sealed packet appended to `buffer`:
    /// length field, padding-length byte, payload, padding, tag; then steps
    /// the direction's sequence counter, wrapping modulo 2^32.
    pub fn write(&mut self, payload: &[u8], buffer: &mut SSHBuffer)
        requires
            old(self).wf(),
            payload@.len() <= MAX_PAYLOAD_LEN,
            old(buffer).buffer@.len() + payload@.len() + 300 <= usize::MAX,
            old(buffer).bytes + payload@.len() <= usize::MAX,
        ensures
            final(self).wf(),
            SealingKey::advances(*old(self), *final(self)),
            final(buffer).buffer@ == old(buffer).buffer@ + old(self).sealed_wire(payload@),
            final(buffer).seqn == wrap32_inc(old(buffer).seqn),
            final(buffer).bytes == old(buffer).bytes + payload@.len(),
            final(buffer).len == old(buffer).len,
            old(self).sealed_tag(old(self).seal_region(payload@)).len() == old(
                self,
            ).tag_len_spec(),
            old(self).sealed_body(old(self).seal_region(payload@)).len() == old(self).seal_region(
                payload@,
            ).len(),
    {
        let padding_length = self.padding_length(payload);
        let packet_length: usize = PADDING_LENGTH_LEN + payload.len() + padding_length;
        let mut region: Vec<u8> = Vec::new();
        push_u32_be(&mut region, packet_length as u32);
        region.push(padding_length as u8);
        extend_bytes(&mut region, payload);
        self.fill_padding(&mut region, padding_length);
        assert(region@ =~= be32(packet_length as u32) + padded_plaintext(
            payload@,
            padding_length as nat,
        ));
        let tag = self.seal(buffer.seqn, &mut region);
        extend_bytes(&mut buffer.buffer, region.as_slice());
        extend_bytes(&mut buffer.buffer, tag.as_slice());
        assert(buffer.buffer@ =~= old(buffer).buffer@ + old(self).sealed_wire(payload@));
        buffer.bytes = buffer.bytes + payload.len();
        buffer.seqn = if buffer.seqn == u32::MAX {
            0
        } else {
            buffer.seqn + 1
        };
    }
}

} // verus!
