//! The opening codec and the incremental packet reader.
//!
//! The reader is a two-step state machine. `read_begin` resolves the
//! packet's length from the first four wire bytes; the caller then collects
//! exactly the owed body bytes (across as many partial stream reads as the
//! transport needs) and `read_finish` verifies, decrypts and unframes the
//! packet. All suspension and I/O stay with the caller; partial progress
//! lives in the [`SSHBuffer`].

use crate::bytes::{be32_val, extend_bytes, subvec};
use crate::cipher::Cipher;
use crate::gcm::{gcm_ct, gcm_tag, next_nonce, GcmKey, GCM_TAG_LEN};
use crate::sshbuffer::{wrap32_inc, SSHBuffer};
use crate::Error;
use vstd::prelude::*;

verus! {

/// The ciphertext region of a complete buffered packet: everything before
/// the tag.
pub open spec fn wire_ct(wire: Seq<u8>, tag_len: nat) -> Seq<u8>
    recommends
        tag_len <= wire.len(),
{
    wire.take(wire.len() - tag_len)
}

/// The tag region of a complete buffered packet.
pub open spec fn wire_tag(wire: Seq<u8>, tag_len: nat) -> Seq<u8>
    recommends
        tag_len <= wire.len(),
{
    wire.skip(wire.len() - tag_len)
}

/// Unframing of a decrypted plaintext region: its first byte declares the
/// padding length; the kept part is the plaintext minus that much trailing
/// padding. `None` when the declared padding exceeds the plaintext itself.
pub open spec fn parse_kept(pt: Seq<u8>) -> Option<Seq<u8>> {
    let padlen: int = if pt.len() == 0 {
        0
    } else {
        pt[0] as int
    };
    if padlen > pt.len() {
        None
    } else {
        Some(pt.take(pt.len() - padlen))
    }
}

/// The read-side codec of one direction.
pub enum OpeningKey {
    /// The no-op cipher: packets pass through unencrypted and untagged.
    Clear,
    /// AES-256-GCM with its per-direction state.
    Aes256Gcm(GcmKey),
}

impl OpeningKey {
    /// The descriptor this codec was built from.
    pub open spec fn alg(&self) -> Cipher {
        match self {
            OpeningKey::Clear => Cipher::Clear,
            OpeningKey::Aes256Gcm(_) => Cipher::Aes256Gcm,
        }
    }

    /// Well-formedness: cipher state has the fixed key and nonce lengths.
    pub open spec fn wf(&self) -> bool {
        match self {
            OpeningKey::Clear => true,
            OpeningKey::Aes256Gcm(k) => k.wf(),
        }
    }

    /// How one opened packet advances the codec: the no-op codec is
    /// stateless; the GCM codec keeps its key and steps its nonce counter.
    pub open spec fn advances(pre: OpeningKey, post: OpeningKey) -> bool {
        match (pre, post) {
            (OpeningKey::Clear, OpeningKey::Clear) => true,
            (OpeningKey::Aes256Gcm(k1), OpeningKey::Aes256Gcm(k2)) => {
                &&& k2.key@ == k1.key@
                &&& k2.nonce@ == next_nonce(k1.nonce@)
            },
            _ => false,
        }
    }

    /// Whether this codec, in its current state, authenticates the packet
    /// region `ct` (length field included) and `tag` as the sealing of
    /// plaintext region `pt`.
    pub open spec fn accepts(&self, ct: Seq<u8>, tag: Seq<u8>, pt: Seq<u8>) -> bool
        recommends
            ct.len() >= 4,
    {
        match self {
            OpeningKey::Clear => tag.len() == 0 && pt == ct.skip(4),
            OpeningKey::Aes256Gcm(k) => {
                &&& ct.skip(4) == gcm_ct(k.key@, k.nonce@, ct.take(4), pt)
                &&& tag == gcm_tag(k.key@, k.nonce@, ct.take(4), pt)
            },
        }
    }

    /// Length of the authentication tag this codec expects on each packet.
    pub open spec fn tag_len_spec(&self) -> nat {
        match self {
            OpeningKey::Clear => 0,
            OpeningKey::Aes256Gcm(_) => GCM_TAG_LEN as nat,
        }
    }

    /// Length of the authentication tag this codec expects on each packet.
    pub fn tag_len(&self) -> (r: usize)
        ensures
            r == self.tag_len_spec(),
    {
        match self {
            OpeningKey::Clear => 0,
            OpeningKey::Aes256Gcm(_) => GCM_TAG_LEN,
        }
    }

    /// Recovers the plaintext packet length field from its wire form. For
    /// both linked ciphers the field travels unencrypted (the no-op cipher
    /// encrypts nothing; GCM carries it as associated data), so this is the
    /// identity and never fails. `seqn` is part of the interface: ciphers
    /// that bind the length field to the sequence number consume it.
    pub fn decrypt_packet_length(&self, seqn: u32, encrypted_packet_length: [u8; 4]) -> (r: Result<
        [u8; 4],
        Error,
    >)
        ensures
            r == Ok::<[u8; 4], Error>(encrypted_packet_length),
    {
        Ok(encrypted_packet_length)
    }

    /// Opens one complete packet region: `ct` is the buffered bytes before
    /// the tag (length field included), `tag` the trailing tag. On success
    /// the returned plaintext region (length field excluded) is exactly the
    /// one this state authenticates, and the codec advances; on tag mismatch
    /// nothing is decrypted, no plaintext escapes and the codec is
    /// unchanged. `seqn` is part of the interface, as in
    /// [`Self::decrypt_packet_length`].
    pub fn open(&mut self, seqn: u32, ct: &[u8], tag: &[u8]) -> (r: Result<Vec<u8>, Error>)
        requires
            old(self).wf(),
            ct@.len() >= 4,
            ct@.len() <= u32::MAX,
            tag@.len() == old(self).tag_len_spec(),
        ensures
            (exists|p: Seq<u8>| old(self).accepts(ct@, tag@, p)) ==> {
                &&& r is Ok
                &&& final(self).wf()
                &&& OpeningKey::advances(*old(self), *final(self))
                &&& forall|p: Seq<u8>| old(self).accepts(ct@, tag@, p) ==> r->Ok_0@ == p
                &&& r->Ok_0@.len() == ct@.len() - 4
            },
            !(exists|p: Seq<u8>| old(self).accepts(ct@, tag@, p)) ==> {
                &&& r == Err::<Vec<u8>, Error>(Error::AuthenticationFailure)
                &&& *final(self) == *old(self)
            },
    {
        match self {
            OpeningKey::Clear => {
                let pt = subvec(ct, 4, ct.len());
                assert(pt@ =~= ct@.skip(4));
                assert(old(self).accepts(ct@, tag@, ct@.skip(4)));
                Ok(pt)
            },
            OpeningKey::Aes256Gcm(k) => {
                let aad = subvec(ct, 0, 4);
                let body = subvec(ct, 4, ct.len());
                assert(aad@ =~= ct@.take(4));
                assert(body@ =~= ct@.skip(4));
                match k.open(aad.as_slice(), body.as_slice(), tag) {
                    Some(pt) => {
                        assert(old(self).accepts(ct@, tag@, pt@));
                        k.advance_nonce();
                        Ok(pt)
                    },
                    None => Err(Error::AuthenticationFailure),
                }
            },
        }
    }
}

/// Starts reading one packet: decodes the packet length from the first four
/// wire bytes and records, in `buffer.len`, how many body bytes (decrypted
/// length plus tag) the packet still owes. Returns that count; the caller
/// must append exactly that many stream bytes to `buffer.buffer` before
/// calling [`read_finish`].
pub fn read_begin(buffer: &mut SSHBuffer, cipher: &OpeningKey, packet_length_bytes: [u8; 4]) -> (r:
    Result<usize, Error>)
    requires
        old(buffer).len == 0,
        cipher.wf(),
    ensures
        match r {
            Ok(n) => {
                &&& n == be32_val(packet_length_bytes@) + cipher.tag_len_spec()
                &&& final(buffer).len == n
                &&& final(buffer).buffer@ == packet_length_bytes@
                &&& final(buffer).seqn == old(buffer).seqn
                &&& final(buffer).bytes == old(buffer).bytes
            },
            Err(e) => {
                &&& e == Error::MalformedPacket
                &&& be32_val(packet_length_bytes@) + cipher.tag_len_spec() > usize::MAX
                &&& *final(buffer) == *old(buffer)
            },
        },
{
    match cipher.decrypt_packet_length(buffer.seqn, packet_length_bytes) {
        Ok(l) => {
            let len_val: u32 = ((l[0] as u32) << 24) | ((l[1] as u32) << 16) | ((l[2] as u32) << 8)
                | (l[3] as u32);
            assert(len_val == be32_val(l@));
            let tag_len = cipher.tag_len();
            if (len_val as u64) > (usize::MAX as u64) - (tag_len as u64) {
                return Err(Error::MalformedPacket);
            }
            buffer.buffer.clear();
            buffer.buffer.push(l[0]);
            buffer.buffer.push(l[1]);
            buffer.buffer.push(l[2]);
            buffer.buffer.push(l[3]);
            assert(buffer.buffer@ =~= l@);
            buffer.len = (len_val as usize) + tag_len;
            Ok(buffer.len)
        },
        Err(e) => Err(e),
    }
}

/// Finishes reading one packet, once `buffer.buffer` holds the four length
/// bytes plus all `buffer.len` owed body bytes: splits off the tag, opens
/// the ciphertext, strips the declared padding, leaves the four length
/// bytes plus the kept plaintext in the buffer, resets the read progress
/// and steps the sequence counter. Fails with `AuthenticationFailure` (and
/// changes nothing) when no plaintext is authenticated, and with
/// `MalformedPacket` when the declared padding exceeds the plaintext.
pub fn read_finish(buffer: &mut SSHBuffer, cipher: &mut OpeningKey) -> (r: Result<usize, Error>)
    requires
        old(cipher).wf(),
        old(buffer).len >= old(cipher).tag_len_spec(),
        old(buffer).buffer@.len() == old(buffer).len + 4,
        old(buffer).buffer@.len() <= u32::MAX,
    ensures
        (!(exists|p: Seq<u8>|
            old(cipher).accepts(
                wire_ct(old(buffer).buffer@, old(cipher).tag_len_spec()),
                wire_tag(old(buffer).buffer@, old(cipher).tag_len_spec()),
                p,
            )) ==> {
            &&& r == Err::<usize, Error>(Error::AuthenticationFailure)
            &&& *final(buffer) == *old(buffer)
            &&& *final(cipher) == *old(cipher)
        }),
        ((exists|p: Seq<u8>|
            old(cipher).accepts(
                wire_ct(old(buffer).buffer@, old(cipher).tag_len_spec()),
                wire_tag(old(buffer).buffer@, old(cipher).tag_len_spec()),
                p,
            )) ==> {
            &&& final(cipher).wf()
            &&& OpeningKey::advances(*old(cipher), *final(cipher))
            &&& forall|p: Seq<u8>|
                old(cipher).accepts(
                    wire_ct(old(buffer).buffer@, old(cipher).tag_len_spec()),
                    wire_tag(old(buffer).buffer@, old(cipher).tag_len_spec()),
                    p,
                ) ==> match parse_kept(p) {
                    Option::None => {
                        &&& r == Err::<usize, Error>(Error::MalformedPacket)
                        &&& *final(buffer) == *old(buffer)
                    },
                    Option::Some(kept) => {
                        &&& r == Ok::<usize, Error>((kept.len() + 4) as usize)
                        &&& final(buffer).buffer@ == old(buffer).buffer@.take(4) + kept
                        &&& final(buffer).len == 0
                        &&& final(buffer).seqn == wrap32_inc(old(buffer).seqn)
                        &&& final(buffer).bytes == old(buffer).bytes
                    },
                }
        }),
{
    let tag_len = cipher.tag_len();
    let total = buffer.buffer.len();
    let ct_len = total - tag_len;
    let ct = subvec(buffer.buffer.as_slice(), 0, ct_len);
    let tagv = subvec(buffer.buffer.as_slice(), ct_len, total);
    assert(ct@ =~= wire_ct(buffer.buffer@, cipher.tag_len_spec()));
    assert(tagv@ =~= wire_tag(buffer.buffer@, cipher.tag_len_spec()));
    let seqn = buffer.seqn;
    match cipher.open(seqn, ct.as_slice(), tagv.as_slice()) {
        Err(e) => Err(e),
        Ok(pt) => {
            let padding_length: usize = if pt.len() > 0 {
                pt[0] as usize
            } else {
                0
            };
            if padding_length > pt.len() {
                return Err(Error::MalformedPacket);
            }
            let plaintext_end = pt.len() - padding_length;
            buffer.seqn = if buffer.seqn == u32::MAX {
                0
            } else {
                buffer.seqn + 1
            };
            buffer.len = 0;
            buffer.buffer.truncate(4);
            let kept = subvec(pt.as_slice(), 0, plaintext_end);
            extend_bytes(&mut buffer.buffer, kept.as_slice());
            assert(buffer.buffer@ =~= old(buffer).buffer@.take(4) + pt@.take(
                plaintext_end as int,
            ));
            Ok(plaintext_end + 4)
        },
    }
}

} // verus!
