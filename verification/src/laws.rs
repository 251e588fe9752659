//! The framing layer's laws, stated and proved once for all inputs.

use crate::bytes::{be32, be32_val, lemma_be32_round};
use crate::cipher::Cipher;
use crate::gcm::{gcm_ct, gcm_tag};
use crate::open::{parse_kept, wire_ct, wire_tag, OpeningKey};
use crate::seal::{padded_plaintext, padding_of, SealingKey};
use crate::sshbuffer::wrap32_inc;
use crate::{MAX_PAYLOAD_LEN, MINIMUM_PACKET_LEN};
use vstd::arithmetic::div_mod::{
    lemma_fundamental_div_mod,
    lemma_mod_bound,
    lemma_mod_multiples_basic,
};
use vstd::prelude::*;

verus! {

/// Whether a read-side codec is the counterpart of a write-side codec:
/// same cipher family, same key material, same current nonce.
pub open spec fn counterpart(s: SealingKey, o: OpeningKey) -> bool {
    match (s, o) {
        (SealingKey::Clear, OpeningKey::Clear) => true,
        (SealingKey::Aes256Gcm(k1), OpeningKey::Aes256Gcm(k2)) => {
            &&& k1.key@ == k2.key@
            &&& k1.nonce@ == k2.nonce@
        },
        _ => false,
    }
}

/// Padding legality: for every cipher family and payload length, the chosen
/// padding is a single byte of at least the protocol minimum of 4, the
/// resulting `packet_length` respects the minimum packet length, and for the
/// block-aligned family the length field plus packet is a multiple of the
/// 8-byte alignment.
pub proof fn lemma_padding_legal(c: Cipher, payload_len: nat)
    ensures
        4 <= padding_of(c, payload_len) <= 255,
        1 + payload_len + padding_of(c, payload_len) >= MINIMUM_PACKET_LEN as nat,
        c == Cipher::Clear ==> (4 + 1 + payload_len + padding_of(c, payload_len)) % 8 == 0,
{
    match c {
        Cipher::Aes256Gcm => {
        },
        Cipher::Clear => {
            let base = (5 + payload_len) as int;
            lemma_mod_bound(base, 8);
            lemma_fundamental_div_mod(base, 8);
            let q = base / 8;
            let rem = base % 8;
            let p0 = 8 - rem;
            assert(base + p0 == (q + 1) * 8);
            assert(q + 1 >= 1);
            let p = padding_of(c, payload_len) as int;
            assert(base + p == (q + 1) * 8 || base + p == (q + 2) * 8 || base + p == (q + 3) * 8);
            if base + p == (q + 1) * 8 {
                lemma_mod_multiples_basic(q + 1, 8);
            } else if base + p == (q + 2) * 8 {
                lemma_mod_multiples_basic(q + 2, 8);
            } else {
                lemma_mod_multiples_basic(q + 3, 8);
            }
            assert((4 + 1 + payload_len + padding_of(c, payload_len)) % 8 == 0);
            let p1 = if p0 < 4 {
                p0 + 8
            } else {
                p0
            };
            assert(base + p1 == (q + 1) * 8 || base + p1 == (q + 2) * 8);
            if 1 + payload_len + p1 < 16 {
                assert(base + p1 >= 9);
                assert(base + p1 < 20);
                assert(base + p1 == 16);
                assert(p == p1 + 8);
            }
        },
    }
}

/// Round trip: for every codec pair built from the same material and every
/// admissible payload, the wire bytes that sealing produces are exactly what
/// the counterpart opening codec authenticates, the authenticated plaintext
/// region is the padded payload, and unframing that region returns the
/// payload. The two length hypotheses state the cipher's fixed output shape
/// (ciphertext as long as its plaintext, tag of the codec's tag length),
/// which every sealing call exhibits.
pub proof fn lemma_round_trip(s: SealingKey, o: OpeningKey, payload: Seq<u8>)
    requires
        s.wf(),
        counterpart(s, o),
        payload.len() <= MAX_PAYLOAD_LEN,
        s.sealed_tag(s.seal_region(payload)).len() == s.tag_len_spec(),
        s.sealed_body(s.seal_region(payload)).len() == s.seal_region(payload).len(),
    ensures
        ({
            let padlen = padding_of(s.alg(), payload.len());
            let wire = s.sealed_wire(payload);
            let tl = s.tag_len_spec();
            &&& wire.len() == 4 + 1 + payload.len() + padlen + tl
            &&& be32_val(wire.take(4)) == 1 + payload.len() + padlen
            &&& wire_ct(wire, tl) == s.sealed_body(s.seal_region(payload))
            &&& wire_tag(wire, tl) == s.sealed_tag(s.seal_region(payload))
            &&& o.accepts(wire_ct(wire, tl), wire_tag(wire, tl), padded_plaintext(payload, padlen))
            &&& parse_kept(padded_plaintext(payload, padlen)) == Some(
                seq![padlen as u8] + payload,
            )
            &&& (seq![padlen as u8] + payload).skip(1) == payload
        }),
{
    lemma_padding_legal(s.alg(), payload.len());
    let padlen = padding_of(s.alg(), payload.len());
    let region = s.seal_region(payload);
    let padded = padded_plaintext(payload, padlen);
    let wire = s.sealed_wire(payload);
    let tl = s.tag_len_spec();
    assert(region.len() == 4 + 1 + payload.len() + padlen);
    assert(region.skip(4) =~= padded);
    assert(wire_ct(wire, tl) =~= s.sealed_body(region));
    assert(wire_tag(wire, tl) =~= s.sealed_tag(region));
    let packet_len = 1 + payload.len() + padlen;
    assert(wire.take(4) =~= be32(packet_len as u32));
    lemma_be32_round(packet_len as u32);
    match (s, o) {
        (SealingKey::Clear, OpeningKey::Clear) => {
            assert(wire_ct(wire, tl).skip(4) =~= padded);
        },
        (SealingKey::Aes256Gcm(k1), OpeningKey::Aes256Gcm(k2)) => {
            let ct = s.sealed_body(region);
            assert(ct =~= region.take(4) + gcm_ct(k1.key@, k1.nonce@, region.take(4), region.skip(4)));
            assert(ct.take(4) =~= region.take(4));
            assert(ct.skip(4) =~= gcm_ct(k1.key@, k1.nonce@, region.take(4), region.skip(4)));
            assert(ct.skip(4) == gcm_ct(k2.key@, k2.nonce@, ct.take(4), padded));
            assert(s.sealed_tag(region) == gcm_tag(k2.key@, k2.nonce@, ct.take(4), padded));
        },
        _ => {
            assert(false);
        },
    }
    assert(padded[0] == padlen as u8);
    assert((padlen as u8) as int == padlen as int);
    assert(padded.len() - padlen == 1 + payload.len());
    assert(padded.take(padded.len() - padlen) =~= seq![padlen as u8] + payload);
    assert((seq![padlen as u8] + payload).skip(1) =~= payload);
}

/// Sequence wraparound: a direction's counter steps by exactly one per
/// packet and wraps modulo 2^32; from `u32::MAX` one packet takes it to 0.
pub proof fn lemma_sequence_wraparound(n: u32)
    ensures
        wrap32_inc(u32::MAX) == 0,
        n < u32::MAX ==> wrap32_inc(n) == n + 1,
{
}

/// Malformed padding rejection: a plaintext region whose declared padding
/// length exceeds the region itself never unframes, so the reader reports
/// `MalformedPacket` instead of reaching past the plaintext.
pub proof fn lemma_malformed_padding(pt: Seq<u8>)
    requires
        pt.len() > 0,
        (pt[0] as int) > pt.len(),
    ensures
        parse_kept(pt) is None,
{
}

} // verus!
