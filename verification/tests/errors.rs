//! Tamper detection, malformed packets and construction-time errors.

use ssh_cipher::cipher::{Cipher, CipherPair, Registry};
use ssh_cipher::name::{CipherName, Name};
use ssh_cipher::open::{read_begin, read_finish, OpeningKey};
use ssh_cipher::seal::SealingKey;
use ssh_cipher::sshbuffer::SSHBuffer;
use ssh_cipher::Error;

const KEY: [u8; 32] = [42u8; 32];
const NONCE: [u8; 12] = [3u8; 12];

fn gcm_pair() -> (SealingKey, OpeningKey) {
    let c = Cipher::Aes256Gcm;
    let seal = c.make_sealing_key(&KEY, &NONCE, &[]).unwrap();
    let open = c.make_opening_key(&KEY, &NONCE, &[]).unwrap();
    (seal, open)
}

fn read_packet(wire: &[u8], open: &mut OpeningKey, rbuf: &mut SSHBuffer) -> Result<Vec<u8>, Error> {
    let lb = [wire[0], wire[1], wire[2], wire[3]];
    let owed = read_begin(rbuf, open, lb)?;
    assert_eq!(wire.len(), owed + 4);
    rbuf.buffer.extend_from_slice(&wire[4..]);
    let usable = read_finish(rbuf, open)?;
    Ok(rbuf.buffer[5..usable].to_vec())
}

#[test]
fn tamper_detection_every_bit() {
    // flipping any single bit of the ciphertext or tag region must fail
    // authentication, and the error must carry no decrypted bytes
    let (mut seal, _) = gcm_pair();
    let payload = b"tamper detection payload".to_vec();
    let mut wbuf = SSHBuffer::new();
    seal.write(&payload, &mut wbuf);
    let wire = wbuf.buffer.clone();
    // bytes 0..4 are the unencrypted length field (associated data is
    // covered by the aead_scenario test); flip everything after it
    for byte in 4..wire.len() {
        for bit in 0..8 {
            let mut tampered = wire.clone();
            tampered[byte] ^= 1 << bit;
            let c = Cipher::Aes256Gcm;
            let mut open = c.make_opening_key(&KEY, &NONCE, &[]).unwrap();
            let mut rbuf = SSHBuffer::new();
            let r = read_packet(&tampered, &mut open, &mut rbuf);
            assert_eq!(r, Err(Error::AuthenticationFailure), "byte {byte} bit {bit}");
        }
    }
}

#[test]
fn aead_scenario_hundred_zero_bytes() {
    // AEAD algorithm, payload = 100 zero bytes, sequence number 0
    let (mut seal, mut open) = gcm_pair();
    let payload = vec![0u8; 100];
    let mut wbuf = SSHBuffer::new();
    assert_eq!(wbuf.seqn, 0);
    seal.write(&payload, &mut wbuf);
    let wire = wbuf.buffer.clone();
    let mut rbuf = SSHBuffer::new();
    let got = read_packet(&wire, &mut open, &mut rbuf).unwrap();
    assert_eq!(got, payload);

    // corrupting byte 0 of the tag flips the result to AuthenticationFailure
    let tag_len = 16;
    let mut tampered = wire.clone();
    let tag_start = wire.len() - tag_len;
    tampered[tag_start] ^= 0x01;
    let c = Cipher::Aes256Gcm;
    let mut open2 = c.make_opening_key(&KEY, &NONCE, &[]).unwrap();
    let mut rbuf2 = SSHBuffer::new();
    let r = read_packet(&tampered, &mut open2, &mut rbuf2);
    assert_eq!(r, Err(Error::AuthenticationFailure));
}

#[test]
fn ciphertext_differs_from_plaintext() {
    // the sealed region must actually be encrypted, not passed through
    let (mut seal, _) = gcm_pair();
    let payload = vec![0u8; 64];
    let mut wbuf = SSHBuffer::new();
    seal.write(&payload, &mut wbuf);
    let wire = &wbuf.buffer;
    let packet_length = u32::from_be_bytes([wire[0], wire[1], wire[2], wire[3]]) as usize;
    let ct_region = &wire[4..4 + packet_length];
    let padding_length = {
        // reconstruct the plaintext region the codec sealed
        let (mut seal2, mut open2) = gcm_pair();
        let mut wbuf2 = SSHBuffer::new();
        seal2.write(&payload, &mut wbuf2);
        let mut rbuf = SSHBuffer::new();
        read_packet(&wbuf2.buffer.clone(), &mut open2, &mut rbuf).unwrap();
        rbuf.buffer[4] as usize
    };
    let mut plain_region = vec![padding_length as u8];
    plain_region.extend_from_slice(&payload);
    plain_region.extend_from_slice(&vec![0u8; padding_length]);
    assert_eq!(ct_region.len(), plain_region.len());
    assert_ne!(ct_region, plain_region.as_slice());
}

#[test]
fn malformed_padding_rejected_clear() {
    // a plaintext whose declared padding_length exceeds its own length
    let mut wire = vec![0u8, 0, 0, 2];
    wire.extend_from_slice(&[200u8, 1u8]);
    let mut open = OpeningKey::Clear;
    let mut rbuf = SSHBuffer::new();
    let r = read_packet(&wire, &mut open, &mut rbuf);
    assert_eq!(r, Err(Error::MalformedPacket));
}

#[test]
fn malformed_padding_rejected_gcm() {
    // seal a hand-built region whose padding-length byte overstates the
    // padding; the tag verifies, so the failure is MalformedPacket
    let (mut seal, mut open) = gcm_pair();
    let mut region = vec![0u8, 0, 0, 2, 250u8, 7u8];
    let tag = seal.seal(0, &mut region);
    let mut wire = region;
    wire.extend_from_slice(&tag);
    let mut rbuf = SSHBuffer::new();
    let r = read_packet(&wire, &mut open, &mut rbuf);
    assert_eq!(r, Err(Error::MalformedPacket));
}

#[test]
fn nonce_advances_between_packets() {
    // the invocation counter steps per packet: sealing the same payload
    // twice must give different ciphertext
    let (mut seal, _) = gcm_pair();
    let payload = vec![9u8; 32];
    let mut wbuf = SSHBuffer::new();
    seal.write(&payload, &mut wbuf);
    let first = wbuf.buffer.clone();
    seal.write(&payload, &mut wbuf);
    let second = wbuf.buffer[first.len()..].to_vec();
    assert_eq!(first.len(), second.len());
    assert_ne!(first, second);
}

#[test]
fn key_and_nonce_length_mismatch() {
    let c = Cipher::Aes256Gcm;
    assert_eq!(
        c.make_sealing_key(&[0u8; 16], &NONCE, &[]).err(),
        Some(Error::KeyLengthMismatch)
    );
    assert_eq!(
        c.make_sealing_key(&KEY, &[0u8; 8], &[]).err(),
        Some(Error::NonceLengthMismatch)
    );
    assert_eq!(
        c.make_opening_key(&[], &NONCE, &[]).err(),
        Some(Error::KeyLengthMismatch)
    );
    assert_eq!(
        c.make_opening_key(&KEY, &[], &[]).err(),
        Some(Error::NonceLengthMismatch)
    );
    let clear = Cipher::Clear;
    assert_eq!(
        clear.make_sealing_key(&[1u8], &[], &[]).err(),
        Some(Error::KeyLengthMismatch)
    );
    assert!(clear.make_sealing_key(&[], &[], &[]).is_ok());
}

#[test]
fn registry_lookup() {
    let reg = Registry::default_registry();
    assert_eq!(reg.lookup(Name(CipherName::Clear)), Ok(Cipher::Clear));
    assert_eq!(reg.lookup(Name(CipherName::NoCipher)), Ok(Cipher::Clear));
    assert_eq!(reg.lookup(Name(CipherName::Aes256Gcm)), Ok(Cipher::Aes256Gcm));
    assert_eq!(reg.lookup(Name(CipherName::Aes256Ctr)), Err(Error::UnsupportedAlgorithm));
    assert_eq!(reg.lookup_wire("aes256-gcm@openssh.com"), Ok(Cipher::Aes256Gcm));
    assert_eq!(reg.lookup_wire("none"), Ok(Cipher::Clear));
    assert_eq!(reg.lookup_wire("blowfish-cbc"), Err(Error::UnsupportedAlgorithm));
    assert_eq!(
        reg.lookup_wire("chacha20-poly1305@openssh.com"),
        Err(Error::UnsupportedAlgorithm)
    );
}

#[test]
fn registry_registration_order() {
    let mut reg = Registry::new();
    assert_eq!(reg.lookup(Name(CipherName::Clear)), Err(Error::UnsupportedAlgorithm));
    reg.register(Name(CipherName::Clear), Cipher::Clear);
    reg.register(Name(CipherName::Clear), Cipher::Aes256Gcm);
    // the first registration of a name keeps priority
    assert_eq!(reg.lookup(Name(CipherName::Clear)), Ok(Cipher::Clear));
}

#[test]
fn name_wire_round_trip() {
    let names = [
        Name(CipherName::Clear),
        Name(CipherName::NoCipher),
        Name(CipherName::Aes128Ctr),
        Name(CipherName::Aes192Ctr),
        Name(CipherName::Aes256Ctr),
        Name(CipherName::Aes256Gcm),
        Name(CipherName::Chacha20Poly1305),
    ];
    for n in names {
        assert_eq!(Name::from_wire(n.as_ref()), Some(n));
    }
    assert_eq!(Name(CipherName::Clear).as_ref(), "clear");
    assert_eq!(Name(CipherName::Aes256Gcm).as_ref(), "aes256-gcm@openssh.com");
    assert_eq!(Name::from_wire("3des-cbc"), None);
}

#[test]
fn cipher_descriptor_attributes() {
    assert_eq!(Cipher::Clear.key_len(), 0);
    assert_eq!(Cipher::Clear.nonce_len(), 0);
    assert!(!Cipher::Clear.needs_mac());
    assert_eq!(Cipher::Aes256Gcm.key_len(), 32);
    assert_eq!(Cipher::Aes256Gcm.nonce_len(), 12);
    assert!(!Cipher::Aes256Gcm.needs_mac());
}

#[test]
fn cipher_pair_directions_are_independent() {
    let pair = CipherPair::make(&Cipher::Aes256Gcm, &KEY, &NONCE, &KEY, &NONCE).unwrap();
    let mut seal = pair.local_to_remote;
    let mut open = pair.remote_to_local;
    // three writes, then three reads: each direction advances on its own
    let mut wires: Vec<Vec<u8>> = Vec::new();
    let mut wbuf = SSHBuffer::new();
    for k in 0..3u8 {
        let before = wbuf.buffer.len();
        seal.write(&[k; 8], &mut wbuf);
        wires.push(wbuf.buffer[before..].to_vec());
    }
    for (k, wire) in wires.iter().enumerate() {
        let mut rbuf = SSHBuffer::new();
        let got = read_packet(wire, &mut open, &mut rbuf).unwrap();
        assert_eq!(got, vec![k as u8; 8]);
    }
}
