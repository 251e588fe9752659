//! Round-trip and framing behaviour of the packet codecs.

use ssh_cipher::cipher::Cipher;
use ssh_cipher::open::{read_begin, read_finish, OpeningKey};
use ssh_cipher::seal::SealingKey;
use ssh_cipher::sshbuffer::SSHBuffer;
use ssh_cipher::Error;

fn make_pair(c: Cipher) -> (SealingKey, OpeningKey) {
    let key = vec![7u8; c.key_len()];
    let nonce = vec![9u8; c.nonce_len()];
    let seal = c.make_sealing_key(&key, &nonce, &[]).unwrap();
    let open = c.make_opening_key(&key, &nonce, &[]).unwrap();
    (seal, open)
}

fn seal_packet(seal: &mut SealingKey, wbuf: &mut SSHBuffer, payload: &[u8]) -> Vec<u8> {
    let before = wbuf.buffer.len();
    seal.write(payload, wbuf);
    wbuf.buffer[before..].to_vec()
}

fn read_packet(wire: &[u8], open: &mut OpeningKey, rbuf: &mut SSHBuffer) -> Result<Vec<u8>, Error> {
    assert!(wire.len() >= 4);
    let lb = [wire[0], wire[1], wire[2], wire[3]];
    let owed = read_begin(rbuf, open, lb)?;
    assert_eq!(owed, rbuf.len);
    assert_eq!(wire.len(), owed + 4, "test wire holds exactly one packet");
    rbuf.buffer.extend_from_slice(&wire[4..]);
    let usable = read_finish(rbuf, open)?;
    assert_eq!(usable, rbuf.buffer.len());
    // usable region: 4 length bytes, the padding-length byte, then the payload
    Ok(rbuf.buffer[5..usable].to_vec())
}

fn round_trip(c: Cipher, len: usize) {
    let (mut seal, mut open) = make_pair(c);
    let payload: Vec<u8> = (0..len).map(|i| (i % 251) as u8).collect();
    let mut wbuf = SSHBuffer::new();
    let mut rbuf = SSHBuffer::new();
    let wire = seal_packet(&mut seal, &mut wbuf, &payload);
    let got = read_packet(&wire, &mut open, &mut rbuf).unwrap();
    assert_eq!(got, payload);
    assert_eq!(wbuf.seqn, 1, "write side advanced by exactly one");
    assert_eq!(rbuf.seqn, 1, "read side advanced by exactly one");
    assert_eq!(rbuf.len, 0, "read progress reset after a whole packet");
}

#[test]
fn round_trip_clear_representative_lengths() {
    for len in [0usize, 1, 16, 255, 4096] {
        round_trip(Cipher::Clear, len);
    }
}

#[test]
fn round_trip_gcm_representative_lengths() {
    for len in [0usize, 1, 16, 255, 4096] {
        round_trip(Cipher::Aes256Gcm, len);
    }
}

#[test]
fn round_trip_every_registered_algorithm() {
    let reg = ssh_cipher::cipher::Registry::default_registry();
    for e in reg.entries.iter() {
        round_trip(e.1, 64);
    }
}

#[test]
fn several_packets_in_sequence() {
    let (mut seal, mut open) = make_pair(Cipher::Aes256Gcm);
    let mut wbuf = SSHBuffer::new();
    for k in 0..5u8 {
        let payload = vec![k; 10 + k as usize];
        let before = wbuf.buffer.len();
        seal.write(&payload, &mut wbuf);
        let wire = wbuf.buffer[before..].to_vec();
        let mut rbuf = SSHBuffer::new();
        let got = read_packet(&wire, &mut open, &mut rbuf).unwrap();
        assert_eq!(got, payload);
        assert_eq!(wbuf.seqn, (k + 1) as u32);
    }
}

#[test]
fn body_arrives_in_partial_chunks() {
    let (mut seal, mut open) = make_pair(Cipher::Aes256Gcm);
    let payload = b"partial arrival".to_vec();
    let mut wbuf = SSHBuffer::new();
    let wire = seal_packet(&mut seal, &mut wbuf, &payload);
    let mut rbuf = SSHBuffer::new();
    let lb = [wire[0], wire[1], wire[2], wire[3]];
    let owed = read_begin(&mut rbuf, &open, lb).unwrap();
    assert_eq!(owed, wire.len() - 4);
    // the stream delivers the body in three pieces; progress must survive
    let body = &wire[4..];
    let (a, rest) = body.split_at(3);
    let (b, c) = rest.split_at(rest.len() / 2);
    rbuf.buffer.extend_from_slice(a);
    assert_eq!(rbuf.len, owed, "target survives a partial arrival");
    rbuf.buffer.extend_from_slice(b);
    rbuf.buffer.extend_from_slice(c);
    let usable = read_finish(&mut rbuf, &mut open).unwrap();
    assert_eq!(&rbuf.buffer[5..usable], payload.as_slice());
}

#[test]
fn sequence_wraparound_write_side() {
    let (mut seal, _) = make_pair(Cipher::Clear);
    let mut wbuf = SSHBuffer::with_seqn(u32::MAX);
    seal.write(b"x", &mut wbuf);
    assert_eq!(wbuf.seqn, 0, "counter wraps modulo 2^32");
}

#[test]
fn sequence_wraparound_read_side() {
    let (mut seal, mut open) = make_pair(Cipher::Aes256Gcm);
    let mut wbuf = SSHBuffer::with_seqn(u32::MAX);
    let wire = seal_packet(&mut seal, &mut wbuf, b"wrap");
    assert_eq!(wbuf.seqn, 0);
    let mut rbuf = SSHBuffer::with_seqn(u32::MAX);
    let got = read_packet(&wire, &mut open, &mut rbuf).unwrap();
    assert_eq!(got, b"wrap".to_vec());
    assert_eq!(rbuf.seqn, 0, "counter wraps modulo 2^32");
}

#[test]
fn packet_layout_clear_ping() {
    // the no-op algorithm, payload "ping"
    let (mut seal, mut open) = make_pair(Cipher::Clear);
    assert_eq!(seal.tag_len(), 0);
    let mut wbuf = SSHBuffer::new();
    let wire = seal_packet(&mut seal, &mut wbuf, b"ping");
    let packet_length = u32::from_be_bytes([wire[0], wire[1], wire[2], wire[3]]) as usize;
    let padding_length = wire[4] as usize;
    assert_eq!(packet_length, 1 + 4 + padding_length);
    assert_eq!(&wire[5..9], b"ping");
    assert_eq!(wire.len(), 4 + packet_length, "no tag on the wire");
    let mut rbuf = SSHBuffer::new();
    let got = read_packet(&wire, &mut open, &mut rbuf).unwrap();
    assert_eq!(got, b"ping".to_vec());
    assert_eq!(rbuf.seqn, 1);
}

#[test]
fn padding_legality_all_algorithms() {
    for c in [Cipher::Clear, Cipher::Aes256Gcm] {
        for len in [0usize, 1, 2, 3, 4, 5, 7, 8, 11, 12, 15, 16, 255, 1000] {
            let (mut seal, _) = make_pair(c);
            let payload = vec![0u8; len];
            let mut wbuf = SSHBuffer::new();
            let tag_len = seal.tag_len();
            let wire = seal_packet(&mut seal, &mut wbuf, &payload);
            let packet_length =
                u32::from_be_bytes([wire[0], wire[1], wire[2], wire[3]]) as usize;
            assert_eq!(wire.len(), 4 + packet_length + tag_len);
            // the padding-length byte travels encrypted for GCM, so derive
            // the padding from the length field
            let padding_length = packet_length - 1 - len;
            if c == Cipher::Clear {
                assert_eq!(wire[4] as usize, padding_length);
            }
            assert!(packet_length >= 16, "minimum packet length");
            assert!(padding_length <= 255);
            assert!(padding_length >= 4, "protocol minimum padding");
            if c == Cipher::Clear {
                assert_eq!((4 + packet_length) % 8, 0, "block alignment");
            }
        }
    }
}

#[test]
fn exact_wire_bytes_clear_empty_payload() {
    // payload of 0 bytes: padding 19, packet_length 20, all padding zero
    let (mut seal, _) = make_pair(Cipher::Clear);
    let mut wbuf = SSHBuffer::new();
    let wire = seal_packet(&mut seal, &mut wbuf, &[]);
    let mut expected = vec![0u8, 0, 0, 20, 19];
    expected.extend_from_slice(&[0u8; 19]);
    assert_eq!(wire, expected);
}
