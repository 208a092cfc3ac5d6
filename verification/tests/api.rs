//! Behavioural tests of the byte interface: determinism, the
//! encrypt/decrypt round trip, reset and reinitialization, the fail-fast
//! length checks of the construction inputs, and the agreement of the
//! stream wrapper with direct buffer encryption.

use rabbit::InitVec;
use rabbit::Key;
use rabbit::Rabbit;
use rabbit::Stream;

const KEY_BYTES: [u8; 16] = [
    0xAC, 0xC3, 0x51, 0xDC, 0xF1, 0x62, 0xFC, 0x3B,
    0xFE, 0x36, 0x3D, 0x2E, 0x29, 0x13, 0x28, 0x91,
];

const IV_A: [u8; 8] = [0x59, 0x7E, 0x26, 0xC1, 0x75, 0xF5, 0x73, 0xC3];
const IV_B: [u8; 8] = [0x27, 0x17, 0xF4, 0xD2, 0x1A, 0x56, 0xEB, 0xA6];

#[test]
fn determinism_fresh_instances() {
    let msg = b"the same plaintext, twice";
    let mut c1 = vec![0u8; msg.len()];
    let mut c2 = vec![0u8; msg.len()];
    let mut r1 = Rabbit::new(&Key::new(KEY_BYTES));
    let mut r2 = Rabbit::new(&Key::new(KEY_BYTES));
    r1.encrypt(msg, &mut c1);
    r2.encrypt(msg, &mut c2);
    assert_eq!(c1, c2);
}

#[test]
fn determinism_after_reset() {
    let msg = b"encrypt me twice over";
    let mut c1 = vec![0u8; msg.len()];
    let mut c2 = vec![0u8; msg.len()];
    let mut r = Rabbit::new(&Key::new(KEY_BYTES));
    r.encrypt(msg, &mut c1);
    r.reset();
    r.encrypt(msg, &mut c2);
    assert_eq!(c1, c2);
}

#[test]
fn determinism_after_reinit() {
    let msg = b"one key schedule, one iv, two runs";
    let iv = InitVec::new(IV_A);
    let mut c1 = vec![0u8; msg.len()];
    let mut c2 = vec![0u8; msg.len()];
    let mut r = Rabbit::new_iv(&Key::new(KEY_BYTES), &iv);
    r.encrypt(msg, &mut c1);
    r.reinit(&iv);
    r.encrypt(msg, &mut c2);
    assert_eq!(c1, c2);
}

#[test]
fn involution_roundtrip() {
    let msg = b"decrypt(encrypt(m)) == m";
    let mut cipher = vec![0u8; msg.len()];
    let mut plain = vec![0u8; msg.len()];
    let mut r = Rabbit::new(&Key::new(KEY_BYTES));
    r.encrypt(msg, &mut cipher);
    assert_ne!(&cipher[..], &msg[..]);
    r.reset();
    r.decrypt(&cipher, &mut plain);
    assert_eq!(&plain[..], &msg[..]);
}

#[test]
fn involution_roundtrip_inplace() {
    let msg = b"in place and back again, across several blocks of keystream";
    let iv = InitVec::new(IV_B);
    let mut data = msg.to_vec();
    let mut r = Rabbit::new_iv(&Key::new(KEY_BYTES), &iv);
    r.encrypt_inplace(&mut data);
    assert_ne!(&data[..], &msg[..]);
    r.reinit(&iv);
    r.decrypt_inplace(&mut data);
    assert_eq!(&data[..], &msg[..]);
}

#[test]
fn reset_reproduces_keystream() {
    // Consume keystream prefixes of several lengths -- within one block,
    // just past one block, and across several -- and check that reset
    // restores the keystream of a fresh instance byte for byte.
    for consumed in [0usize, 5, 16, 17, 40, 48] {
        let mut fresh = Rabbit::new(&Key::new(KEY_BYTES));
        let mut expected = vec![0u8; 64];
        fresh.encrypt(&vec![0u8; 64], &mut expected);

        let mut reused = Rabbit::new(&Key::new(KEY_BYTES));
        let mut scratch = vec![0u8; consumed];
        reused.encrypt(&vec![0u8; consumed], &mut scratch);
        reused.reset();
        let mut again = vec![0u8; 64];
        reused.encrypt(&vec![0u8; 64], &mut again);

        assert_eq!(expected, again);
    }
}

#[test]
fn reset_drops_iv() {
    // The master state is captured before the IV schedule, so reset
    // returns to the key-only keystream, not to the IV keystream.
    let key = Key::new(KEY_BYTES);
    let mut keyed = Rabbit::new(&key);
    let mut key_only = vec![0u8; 32];
    keyed.encrypt(&vec![0u8; 32], &mut key_only);

    let mut r = Rabbit::new_iv(&key, &InitVec::new(IV_A));
    let mut with_iv = vec![0u8; 32];
    r.encrypt(&vec![0u8; 32], &mut with_iv);
    assert_ne!(key_only, with_iv);

    r.reset();
    let mut after_reset = vec![0u8; 32];
    r.encrypt(&vec![0u8; 32], &mut after_reset);
    assert_eq!(key_only, after_reset);
}

#[test]
fn reinit_matches_fresh_instances() {
    let key = Key::new(KEY_BYTES);
    let iv_a = InitVec::new(IV_A);
    let iv_b = InitVec::new(IV_B);

    let mut fresh_a = Rabbit::new_iv(&key, &iv_a);
    let mut stream_a = vec![0u8; 48];
    fresh_a.encrypt(&vec![0u8; 48], &mut stream_a);
    let mut fresh_b = Rabbit::new_iv(&key, &iv_b);
    let mut stream_b = vec![0u8; 48];
    fresh_b.encrypt(&vec![0u8; 48], &mut stream_b);
    assert_ne!(stream_a, stream_b);

    let mut r = Rabbit::new(&key);
    r.reinit(&iv_a);
    let mut got_a = vec![0u8; 48];
    r.encrypt(&vec![0u8; 48], &mut got_a);
    r.reinit(&iv_b);
    let mut got_b = vec![0u8; 48];
    r.encrypt(&vec![0u8; 48], &mut got_b);

    assert_eq!(stream_a, got_a);
    assert_eq!(stream_b, got_b);
}

#[test]
fn key_from_slice_checks_length() {
    let short = [0u8; 15];
    assert!(Key::from_slice(&short[..]).is_none());
    let long = [0u8; 17];
    assert!(Key::from_slice(&long[..]).is_none());
    let empty: [u8; 0] = [];
    assert!(Key::from_slice(&empty[..]).is_none());
    let exact = KEY_BYTES;
    let key = Key::from_slice(&exact[..]).unwrap();
    assert_eq!(key.0, KEY_BYTES);
}

#[test]
fn iv_from_slice_checks_length() {
    let short = [0u8; 7];
    assert!(InitVec::from_slice(&short[..]).is_none());
    let long = [0u8; 9];
    assert!(InitVec::from_slice(&long[..]).is_none());
    let exact = IV_A;
    let iv = InitVec::from_slice(&exact[..]).unwrap();
    assert_eq!(iv.0, IV_A);
}

#[test]
fn iv_from_u64_is_little_endian() {
    // The standard prints this IV as 0xC373F575C1267E59; its byte stream
    // starts with the least significant byte.
    let iv = InitVec::from_u64(0xC373_F575_C126_7E59);
    assert_eq!(iv.0, IV_A);
    assert_eq!(InitVec::from_u64(0).0, [0u8; 8]);
    assert_eq!(
        InitVec::from_u64(0x0102_0304_0506_0708).0,
        [0x08, 0x07, 0x06, 0x05, 0x04, 0x03, 0x02, 0x01],
    );
}

#[test]
fn iv_from_u64_matches_iv_bytes_keystream() {
    let key = Key::new([0u8; 16]);
    let mut from_bytes = Rabbit::new_iv(&key, &InitVec::new(IV_A));
    let mut from_int = Rabbit::new_iv(&key, &InitVec::from_u64(0xC373_F575_C126_7E59));
    let mut s1 = vec![0u8; 48];
    let mut s2 = vec![0u8; 48];
    from_bytes.encrypt(&vec![0u8; 48], &mut s1);
    from_int.encrypt(&vec![0u8; 48], &mut s2);
    assert_eq!(s1, s2);
}

#[test]
fn encrypt_matches_inplace() {
    let msg = b"two roads to the same ciphertext";
    let mut copied = vec![0u8; msg.len()];
    let mut r1 = Rabbit::new(&Key::new(KEY_BYTES));
    r1.encrypt(msg, &mut copied);
    let mut inplace = msg.to_vec();
    let mut r2 = Rabbit::new(&Key::new(KEY_BYTES));
    r2.encrypt_inplace(&mut inplace);
    assert_eq!(copied, inplace);
}

#[test]
fn encrypt_leaves_buffer_tail_unchanged() {
    let msg = b"short";
    let mut buf = vec![0xEEu8; 12];
    let mut r = Rabbit::new(&Key::new(KEY_BYTES));
    r.encrypt(msg, &mut buf);
    assert_eq!(&buf[5..], &[0xEE; 7][..]);
    let mut direct = vec![0u8; 5];
    let mut r2 = Rabbit::new(&Key::new(KEY_BYTES));
    r2.encrypt(msg, &mut direct);
    assert_eq!(&buf[..5], &direct[..]);
}

#[test]
fn stream_matches_direct_encryption() {
    let msg = b"the wrapper and the buffer interface agree";
    let mut direct = vec![0u8; msg.len()];
    let mut r = Rabbit::new(&Key::new(KEY_BYTES));
    r.encrypt(msg, &mut direct);

    let sink: Vec<u8> = Vec::new();
    let mut stream = Stream::new(Rabbit::new(&Key::new(KEY_BYTES)), sink);
    let written = stream.write_bytes(msg);
    assert_eq!(direct, written);

    let source: Vec<u8> = Vec::new();
    let mut stream = Stream::new(Rabbit::new(&Key::new(KEY_BYTES)), source);
    let mut received = msg.to_vec();
    stream.read_bytes(&mut received);
    assert_eq!(direct, received);
}

#[test]
fn stream_write_then_read_roundtrip() {
    // Writing N bytes through the wrapper and then reading the produced
    // bytes back through an identically reinitialized wrapper restores
    // the original data.
    let msg = b"across the channel and back";
    let iv = InitVec::new(IV_B);
    let sink: Vec<u8> = Vec::new();
    let mut stream = Stream::new(Rabbit::new_iv(&Key::new(KEY_BYTES), &iv), sink);
    let transformed = stream.write_bytes(msg);
    let (mut rabbit, _sink) = stream.into_inner();
    rabbit.reinit(&iv);
    let source: Vec<u8> = Vec::new();
    let mut stream = Stream::new(rabbit, source);
    let mut back = transformed.clone();
    stream.read_bytes(&mut back);
    assert_eq!(&back[..], &msg[..]);
}

#[test]
fn into_inner_returns_cipher_mid_stream() {
    let mut direct = vec![0u8; 20];
    let mut r = Rabbit::new(&Key::new(KEY_BYTES));
    r.encrypt(&[0u8; 20], &mut direct);

    let sink: Vec<u8> = Vec::new();
    let mut stream = Stream::new(Rabbit::new(&Key::new(KEY_BYTES)), sink);
    let first = stream.write_bytes(&[0u8; 10]);
    let (mut rabbit, _sink) = stream.into_inner();
    let mut second = vec![0u8; 10];
    rabbit.encrypt(&[0u8; 10], &mut second);
    assert_eq!(&direct[..10], &first[..]);
    assert_eq!(&direct[10..], &second[..]);
}
