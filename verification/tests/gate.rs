use point_ledger::crypto_utils::{
    decrypt, decrypt_with_nonce, encrypt, encrypt_with_nonce, fixed_nonce, key_from_system,
    make_key, CryptoError, Key, TAG_LEN,
};
use point_ledger::io_utils::{
    create_archive, decode_file_from_compression, decode_file_from_moving, decode_file_unstable,
    decode_file_unstable_with_nonce, encode_file_by_compression, encode_file_by_moving,
    encode_file_by_moving_to, encode_file_unstable, encode_file_unstable_with_nonce,
    extract_from, gated_path, generate_name, letter, name_from_draws, CodecError, FileMove,
    GateError,
};
use std::collections::HashMap;

fn carry_out(disk: &mut HashMap<String, Vec<u8>>, file_move: &FileMove) {
    assert!(!disk.contains_key(&file_move.to));
    let bytes = disk.remove(&file_move.from).unwrap();
    disk.insert(file_move.to.clone(), bytes);
}

fn sample() -> Vec<u8> {
    let mut bytes: Vec<u8> = Vec::new();
    for i in 0..5_000u32 {
        bytes.push((i % 251) as u8);
        bytes.push((i / 7 % 13) as u8);
    }
    bytes
}

fn key_of(byte: u8) -> Key {
    [byte; 32]
}

#[test]
fn names_are_short_and_lower_case() {
    for _ in 0..200 {
        let name = generate_name();
        assert!(3 <= name.len() && name.len() < 20, "{}", name);
        assert!(name.chars().all(|c| c.is_ascii_lowercase()), "{}", name);
    }
}

#[test]
fn names_vary() {
    let first = generate_name();
    let mut differs = false;
    for _ in 0..50 {
        if generate_name() != first {
            differs = true;
        }
    }
    assert!(differs);
}

#[test]
fn draws_spell_a_name() {
    assert_eq!(name_from_draws(&vec![0, 1, 2]), "abc");
    assert_eq!(name_from_draws(&vec![25, 24, 0, 12]), "zyam");
    assert_eq!(name_from_draws(&vec![]), "");
    assert_eq!(letter(0), "a");
    assert_eq!(letter(25), "z");
    assert_eq!(letter(7), "h");
}

#[test]
fn locking_with_an_empty_pool_fails() {
    let path = String::from("/home/me/film");
    assert_eq!(encode_file_by_moving(&vec![], &path), Err(GateError::EmptyPool));
    assert_eq!(encode_file_by_moving_to(&vec![], 0, "abc", &path), Err(GateError::EmptyPool));
}

#[test]
fn locking_with_one_folder_goes_to_that_folder() {
    let pool = vec![String::from("/only/")];
    let path = String::from("/home/me/film");
    for _ in 0..50 {
        let lock = encode_file_by_moving(&pool, &path).unwrap();
        assert_eq!(lock.from, path);
        assert!(lock.to.starts_with("/only/"));
        let name = &lock.to["/only/".len()..];
        assert!(3 <= name.len() && name.len() < 20);
        assert!(name.chars().all(|c| c.is_ascii_lowercase()));
    }
}

#[test]
fn locking_draws_from_the_whole_pool() {
    let pool = vec![String::from("/a/"), String::from("/b/"), String::from("/c/")];
    let path = String::from("/home/me/film");
    let mut seen = [false; 3];
    for _ in 0..300 {
        let lock = encode_file_by_moving(&pool, &path).unwrap();
        let place = pool.iter().position(|folder| lock.to.starts_with(folder.as_str())).unwrap();
        seen[place] = true;
    }
    assert_eq!(seen, [true, true, true]);
}

#[test]
fn locking_at_a_chosen_place() {
    let pool = vec![String::from("/a/"), String::from("/b/")];
    let path = String::from("/home/me/film");
    assert_eq!(
        encode_file_by_moving_to(&pool, 1, "xyz", &path),
        Ok(FileMove { from: String::from("/home/me/film"), to: String::from("/b/xyz") })
    );
    assert_eq!(gated_path(&String::from("/pool"), "name"), "/poolname");
}

#[test]
fn unlocking_restores_the_disk() {
    let mut disk: HashMap<String, Vec<u8>> = HashMap::new();
    disk.insert(String::from("/home/me/film"), sample());
    disk.insert(String::from("/home/me/other"), vec![1, 2, 3]);
    let before = disk.clone();
    let pool = vec![String::from("/pool/")];
    let lock = encode_file_by_moving(&pool, &String::from("/home/me/film")).unwrap();
    carry_out(&mut disk, &lock);
    assert!(!disk.contains_key("/home/me/film"));
    assert_eq!(disk.get(&lock.to), Some(&sample()));
    let unlock = decode_file_from_moving(&lock.to, &lock.from);
    assert_eq!(unlock, FileMove { from: lock.to.clone(), to: lock.from.clone() });
    carry_out(&mut disk, &unlock);
    assert_eq!(disk, before);
}

#[test]
fn compression_round_trip() {
    let key = key_of(1);
    let encoded = encode_file_by_compression(&key, &sample()).unwrap();
    assert_ne!(encoded, sample());
    assert!(encoded.len() < sample().len());
    assert_eq!(&encoded[..4], &[0x28, 0xb5, 0x2f, 0xfd]);
    assert_eq!(decode_file_from_compression(&key, &encoded), Ok(sample()));
    let empty = encode_file_by_compression(&key, &vec![]).unwrap();
    assert_eq!(decode_file_from_compression(&key, &empty), Ok(vec![]));
}

#[test]
fn decompressing_what_is_no_frame_fails() {
    assert_eq!(
        decode_file_from_compression(&key_of(1), &vec![1, 2, 3, 4, 5]),
        Err(CodecError::Decompression)
    );
}

#[test]
fn archive_round_trip() {
    let archive = create_archive(&sample()).unwrap();
    assert_eq!(&archive[..4], b"PK\x03\x04");
    assert_ne!(archive, sample());
    assert_eq!(extract_from(&archive), Ok(sample()));
    assert_eq!(create_archive(&sample()).unwrap(), archive);
}

#[test]
fn extracting_from_what_is_no_archive_fails() {
    assert_eq!(extract_from(&vec![1, 2, 3]), Err(CodecError::Extraction));
    assert_eq!(extract_from(&vec![]), Err(CodecError::Extraction));
}

#[test]
fn sealed_archive_round_trip() {
    let key = key_of(9);
    let encoded = encode_file_unstable(&key, &sample()).unwrap();
    assert_ne!(encoded, sample());
    assert_eq!(decode_file_unstable(&key, &encoded), Ok(sample()));
    assert_eq!(decode_file_unstable(&key_of(8), &encoded), Err(CodecError::Opening));
    assert_eq!(decode_file_unstable(&key, &vec![0, 1, 2]), Err(CodecError::Extraction));
    let mut cipher = sample();
    encrypt(&key, &mut cipher).unwrap();
    assert_eq!(extract_from(&encoded), Ok(cipher));
}

#[test]
fn encryption_round_trip() {
    let key = key_of(3);
    let mut data = sample();
    assert_eq!(encrypt(&key, &mut data), Ok(()));
    assert_eq!(data.len(), sample().len() + TAG_LEN);
    assert_ne!(&data[..sample().len()], &sample()[..]);
    assert_eq!(decrypt(&key, &mut data), Ok(()));
    assert_eq!(data, sample());
}

#[test]
fn encryption_of_nothing() {
    let key = key_of(3);
    let mut data: Vec<u8> = Vec::new();
    assert_eq!(encrypt(&key, &mut data), Ok(()));
    assert_eq!(data.len(), 16);
    assert_eq!(decrypt(&key, &mut data), Ok(()));
    assert!(data.is_empty());
}

#[test]
fn decryption_rejects_what_was_not_sealed() {
    let key = key_of(3);
    let mut data = sample();
    encrypt(&key, &mut data).unwrap();
    let sealed = data.clone();

    let mut tampered = sealed.clone();
    tampered[10] ^= 1;
    assert_eq!(decrypt(&key, &mut tampered), Err(CryptoError::Opening));
    assert_eq!(tampered.len(), sealed.len());

    let mut other_key = sealed.clone();
    assert_eq!(decrypt(&key_of(4), &mut other_key), Err(CryptoError::Opening));

    let mut short: Vec<u8> = vec![1, 2, 3];
    assert_eq!(decrypt(&key, &mut short), Err(CryptoError::Opening));
    assert_eq!(short.len(), 3);
}

#[test]
fn the_nonce_takes_part_in_the_sealing() {
    let key = key_of(3);
    assert_eq!(fixed_nonce(), [0u8; 12]);
    let mut fixed = sample();
    encrypt(&key, &mut fixed).unwrap();
    let mut same = sample();
    encrypt_with_nonce(&key, [0u8; 12], &mut same).unwrap();
    assert_eq!(same, fixed);
    let mut other = sample();
    encrypt_with_nonce(&key, [7u8; 12], &mut other).unwrap();
    assert_ne!(other, fixed);
    let mut wrong = other.clone();
    assert_eq!(decrypt(&key, &mut wrong), Err(CryptoError::Opening));
    assert_eq!(decrypt_with_nonce(&key, [7u8; 12], &mut other), Ok(()));
    assert_eq!(other, sample());
}

#[test]
fn fresh_keys_differ() {
    let first = make_key().unwrap();
    let second = make_key().unwrap();
    assert_eq!(first.len(), 32);
    assert_ne!(first, second);
}

#[test]
fn the_answer_of_the_system_becomes_a_key_or_an_error() {
    assert_eq!(key_from_system(Ok(key_of(7))), Ok(key_of(7)));
    let mut mixed = key_of(0);
    mixed[31] = 255;
    mixed[0] = 1;
    assert_eq!(key_from_system(Ok(mixed)), Ok(mixed));
    assert_eq!(key_from_system(Err(ring::error::Unspecified)), Err(CryptoError::Randomness));
}

fn put_u16(bytes: &mut Vec<u8>, value: u16) {
    bytes.extend_from_slice(&value.to_le_bytes());
}

fn put_u32(bytes: &mut Vec<u8>, value: u32) {
    bytes.extend_from_slice(&value.to_le_bytes());
}

/// A zip archive, written out by hand, with one stored entry `main` that
/// holds `abc`. `flags` are the entry's general-purpose flags, and `extra`
/// is the extra field of its central directory record.
fn archive_by_hand(flags: u16, extra: &[u8]) -> Vec<u8> {
    let name = b"main";
    let data = b"abc";
    let crc: u32 = 0x3524_41c2;
    let mut bytes: Vec<u8> = Vec::new();

    put_u32(&mut bytes, 0x0403_4b50);
    put_u16(&mut bytes, 20);
    put_u16(&mut bytes, flags);
    put_u16(&mut bytes, 0);
    put_u16(&mut bytes, 0);
    put_u16(&mut bytes, 0x21);
    put_u32(&mut bytes, crc);
    put_u32(&mut bytes, data.len() as u32);
    put_u32(&mut bytes, data.len() as u32);
    put_u16(&mut bytes, name.len() as u16);
    put_u16(&mut bytes, 0);
    bytes.extend_from_slice(name);
    bytes.extend_from_slice(data);

    let directory_start = bytes.len() as u32;
    put_u32(&mut bytes, 0x0201_4b50);
    put_u16(&mut bytes, 20);
    put_u16(&mut bytes, 20);
    put_u16(&mut bytes, flags);
    put_u16(&mut bytes, 0);
    put_u16(&mut bytes, 0);
    put_u16(&mut bytes, 0x21);
    put_u32(&mut bytes, crc);
    put_u32(&mut bytes, data.len() as u32);
    put_u32(&mut bytes, data.len() as u32);
    put_u16(&mut bytes, name.len() as u16);
    put_u16(&mut bytes, extra.len() as u16);
    put_u16(&mut bytes, 0);
    put_u16(&mut bytes, 0);
    put_u16(&mut bytes, 0);
    put_u32(&mut bytes, 0);
    put_u32(&mut bytes, 0);
    bytes.extend_from_slice(name);
    bytes.extend_from_slice(extra);
    let directory_size = bytes.len() as u32 - directory_start;

    put_u32(&mut bytes, 0x0605_4b50);
    put_u16(&mut bytes, 0);
    put_u16(&mut bytes, 0);
    put_u16(&mut bytes, 1);
    put_u16(&mut bytes, 1);
    put_u32(&mut bytes, directory_size);
    put_u32(&mut bytes, directory_start);
    put_u16(&mut bytes, 0);
    bytes
}

/// The extra field that marks an entry as encrypted with AES-256: kind
/// 0x9901, seven bytes, vendor version 2, vendor `AE`, strength 3, stored.
fn aes_extra_field() -> Vec<u8> {
    let mut extra: Vec<u8> = Vec::new();
    put_u16(&mut extra, 0x9901);
    put_u16(&mut extra, 7);
    put_u16(&mut extra, 2);
    put_u16(&mut extra, 0x4541);
    extra.push(3);
    put_u16(&mut extra, 0);
    extra
}

#[test]
fn an_archive_written_by_hand_is_read() {
    assert_eq!(extract_from(&archive_by_hand(0, &[])), Ok(vec![b'a', b'b', b'c']));
}

#[test]
fn an_entry_marked_for_aes_but_not_as_encrypted_is_refused() {
    let archive = archive_by_hand(0, &aes_extra_field());
    assert_eq!(extract_from(&archive), Err(CodecError::Extraction));
    assert_eq!(decode_file_unstable(&key_of(1), &archive), Err(CodecError::Extraction));
}

#[test]
fn an_encrypted_entry_is_refused() {
    assert_eq!(extract_from(&archive_by_hand(1, &[])), Err(CodecError::Extraction));
    assert_eq!(
        extract_from(&archive_by_hand(1, &aes_extra_field())),
        Err(CodecError::Extraction)
    );
}

#[test]
fn an_archive_without_entries_is_refused() {
    let mut empty: Vec<u8> = Vec::new();
    put_u32(&mut empty, 0x0605_4b50);
    put_u16(&mut empty, 0);
    put_u16(&mut empty, 0);
    put_u16(&mut empty, 0);
    put_u16(&mut empty, 0);
    put_u32(&mut empty, 0);
    put_u32(&mut empty, 0);
    put_u16(&mut empty, 0);
    assert_eq!(extract_from(&empty), Err(CodecError::Extraction));
}

#[test]
fn sealed_archive_round_trip_with_a_nonce() {
    let key = key_of(9);
    let nonce = [5u8; 12];
    let encoded = encode_file_unstable_with_nonce(&key, nonce, &sample()).unwrap();
    assert_eq!(decode_file_unstable_with_nonce(&key, nonce, &encoded), Ok(sample()));
    assert_eq!(
        decode_file_unstable_with_nonce(&key, [6u8; 12], &encoded),
        Err(CodecError::Opening)
    );
    assert_eq!(decode_file_unstable(&key, &encoded), Err(CodecError::Opening));
    assert_eq!(
        decode_file_unstable_with_nonce(&key_of(8), nonce, &encoded),
        Err(CodecError::Opening)
    );
    assert_eq!(
        decode_file_unstable_with_nonce(&key, nonce, &vec![1, 2, 3]),
        Err(CodecError::Extraction)
    );
    let mut cipher = sample();
    encrypt_with_nonce(&key, nonce, &mut cipher).unwrap();
    assert_eq!(extract_from(&encoded), Ok(cipher));

    let fixed = encode_file_unstable(&key, &sample()).unwrap();
    assert_ne!(fixed, encoded);
    assert_eq!(encode_file_unstable_with_nonce(&key, [0u8; 12], &sample()), Ok(fixed.clone()));
    assert_eq!(decode_file_unstable_with_nonce(&key, [0u8; 12], &fixed), Ok(sample()));
}
