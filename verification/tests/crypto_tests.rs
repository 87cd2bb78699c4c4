use base64::Engine;
use sha1::Digest;

use gdps_core::crypto::{
    cyclic_xor, decode_base64, decode_base64_url, decode_base64_url_raw, encode_base64,
    encode_base64_url, generate_checksum, hash_level_string, rand_ascii, sha1_salt, singluar_xor,
};

fn reference_sha1_hex(data: &[u8]) -> String {
    let mut hasher = sha1::Sha1::new();
    hasher.update(data);
    hex::encode(hasher.finalize())
}

#[test]
fn singluar_xor_known_bytes() {
    // 'a'^'k' = 0x0a, 'b'^'k' = 0x09, 'c'^'k' = 0x08
    let r = singluar_xor(b"abc", b"k");
    assert_eq!(r, "\u{a}\u{9}\u{8}");
}

#[test]
fn singluar_xor_cycles_key() {
    let r = singluar_xor(&[0x01, 0x02, 0x03], &[0x01, 0x02]);
    assert_eq!(r, "\u{0}\u{0}\u{2}");
}

#[test]
fn cyclic_xor_same_key_zeroes() {
    assert_eq!(cyclic_xor("AAAA", "A"), "\u{0}\u{0}\u{0}\u{0}");
}

#[test]
fn cyclic_xor_known_value() {
    // '1'^'4' = 0x05, '2'^'1' = 0x03
    assert_eq!(cyclic_xor("12", "41"), "\u{5}\u{3}");
}

#[test]
fn sha1_salt_matches_reference() {
    let r = sha1_salt(&String::from("hello"), "xI25fpAapCQg");
    assert_eq!(r, reference_sha1_hex(b"helloxI25fpAapCQg"));
}

#[test]
fn sha1_salt_empty_base() {
    let r = sha1_salt(&String::from(""), "s");
    assert_eq!(r, reference_sha1_hex(b"s"));
}

#[test]
fn hash_level_string_forty_bytes_samples_all() {
    // With exactly 40 bytes the step is 1 and every byte is sampled.
    let data = "0123456789012345678901234567890123456789".to_string();
    let r = hash_level_string(&data);
    let expected = reference_sha1_hex(format!("{}xI25fpAapCQg", data).as_bytes());
    assert_eq!(r, expected);
}

#[test]
fn hash_level_string_eighty_bytes_samples_every_other() {
    let mut data = String::new();
    for i in 0..80 {
        data.push(if i % 2 == 0 { 'a' } else { 'b' });
    }
    // step = 2, so the 40 samples are all 'a'.
    let r = hash_level_string(&data);
    let expected = reference_sha1_hex(format!("{}xI25fpAapCQg", "a".repeat(40)).as_bytes());
    assert_eq!(r, expected);
}

#[test]
fn encode_base64_standard() {
    assert_eq!(encode_base64("hi"), "aGk=");
    assert_eq!(encode_base64(""), "");
}

#[test]
fn decode_base64_yields_hex() {
    assert_eq!(decode_base64("aGk="), "6869");
    assert_eq!(decode_base64(""), "");
    // Invalid base64 degrades to the empty string.
    assert_eq!(decode_base64("!!!"), "");
}

#[test]
fn encode_base64_url_uses_url_alphabet() {
    assert_eq!(
        encode_base64_url("hi>?"),
        base64::engine::general_purpose::URL_SAFE.encode(b"hi>?"),
    );
    assert_eq!(encode_base64_url("hi>?"), "aGk-Pw==");
}

#[test]
fn decode_base64_url_swaps_alphabet() {
    // '_' maps to '/', so "_w==" decodes like "/w==" to the byte 0xff.
    assert_eq!(decode_base64_url("_w=="), "ff");
    assert_eq!(decode_base64_url_raw("_w=="), vec![0xffu8]);
    assert_eq!(decode_base64_url_raw("-A=="), vec![0xf8u8]);
}

#[test]
fn generate_checksum_matches_reference_pipeline() {
    let values = vec![
        "name".to_string(),
        "comment".to_string(),
        "42".to_string(),
        "50".to_string(),
    ];
    let r = generate_checksum(values.clone(), "29481", "0xPT6iUrtws0J");

    // The reference pipeline, straight from the outside crates.
    let joined = format!("{}{}{}{}{}", values[0], values[1], values[2], values[3], "0xPT6iUrtws0J");
    let hexd = reference_sha1_hex(joined.as_bytes());
    let key = b"29481";
    let xored: String = hexd
        .as_bytes()
        .iter()
        .enumerate()
        .map(|(i, b)| (b ^ key[i % key.len()]) as char)
        .collect();
    let expected = base64::engine::general_purpose::STANDARD.encode(xored.as_bytes());
    assert_eq!(r, expected);
}

#[test]
fn rand_ascii_length_and_alphabet() {
    let r = rand_ascii(32);
    assert_eq!(r.chars().count(), 32);
    assert!(r.chars().all(|c| c.is_ascii_alphanumeric()));
    assert_eq!(rand_ascii(0), "");
}
