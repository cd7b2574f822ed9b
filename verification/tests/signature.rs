use hmac::{Hmac, Mac};
use reddit_youtube_bot::hmac::{hmac_hex, hmac_sha1, to_hex};
use reddit_youtube_bot::sha1::sha1_digest;
use reddit_youtube_bot::signature::{authenticate, sign, verify, SignatureError};
use sha1::{Digest, Sha1};

fn reference_sha1(data: &[u8]) -> Vec<u8> {
    let mut hasher = Sha1::new();
    hasher.update(data);
    hasher.finalize().to_vec()
}

fn reference_hmac(key: &[u8], data: &[u8]) -> Vec<u8> {
    let mut mac = Hmac::<Sha1>::new_from_slice(key).unwrap();
    mac.update(data);
    mac.finalize().into_bytes().to_vec()
}

#[test]
fn sha1_of_the_empty_message() {
    assert_eq!(to_hex(&sha1_digest(b"")), "da39a3ee5e6b4b0d3255bfef95601890afd80709");
}

#[test]
fn sha1_of_abc() {
    assert_eq!(to_hex(&sha1_digest(b"abc")), "a9993e364706816aba3e25717850c26c9cd0d89d");
}

#[test]
fn sha1_of_a_message_of_two_blocks() {
    assert_eq!(
        to_hex(&sha1_digest(b"abcdbcdecdefdefgefghfghighijhijkijkljklmklmnlmnomnopnopq")),
        "84983e441c3bd26ebaae4aa1f95129e5e54670f1"
    );
}

#[test]
fn sha1_agrees_with_the_reference_at_every_length_around_a_block() {
    let mut data: Vec<u8> = Vec::new();
    for n in 0..200usize {
        assert_eq!(sha1_digest(&data), reference_sha1(&data), "length {}", n);
        data.push((n * 7 + 3) as u8);
    }
}

#[test]
fn hmac_of_the_quick_brown_fox() {
    assert_eq!(
        hmac_hex(b"key", b"The quick brown fox jumps over the lazy dog"),
        "de7c9b85b8b78aa6bc8a7a36f70a90701c9db4d9"
    );
}

#[test]
fn hmac_of_empty_key_and_message() {
    assert_eq!(hmac_hex(b"", b""), "fbdb1d1b18aa6c08324b7d64b71fb76370690e1d");
}

#[test]
fn hmac_agrees_with_the_reference_for_short_and_long_keys() {
    let body = b"<feed><entry><id>yt:video:abc</id></entry></feed>";
    let mut key: Vec<u8> = Vec::new();
    for n in 0..150usize {
        assert_eq!(hmac_sha1(&key, body), reference_hmac(&key, body), "key length {}", n);
        key.push((n * 11 + 1) as u8);
    }
}

#[test]
fn hex_spells_each_byte_with_two_lower_case_digits() {
    assert_eq!(to_hex(&[0x00, 0x0f, 0xa0, 0xff]), "000fa0ff");
    assert_eq!(to_hex(&[]), "");
}

#[test]
fn signed_body_verifies() {
    let header = sign(b"secret", b"body");
    assert!(header.starts_with("sha1="));
    assert_eq!(header.len(), 45);
    assert_eq!(verify(b"secret", b"body", Some(&header)), Ok(()));
}

#[test]
fn every_single_digit_mutation_fails() {
    let header = sign(b"secret", b"body");
    for i in 5..45 {
        let mut chars: Vec<char> = header.chars().collect();
        chars[i] = if chars[i] == '0' { '1' } else { '0' };
        let mutated: String = chars.into_iter().collect();
        assert_eq!(
            verify(b"secret", b"body", Some(&mutated)),
            Err(SignatureError::Mismatch),
            "digit {}",
            i
        );
    }
}

#[test]
fn digest_is_compared_without_regard_to_case() {
    let header = sign(b"secret", b"body");
    let upper = format!("sha1={}", header[5..].to_uppercase());
    assert_eq!(verify(b"secret", b"body", Some(&upper)), Ok(()));
}

#[test]
fn missing_header_is_refused() {
    assert_eq!(verify(b"secret", b"body", None), Err(SignatureError::Missing));
}

#[test]
fn header_without_equals_sign_is_malformed() {
    assert_eq!(verify(b"secret", b"body", Some("sha1")), Err(SignatureError::Malformed));
    assert_eq!(verify(b"secret", b"body", Some("")), Err(SignatureError::Malformed));
}

#[test]
fn other_algorithm_is_refused() {
    let header = sign(b"secret", b"body");
    let other = format!("sha256={}", &header[5..]);
    assert_eq!(
        verify(b"secret", b"body", Some(&other)),
        Err(SignatureError::UnsupportedAlgorithm)
    );
    let upper = format!("SHA1={}", &header[5..]);
    assert_eq!(
        verify(b"secret", b"body", Some(&upper)),
        Err(SignatureError::UnsupportedAlgorithm)
    );
}

#[test]
fn digest_of_wrong_length_is_refused() {
    let header = sign(b"secret", b"body");
    assert_eq!(
        verify(b"secret", b"body", Some(&header[..44])),
        Err(SignatureError::BadLength)
    );
    let longer = format!("{}0", header);
    assert_eq!(verify(b"secret", b"body", Some(&longer)), Err(SignatureError::BadLength));
    assert_eq!(verify(b"secret", b"body", Some("sha1=")), Err(SignatureError::BadLength));
}

#[test]
fn digest_with_other_characters_does_not_match() {
    let bad = format!("sha1={}", "z".repeat(40));
    assert_eq!(verify(b"secret", b"body", Some(&bad)), Err(SignatureError::Mismatch));
}

#[test]
fn wrong_secret_or_body_does_not_match() {
    let header = sign(b"secret", b"body");
    assert_eq!(verify(b"other", b"body", Some(&header)), Err(SignatureError::Mismatch));
    assert_eq!(verify(b"secret", b"body!", Some(&header)), Err(SignatureError::Mismatch));
}

#[test]
fn signature_failure_is_a_bad_request() {
    let e = SignatureError::Missing.into_api_error();
    assert_eq!(e.status_code(), 400);
    assert_eq!(e.detail(), "The X-Hub-Signature header is missing.");
}

#[test]
fn authentic_body_is_handed_over_unchanged() {
    let body = b"<feed/>".to_vec();
    let header = sign(b"secret", &body);
    let authentic = authenticate(b"secret", body.clone(), Some(&header)).unwrap();
    assert_eq!(authentic.bytes(), &body[..]);
}

#[test]
fn body_that_is_not_authentic_is_not_handed_over() {
    let header = sign(b"secret", b"<feed/>");
    assert_eq!(
        authenticate(b"secret", b"<feed>x</feed>".to_vec(), Some(&header)),
        Err(SignatureError::Mismatch)
    );
    assert_eq!(authenticate(b"secret", b"<feed/>".to_vec(), None), Err(SignatureError::Missing));
}
