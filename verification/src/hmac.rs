//! HMAC over SHA-1 as in RFC 2104, and the hexadecimal spelling of a tag.

use vstd::prelude::*;
use vstd::string::*;
use crate::sha1::{lemma_sha1_len, sha1, sha1_digest};
use crate::text::{hex_digit, hex_digit_text};

verus! {

/// The key as one block of 64 bytes: a longer key is replaced by its digest,
/// and zero bytes fill the block.
pub open spec fn block_key(key: Seq<u8>) -> Seq<u8> {
    let k = if key.len() > 64 {
        sha1(key)
    } else {
        key
    };
    k + Seq::new((64 - k.len()) as nat, |i: int| 0u8)
}

/// Every byte of `block` combined with `mask` by exclusive or.
pub open spec fn masked(block: Seq<u8>, mask: u8) -> Seq<u8> {
    Seq::new(block.len(), |i: int| block[i] ^ mask)
}

/// The HMAC-SHA1 tag of a message under a key.
pub open spec fn hmac(key: Seq<u8>, msg: Seq<u8>) -> Seq<u8> {
    sha1(masked(block_key(key), 0x5c) + sha1(masked(block_key(key), 0x36) + msg))
}

/// A tag has twenty bytes.
pub proof fn lemma_hmac_len(key: Seq<u8>, msg: Seq<u8>)
    ensures
        hmac(key, msg).len() == 20,
{
    lemma_sha1_len(masked(block_key(key), 0x5c) + sha1(masked(block_key(key), 0x36) + msg));
}

/// The masked key block followed by `tail`.
fn masked_then(block: &Vec<u8>, mask: u8, tail: &[u8]) -> (out: Vec<u8>)
    ensures
        out@ == masked(block@, mask) + tail@,
{
    let mut out: Vec<u8> = Vec::new();
    let mut i: usize = 0;
    while i < block.len()
        invariant
            i <= block.len(),
            out@ == masked(block@, mask).take(i as int),
        decreases block.len() - i,
    {
        out.push(block[i] ^ mask);
        assert(out@ =~= masked(block@, mask).take(i + 1));
        i += 1;
    }
    assert(masked(block@, mask).take(block.len() as int) =~= masked(block@, mask));
    let mut j: usize = 0;
    while j < tail.len()
        invariant
            j <= tail.len(),
            out@ == masked(block@, mask) + tail@.take(j as int),
        decreases tail.len() - j,
    {
        out.push(tail[j]);
        assert(out@ =~= masked(block@, mask) + tail@.take(j + 1));
        j += 1;
    }
    assert(tail@.take(tail.len() as int) =~= tail@);
    out
}

/// Computes the HMAC-SHA1 tag of a message under a key.
pub fn hmac_sha1(key: &[u8], msg: &[u8]) -> (tag: Vec<u8>)
    ensures
        tag@ == hmac(key@, msg@),
        tag.len() == 20,
{
    let mut block: Vec<u8> = if key.len() > 64 {
        sha1_digest(key)
    } else {
        let mut copy: Vec<u8> = Vec::new();
        let mut i: usize = 0;
        while i < key.len()
            invariant
                i <= key.len(),
                copy@ == key@.take(i as int),
            decreases key.len() - i,
        {
            copy.push(key[i]);
            assert(copy@ =~= key@.take(i + 1));
            i += 1;
        }
        assert(key@.take(key.len() as int) =~= key@);
        copy
    };
    let ghost head = block@;
    while block.len() < 64
        invariant
            head.len() <= block.len() <= 64,
            block@ == head + Seq::new((block.len() - head.len()) as nat, |i: int| 0u8),
        decreases 64 - block.len(),
    {
        block.push(0u8);
        assert(block@ =~= head + Seq::new((block.len() - head.len()) as nat, |i: int| 0u8));
    }
    assert(block@ =~= block_key(key@));
    let inner = sha1_digest(masked_then(&block, 0x36, msg).as_slice());
    let tag = sha1_digest(masked_then(&block, 0x5c, inner.as_slice()).as_slice());
    tag
}

/// The value of a hexadecimal digit of either case; `None` for any other character.
pub open spec fn hex_value(c: char) -> Option<u8> {
    let n = c as u32;
    if 0x30 <= n <= 0x39 {
        Some((n - 0x30) as u8)
    } else if 0x61 <= n <= 0x66 {
        Some((n - 0x61 + 10) as u8)
    } else if 0x41 <= n <= 0x46 {
        Some((n - 0x41 + 10) as u8)
    } else {
        None
    }
}

/// Half-byte `i` of `bytes`, the more significant half of each byte first.
pub open spec fn nibble(bytes: Seq<u8>, i: int) -> u8 {
    if i % 2 == 0 {
        bytes[i / 2] >> 4u8
    } else {
        bytes[i / 2] & 0x0fu8
    }
}

/// The lower-case hexadecimal spelling of `bytes`, two digits for each byte.
pub open spec fn hex_lower(bytes: Seq<u8>) -> Seq<char> {
    Seq::new(2 * bytes.len(), |i: int| hex_digit(nibble(bytes, i)))
}

/// A half-byte is below sixteen.
pub proof fn lemma_nibble_bound(bytes: Seq<u8>, i: int)
    ensures
        nibble(bytes, i) < 16,
{
    let b = bytes[i / 2];
    assert(b >> 4u8 < 16) by (bit_vector);
    assert(b & 0x0fu8 < 16) by (bit_vector);
}

/// A lower-case digit reads back as the value it was written for.
pub proof fn lemma_hex_digit_value(n: u8)
    requires
        n < 16,
    ensures
        hex_value(hex_digit(n)) == Some(n),
{
}

/// Spells `bytes` in lower-case hexadecimal digits.
pub fn to_hex(bytes: &[u8]) -> (text: String)
    ensures
        text@ == hex_lower(bytes@),
{
    let mut text = String::new();
    let mut i: usize = 0;
    while i < bytes.len()
        invariant
            i <= bytes.len(),
            text@ == hex_lower(bytes@).take(2 * i),
        decreases bytes.len() - i,
    {
        let b: u8 = bytes[i];
        assert(b >> 4u8 < 16) by (bit_vector);
        assert(b & 0x0fu8 < 16) by (bit_vector);
        text.append(hex_digit_text(b >> 4u8));
        text.append(hex_digit_text(b & 0x0fu8));
        assert(text@ =~= hex_lower(bytes@).take(2 * (i + 1))) by {
            assert(nibble(bytes@, 2 * i) == b >> 4u8);
            assert(nibble(bytes@, 2 * i + 1) == b & 0x0fu8);
        }
        i += 1;
    }
    assert(hex_lower(bytes@).take(2 * i) =~= hex_lower(bytes@));
    text
}

/// The HMAC-SHA1 tag of `body` under `secret`, in lower-case hexadecimal digits.
pub fn hmac_hex(secret: &[u8], body: &[u8]) -> (text: String)
    ensures
        text@ == hex_lower(hmac(secret@, body@)),
        text@.len() == 40,
{
    let tag = hmac_sha1(secret, body);
    to_hex(tag.as_slice())
}

} // verus!
