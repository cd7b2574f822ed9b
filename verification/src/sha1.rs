//! The SHA-1 digest, stated as in FIPS 180 and computed block by block.

use vstd::prelude::*;

verus! {

/// The five chaining words of SHA-1.
#[derive(Clone, Copy, Debug)]
pub struct Chain {
    pub h0: u32,
    pub h1: u32,
    pub h2: u32,
    pub h3: u32,
    pub h4: u32,
}

/// The chaining words before any block is absorbed.
pub open spec fn initial_chain() -> Chain {
    Chain { h0: 0x67452301, h1: 0xEFCDAB89, h2: 0x98BADCFE, h3: 0x10325476, h4: 0xC3D2E1F0 }
}

/// `x` rotated left by one bit.
pub open spec fn rotl1(x: u32) -> u32 {
    (x << 1u32) | (x >> 31u32)
}

/// `x` rotated left by five bits.
pub open spec fn rotl5(x: u32) -> u32 {
    (x << 5u32) | (x >> 27u32)
}

/// `x` rotated left by thirty bits.
pub open spec fn rotl30(x: u32) -> u32 {
    (x << 30u32) | (x >> 2u32)
}

/// The big-endian word that the four bytes from position `4 * i` spell.
pub open spec fn be_word(block: Seq<u8>, i: int) -> u32 {
    ((block[4 * i] as u32) << 24u32) | ((block[4 * i + 1] as u32) << 16u32) | ((block[4 * i
        + 2] as u32) << 8u32) | (block[4 * i + 3] as u32)
}

/// Word `t` of the message schedule of a block.
pub open spec fn schedule(block: Seq<u8>, t: int) -> u32
    decreases t,
{
    if t < 16 {
        be_word(block, t)
    } else {
        rotl1(
            schedule(block, t - 3) ^ schedule(block, t - 8) ^ schedule(block, t - 14) ^ schedule(
                block,
                t - 16,
            ),
        )
    }
}

/// The logical function of round `t`.
pub open spec fn round_function(t: int, b: u32, c: u32, d: u32) -> u32 {
    if t < 20 {
        (b & c) | (!b & d)
    } else if t < 40 {
        b ^ c ^ d
    } else if t < 60 {
        (b & c) | (b & d) | (c & d)
    } else {
        b ^ c ^ d
    }
}

/// The constant of round `t`.
pub open spec fn round_constant(t: int) -> u32 {
    if t < 20 {
        0x5A827999
    } else if t < 40 {
        0x6ED9EBA1
    } else if t < 60 {
        0x8F1BBCDC
    } else {
        0xCA62C1D6
    }
}

/// The working words after round `t`, from those before it and the schedule word `w`.
pub open spec fn round(s: Chain, t: int, w: u32) -> Chain {
    Chain {
        h0: rotl5(s.h0).wrapping_add(round_function(t, s.h1, s.h2, s.h3)).wrapping_add(
            s.h4,
        ).wrapping_add(round_constant(t)).wrapping_add(w),
        h1: s.h0,
        h2: rotl30(s.h1),
        h3: s.h2,
        h4: s.h3,
    }
}

/// The working words after the first `t` rounds on a block.
pub open spec fn rounds(block: Seq<u8>, s: Chain, t: int) -> Chain
    decreases t,
{
    if t <= 0 {
        s
    } else {
        round(rounds(block, s, t - 1), t - 1, schedule(block, t - 1))
    }
}

/// The chaining words after one block of 64 bytes.
pub open spec fn compress(h: Chain, block: Seq<u8>) -> Chain {
    let r = rounds(block, h, 80);
    Chain {
        h0: h.h0.wrapping_add(r.h0),
        h1: h.h1.wrapping_add(r.h1),
        h2: h.h2.wrapping_add(r.h2),
        h3: h.h3.wrapping_add(r.h3),
        h4: h.h4.wrapping_add(r.h4),
    }
}

/// The chaining words after all whole blocks of `data`.
pub open spec fn absorb(h: Chain, data: Seq<u8>) -> Chain
    decreases data.len(),
{
    if data.len() < 64 {
        h
    } else {
        compress(absorb(h, data.take(data.len() - 64)), data.skip(data.len() - 64))
    }
}

/// The number of zero bytes in the padding of a message of `n` bytes.
pub open spec fn zero_count(n: nat) -> nat {
    ((119 - n % 64) % 64) as nat
}

/// The length of a message of `n` bytes, in bits, as the 64-bit number that the padding ends in.
pub open spec fn bit_length(n: nat) -> u64 {
    ((n * 8) % 0x1_0000_0000_0000_0000) as u64
}

/// The eight bytes of `x`, most significant first.
pub open spec fn be_bytes64(x: u64) -> Seq<u8> {
    seq![
        (x >> 56u64) as u8,
        (x >> 48u64) as u8,
        (x >> 40u64) as u8,
        (x >> 32u64) as u8,
        (x >> 24u64) as u8,
        (x >> 16u64) as u8,
        (x >> 8u64) as u8,
        x as u8,
    ]
}

/// The four bytes of `x`, most significant first.
pub open spec fn be_bytes32(x: u32) -> Seq<u8> {
    seq![(x >> 24u32) as u8, (x >> 16u32) as u8, (x >> 8u32) as u8, x as u8]
}

/// A message with its padding: the byte `0x80`, zero bytes up to 56 modulo 64, and the length in bits.
pub open spec fn padded(msg: Seq<u8>) -> Seq<u8> {
    msg + seq![0x80u8] + Seq::new(zero_count(msg.len()), |i: int| 0u8) + be_bytes64(
        bit_length(msg.len()),
    )
}

/// The twenty bytes that the chaining words spell.
pub open spec fn chain_bytes(h: Chain) -> Seq<u8> {
    be_bytes32(h.h0) + be_bytes32(h.h1) + be_bytes32(h.h2) + be_bytes32(h.h3) + be_bytes32(h.h4)
}

/// The SHA-1 digest of a message.
pub open spec fn sha1(msg: Seq<u8>) -> Seq<u8> {
    chain_bytes(absorb(initial_chain(), padded(msg)))
}

/// A digest has twenty bytes.
pub proof fn lemma_sha1_len(msg: Seq<u8>)
    ensures
        sha1(msg).len() == 20,
{
}

/// Absorbs the block of 64 bytes that starts at `offset`.
fn compress_block(h: Chain, data: &Vec<u8>, offset: usize) -> (r: Chain)
    requires
        offset + 64 <= data.len(),
    ensures
        r == compress(h, data@.subrange(offset as int, offset + 64)),
{
    let ghost block = data@.subrange(offset as int, offset + 64);
    let mut w: Vec<u32> = Vec::new();
    let mut t: usize = 0;
    while t < 16
        invariant
            t <= 16,
            offset + 64 <= data.len(),
            block == data@.subrange(offset as int, offset + 64),
            w.len() == t,
            forall|j: int| 0 <= j < t ==> w@[j] == schedule(block, j),
        decreases 16 - t,
    {
        let i: usize = offset + 4 * t;
        assert(block[4 * t] == data@[i as int]);
        assert(block[4 * t + 1] == data@[i + 1]);
        assert(block[4 * t + 2] == data@[i + 2]);
        assert(block[4 * t + 3] == data@[i + 3]);
        let word: u32 = ((data[i] as u32) << 24u32) | ((data[i + 1] as u32) << 16u32) | ((data[i
            + 2] as u32) << 8u32) | (data[i + 3] as u32);
        w.push(word);
        t += 1;
    }
    while t < 80
        invariant
            16 <= t <= 80,
            w.len() == t,
            forall|j: int| 0 <= j < t ==> w@[j] == schedule(block, j),
        decreases 80 - t,
    {
        let x: u32 = w[t - 3] ^ w[t - 8] ^ w[t - 14] ^ w[t - 16];
        assert(x == schedule(block, t - 3) ^ schedule(block, t - 8) ^ schedule(block, t - 14)
            ^ schedule(block, t - 16));
        w.push((x << 1u32) | (x >> 31u32));
        t += 1;
    }
    let mut s = h;
    let mut t: usize = 0;
    while t < 80
        invariant
            t <= 80,
            w.len() == 80,
            forall|j: int| 0 <= j < 80 ==> w@[j] == schedule(block, j),
            s == rounds(block, h, t as int),
        decreases 80 - t,
    {
        let f: u32 = if t < 20 {
            (s.h1 & s.h2) | (!s.h1 & s.h3)
        } else if t < 40 {
            s.h1 ^ s.h2 ^ s.h3
        } else if t < 60 {
            (s.h1 & s.h2) | (s.h1 & s.h3) | (s.h2 & s.h3)
        } else {
            s.h1 ^ s.h2 ^ s.h3
        };
        let k: u32 = if t < 20 {
            0x5A827999
        } else if t < 40 {
            0x6ED9EBA1
        } else if t < 60 {
            0x8F1BBCDC
        } else {
            0xCA62C1D6
        };
        let a: u32 = ((s.h0 << 5u32) | (s.h0 >> 27u32)).wrapping_add(f).wrapping_add(
            s.h4,
        ).wrapping_add(k).wrapping_add(w[t]);
        s = Chain { h0: a, h1: s.h0, h2: (s.h1 << 30u32) | (s.h1 >> 2u32), h3: s.h2, h4: s.h3 };
        t += 1;
    }
    Chain {
        h0: h.h0.wrapping_add(s.h0),
        h1: h.h1.wrapping_add(s.h1),
        h2: h.h2.wrapping_add(s.h2),
        h3: h.h3.wrapping_add(s.h3),
        h4: h.h4.wrapping_add(s.h4),
    }
}

/// Appends the four bytes of `x`, most significant first.
fn push_word(out: &mut Vec<u8>, x: u32)
    ensures
        final(out)@ == old(out)@ + be_bytes32(x),
{
    out.push(#[verifier::truncate] ((x >> 24u32) as u8));
    out.push(#[verifier::truncate] ((x >> 16u32) as u8));
    out.push(#[verifier::truncate] ((x >> 8u32) as u8));
    out.push(#[verifier::truncate] (x as u8));
    assert(out@ =~= old(out)@ + be_bytes32(x));
}

/// Computes the SHA-1 digest of a message.
pub fn sha1_digest(msg: &[u8]) -> (out: Vec<u8>)
    ensures
        out@ == sha1(msg@),
        out.len() == 20,
{
    let mut data: Vec<u8> = Vec::new();
    let mut i: usize = 0;
    while i < msg.len()
        invariant
            i <= msg.len(),
            data@ == msg@.take(i as int),
        decreases msg.len() - i,
    {
        data.push(msg[i]);
        assert(data@ =~= msg@.take(i + 1));
        i += 1;
    }
    assert(msg@.take(msg.len() as int) =~= msg@);
    data.push(0x80u8);
    let zeros: usize = (119 - msg.len() % 64) % 64;
    let mut z: usize = 0;
    while z < zeros
        invariant
            z <= zeros,
            data@ == msg@ + seq![0x80u8] + Seq::new(z as nat, |i: int| 0u8),
        decreases zeros - z,
    {
        data.push(0u8);
        assert(data@ =~= msg@ + seq![0x80u8] + Seq::new((z + 1) as nat, |i: int| 0u8));
        z += 1;
    }
    let bits: u64 = (msg.len() as u64).wrapping_mul(8);
    assert(bits == bit_length(msg@.len()));
    data.push(#[verifier::truncate] ((bits >> 56u64) as u8));
    data.push(#[verifier::truncate] ((bits >> 48u64) as u8));
    data.push(#[verifier::truncate] ((bits >> 40u64) as u8));
    data.push(#[verifier::truncate] ((bits >> 32u64) as u8));
    data.push(#[verifier::truncate] ((bits >> 24u64) as u8));
    data.push(#[verifier::truncate] ((bits >> 16u64) as u8));
    data.push(#[verifier::truncate] ((bits >> 8u64) as u8));
    data.push(#[verifier::truncate] (bits as u8));
    assert(data@ =~= padded(msg@));
    assert(data.len() % 64 == 0);
    let blocks: usize = data.len() / 64;
    let mut h = Chain {
        h0: 0x67452301,
        h1: 0xEFCDAB89,
        h2: 0x98BADCFE,
        h3: 0x10325476,
        h4: 0xC3D2E1F0,
    };
    let mut b: usize = 0;
    assert(data@.take(0).len() == 0);
    while b < blocks
        invariant
            b <= blocks,
            blocks * 64 == data.len(),
            h == absorb(initial_chain(), data@.take(64 * b)),
        decreases blocks - b,
    {
        let ghost next = data@.take(64 * (b + 1));
        assert(next.take(next.len() - 64) =~= data@.take(64 * b));
        assert(next.skip(next.len() - 64) =~= data@.subrange(64 * b, 64 * b + 64));
        h = compress_block(h, &data, 64 * b);
        b += 1;
    }
    assert(data@.take(64 * b) =~= data@);
    let mut out: Vec<u8> = Vec::new();
    push_word(&mut out, h.h0);
    push_word(&mut out, h.h1);
    push_word(&mut out, h.h2);
    push_word(&mut out, h.h3);
    push_word(&mut out, h.h4);
    assert(out@ =~= chain_bytes(h));
    out
}

} // verus!
