//! Authentication of inbound notifications: the signature header is checked
//! against the HMAC of the raw body before anything is read out of the body.

use vstd::prelude::*;
use vstd::string::*;
use crate::error::{ApiError, ApiErrorView};
use crate::hmac::{
    hex_lower,
    hex_value,
    hmac,
    hmac_hex,
    hmac_sha1,
    lemma_hex_digit_value,
    lemma_hmac_len,
    lemma_nibble_bound,
    nibble,
};
use crate::text::{chars_of, find_char, first_index_of, lemma_first_index_is, same_text};

verus! {

/// Why a notification is not taken as authentic.
#[derive(Clone, Copy, Debug, PartialEq, Eq, Structural)]
pub enum SignatureError {
    /// The request carries no signature header.
    Missing,
    /// The header is not of the form `algorithm=digest`.
    Malformed,
    /// The header names another algorithm than `sha1`.
    UnsupportedAlgorithm,
    /// The digest does not have forty characters.
    BadLength,
    /// The digest is not the HMAC of the body under the secret.
    Mismatch,
}

/// `supplied` spells `tag` in hexadecimal digits of either case.
pub open spec fn digest_matches(supplied: Seq<char>, tag: Seq<u8>) -> bool {
    &&& supplied.len() == 2 * tag.len()
    &&& forall|i: int|
        0 <= i < supplied.len() ==> hex_value(#[trigger] supplied[i]) == Some(nibble(tag, i))
}

/// Whether a signature header authenticates `body` under `secret`, and why
/// not. The checks are made in this order: the header is present; it holds
/// an equals sign; what precedes the first one is `sha1`; what follows has
/// forty characters; these spell the HMAC-SHA1 of the body under the secret.
pub open spec fn signature_verdict(secret: Seq<u8>, body: Seq<u8>, header: Option<Seq<char>>) -> Result<
    (),
    SignatureError,
> {
    match header {
        None => Err(SignatureError::Missing),
        Some(h) => {
            let k = first_index_of(h, '=') as int;
            if k >= h.len() {
                Err(SignatureError::Malformed)
            } else if h.take(k) != "sha1"@ {
                Err(SignatureError::UnsupportedAlgorithm)
            } else if h.skip(k + 1).len() != 40 {
                Err(SignatureError::BadLength)
            } else if !digest_matches(h.skip(k + 1), hmac(secret, body)) {
                Err(SignatureError::Mismatch)
            } else {
                Ok(())
            }
        },
    }
}

/// The header that signs `body` under `secret`.
pub open spec fn signed_header(secret: Seq<u8>, body: Seq<u8>) -> Seq<char> {
    "sha1="@ + hex_lower(hmac(secret, body))
}

/// The characters of an optional header.
pub open spec fn header_text(signature: Option<&str>) -> Option<Seq<char>> {
    match signature {
        Some(s) => Some(s@),
        None => None,
    }
}

/// The value of a hexadecimal digit of either case.
pub fn hex_digit_value(c: char) -> (v: Option<u8>)
    ensures
        v == hex_value(c),
{
    let n: u32 = c as u32;
    if 0x30 <= n && n <= 0x39 {
        Some((n - 0x30) as u8)
    } else if 0x61 <= n && n <= 0x66 {
        Some((n - 0x61 + 10) as u8)
    } else if 0x41 <= n && n <= 0x46 {
        Some((n - 0x41 + 10) as u8)
    } else {
        None
    }
}

/// Writes the header that signs `body` under `secret`.
pub fn sign(secret: &[u8], body: &[u8]) -> (header: String)
    ensures
        header@ == signed_header(secret@, body@),
{
    let digest = hmac_hex(secret, body);
    String::from_str("sha1=").concat(digest.as_str())
}

/// Checks the signature header of a notification against its raw body.
/// Every digit of the digest is examined, whether or not an earlier one
/// differed.
pub fn verify(secret: &[u8], body: &[u8], signature: Option<&str>) -> (r: Result<
    (),
    SignatureError,
>)
    ensures
        r == signature_verdict(secret@, body@, header_text(signature)),
{
    let header = match signature {
        None => {
            return Err(SignatureError::Missing);
        },
        Some(h) => h,
    };
    let cs = chars_of(header);
    let k = find_char(header, '=');
    if k >= cs.len() {
        return Err(SignatureError::Malformed);
    }
    if !same_text(header.substring_char(0, k), "sha1") {
        return Err(SignatureError::UnsupportedAlgorithm);
    }
    if cs.len() - (k + 1) != 40 {
        return Err(SignatureError::BadLength);
    }
    let tag = hmac_sha1(secret, body);
    let ghost supplied = header@.skip(k + 1);
    let mut same = true;
    let mut i: usize = 0;
    while i < 20
        invariant
            i <= 20,
            tag.len() == 20,
            cs@ == header@,
            cs.len() == k + 41,
            supplied == header@.skip(k + 1),
            same == forall|j: int|
                0 <= j < 2 * i ==> hex_value(#[trigger] supplied[j]) == Some(nibble(tag@, j)),
        decreases 20 - i,
    {
        let b: u8 = tag[i];
        let high = hex_digit_value(cs[k + 1 + 2 * i]);
        let low = hex_digit_value(cs[k + 2 + 2 * i]);
        proof {
            assert(supplied[2 * i] == cs@[k + 1 + 2 * i]);
            assert(supplied[2 * i + 1] == cs@[k + 2 + 2 * i]);
            assert(nibble(tag@, 2 * i) == b >> 4u8);
            assert(nibble(tag@, 2 * i + 1) == b & 0x0fu8);
        }
        let here = high == Some(b >> 4u8) && low == Some(b & 0x0fu8);
        same = same && here;
        i += 1;
    }
    if same {
        Ok(())
    } else {
        Err(SignatureError::Mismatch)
    }
}

/// The raw body of a notification whose signature has been checked. There
/// is no other way to one than [`authenticate`], so what is read out of one
/// has been authenticated first.
#[derive(Clone, Debug, PartialEq, Eq)]
pub struct Authentic {
    body: Vec<u8>,
}

impl View for Authentic {
    type V = Seq<u8>;

    closed spec fn view(&self) -> Seq<u8> {
        self.body@
    }
}

impl Authentic {
    /// The bytes of the body.
    pub fn bytes(&self) -> (b: &[u8])
        ensures
            b@ == self@,
    {
        self.body.as_slice()
    }
}

/// Checks the signature header of a notification and, where it holds, hands
/// the body over for reading. A body that is not authentic is not handed on.
pub fn authenticate(secret: &[u8], body: Vec<u8>, signature: Option<&str>) -> (r: Result<
    Authentic,
    SignatureError,
>)
    ensures
        r is Ok == signature_verdict(secret@, body@, header_text(signature)) is Ok,
        r matches Ok(a) ==> a@ == body@,
        r matches Err(e) ==> signature_verdict(secret@, body@, header_text(signature)) == Err::<
            (),
            SignatureError,
        >(e),
{
    match verify(secret, body.as_slice(), signature) {
        Ok(()) => Ok(Authentic { body }),
        Err(e) => Err(e),
    }
}

impl SignatureError {
    /// The words that report the failure.
    pub open spec fn explanation(self) -> Seq<char> {
        match self {
            SignatureError::Missing => "The X-Hub-Signature header is missing."@,
            SignatureError::Malformed => "The X-Hub-Signature header is not of the form algorithm=digest."@,
            SignatureError::UnsupportedAlgorithm => "The X-Hub-Signature header does not name the sha1 algorithm."@,
            SignatureError::BadLength => "The X-Hub-Signature digest does not have 40 hexadecimal characters."@,
            SignatureError::Mismatch => "The X-Hub-Signature digest does not match the request body."@,
        }
    }

    /// The failure as it is reported to the sender: a bad request.
    pub fn into_api_error(self) -> (e: ApiError)
        ensures
            e@ == ApiErrorView::BadRequest(self.explanation()),
    {
        let text = match self {
            SignatureError::Missing => "The X-Hub-Signature header is missing.",
            SignatureError::Malformed => "The X-Hub-Signature header is not of the form algorithm=digest.",
            SignatureError::UnsupportedAlgorithm => "The X-Hub-Signature header does not name the sha1 algorithm.",
            SignatureError::BadLength => "The X-Hub-Signature digest does not have 40 hexadecimal characters.",
            SignatureError::Mismatch => "The X-Hub-Signature digest does not match the request body.",
        };
        ApiError::BadRequest(String::from_str(text))
    }
}

/// The parts of a header that is `sha1=` followed by a digest.
proof fn lemma_sha1_header_parts(digest: Seq<char>)
    ensures
        first_index_of("sha1="@ + digest, '=') == 4,
        ("sha1="@ + digest).take(4) == "sha1"@,
        ("sha1="@ + digest).skip(5) == digest,
{
    reveal_strlit("sha1=");
    reveal_strlit("sha1");
    let h = "sha1="@ + digest;
    lemma_first_index_is(h, '=', 4);
    assert(h.take(4) =~= "sha1"@);
    assert(h.skip(5) =~= digest);
}

/// The header written for a body authenticates it: for every secret and
/// body, `sha1=` followed by the lower-case HMAC passes the check.
pub proof fn law_signed_body_verifies(secret: Seq<u8>, body: Seq<u8>)
    ensures
        signature_verdict(secret, body, Some(signed_header(secret, body))) == Ok::<
            (),
            SignatureError,
        >(()),
{
    let tag = hmac(secret, body);
    let digest = hex_lower(tag);
    lemma_hmac_len(secret, body);
    lemma_sha1_header_parts(digest);
    assert forall|i: int| 0 <= i < digest.len() implies hex_value(#[trigger] digest[i]) == Some(
        nibble(tag, i),
    ) by {
        lemma_nibble_bound(tag, i);
        lemma_hex_digit_value(nibble(tag, i));
    }
}

/// A signed header with one digit of its digest replaced no longer
/// authenticates the body, unless the replacement spells the same digit
/// (a hexadecimal letter in its other case does).
pub proof fn law_altered_digest_fails(secret: Seq<u8>, body: Seq<u8>, i: int, c: char)
    requires
        0 <= i < 40,
        hex_value(c) != Some(nibble(hmac(secret, body), i)),
    ensures
        signature_verdict(
            secret,
            body,
            Some("sha1="@ + hex_lower(hmac(secret, body)).update(i, c)),
        ) == Err::<(), SignatureError>(SignatureError::Mismatch),
{
    let tag = hmac(secret, body);
    let digest = hex_lower(tag).update(i, c);
    lemma_hmac_len(secret, body);
    lemma_sha1_header_parts(digest);
    assert(digest[i] == c);
}

/// Replacing a digit of a signed header by the same digit in either case
/// keeps the header valid: the comparison ignores the case of letters.
pub proof fn law_digest_case_ignored(secret: Seq<u8>, body: Seq<u8>, i: int, c: char)
    requires
        0 <= i < 40,
        hex_value(c) == Some(nibble(hmac(secret, body), i)),
    ensures
        signature_verdict(
            secret,
            body,
            Some("sha1="@ + hex_lower(hmac(secret, body)).update(i, c)),
        ) == Ok::<(), SignatureError>(()),
{
    let tag = hmac(secret, body);
    let digest = hex_lower(tag).update(i, c);
    lemma_hmac_len(secret, body);
    lemma_sha1_header_parts(digest);
    assert forall|j: int| 0 <= j < digest.len() implies hex_value(#[trigger] digest[j]) == Some(
        nibble(tag, j),
    ) by {
        lemma_nibble_bound(tag, j);
        lemma_hex_digit_value(nibble(tag, j));
    }
}

} // verus!
