//! Encodings, digests and key derivation.

use base64::Engine;
use vstd::prelude::*;
use vstd::string::StringSliceAdditionalSpecFns;

verus! {

// ---------------------------------------------------------------------------
// Base64
// ---------------------------------------------------------------------------

/// The character that stands for the six bits `n` in the standard alphabet.
pub open spec fn base64_char(n: int) -> char {
    if n < 26 {
        (0x41 + n) as char
    } else if n < 52 {
        (0x61 + n - 26) as char
    } else if n < 62 {
        (0x30 + n - 52) as char
    } else if n == 62 {
        '+'
    } else {
        '/'
    }
}

/// Standard base64 with padding (RFC 4648, section 4).
pub open spec fn base64_view(b: Seq<u8>) -> Seq<char>
    decreases b.len(),
{
    if b.len() == 0 {
        Seq::empty()
    } else if b.len() == 1 {
        let n = b[0] * 16;
        seq![base64_char(n / 64), base64_char(n % 64), '=', '=']
    } else if b.len() == 2 {
        let n = b[0] * 1024 + b[1] * 4;
        seq![base64_char(n / 4096), base64_char(n / 64 % 64), base64_char(n % 64), '=']
    } else {
        let n = b[0] * 65536 + b[1] * 256 + b[2];
        seq![
            base64_char(n / 262144),
            base64_char(n / 4096 % 64),
            base64_char(n / 64 % 64),
            base64_char(n % 64),
        ] + base64_view(b.skip(3))
    }
}

/// A character of the standard base64 alphabet, or its padding.
pub open spec fn is_base64_char(c: char) -> bool {
    crate::text::is_ascii_alnum(c) || c == '+' || c == '/' || c == '='
}

/// Base64 text holds nothing but its alphabet and padding, so no control
/// character; its length is a multiple of four.
pub proof fn law_base64_is_plain(b: Seq<u8>)
    ensures
        forall|i: int| 0 <= i < base64_view(b).len() ==> is_base64_char(#[trigger] base64_view(b)[i]),
        base64_view(b).len() == (b.len() + 2) / 3 * 4,
    decreases b.len(),
{
    if b.len() >= 3 {
        law_base64_is_plain(b.skip(3));
        let head = seq![
            base64_char((b[0] * 65536 + b[1] * 256 + b[2]) / 262144),
            base64_char((b[0] * 65536 + b[1] * 256 + b[2]) / 4096 % 64),
            base64_char((b[0] * 65536 + b[1] * 256 + b[2]) / 64 % 64),
            base64_char((b[0] * 65536 + b[1] * 256 + b[2]) % 64),
        ];
        assert(base64_view(b) == head + base64_view(b.skip(3)));
        assert forall|i: int| 0 <= i < base64_view(b).len() implies is_base64_char(
            #[trigger] base64_view(b)[i],
        ) by {
            if i < 4 {
                assert(base64_view(b)[i] == head[i]);
            } else {
                assert(base64_view(b)[i] == base64_view(b.skip(3))[i - 4]);
            }
        }
    }
}

/// `base64::engine::general_purpose::STANDARD.encode`: the standard base64 text
/// of the bytes. The bound on their number keeps the length of the text within
/// a `usize`.
#[verifier::external_body]
pub(crate) fn base64_standard(bytes: &[u8]) -> (r: String)
    requires
        bytes@.len() <= usize::MAX / 2,
    ensures
        r@ == base64_view(bytes@),
{
    base64::engine::general_purpose::STANDARD.encode(bytes)
}

/// What `base64::prelude::BASE64_URL_SAFE_NO_PAD` reads out of a text: the
/// bytes, or the text of its error.
pub uninterp spec fn base64_url_read(text: Seq<char>) -> Result<Seq<u8>, Seq<char>>;

/// The bytes of a reading, or the text of its error.
pub open spec fn reading_view(r: Result<Vec<u8>, String>) -> Result<Seq<u8>, Seq<char>> {
    match r {
        Ok(b) => Ok(b@),
        Err(e) => Err(e@),
    }
}

/// `base64::prelude::BASE64_URL_SAFE_NO_PAD.decode`: the bytes that a text
/// stands for, or why it stands for none; the text alone decides.
#[verifier::external_body]
pub(crate) fn base64_url_decode(text: &str) -> (r: Result<Vec<u8>, String>)
    ensures
        reading_view(r) == base64_url_read(text@),
{
    base64::prelude::BASE64_URL_SAFE_NO_PAD.decode(text).map_err(|e| e.to_string())
}

// ---------------------------------------------------------------------------
// Digests
// ---------------------------------------------------------------------------

/// The SHA-256 digest of a byte sequence.
pub uninterp spec fn sha256_view(bytes: Seq<u8>) -> Seq<u8>;

/// `sha2::Sha256::digest`: the 32-byte SHA-256 digest of the bytes.
#[verifier::external_body]
pub(crate) fn sha256(bytes: &[u8]) -> (r: Vec<u8>)
    ensures
        r@ == sha256_view(bytes@),
        r@.len() == 32,
{
    <sha2::Sha256 as sha2::Digest>::digest(bytes).to_vec()
}

/// The lower-case hexadecimal digit `n`.
pub open spec fn hex_digit(n: int) -> char {
    if n < 10 {
        (0x30 + n) as char
    } else {
        (0x61 + n - 10) as char
    }
}

/// Two lower-case hexadecimal digits for each byte, the high one first.
pub open spec fn hex_view(b: Seq<u8>) -> Seq<char> {
    Seq::new(
        2 * b.len(),
        |i: int|
            if i % 2 == 0 {
                hex_digit(b[i / 2] as int / 16)
            } else {
                hex_digit(b[i / 2] as int % 16)
            },
    )
}

/// `hex::encode`: two lower-case hexadecimal digits for each byte.
#[verifier::external_body]
pub(crate) fn hex_encode(bytes: &[u8]) -> (r: String)
    requires
        bytes@.len() <= usize::MAX / 2,
    ensures
        r@ == hex_view(bytes@),
{
    hex::encode(bytes)
}

/// The first sixteen hexadecimal digits of the SHA-256 digest of `did`.
pub open spec fn short_did_view(did: Seq<char>) -> Seq<char> {
    hex_view(sha256_view(vstd::utf8::encode_utf8(did)).take(8))
}

/// A short, collision-resistant identifier of a DID: the first sixteen
/// hexadecimal digits of its SHA-256 digest. Plain truncation would not do, as
/// `did:peer` DIDs share a long common prefix.
pub fn short_did_id(did: &str) -> (r: String)
    ensures
        r@ == short_did_view(did@),
        r@.len() == 16,
{
    let digest = sha256(did.as_bytes());
    let mut head: Vec<u8> = Vec::new();
    let mut i: usize = 0;
    while i < 8
        invariant
            i <= 8,
            digest@.len() == 32,
            head@ == digest@.take(i as int),
        decreases 8 - i,
    {
        head.push(digest[i]);
        i = i + 1;
        assert(digest@.take(i - 1).push(digest@[i - 1]) =~= digest@.take(i as int));
    }
    hex_encode(head.as_slice())
}

// ---------------------------------------------------------------------------
// Key derivation
// ---------------------------------------------------------------------------

/// The signing key that BIP32 derives from a seed along a path, as
/// `ed25519_dalek_bip32` computes it; `None` where it refuses the path.
pub uninterp spec fn bip32_key(seed: Seq<u8>, path: Seq<char>) -> Option<Seq<u8>>;

/// The bytes of an optional key.
pub open spec fn key_view(k: Option<Vec<u8>>) -> Option<Seq<u8>> {
    match k {
        Some(b) => Some(b@),
        None => None,
    }
}

/// `ed25519_dalek_bip32::ExtendedSigningKey::from_seed` and `derive`: the
/// signing key at the end of a path, a function of the seed and the path. The
/// depth of a key is counted in a `u8`, and a step takes three characters at
/// least, such as `/0'`: a path this short keeps within that count.
#[verifier::external_body]
pub(crate) fn bip32_signing_key(seed: &[u8], path: &str) -> (r: Option<Vec<u8>>)
    requires
        path@.len() < 768,
    ensures
        key_view(r) == bip32_key(seed@, path@),
        r matches Some(k) ==> k@.len() == 32,
{
    let root = ed25519_dalek_bip32::ExtendedSigningKey::from_seed(seed).ok()?;
    let path = path.parse::<ed25519_dalek_bip32::DerivationPath>().ok()?;
    root.derive(&path).ok().map(|key| key.signing_key.to_bytes().to_vec())
}

} // verus!
