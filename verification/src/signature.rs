//! Authentication of notifications: an HMAC-SHA1 of the raw body under a
//! shared secret, rendered as lowercase hex.

use vstd::prelude::*;
use vstd::string::*;
use vstd::utf8::encode_utf8;
use crate::config::texts;
use crate::status::Status;

verus! {

/// The request header that carries the signature token.
pub const SIGNATURE_HEADER: &'static str = "X-Hub-Signature";

/// The environment variable that holds the shared secret.
pub const SECRET_VARIABLE: &'static str = "GITHUB_SECRET";

/// Why a request carries no usable signature.
#[derive(Debug)]
pub enum GithubSignatureError {
    /// A secret is configured and the request has no signature header.
    Missing,
    /// The request has more than one signature header.
    UnexpectedHeaders,
    /// The signature does not match the body.
    Invalid,
}

/// The signature token of a request, as its header gave it.
pub struct GithubSignature(pub String);

/// The HMAC-SHA1 tag of `data` under `key` (RFC 2104 over SHA-1).
pub uninterp spec fn hmac_sha1(key: Seq<u8>, data: Seq<u8>) -> Seq<u8>;

/// The longest key or message, in bytes, that is handed to the HMAC: SHA-1
/// counts its input in bits in 64 bits, and this leaves room for the padded
/// key block that precedes the message.
pub open spec fn max_hmac_input() -> int {
    0x1000_0000_0000_0000
}

/// Whether a text, in UTF-8, is short enough to be handed to the HMAC as a
/// key or as a message.
pub open spec fn fits_hmac(text: Seq<char>) -> bool {
    encode_utf8(text).len() < max_hmac_input()
}

/// Calls `ring::hmac::Key::new` with `HMAC_SHA1_FOR_LEGACY_USE_ONLY` and
/// `ring::hmac::sign`. Trusted: the bytes returned are the HMAC-SHA1 tag of
/// `data` under `key`, a function of the two alone. Both calls panic only on
/// input too long for SHA-1's bit counter, which the bounds leave out.
#[verifier::external_body]
fn hmac_sha1_tag(key: &[u8], data: &[u8]) -> (tag: Vec<u8>)
    requires
        key@.len() < max_hmac_input(),
        data@.len() < max_hmac_input(),
    ensures
        tag@ == hmac_sha1(key@, data@),
{
    let signing_key = ring::hmac::Key::new(ring::hmac::HMAC_SHA1_FOR_LEGACY_USE_ONLY, key);
    ring::hmac::sign(&signing_key, data).as_ref().to_vec()
}

/// The lowercase hex digit of a value below sixteen.
pub open spec fn hex_digit(n: int) -> char {
    if n == 0 {
        '0'
    } else if n == 1 {
        '1'
    } else if n == 2 {
        '2'
    } else if n == 3 {
        '3'
    } else if n == 4 {
        '4'
    } else if n == 5 {
        '5'
    } else if n == 6 {
        '6'
    } else if n == 7 {
        '7'
    } else if n == 8 {
        '8'
    } else if n == 9 {
        '9'
    } else if n == 10 {
        'a'
    } else if n == 11 {
        'b'
    } else if n == 12 {
        'c'
    } else if n == 13 {
        'd'
    } else if n == 14 {
        'e'
    } else {
        'f'
    }
}

/// Bytes in lowercase hex: two digits for each byte, the high half first.
pub open spec fn hex(bytes: Seq<u8>) -> Seq<char> {
    Seq::new(
        2 * bytes.len(),
        |i: int|
            if i % 2 == 0 {
                hex_digit(bytes[i / 2] as int / 16)
            } else {
                hex_digit(bytes[i / 2] as int % 16)
            },
    )
}

/// The prefix that a signature token may carry before its hex digits.
pub open spec fn scheme_prefix() -> Seq<char> {
    seq!['s', 'h', 'a', '1', '=']
}

/// A signature token without its leading `sha1=`, if it has one.
pub open spec fn strip_scheme(token: Seq<char>) -> Seq<char> {
    if scheme_prefix().is_prefix_of(token) {
        token.skip(5)
    } else {
        token
    }
}

/// Whether a token is the hex rendering of a tag, with or without the
/// leading `sha1=`.
pub open spec fn token_matches(tag: Seq<u8>, token: Seq<char>) -> bool {
    strip_scheme(token) == hex(tag)
}

/// The hex signature that authenticates `body` under `secret`.
pub open spec fn expected_signature(secret: Seq<char>, body: Seq<char>) -> Seq<char> {
    hex(hmac_sha1(encode_utf8(secret), encode_utf8(body)))
}

/// Whether `signature` authenticates `body` under `secret`.
pub open spec fn spec_verify(secret: Seq<char>, signature: Seq<char>, body: Seq<char>) -> bool {
    token_matches(hmac_sha1(encode_utf8(secret), encode_utf8(body)), signature)
}

/// One hex digit as a string.
fn digit_str(n: u8) -> (r: &'static str)
    requires
        n < 16,
    ensures
        r@ == seq![hex_digit(n as int)],
{
    proof {
        reveal_strlit("0");
        reveal_strlit("1");
        reveal_strlit("2");
        reveal_strlit("3");
        reveal_strlit("4");
        reveal_strlit("5");
        reveal_strlit("6");
        reveal_strlit("7");
        reveal_strlit("8");
        reveal_strlit("9");
        reveal_strlit("a");
        reveal_strlit("b");
        reveal_strlit("c");
        reveal_strlit("d");
        reveal_strlit("e");
        reveal_strlit("f");
    }
    let r = match n {
        0 => "0",
        1 => "1",
        2 => "2",
        3 => "3",
        4 => "4",
        5 => "5",
        6 => "6",
        7 => "7",
        8 => "8",
        9 => "9",
        10 => "a",
        11 => "b",
        12 => "c",
        13 => "d",
        14 => "e",
        _ => "f",
    };
    r
}

/// Renders bytes as lowercase hex.
pub fn to_hex(bytes: &[u8]) -> (r: String)
    ensures
        r@ == hex(bytes@),
{
    let mut out = String::new();
    let mut i: usize = 0;
    while i < bytes.len()
        invariant
            i <= bytes.len(),
            out@ == hex(bytes@.take(i as int)),
        decreases bytes.len() - i,
    {
        let b: u8 = bytes[i];
        let ghost before = out@;
        out.append(digit_str(b / 16));
        out.append(digit_str(b % 16));
        proof {
            let next = hex(bytes@.take(i + 1));
            assert(out@ == before + seq![hex_digit(b as int / 16)] + seq![
                hex_digit(b as int % 16),
            ]);
            assert(out@ =~= next);
        }
        i += 1;
    }
    out
}

/// Takes the leading `sha1=` off a signature token, if it has one.
pub fn strip_signature_scheme(token: &str) -> (r: String)
    ensures
        r@ == strip_scheme(token@),
{
    let n = token.unicode_len();
    if n >= 5 && token.get_char(0) == 's' && token.get_char(1) == 'h' && token.get_char(2) == 'a'
        && token.get_char(3) == '1' && token.get_char(4) == '=' {
        String::from_str(token.substring_char(5, n))
    } else {
        assert(!scheme_prefix().is_prefix_of(token@));
        String::from_str(token)
    }
}

/// Compares a signature token with a computed tag: the token, without a
/// leading `sha1=`, must be the tag in lowercase hex, digit for digit.
pub fn signature_matches(tag: &[u8], signature: &str) -> (r: bool)
    ensures
        r == token_matches(tag@, signature@),
{
    let rendered = to_hex(tag);
    let given = strip_signature_scheme(signature);
    rendered == given
}

/// Decides whether `signature` authenticates `raw_body` under `secret`.
pub fn verify_signature(secret: String, signature: &str, raw_body: &str) -> (r: bool)
    requires
        fits_hmac(secret@),
        fits_hmac(raw_body@),
    ensures
        r == spec_verify(secret@, signature@, raw_body@),
{
    let tag = hmac_sha1_tag(secret.as_str().as_bytes(), raw_body.as_bytes());
    signature_matches(tag.as_slice(), signature)
}

/// Whether a request is taken as authentic: without a configured secret
/// every request is, with one the signature must match the raw body.
pub open spec fn authentic(secret: Option<Seq<char>>, signature: Seq<char>, body: Seq<char>) -> bool {
    match secret {
        None => true,
        Some(s) => spec_verify(s, signature, body),
    }
}

/// A secret as a plain sequence of characters, if one is configured.
pub open spec fn secret_view(secret: Option<String>) -> Option<Seq<char>> {
    match secret {
        Some(s) => Some(s@),
        None => None,
    }
}

/// Decides whether a request is authentic under the secret that is
/// configured, if any: with none, checking is switched off and every
/// request passes.
pub fn is_authentic(secret: Option<String>, signature: &str, raw_body: &str) -> (r: bool)
    requires
        secret is Some ==> fits_hmac(secret->Some_0@),
        secret is Some ==> fits_hmac(raw_body@),
    ensures
        r == authentic(secret_view(secret), signature@, raw_body@),
{
    match secret {
        Some(s) => verify_signature(s, signature, raw_body),
        None => true,
    }
}

/// The signature that a request is taken to carry.
///
/// Without a configured secret nothing is checked and the signature is
/// empty. With one, exactly one signature header is asked for.
pub open spec fn spec_from_request(secret_configured: bool, headers: Seq<Seq<char>>) -> Result<
    Seq<char>,
    GithubSignatureError,
> {
    if !secret_configured {
        Ok(Seq::empty())
    } else if headers.len() == 0 {
        Err(GithubSignatureError::Missing)
    } else if headers.len() == 1 {
        Ok(headers[0])
    } else {
        Err(GithubSignatureError::UnexpectedHeaders)
    }
}

impl GithubSignature {
    /// Takes the signature from the values of a request's signature
    /// headers.
    pub fn from_request(secret_configured: bool, headers: &Vec<String>) -> (r: Result<
        GithubSignature,
        GithubSignatureError,
    >)
        ensures
            match spec_from_request(secret_configured, texts(headers@)) {
                Ok(token) => r is Ok && r->Ok_0.0@ == token,
                Err(e) => r == Err::<GithubSignature, GithubSignatureError>(e),
            },
    {
        if !secret_configured {
            return Ok(GithubSignature(String::new()));
        }
        match headers.len() {
            0 => Err(GithubSignatureError::Missing),
            1 => {
                Ok(GithubSignature(headers[0].clone()))
            },
            _ => Err(GithubSignatureError::UnexpectedHeaders),
        }
    }
}

/// What checking a signature against a body comes to: nothing to object,
/// or the signature is invalid.
pub open spec fn spec_check(secret: Option<Seq<char>>, signature: Seq<char>, body: Seq<char>) -> Result<
    (),
    GithubSignatureError,
> {
    if authentic(secret, signature, body) {
        Ok(())
    } else {
        Err(GithubSignatureError::Invalid)
    }
}

impl GithubSignature {
    /// Checks this signature against the raw body of its request, under the
    /// secret that is configured, if any.
    pub fn check(&self, secret: Option<String>, raw_body: &str) -> (r: Result<
        (),
        GithubSignatureError,
    >)
        requires
            secret is Some ==> fits_hmac(secret->Some_0@),
            secret is Some ==> fits_hmac(raw_body@),
        ensures
            r == spec_check(secret_view(secret), self.0@, raw_body@),
    {
        if is_authentic(secret, self.0.as_str(), raw_body) {
            Ok(())
        } else {
            Err(GithubSignatureError::Invalid)
        }
    }
}

/// The outcome that a signature error is answered with.
pub open spec fn spec_error_status(e: GithubSignatureError) -> Status {
    match e {
        GithubSignatureError::Missing => Status::Unauthorized,
        GithubSignatureError::UnexpectedHeaders => Status::BadRequest,
        GithubSignatureError::Invalid => Status::Unauthorized,
    }
}

impl GithubSignatureError {
    /// The outcome that this error is answered with.
    pub fn status(&self) -> (r: Status)
        ensures
            r == spec_error_status(*self),
    {
        match self {
            GithubSignatureError::Missing => Status::Unauthorized,
            GithubSignatureError::UnexpectedHeaders => Status::BadRequest,
            GithubSignatureError::Invalid => Status::Unauthorized,
        }
    }
}

/// A hex rendering never begins with the scheme prefix.
pub proof fn lemma_hex_has_no_scheme(bytes: Seq<u8>)
    ensures
        strip_scheme(hex(bytes)) == hex(bytes),
{
    if scheme_prefix().is_prefix_of(hex(bytes)) {
        assert(hex(bytes)[0] == 's');
    }
}

/// Exactly two tokens authenticate a body under a secret: its HMAC-SHA1 in
/// lowercase hex, and the same behind `sha1=`. Every other token is
/// rejected.
pub proof fn lemma_verify_round_trip(secret: Seq<char>, signature: Seq<char>, body: Seq<char>)
    ensures
        spec_verify(secret, expected_signature(secret, body), body),
        spec_verify(secret, scheme_prefix() + expected_signature(secret, body), body),
        spec_verify(secret, signature, body) <==> (signature == expected_signature(secret, body)
            || signature == scheme_prefix() + expected_signature(secret, body)),
{
    let tag = hmac_sha1(encode_utf8(secret), encode_utf8(body));
    let digits = hex(tag);
    lemma_hex_has_no_scheme(tag);
    let prefixed = scheme_prefix() + digits;
    assert(prefixed.skip(5) =~= digits);
    if scheme_prefix().is_prefix_of(signature) {
        assert(signature =~= scheme_prefix() + signature.skip(5));
    }
}

} // verus!
