//! Proof Key for Code Exchange: the code verifier and its S256 challenge.

use base64::prelude::BASE64_URL_SAFE_NO_PAD;
use base64::Engine;
use rand::rngs::ThreadRng;
use rand::seq::SliceRandom;
use sha2::Digest;
use sha2::Sha256;
use std::string::FromUtf8Error;
use vstd::prelude::*;
use vstd::utf8::*;

verus! {

/// Length of a code verifier in bytes.
pub const MAX_LEN: usize = 128;

/// Length of the challenge derived from any verifier.
pub const CHALLENGE_LEN: usize = 43;

/// The unreserved characters of a code verifier: ASCII letters and digits and
/// the four marks `-`, `.`, `_` and `~`.
pub open spec fn is_unreserved(b: u8) -> bool {
    ||| 0x41 <= b <= 0x5a
    ||| 0x61 <= b <= 0x7a
    ||| 0x30 <= b <= 0x39
    ||| b == 0x2d
    ||| b == 0x2e
    ||| b == 0x5f
    ||| b == 0x7e
}

/// A code verifier: `MAX_LEN` unreserved characters.
pub open spec fn is_code_verifier(code: Seq<u8>) -> bool {
    &&& code.len() == MAX_LEN
    &&& forall|i: int| 0 <= i < code.len() ==> is_unreserved(#[trigger] code[i])
}

/// The characters of the URL-safe base64 alphabet.
pub open spec fn is_base64_url_char(c: char) -> bool {
    ||| 'A' <= c <= 'Z'
    ||| 'a' <= c <= 'z'
    ||| '0' <= c <= '9'
    ||| c == '-'
    ||| c == '_'
}

/// Text made of the characters of the URL-safe base64 alphabet only.
pub open spec fn is_base64_url_text(text: Seq<char>) -> bool {
    forall|i: int| 0 <= i < text.len() ==> is_base64_url_char(#[trigger] text[i])
}

/// Length of the unpadded base64 encoding of `len` bytes.
pub open spec fn base64_nopad_len(len: nat) -> nat {
    4 * (len / 3) + if len % 3 == 0 {
        0nat
    } else {
        len % 3 + 1
    }
}

/// The text whose characters are the given bytes, one for one.
pub open spec fn ascii_text(bytes: Seq<u8>) -> Seq<char> {
    Seq::new(bytes.len(), |i: int| bytes[i] as char)
}

/// The SHA-256 digest of `data`, as the `sha2` crate computes it.
pub uninterp spec fn sha256(data: Seq<u8>) -> Seq<u8>;

/// The URL-safe base64 encoding of `data` without padding, as the `base64`
/// crate computes it.
pub uninterp spec fn base64_url_nopad(data: Seq<u8>) -> Seq<char>;

/// The S256 code challenge of a verifier.
pub open spec fn code_challenge(verifier: Seq<u8>) -> Seq<char> {
    base64_url_nopad(sha256(verifier))
}

/// `rand::rngs::ThreadRng`, the handle to the thread's generator: carried
/// through, never looked into.
#[verifier::external_type_specification]
#[verifier::external_body]
pub struct ExThreadRng(ThreadRng);

/// `std::string::FromUtf8Error`, the error of `String::from_utf8`: carried
/// through, never looked into.
#[verifier::external_type_specification]
#[verifier::external_body]
pub struct ExFromUtf8Error(FromUtf8Error);

/// `rand::thread_rng`: a handle to the thread's generator. Nothing is claimed
/// of it.
pub assume_specification[ rand::thread_rng ]() -> ThreadRng;

/// `SliceRandom::choose` on a slice of bytes: one element of the slice, or
/// `None` if and only if the slice is empty. Which element is not stated.
#[verifier::external_body]
fn choose_one(chars: &Vec<u8>, rng: &mut ThreadRng) -> (picked: Option<u8>)
    ensures
        match picked {
            Some(b) => chars@.contains(b),
            None => chars@.len() == 0,
        },
{
    chars.choose(rng).copied()
}

/// `Sha256::digest`: the digest is a function of the input alone, and is 32
/// bytes long.
#[verifier::external_body]
fn sha256_digest(input: &Vec<u8>) -> (digest: Vec<u8>)
    ensures
        digest@ == sha256(input@),
        digest@.len() == 32,
{
    Sha256::digest(input).to_vec()
}

/// `Engine::encode` of `BASE64_URL_SAFE_NO_PAD`: the text is a function of the
/// input alone, has the length of an unpadded encoding and holds characters of
/// the URL-safe alphabet only. The input is kept short enough for the buffer
/// that the crate allocates.
#[verifier::external_body]
fn base64_encode(input: &Vec<u8>) -> (text: String)
    requires
        4 * (input@.len() / 3) + 3 <= isize::MAX,
    ensures
        text@ == base64_url_nopad(input@),
        text@.len() == base64_nopad_len(input@.len()),
        is_base64_url_text(text@),
{
    BASE64_URL_SAFE_NO_PAD.encode(input)
}

/// `String::from_utf8`: succeeds exactly on valid UTF-8, and then holds the
/// characters that the bytes encode.
#[verifier::external_body]
fn string_from_utf8(bytes: Vec<u8>) -> (text: Result<String, FromUtf8Error>)
    ensures
        text is Ok <==> valid_utf8(bytes@),
        text matches Ok(s) ==> s@ == decode_utf8(bytes@),
{
    String::from_utf8(bytes)
}

/// Bytes below 128 are valid UTF-8 and decode to themselves.
pub proof fn lemma_ascii_is_text(bytes: Seq<u8>)
    requires
        forall|i: int| 0 <= i < bytes.len() ==> #[trigger] bytes[i] < 128,
    ensures
        valid_utf8(bytes),
        decode_utf8(bytes) == ascii_text(bytes),
{
    let chars = ascii_text(bytes);
    assert(is_ascii_chars(chars)) by {
        assert forall|i: int| 0 <= i < chars.len() implies '\0' <= #[trigger] chars[i]
            <= '\u{7f}' by {
            assert(bytes[i] < 128);
        }
    }
    is_ascii_chars_encode_utf8(chars);
    assert(encode_utf8(chars) =~= bytes) by {
        assert forall|i: int| 0 <= i < bytes.len() implies encode_utf8(chars)[i] == bytes[i] by {
            assert(chars[i] as u8 == encode_utf8(chars)[i]);
            assert(bytes[i] < 128);
        }
    }
    encode_utf8_valid_utf8(chars);
    encode_utf8_decode_utf8(chars);
}

/// The unreserved characters, in the order `~.-_`, `A`-`Z`, `a`-`z`, `0`-`9`.
fn unreserved_chars() -> (chars: Vec<u8>)
    ensures
        chars@.len() == 66,
        forall|i: int| 0 <= i < chars@.len() ==> is_unreserved(#[trigger] chars@[i]),
        forall|b: u8| is_unreserved(b) ==> chars@.contains(b),
{
    let mut chars: Vec<u8> = Vec::with_capacity(66);
    chars.push(0x7e);
    chars.push(0x2e);
    chars.push(0x2d);
    chars.push(0x5f);
    let mut upper: u8 = 0x41;
    while upper <= 0x5a
        invariant
            0x41 <= upper <= 0x5b,
            chars@.len() == 4 + (upper - 0x41),
            chars@[0] == 0x7e && chars@[1] == 0x2e && chars@[2] == 0x2d && chars@[3] == 0x5f,
            forall|k: int| 0 <= k < upper - 0x41 ==> #[trigger] chars@[4 + k] == 0x41 + k,
        decreases 0x5b - upper,
    {
        chars.push(upper);
        upper = upper + 1;
    }
    let mut lower: u8 = 0x61;
    while lower <= 0x7a
        invariant
            0x61 <= lower <= 0x7b,
            chars@.len() == 30 + (lower - 0x61),
            chars@[0] == 0x7e && chars@[1] == 0x2e && chars@[2] == 0x2d && chars@[3] == 0x5f,
            forall|k: int| 0 <= k < 26 ==> #[trigger] chars@[4 + k] == 0x41 + k,
            forall|k: int| 0 <= k < lower - 0x61 ==> #[trigger] chars@[30 + k] == 0x61 + k,
        decreases 0x7b - lower,
    {
        chars.push(lower);
        lower = lower + 1;
    }
    let mut digit: u8 = 0x30;
    while digit <= 0x39
        invariant
            0x30 <= digit <= 0x3a,
            chars@.len() == 56 + (digit - 0x30),
            chars@[0] == 0x7e && chars@[1] == 0x2e && chars@[2] == 0x2d && chars@[3] == 0x5f,
            forall|k: int| 0 <= k < 26 ==> #[trigger] chars@[4 + k] == 0x41 + k,
            forall|k: int| 0 <= k < 26 ==> #[trigger] chars@[30 + k] == 0x61 + k,
            forall|k: int| 0 <= k < digit - 0x30 ==> #[trigger] chars@[56 + k] == 0x30 + k,
        decreases 0x3a - digit,
    {
        chars.push(digit);
        digit = digit + 1;
    }
    proof {
        assert forall|i: int| 0 <= i < chars@.len() implies is_unreserved(#[trigger] chars@[i]) by {
            if 4 <= i < 30 {
                assert(chars@[4 + (i - 4)] == 0x41 + (i - 4));
            } else if 30 <= i < 56 {
                assert(chars@[30 + (i - 30)] == 0x61 + (i - 30));
            } else if 56 <= i {
                assert(chars@[56 + (i - 56)] == 0x30 + (i - 56));
            }
        }
        assert forall|b: u8| is_unreserved(b) implies chars@.contains(b) by {
            if 0x41 <= b <= 0x5a {
                assert(chars@[4 + (b - 0x41)] == b);
            } else if 0x61 <= b <= 0x7a {
                assert(chars@[30 + (b - 0x61)] == b);
            } else if 0x30 <= b <= 0x39 {
                assert(chars@[56 + (b - 0x30)] == b);
            } else if b == 0x7e {
                assert(chars@[0] == b);
            } else if b == 0x2e {
                assert(chars@[1] == b);
            } else if b == 0x2d {
                assert(chars@[2] == b);
            } else {
                assert(chars@[3] == b);
            }
        }
    }
    chars
}

/// A fresh code verifier: `MAX_LEN` characters, each drawn from the unreserved
/// characters by the thread's random number generator. It is valid text.
pub fn generate_code_verifier() -> (code: Vec<u8>)
    ensures
        is_code_verifier(code@),
        valid_utf8(code@),
{
    let chars = unreserved_chars();
    let mut rng = rand::thread_rng();
    let mut code: Vec<u8> = Vec::with_capacity(MAX_LEN);
    while code.len() < MAX_LEN
        invariant
            code@.len() <= MAX_LEN,
            chars@.len() == 66,
            forall|i: int| 0 <= i < chars@.len() ==> is_unreserved(#[trigger] chars@[i]),
            forall|i: int| 0 <= i < code@.len() ==> is_unreserved(#[trigger] code@[i]),
        decreases MAX_LEN - code@.len(),
    {
        match choose_one(&chars, &mut rng) {
            Some(b) => {
                code.push(b);
            },
            None => {
                assert(false);
            },
        }
    }
    proof {
        lemma_ascii_is_text(code@);
    }
    code
}

/// The text of a code verifier, as it is sent to the token endpoint. Bytes that
/// are not valid UTF-8 have no text.
pub fn verifier_text(code: Vec<u8>) -> (text: Option<String>)
    ensures
        text is Some <==> valid_utf8(code@),
        text matches Some(s) ==> s@ == decode_utf8(code@),
        is_code_verifier(code@) ==> (text matches Some(s) && s@ == ascii_text(code@)),
{
    proof {
        if is_code_verifier(code@) {
            lemma_ascii_is_text(code@);
        }
    }
    match string_from_utf8(code) {
        Ok(s) => Some(s),
        Err(_) => None,
    }
}

/// The S256 challenge of `input`: the URL-safe unpadded base64 text of its
/// SHA-256 digest. It is `CHALLENGE_LEN` characters of the URL-safe alphabet,
/// whatever the input.
pub fn encode_s256(input: &Vec<u8>) -> (challenge: String)
    ensures
        challenge@ == code_challenge(input@),
        challenge@.len() == CHALLENGE_LEN,
        is_base64_url_text(challenge@),
{
    let digest = sha256_digest(input);
    base64_encode(&digest)
}

/// The S256 challenge of a fresh code verifier.
pub fn gen_s256_code_verifier() -> (challenge: String)
    ensures
        exists|code: Seq<u8>| is_code_verifier(code) && challenge@ == #[trigger] code_challenge(code),
        challenge@.len() == CHALLENGE_LEN,
        is_base64_url_text(challenge@),
{
    let code = generate_code_verifier();
    encode_s256(&code)
}

} // verus!
