use base64::Engine;
use vstd::prelude::*;

use crate::error::CryptoError;

verus! {

#[verifier::external_type_specification]
#[verifier::external_body]
pub struct ExDecodeError(base64::DecodeError);

/// The text that base64's `STANDARD` engine (standard alphabet, with
/// padding) makes of a byte sequence.
pub uninterp spec fn standard_base64_of(b: Seq<u8>) -> Seq<char>;

/// The text that base64's `URL_SAFE_NO_PAD` engine (URL-safe alphabet, no
/// padding) makes of a byte sequence.
pub uninterp spec fn url_base64_of(b: Seq<u8>) -> Seq<char>;

/// A character of base64's standard alphabet (padding aside).
pub open spec fn is_standard_char(c: char) -> bool {
    ||| 'A' <= c <= 'Z'
    ||| 'a' <= c <= 'z'
    ||| '0' <= c <= '9'
    ||| c == '+'
    ||| c == '/'
}

/// A character of base64's URL-safe alphabet.
pub open spec fn is_url_safe_char(c: char) -> bool {
    ||| 'A' <= c <= 'Z'
    ||| 'a' <= c <= 'z'
    ||| '0' <= c <= '9'
    ||| c == '-'
    ||| c == '_'
}

/// How many `=` the padded encoding of `n` bytes ends with.
pub open spec fn standard_padding(n: nat) -> nat {
    if n % 3 == 0 {
        0
    } else {
        (3 - n % 3) as nat
    }
}

/// The shape of the padded encoding of `n` bytes: four characters for every
/// started group of three bytes, the last `standard_padding(n)` of them `=`
/// and all others of the standard alphabet.
pub open spec fn standard_encoding_shape(t: Seq<char>, n: nat) -> bool {
    &&& t.len() == 4 * ((n + 2) / 3)
    &&& forall|i: int|
        0 <= i < t.len() ==> if i < t.len() - standard_padding(n) {
            is_standard_char(#[trigger] t[i])
        } else {
            t[i] == '='
        }
}

/// The shape every padded encoding has: a length that is a multiple of four,
/// standard characters, and at most two `=`, all at the end.
pub open spec fn standard_text_shape(t: Seq<char>) -> bool {
    &&& t.len() % 4 == 0
    &&& forall|i: int|
        0 <= i < t.len() ==> is_standard_char(#[trigger] t[i]) || (t[i] == '=' && i >= t.len() - 2 && (
        forall|j: int| i < j < t.len() ==> t[j] == '='))
}

/// The shape of the unpadded URL-safe encoding of `n` bytes: `(4n + 2) / 3`
/// characters, all of the URL-safe alphabet.
pub open spec fn url_encoding_shape(t: Seq<char>, n: nat) -> bool {
    &&& t.len() == (4 * n + 2) / 3
    &&& forall|i: int| 0 <= i < t.len() ==> is_url_safe_char(#[trigger] t[i])
}

/// The shape every unpadded URL-safe encoding has: URL-safe characters only,
/// and no length that leaves a single character in the last group.
pub open spec fn url_text_shape(t: Seq<char>) -> bool {
    &&& t.len() % 4 != 1
    &&& forall|i: int| 0 <= i < t.len() ==> is_url_safe_char(#[trigger] t[i])
}

/// The two text forms that bytes are given for display.
#[derive(Debug, Clone, Copy, PartialEq, Eq, Structural)]
pub enum B64Format {
    /// Standard alphabet, padded: used for ciphertext records.
    Std,
    /// URL-safe alphabet, unpadded: used for signatures.
    Url,
}

/// The text form of `b` under `format`.
pub open spec fn base64_of(format: B64Format, b: Seq<u8>) -> Seq<char> {
    match format {
        B64Format::Std => standard_base64_of(b),
        B64Format::Url => url_base64_of(b),
    }
}

/// What a strict decoder returns for `text`: the unique bytes whose encoding
/// is `text`, or `MalformedEncoding` when there are none.
pub open spec fn decodes_to(format: B64Format, text: Seq<char>, r: Result<Vec<u8>, CryptoError>) -> bool {
    &&& r matches Ok(v) ==> base64_of(format, v@) == text
    &&& forall|b: Seq<u8>| #[trigger] base64_of(format, b) == text ==> (r matches Ok(v) && v@ == b)
    &&& r matches Err(e) ==> e == CryptoError::MalformedEncoding
}

/// Relies on base64's `STANDARD.encode`, whose output is named
/// `standard_base64_of`: four characters of the standard alphabet per started
/// group of three bytes, the last group padded with `=`. A slice never
/// exceeds `isize::MAX` bytes, so the length computation inside cannot
/// overflow.
#[verifier::external_body]
fn standard_encode(input: &[u8]) -> (r: String)
    ensures
        r@ == standard_base64_of(input@),
        standard_encoding_shape(r@, input@.len()),
{
    base64::engine::general_purpose::STANDARD.encode(input)
}

/// Relies on base64's `STANDARD.decode`. Its configuration asks for canonical
/// padding and refuses non-zero trailing bits, so it accepts exactly the
/// texts that `STANDARD.encode` produces and returns their preimage; text of
/// another length, with a foreign character or misplaced `=` is refused.
#[verifier::external_body]
fn standard_decode(input: &str) -> (r: Result<Vec<u8>, base64::DecodeError>)
    ensures
        r matches Ok(v) ==> standard_base64_of(v@) == input@,
        r matches Ok(v) ==> forall|b: Seq<u8>| #[trigger] standard_base64_of(b) == input@ ==> b == v@,
        r is Err ==> forall|b: Seq<u8>| #[trigger] standard_base64_of(b) != input@,
        !standard_text_shape(input@) ==> r is Err,
{
    base64::engine::general_purpose::STANDARD.decode(input)
}

/// Relies on base64's `URL_SAFE_NO_PAD.encode`, whose output is named
/// `url_base64_of`: URL-safe characters only, two, three or four per group of
/// up to three bytes, with no padding.
#[verifier::external_body]
fn url_safe_encode(input: &[u8]) -> (r: String)
    ensures
        r@ == url_base64_of(input@),
        url_encoding_shape(r@, input@.len()),
{
    base64::engine::general_purpose::URL_SAFE_NO_PAD.encode(input)
}

/// Relies on base64's `URL_SAFE_NO_PAD.decode`. It refuses padding and
/// non-zero trailing bits, so it accepts exactly the texts that
/// `URL_SAFE_NO_PAD.encode` produces and returns their preimage; a foreign
/// character (`=` included) or a lone last character is refused.
#[verifier::external_body]
fn url_safe_decode(input: &str) -> (r: Result<Vec<u8>, base64::DecodeError>)
    ensures
        r matches Ok(v) ==> url_base64_of(v@) == input@,
        r matches Ok(v) ==> forall|b: Seq<u8>| #[trigger] url_base64_of(b) == input@ ==> b == v@,
        r is Err ==> forall|b: Seq<u8>| #[trigger] url_base64_of(b) != input@,
        !url_text_shape(input@) ==> r is Err,
{
    base64::engine::general_purpose::URL_SAFE_NO_PAD.decode(input)
}

/// Encodes bytes in the standard, padded alphabet.
pub fn base64_encode(input: &[u8]) -> (r: String)
    ensures
        r@ == standard_base64_of(input@),
        standard_encoding_shape(r@, input@.len()),
{
    standard_encode(input)
}

/// Decodes text in the standard, padded alphabet, strictly.
pub fn base64_decode(input: &str) -> (r: Result<Vec<u8>, CryptoError>)
    ensures
        decodes_to(B64Format::Std, input@, r),
        !standard_text_shape(input@) ==> r == Err::<Vec<u8>, CryptoError>(CryptoError::MalformedEncoding),
        forall|b: Seq<u8>| #[trigger] standard_base64_of(b) == input@ ==> (r matches Ok(v) && v@ == b),
{
    match standard_decode(input) {
        Ok(v) => Ok(v),
        Err(_) => Err(CryptoError::MalformedEncoding),
    }
}

/// Encodes bytes in the URL-safe alphabet without padding.
pub fn url_encode(input: &[u8]) -> (r: String)
    ensures
        r@ == url_base64_of(input@),
        url_encoding_shape(r@, input@.len()),
{
    url_safe_encode(input)
}

/// Decodes text in the URL-safe alphabet without padding, strictly.
pub fn url_decode(input: &str) -> (r: Result<Vec<u8>, CryptoError>)
    ensures
        decodes_to(B64Format::Url, input@, r),
        !url_text_shape(input@) ==> r == Err::<Vec<u8>, CryptoError>(CryptoError::MalformedEncoding),
        forall|b: Seq<u8>| #[trigger] url_base64_of(b) == input@ ==> (r matches Ok(v) && v@ == b),
{
    match url_safe_decode(input) {
        Ok(v) => Ok(v),
        Err(_) => Err(CryptoError::MalformedEncoding),
    }
}

/// Encodes bytes for display in the given format.
pub fn encode_for_display(input: &[u8], format: B64Format) -> (r: String)
    ensures
        r@ == base64_of(format, input@),
{
    match format {
        B64Format::Std => base64_encode(input),
        B64Format::Url => url_encode(input),
    }
}

/// Decodes displayed text in the given format. Decoding the text that
/// `encode_for_display` made of some bytes gives those bytes back.
pub fn decode_from_display(input: &str, format: B64Format) -> (r: Result<Vec<u8>, CryptoError>)
    ensures
        decodes_to(format, input@, r),
        format == B64Format::Std && !standard_text_shape(input@) ==> r == Err::<Vec<u8>, CryptoError>(
            CryptoError::MalformedEncoding,
        ),
        format == B64Format::Url && !url_text_shape(input@) ==> r == Err::<Vec<u8>, CryptoError>(
            CryptoError::MalformedEncoding,
        ),
        forall|b: Seq<u8>| base64_of(format, b) == input@ ==> (r matches Ok(v) && v@ == b),
{
    match format {
        B64Format::Std => base64_decode(input),
        B64Format::Url => url_decode(input),
    }
}

/// Parses the name of a display format.
pub fn parse_b64format(s: &str) -> (r: Result<B64Format, &'static str>)
    ensures
        s@ == "std"@ ==> r == Ok::<B64Format, &'static str>(B64Format::Std),
        s@ == "url"@ ==> r == Ok::<B64Format, &'static str>(B64Format::Url),
        s@ != "std"@ && s@ != "url"@ ==> r == Err::<B64Format, &'static str>("invalid base64 format"),
{
    proof {
        reveal_strlit("std");
        reveal_strlit("url");
        assert("std"@[0] != "url"@[0]);
    }
    if crate::bytes::str_eq(s, "std") {
        Ok(B64Format::Std)
    } else if crate::bytes::str_eq(s, "url") {
        Ok(B64Format::Url)
    } else {
        Err("invalid base64 format")
    }
}

/// Decoding the text that encoding made of some bytes gives those bytes
/// back, in either format.
pub proof fn lemma_display_round_trip(format: B64Format, b: Seq<u8>, r: Result<Vec<u8>, CryptoError>)
    requires
        decodes_to(format, base64_of(format, b), r),
    ensures
        r is Ok && r->Ok_0@ == b,
{
}

} // verus!
