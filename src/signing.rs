use ed25519_dalek::{Signer, Verifier};
use vstd::prelude::*;

use crate::bytes::str_eq;
use crate::encoding::{url_base64_of, url_decode, url_encode, url_encoding_shape, url_text_shape};
use crate::error::CryptoError;

verus! {

#[verifier::external_type_specification]
#[verifier::external_body]
pub struct ExSignatureError(ed25519_dalek::SignatureError);

/// The 32-byte output of `blake3::keyed_hash` under a 32-byte key.
pub uninterp spec fn blake3_keyed_hash(key: Seq<u8>, msg: Seq<u8>) -> Seq<u8>;

/// The 64-byte Ed25519 signature that ed25519-dalek's signing key made from
/// the 32-byte secret `secret` puts on `msg`.
pub uninterp spec fn ed25519_signature(secret: Seq<u8>, msg: Seq<u8>) -> Seq<u8>;

/// The 32-byte verifying key that ed25519-dalek derives from a secret.
pub uninterp spec fn ed25519_public_key(secret: Seq<u8>) -> Seq<u8>;

/// Whether 32 bytes decompress to a curve point, which is what
/// `VerifyingKey::from_bytes` asks of them.
pub uninterp spec fn ed25519_point_decodes(public: Seq<u8>) -> bool;

/// Whether `VerifyingKey::verify` accepts the 64-byte signature `sig` on
/// `msg` under the verifying key `public`.
pub uninterp spec fn ed25519_accepts(public: Seq<u8>, msg: Seq<u8>, sig: Seq<u8>) -> bool;

/// Every signature made with `secret` is 64 bytes long and accepted under
/// `public`.
pub open spec fn signs_for(secret: Seq<u8>, public: Seq<u8>) -> bool {
    forall|m: Seq<u8>|
        #![trigger ed25519_signature(secret, m)]
        ed25519_signature(secret, m).len() == 64 && ed25519_accepts(public, m, ed25519_signature(secret, m))
}

/// A key pair as the key generator hands it out.
pub open spec fn generated_pair(secret: Seq<u8>, public: Seq<u8>) -> bool {
    &&& secret.len() == 32
    &&& public.len() == 32
    &&& public == ed25519_public_key(secret)
    &&& ed25519_point_decodes(public)
    &&& signs_for(secret, public)
}

/// Relies on `blake3::keyed_hash`, whose output is named `blake3_keyed_hash`.
#[verifier::external_body]
fn blake3_mac(key: &[u8; 32], msg: &[u8]) -> (r: [u8; 32])
    ensures
        r@ == blake3_keyed_hash(key@, msg@),
{
    *blake3::keyed_hash(key, msg).as_bytes()
}

/// Relies on ed25519-dalek's `SigningKey::from_bytes` followed by
/// `Signer::sign`, which is deterministic and never fails.
#[verifier::external_body]
fn ed25519_sign(secret: &[u8; 32], msg: &[u8]) -> (r: [u8; 64])
    ensures
        r@ == ed25519_signature(secret@, msg@),
{
    ed25519_dalek::SigningKey::from_bytes(secret).sign(msg).to_bytes()
}

/// Relies on ed25519-dalek's `SigningKey::verifying_key`: the key it derives
/// is a valid point, and every signature the signing key makes (64 bytes,
/// with a reduced scalar) passes `VerifyingKey::verify` under it.
#[verifier::external_body]
pub(crate) fn ed25519_derive_public(secret: &[u8; 32]) -> (r: [u8; 32])
    ensures
        r@ == ed25519_public_key(secret@),
        ed25519_point_decodes(r@),
        signs_for(secret@, r@),
{
    ed25519_dalek::SigningKey::from_bytes(secret).verifying_key().to_bytes()
}

/// Relies on ed25519-dalek's `VerifyingKey::from_bytes`, which fails exactly
/// when the bytes do not decompress to a point, and whose `to_bytes` gives
/// the same bytes back.
#[verifier::external_body]
fn ed25519_parse_public(bytes: &[u8; 32]) -> (r: Result<[u8; 32], ed25519_dalek::SignatureError>)
    ensures
        r is Ok <==> ed25519_point_decodes(bytes@),
        r matches Ok(b) ==> b@ == bytes@,
{
    match ed25519_dalek::VerifyingKey::from_bytes(bytes) {
        Ok(k) => Ok(k.to_bytes()),
        Err(e) => Err(e),
    }
}

/// Relies on `Signature::try_from(&[u8])`, which fails exactly when the slice
/// is not 64 bytes long.
#[verifier::external_body]
fn ed25519_parse_signature(sig: &[u8]) -> (r: Result<[u8; 64], ed25519_dalek::SignatureError>)
    ensures
        r is Ok <==> sig@.len() == 64,
        r matches Ok(b) ==> b@ == sig@,
{
    match ed25519_dalek::Signature::try_from(sig) {
        Ok(s) => Ok(s.to_bytes()),
        Err(e) => Err(e),
    }
}

/// Relies on ed25519-dalek's `Verifier::verify` of a `VerifyingKey`, whose
/// outcome is named `ed25519_accepts`.
#[verifier::external_body]
fn ed25519_verify(public: &[u8; 32], msg: &[u8], sig: &[u8; 64]) -> (r: bool)
    requires
        ed25519_point_decodes(public@),
    ensures
        r == ed25519_accepts(public@, msg@, sig@),
{
    match ed25519_dalek::VerifyingKey::from_bytes(public) {
        Ok(k) => k.verify(msg, &ed25519_dalek::Signature::from_bytes(sig)).is_ok(),
        Err(_) => false,
    }
}

/// Relies on ed25519-dalek's `SigningKey::generate` with the operating
/// system's generator; nothing is known of the secret it draws.
#[verifier::external_body]
pub(crate) fn ed25519_generate_secret() -> (r: [u8; 32]) {
    ed25519_dalek::SigningKey::generate(&mut rand::rngs::OsRng).to_bytes()
}

/// The first 32 bytes of `key`.
fn leading_key(key: &[u8]) -> (r: [u8; 32])
    requires
        key@.len() >= 32,
    ensures
        r@ == key@.subrange(0, 32),
{
    let mut out = [0u8; 32];
    for i in 0..32
        invariant
            key@.len() >= 32,
            forall|j: int| 0 <= j < i ==> out@[j] == key@[j],
    {
        out[i] = key[i];
    }
    assert(out@ =~= key@.subrange(0, 32));
    out
}

/// The algorithms that sign and verify text.
#[derive(Debug, Clone, Copy, PartialEq, Eq, Structural)]
pub enum TextSignFormat {
    /// A keyed BLAKE3 hash under a shared 32-byte key.
    Blake3,
    /// An Ed25519 signature under a key pair.
    Ed25519,
}

impl TextSignFormat {
    /// The name under which the format is chosen.
    pub fn as_str(&self) -> (r: &'static str)
        ensures
            *self == TextSignFormat::Blake3 ==> r == "blake3",
            *self == TextSignFormat::Ed25519 ==> r == "ed25519",
    {
        match self {
            TextSignFormat::Blake3 => "blake3",
            TextSignFormat::Ed25519 => "ed25519",
        }
    }
}

/// Parses the name of a signing format.
pub fn parse_format(s: &str) -> (r: Result<TextSignFormat, &'static str>)
    ensures
        s@ == "blake3"@ ==> r == Ok::<TextSignFormat, &'static str>(TextSignFormat::Blake3),
        s@ == "ed25519"@ ==> r == Ok::<TextSignFormat, &'static str>(TextSignFormat::Ed25519),
        s@ != "blake3"@ && s@ != "ed25519"@ ==> r == Err::<TextSignFormat, &'static str>("invalid format"),
{
    proof {
        reveal_strlit("blake3");
        reveal_strlit("ed25519");
        assert("blake3"@[0] != "ed25519"@[0]);
    }
    if str_eq(s, "blake3") {
        Ok(TextSignFormat::Blake3)
    } else if str_eq(s, "ed25519") {
        Ok(TextSignFormat::Ed25519)
    } else {
        Err("invalid format")
    }
}

/// What signing `msg` with `key` under `format` gives, in bytes.
pub open spec fn signature_bytes(format: TextSignFormat, key: Seq<u8>, msg: Seq<u8>) -> Result<Seq<u8>, CryptoError> {
    if key.len() < 32 {
        Err(CryptoError::InvalidKey)
    } else {
        match format {
            TextSignFormat::Blake3 => Ok(blake3_keyed_hash(key.subrange(0, 32), msg)),
            TextSignFormat::Ed25519 => Ok(ed25519_signature(key.subrange(0, 32), msg)),
        }
    }
}

/// What verifying the signature bytes `sig` on `msg` with `key` under
/// `format` gives: a verdict, or the reason the inputs cannot be checked.
pub open spec fn verification_outcome(
    format: TextSignFormat,
    key: Seq<u8>,
    msg: Seq<u8>,
    sig: Seq<u8>,
) -> Result<bool, CryptoError> {
    if key.len() < 32 {
        Err(CryptoError::InvalidKey)
    } else {
        let k = key.subrange(0, 32);
        match format {
            TextSignFormat::Blake3 => Ok(blake3_keyed_hash(k, msg) == sig),
            TextSignFormat::Ed25519 => {
                if !ed25519_point_decodes(k) {
                    Err(CryptoError::InvalidKey)
                } else if sig.len() != 64 {
                    Err(CryptoError::InvalidSignature)
                } else {
                    Ok(ed25519_accepts(k, msg, sig))
                }
            },
        }
    }
}

/// Produces a signature over a whole message.
pub trait TextSign: View<V = Seq<u8>> {
    /// The signature this signer puts on `msg`.
    spec fn signature_for(&self, msg: Seq<u8>) -> Seq<u8>;

    /// The fixed length of this signer's signatures.
    spec fn signature_len(&self) -> nat;

    fn sign(&self, msg: &[u8]) -> (r: Vec<u8>)
        ensures
            r@ == self.signature_for(msg@),
            r@.len() == self.signature_len(),
    ;
}

/// Checks a signature over a whole message.
pub trait TextVerify: View<V = Seq<u8>> {
    /// The verdict on `sig` over `msg`, or why it cannot be given.
    spec fn verdict(&self, msg: Seq<u8>, sig: Seq<u8>) -> Result<bool, CryptoError>;

    fn verify(&self, msg: &[u8], sig: &[u8]) -> (r: Result<bool, CryptoError>)
        ensures
            r == self.verdict(msg@, sig@),
    ;
}

/// Signs with a keyed BLAKE3 hash.
pub struct Blake3Signer {
    key: [u8; 32],
}

impl View for Blake3Signer {
    type V = Seq<u8>;

    closed spec fn view(&self) -> Seq<u8> {
        self.key@
    }
}

impl Blake3Signer {
    pub fn new(key: [u8; 32]) -> (r: Self)
        ensures
            r@ == key@,
    {
        Blake3Signer { key }
    }

    /// Takes the first 32 bytes of `key`; a shorter key is refused.
    pub fn try_new(key: &[u8]) -> (r: Result<Self, CryptoError>)
        ensures
            key@.len() < 32 ==> r is Err && r->Err_0 == CryptoError::InvalidKey,
            key@.len() >= 32 ==> r is Ok && r->Ok_0@ == key@.subrange(0, 32),
    {
        if key.len() < 32 {
            return Err(CryptoError::InvalidKey);
        }
        Ok(Self::new(leading_key(key)))
    }
}

impl TextSign for Blake3Signer {
    open spec fn signature_for(&self, msg: Seq<u8>) -> Seq<u8> {
        blake3_keyed_hash(self@, msg)
    }

    open spec fn signature_len(&self) -> nat {
        32
    }

    fn sign(&self, msg: &[u8]) -> (r: Vec<u8>) {
        let hash = blake3_mac(&self.key, msg);
        vstd::slice::slice_to_vec(hash.as_slice())
    }
}

/// Checks a keyed BLAKE3 hash.
pub struct Blake3Verifier {
    key: [u8; 32],
}

impl View for Blake3Verifier {
    type V = Seq<u8>;

    closed spec fn view(&self) -> Seq<u8> {
        self.key@
    }
}

impl Blake3Verifier {
    pub fn new(key: [u8; 32]) -> (r: Self)
        ensures
            r@ == key@,
    {
        Blake3Verifier { key }
    }

    /// Takes the first 32 bytes of `key`; a shorter key is refused.
    pub fn try_new(key: &[u8]) -> (r: Result<Self, CryptoError>)
        ensures
            key@.len() < 32 ==> r is Err && r->Err_0 == CryptoError::InvalidKey,
            key@.len() >= 32 ==> r is Ok && r->Ok_0@ == key@.subrange(0, 32),
    {
        if key.len() < 32 {
            return Err(CryptoError::InvalidKey);
        }
        Ok(Self::new(leading_key(key)))
    }
}

impl TextVerify for Blake3Verifier {
    open spec fn verdict(&self, msg: Seq<u8>, sig: Seq<u8>) -> Result<bool, CryptoError> {
        Ok(blake3_keyed_hash(self@, msg) == sig)
    }

    /// The comparison looks at every byte, whatever the contents. The keyed
    /// hash is 32 bytes long, so a signature of any other length is refused.
    fn verify(&self, msg: &[u8], sig: &[u8]) -> (r: Result<bool, CryptoError>)
        ensures
            blake3_keyed_hash(self@, msg@).len() == 32,
            sig@.len() != 32 ==> r == Ok::<bool, CryptoError>(false),
    {
        let hash = blake3_mac(&self.key, msg);
        Ok(crate::bytes::bytes_eq(hash.as_slice(), sig))
    }
}

/// Signs with Ed25519.
pub struct Ed25519Signer {
    key: [u8; 32],
}

impl View for Ed25519Signer {
    type V = Seq<u8>;

    closed spec fn view(&self) -> Seq<u8> {
        self.key@
    }
}

impl Ed25519Signer {
    /// Takes the 32-byte secret of an Ed25519 signing key.
    pub fn new(key: [u8; 32]) -> (r: Self)
        ensures
            r@ == key@,
    {
        Ed25519Signer { key }
    }

    /// Takes the first 32 bytes of `key`; a shorter key is refused.
    pub fn try_new(key: &[u8]) -> (r: Result<Self, CryptoError>)
        ensures
            key@.len() < 32 ==> r is Err && r->Err_0 == CryptoError::InvalidKey,
            key@.len() >= 32 ==> r is Ok && r->Ok_0@ == key@.subrange(0, 32),
    {
        if key.len() < 32 {
            return Err(CryptoError::InvalidKey);
        }
        Ok(Self::new(leading_key(key)))
    }
}

impl TextSign for Ed25519Signer {
    open spec fn signature_for(&self, msg: Seq<u8>) -> Seq<u8> {
        ed25519_signature(self@, msg)
    }

    open spec fn signature_len(&self) -> nat {
        64
    }

    fn sign(&self, msg: &[u8]) -> (r: Vec<u8>) {
        let sig = ed25519_sign(&self.key, msg);
        vstd::slice::slice_to_vec(sig.as_slice())
    }
}

/// Checks Ed25519 signatures under a verifying key that is a valid point.
pub struct Ed25519Verifier {
    key: [u8; 32],
}

impl View for Ed25519Verifier {
    type V = Seq<u8>;

    closed spec fn view(&self) -> Seq<u8> {
        self.key@
    }
}

impl Ed25519Verifier {
    #[verifier::type_invariant]
    spec fn well_formed(self) -> bool {
        ed25519_point_decodes(self.key@)
    }

    /// Takes the first 32 bytes of `key`; a shorter key, or one that is not
    /// a curve point, is refused.
    pub fn try_new(key: &[u8]) -> (r: Result<Self, CryptoError>)
        ensures
            key@.len() < 32 ==> r is Err && r->Err_0 == CryptoError::InvalidKey,
            key@.len() >= 32 && !ed25519_point_decodes(key@.subrange(0, 32)) ==> r is Err && r->Err_0
                == CryptoError::InvalidKey,
            key@.len() >= 32 && ed25519_point_decodes(key@.subrange(0, 32)) ==> r is Ok && r->Ok_0@
                == key@.subrange(0, 32),
    {
        if key.len() < 32 {
            return Err(CryptoError::InvalidKey);
        }
        let bytes = leading_key(key);
        match ed25519_parse_public(&bytes) {
            Ok(k) => Ok(Ed25519Verifier { key: k }),
            Err(_) => Err(CryptoError::InvalidKey),
        }
    }
}

impl TextVerify for Ed25519Verifier {
    open spec fn verdict(&self, msg: Seq<u8>, sig: Seq<u8>) -> Result<bool, CryptoError> {
        if sig.len() != 64 {
            Err(CryptoError::InvalidSignature)
        } else {
            Ok(ed25519_accepts(self@, msg, sig))
        }
    }

    /// A signature that is not 64 bytes long cannot be parsed, which is an
    /// error rather than a `false`.
    fn verify(&self, msg: &[u8], sig: &[u8]) -> (r: Result<bool, CryptoError>) {
        proof {
            use_type_invariant(self);
        }
        match ed25519_parse_signature(sig) {
            Ok(s) => Ok(ed25519_verify(&self.key, msg, &s)),
            Err(_) => Err(CryptoError::InvalidSignature),
        }
    }
}

/// A signer for one of the closed set of formats.
pub enum TextSigner {
    Blake3(Blake3Signer),
    Ed25519(Ed25519Signer),
}

impl View for TextSigner {
    type V = Seq<u8>;

    open spec fn view(&self) -> Seq<u8> {
        match self {
            TextSigner::Blake3(s) => s@,
            TextSigner::Ed25519(s) => s@,
        }
    }
}

impl TextSigner {
    /// The format this signer serves.
    pub open spec fn format(&self) -> TextSignFormat {
        match self {
            TextSigner::Blake3(_) => TextSignFormat::Blake3,
            TextSigner::Ed25519(_) => TextSignFormat::Ed25519,
        }
    }

    /// Builds the signer of `format` from raw key bytes.
    pub fn try_new(format: TextSignFormat, key: &[u8]) -> (r: Result<Self, CryptoError>)
        ensures
            key@.len() < 32 ==> r is Err && r->Err_0 == CryptoError::InvalidKey,
            key@.len() >= 32 ==> r is Ok && r->Ok_0.format() == format && r->Ok_0@ == key@.subrange(0, 32),
    {
        match format {
            TextSignFormat::Blake3 => match Blake3Signer::try_new(key) {
                Ok(s) => Ok(TextSigner::Blake3(s)),
                Err(e) => Err(e),
            },
            TextSignFormat::Ed25519 => match Ed25519Signer::try_new(key) {
                Ok(s) => Ok(TextSigner::Ed25519(s)),
                Err(e) => Err(e),
            },
        }
    }
}

impl TextSign for TextSigner {
    open spec fn signature_for(&self, msg: Seq<u8>) -> Seq<u8> {
        match self {
            TextSigner::Blake3(s) => s.signature_for(msg),
            TextSigner::Ed25519(s) => s.signature_for(msg),
        }
    }

    open spec fn signature_len(&self) -> nat {
        match self {
            TextSigner::Blake3(s) => s.signature_len(),
            TextSigner::Ed25519(s) => s.signature_len(),
        }
    }

    fn sign(&self, msg: &[u8]) -> (r: Vec<u8>) {
        match self {
            TextSigner::Blake3(s) => s.sign(msg),
            TextSigner::Ed25519(s) => s.sign(msg),
        }
    }
}

/// A verifier for one of the closed set of formats.
pub enum TextVerifier {
    Blake3(Blake3Verifier),
    Ed25519(Ed25519Verifier),
}

impl View for TextVerifier {
    type V = Seq<u8>;

    open spec fn view(&self) -> Seq<u8> {
        match self {
            TextVerifier::Blake3(v) => v@,
            TextVerifier::Ed25519(v) => v@,
        }
    }
}

impl TextVerifier {
    /// The format this verifier serves.
    pub open spec fn format(&self) -> TextSignFormat {
        match self {
            TextVerifier::Blake3(_) => TextSignFormat::Blake3,
            TextVerifier::Ed25519(_) => TextSignFormat::Ed25519,
        }
    }

    /// Builds the verifier of `format` from raw key bytes.
    pub fn try_new(format: TextSignFormat, key: &[u8]) -> (r: Result<Self, CryptoError>)
        ensures
            r matches Ok(v) ==> v.format() == format && v@ == key@.subrange(0, 32),
            r matches Err(e) ==> e == CryptoError::InvalidKey,
            r is Err <==> (key@.len() < 32 || (format == TextSignFormat::Ed25519
                && !ed25519_point_decodes(key@.subrange(0, 32)))),
    {
        match format {
            TextSignFormat::Blake3 => match Blake3Verifier::try_new(key) {
                Ok(v) => Ok(TextVerifier::Blake3(v)),
                Err(e) => Err(e),
            },
            TextSignFormat::Ed25519 => match Ed25519Verifier::try_new(key) {
                Ok(v) => Ok(TextVerifier::Ed25519(v)),
                Err(e) => Err(e),
            },
        }
    }
}

impl TextVerify for TextVerifier {
    open spec fn verdict(&self, msg: Seq<u8>, sig: Seq<u8>) -> Result<bool, CryptoError> {
        match self {
            TextVerifier::Blake3(v) => v.verdict(msg, sig),
            TextVerifier::Ed25519(v) => v.verdict(msg, sig),
        }
    }

    fn verify(&self, msg: &[u8], sig: &[u8]) -> (r: Result<bool, CryptoError>)
        ensures
            self.format() == TextSignFormat::Blake3 && sig@.len() != 32 ==> r == Ok::<bool, CryptoError>(
                false,
            ),
    {
        match self {
            TextVerifier::Blake3(v) => v.verify(msg, sig),
            TextVerifier::Ed25519(v) => v.verify(msg, sig),
        }
    }
}

/// Signs a whole message with raw key bytes and returns the signature in
/// URL-safe, unpadded base64.
pub fn text_sign(format: TextSignFormat, msg: &[u8], key: &[u8]) -> (r: Result<String, CryptoError>)
    ensures
        signature_bytes(format, key@, msg@) matches Ok(sig) ==> r is Ok && r->Ok_0@ == url_base64_of(sig),
        signature_bytes(format, key@, msg@) matches Err(e) ==> r is Err && r->Err_0 == e,
        format == TextSignFormat::Blake3 && r is Ok ==> r->Ok_0@.len() == 43 && url_encoding_shape(
            r->Ok_0@,
            32,
        ),
        format == TextSignFormat::Ed25519 && r is Ok ==> r->Ok_0@.len() == 86 && url_encoding_shape(
            r->Ok_0@,
            64,
        ),
{
    let signer = match TextSigner::try_new(format, key) {
        Ok(s) => s,
        Err(e) => return Err(e),
    };
    let sig = signer.sign(msg);
    Ok(url_encode(sig.as_slice()))
}

/// Checks a URL-safe base64 signature over a whole message with raw key
/// bytes. Text that is no such encoding is `MalformedEncoding`; otherwise the
/// outcome is that of the decoded bytes.
pub fn text_verify(format: TextSignFormat, msg: &[u8], key: &[u8], sig: &str) -> (r: Result<bool, CryptoError>)
    ensures
        (forall|b: Seq<u8>| url_base64_of(b) != sig@) ==> r is Err && r->Err_0 == CryptoError::MalformedEncoding,
        !url_text_shape(sig@) ==> r == Err::<bool, CryptoError>(CryptoError::MalformedEncoding),
        forall|b: Seq<u8>| url_base64_of(b) == sig@ ==> r == verification_outcome(format, key@, msg@, b),
        forall|b: Seq<u8>|
            url_base64_of(b) == sig@ && format == TextSignFormat::Blake3 && key@.len() >= 32 && b.len()
                != 32 ==> r == Ok::<bool, CryptoError>(false),
{
    let sig = match url_decode(sig) {
        Ok(s) => s,
        Err(e) => return Err(e),
    };
    let verifier = match TextVerifier::try_new(format, key) {
        Ok(v) => v,
        Err(e) => return Err(e),
    };
    verifier.verify(msg, sig.as_slice())
}

/// A MAC signature verifies under the key that made it.
pub proof fn lemma_mac_sign_then_verify(key: Seq<u8>, msg: Seq<u8>)
    requires
        key.len() == 32,
    ensures
        signature_bytes(TextSignFormat::Blake3, key, msg) is Ok,
        verification_outcome(
            TextSignFormat::Blake3,
            key,
            msg,
            signature_bytes(TextSignFormat::Blake3, key, msg)->Ok_0,
        ) == Ok::<bool, CryptoError>(true),
{
}

/// A MAC signature made over one message, checked against another, is
/// accepted exactly when the two messages have the same keyed hash; it is
/// never an error.
pub proof fn lemma_mac_verdict_on_other_message(key: Seq<u8>, msg: Seq<u8>, other: Seq<u8>)
    requires
        key.len() == 32,
    ensures
        signature_bytes(TextSignFormat::Blake3, key, other) is Ok,
        verification_outcome(
            TextSignFormat::Blake3,
            key,
            msg,
            signature_bytes(TextSignFormat::Blake3, key, other)->Ok_0,
        ) == Ok::<bool, CryptoError>(
            blake3_keyed_hash(key.subrange(0, 32), msg) == blake3_keyed_hash(key.subrange(0, 32), other),
        ),
{
}

/// Every message signed with the secret half of a generated key pair
/// verifies under its public half.
pub proof fn lemma_generated_pair_verifies(secret: Seq<u8>, public: Seq<u8>, msg: Seq<u8>)
    requires
        generated_pair(secret, public),
    ensures
        signature_bytes(TextSignFormat::Ed25519, secret, msg) is Ok,
        verification_outcome(
            TextSignFormat::Ed25519,
            public,
            msg,
            signature_bytes(TextSignFormat::Ed25519, secret, msg)->Ok_0,
        ) == Ok::<bool, CryptoError>(true),
{
    assert(secret.subrange(0, 32) =~= secret);
    assert(public.subrange(0, 32) =~= public);
    assert(ed25519_signature(secret, msg).len() == 64);
}

} // verus!
