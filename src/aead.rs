use chacha20poly1305::aead::{Aead, AeadCore, KeyInit};
use vstd::prelude::*;

use crate::encoding::{base64_decode, standard_base64_of, standard_text_shape};
use crate::error::CryptoError;

verus! {

#[verifier::external_type_specification]
#[verifier::external_body]
pub struct ExAeadError(chacha20poly1305::Error);

/// What ChaCha20-Poly1305 under `key` and `nonce`, with no associated data,
/// makes of a plaintext: the ciphertext followed by the 16-byte tag.
pub uninterp spec fn chacha20poly1305_seal(key: Seq<u8>, nonce: Seq<u8>, plaintext: Seq<u8>) -> Seq<u8>;

/// The longest plaintext the cipher takes: the ChaCha20 keystream starts at
/// block 1 (block 0 makes the Poly1305 key), and its 32-bit block counter
/// leaves `u32::MAX - 1` blocks of 64 bytes.
pub const MAX_PLAINTEXT_LEN: u64 = 274877906816;

/// An encrypted record: the nonce followed by the sealed plaintext.
pub open spec fn sealed_record(key: Seq<u8>, nonce: Seq<u8>, plaintext: Seq<u8>) -> Seq<u8> {
    nonce + chacha20poly1305_seal(key, nonce, plaintext)
}

/// What decrypting `record` under `key` must give. A record shorter than a
/// nonce and a tag, or longer than any sealing the cipher can make, fails; a
/// record that is the sealing of a plaintext under its own nonce gives that
/// plaintext back; anything else fails closed.
pub open spec fn decrypts_to(key: Seq<u8>, record: Seq<u8>, r: Result<Vec<u8>, CryptoError>) -> bool {
    &&& record.len() < 28 ==> r is Err
    &&& record.len() > MAX_PLAINTEXT_LEN + 28 ==> r is Err
    &&& r matches Ok(p) ==> p@.len() <= MAX_PLAINTEXT_LEN && record == sealed_record(
        key,
        record.subrange(0, 12),
        p@,
    )
    &&& forall|nonce: Seq<u8>, p: Seq<u8>|
        nonce.len() == 12 && p.len() <= MAX_PLAINTEXT_LEN && 28 <= record.len() <= MAX_PLAINTEXT_LEN + 28
            && #[trigger] sealed_record(key, nonce, p) == record ==> (r matches Ok(q) && q@ == p)
    &&& r matches Err(e) ==> e == CryptoError::AuthenticationFailed
}

/// Relies on ChaCha20-Poly1305's `KeyInit::new` and `Aead::encrypt`, which
/// append a 16-byte tag. A plaintext longer than `MAX_PLAINTEXT_LEN` would
/// run the keystream out (an error or a panic); `requires` leaves it out.
#[verifier::external_body]
fn chacha_seal(key: &[u8; 32], nonce: &[u8; 12], data: &[u8]) -> (r: Result<Vec<u8>, chacha20poly1305::Error>)
    requires
        data@.len() <= MAX_PLAINTEXT_LEN,
    ensures
        r is Ok,
        r matches Ok(c) ==> c@ == chacha20poly1305_seal(key@, nonce@, data@),
        r matches Ok(c) ==> c@.len() == data@.len() + 16,
{
    chacha20poly1305::ChaCha20Poly1305::new(key.into()).encrypt(nonce.into(), data)
}

/// Relies on ChaCha20-Poly1305's `KeyInit::new` and `Aead::decrypt`: the tag
/// is a function of key, nonce and ciphertext, so it succeeds exactly when
/// `ct` is the sealing of a plaintext, and then returns that plaintext. A
/// ciphertext longer than the longest sealing would run the keystream out
/// and panic; `requires` leaves it out.
#[verifier::external_body]
fn chacha_open(key: &[u8; 32], nonce: &[u8; 12], ct: &[u8]) -> (r: Result<Vec<u8>, chacha20poly1305::Error>)
    requires
        ct@.len() <= MAX_PLAINTEXT_LEN + 16,
    ensures
        r matches Ok(p) ==> p@.len() <= MAX_PLAINTEXT_LEN && ct@ == chacha20poly1305_seal(key@, nonce@, p@),
        r matches Ok(p) ==> forall|q: Seq<u8>|
            q.len() <= MAX_PLAINTEXT_LEN && #[trigger] chacha20poly1305_seal(key@, nonce@, q) == ct@ ==> q == p@,
        r is Err ==> forall|q: Seq<u8>|
            q.len() <= MAX_PLAINTEXT_LEN ==> #[trigger] chacha20poly1305_seal(key@, nonce@, q) != ct@,
{
    chacha20poly1305::ChaCha20Poly1305::new(key.into()).decrypt(nonce.into(), ct)
}

/// Relies on `AeadCore::generate_nonce` with the operating system's
/// generator; nothing is known of the nonce it draws.
#[verifier::external_body]
fn fresh_nonce() -> (r: [u8; 12]) {
    chacha20poly1305::ChaCha20Poly1305::generate_nonce(&mut rand::rngs::OsRng).into()
}

/// Encrypts a whole message into a record.
pub trait DataEncrypt: View<V = Seq<u8>> {
    /// The record holds a fresh random nonce, then the sealed message. Nonces
    /// are not tracked: a key is meant for few encryptions.
    fn data_encrypt(&self, data: &[u8]) -> (r: Vec<u8>)
        requires
            data@.len() <= MAX_PLAINTEXT_LEN,
        ensures
            r@.len() == data@.len() + 28,
            r@ == sealed_record(self@, r@.subrange(0, 12), data@),
    ;
}

/// Decrypts a record made by `DataEncrypt`.
pub trait DataDecrypt: View<V = Seq<u8>> {
    fn data_decrypt(&self, record: &[u8]) -> (r: Result<Vec<u8>, CryptoError>)
        ensures
            decrypts_to(self@, record@, r),
    ;
}

/// ChaCha20-Poly1305 under a 32-byte key.
pub struct ChaCha {
    key: [u8; 32],
}

impl View for ChaCha {
    type V = Seq<u8>;

    closed spec fn view(&self) -> Seq<u8> {
        self.key@
    }
}

impl ChaCha {
    /// The key must be exactly 32 bytes long.
    pub fn try_new(key: &[u8]) -> (r: Result<Self, CryptoError>)
        ensures
            key@.len() == 32 ==> r is Ok && r->Ok_0@ == key@,
            key@.len() != 32 ==> r is Err && r->Err_0 == CryptoError::InvalidKey,
    {
        if key.len() != 32 {
            return Err(CryptoError::InvalidKey);
        }
        let mut k = [0u8; 32];
        for i in 0..32
            invariant
                key@.len() == 32,
                forall|j: int| 0 <= j < i ==> k@[j] == key@[j],
        {
            k[i] = key[i];
        }
        assert(k@ =~= key@);
        Ok(ChaCha { key: k })
    }

    /// Seals `data` under the given nonce and puts the nonce in front.
    pub fn encrypt_with_nonce(&self, nonce: &[u8; 12], data: &[u8]) -> (r: Vec<u8>)
        requires
            data@.len() <= MAX_PLAINTEXT_LEN,
        ensures
            r@ == sealed_record(self@, nonce@, data@),
            r@.len() == data@.len() + 28,
    {
        let mut buf = vstd::slice::slice_to_vec(nonce.as_slice());
        let mut sealed = match chacha_seal(&self.key, nonce, data) {
            Ok(c) => c,
            Err(_) => Vec::new(),
        };
        buf.append(&mut sealed);
        buf
    }
}

impl DataEncrypt for ChaCha {
    fn data_encrypt(&self, data: &[u8]) -> (r: Vec<u8>) {
        let nonce = fresh_nonce();
        let r = self.encrypt_with_nonce(&nonce, data);
        assert(r@.subrange(0, 12) =~= nonce@);
        r
    }
}

impl DataDecrypt for ChaCha {
    /// Fails closed: no plaintext comes out unless the tag matches.
    fn data_decrypt(&self, record: &[u8]) -> (r: Result<Vec<u8>, CryptoError>) {
        if record.len() < 28 || record.len() as u64 > MAX_PLAINTEXT_LEN + 28 {
            return Err(CryptoError::AuthenticationFailed);
        }
        let mut nonce = [0u8; 12];
        for i in 0..12
            invariant
                28 <= record@.len() <= MAX_PLAINTEXT_LEN + 28,
                forall|j: int| 0 <= j < i ==> nonce@[j] == record@[j],
        {
            nonce[i] = record[i];
        }
        assert(nonce@ =~= record@.subrange(0, 12));
        let ct = vstd::slice::slice_subrange(record, 12, record.len());
        let r = match chacha_open(&self.key, &nonce, ct) {
            Ok(p) => Ok(p),
            Err(_) => Err(CryptoError::AuthenticationFailed),
        };
        proof {
            assert forall|n: Seq<u8>, p: Seq<u8>|
                n.len() == 12 && p.len() <= MAX_PLAINTEXT_LEN && 28 <= record@.len() <= MAX_PLAINTEXT_LEN
                    + 28 && #[trigger] sealed_record(self@, n, p) == record@ implies (r matches Ok(q) && q@ == p) by {
                let s = chacha20poly1305_seal(self@, n, p);
                assert(record@.subrange(0, 12) =~= (n + s).subrange(0, 12));
                assert(record@.subrange(12, record@.len() as int) =~= (n + s).subrange(12, record@.len() as int));
                assert((n + s).subrange(0, 12) =~= n);
                assert((n + s).subrange(12, record@.len() as int) =~= s);
            }
            if r is Ok {
                assert(record@ =~= record@.subrange(0, 12) + record@.subrange(12, record@.len() as int));
            }
        }
        r
    }
}

/// Encrypts a whole message under a 32-byte key.
pub fn data_encrypt(data: &[u8], key: &[u8]) -> (r: Result<Vec<u8>, CryptoError>)
    requires
        data@.len() <= MAX_PLAINTEXT_LEN,
    ensures
        key@.len() != 32 ==> r is Err && r->Err_0 == CryptoError::InvalidKey,
        key@.len() == 32 ==> r is Ok && r->Ok_0@.len() == data@.len() + 28
            && r->Ok_0@ == sealed_record(key@, r->Ok_0@.subrange(0, 12), data@),
{
    let chacha = match ChaCha::try_new(key) {
        Ok(c) => c,
        Err(e) => return Err(e),
    };
    Ok(chacha.data_encrypt(data))
}

/// Decrypts a record given as standard, padded base64 text under a 32-byte
/// key. Text that is no such encoding is `MalformedEncoding`; a key of the
/// wrong length is `InvalidKey`; otherwise the record is decrypted.
pub fn data_decrypt(text: &str, key: &[u8]) -> (r: Result<Vec<u8>, CryptoError>)
    ensures
        (forall|b: Seq<u8>| standard_base64_of(b) != text@) ==> r is Err && r->Err_0
            == CryptoError::MalformedEncoding,
        !standard_text_shape(text@) ==> r == Err::<Vec<u8>, CryptoError>(CryptoError::MalformedEncoding),
        (exists|b: Seq<u8>| standard_base64_of(b) == text@) && key@.len() != 32 ==> r is Err && r->Err_0
            == CryptoError::InvalidKey,
        forall|b: Seq<u8>|
            #![trigger standard_base64_of(b)]
            standard_base64_of(b) == text@ && key@.len() == 32 ==> decrypts_to(key@, b, r),
{
    let record = match base64_decode(text) {
        Ok(v) => v,
        Err(e) => return Err(e),
    };
    let chacha = match ChaCha::try_new(key) {
        Ok(c) => c,
        Err(e) => return Err(e),
    };
    chacha.data_decrypt(record.as_slice())
}

/// Decrypting, under the same key, a record that encryption made gives the
/// plaintext back.
pub proof fn lemma_aead_round_trip(
    key: Seq<u8>,
    nonce: Seq<u8>,
    plaintext: Seq<u8>,
    r: Result<Vec<u8>, CryptoError>,
)
    requires
        nonce.len() == 12,
        plaintext.len() <= MAX_PLAINTEXT_LEN,
        sealed_record(key, nonce, plaintext).len() == plaintext.len() + 28,
        decrypts_to(key, sealed_record(key, nonce, plaintext), r),
    ensures
        r is Ok && r->Ok_0@ == plaintext,
{
}

} // verus!
