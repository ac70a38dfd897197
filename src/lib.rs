//! Signing, verification and authenticated encryption of byte streams, with
//! the key material and text encodings they need, and the command-line
//! options of the tool built on them.

mod aead;
mod bytes;
mod cli;
mod encoding;
mod error;
mod jwt;
mod keygen;
mod password;
mod signing;

pub use aead::{
    chacha20poly1305_seal, data_decrypt, data_encrypt, decrypts_to, lemma_aead_round_trip,
    sealed_record, ChaCha, DataDecrypt, DataEncrypt, MAX_PLAINTEXT_LEN,
};
pub use bytes::{bytes_eq, str_eq};
pub use cli::{
    check_dir, check_file, check_input_file, directory_listing, duration_seconds, listing_entries,
    listing_entry, output_path, parse_duration,
    parse_jwt_alg, parse_output_format, verify_chacha_key, verify_file, verify_input_file,
    verify_path, B64DecodeOpts, B64EncodeOpts, B64SubCommand, CsvOpts, HttpOpts, HttpServeOpts,
    HttpSubCommand, JwtAlg, JwtEncodeOpts, JwtSubCommand, JwtVerifyOpts, KeyGenerateOpts, Opts,
    OutputFormat, PassOpts, SubCommand, TextDecryptOpts, TextEncryptOpts, TextSignOpts,
    TextSubCommand, TextVerifyOpts,
};
pub use encoding::{
    base64_decode, base64_encode, base64_of, decode_from_display, decodes_to, encode_for_display,
    lemma_display_round_trip, parse_b64format, standard_base64_of, url_base64_of, url_decode,
    url_encode, B64Format,
};
pub use error::CryptoError;
pub use jwt::JwtClaims;
pub use keygen::{
    generate_asymmetric_keypair, generate_mac_key, key_gen, keypair_from_secret, KeyFile,
};
pub use password::{gen_pass, is_password};
pub use signing::{
    blake3_keyed_hash, ed25519_accepts, ed25519_point_decodes, ed25519_public_key,
    ed25519_signature, generated_pair, lemma_generated_pair_verifies, lemma_mac_sign_then_verify,
    lemma_mac_verdict_on_other_message, parse_format, signature_bytes, signs_for, text_sign,
    text_verify, verification_outcome, Blake3Signer, Blake3Verifier, Ed25519Signer,
    Ed25519Verifier, TextSign, TextSignFormat, TextSigner, TextVerifier, TextVerify,
};
