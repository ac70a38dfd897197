use vstd::prelude::*;

use crate::password::{gen_pass, is_password};
use crate::signing::{ed25519_derive_public, ed25519_generate_secret, generated_pair, TextSignFormat};

verus! {

/// One artifact of generated key material: the file name it is kept under
/// and its raw bytes, with no header.
pub struct KeyFile {
    pub name: &'static str,
    pub bytes: Vec<u8>,
}

/// A 32-byte MAC key, drawn as a password over all character classes and
/// used as raw key material.
pub fn generate_mac_key() -> (r: Vec<u8>)
    ensures
        r@.len() == 32,
        is_password(r@, 32, false, false, false, false),
{
    let pass = gen_pass(32, false, false, false, false);
    match pass {
        Ok(s) => vstd::slice::slice_to_vec(s.as_str().as_bytes()),
        Err(_) => Vec::new(),
    }
}

/// The Ed25519 key pair whose signing half is `secret`.
pub fn keypair_from_secret(secret: [u8; 32]) -> (r: ([u8; 32], [u8; 32]))
    ensures
        r.0@ == secret@,
        generated_pair(r.0@, r.1@),
{
    let public = ed25519_derive_public(&secret);
    (secret, public)
}

/// A fresh Ed25519 key pair: a random signing key and the verifying key
/// derived from it.
pub fn generate_asymmetric_keypair() -> (r: ([u8; 32], [u8; 32]))
    ensures
        generated_pair(r.0@, r.1@),
{
    keypair_from_secret(ed25519_generate_secret())
}

/// Generates the key material of `format` as the files it is kept in: one
/// key for the MAC, two halves for a key pair.
pub fn key_gen(format: TextSignFormat) -> (r: Vec<KeyFile>)
    ensures
        format == TextSignFormat::Blake3 ==> r@.len() == 1 && r@[0].name == "blake3.txt" && r@[0].bytes@.len()
            == 32 && is_password(r@[0].bytes@, 32, false, false, false, false),
        format == TextSignFormat::Ed25519 ==> r@.len() == 2 && r@[0].name == "ed25519.sign" && r@[1].name
            == "ed25519.verify" && generated_pair(r@[0].bytes@, r@[1].bytes@),
{
    let mut files: Vec<KeyFile> = Vec::new();
    match format {
        TextSignFormat::Blake3 => {
            files.push(KeyFile { name: "blake3.txt", bytes: generate_mac_key() });
        },
        TextSignFormat::Ed25519 => {
            let (secret, public) = generate_asymmetric_keypair();
            files.push(KeyFile { name: "ed25519.sign", bytes: vstd::slice::slice_to_vec(secret.as_slice()) });
            files.push(KeyFile { name: "ed25519.verify", bytes: vstd::slice::slice_to_vec(public.as_slice()) });
        },
    }
    files
}

} // verus!
