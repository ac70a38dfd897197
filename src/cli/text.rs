use vstd::prelude::*;

use crate::signing::TextSignFormat;
use vstd::string::StringSliceAdditionalSpecFns;

verus! {

/// Sign, verify, generate keys, encrypt or decrypt.
pub enum TextSubCommand {
    Sign(TextSignOpts),
    Verify(TextVerifyOpts),
    Generate(KeyGenerateOpts),
    Encrypt(TextEncryptOpts),
    Decrypt(TextDecryptOpts),
}

/// Options of `text encrypt`.
pub struct TextEncryptOpts {
    pub input: String,
    pub key: String,
}

/// Options of `text decrypt`.
pub struct TextDecryptOpts {
    pub input: String,
    pub key: String,
}

/// Options of `text sign`.
pub struct TextSignOpts {
    pub input: String,
    pub format: TextSignFormat,
    /// The file that holds the key.
    pub key: String,
}

/// Options of `text verify`.
pub struct TextVerifyOpts {
    pub input: String,
    pub format: TextSignFormat,
    /// The file that holds the key.
    pub key: String,
    pub sig: String,
}

/// Options of `text generate`.
pub struct KeyGenerateOpts {
    pub format: TextSignFormat,
    /// The directory the key files go to.
    pub output_path: String,
}

/// Accepts an encryption key given on the command line: exactly 32 bytes.
pub fn verify_chacha_key(s: &str) -> (r: Result<String, &'static str>)
    ensures
        s.spec_bytes().len() == 32 ==> r is Ok && r->Ok_0@ == s@,
        s.spec_bytes().len() != 32 ==> r == Err::<String, &'static str>("key length must be 32 bytes"),
{
    if s.as_bytes().len() != 32 {
        return Err("key length must be 32 bytes");
    }
    Ok(s.to_owned())
}

} // verus!
