use vstd::prelude::*;

use crate::encoding::B64Format;

verus! {

/// Encode or decode base64.
pub enum B64SubCommand {
    Encode(B64EncodeOpts),
    Decode(B64DecodeOpts),
}

/// Options of `b64 encode`.
pub struct B64EncodeOpts {
    /// A file name, or `-` for standard input.
    pub input: String,
    pub format: B64Format,
}

/// Options of `b64 decode`.
pub struct B64DecodeOpts {
    /// A file name, or `-` for standard input.
    pub input: String,
    pub format: B64Format,
}

} // verus!
