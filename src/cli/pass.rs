use vstd::prelude::*;

verus! {

/// Options of `pass`.
pub struct PassOpts {
    pub length: u8,
    pub no_upper: bool,
    pub no_lower: bool,
    pub no_number: bool,
    pub no_symbol: bool,
}

} // verus!
