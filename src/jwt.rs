use vstd::prelude::*;

verus! {

/// The claims a token carries: audience, subject and expiry (seconds since
/// the Unix epoch).
pub struct JwtClaims {
    pub aud: String,
    pub sub: String,
    pub exp: i64,
}

impl JwtClaims {
    pub fn new(aud: String, sub: String, exp: i64) -> (r: Self)
        ensures
            r.aud@ == aud@,
            r.sub@ == sub@,
            r.exp == exp,
    {
        JwtClaims { aud, sub, exp }
    }
}

} // verus!
