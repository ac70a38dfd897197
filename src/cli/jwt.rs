use vstd::prelude::*;

use crate::bytes::str_eq;
use vstd::string::StringSliceAdditionalSpecFns;

verus! {

/// Encode or verify a JSON web token.
pub enum JwtSubCommand {
    Encode(JwtEncodeOpts),
    Verify(JwtVerifyOpts),
}

/// Options of `jwt encode`.
pub struct JwtEncodeOpts {
    pub aud: String,
    pub sub: String,
    /// Expiry, in seconds since the Unix epoch.
    pub exp: i64,
    pub alg: JwtAlg,
    pub encode_secret: bool,
}

/// Options of `jwt verify`.
pub struct JwtVerifyOpts {
    pub token: String,
    pub aud: String,
    pub sub: String,
}

/// Signing algorithms of JSON web tokens.
#[derive(Debug, Clone, Copy, PartialEq, Eq, Structural)]
pub enum JwtAlg {
    HS256,
    HS384,
    HS512,
    RS256,
    RS384,
    RS512,
    ES256,
    ES384,
    ES512,
}

/// The name of each algorithm.
pub open spec fn jwt_alg_name(a: JwtAlg) -> Seq<char> {
    match a {
        JwtAlg::HS256 => "HS256"@,
        JwtAlg::HS384 => "HS384"@,
        JwtAlg::HS512 => "HS512"@,
        JwtAlg::RS256 => "RS256"@,
        JwtAlg::RS384 => "RS384"@,
        JwtAlg::RS512 => "RS512"@,
        JwtAlg::ES256 => "ES256"@,
        JwtAlg::ES384 => "ES384"@,
        JwtAlg::ES512 => "ES512"@,
    }
}

/// Parses the name of an algorithm.
pub fn parse_jwt_alg(s: &str) -> (r: Result<JwtAlg, &'static str>)
    ensures
        r matches Ok(a) ==> s@ == jwt_alg_name(a),
        r is Err ==> r == Err::<JwtAlg, &'static str>("invalid JWT algorithm") && forall|a: JwtAlg|
            s@ != #[trigger] jwt_alg_name(a),
{
    if str_eq(s, "HS256") {
        Ok(JwtAlg::HS256)
    } else if str_eq(s, "HS384") {
        Ok(JwtAlg::HS384)
    } else if str_eq(s, "HS512") {
        Ok(JwtAlg::HS512)
    } else if str_eq(s, "RS256") {
        Ok(JwtAlg::RS256)
    } else if str_eq(s, "RS384") {
        Ok(JwtAlg::RS384)
    } else if str_eq(s, "RS512") {
        Ok(JwtAlg::RS512)
    } else if str_eq(s, "ES256") {
        Ok(JwtAlg::ES256)
    } else if str_eq(s, "ES384") {
        Ok(JwtAlg::ES384)
    } else if str_eq(s, "ES512") {
        Ok(JwtAlg::ES512)
    } else {
        Err("invalid JWT algorithm")
    }
}

/// Whether a byte is an ASCII decimal digit.
pub open spec fn is_digit(b: u8) -> bool {
    48 <= b <= 57
}

/// The value of a run of decimal digits.
pub open spec fn decimal(ds: Seq<u8>) -> int
    decreases ds.len(),
{
    if ds.len() == 0 {
        0
    } else {
        decimal(ds.drop_last()) * 10 + (ds.last() - 48)
    }
}

/// Whether a text starts with `+` or `-`.
pub open spec fn has_sign(t: Seq<u8>) -> bool {
    t.len() > 0 && (t[0] == 43u8 || t[0] == 45u8)
}

/// A text without its sign.
pub open spec fn unsigned_part(t: Seq<u8>) -> Seq<u8> {
    if has_sign(t) {
        t.subrange(1, t.len() as int)
    } else {
        t
    }
}

/// Whether every byte is a decimal digit.
pub open spec fn all_digits(ds: Seq<u8>) -> bool {
    forall|i: int| 0 <= i < ds.len() ==> is_digit(#[trigger] ds[i])
}

/// The integer an optionally signed run of at least one decimal digit
/// stands for, if the text is one.
pub open spec fn integer_value(t: Seq<u8>) -> Option<int> {
    let ds = unsigned_part(t);
    if ds.len() > 0 && all_digits(ds) {
        Some(if has_sign(t) && t[0] == 45u8 { -decimal(ds) } else { decimal(ds) })
    } else {
        None
    }
}

/// Seconds in the unit a duration ends with: `m`, `h` or `d`.
pub open spec fn unit_seconds(u: u8) -> Option<int> {
    if u == 109u8 {
        Some(60)
    } else if u == 104u8 {
        Some(3600)
    } else if u == 100u8 {
        Some(86400)
    } else {
        None
    }
}

/// What parsing a duration such as `15m`, `2h` or `-1d` gives, in seconds.
pub open spec fn duration_seconds(t: Seq<u8>) -> Result<int, &'static str> {
    if t.len() == 0 {
        Err("invalid duration")
    } else {
        match integer_value(t.drop_last()) {
            None => Err("invalid duration"),
            Some(n) => if n < i64::MIN || n > i64::MAX {
                Err("invalid duration")
            } else {
                match unit_seconds(t.last()) {
                    None => Err("invalid duration unit"),
                    Some(u) => if n * u < i64::MIN || n * u > i64::MAX {
                        Err("invalid duration")
                    } else {
                        Ok(n * u)
                    },
                }
            },
        }
    }
}

proof fn lemma_decimal_grows(ds: Seq<u8>, i: int)
    requires
        0 <= i <= ds.len(),
        all_digits(ds),
    ensures
        decimal(ds.subrange(0, i)) <= decimal(ds),
        0 <= decimal(ds.subrange(0, i)),
    decreases ds.len(),
{
    if i < ds.len() {
        assert(ds.drop_last().subrange(0, i) =~= ds.subrange(0, i));
        lemma_decimal_grows(ds.drop_last(), i);
        lemma_decimal_grows(ds.drop_last(), ds.len() - 1);
        assert(ds.drop_last().subrange(0, ds.len() - 1) =~= ds.drop_last());
    } else {
        assert(ds.subrange(0, i) =~= ds);
        if ds.len() > 0 {
            lemma_decimal_grows(ds.drop_last(), ds.len() - 1);
            assert(ds.drop_last().subrange(0, ds.len() - 1) =~= ds.drop_last());
        }
    }
}

/// Parses a duration such as `15m`, `2h` or `-1d` into seconds: a signed
/// decimal count followed by a unit of minutes, hours or days.
pub fn parse_duration(s: &str) -> (r: Result<i64, &'static str>)
    ensures
        duration_seconds(s.spec_bytes()) matches Ok(v) ==> r == Ok::<i64, &'static str>(v as i64),
        duration_seconds(s.spec_bytes()) matches Err(e) ==> r == Err::<i64, &'static str>(e),
{
    let t = s.as_bytes();
    let len = t.len();
    if len == 0 {
        return Err("invalid duration");
    }
    let ghost body = t@.drop_last();
    let n = len - 1;
    let mut start: usize = 0;
    let mut negative = false;
    if n > 0 && (t[0] == 43u8 || t[0] == 45u8) {
        start = 1;
        negative = t[0] == 45u8;
    }
    let ghost ds = body.subrange(start as int, n as int);
    assert(ds =~= unsigned_part(body));
    if start == n {
        return Err("invalid duration");
    }
    let mut acc: u64 = 0;
    let mut i: usize = start;
    while i < n
        invariant
            t@ == s.spec_bytes(),
            t@.len() == len,
            n == len - 1,
            body == t@.drop_last(),
            start <= i <= n,
            ds == body.subrange(start as int, n as int),
            forall|j: int| 0 <= j < i - start ==> is_digit(#[trigger] ds[j]),
            acc == decimal(ds.subrange(0, i - start)),
            acc <= 9223372036854775808u64,
            body.len() == n,
            start == (if has_sign(body) { 1usize } else { 0usize }),
            negative == (has_sign(body) && body[0] == 45u8),
            ds == unsigned_part(body),
        decreases n - i,
    {
        let b = t[i];
        assert(ds[i - start] == b);
        if b < 48u8 || b > 57u8 {
            assert(!is_digit(ds[i - start]));
            assert(!all_digits(ds));
            assert(integer_value(body) is None);
            assert(t@.drop_last() == body);
            assert(duration_seconds(t@) == Err::<int, &'static str>("invalid duration"));
            return Err("invalid duration");
        }
        let d = (b - 48u8) as u64;
        assert(ds.subrange(0, i - start + 1).drop_last() =~= ds.subrange(0, i - start));
        if acc > 922337203685477580u64 || (acc == 922337203685477580u64 && d > 8) {
            proof {
                let rest = ds.subrange(0, i - start + 1);
                assert(decimal(rest) == acc * 10 + d);
                let k = i + 1 - start;
                if all_digits(ds) {
                    lemma_decimal_grows(ds, k);
                    assert(decimal(ds) > 9223372036854775808);
                    assert(integer_value(body) == Some(if negative { -decimal(ds) } else { decimal(ds) }));
                } else {
                    assert(integer_value(body) is None);
                }
                assert(t@.drop_last() == body);
                assert(duration_seconds(t@) == Err::<int, &'static str>("invalid duration"));
            }
            return Err("invalid duration");
        }
        acc = acc * 10 + d;
        i = i + 1;
    }
    assert(ds.subrange(0, n - start) =~= ds);
    assert(all_digits(ds));
    assert(integer_value(body) == Some(if negative { -decimal(ds) } else { decimal(ds) }));
    let v: i128 = if negative { -(acc as i128) } else { acc as i128 };
    if v > 9223372036854775807i128 {
        assert(t@.drop_last() == body);
        assert(duration_seconds(t@) == Err::<int, &'static str>("invalid duration"));
        return Err("invalid duration");
    }
    let u = t[n];
    assert(u == t@.last());
    let unit: i128 = if u == 109u8 {
        60
    } else if u == 104u8 {
        3600
    } else if u == 100u8 {
        86400
    } else {
        return Err("invalid duration unit");
    };
    let secs = v * unit;
    if secs < -9223372036854775808i128 || secs > 9223372036854775807i128 {
        return Err("invalid duration");
    }
    Ok(secs as i64)
}

} // verus!
