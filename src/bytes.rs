use vstd::prelude::*;
use vstd::utf8::encode_utf8_decode_utf8;

verus! {

/// Compares two byte slices without stopping at the first difference: every
/// byte of the shorter length is looked at, whatever the contents.
pub fn bytes_eq(a: &[u8], b: &[u8]) -> (r: bool)
    ensures
        r == (a@ == b@),
{
    if a.len() != b.len() {
        return false;
    }
    let mut diff: u8 = 0;
    let n = a.len();
    assert(a@.subrange(0, 0) =~= b@.subrange(0, 0));
    for i in 0..n
        invariant
            n == a@.len(),
            n == b@.len(),
            (diff == 0) == (a@.subrange(0, i as int) == b@.subrange(0, i as int)),
    {
        let x = a[i];
        let y = b[i];
        let d = diff;
        assert((d | (x ^ y)) == 0 <==> (d == 0 && x == y)) by (bit_vector);
        diff = d | (x ^ y);
        proof {
            let sa = a@.subrange(0, i as int);
            let sb = b@.subrange(0, i as int);
            assert(a@.subrange(0, i + 1) == sa.push(x));
            assert(b@.subrange(0, i + 1) == sb.push(y));
            if sa.push(x) == sb.push(y) {
                assert(sa == sa.push(x).drop_last());
                assert(sb == sb.push(y).drop_last());
                assert(sa.push(x).last() == x);
            }
        }
    }
    proof {
        assert(a@.subrange(0, n as int) == a@);
        assert(b@.subrange(0, n as int) == b@);
    }
    diff == 0
}

/// Whether two strings hold the same characters.
pub fn str_eq(a: &str, b: &str) -> (r: bool)
    ensures
        r == (a@ == b@),
{
    let r = bytes_eq(a.as_bytes(), b.as_bytes());
    proof {
        encode_utf8_decode_utf8(a@);
        encode_utf8_decode_utf8(b@);
    }
    r
}

} // verus!
