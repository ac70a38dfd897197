use rand::seq::SliceRandom;
use vstd::prelude::*;
use vstd::utf8::encode_utf8;

verus! {

broadcast use vstd::seq_lib::group_to_multiset_ensures;

#[verifier::external_type_specification]
#[verifier::external_body]
pub struct ExThreadRng(rand::rngs::ThreadRng);

pub assume_specification[ rand::thread_rng ]() -> rand::rngs::ThreadRng;

/// Relies on rand's `SliceRandom::choose`: `None` only for an empty slice,
/// otherwise one of its elements.
#[verifier::external_body]
fn pick_one(chars: &[u8], rng: &mut rand::rngs::ThreadRng) -> (r: Option<u8>)
    ensures
        r is None <==> chars@.len() == 0,
        r matches Some(c) ==> chars@.contains(c),
{
    chars.choose(rng).copied()
}

/// Relies on rand's `SliceRandom::shuffle`: the bytes are permuted.
#[verifier::external_body]
fn shuffle_bytes(v: &mut Vec<u8>, rng: &mut rand::rngs::ThreadRng)
    ensures
        final(v)@.to_multiset() == old(v)@.to_multiset(),
{
    v.shuffle(rng)
}

/// Relies on `String::from_utf8`: it accepts every sequence of ASCII bytes,
/// and the string it returns is made of exactly the given bytes.
#[verifier::external_body]
fn ascii_string(bytes: Vec<u8>) -> (r: Option<String>)
    ensures
        r matches Some(s) ==> encode_utf8(s@) == bytes@,
        (forall|i: int| 0 <= i < bytes@.len() ==> bytes@[i] < 128) ==> r is Some,
{
    String::from_utf8(bytes).ok()
}

/// Lower-case letters, without those easily mistaken for others.
pub open spec fn lower_letters() -> Seq<u8> {
    seq![97u8, 98, 100, 101, 102, 103, 104, 106, 109, 110, 113, 114, 116]
}

/// Upper-case letters, without those easily mistaken for others.
pub open spec fn upper_letters() -> Seq<u8> {
    seq![65u8, 66, 68, 69, 70, 71, 72, 74, 77, 78, 81, 82, 84]
}

/// Decimal digits.
pub open spec fn digits() -> Seq<u8> {
    seq![48u8, 49, 50, 51, 52, 53, 54, 55, 56, 57]
}

/// Symbols.
pub open spec fn symbols() -> Seq<u8> {
    seq![33u8, 64, 35, 36, 37, 94, 38, 42, 95, 58]
}

fn lower_letters_vec() -> (r: Vec<u8>)
    ensures
        r@ == lower_letters(),
{
    vec![97u8, 98, 100, 101, 102, 103, 104, 106, 109, 110, 113, 114, 116]
}

fn upper_letters_vec() -> (r: Vec<u8>)
    ensures
        r@ == upper_letters(),
{
    vec![65u8, 66, 68, 69, 70, 71, 72, 74, 77, 78, 81, 82, 84]
}

fn digits_vec() -> (r: Vec<u8>)
    ensures
        r@ == digits(),
{
    vec![48u8, 49, 50, 51, 52, 53, 54, 55, 56, 57]
}

fn symbols_vec() -> (r: Vec<u8>)
    ensures
        r@ == symbols(),
{
    vec![33u8, 64, 35, 36, 37, 94, 38, 42, 95, 58]
}

/// Whether `c` belongs to one of the character classes left switched on.
pub open spec fn class_allows(no_lower: bool, no_upper: bool, no_number: bool, no_symbol: bool, c: u8) -> bool {
    ||| !no_lower && lower_letters().contains(c)
    ||| !no_upper && upper_letters().contains(c)
    ||| !no_number && digits().contains(c)
    ||| !no_symbol && symbols().contains(c)
}

/// How many character classes are switched on.
pub open spec fn classes_on(no_lower: bool, no_upper: bool, no_number: bool, no_symbol: bool) -> nat {
    (if no_lower { 0nat } else { 1nat }) + (if no_upper { 0nat } else { 1nat }) + (if no_number {
        0nat
    } else {
        1nat
    }) + (if no_symbol { 0nat } else { 1nat })
}

/// Some byte of `p` belongs to `class`.
pub open spec fn has_member(p: Seq<u8>, class: Seq<u8>) -> bool {
    exists|i: int| 0 <= i < p.len() && class.contains(#[trigger] p[i])
}

/// What a generated password is: as long as asked, but never shorter than
/// one byte per class switched on; made only of bytes of those classes; and
/// holding at least one byte of each.
pub open spec fn is_password(
    p: Seq<u8>,
    length: u8,
    no_lower: bool,
    no_upper: bool,
    no_number: bool,
    no_symbol: bool,
) -> bool {
    let k = classes_on(no_lower, no_upper, no_number, no_symbol);
    &&& p.len() == if length >= k { length as nat } else { k }
    &&& forall|i: int| 0 <= i < p.len() ==> class_allows(no_lower, no_upper, no_number, no_symbol, #[trigger] p[i])
    &&& !no_lower ==> has_member(p, lower_letters())
    &&& !no_upper ==> has_member(p, upper_letters())
    &&& !no_number ==> has_member(p, digits())
    &&& !no_symbol ==> has_member(p, symbols())
}

proof fn lemma_push_keeps_member(p: Seq<u8>, c: u8, class: Seq<u8>)
    requires
        has_member(p, class),
    ensures
        has_member(p.push(c), class),
{
    let i = choose|i: int| 0 <= i < p.len() && class.contains(#[trigger] p[i]);
    assert(p.push(c)[i] == p[i]);
}

proof fn lemma_permutation_keeps_member(p: Seq<u8>, q: Seq<u8>, class: Seq<u8>)
    requires
        has_member(p, class),
        p.to_multiset() == q.to_multiset(),
    ensures
        has_member(q, class),
{
    let i = choose|i: int| 0 <= i < p.len() && class.contains(#[trigger] p[i]);
    let x = p[i];
    assert(p.contains(x));
    assert(p.to_multiset().count(x) > 0);
    assert(q.contains(x));
    let j = choose|j: int| 0 <= j < q.len() && q[j] == x;
    assert(class.contains(q[j]));
}

proof fn lemma_ascii_classes(c: u8)
    ensures
        lower_letters().contains(c) ==> c < 128,
        upper_letters().contains(c) ==> c < 128,
        digits().contains(c) ==> c < 128,
        symbols().contains(c) ==> c < 128,
{
    if lower_letters().contains(c) {
        let i = choose|i: int| 0 <= i < lower_letters().len() && lower_letters()[i] == c;
    }
    if upper_letters().contains(c) {
        let i = choose|i: int| 0 <= i < upper_letters().len() && upper_letters()[i] == c;
    }
    if digits().contains(c) {
        let i = choose|i: int| 0 <= i < digits().len() && digits()[i] == c;
    }
    if symbols().contains(c) {
        let i = choose|i: int| 0 <= i < symbols().len() && symbols()[i] == c;
    }
}

/// The state of a password being built, with the classes switched on so far:
/// every byte, picked or pickable, belongs to one of them; and each of them
/// has a byte in the password.
spec fn partial(p: Seq<u8>, chars: Seq<u8>, no_lower: bool, no_upper: bool, no_number: bool, no_symbol: bool) -> bool {
    &&& forall|i: int| 0 <= i < p.len() ==> class_allows(no_lower, no_upper, no_number, no_symbol, #[trigger] p[i])
    &&& forall|i: int|
        0 <= i < chars.len() ==> class_allows(no_lower, no_upper, no_number, no_symbol, #[trigger] chars[i])
    &&& classes_on(no_lower, no_upper, no_number, no_symbol) > 0 ==> chars.len() > 0
    &&& !no_lower ==> has_member(p, lower_letters())
    &&& !no_upper ==> has_member(p, upper_letters())
    &&& !no_number ==> has_member(p, digits())
    &&& !no_symbol ==> has_member(p, symbols())
}

/// Puts one byte of `set` into the password and makes all of `set`
/// pickable.
fn add_class(pass: &mut Vec<u8>, chars: &mut Vec<u8>, set: Vec<u8>, rng: &mut rand::rngs::ThreadRng)
    requires
        set@.len() > 0,
    ensures
        final(pass)@.len() == old(pass)@.len() + 1,
        final(pass)@ == old(pass)@.push(final(pass)@.last()),
        set@.contains(final(pass)@.last()),
        final(chars)@ == old(chars)@ + set@,
{
    let mut set = set;
    let c = match pick_one(set.as_slice(), rng) {
        Some(c) => c,
        None => 0,
    };
    pass.push(c);
    chars.append(&mut set);
}

proof fn lemma_add_class(
    p: Seq<u8>,
    chars: Seq<u8>,
    c: u8,
    set: Seq<u8>,
    l0: bool, u0: bool, n0: bool, s0: bool,
    l1: bool, u1: bool, n1: bool, s1: bool,
)
    requires
        partial(p, chars, l0, u0, n0, s0),
        set.contains(c),
        set.len() > 0,
        // exactly one class is switched on, and `set` is that class
        (!l1 && l0 && u1 == u0 && n1 == n0 && s1 == s0 && set == lower_letters())
            || (!u1 && u0 && l1 == l0 && n1 == n0 && s1 == s0 && set == upper_letters())
            || (!n1 && n0 && l1 == l0 && u1 == u0 && s1 == s0 && set == digits())
            || (!s1 && s0 && l1 == l0 && u1 == u0 && n1 == n0 && set == symbols()),
    ensures
        partial(p.push(c), chars + set, l1, u1, n1, s1),
        classes_on(l1, u1, n1, s1) == classes_on(l0, u0, n0, s0) + 1,
{
    let q = p.push(c);
    let d = chars + set;
    assert forall|i: int| 0 <= i < q.len() implies class_allows(l1, u1, n1, s1, #[trigger] q[i]) by {
        if i < p.len() {
            assert(q[i] == p[i]);
        }
    }
    assert forall|i: int| 0 <= i < d.len() implies class_allows(l1, u1, n1, s1, #[trigger] d[i]) by {
        if i < chars.len() {
            assert(d[i] == chars[i]);
        } else {
            assert(d[i] == set[i - chars.len()]);
        }
    }
    let j = choose|j: int| 0 <= j < set.len() && set[j] == c;
    assert(q[p.len() as int] == c);
    if !l0 {
        lemma_push_keeps_member(p, c, lower_letters());
    }
    if !u0 {
        lemma_push_keeps_member(p, c, upper_letters());
    }
    if !n0 {
        lemma_push_keeps_member(p, c, digits());
    }
    if !s0 {
        lemma_push_keeps_member(p, c, symbols());
    }
}

/// Generates a random password of `length` bytes from the classes that are
/// not switched off, with at least one byte of each; when more classes are
/// on than `length`, the password has one byte per class. With every class
/// off there is nothing to draw from, which is an error.
pub fn gen_pass(length: u8, no_lower: bool, no_upper: bool, no_number: bool, no_symbol: bool) -> (r: Result<
    String,
    &'static str,
>)
    ensures
        r is Err <==> (no_lower && no_upper && no_number && no_symbol),
        r matches Ok(s) ==> is_password(encode_utf8(s@), length, no_lower, no_upper, no_number, no_symbol),
{
    if no_lower && no_upper && no_number && no_symbol {
        return Err("no character class selected");
    }
    let mut rng = rand::thread_rng();
    let mut pass: Vec<u8> = Vec::new();
    let mut chars: Vec<u8> = Vec::new();
    assert(partial(pass@, chars@, true, true, true, true));
    if !no_lower {
        let ghost (p0, c0) = (pass@, chars@);
        add_class(&mut pass, &mut chars, lower_letters_vec(), &mut rng);
        proof {
            lemma_add_class(
                p0, c0, pass@.last(), lower_letters(),
                true, true, true, true,
                false, true, true, true,
            );
        }
    }
    assert(partial(pass@, chars@, no_lower, true, true, true));
    assert(pass@.len() == classes_on(no_lower, true, true, true));
    if !no_upper {
        let ghost (p0, c0) = (pass@, chars@);
        add_class(&mut pass, &mut chars, upper_letters_vec(), &mut rng);
        proof {
            lemma_add_class(
                p0, c0, pass@.last(), upper_letters(),
                no_lower, true, true, true,
                no_lower, false, true, true,
            );
        }
    }
    assert(partial(pass@, chars@, no_lower, no_upper, true, true));
    assert(pass@.len() == classes_on(no_lower, no_upper, true, true));
    if !no_number {
        let ghost (p0, c0) = (pass@, chars@);
        add_class(&mut pass, &mut chars, digits_vec(), &mut rng);
        proof {
            lemma_add_class(
                p0, c0, pass@.last(), digits(),
                no_lower, no_upper, true, true,
                no_lower, no_upper, false, true,
            );
        }
    }
    assert(partial(pass@, chars@, no_lower, no_upper, no_number, true));
    assert(pass@.len() == classes_on(no_lower, no_upper, no_number, true));
    if !no_symbol {
        let ghost (p0, c0) = (pass@, chars@);
        add_class(&mut pass, &mut chars, symbols_vec(), &mut rng);
        proof {
            lemma_add_class(
                p0, c0, pass@.last(), symbols(),
                no_lower, no_upper, no_number, true,
                no_lower, no_upper, no_number, false,
            );
        }
    }
    let ghost k = classes_on(no_lower, no_upper, no_number, no_symbol);
    assert(partial(pass@, chars@, no_lower, no_upper, no_number, no_symbol));
    assert(pass@.len() == k);
    while pass.len() < length as usize
        invariant
            partial(pass@, chars@, no_lower, no_upper, no_number, no_symbol),
            k == classes_on(no_lower, no_upper, no_number, no_symbol),
            k > 0,
            k <= pass@.len(),
            pass@.len() <= if length >= k { length as nat } else { k },
        decreases length - pass@.len(),
    {
        let ghost p0 = pass@;
        let c = match pick_one(chars.as_slice(), &mut rng) {
            Some(c) => c,
            None => 0,
        };
        pass.push(c);
        proof {
            let j = choose|j: int| 0 <= j < chars@.len() && chars@[j] == c;
            assert(class_allows(no_lower, no_upper, no_number, no_symbol, chars@[j]));
            assert forall|i: int| 0 <= i < pass@.len() implies class_allows(
                no_lower, no_upper, no_number, no_symbol, #[trigger] pass@[i]) by {
                if i < p0.len() {
                    assert(pass@[i] == p0[i]);
                }
            }
            if !no_lower {
                lemma_push_keeps_member(p0, c, lower_letters());
            }
            if !no_upper {
                lemma_push_keeps_member(p0, c, upper_letters());
            }
            if !no_number {
                lemma_push_keeps_member(p0, c, digits());
            }
            if !no_symbol {
                lemma_push_keeps_member(p0, c, symbols());
            }
        }
    }
    let ghost before = pass@;
    shuffle_bytes(&mut pass, &mut rng);
    proof {
        let after = pass@;
        assert(after.len() == before.len()) by {
            assert(after.to_multiset().len() == before.to_multiset().len());
        }
        assert forall|i: int| 0 <= i < after.len() implies class_allows(
            no_lower, no_upper, no_number, no_symbol, #[trigger] after[i]) by {
            assert(after.contains(after[i]));
            assert(after.to_multiset().count(after[i]) > 0);
            assert(before.contains(after[i]));
            let j = choose|j: int| 0 <= j < before.len() && before[j] == after[i];
            assert(class_allows(no_lower, no_upper, no_number, no_symbol, before[j]));
        }
        assert forall|i: int| 0 <= i < after.len() implies after[i] < 128 by {
            assert(class_allows(no_lower, no_upper, no_number, no_symbol, after[i]));
            lemma_ascii_classes(after[i]);
        }
        if !no_lower {
            lemma_permutation_keeps_member(before, after, lower_letters());
        }
        if !no_upper {
            lemma_permutation_keeps_member(before, after, upper_letters());
        }
        if !no_number {
            lemma_permutation_keeps_member(before, after, digits());
        }
        if !no_symbol {
            lemma_permutation_keeps_member(before, after, symbols());
        }
    }
    match ascii_string(pass) {
        Some(s) => Ok(s),
        None => Err("no character class selected"),
    }
}

} // verus!
