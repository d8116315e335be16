//! Helpers shared by several modules: icon lists, config type checks.
use vstd::prelude::*;
use crate::text::{chars_of, push_str, string_from_chars};

verus! {

/// The icon for a percentage: the first icon at 0, the last at 100 and above,
/// evenly spaced in between (`index = min(p, 100) * (len - 1) / 100`); empty
/// when there are no icons.
pub open spec fn icon_for_pct(icons: Seq<Seq<char>>, percent: nat) -> Seq<char> {
    if icons.len() == 0 {
        Seq::empty()
    } else if icons.len() == 1 {
        icons[0]
    } else {
        let clamped = if percent > 100 { 100 } else { percent };
        icons[((clamped * (icons.len() - 1) as nat) / 100) as int]
    }
}

/// The icon list covers the whole range: the first icon at 0 percent, the
/// last at 100 percent and above.
pub proof fn lemma_icon_range_ends(icons: Seq<Seq<char>>, percent: nat)
    requires
        icons.len() > 0,
    ensures
        icon_for_pct(icons, 0) == icons[0],
        percent >= 100 ==> icon_for_pct(icons, percent) == icons.last(),
{
    if icons.len() > 1 {
        let n = (icons.len() - 1) as nat;
        assert((0 * n) / 100 == 0) by (nonlinear_arith);
        assert((100 * n) / 100 == n) by (nonlinear_arith);
    }
}

/// Picks the icon for `percent` from `icons`.
pub fn icon_for_percentage(icons: &Vec<String>, percent: u64) -> (r: String)
    ensures
        r@ == icon_for_pct(icons.deep_view(), percent as nat),
{
    if icons.len() == 0 {
        proof {
            reveal_strlit("");
        }
        return crate::text::owned("");
    }
    if icons.len() == 1 {
        return icons[0].clone();
    }
    let clamped: u64 = if percent > 100 { 100 } else { percent };
    let n = icons.len() as u64;
    assert(clamped * (n - 1) <= 100 * (n - 1)) by (nonlinear_arith)
        requires clamped <= 100, n >= 2;
    assert(icons.len() <= usize::MAX);
    let prod: u128 = (clamped as u128) * ((n - 1) as u128);
    let index: u128 = prod / 100;
    assert(index < n) by (nonlinear_arith)
        requires index == prod / 100, prod == clamped * (n - 1), clamped <= 100, n >= 2;
    icons[index as usize].clone()
}

/// The error text for a module config handed to the wrong module.
pub open spec fn wrong_type_message(expected: Seq<char>, got: Seq<char>) -> Seq<char> {
    "expected module type '"@ + expected + "', got '"@ + got + "'"@
}

/// Checks that a module config entry names the expected module type.
pub fn check_module_type(expected: &str, got: &str) -> (r: Result<(), String>)
    ensures
        r is Ok <==> expected@ == got@,
        r matches Err(e) ==> e@ == wrong_type_message(expected@, got@),
{
    if crate::text::str_eq(expected, got) {
        Ok(())
    } else {
        let mut v: Vec<char> = Vec::new();
        push_str(&mut v, "expected module type '");
        push_str(&mut v, expected);
        push_str(&mut v, "', got '");
        push_str(&mut v, got);
        push_str(&mut v, "'");
        Err(string_from_chars(&v))
    }
}

/// The first of two optional commands that is present (`a.or(b)`).
pub fn first_command(a: Option<String>, b: Option<String>) -> (r: Option<String>)
    ensures
        r == (match a {
            Some(x) => Some(x),
            None => b,
        }),
{
    match a {
        Some(x) => Some(x),
        None => b,
    }
}

/// Builds one `(placeholder, value)` pair for a template.
pub fn pair(placeholder: &str, value: String) -> (r: (String, String))
    ensures
        r.0@ == placeholder@,
        r.1@ == value@,
{
    (crate::text::owned(placeholder), value)
}

/// Lexicographic order on character sequences (by code point), as `str`
/// and `OsStr` compare.
pub open spec fn seq_lt(a: Seq<char>, b: Seq<char>) -> bool
    decreases a.len(),
{
    if a.len() == 0 {
        b.len() > 0
    } else if b.len() == 0 {
        false
    } else if a[0] != b[0] {
        a[0] < b[0]
    } else {
        seq_lt(a.skip(1), b.skip(1))
    }
}

/// Whether `a` sorts strictly before `b`.
pub fn chars_lt(a: &Vec<char>, b: &Vec<char>) -> (r: bool)
    ensures
        r == seq_lt(a@, b@),
{
    let mut i: usize = 0;
    assert(a@.skip(0) =~= a@);
    assert(b@.skip(0) =~= b@);
    while i < a.len() && i < b.len()
        invariant
            i <= a.len(),
            i <= b.len(),
            forall|j: int| 0 <= j < i ==> a@[j] == b@[j],
            seq_lt(a@, b@) == seq_lt(a@.skip(i as int), b@.skip(i as int)),
        decreases a.len() - i,
    {
        assert(a@.skip(i as int)[0] == a@[i as int]);
        assert(b@.skip(i as int)[0] == b@[i as int]);
        if a[i] != b[i] {
            return a[i] < b[i];
        }
        assert(a@.skip(i as int).skip(1) =~= a@.skip(i + 1));
        assert(b@.skip(i as int).skip(1) =~= b@.skip(i + 1));
        i = i + 1;
    }
    i < b.len()
}

/// Whether the string `a` sorts strictly before `b`.
pub fn str_lt(a: &str, b: &str) -> (r: bool)
    ensures
        r == seq_lt(a@, b@),
{
    let av = chars_of(a);
    let bv = chars_of(b);
    chars_lt(&av, &bv)
}

/// `seq_lt` is irreflexive.
pub proof fn lemma_seq_lt_irrefl(a: Seq<char>)
    ensures
        !seq_lt(a, a),
    decreases a.len(),
{
    if a.len() > 0 {
        lemma_seq_lt_irrefl(a.skip(1));
    }
}

/// `seq_lt` is asymmetric.
pub proof fn lemma_seq_lt_asym(a: Seq<char>, b: Seq<char>)
    requires
        seq_lt(a, b),
    ensures
        !seq_lt(b, a),
    decreases a.len(),
{
    if a.len() > 0 && b.len() > 0 && a[0] == b[0] {
        lemma_seq_lt_asym(a.skip(1), b.skip(1));
    }
}

/// If `a < b` and not `c < b`, then `a < c`.
pub proof fn lemma_seq_lt_total_trans(a: Seq<char>, b: Seq<char>, c: Seq<char>)
    requires
        seq_lt(a, b),
        !seq_lt(c, b),
    ensures
        seq_lt(a, c),
    decreases a.len(),
{
    if a.len() == 0 {
        assert(c.len() > 0);
    } else {
        assert(b.len() > 0);
        assert(c.len() > 0);
        if a[0] != b[0] {
            if c[0] != b[0] {
                assert(c[0] > b[0]);
            }
            assert(a[0] < c[0]);
        } else if c[0] != b[0] {
            assert(c[0] > b[0]);
        } else {
            lemma_seq_lt_total_trans(a.skip(1), b.skip(1), c.skip(1));
        }
    }
}


/// `seq_lt` is transitive.
pub proof fn lemma_seq_lt_trans(a: Seq<char>, b: Seq<char>, c: Seq<char>)
    requires
        seq_lt(a, b),
        seq_lt(b, c),
    ensures
        seq_lt(a, c),
{
    lemma_seq_lt_asym(b, c);
    lemma_seq_lt_total_trans(a, b, c);
}

/// Two different sequences are ordered one way or the other.
pub proof fn lemma_seq_lt_total(a: Seq<char>, b: Seq<char>)
    requires
        a != b,
    ensures
        seq_lt(a, b) || seq_lt(b, a),
    decreases a.len(),
{
    if a.len() > 0 && b.len() > 0 && a[0] == b[0] {
        if a.skip(1) == b.skip(1) {
            assert(a =~= seq![a[0]] + a.skip(1));
            assert(b =~= seq![b[0]] + b.skip(1));
        }
        lemma_seq_lt_total(a.skip(1), b.skip(1));
    } else if a.len() == 0 && b.len() == 0 {
        assert(a =~= b);
    }
}

} // verus!
