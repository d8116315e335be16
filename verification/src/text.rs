//! Character-level text operations, each stated over `Seq<char>`.
use vstd::prelude::*;

verus! {

// ---------------------------------------------------------------------------
// Conversions between `str`/`String` and character vectors
// ---------------------------------------------------------------------------

/// The characters of `s`, in order.
pub fn chars_of(s: &str) -> (v: Vec<char>)
    ensures
        v@ == s@,
{
    let mut v: Vec<char> = Vec::new();
    for c in it: s.chars()
        invariant
            v@ == it.seq().take(it.index() as int),
            it.seq() == s@,
    {
        v.push(c);
    }
    v
}

/// Builds a `String` holding exactly the characters of `chars`.
/// Trusted: `FromIterator<&char> for String` appends each character in order
/// (std documentation of `collect` into `String`).
#[verifier::external_body]
pub(crate) fn string_from_chars(chars: &Vec<char>) -> (s: String)
    ensures
        s@ == chars@,
{
    chars.iter().collect()
}

/// A copy of `s` as an owned `String`.
pub fn owned(s: &str) -> (r: String)
    ensures
        r@ == s@,
{
    let v = chars_of(s);
    string_from_chars(&v)
}

/// Copies a slice of characters into a new vector.
pub fn sub_chars(v: &Vec<char>, start: usize, end: usize) -> (r: Vec<char>)
    requires
        start <= end <= v.len(),
    ensures
        r@ == v@.subrange(start as int, end as int),
{
    let mut r: Vec<char> = Vec::new();
    let mut i = start;
    while i < end
        invariant
            start <= i <= end <= v.len(),
            r@ == v@.subrange(start as int, i as int),
        decreases end - i,
    {
        r.push(v[i]);
        i = i + 1;
    }
    r
}

/// Appends every character of `b` to `a`.
pub fn push_all(a: &mut Vec<char>, b: &Vec<char>)
    ensures
        final(a)@ == old(a)@ + b@,
{
    let mut i: usize = 0;
    while i < b.len()
        invariant
            i <= b.len(),
            a@ == old(a)@ + b@.take(i as int),
        decreases b.len() - i,
    {
        a.push(b[i]);
        i = i + 1;
        assert(b@.take(i as int) =~= b@.take((i - 1) as int).push(b@[i - 1]));
    }
    assert(b@.take(b.len() as int) =~= b@);
}

/// Appends the characters of `s` to `a`.
pub fn push_str(a: &mut Vec<char>, s: &str)
    ensures
        final(a)@ == old(a)@ + s@,
{
    let v = chars_of(s);
    push_all(a, &v);
}

/// Whether two character sequences are equal.
pub fn chars_eq(a: &Vec<char>, b: &Vec<char>) -> (r: bool)
    ensures
        r == (a@ == b@),
{
    if a.len() != b.len() {
        return false;
    }
    let mut i: usize = 0;
    while i < a.len()
        invariant
            a.len() == b.len(),
            i <= a.len(),
            forall|j: int| 0 <= j < i ==> a@[j] == b@[j],
        decreases a.len() - i,
    {
        if a[i] != b[i] {
            return false;
        }
        i = i + 1;
    }
    assert(a@ =~= b@);
    true
}

/// Whether two strings are equal.
pub fn str_eq(a: &str, b: &str) -> (r: bool)
    ensures
        r == (a@ == b@),
{
    let av = chars_of(a);
    let bv = chars_of(b);
    chars_eq(&av, &bv)
}

/// The view of an optional owned string.
pub open spec fn opt_view(o: Option<String>) -> Option<Seq<char>> {
    match o {
        Some(s) => Some(s@),
        None => None,
    }
}

/// The view of an optional borrowed string.
pub open spec fn opt_str_view(o: Option<&str>) -> Option<Seq<char>> {
    match o {
        Some(s) => Some(s@),
        None => None,
    }
}

// ---------------------------------------------------------------------------
// Character classes
// ---------------------------------------------------------------------------

/// The Unicode `White_Space` property, which `char::is_whitespace` tests.
pub open spec fn is_ws(c: char) -> bool {
    let u = c as u32;
    ||| (0x9 <= u && u <= 0xd)
    ||| u == 0x20
    ||| u == 0x85
    ||| u == 0xa0
    ||| u == 0x1680
    ||| (0x2000 <= u && u <= 0x200a)
    ||| u == 0x2028
    ||| u == 0x2029
    ||| u == 0x202f
    ||| u == 0x205f
    ||| u == 0x3000
}

/// Whether `c` is a white-space character.
pub fn is_whitespace(c: char) -> (b: bool)
    ensures
        b == is_ws(c),
{
    let u = c as u32;
    (0x9 <= u && u <= 0xd) || u == 0x20 || u == 0x85 || u == 0xa0 || u == 0x1680 || (0x2000 <= u
        && u <= 0x200a) || u == 0x2028 || u == 0x2029 || u == 0x202f || u == 0x205f || u == 0x3000
}

/// ASCII digit `0`..`9`.
pub open spec fn is_digit(c: char) -> bool {
    '0' <= c && c <= '9'
}

/// The numeric value of an ASCII digit.
pub open spec fn digit_value(c: char) -> nat {
    ((c as u32) - ('0' as u32)) as nat
}

/// ASCII upper-case letter.
pub open spec fn is_upper(c: char) -> bool {
    'A' <= c && c <= 'Z'
}

/// `char::to_ascii_lowercase`.
pub open spec fn lower(c: char) -> char {
    if is_upper(c) {
        ((c as u32) + 32) as char
    } else {
        c
    }
}

/// ASCII letter or digit.
pub open spec fn is_alnum(c: char) -> bool {
    ||| ('a' <= c && c <= 'z')
    ||| ('A' <= c && c <= 'Z')
    ||| ('0' <= c && c <= '9')
}

/// Lower-cases one ASCII letter, leaving every other character unchanged.
pub fn to_lower(c: char) -> (r: char)
    ensures
        r == lower(c),
{
    if 'A' <= c && c <= 'Z' {
        let u = (c as u32) + 32;
        assert(u < 0xd800);
        char_from_u32_ascii(u)
    } else {
        c
    }
}

/// The ASCII character with code `u`.
fn char_from_u32_ascii(u: u32) -> (c: char)
    requires
        u < 128,
    ensures
        c == u as char,
{
    (u as u8) as char
}

/// Whether `c` is an ASCII letter or digit.
pub fn is_ascii_alnum(c: char) -> (b: bool)
    ensures
        b == is_alnum(c),
{
    ('a' <= c && c <= 'z') || ('A' <= c && c <= 'Z') || ('0' <= c && c <= '9')
}

// ---------------------------------------------------------------------------
// Blankness and trimming
// ---------------------------------------------------------------------------

/// Every character is white space (so `trim()` leaves nothing).
pub open spec fn is_blank(s: Seq<char>) -> bool {
    forall|i: int| 0 <= i < s.len() ==> is_ws(#[trigger] s[i])
}

/// Whether `s` holds anything but white space.
pub fn is_blank_chars(s: &Vec<char>) -> (b: bool)
    ensures
        b == is_blank(s@),
{
    let mut i: usize = 0;
    while i < s.len()
        invariant
            i <= s.len(),
            forall|j: int| 0 <= j < i ==> is_ws(#[trigger] s@[j]),
        decreases s.len() - i,
    {
        if !is_whitespace(s[i]) {
            return false;
        }
        i = i + 1;
    }
    true
}

/// Whether the string holds only white space (`s.trim().is_empty()`).
pub fn is_blank_str(s: &str) -> (b: bool)
    ensures
        b == is_blank(s@),
{
    let v = chars_of(s);
    is_blank_chars(&v)
}

/// `str::trim_start`: drops leading white space.
pub open spec fn trim_start(s: Seq<char>) -> Seq<char>
    decreases s.len(),
{
    if s.len() > 0 && is_ws(s[0]) {
        trim_start(s.skip(1))
    } else {
        s
    }
}

/// `str::trim_end`: drops trailing white space.
pub open spec fn trim_end(s: Seq<char>) -> Seq<char>
    decreases s.len(),
{
    if s.len() > 0 && is_ws(s.last()) {
        trim_end(s.drop_last())
    } else {
        s
    }
}

/// `str::trim`: drops leading and trailing white space.
pub open spec fn trim(s: Seq<char>) -> Seq<char> {
    trim_end(trim_start(s))
}

/// Text that is not blank starts, once leading white space goes, with a
/// character that is not white space.
proof fn lemma_trim_start_nonblank(s: Seq<char>)
    requires
        !is_blank(s),
    ensures
        trim_start(s).len() > 0,
        !is_ws(trim_start(s)[0]),
    decreases s.len(),
{
    if s.len() > 0 && is_ws(s[0]) {
        let r = s.skip(1);
        if is_blank(r) {
            assert forall|i: int| 0 <= i < s.len() implies is_ws(#[trigger] s[i]) by {
                if i > 0 {
                    assert(s[i] == r[i - 1]);
                }
            }
        }
        lemma_trim_start_nonblank(r);
    }
}

/// Dropping trailing white space keeps a first character that is not.
proof fn lemma_trim_end_keeps_first(s: Seq<char>)
    requires
        s.len() > 0,
        !is_ws(s[0]),
    ensures
        trim_end(s).len() > 0,
        trim_end(s)[0] == s[0],
    decreases s.len(),
{
    if is_ws(s.last()) {
        assert(s.len() > 1);
        lemma_trim_end_keeps_first(s.drop_last());
    }
}

/// Trimming text that is not blank leaves text that is not blank.
pub proof fn lemma_trim_blank(s: Seq<char>)
    requires
        !is_blank(s),
    ensures
        !is_blank(trim(s)),
{
    lemma_trim_start_nonblank(s);
    lemma_trim_end_keeps_first(trim_start(s));
    assert(!is_ws(trim(s)[0]));
}

/// Index of the first character that is not white space.
fn trim_start_index(s: &Vec<char>) -> (k: usize)
    ensures
        k <= s.len(),
        trim_start(s@) == s@.skip(k as int),
{
    let mut i: usize = 0;
    assert(s@.skip(0) =~= s@);
    while i < s.len() && is_whitespace(s[i])
        invariant
            i <= s.len(),
            trim_start(s@.skip(i as int)) == trim_start(s@),
        decreases s.len() - i,
    {
        assert(s@.skip(i as int).skip(1) =~= s@.skip(i + 1));
        i = i + 1;
    }
    i
}

/// Index one past the last character of `s.skip(from)` that is not white space.
fn trim_end_index(s: &Vec<char>, from: usize) -> (k: usize)
    requires
        from <= s.len(),
    ensures
        from <= k <= s.len(),
        trim_end(s@.subrange(from as int, s.len() as int)) == s@.subrange(from as int, k as int),
{
    let mut k: usize = s.len();
    while k > from && is_whitespace(s[k - 1])
        invariant
            from <= k <= s.len(),
            trim_end(s@.subrange(from as int, k as int)) == trim_end(
                s@.subrange(from as int, s.len() as int),
            ),
        decreases k,
    {
        assert(s@.subrange(from as int, k as int).drop_last() =~= s@.subrange(
            from as int,
            k - 1,
        ));
        k = k - 1;
    }
    k
}

/// `str::trim` on a character vector.
pub fn trim_chars(s: &Vec<char>) -> (r: Vec<char>)
    ensures
        r@ == trim(s@),
{
    let a = trim_start_index(s);
    assert(s@.skip(a as int) =~= s@.subrange(a as int, s.len() as int));
    let b = trim_end_index(s, a);
    sub_chars(s, a, b)
}

/// `str::trim_end` on a character vector.
pub fn trim_end_chars(s: &Vec<char>) -> (r: Vec<char>)
    ensures
        r@ == trim_end(s@),
{
    assert(s@.subrange(0, s.len() as int) =~= s@);
    let b = trim_end_index(s, 0);
    sub_chars(s, 0, b)
}

/// `str::trim` on a string.
pub fn trim_str(s: &str) -> (r: Vec<char>)
    ensures
        r@ == trim(s@),
{
    let v = chars_of(s);
    trim_chars(&v)
}

// ---------------------------------------------------------------------------
// Prefixes and substrings
// ---------------------------------------------------------------------------

/// `s` begins with `p`.
pub open spec fn starts_with(s: Seq<char>, p: Seq<char>) -> bool {
    p.len() <= s.len() && s.take(p.len() as int) == p
}

/// `p` occurs in `s` at position `i`.
pub open spec fn occurs_at(s: Seq<char>, p: Seq<char>, i: int) -> bool {
    0 <= i && i + p.len() <= s.len() && s.subrange(i, i + p.len()) == p
}

/// `s` contains `p` somewhere.
pub open spec fn contains(s: Seq<char>, p: Seq<char>) -> bool {
    exists|i: int| occurs_at(s, p, i)
}

/// Whether `p` occurs in `s` at position `i`.
pub fn matches_at(s: &Vec<char>, p: &Vec<char>, i: usize) -> (b: bool)
    ensures
        b == occurs_at(s@, p@, i as int),
{
    if i > s.len() || p.len() > s.len() - i {
        return false;
    }
    let mut j: usize = 0;
    while j < p.len()
        invariant
            i + p.len() <= s.len(),
            j <= p.len(),
            forall|k: int| 0 <= k < j ==> s@[i + k] == p@[k],
        decreases p.len() - j,
    {
        if s[i + j] != p[j] {
            assert(s@.subrange(i as int, i + p.len())[j as int] != p@[j as int]);
            return false;
        }
        j = j + 1;
    }
    assert(s@.subrange(i as int, i + p.len()) =~= p@);
    true
}

/// `str::starts_with`.
pub fn starts_with_chars(s: &Vec<char>, p: &Vec<char>) -> (b: bool)
    ensures
        b == starts_with(s@, p@),
{
    let r = matches_at(s, p, 0);
    assert(p.len() <= s.len() ==> s@.subrange(0, p.len() as int) =~= s@.take(p.len() as int));
    r
}

/// `str::starts_with` with a string prefix.
pub fn starts_with_str(s: &Vec<char>, p: &str) -> (b: bool)
    ensures
        b == starts_with(s@, p@),
{
    let pv = chars_of(p);
    starts_with_chars(s, &pv)
}

/// `str::contains`.
pub fn contains_chars(s: &Vec<char>, p: &Vec<char>) -> (b: bool)
    ensures
        b == contains(s@, p@),
{
    if p.len() > s.len() {
        return false;
    }
    let mut i: usize = 0;
    let last = s.len() - p.len();
    loop
        invariant
            p.len() <= s.len(),
            last == s.len() - p.len(),
            i <= last,
            forall|k: int| 0 <= k < i ==> !occurs_at(s@, p@, k),
        decreases last - i,
    {
        if matches_at(s, p, i) {
            return true;
        }
        if i == last {
            assert forall|k: int| !occurs_at(s@, p@, k) by {
                if 0 <= k && k <= i {
                }
            }
            return false;
        }
        i = i + 1;
    }
}

/// `str::contains` with a string needle.
pub fn contains_str(s: &Vec<char>, p: &str) -> (b: bool)
    ensures
        b == contains(s@, p@),
{
    let pv = chars_of(p);
    contains_chars(s, &pv)
}

/// `k` is the position of the first `c` in `s`.
pub open spec fn is_first_index(s: Seq<char>, c: char, k: int) -> bool {
    0 <= k < s.len() && s[k] == c && forall|j: int| 0 <= j < k ==> s[j] != c
}

/// The position of the first `c` in `s`; meaningful when `s` contains `c`.
pub open spec fn first_index(s: Seq<char>, c: char) -> int {
    choose|k: int| is_first_index(s, c, k)
}

/// There is only one first position.
pub proof fn lemma_first_index(s: Seq<char>, c: char, k: int)
    requires
        is_first_index(s, c, k),
    ensures
        first_index(s, c) == k,
{
    assert(exists|k2: int| is_first_index(s, c, k2));
    let k2 = first_index(s, c);
    if k2 < k {
        assert(s[k2] != c);
    }
    if k < k2 {
        assert(s[k] != c);
    }
}

/// The position of the first `c` in `v`, if any (`str::find` with a `char`).
pub fn find_char(v: &Vec<char>, c: char) -> (r: Option<usize>)
    ensures
        match r {
            Some(k) => is_first_index(v@, c, k as int),
            None => !v@.contains(c),
        },
{
    let mut i: usize = 0;
    while i < v.len()
        invariant
            i <= v.len(),
            forall|j: int| 0 <= j < i ==> v@[j] != c,
        decreases v.len() - i,
    {
        if v[i] == c {
            return Some(i);
        }
        i = i + 1;
    }
    None
}

// ---------------------------------------------------------------------------
// Case
// ---------------------------------------------------------------------------

/// `str::to_ascii_lowercase`.
pub open spec fn lowercase(s: Seq<char>) -> Seq<char> {
    s.map_values(|c: char| lower(c))
}

/// `str::eq_ignore_ascii_case`.
pub open spec fn eq_ignore_case(a: Seq<char>, b: Seq<char>) -> bool {
    lowercase(a) == lowercase(b)
}

/// Lower-cases the ASCII letters of `s`.
pub fn lowercase_chars(s: &Vec<char>) -> (r: Vec<char>)
    ensures
        r@ == lowercase(s@),
{
    let mut r: Vec<char> = Vec::new();
    let mut i: usize = 0;
    while i < s.len()
        invariant
            i <= s.len(),
            r@ == lowercase(s@.take(i as int)),
        decreases s.len() - i,
    {
        let c = to_lower(s[i]);
        r.push(c);
        i = i + 1;
        assert(lowercase(s@.take(i as int)) =~= lowercase(s@.take((i - 1) as int)).push(c));
    }
    assert(s@.take(s.len() as int) =~= s@);
    r
}

/// Whether `a` and `b` agree up to ASCII case.
pub fn eq_ignore_ascii_case(a: &Vec<char>, b: &Vec<char>) -> (r: bool)
    ensures
        r == eq_ignore_case(a@, b@),
{
    let la = lowercase_chars(a);
    let lb = lowercase_chars(b);
    chars_eq(&la, &lb)
}

/// Whether `a` and the string `b` agree up to ASCII case.
pub fn eq_ignore_ascii_case_str(a: &Vec<char>, b: &str) -> (r: bool)
    ensures
        r == eq_ignore_case(a@, b@),
{
    let bv = chars_of(b);
    eq_ignore_ascii_case(a, &bv)
}


/// A character vector's deep view is its view.
pub proof fn lemma_chars_deep_view(v: Vec<char>)
    ensures
        v.deep_view() == v@,
{
    assert(v.deep_view() =~= v@);
}

/// Pushing onto a vector of character vectors pushes the pushed vector's view.
pub proof fn lemma_push_deep_view(before: Vec<Vec<char>>, after: Vec<Vec<char>>, w: Vec<char>)
    requires
        after@ == before@.push(w),
    ensures
        after.deep_view() == before.deep_view().push(w@),
{
    lemma_chars_deep_view(w);
    assert(after.deep_view() =~= before.deep_view().push(w@));
}

// ---------------------------------------------------------------------------
// Replacement

// ---------------------------------------------------------------------------

/// `str::replace`: every non-overlapping occurrence of `p`, scanning from the
/// left, becomes `r`; an empty `p` matches before every character and at the end.
pub open spec fn replace(s: Seq<char>, p: Seq<char>, r: Seq<char>) -> Seq<char>
    decreases s.len(),
{
    if p.len() == 0 {
        if s.len() == 0 {
            r
        } else {
            r + seq![s[0]] + replace(s.skip(1), p, r)
        }
    } else if s.len() < p.len() {
        s
    } else if s.take(p.len() as int) == p {
        r + replace(s.skip(p.len() as int), p, r)
    } else {
        seq![s[0]] + replace(s.skip(1), p, r)
    }
}

/// Replacing a text by itself gives the replacement.
pub proof fn lemma_replace_whole(p: Seq<char>, r: Seq<char>)
    requires
        p.len() > 0,
    ensures
        replace(p, p, r) == r,
{
    assert(p.take(p.len() as int) =~= p);
    assert(p.skip(p.len() as int) =~= Seq::<char>::empty());
    assert(replace(Seq::<char>::empty(), p, r) == Seq::<char>::empty());
    assert(r + Seq::<char>::empty() =~= r);
}

/// A text no longer than the pattern and other than it stays as it is.
pub proof fn lemma_replace_other_not_longer(s: Seq<char>, p: Seq<char>, r: Seq<char>)
    requires
        p.len() > 0,
        s.len() <= p.len(),
        s != p,
    ensures
        replace(s, p, r) == s,
{
    if s.len() == p.len() {
        assert(s.take(p.len() as int) =~= s);
        assert(replace(s.skip(1), p, r) == s.skip(1));
        assert(seq![s[0]] + s.skip(1) =~= s);
    }
}

/// A text that never holds the pattern's first character stays as it is.
pub proof fn lemma_replace_absent(s: Seq<char>, p: Seq<char>, r: Seq<char>)
    requires
        p.len() > 0,
        forall|i: int| 0 <= i < s.len() ==> s[i] != p[0],
    ensures
        replace(s, p, r) == s,
    decreases s.len(),
{
    if s.len() >= p.len() {
        assert(s.take(p.len() as int)[0] == s[0]);
        assert(s.take(p.len() as int) != p);
        lemma_replace_absent(s.skip(1), p, r);
        assert(seq![s[0]] + s.skip(1) =~= s);
    }
}

/// Replaces every occurrence of `p` in `s` by `r`.
pub fn replace_chars(s: &Vec<char>, p: &Vec<char>, r: &Vec<char>) -> (out: Vec<char>)
    ensures
        out@ == replace(s@, p@, r@),
{
    let mut out: Vec<char> = Vec::new();
    let mut i: usize = 0;
    assert(s@.skip(0) =~= s@);
    if p.len() == 0 {
        while i < s.len()
            invariant
                p@.len() == 0,
                i <= s.len(),
                out@ + replace(s@.skip(i as int), p@, r@) == replace(s@, p@, r@),
            decreases s.len() - i,
        {
            let ghost t = s@.skip(i as int);
            assert(t.skip(1) =~= s@.skip(i + 1));
            push_all(&mut out, r);
            out.push(s[i]);
            i = i + 1;
            assert(out@ + replace(s@.skip(i as int), p@, r@) =~= replace(s@, p@, r@));
        }
        push_all(&mut out, r);
        assert(s@.skip(i as int) =~= Seq::<char>::empty());
        assert(out@ =~= replace(s@, p@, r@));
        return out;
    }
    while i < s.len()
        invariant
            p@.len() > 0,
            i <= s.len(),
            out@ + replace(s@.skip(i as int), p@, r@) == replace(s@, p@, r@),
        decreases s.len() - i,
    {
        let ghost t = s@.skip(i as int);
        if matches_at(s, p, i) {
            assert(t.take(p.len() as int) =~= s@.subrange(i as int, i + p.len()));
            assert(t.skip(p.len() as int) =~= s@.skip(i + p.len()));
            push_all(&mut out, r);
            i = i + p.len();
            assert(out@ + replace(s@.skip(i as int), p@, r@) =~= replace(s@, p@, r@));
        } else {
            assert(t.skip(1) =~= s@.skip(i + 1));
            proof {
                if t.len() >= p@.len() {
                    assert(t.take(p@.len() as int) =~= s@.subrange(i as int, i + p@.len()));
                } else {
                    assert(replace(t.skip(1), p@, r@) == t.skip(1));
                    assert(seq![t[0]] + t.skip(1) =~= t);
                }
            }
            out.push(s[i]);
            i = i + 1;
            assert(out@ + replace(s@.skip(i as int), p@, r@) =~= replace(s@, p@, r@));
        }
    }
    assert(s@.skip(i as int) =~= Seq::<char>::empty());
    assert(out@ =~= replace(s@, p@, r@));
    out
}

// ---------------------------------------------------------------------------
// Splitting
// ---------------------------------------------------------------------------

/// One step of `split_whitespace`: the finished words and the word in progress.
pub open spec fn ws_step(st: (Seq<Seq<char>>, Seq<char>), c: char) -> (Seq<Seq<char>>, Seq<char>) {
    if is_ws(c) {
        if st.1.len() > 0 {
            (st.0.push(st.1), Seq::empty())
        } else {
            (st.0, Seq::empty())
        }
    } else {
        (st.0, st.1.push(c))
    }
}

/// The state of `split_whitespace` after reading all of `s`.
pub open spec fn ws_scan(s: Seq<char>) -> (Seq<Seq<char>>, Seq<char>)
    decreases s.len(),
{
    if s.len() == 0 {
        (Seq::empty(), Seq::empty())
    } else {
        ws_step(ws_scan(s.drop_last()), s.last())
    }
}

/// `str::split_whitespace`: the maximal runs of non-white-space characters.
pub open spec fn split_ws(s: Seq<char>) -> Seq<Seq<char>> {
    let st = ws_scan(s);
    if st.1.len() > 0 {
        st.0.push(st.1)
    } else {
        st.0
    }
}

/// Splits `s` into its white-space separated words.
pub fn split_whitespace_chars(s: &Vec<char>) -> (words: Vec<Vec<char>>)
    ensures
        words.deep_view() == split_ws(s@),
{
    let mut words: Vec<Vec<char>> = Vec::new();
    let mut cur: Vec<char> = Vec::new();
    let mut i: usize = 0;
    while i < s.len()
        invariant
            i <= s.len(),
            (words.deep_view(), cur@) == ws_scan(s@.take(i as int)),
        decreases s.len() - i,
    {
        let c = s[i];
        assert(s@.take(i + 1).drop_last() =~= s@.take(i as int));
        if is_whitespace(c) {
            if cur.len() > 0 {
                let w = cur;
                let ghost before = words;
                words.push(w);
                proof {
                    lemma_push_deep_view(before, words, w);
                }
                cur = Vec::new();
            } else {
                cur = Vec::new();
            }
        } else {
            cur.push(c);
        }
        i = i + 1;
        assert(words.deep_view() =~= ws_scan(s@.take(i as int)).0);
        assert(cur@ =~= ws_scan(s@.take(i as int)).1);
    }
    assert(s@.take(s.len() as int) =~= s@);
    if cur.len() > 0 {
        let ghost before = words;
        let ghost w = cur;
        words.push(cur);
        proof {
            lemma_push_deep_view(before, words, w);
        }
    }
    assert(words.deep_view() =~= split_ws(s@));
    words
}

/// Splits a string into its white-space separated words, as `String`s.
pub fn split_whitespace_strings(s: &Vec<char>) -> (words: Vec<String>)
    ensures
        words.deep_view() == split_ws(s@),
{
    let parts = split_whitespace_chars(s);
    let mut out: Vec<String> = Vec::new();
    let mut i: usize = 0;
    while i < parts.len()
        invariant
            i <= parts.len(),
            out.deep_view() == parts.deep_view().take(i as int),
        decreases parts.len() - i,
    {
        let w = string_from_chars(&parts[i]);
        proof {
            lemma_chars_deep_view(parts@[i as int]);
        }
        let ghost before = out;
        out.push(w);
        assert(out.deep_view() =~= before.deep_view().push(w@));
        assert(parts.deep_view()[i as int] == parts@[i as int]@);
        assert(parts.deep_view().take(i + 1) =~= parts.deep_view().take(i as int).push(
            parts.deep_view()[i as int],
        ));
        i = i + 1;
        assert(out.deep_view() =~= parts.deep_view().take(i as int));
    }
    assert(parts.deep_view().take(parts.len() as int) =~= parts.deep_view());
    out
}

/// One step of `str::lines`: finished lines and the line in progress.
pub open spec fn line_step(st: (Seq<Seq<char>>, Seq<char>), c: char) -> (Seq<Seq<char>>, Seq<char>) {
    if c == '\n' {
        (st.0.push(strip_cr(st.1)), Seq::empty())
    } else {
        (st.0, st.1.push(c))
    }
}

/// Drops one trailing carriage return.
pub open spec fn strip_cr(l: Seq<char>) -> Seq<char> {
    if l.len() > 0 && l.last() == '\r' {
        l.drop_last()
    } else {
        l
    }
}

/// The state of `str::lines` after reading all of `s`.
pub open spec fn line_scan(s: Seq<char>) -> (Seq<Seq<char>>, Seq<char>)
    decreases s.len(),
{
    if s.len() == 0 {
        (Seq::empty(), Seq::empty())
    } else {
        line_step(line_scan(s.drop_last()), s.last())
    }
}

/// `str::lines`: lines ended by `\n` (with one `\r` before it dropped), plus a
/// last unterminated line when it is not empty.
pub open spec fn lines(s: Seq<char>) -> Seq<Seq<char>> {
    let st = line_scan(s);
    if st.1.len() > 0 {
        st.0.push(st.1)
    } else {
        st.0
    }
}

/// Splits `s` into lines as `str::lines` does.
pub fn lines_chars(s: &Vec<char>) -> (out: Vec<Vec<char>>)
    ensures
        out.deep_view() == lines(s@),
{
    let mut out: Vec<Vec<char>> = Vec::new();
    let mut cur: Vec<char> = Vec::new();
    let mut i: usize = 0;
    while i < s.len()
        invariant
            i <= s.len(),
            (out.deep_view(), cur@) == line_scan(s@.take(i as int)),
        decreases s.len() - i,
    {
        let c = s[i];
        assert(s@.take(i + 1).drop_last() =~= s@.take(i as int));
        if c == '\n' {
            let mut line = cur;
            let n = line.len();
            if n > 0 && line[n - 1] == '\r' {
                line.pop();
            }
            let ghost before = out;
            let ghost lw = line;
            out.push(line);
            proof {
                lemma_push_deep_view(before, out, lw);
            }
            cur = Vec::new();
        } else {
            cur.push(c);
        }
        i = i + 1;
        assert(out.deep_view() =~= line_scan(s@.take(i as int)).0);
        assert(cur@ =~= line_scan(s@.take(i as int)).1);
    }
    assert(s@.take(s.len() as int) =~= s@);
    if cur.len() > 0 {
        let ghost before = out;
        let ghost w = cur;
        out.push(cur);
        proof {
            lemma_push_deep_view(before, out, w);
        }
    }
    assert(out.deep_view() =~= lines(s@));
    out
}

/// `s` with `p` removed from its front, when it starts with `p`.
pub open spec fn strip_prefix(s: Seq<char>, p: Seq<char>) -> Option<Seq<char>> {
    if starts_with(s, p) {
        Some(s.skip(p.len() as int))
    } else {
        None
    }
}

/// `str::strip_prefix`.
pub fn strip_prefix_chars(s: &Vec<char>, p: &Vec<char>) -> (r: Option<Vec<char>>)
    ensures
        r.deep_view() == strip_prefix(s@, p@),
{
    if starts_with_chars(s, p) {
        let rest = sub_chars(s, p.len(), s.len());
        assert(rest@ =~= s@.skip(p.len() as int));
        Some(rest)
    } else {
        None
    }
}

} // verus!
