//! Pango markup escaping and placeholder templates.
use vstd::prelude::*;
use crate::text::{chars_of, push_str, replace, replace_chars, string_from_chars};

verus! {

/// A lower-case hexadecimal digit.
pub open spec fn hex_digit(d: nat) -> char {
    if d < 10 {
        (('0' as u32) + d) as char
    } else {
        (('a' as u32) + (d - 10)) as char
    }
}

/// Lower-case hexadecimal text of `n < 256`, without leading zeros.
pub open spec fn hex(n: nat) -> Seq<char> {
    if n < 16 {
        seq![hex_digit(n)]
    } else {
        seq![hex_digit(n / 16), hex_digit(n % 16)]
    }
}

/// Control characters that markup escaping writes as numeric references.
pub open spec fn is_escaped_control(c: char) -> bool {
    let u = c as u32;
    ||| (0x1 <= u && u <= 0x8)
    ||| (0xb <= u && u <= 0xc)
    ||| (0xe <= u && u <= 0x1f)
    ||| (0x7f <= u && u <= 0x84)
    ||| (0x86 <= u && u <= 0x9f)
}

/// The text that one character becomes under `g_markup_escape_text`.
pub open spec fn escape_char(c: char) -> Seq<char> {
    if c == '&' {
        seq!['&', 'a', 'm', 'p', ';']
    } else if c == '<' {
        seq!['&', 'l', 't', ';']
    } else if c == '>' {
        seq!['&', 'g', 't', ';']
    } else if c == '\'' {
        seq!['&', '#', '3', '9', ';']
    } else if c == '"' {
        seq!['&', 'q', 'u', 'o', 't', ';']
    } else if is_escaped_control(c) {
        seq!['&', '#', 'x'] + hex(c as u32 as nat) + seq![';']
    } else {
        seq![c]
    }
}

/// `glib::markup_escape_text`: each character replaced by its escape.
pub open spec fn escape(s: Seq<char>) -> Seq<char>
    decreases s.len(),
{
    if s.len() == 0 {
        Seq::empty()
    } else {
        escape(s.drop_last()) + escape_char(s.last())
    }
}

/// Escaping leaves a decimal numeral as it is.
pub proof fn lemma_escape_numeral(s: Seq<char>)
    requires
        forall|i: int| 0 <= i < s.len() ==> crate::num::is_numeral_char(#[trigger] s[i]),
    ensures
        escape(s) == s,
    decreases s.len(),
{
    if s.len() > 0 {
        let c = s.last();
        assert(crate::num::is_numeral_char(s[s.len() - 1]));
        assert(c != '&' && c != '<' && c != '>' && c != '\'' && c != '"') by {
            assert(('&' as u32) == 38 && ('<' as u32) == 60 && ('>' as u32) == 62);
            assert(('\'' as u32) == 39 && ('"' as u32) == 34 && ('-' as u32) == 45);
        }
        assert(!is_escaped_control(c)) by {
            assert(('-' as u32) == 45);
        }
        lemma_escape_numeral(s.drop_last());
        assert(s.drop_last() + seq![c] =~= s);
    }
}

/// A hexadecimal digit is never an angle bracket.
proof fn lemma_hex_digit_not_bracket(d: nat)
    requires
        d < 16,
    ensures
        hex_digit(d) != '<',
        hex_digit(d) != '>',
{
    if d < 10 {
        assert((('0' as u32) + d) as char as u32 == 0x30 + d);
    } else {
        assert((('a' as u32) + (d - 10)) as char as u32 == 0x61 + (d - 10));
    }
}

/// Escaped text holds no angle bracket, so a value put into a label can
/// never open or close a markup tag.
pub proof fn lemma_escape_has_no_angle_brackets(s: Seq<char>)
    ensures
        !escape(s).contains('<'),
        !escape(s).contains('>'),
    decreases s.len(),
{
    if s.len() > 0 {
        lemma_escape_has_no_angle_brackets(s.drop_last());
        let c = s.last();
        let head = escape(s.drop_last());
        let tail = escape_char(c);
        if is_escaped_control(c) && c != '&' && c != '<' && c != '>' && c != '\'' && c != '"' {
            let n = c as u32 as nat;
            assert(n < 256);
            if n < 16 {
                lemma_hex_digit_not_bracket(n);
            } else {
                lemma_hex_digit_not_bracket(n / 16);
                lemma_hex_digit_not_bracket(n % 16);
            }
        }
        assert(!tail.contains('<') && !tail.contains('>'));
        assert forall|i: int| 0 <= i < escape(s).len() implies escape(s)[i] != '<' && escape(s)[i] != '>' by {
            if i < head.len() {
                assert(escape(s)[i] == head[i]);
                assert(head.contains(head[i]));
            } else {
                assert(escape(s)[i] == tail[i - head.len()]);
                assert(tail.contains(tail[i - head.len()]));
            }
        }
    }
}

/// A hexadecimal digit character.
fn hex_digit_char(d: u32) -> (c: char)
    requires
        d < 16,
    ensures
        c == hex_digit(d as nat),
{
    if d < 10 {
        let u: u8 = 48u8 + (d as u8);
        u as char
    } else {
        let u: u8 = 97u8 + ((d - 10) as u8);
        u as char
    }
}

/// Appends the escape of one character.
fn push_escaped_char(out: &mut Vec<char>, c: char)
    ensures
        final(out)@ == old(out)@ + escape_char(c),
{
    let u = c as u32;
    if c == '&' {
        push_str(out, "&amp;");
        proof { reveal_strlit("&amp;"); }
    } else if c == '<' {
        push_str(out, "&lt;");
        proof { reveal_strlit("&lt;"); }
    } else if c == '>' {
        push_str(out, "&gt;");
        proof { reveal_strlit("&gt;"); }
    } else if c == '\'' {
        push_str(out, "&#39;");
        proof { reveal_strlit("&#39;"); }
    } else if c == '"' {
        push_str(out, "&quot;");
        proof { reveal_strlit("&quot;"); }
    } else if (0x1 <= u && u <= 0x8) || (0xb <= u && u <= 0xc) || (0xe <= u && u <= 0x1f) || (0x7f
        <= u && u <= 0x84) || (0x86 <= u && u <= 0x9f) {
        out.push('&');
        out.push('#');
        out.push('x');
        if u >= 16 {
            out.push(hex_digit_char(u / 16));
        }
        out.push(hex_digit_char(u % 16));
        out.push(';');
    } else {
        out.push(c);
    }
    assert(final(out)@ =~= old(out)@ + escape_char(c)) by {
        assert(escape_char(c) == escape_char(c));
    }
}

/// Escapes the characters of `s` that Pango markup treats specially.
pub fn escape_chars(s: &Vec<char>) -> (r: Vec<char>)
    ensures
        r@ == escape(s@),
{
    let mut out: Vec<char> = Vec::new();
    let mut i: usize = 0;
    while i < s.len()
        invariant
            i <= s.len(),
            out@ == escape(s@.take(i as int)),
        decreases s.len() - i,
    {
        push_escaped_char(&mut out, s[i]);
        i = i + 1;
        assert(s@.take(i as int).drop_last() =~= s@.take((i - 1) as int));
    }
    assert(s@.take(s.len() as int) =~= s@);
    out
}

/// `escape_markup_text`: the text escaped for use inside Pango markup.
pub fn escape_markup_text(text: &str) -> (r: String)
    ensures
        r@ == escape(text@),
{
    let v = chars_of(text);
    let e = escape_chars(&v);
    string_from_chars(&e)
}

/// The template after each `(placeholder, value)` pair in turn has replaced
/// every occurrence of the placeholder by the escaped value.
pub open spec fn render_template(t: Seq<char>, reps: Seq<(Seq<char>, Seq<char>)>) -> Seq<char>
    decreases reps.len(),
{
    if reps.len() == 0 {
        t
    } else {
        replace(render_template(t, reps.drop_last()), reps.last().0, escape(reps.last().1))
    }
}

/// A template that no pattern can match (each is at least as long and
/// other than it) comes out of rendering unchanged.
pub proof fn lemma_render_untouched(t: Seq<char>, reps: Seq<(Seq<char>, Seq<char>)>)
    requires
        t.len() > 0,
        forall|i: int| 0 <= i < reps.len() ==> t.len() <= (#[trigger] reps[i]).0.len() && reps[i].0 != t,
    ensures
        render_template(t, reps) == t,
    decreases reps.len(),
{
    if reps.len() > 0 {
        lemma_render_untouched(t, reps.drop_last());
        assert(reps.last() == reps[reps.len() - 1]);
        crate::text::lemma_replace_other_not_longer(t, reps.last().0, escape(reps.last().1));
    }
}

/// A template that is exactly one placeholder, which no earlier pattern can
/// match and whose value is a decimal numeral, renders to that numeral,
/// whatever the later pairs are (their patterns begin with `{`).
pub proof fn lemma_render_single_placeholder(t: Seq<char>, reps: Seq<(Seq<char>, Seq<char>)>, j: int)
    requires
        0 <= j < reps.len(),
        reps[j].0 == t,
        t.len() > 0,
        forall|i: int| 0 <= i < j ==> t.len() <= (#[trigger] reps[i]).0.len() && reps[i].0 != t,
        forall|i: int| j < i < reps.len() ==> (#[trigger] reps[i]).0.len() > 0 && reps[i].0[0] == '{',
        forall|k: int| 0 <= k < reps[j].1.len() ==> crate::num::is_numeral_char(#[trigger] reps[j].1[k]),
    ensures
        render_template(t, reps) == reps[j].1,
    decreases reps.len(),
{
    let d = reps.drop_last();
    if j == reps.len() - 1 {
        assert forall|i: int| 0 <= i < d.len() implies t.len() <= (#[trigger] d[i]).0.len() && d[i].0 != t by {
            assert(d[i] == reps[i]);
        }
        lemma_render_untouched(t, d);
        lemma_escape_numeral(reps[j].1);
        crate::text::lemma_replace_whole(t, escape(reps[j].1));
    } else {
        assert forall|i: int| 0 <= i < j implies t.len() <= (#[trigger] d[i]).0.len() && d[i].0 != t by {
            assert(d[i] == reps[i]);
        }
        assert forall|i: int| j < i < d.len() implies (#[trigger] d[i]).0.len() > 0 && d[i].0[0] == '{' by {
            assert(d[i] == reps[i]);
        }
        assert(d[j] == reps[j]);
        lemma_render_single_placeholder(t, d, j);
        let v = reps[j].1;
        let last = reps[reps.len() - 1];
        assert(reps.last() == last);
        assert forall|k: int| 0 <= k < v.len() implies v[k] != last.0[0] by {
            assert(crate::num::is_numeral_char(v[k]));
            assert(('{' as u32) == 123 && ('-' as u32) == 45);
        }
        crate::text::lemma_replace_absent(v, last.0, escape(last.1));
    }
}

/// The template after each pair in turn has replaced its placeholder by the
/// value as it is, without escaping.
pub open spec fn render_plain(t: Seq<char>, reps: Seq<(Seq<char>, Seq<char>)>) -> Seq<char>
    decreases reps.len(),
{
    if reps.len() == 0 {
        t
    } else {
        replace(render_plain(t, reps.drop_last()), reps.last().0, reps.last().1)
    }
}

/// `render_markup_template`: substitutes each placeholder, in order, with its
/// markup-escaped value.
pub fn render_markup_template(template: &str, replacements: &Vec<(String, String)>) -> (r: String)
    ensures
        r@ == render_template(template@, replacements.deep_view()),
{
    let mut cur = chars_of(template);
    let mut i: usize = 0;
    while i < replacements.len()
        invariant
            i <= replacements.len(),
            cur@ == render_template(template@, replacements.deep_view().take(i as int)),
        decreases replacements.len() - i,
    {
        let p = chars_of(replacements[i].0.as_str());
        let v = chars_of(replacements[i].1.as_str());
        let e = escape_chars(&v);
        cur = replace_chars(&cur, &p, &e);
        i = i + 1;
        assert(replacements.deep_view().take(i as int).drop_last() =~= replacements.deep_view().take(
            (i - 1) as int,
        ));
    }
    assert(replacements.deep_view().take(replacements.len() as int) =~= replacements.deep_view());
    string_from_chars(&cur)
}

/// Substitutes each placeholder, in order, with its value as it is.
pub fn render_plain_template(template: &str, replacements: &Vec<(String, String)>) -> (r: String)
    ensures
        r@ == render_plain(template@, replacements.deep_view()),
{
    let mut cur = chars_of(template);
    let mut i: usize = 0;
    while i < replacements.len()
        invariant
            i <= replacements.len(),
            cur@ == render_plain(template@, replacements.deep_view().take(i as int)),
        decreases replacements.len() - i,
    {
        let p = chars_of(replacements[i].0.as_str());
        let v = chars_of(replacements[i].1.as_str());
        cur = replace_chars(&cur, &p, &v);
        i = i + 1;
        assert(replacements.deep_view().take(i as int).drop_last() =~= replacements.deep_view().take(
            (i - 1) as int,
        ));
    }
    assert(replacements.deep_view().take(replacements.len() as int) =~= replacements.deep_view());
    string_from_chars(&cur)
}

} // verus!
