//! CPU module: parsing `/proc/stat` and rendering the usage label.
use vstd::prelude::*;
use crate::common::pair;
use crate::markup::{render_markup_template, render_template};
use crate::num::{dec, int_err_message, int_err_text, parse_u64, parse_uint, IntErr};
use crate::text::{
    chars_of, lines, lines_chars, owned, push_all, push_str, split_whitespace_chars, split_ws,
    starts_with, starts_with_str, string_from_chars,
};

verus! {

/// Module type name in the config.
pub const MODULE_TYPE: &'static str = "cpu";
/// Lowest accepted refresh interval.
pub const MIN_CPU_INTERVAL_SECS: u32 = 1;
/// Refresh interval used when the config names none.
pub const DEFAULT_CPU_INTERVAL_SECS: u32 = 5;
/// Label format used when the config names none.
pub const DEFAULT_CPU_FORMAT: &'static str = "{used_percentage}%";

/// Idle and total jiffies of the aggregate `cpu` line.
#[derive(Debug, Clone, Copy, PartialEq, Eq)]
pub struct CpuSnapshot {
    pub idle: u64,
    pub total: u64,
}

/// The refresh interval actually used: at least one second.
pub fn normalized_cpu_interval(interval_secs: u32) -> (r: u32)
    ensures
        r == if interval_secs < MIN_CPU_INTERVAL_SECS {
            MIN_CPU_INTERVAL_SECS
        } else {
            interval_secs
        },
{
    if interval_secs < MIN_CPU_INTERVAL_SECS {
        MIN_CPU_INTERVAL_SECS
    } else {
        interval_secs
    }
}

/// Index of the first line that starts with `cpu ` (the aggregate line).
pub open spec fn first_cpu_line(ls: Seq<Seq<char>>) -> Option<int>
    decreases ls.len(),
{
    if ls.len() == 0 {
        None
    } else {
        match first_cpu_line(ls.drop_last()) {
            Some(i) => Some(i),
            None => if starts_with(ls.last(), "cpu "@) {
                Some(ls.len() - 1)
            } else {
                None
            },
        }
    }
}

/// Parses each field as a `u64`, stopping at the first that fails with that
/// field and the reason.
pub open spec fn parse_fields(fields: Seq<Seq<char>>) -> Result<Seq<nat>, (Seq<char>, IntErr)>
    decreases fields.len(),
{
    if fields.len() == 0 {
        Ok(Seq::empty())
    } else {
        match parse_fields(fields.drop_last()) {
            Err(e) => Err(e),
            Ok(vs) => match parse_uint(fields.last(), u64::MAX as nat) {
                Ok(v) => Ok(vs.push(v)),
                Err(e) => Err((fields.last(), e)),
            },
        }
    }
}

/// Sum of a sequence of naturals.
pub open spec fn sum(vs: Seq<nat>) -> nat
    decreases vs.len(),
{
    if vs.len() == 0 {
        0
    } else {
        sum(vs.drop_last()) + vs.last()
    }
}

/// What `parse_proc_stat_cpu_line` reads: the numbers after `cpu` on the
/// aggregate line, or the error message.
pub open spec fn cpu_values(stat: Seq<char>) -> Result<Seq<nat>, Seq<char>> {
    match first_cpu_line(lines(stat)) {
        None => Err("missing aggregate cpu line in /proc/stat"@),
        Some(i) => match parse_fields(cpu_fields(lines(stat)[i])) {
            Err((f, e)) => Err("failed to parse cpu stat value '"@ + f + "': "@ + int_err_text(e)),
            Ok(vs) => if vs.len() < 4 {
                Err("aggregate cpu line in /proc/stat has fewer than 4 columns"@)
            } else {
                Ok(vs)
            },
        },
    }
}

/// The words of a line after the first one (none when the line has no words).
pub open spec fn cpu_fields(line: Seq<char>) -> Seq<Seq<char>> {
    let ws = split_ws(line);
    if ws.len() > 0 {
        ws.skip(1)
    } else {
        Seq::empty()
    }
}

/// Idle jiffies: the idle column plus the iowait column when present.
pub open spec fn idle_of(vs: Seq<nat>) -> nat {
    vs[3] + if vs.len() > 4 { vs[4] } else { 0 }
}

/// The sums that `parse_proc_stat_cpu_line` forms fit in a `u64`; beyond
/// that the counters cannot be added up.
pub open spec fn cpu_sums_fit(stat: Seq<char>) -> bool {
    match cpu_values(stat) {
        Ok(vs) => idle_of(vs) <= u64::MAX && sum(vs) <= u64::MAX,
        Err(_) => true,
    }
}

/// Running sums stay within a bound that the total respects.
pub proof fn lemma_sum_prefix(vs: Seq<nat>, i: int)
    requires
        0 <= i <= vs.len(),
    ensures
        sum(vs.take(i)) <= sum(vs),
    decreases vs.len(),
{
    if i < vs.len() {
        assert(vs.drop_last().take(i) =~= vs.take(i));
        lemma_sum_prefix(vs.drop_last(), i);
    } else {
        assert(vs.take(i) =~= vs);
    }
}

/// The values `v` read are those of `vs`.
pub open spec fn values_are(v: Seq<u64>, vs: Seq<nat>) -> bool {
    v.len() == vs.len() && forall|j: int| 0 <= j < vs.len() ==> v[j] as nat == #[trigger] vs[j]
}

/// Reads the numbers after `cpu` on the aggregate line of `/proc/stat`.
fn cpu_line_values(stat: &str) -> (r: Result<Vec<u64>, String>)
    ensures
        match cpu_values(stat@) {
            Ok(vs) => r matches Ok(v) && values_are(v@, vs),
            Err(m) => r matches Err(e) && e@ == m,
        },
{
    let sv = chars_of(stat);
    let ls = lines_chars(&sv);
    let mut k: usize = 0;
    let mut found: Option<usize> = None;
    while k < ls.len() && found.is_none()
        invariant
            k <= ls.len(),
            ls.deep_view() == lines(stat@),
            match found {
                None => first_cpu_line(ls.deep_view().take(k as int)) is None,
                Some(i) => first_cpu_line(ls.deep_view()) == Some(i as int) && i < ls.len(),
            },
        decreases ls.len() - k,
    {
        assert(ls.deep_view().take(k + 1).drop_last() =~= ls.deep_view().take(k as int));
        proof {
            crate::text::lemma_chars_deep_view(ls@[k as int]);
        }
        assert(ls.deep_view().take(k + 1).last() == ls@[k as int]@);
        if starts_with_str(&ls[k], "cpu ") {
            proof {
                lemma_first_cpu_line_stable(ls.deep_view(), k as int + 1);
            }
            found = Some(k);
            k = ls.len();
        } else {
            k = k + 1;
        }
    }
    let ghost all_lines = ls.deep_view();
    let i = match found {
        None => {
            assert(ls.deep_view().take(ls.len() as int) =~= ls.deep_view());
            return Err(owned("missing aggregate cpu line in /proc/stat"));
        },
        Some(i) => i,
    };
    proof {
        crate::text::lemma_chars_deep_view(ls@[i as int]);
    }
    let words = split_whitespace_chars(&ls[i]);
    let ghost fields = cpu_fields(ls@[i as int]@);
    assert(words.len() > 0 ==> fields =~= words.deep_view().skip(1));
    let mut values: Vec<u64> = Vec::new();
    let mut idx: usize = 1;
    let ghost mut vals: Seq<nat> = Seq::empty();
    while idx < words.len()
        invariant
            1 <= idx <= words.len() || (words.len() == 0 && idx == 1),
            ls.deep_view() == lines(stat@),
            i < ls.len(),
            first_cpu_line(ls.deep_view()) == Some(i as int),
            ls.deep_view()[i as int] == ls@[i as int]@,
            fields == cpu_fields(ls@[i as int]@),
            words.deep_view() == split_ws(ls@[i as int]@),
            words.len() > 0 ==> fields == words.deep_view().skip(1),
            words.len() == 0 ==> fields == Seq::<Seq<char>>::empty(),
            parse_fields(fields.take(idx - 1)) == Ok::<Seq<nat>, (Seq<char>, IntErr)>(vals),
            values@.len() == vals.len(),
            forall|j: int| 0 <= j < vals.len() ==> values@[j] as nat == #[trigger] vals[j],
        decreases words.len() - idx,
    {
        proof {
            crate::text::lemma_chars_deep_view(words@[idx as int]);
        }
        assert(fields.take(idx as int).drop_last() =~= fields.take(idx - 1));
        assert(fields.take(idx as int).last() == words@[idx as int]@);
        match parse_u64(&words[idx]) {
            Ok(v) => {
                values.push(v);
                proof {
                    vals = vals.push(v as nat);
                }
            },
            Err(e) => {
                assert(parse_fields(fields.take(idx as int)) == Err::<Seq<nat>, (Seq<char>, IntErr)>(
                    (words@[idx as int]@, e),
                ));
                proof {
                    lemma_parse_fields_prefix_err(fields, idx as int);
                }
                assert(first_cpu_line(lines(stat@)) == Some(i as int));
                assert(lines(stat@)[i as int] == ls@[i as int]@);
                assert(cpu_values(stat@) == Err::<Seq<nat>, Seq<char>>(
                    "failed to parse cpu stat value '"@ + words@[idx as int]@ + "': "@ + int_err_text(e),
                ));
                let mut m: Vec<char> = Vec::new();
                push_str(&mut m, "failed to parse cpu stat value '");
                push_all(&mut m, &words[idx]);
                push_str(&mut m, "': ");
                let et = int_err_message(e);
                push_str(&mut m, et.as_str());
                return Err(string_from_chars(&m));
            },
        }
        idx = idx + 1;
    }
    if words.len() > 0 {
        assert(fields.take(idx - 1) =~= fields);
    } else {
        assert(fields.take(0) =~= fields);
    }
    if values.len() < 4 {
        return Err(owned("aggregate cpu line in /proc/stat has fewer than 4 columns"));
    }
    Ok(values)
}

/// Whether the idle and total sums of the aggregate line fit in a `u64`
/// (always, when the line cannot be read).
pub fn cpu_line_sums_fit(stat: &str) -> (r: bool)
    ensures
        r == cpu_sums_fit(stat@),
{
    let values = match cpu_line_values(stat) {
        Ok(v) => v,
        Err(_) => {
            return true;
        },
    };
    let ghost vs = cpu_values(stat@)->Ok_0;
    let extra: u64 = if values.len() > 4 { values[4] } else { 0 };
    if values[3] > u64::MAX - extra {
        return false;
    }
    let mut total: u64 = 0;
    let mut j: usize = 0;
    while j < values.len()
        invariant
            j <= values.len(),
            cpu_values(stat@) == Ok::<Seq<nat>, Seq<char>>(vs),
            values_are(values@, vs),
            total as nat == sum(vs.take(j as int)),
        decreases values.len() - j,
    {
        assert(vs.take(j + 1).drop_last() =~= vs.take(j as int));
        if total > u64::MAX - values[j] {
            proof {
                assert(vs.take(j + 1).last() == vs[j as int]);
                assert(sum(vs.take(j + 1)) == sum(vs.take(j as int)) + vs[j as int]);
                lemma_sum_prefix(vs, j + 1);
            }
            return false;
        }
        total = total + values[j];
        j = j + 1;
    }
    assert(vs.take(j as int) =~= vs);
    true
}

/// Parses the aggregate `cpu` line of `/proc/stat` into idle and total jiffies.
pub fn parse_proc_stat_cpu_line(stat: &str) -> (r: Result<CpuSnapshot, String>)
    requires
        cpu_sums_fit(stat@),
    ensures
        match cpu_values(stat@) {
            Ok(vs) => r == Ok::<CpuSnapshot, String>(
                CpuSnapshot { idle: idle_of(vs) as u64, total: sum(vs) as u64 },
            ),
            Err(m) => r matches Err(e) && e@ == m,
        },
{
    let values = match cpu_line_values(stat) {
        Ok(v) => v,
        Err(e) => {
            return Err(e);
        },
    };
    let ghost vals = cpu_values(stat@)->Ok_0;
    let extra: u64 = if values.len() > 4 { values[4] } else { 0 };
    let idle: u64 = values[3] + extra;
    let mut total: u64 = 0;
    let mut j: usize = 0;
    while j < values.len()
        invariant
            j <= values.len(),
            values_are(values@, vals),
            sum(vals) <= u64::MAX,
            total as nat == sum(vals.take(j as int)),
        decreases values.len() - j,
    {
        assert(vals.take(j + 1).drop_last() =~= vals.take(j as int));
        proof {
            lemma_sum_prefix(vals, j + 1);
        }
        total = total + values[j];
        j = j + 1;
    }
    assert(vals.take(j as int) =~= vals);
    Ok(CpuSnapshot { idle, total })
}

/// Once a line is found, later lines do not change which one is first.
pub proof fn lemma_first_cpu_line_stable(ls: Seq<Seq<char>>, k: int)
    requires
        0 < k <= ls.len(),
        first_cpu_line(ls.take(k)) == Some(k - 1),
    ensures
        first_cpu_line(ls) == Some(k - 1),
    decreases ls.len(),
{
    if k < ls.len() {
        assert(ls.drop_last().take(k) =~= ls.take(k));
        lemma_first_cpu_line_stable(ls.drop_last(), k);
    } else {
        assert(ls.take(k) =~= ls);
    }
}

/// A field that fails makes the whole list fail the same way.
pub proof fn lemma_parse_fields_prefix_err(fields: Seq<Seq<char>>, k: int)
    requires
        0 <= k <= fields.len(),
        parse_fields(fields.take(k)) is Err,
    ensures
        parse_fields(fields) == parse_fields(fields.take(k)),
    decreases fields.len(),
{
    if k < fields.len() {
        assert(fields.drop_last().take(k) =~= fields.take(k));
        lemma_parse_fields_prefix_err(fields.drop_last(), k);
    } else {
        assert(fields.take(k) =~= fields);
    }
}

/// The label text for a usage percentage: `{used_percentage}` then
/// `{idle_percentage}` (100 minus the usage, not below 0) replaced.
pub open spec fn cpu_text(format: Seq<char>, used: nat) -> Seq<char> {
    render_template(
        format,
        seq![
            ("{used_percentage}"@, dec(used)),
            ("{idle_percentage}"@, dec(if used > 100 { 0 } else { (100 - used) as nat })),
        ],
    )
}

/// Renders the CPU label for a usage already truncated to a whole percent.
pub fn render_format(format: &str, used_percentage: u16) -> (r: String)
    ensures
        r@ == cpu_text(format@, used_percentage as nat),
{
    let idle: u16 = if used_percentage > 100 { 0 } else { 100 - used_percentage };
    let mut reps: Vec<(String, String)> = Vec::new();
    reps.push(pair("{used_percentage}", crate::num::u64_to_string(used_percentage as u64)));
    reps.push(pair("{idle_percentage}", crate::num::u64_to_string(idle as u64)));
    assert(reps.deep_view() =~= seq![
        ("{used_percentage}"@, dec(used_percentage as nat)),
        ("{idle_percentage}"@, dec(idle as nat)),
    ]);
    render_markup_template(format, &reps)
}

} // verus!
