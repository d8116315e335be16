//! Memory module: parsing `/proc/meminfo`.
use vstd::prelude::*;
use crate::num::{parse_u64, parse_uint};
use crate::text::{chars_of, lines, lines_chars, owned, split_whitespace_chars, split_ws, starts_with, starts_with_str};

verus! {

/// Module type name in the config.
pub const MODULE_TYPE: &'static str = "memory";
/// Lowest accepted refresh interval.
pub const MIN_MEMORY_INTERVAL_SECS: u32 = 1;
/// Refresh interval used when the config names none.
pub const DEFAULT_MEMORY_INTERVAL_SECS: u32 = 5;
/// Label format used when the config names none.
pub const DEFAULT_MEMORY_FORMAT: &'static str = "{used_percentage}%";

/// Memory figures in bytes.
#[derive(Debug, Clone, Copy, PartialEq, Eq)]
pub struct MemoryStatus {
    pub total_bytes: u64,
    pub used_bytes: u64,
    pub free_bytes: u64,
    pub available_bytes: u64,
}

/// The refresh interval actually used: at least one second.
pub fn normalized_memory_interval(interval_secs: u32) -> (r: u32)
    ensures
        r == if interval_secs < MIN_MEMORY_INTERVAL_SECS {
            MIN_MEMORY_INTERVAL_SECS
        } else {
            interval_secs
        },
{
    if interval_secs < MIN_MEMORY_INTERVAL_SECS {
        MIN_MEMORY_INTERVAL_SECS
    } else {
        interval_secs
    }
}

/// The value column of a meminfo line: its second word read as a `u64`.
pub open spec fn line_kib(line: Seq<char>) -> Option<nat> {
    let w = split_ws(line);
    if w.len() >= 2 {
        match parse_uint(w[1], u64::MAX as nat) {
            Ok(v) => Some(v),
            Err(_) => None,
        }
    } else {
        None
    }
}

/// Reading one line: the first `MemTotal:` and `MemAvailable:` lines whose
/// value reads fill the two slots; a line whose value does not read leaves
/// its slot open for a later line.
pub open spec fn meminfo_step(st: (Option<nat>, Option<nat>), line: Seq<char>) -> (Option<nat>, Option<nat>) {
    if st.0 is None && starts_with(line, "MemTotal:"@) {
        (line_kib(line), st.1)
    } else if st.1 is None && starts_with(line, "MemAvailable:"@) {
        (st.0, line_kib(line))
    } else {
        st
    }
}

/// The two slots after reading all the lines.
pub open spec fn meminfo_scan(ls: Seq<Seq<char>>) -> (Option<nat>, Option<nat>)
    decreases ls.len(),
{
    if ls.len() == 0 {
        (None, None)
    } else {
        meminfo_step(meminfo_scan(ls.drop_last()), ls.last())
    }
}

/// A multiplication by 1024 that stops at `u64::MAX`.
pub open spec fn kib_to_bytes(k: nat) -> nat {
    if k * 1024 > u64::MAX {
        u64::MAX as nat
    } else {
        k * 1024
    }
}

/// What `parse_meminfo` returns for a text.
pub open spec fn meminfo_spec(text: Seq<char>) -> Result<MemoryStatus, Seq<char>> {
    let st = meminfo_scan(lines(text));
    match st.0 {
        None => Err("missing MemTotal in /proc/meminfo"@),
        Some(t) => match st.1 {
            None => Err("missing MemAvailable in /proc/meminfo"@),
            Some(a) => {
                let total = kib_to_bytes(t);
                let avail0 = kib_to_bytes(a);
                let avail = if avail0 < total { avail0 } else { total };
                let used = (total - avail) as nat;
                Ok(
                    MemoryStatus {
                        total_bytes: total as u64,
                        used_bytes: used as u64,
                        free_bytes: (total - used) as u64,
                        available_bytes: avail as u64,
                    },
                )
            },
        },
    }
}

/// The figures read from `/proc/meminfo` add up: what is used and what is
/// free make up the total, the free memory is the available memory, which
/// is never more than the total, and the total is `MemTotal` in bytes
/// (saturating at `u64::MAX`).
pub proof fn lemma_meminfo_figures_add_up(text: Seq<char>)
    ensures
        meminfo_spec(text) matches Ok(st) ==> {
            &&& st.used_bytes + st.free_bytes == st.total_bytes
            &&& st.free_bytes == st.available_bytes
            &&& st.available_bytes <= st.total_bytes
            &&& meminfo_scan(lines(text)).0 matches Some(t) && st.total_bytes == kib_to_bytes(t)
        },
{
}

/// The value column of one meminfo line.
pub fn parse_meminfo_line_value_kib(line: &Vec<char>) -> (r: Option<u64>)
    ensures
        r == (match line_kib(line@) {
            Some(v) => Some(v as u64),
            None => None::<u64>,
        }),
{
    let words = split_whitespace_chars(line);
    if words.len() < 2 {
        return None;
    }
    proof {
        crate::text::lemma_chars_deep_view(words@[1]);
    }
    match parse_u64(&words[1]) {
        Ok(v) => Some(v),
        Err(_) => None,
    }
}

/// `kib * 1024`, saturating.
fn saturating_kib(k: u64) -> (r: u64)
    ensures
        r as nat == kib_to_bytes(k as nat),
{
    if k > u64::MAX / 1024 {
        u64::MAX
    } else {
        k * 1024
    }
}

/// Reads total and available memory from the text of `/proc/meminfo`.
pub fn parse_meminfo(meminfo: &str) -> (r: Result<MemoryStatus, String>)
    ensures
        match meminfo_spec(meminfo@) {
            Ok(s) => r == Ok::<MemoryStatus, String>(s),
            Err(m) => r matches Err(e) && e@ == m,
        },
        r matches Ok(st) ==> st.used_bytes + st.free_bytes == st.total_bytes && st.free_bytes == st.available_bytes,
{
    let text = chars_of(meminfo);
    let ls = lines_chars(&text);
    let mut total_kib: Option<u64> = None;
    let mut available_kib: Option<u64> = None;
    let mut i: usize = 0;
    while i < ls.len()
        invariant
            i <= ls.len(),
            ls.deep_view() == lines(meminfo@),
            ({
                let st = meminfo_scan(ls.deep_view().take(i as int));
                &&& total_kib == (match st.0 {
                    Some(v) => Some(v as u64),
                    None => None::<u64>,
                })
                &&& available_kib == (match st.1 {
                    Some(v) => Some(v as u64),
                    None => None::<u64>,
                })
                &&& (st.0 matches Some(v) ==> v <= u64::MAX)
                &&& (st.1 matches Some(v) ==> v <= u64::MAX)
            }),
        decreases ls.len() - i,
    {
        proof {
            crate::text::lemma_chars_deep_view(ls@[i as int]);
        }
        assert(ls.deep_view().take(i + 1).drop_last() =~= ls.deep_view().take(i as int));
        assert(ls.deep_view().take(i + 1).last() == ls@[i as int]@);
        if total_kib.is_none() && starts_with_str(&ls[i], "MemTotal:") {
            total_kib = parse_meminfo_line_value_kib(&ls[i]);
        } else if available_kib.is_none() && starts_with_str(&ls[i], "MemAvailable:") {
            available_kib = parse_meminfo_line_value_kib(&ls[i]);
        }
        i = i + 1;
    }
    assert(ls.deep_view().take(ls.len() as int) =~= ls.deep_view());
    let total_bytes = match total_kib {
        None => {
            return Err(owned("missing MemTotal in /proc/meminfo"));
        },
        Some(t) => saturating_kib(t),
    };
    let available_raw = match available_kib {
        None => {
            return Err(owned("missing MemAvailable in /proc/meminfo"));
        },
        Some(a) => saturating_kib(a),
    };
    let available_bytes = if available_raw < total_bytes { available_raw } else { total_bytes };
    let used_bytes = total_bytes - available_bytes;
    Ok(MemoryStatus {
        total_bytes,
        used_bytes,
        free_bytes: total_bytes - used_bytes,
        available_bytes,
    })
}

} // verus!
