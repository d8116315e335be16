//! The disk module: usage figures from a file-system query.
use vstd::prelude::*;
use crate::markup::{escape, escape_markup_text};
use crate::text::{chars_of, owned, push_str, string_from_chars};

verus! {

/// Module type name in the config.
pub const MODULE_TYPE: &'static str = "disk";
/// Lowest accepted refresh interval.
pub const MIN_DISK_INTERVAL_SECS: u32 = 1;
/// Refresh interval used when the config names none.
pub const DEFAULT_DISK_INTERVAL_SECS: u32 = 30;
/// Path used when the config names none.
pub const DEFAULT_DISK_PATH: &'static str = "/";
/// Label format used when the config names none.
pub const DEFAULT_DISK_FORMAT: &'static str = "{free}";

/// The refresh interval used when the config names none.
pub fn default_disk_interval() -> (r: u32)
    ensures
        r == DEFAULT_DISK_INTERVAL_SECS,
{
    DEFAULT_DISK_INTERVAL_SECS
}

/// The refresh interval actually used: at least one second.
pub fn normalized_disk_interval(interval_secs: u32) -> (r: u32)
    ensures
        r == if interval_secs < MIN_DISK_INTERVAL_SECS { MIN_DISK_INTERVAL_SECS } else { interval_secs },
{
    if interval_secs < MIN_DISK_INTERVAL_SECS {
        MIN_DISK_INTERVAL_SECS
    } else {
        interval_secs
    }
}

/// The path and format used: the configured ones, else the defaults.
pub fn resolve_disk_config(path: Option<String>, format: Option<String>) -> (r: (String, String))
    ensures
        r.0@ == match path {
            Some(p) => p@,
            None => DEFAULT_DISK_PATH@,
        },
        r.1@ == match format {
            Some(f) => f@,
            None => DEFAULT_DISK_FORMAT@,
        },
{
    let p = match path {
        Some(p) => p,
        None => owned(DEFAULT_DISK_PATH),
    };
    let f = match format {
        Some(f) => f,
        None => owned(DEFAULT_DISK_FORMAT),
    };
    (p, f)
}

/// The usage of a file system.
#[derive(Debug, Clone)]
pub struct DiskStatus {
    pub path: String,
    pub free_bytes: u64,
    pub used_bytes: u64,
    pub total_bytes: u64,
}

/// The usage from the figures of `statvfs`: the total and the space free
/// to users in fragments of `fragment_size` bytes; used is the total less
/// all free space (never below zero).
pub fn disk_status_from_stat(path: &str, fragment_size: u64, blocks: u64, blocks_available: u64, blocks_free: u64) -> (r: DiskStatus)
    requires
        blocks * fragment_size <= u64::MAX,
        blocks_available * fragment_size <= u64::MAX,
        blocks_free * fragment_size <= u64::MAX,
    ensures
        r.path@ == path@,
        r.total_bytes == blocks * fragment_size,
        r.free_bytes == blocks_available * fragment_size,
        r.used_bytes == if blocks * fragment_size >= blocks_free * fragment_size {
            (blocks * fragment_size - blocks_free * fragment_size) as u64
        } else {
            0
        },
{
    let total = blocks * fragment_size;
    let free = blocks_available * fragment_size;
    let all_free = blocks_free * fragment_size;
    let used = if total >= all_free { total - all_free } else { 0 };
    DiskStatus { path: owned(path), free_bytes: free, used_bytes: used, total_bytes: total }
}

/// The label shown when the file system cannot be queried.
pub fn disk_error_text(err: &str) -> (r: String)
    ensures
        r@ == escape("disk error: "@ + err@),
{
    let mut v = chars_of("disk error: ");
    push_str(&mut v, err);
    let s = string_from_chars(&v);
    escape_markup_text(s.as_str())
}

} // verus!
