//! Module groups: several modules side by side, optionally in a drawer.
use vstd::prelude::*;
use crate::num::dec;
use crate::text::{chars_of, owned, push_all, push_str, string_from_chars};

verus! {

/// Module type name in the config.
pub const MODULE_TYPE: &'static str = "group";
/// Spacing between children used when the config names none.
pub const DEFAULT_SPACING: i32 = 6;
/// Drawer toggle label while closed.
pub const DEFAULT_DRAWER_LABEL_CLOSED: &'static str = "\u{f106}";
/// Drawer toggle label while open.
pub const DEFAULT_DRAWER_LABEL_OPEN: &'static str = "\u{f107}";
/// Error for a group without modules.
pub const EMPTY_GROUP_MESSAGE: &'static str = "invalid group module config: field `modules` must not be empty";

/// The `drawer` section of the config.
#[derive(Debug, Clone)]
pub struct GroupDrawerConfig {
    pub label_closed: String,
    pub label_open: String,
    pub start_open: bool,
}

/// The `drawer` setting as written: a flag or a section.
#[derive(Debug, Clone)]
pub enum GroupDrawerInput {
    Enabled(bool),
    Config(GroupDrawerConfig),
}

/// The spacing used when the config names none.
pub fn default_spacing() -> (r: i32)
    ensures
        r == DEFAULT_SPACING,
{
    DEFAULT_SPACING
}

/// The closed drawer label used when the config names none.
pub fn default_drawer_label_closed() -> (r: String)
    ensures
        r@ == DEFAULT_DRAWER_LABEL_CLOSED@,
{
    owned(DEFAULT_DRAWER_LABEL_CLOSED)
}

/// The open drawer label used when the config names none.
pub fn default_drawer_label_open() -> (r: String)
    ensures
        r@ == DEFAULT_DRAWER_LABEL_OPEN@,
{
    owned(DEFAULT_DRAWER_LABEL_OPEN)
}

/// A drawer with the default labels, closed at start.
pub fn default_drawer() -> (d: GroupDrawerConfig)
    ensures
        d.label_closed@ == DEFAULT_DRAWER_LABEL_CLOSED@,
        d.label_open@ == DEFAULT_DRAWER_LABEL_OPEN@,
        !d.start_open,
{
    GroupDrawerConfig {
        label_closed: default_drawer_label_closed(),
        label_open: default_drawer_label_open(),
        start_open: false,
    }
}

/// The drawer a `drawer` setting asks for: `true` is the default drawer,
/// `false` or nothing is none, a section is that drawer.
pub fn drawer_from_input(input: Option<GroupDrawerInput>) -> (r: Option<GroupDrawerConfig>)
    ensures
        match input {
            None => r is None,
            Some(GroupDrawerInput::Enabled(false)) => r is None,
            Some(GroupDrawerInput::Enabled(true)) => r matches Some(d) && d.label_closed@ == DEFAULT_DRAWER_LABEL_CLOSED@
                && d.label_open@ == DEFAULT_DRAWER_LABEL_OPEN@ && !d.start_open,
            Some(GroupDrawerInput::Config(c)) => r == Some(c),
        },
{
    match input {
        None => None,
        Some(GroupDrawerInput::Enabled(true)) => Some(default_drawer()),
        Some(GroupDrawerInput::Enabled(false)) => None,
        Some(GroupDrawerInput::Config(c)) => Some(c),
    }
}

/// A group must hold at least one module.
pub fn check_group_modules(module_count: usize) -> (r: Result<(), String>)
    ensures
        module_count > 0 ==> r is Ok,
        module_count == 0 ==> (r matches Err(e) && e@ == EMPTY_GROUP_MESSAGE@),
{
    if module_count == 0 {
        Err(owned(EMPTY_GROUP_MESSAGE))
    } else {
        Ok(())
    }
}

/// The spacing used: never negative.
pub fn normalized_spacing(spacing: i32) -> (r: i32)
    ensures
        r == if spacing < 0 { 0 } else { spacing },
{
    if spacing < 0 {
        0
    } else {
        spacing
    }
}

/// The error for a child module that could not be built.
pub fn child_module_error(index: usize, err: &str) -> (r: String)
    ensures
        r@ == "invalid child module at index "@ + dec(index as nat) + ": "@ + err@,
{
    let mut v = chars_of("invalid child module at index ");
    let d = crate::num::u64_to_chars(index as u64);
    push_all(&mut v, &d);
    push_str(&mut v, ": ");
    push_str(&mut v, err);
    string_from_chars(&v)
}

/// The toggle label of a drawer: the open label while open, else the
/// closed one.
pub fn drawer_toggle_label(drawer: &GroupDrawerConfig, open: bool) -> (r: String)
    ensures
        r@ == if open { drawer.label_open@ } else { drawer.label_closed@ },
{
    if open {
        drawer.label_open.clone()
    } else {
        drawer.label_closed.clone()
    }
}

} // verus!
