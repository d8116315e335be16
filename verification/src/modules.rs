//! What all modules share: the module types, CSS classes and click setup.
use vstd::prelude::*;
use crate::text::{chars_of, owned, push_str, split_whitespace_strings, split_ws, str_eq, string_from_chars};

verus! {

/// The modules the bar knows.
#[derive(Debug, Clone, Copy, PartialEq, Eq, Structural)]
pub enum ModuleKind {
    Backlight,
    Battery,
    Exec,
    Cpu,
    Disk,
    Memory,
    Playerctl,
    Group,
    PulseAudio,
    SwayMode,
    SwayWindow,
    SwayWorkspaces,
    Temperature,
    Clock,
    Tray,
}

/// The `type` of each module in the config, in the order they are tried.
pub open spec fn module_kinds() -> Seq<(Seq<char>, ModuleKind)> {
    seq![
        ("backlight"@, ModuleKind::Backlight),
        ("battery"@, ModuleKind::Battery),
        ("exec"@, ModuleKind::Exec),
        ("cpu"@, ModuleKind::Cpu),
        ("disk"@, ModuleKind::Disk),
        ("memory"@, ModuleKind::Memory),
        ("playerctl"@, ModuleKind::Playerctl),
        ("group"@, ModuleKind::Group),
        ("pulseaudio"@, ModuleKind::PulseAudio),
        ("sway/mode"@, ModuleKind::SwayMode),
        ("sway/window"@, ModuleKind::SwayWindow),
        ("sway/workspaces"@, ModuleKind::SwayWorkspaces),
        ("temperature"@, ModuleKind::Temperature),
        ("clock"@, ModuleKind::Clock),
        ("tray"@, ModuleKind::Tray),
    ]
}

/// The first module whose type is `t`.
pub open spec fn kind_named(kinds: Seq<(Seq<char>, ModuleKind)>, t: Seq<char>) -> Option<ModuleKind>
    decreases kinds.len(),
{
    if kinds.len() == 0 {
        None
    } else if kinds[0].0 == t {
        Some(kinds[0].1)
    } else {
        kind_named(kinds.drop_first(), t)
    }
}

/// The text of an unknown module type error.
pub open spec fn unknown_module_message(t: Seq<char>) -> Seq<char> {
    "unknown module type '"@ + t + "'"@
}

/// The module a config entry asks for, by its `type`.
pub fn module_kind(module_type: &str) -> (r: Result<ModuleKind, String>)
    ensures
        match kind_named(module_kinds(), module_type@) {
            Some(k) => r == Ok::<ModuleKind, String>(k),
            None => r matches Err(e) && e@ == unknown_module_message(module_type@),
        },
{
    let ghost all = module_kinds();
    let mut names: Vec<&str> = Vec::new();
    names.push("backlight");
    names.push("battery");
    names.push("exec");
    names.push("cpu");
    names.push("disk");
    names.push("memory");
    names.push("playerctl");
    names.push("group");
    names.push("pulseaudio");
    names.push("sway/mode");
    names.push("sway/window");
    names.push("sway/workspaces");
    names.push("temperature");
    names.push("clock");
    names.push("tray");
    let mut kinds: Vec<ModuleKind> = Vec::new();
    kinds.push(ModuleKind::Backlight);
    kinds.push(ModuleKind::Battery);
    kinds.push(ModuleKind::Exec);
    kinds.push(ModuleKind::Cpu);
    kinds.push(ModuleKind::Disk);
    kinds.push(ModuleKind::Memory);
    kinds.push(ModuleKind::Playerctl);
    kinds.push(ModuleKind::Group);
    kinds.push(ModuleKind::PulseAudio);
    kinds.push(ModuleKind::SwayMode);
    kinds.push(ModuleKind::SwayWindow);
    kinds.push(ModuleKind::SwayWorkspaces);
    kinds.push(ModuleKind::Temperature);
    kinds.push(ModuleKind::Clock);
    kinds.push(ModuleKind::Tray);
    assert(names.len() == 15 && kinds.len() == 15);
    assert forall|j: int| 0 <= j < 15 implies (#[trigger] names@[j])@ == all[j].0 && kinds@[j] == all[j].1 by {}
    let mut i: usize = 0;
    assert(all.skip(0) =~= all);
    while i < 15
        invariant
            i <= 15,
            names.len() == 15,
            kinds.len() == 15,
            all == module_kinds(),
            forall|j: int| 0 <= j < 15 ==> (#[trigger] names@[j])@ == all[j].0 && kinds@[j] == all[j].1,
            kind_named(all, module_type@) == kind_named(all.skip(i as int), module_type@),
        decreases 15 - i,
    {
        assert(all.skip(i as int)[0] == all[i as int]);
        if str_eq(names[i], module_type) {
            return Ok(kinds[i]);
        }
        assert(all.skip(i as int).drop_first() =~= all.skip(i + 1));
        i = i + 1;
    }
    assert(all.skip(15).len() == 0);
    let mut m = chars_of("unknown module type '");
    push_str(&mut m, module_type);
    push_str(&mut m, "'");
    Err(string_from_chars(&m))
}

/// The words of an optional `class` setting.
pub open spec fn user_classes(classes: Option<&str>) -> Seq<Seq<char>> {
    match classes {
        Some(c) => split_ws(c@),
        None => Seq::empty(),
    }
}

/// The CSS classes named by a `class` setting, split at white space.
pub fn css_classes(classes: Option<&str>) -> (r: Vec<String>)
    ensures
        r.deep_view() == user_classes(classes),
{
    match classes {
        Some(c) => {
            let v = chars_of(c);
            split_whitespace_strings(&v)
        },
        None => {
            let r: Vec<String> = Vec::new();
            assert(r.deep_view() =~= Seq::<Seq<char>>::empty());
            r
        },
    }
}

/// The classes of a module label: `module`, the module's class, the
/// user's classes, and `clickable` when a click runs a command.
pub open spec fn label_classes(module_class: Seq<char>, classes: Option<&str>, clickable: bool) -> Seq<Seq<char>> {
    seq!["module"@, module_class] + user_classes(classes) + if clickable { seq!["clickable"@] } else { Seq::empty() }
}

/// The CSS classes of a module label.
pub fn module_label_classes(module_class: &str, classes: Option<&str>, click_command: &Option<String>) -> (r: Vec<String>)
    ensures
        r.deep_view() == label_classes(module_class@, classes, click_command is Some),
{
    let mut r: Vec<String> = Vec::new();
    r.push(owned("module"));
    r.push(owned(module_class));
    let user = css_classes(classes);
    let mut i: usize = 0;
    let ghost head = r.deep_view();
    assert(head =~= seq!["module"@, module_class@]);
    while i < user.len()
        invariant
            i <= user.len(),
            r.deep_view() == head + user.deep_view().take(i as int),
        decreases user.len() - i,
    {
        let ghost before = r.deep_view();
        r.push(user[i].clone());
        assert(r.deep_view() =~= before.push(user.deep_view()[i as int]));
        assert(user.deep_view().take(i + 1) =~= user.deep_view().take(i as int).push(user.deep_view()[i as int]));
        i = i + 1;
    }
    assert(user.deep_view().take(user.len() as int) =~= user.deep_view());
    let ghost mid = r.deep_view();
    if click_command.is_some() {
        r.push(owned("clickable"));
        assert(r.deep_view() =~= mid + seq!["clickable"@]);
    } else {
        assert(r.deep_view() =~= mid + Seq::<Seq<char>>::empty());
    }
    r
}

/// The mouse button that runs the click command, and the secondary one.
pub const PRIMARY_BUTTON: u32 = 1;
/// The secondary mouse button.
pub const SECONDARY_BUTTON: u32 = 3;

} // verus!
