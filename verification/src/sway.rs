//! Sway modules: the binding mode, the focused window and the workspaces.
use vstd::prelude::*;
use crate::markup::{escape, escape_markup_text, render_markup_template, render_template};
use crate::order::{num_sorted, sort_by_num, NumKey};
use crate::text::{is_blank, is_blank_str, opt_str_view, opt_view, owned, str_eq};

verus! {

/// Type name of the binding-mode module.
pub const MODE_MODULE_TYPE: &'static str = "sway/mode";
/// Type name of the window-title module.
pub const WINDOW_MODULE_TYPE: &'static str = "sway/window";
/// Type name of the workspaces module.
pub const WORKSPACES_MODULE_TYPE: &'static str = "sway/workspaces";
/// Format used when the config names none; `{}` is the mode or title.
pub const DEFAULT_FORMAT: &'static str = "{}";
/// Shown when sway cannot be reached.
pub const SWAY_UNAVAILABLE_TEXT: &'static str = "sway?";
/// The mode in which the mode module hides.
pub const DEFAULT_MODE_NAME: &'static str = "default";
/// Longest window title shown, in characters, before it is ellipsized.
pub const MAX_WINDOW_TITLE_CHARS: i32 = 80;

/// The default format.
pub fn default_format() -> (r: String)
    ensures
        r@ == DEFAULT_FORMAT@,
{
    owned(DEFAULT_FORMAT)
}

// ---------------------------------------------------------------------------
// Binding mode
// ---------------------------------------------------------------------------

/// A label text and whether it is shown.
#[derive(Debug, Clone)]
pub struct LabelUpdate {
    pub text: String,
    pub visible: bool,
}

/// What the label shows when sway cannot be reached.
pub fn sway_unavailable_update() -> (u: LabelUpdate)
    ensures
        u.text@ == escape(SWAY_UNAVAILABLE_TEXT@),
        u.visible,
{
    LabelUpdate { text: escape_markup_text(SWAY_UNAVAILABLE_TEXT), visible: true }
}

/// The mode label: hidden in the default mode or without a mode,
/// otherwise the format with `{}` replaced by the mode, shown unless blank.
pub fn mode_update(mode: &str, format: &str) -> (u: LabelUpdate)
    ensures
        (mode@ == DEFAULT_MODE_NAME@ || mode@.len() == 0) ==> (u.text@ == Seq::<char>::empty() && !u.visible),
        !(mode@ == DEFAULT_MODE_NAME@ || mode@.len() == 0) ==> (u.text@ == render_template(format@, seq![("{}"@, mode@)])
            && u.visible == !is_blank(u.text@)),
{
    if str_eq(mode, DEFAULT_MODE_NAME) || mode.is_empty() {
        return LabelUpdate { text: String::new(), visible: false };
    }
    let mut reps: Vec<(String, String)> = Vec::new();
    reps.push((owned("{}"), owned(mode)));
    assert(reps.deep_view() =~= seq![("{}"@, mode@)]);
    let text = render_markup_template(format, &reps);
    let visible = !is_blank_str(text.as_str());
    LabelUpdate { text, visible }
}

// ---------------------------------------------------------------------------
// The layout tree
// ---------------------------------------------------------------------------

/// The kind of a node of sway's layout tree.
#[derive(Debug, Clone, Copy, PartialEq, Eq, Structural)]
pub enum NodeKind {
    Root,
    Output,
    Workspace,
    Con,
    FloatingCon,
    Dockarea,
}

/// A node of sway's layout tree, as far as the bar reads it.
#[derive(Debug)]
pub struct SwayNode {
    pub node_type: NodeKind,
    pub name: Option<String>,
    pub focused: bool,
    pub nodes: Vec<SwayNode>,
    pub floating_nodes: Vec<SwayNode>,
}

/// The name of the workspace that holds the focused node of `n`, given the
/// workspace around it: the first focused node in depth-first order (tiled
/// children before floating ones) gives the innermost named workspace
/// around it (or itself).
pub open spec fn focused_workspace_in(n: SwayNode, ctx: Option<Seq<char>>) -> Option<Seq<char>>
    decreases n, 1int,
{
    let here = if n.node_type == NodeKind::Workspace {
        match n.name {
            Some(s) => Some(s@),
            None => ctx,
        }
    } else {
        ctx
    };
    if n.focused {
        here
    } else {
        proof {
            assert(decreases_to!(n => n.nodes));
            assert(decreases_to!(n.nodes => n.nodes@));
            assert(decreases_to!(n => n.floating_nodes));
            assert(decreases_to!(n.floating_nodes => n.floating_nodes@));
        }
        match focused_workspace_in_list(n.nodes@, here) {
            Some(s) => Some(s),
            None => focused_workspace_in_list(n.floating_nodes@, here),
        }
    }
}

/// The first answer of `focused_workspace_in` among the nodes, in order.
pub open spec fn focused_workspace_in_list(s: Seq<SwayNode>, ctx: Option<Seq<char>>) -> Option<Seq<char>>
    decreases s, 0int,
{
    if s.len() == 0 {
        None
    } else {
        proof {
            assert(decreases_to!(s => s[0]));
        }
        match focused_workspace_in(s[0], ctx) {
            Some(x) => Some(x),
            None => focused_workspace_in_list(s.subrange(1, s.len() as int), ctx),
        }
    }
}

/// The view of an optional borrowed string.
fn opt_owned(o: Option<&str>) -> (r: Option<String>)
    ensures
        opt_view(r) == opt_str_view(o),
{
    match o {
        Some(s) => Some(owned(s)),
        None => None,
    }
}

/// Searches the nodes, in order, for the focused workspace.
fn focused_workspace_name_in_list(s: &Vec<SwayNode>, ctx: Option<&str>) -> (r: Option<String>)
    ensures
        opt_view(r) == focused_workspace_in_list(s@, opt_str_view(ctx)),
    decreases s@, 0int,
{
    let ghost all = s@;
    let mut i: usize = 0;
    assert(all.subrange(0, all.len() as int) =~= all);
    while i < s.len()
        invariant
            all == s@,
            i <= s.len(),
            focused_workspace_in_list(all, opt_str_view(ctx)) == focused_workspace_in_list(
                all.subrange(i as int, all.len() as int),
                opt_str_view(ctx),
            ),
        decreases s.len() - i,
    {
        let ghost rest = all.subrange(i as int, all.len() as int);
        assert(rest[0] == all[i as int]);
        assert(rest.subrange(1, rest.len() as int) =~= all.subrange(i + 1, all.len() as int));
        proof {
            assert(decreases_to!(s@ => s@[i as int]));
        }
        match focused_workspace_name_in_node_with_context(&s[i], ctx) {
            Some(name) => {
                return Some(name);
            },
            None => {},
        }
        i = i + 1;
    }
    None
}

/// The name of the workspace that holds the focused node, given the
/// workspace around `node`.
pub fn focused_workspace_name_in_node_with_context(node: &SwayNode, current_workspace: Option<&str>) -> (r: Option<String>)
    ensures
        opt_view(r) == focused_workspace_in(*node, opt_str_view(current_workspace)),
    decreases *node, 1int,
{
    let here: Option<&str> = if node.node_type == NodeKind::Workspace {
        match &node.name {
            Some(s) => Some(s.as_str()),
            None => current_workspace,
        }
    } else {
        current_workspace
    };
    if node.focused {
        return opt_owned(here);
    }
    proof {
        assert(decreases_to!(*node => node.nodes));
        assert(decreases_to!(node.nodes => node.nodes@));
        assert(decreases_to!(*node => node.floating_nodes));
        assert(decreases_to!(node.floating_nodes => node.floating_nodes@));
    }
    match focused_workspace_name_in_list(&node.nodes, here) {
        Some(name) => Some(name),
        None => focused_workspace_name_in_list(&node.floating_nodes, here),
    }
}

/// The name of the workspace that holds the focused node of the tree.
pub fn focused_workspace_name_in_node(root: &SwayNode) -> (r: Option<String>)
    ensures
        opt_view(r) == focused_workspace_in(*root, None),
{
    focused_workspace_name_in_node_with_context(root, None)
}

/// The title and output of the focused window.
#[derive(Debug, Clone)]
pub struct FocusedWindowInfo {
    pub title: Option<String>,
    pub output: Option<String>,
}

/// The view of a focused-window answer.
pub open spec fn info_view(o: Option<FocusedWindowInfo>) -> Option<(Option<Seq<char>>, Option<Seq<char>>)> {
    match o {
        Some(i) => Some((opt_view(i.title), opt_view(i.output))),
        None => None,
    }
}

/// The focused window under `n`, given the output around it: children
/// first (tiled, then floating), then `n` itself when focused; its title is
/// its name unless it is a workspace, output or the root; its output is
/// the innermost named output around it.
pub open spec fn focused_window_in(n: SwayNode, ctx: Option<Seq<char>>) -> Option<(Option<Seq<char>>, Option<Seq<char>>)>
    decreases n, 1int,
{
    let here = if n.node_type == NodeKind::Output {
        match n.name {
            Some(s) => Some(s@),
            None => ctx,
        }
    } else {
        ctx
    };
    proof {
        assert(decreases_to!(n => n.nodes));
        assert(decreases_to!(n.nodes => n.nodes@));
        assert(decreases_to!(n => n.floating_nodes));
        assert(decreases_to!(n.floating_nodes => n.floating_nodes@));
    }
    match focused_window_in_list(n.nodes@, here) {
        Some(x) => Some(x),
        None => match focused_window_in_list(n.floating_nodes@, here) {
            Some(x) => Some(x),
            None => if !n.focused {
                None
            } else {
                let title = if n.node_type == NodeKind::Workspace || n.node_type == NodeKind::Output
                    || n.node_type == NodeKind::Root {
                    None
                } else {
                    match n.name {
                        Some(s) => Some(s@),
                        None => None,
                    }
                };
                Some((title, here))
            },
        },
    }
}

/// The first answer of `focused_window_in` among the nodes, in order.
pub open spec fn focused_window_in_list(s: Seq<SwayNode>, ctx: Option<Seq<char>>) -> Option<(Option<Seq<char>>, Option<Seq<char>>)>
    decreases s, 0int,
{
    if s.len() == 0 {
        None
    } else {
        proof {
            assert(decreases_to!(s => s[0]));
        }
        match focused_window_in(s[0], ctx) {
            Some(x) => Some(x),
            None => focused_window_in_list(s.subrange(1, s.len() as int), ctx),
        }
    }
}

/// Searches the nodes, in order, for the focused window.
fn focused_window_info_in_list(s: &Vec<SwayNode>, ctx: Option<&str>) -> (r: Option<FocusedWindowInfo>)
    ensures
        info_view(r) == focused_window_in_list(s@, opt_str_view(ctx)),
    decreases s@, 0int,
{
    let ghost all = s@;
    let mut i: usize = 0;
    assert(all.subrange(0, all.len() as int) =~= all);
    while i < s.len()
        invariant
            all == s@,
            i <= s.len(),
            focused_window_in_list(all, opt_str_view(ctx)) == focused_window_in_list(
                all.subrange(i as int, all.len() as int),
                opt_str_view(ctx),
            ),
        decreases s.len() - i,
    {
        let ghost rest = all.subrange(i as int, all.len() as int);
        assert(rest[0] == all[i as int]);
        assert(rest.subrange(1, rest.len() as int) =~= all.subrange(i + 1, all.len() as int));
        proof {
            assert(decreases_to!(s@ => s@[i as int]));
        }
        match focused_window_info_in_node(&s[i], ctx) {
            Some(info) => {
                return Some(info);
            },
            None => {},
        }
        i = i + 1;
    }
    None
}

/// The focused window under `node`, given the output around it.
pub fn focused_window_info_in_node(node: &SwayNode, current_output: Option<&str>) -> (r: Option<FocusedWindowInfo>)
    ensures
        info_view(r) == focused_window_in(*node, opt_str_view(current_output)),
    decreases *node, 1int,
{
    let here: Option<&str> = if node.node_type == NodeKind::Output {
        match &node.name {
            Some(s) => Some(s.as_str()),
            None => current_output,
        }
    } else {
        current_output
    };
    proof {
        assert(decreases_to!(*node => node.nodes));
        assert(decreases_to!(node.nodes => node.nodes@));
        assert(decreases_to!(*node => node.floating_nodes));
        assert(decreases_to!(node.floating_nodes => node.floating_nodes@));
    }
    match focused_window_info_in_list(&node.nodes, here) {
        Some(info) => {
            return Some(info);
        },
        None => {},
    }
    match focused_window_info_in_list(&node.floating_nodes, here) {
        Some(info) => {
            return Some(info);
        },
        None => {},
    }
    if !node.focused {
        return None;
    }
    let title = if node.node_type == NodeKind::Workspace || node.node_type == NodeKind::Output
        || node.node_type == NodeKind::Root {
        None
    } else {
        match &node.name {
            Some(s) => Some(s.clone()),
            None => None,
        }
    };
    Some(FocusedWindowInfo { title, output: opt_owned(here) })
}

/// The focused window of the tree.
pub fn focused_window_info(root: &SwayNode) -> (r: Option<FocusedWindowInfo>)
    ensures
        info_view(r) == focused_window_in(*root, None),
{
    focused_window_info_in_node(root, None)
}

// ---------------------------------------------------------------------------
// Window title
// ---------------------------------------------------------------------------

/// What the window module shows: the title and the output of the focused
/// window.
#[derive(Debug, Clone)]
pub struct WindowUpdate {
    pub title: String,
    pub output: Option<String>,
    pub visible: bool,
}

/// The window label for the focused window: hidden without a title,
/// otherwise the format with `{}` and `{title}` replaced by the title,
/// shown unless blank.
pub fn window_update(info: Option<FocusedWindowInfo>, format: &str) -> (u: WindowUpdate)
    ensures
        opt_view(u.output) == match info_view(info) {
            Some(i) => i.1,
            None => None,
        },
        ({
            let title = match info_view(info) {
                Some((Some(t), _)) => t,
                _ => Seq::<char>::empty(),
            };
            if title.len() == 0 {
                u.title@ == Seq::<char>::empty() && !u.visible
            } else {
                u.title@ == render_template(format@, seq![("{}"@, title), ("{title}"@, title)])
                    && u.visible == !is_blank(u.title@)
            }
        }),
{
    let (title, output) = match info {
        Some(i) => (
            match i.title {
                Some(t) => t,
                None => String::new(),
            },
            i.output,
        ),
        None => (String::new(), None),
    };
    if title.as_str().is_empty() {
        return WindowUpdate { title: String::new(), output, visible: false };
    }
    let mut reps: Vec<(String, String)> = Vec::new();
    reps.push((owned("{}"), title.clone()));
    reps.push((owned("{title}"), title.clone()));
    assert(reps.deep_view() =~= seq![("{}"@, title@), ("{title}"@, title@)]);
    let rendered = render_markup_template(format, &reps);
    let visible = !is_blank_str(rendered.as_str());
    WindowUpdate { title: rendered, output, visible }
}

/// Whether a bar on `output_filter` shows the window update: a bar tied to
/// an output shows only windows on that output.
pub fn window_shown_on(output_filter: Option<&str>, update: &WindowUpdate) -> (r: bool)
    ensures
        r == (update.visible && match (opt_str_view(output_filter), opt_view(update.output)) {
            (Some(expected), Some(current)) => expected == current,
            (Some(_), None) => false,
            (None, _) => true,
        }),
{
    let belongs = match (output_filter, &update.output) {
        (Some(expected), Some(current)) => str_eq(expected, current.as_str()),
        (Some(_), None) => false,
        (None, _) => true,
    };
    belongs && update.visible
}

// ---------------------------------------------------------------------------
// Workspaces
// ---------------------------------------------------------------------------

/// A workspace as sway lists it.
#[derive(Debug, Clone)]
pub struct WorkspaceInfo {
    pub name: String,
    pub num: i32,
    pub focused: bool,
    pub visible: bool,
    pub output: String,
}

impl WorkspaceInfo {
    /// A copy of the record.
    pub fn duplicate(&self) -> (r: Self)
        ensures
            r == *self,
    {
        WorkspaceInfo {
            name: self.name.clone(),
            num: self.num,
            focused: self.focused,
            visible: self.visible,
            output: self.output.clone(),
        }
    }
}

impl NumKey for WorkspaceInfo {
    open spec fn num_key(&self) -> int {
        self.num as int
    }

    fn key_num(&self) -> (r: i64) {
        self.num as i64
    }
}

/// A workspace button.
#[derive(Debug, Clone)]
pub struct WorkspaceButton {
    pub name: String,
    pub active: bool,
}

/// The workspaces on the bar's output (all, without one), in list order.
pub open spec fn on_output(ws: Seq<WorkspaceInfo>, output: Option<Seq<char>>) -> Seq<WorkspaceInfo> {
    ws.filter(
        |w: WorkspaceInfo|
            match output {
                Some(o) => w.output@ == o,
                None => true,
            },
    )
}

/// The name of the first focused workspace of the list.
pub open spec fn first_focused(ws: Seq<WorkspaceInfo>) -> Option<Seq<char>>
    decreases ws.len(),
{
    if ws.len() == 0 {
        None
    } else if ws[0].focused {
        Some(ws[0].name@)
    } else {
        first_focused(ws.drop_first())
    }
}

/// The buttons: the workspaces on the output sorted by number (equal
/// numbers keep their order), the one named by the tree's focus (else the
/// first focused one of the list) active.
pub open spec fn buttons_match(
    r: Seq<WorkspaceButton>,
    ws: Seq<WorkspaceInfo>,
    output: Option<Seq<char>>,
    focused_from_tree: Option<Seq<char>>,
) -> bool {
    let shown = num_sorted(on_output(ws, output));
    let focused = match focused_from_tree {
        Some(f) => Some(f),
        None => first_focused(shown),
    };
    &&& r.len() == shown.len()
    &&& forall|i: int| 0 <= i < r.len() ==> #[trigger] r[i].name@ == shown[i].name@ && r[i].active == (focused == Some(shown[i].name@))
}

/// The button for a workspace: its name, active when it is the focused one.
pub open spec fn button_for(b: WorkspaceButton, w: WorkspaceInfo, focused: Option<Seq<char>>) -> bool {
    b.name@ == w.name@ && b.active == (focused == Some(w.name@))
}

/// The buttons of the workspaces module.
pub fn workspace_buttons(
    workspaces: Vec<WorkspaceInfo>,
    output_filter: Option<&str>,
    focused_from_tree: Option<String>,
) -> (r: Vec<WorkspaceButton>)
    ensures
        buttons_match(r@, workspaces@, opt_str_view(output_filter), opt_view(focused_from_tree)),
{
    let ghost all = workspaces@;
    let ghost out = opt_str_view(output_filter);
    let mut kept: Vec<WorkspaceInfo> = Vec::new();
    let mut workspaces = workspaces;
    let mut i: usize = 0;
    let n = workspaces.len();
    while i < n
        invariant
            all == workspaces@,
            out == opt_str_view(output_filter),
            n == workspaces.len(),
            i <= n,
            kept@ == on_output(all.take(i as int), out),
        decreases n - i,
    {
        proof {
            reveal(Seq::filter);
            assert(all.take(i + 1).drop_last() =~= all.take(i as int));
            assert(all.take(i + 1).last() == all[i as int]);
        }
        let keep = match output_filter {
            Some(o) => str_eq(workspaces[i].output.as_str(), o),
            None => true,
        };
        if keep {
            kept.push(workspaces[i].duplicate());
        }
        i = i + 1;
    }
    assert(all.take(n as int) =~= all);
    let sorted = sort_by_num(kept);
    let ghost shown = sorted@;
    assert(shown == num_sorted(on_output(all, out)));
    let ghost from_tree = opt_view(focused_from_tree);
    let mut focused: Option<String> = focused_from_tree;
    if focused.is_none() {
        let mut j: usize = 0;
        assert(shown.skip(0) =~= shown);
        while j < sorted.len() && focused.is_none()
            invariant
                shown == sorted@,
                j <= sorted.len(),
                focused is None ==> first_focused(shown) == first_focused(shown.skip(j as int)),
                focused is Some ==> opt_view(focused) == first_focused(shown),
            decreases sorted.len() - j,
        {
            assert(shown.skip(j as int)[0] == shown[j as int]);
            if sorted[j].focused {
                focused = Some(sorted[j].name.clone());
            }
            assert(shown.skip(j as int).drop_first() =~= shown.skip(j + 1));
            j = j + 1;
        }
        if focused.is_none() {
            assert(shown.skip(j as int).len() == 0);
        }
    }
    assert(opt_view(focused) == match from_tree {
        Some(f) => Some(f),
        None => first_focused(shown),
    });
    let ghost fv = opt_view(focused);
    let mut buttons: Vec<WorkspaceButton> = Vec::new();
    let mut k: usize = 0;
    while k < sorted.len()
        invariant
            shown == sorted@,
            k <= sorted.len(),
            buttons.len() == k,
            fv == opt_view(focused),
            forall|m: int| 0 <= m < k ==> button_for(#[trigger] buttons@[m], shown[m], fv),
        decreases sorted.len() - k,
    {
        let active = match &focused {
            Some(f) => str_eq(f.as_str(), sorted[k].name.as_str()),
            None => false,
        };
        let b = WorkspaceButton { name: sorted[k].name.clone(), active };
        assert(button_for(b, shown[k as int], fv));
        buttons.push(b);
        k = k + 1;
    }
    assert forall|i: int| 0 <= i < buttons@.len() implies #[trigger] buttons@[i].name@ == shown[i].name@
        && buttons@[i].active == ((match from_tree {
            Some(f) => Some(f),
            None => first_focused(shown),
        }) == Some(shown[i].name@)) by {
        assert(button_for(buttons@[i], shown[i], fv));
    }
    buttons
}

} // verus!
