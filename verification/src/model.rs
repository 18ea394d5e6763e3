//! The declarative model: windows, workspaces, pending-sync intents, the
//! read-only effects configuration and the platform state sampled before a
//! cycle, together with the ghost view of the whole model.

use vstd::prelude::*;

use crate::geometry::{delta_fits, BorderDelta, Rect};

verus! {

/// Visibility lifecycle stage of a window.
#[derive(Clone, Copy, PartialEq, Eq, Debug)]
pub enum DisplayState {
    Shown,
    Showing,
    Hiding,
    Hidden,
}

/// Geometry class the platform needs when repositioning a window.
#[derive(Clone, Copy, PartialEq, Eq, Debug)]
pub enum WindowState {
    Tiling,
    Floating,
    Minimized,
    Fullscreen,
}

/// Next visibility stage for a window queued for redraw: a window whose
/// workspace is now displayed starts showing, one whose workspace is no
/// longer displayed starts hiding, and every other combination is left
/// unchanged.
pub open spec fn spec_next_display_state(
    current: DisplayState,
    workspace_displayed: bool,
) -> DisplayState {
    match (current, workspace_displayed) {
        (DisplayState::Hidden, true) => DisplayState::Showing,
        (DisplayState::Hiding, true) => DisplayState::Showing,
        (DisplayState::Shown, false) => DisplayState::Hiding,
        (DisplayState::Showing, false) => DisplayState::Hiding,
        (_, _) => current,
    }
}

/// Advance a window's visibility state machine by one redraw step.
pub fn next_display_state(current: DisplayState, workspace_displayed: bool) -> (r: DisplayState)
    ensures
        r == spec_next_display_state(current, workspace_displayed),
{
    match (current, workspace_displayed) {
        (DisplayState::Hidden, true) => DisplayState::Showing,
        (DisplayState::Hiding, true) => DisplayState::Showing,
        (DisplayState::Shown, false) => DisplayState::Hiding,
        (DisplayState::Showing, false) => DisplayState::Hiding,
        (_, _) => current,
    }
}

/// A window node: the container variant bound to a native window handle.
#[derive(Clone, Copy, PartialEq, Eq, Debug)]
pub struct Window {
    /// Stable container identity.
    pub id: u64,
    /// Native window handle.
    pub handle: u64,
    /// Identity of the workspace this window belongs to.
    pub workspace_id: u64,
    pub display_state: DisplayState,
    pub state: WindowState,
    /// Layout-computed target rectangle.
    pub rect: Rect,
    pub border_delta: BorderDelta,
    pub has_pending_dpi_adjustment: bool,
}

/// A workspace node, as far as this subsystem reads it.
#[derive(Clone, Copy, PartialEq, Eq, Debug)]
pub struct Workspace {
    /// Stable container identity.
    pub id: u64,
    /// Whether the workspace is currently shown on a monitor.
    pub is_displayed: bool,
}

/// Border styling for one window class (focused or unfocused).
#[derive(Clone, Copy, PartialEq, Eq, Debug)]
pub struct BorderConfig {
    pub enabled: bool,
    /// Packed RGB color.
    pub color: u32,
}

/// Read-only window-effects configuration.
#[derive(Clone, Copy, PartialEq, Eq, Debug)]
pub struct UserConfig {
    pub focused_border: BorderConfig,
    pub unfocused_border: BorderConfig,
}

/// Platform state sampled just before a reconciliation cycle: the handle of
/// the OS-reported foreground window and the handle of the abstract
/// desktop/root surface.
#[derive(Clone, Copy, PartialEq, Eq, Debug)]
pub struct PlatformInput {
    pub foreground_window: u64,
    pub desktop_window: u64,
}

/// Deferred intents written by upstream command handlers and drained
/// exclusively by the reconciliation cycle.
pub struct PendingSync {
    /// Identities of the windows queued for redraw, deduplicated upstream.
    pub containers_to_redraw: Vec<u64>,
    /// Whether the model's focus target changed since the last cycle.
    pub focus_change: bool,
    /// Whether border styling must be reapplied to every window.
    pub reset_window_effects: bool,
}

/// The process-wide model, passed explicitly into every operation.
pub struct WmState {
    pub windows: Vec<Window>,
    pub workspaces: Vec<Workspace>,
    /// Identity of the focused container; `None` only on a corrupted model.
    /// The focused container need not be a window (an empty workspace, say),
    /// so the identity may match no entry of `windows`.
    pub focused_container: Option<u64>,
    /// Non-authoritative recency hint: the previously focused container. It
    /// may reference a container that has since been removed and is always
    /// resolved through a lookup that tolerates absence.
    pub recent_focused_container: Option<u64>,
    pub pending_sync: PendingSync,
}

/// Ghost view of the whole model.
pub ghost struct StateV {
    pub windows: Seq<Window>,
    pub workspaces: Seq<Workspace>,
    pub focused_container: Option<u64>,
    pub recent_focused_container: Option<u64>,
    pub containers_to_redraw: Seq<u64>,
    pub focus_change: bool,
    pub reset_window_effects: bool,
}

impl View for WmState {
    type V = StateV;

    open spec fn view(&self) -> StateV {
        StateV {
            windows: self.windows@,
            workspaces: self.workspaces@,
            focused_container: self.focused_container,
            recent_focused_container: self.recent_focused_container,
            containers_to_redraw: self.pending_sync.containers_to_redraw@,
            focus_change: self.pending_sync.focus_change,
            reset_window_effects: self.pending_sync.reset_window_effects,
        }
    }
}

/// Machine-limit well-formedness: every window's delta-adjusted rectangle
/// fits in `i32` on every side.
pub open spec fn wf_state(s: StateV) -> bool {
    forall|k: int|
        0 <= k < s.windows.len() ==> delta_fits(
            #[trigger] s.windows[k].rect,
            s.windows[k].border_delta,
        )
}

/// Decide the machine-limit well-formedness of a model, so that an
/// unverified caller can test `platform_sync`'s precondition before calling
/// it.
pub fn check_state(state: &WmState) -> (r: bool)
    ensures
        r == wf_state(state@),
{
    let mut k: usize = 0;
    while k < state.windows.len()
        invariant
            k <= state.windows@.len(),
            forall|i: int|
                0 <= i < k ==> delta_fits(
                    #[trigger] state.windows@[i].rect,
                    state.windows@[i].border_delta,
                ),
        decreases state.windows@.len() - k,
    {
        let w = state.windows[k];
        let left: i64 = (w.rect.left as i64) - (w.border_delta.left as i64);
        let top: i64 = (w.rect.top as i64) - (w.border_delta.top as i64);
        let right: i64 = (w.rect.right as i64) + (w.border_delta.right as i64);
        let bottom: i64 = (w.rect.bottom as i64) + (w.border_delta.bottom as i64);
        let lo: i64 = i32::MIN as i64;
        let hi: i64 = i32::MAX as i64;
        if left < lo || left > hi || top < lo || top > hi || right < lo || right > hi || bottom
            < lo || bottom > hi {
            return false;
        }
        k = k + 1;
    }
    true
}

/// Index of the first window with the given container identity.
pub open spec fn find_window_idx(windows: Seq<Window>, id: u64) -> Option<int>
    decreases windows.len(),
{
    if windows.len() == 0 {
        None
    } else if windows[0].id == id {
        Some(0int)
    } else {
        match find_window_idx(windows.drop_first(), id) {
            Some(j) => Some(j + 1),
            None => None,
        }
    }
}

/// The first window with the given container identity, if any: the fallible
/// projection of a container identity onto the window-bearing containers.
pub open spec fn find_window(windows: Seq<Window>, id: u64) -> Option<Window> {
    match find_window_idx(windows, id) {
        Some(j) => Some(windows[j]),
        None => None,
    }
}

/// The first workspace with the given container identity, if any.
pub open spec fn find_workspace(workspaces: Seq<Workspace>, id: u64) -> Option<Workspace>
    decreases workspaces.len(),
{
    if workspaces.len() == 0 {
        None
    } else if workspaces[0].id == id {
        Some(workspaces[0])
    } else {
        find_workspace(workspaces.drop_first(), id)
    }
}

/// `find_window_idx` returns the first matching position, or `None` exactly
/// when no window matches.
pub proof fn lemma_find_window_idx(windows: Seq<Window>, id: u64)
    ensures
        match find_window_idx(windows, id) {
            Some(j) => 0 <= j < windows.len() && windows[j].id == id && (forall|k: int|
                0 <= k < j ==> windows[k].id != id),
            None => forall|k: int| 0 <= k < windows.len() ==> windows[k].id != id,
        },
    decreases windows.len(),
{
    if windows.len() > 0 && windows[0].id != id {
        lemma_find_window_idx(windows.drop_first(), id);
        assert(forall|k: int|
            0 <= k < windows.drop_first().len() ==> #[trigger] windows.drop_first()[k]
                == windows[k + 1]);
        match find_window_idx(windows.drop_first(), id) {
            Some(j) => {
                assert(windows[j + 1].id == id);
                assert(forall|k: int| 0 <= k < j + 1 ==> windows[k].id != id) by {
                    assert(forall|k: int|
                        1 <= k < j + 1 ==> windows[k] == windows.drop_first()[k - 1]);
                }
            },
            None => {
                assert(forall|k: int| 0 <= k < windows.len() ==> windows[k].id != id) by {
                    assert(forall|k: int|
                        1 <= k < windows.len() ==> windows[k] == windows.drop_first()[k - 1]);
                }
            },
        }
    }
}

/// A position that matches, with no earlier match, is the one
/// `find_window_idx` returns.
pub proof fn lemma_find_window_idx_from_witness(windows: Seq<Window>, id: u64, j: int)
    requires
        0 <= j < windows.len(),
        windows[j].id == id,
        forall|k: int| 0 <= k < j ==> windows[k].id != id,
    ensures
        find_window_idx(windows, id) == Some(j),
    decreases windows.len(),
{
    if j > 0 {
        assert(forall|k: int|
            0 <= k < windows.drop_first().len() ==> windows.drop_first()[k] == windows[k + 1]);
        lemma_find_window_idx_from_witness(windows.drop_first(), id, j - 1);
    }
}

/// When no window matches, `find_window_idx` returns `None`.
pub proof fn lemma_find_window_idx_none(windows: Seq<Window>, id: u64)
    requires
        forall|k: int| 0 <= k < windows.len() ==> windows[k].id != id,
    ensures
        find_window_idx(windows, id) is None,
    decreases windows.len(),
{
    if windows.len() > 0 {
        assert(forall|k: int|
            0 <= k < windows.drop_first().len() ==> windows.drop_first()[k] == windows[k + 1]);
        lemma_find_window_idx_none(windows.drop_first(), id);
    }
}

/// Look up the first window with the given container identity.
pub fn find_window_index(windows: &Vec<Window>, id: u64) -> (r: Option<usize>)
    ensures
        match r {
            Some(i) => i < windows@.len() && find_window_idx(windows@, id) == Some(i as int),
            None => find_window_idx(windows@, id) is None,
        },
{
    let mut i: usize = 0;
    while i < windows.len()
        invariant
            i <= windows@.len(),
            forall|k: int| 0 <= k < i ==> windows@[k].id != id,
        decreases windows@.len() - i,
    {
        if windows[i].id == id {
            proof {
                lemma_find_window_idx_from_witness(windows@, id, i as int);
            }
            return Some(i);
        }
        i = i + 1;
    }
    proof {
        lemma_find_window_idx_none(windows@, id);
    }
    None
}

/// Resolve a container identity to its workspace, if one exists.
pub fn lookup_workspace(workspaces: &Vec<Workspace>, id: u64) -> (r: Option<Workspace>)
    ensures
        r == find_workspace(workspaces@, id),
{
    let mut i: usize = 0;
    proof {
        assert(workspaces@.skip(0) =~= workspaces@);
    }
    while i < workspaces.len()
        invariant
            i <= workspaces@.len(),
            find_workspace(workspaces@, id) == find_workspace(workspaces@.skip(i as int), id),
        decreases workspaces@.len() - i,
    {
        proof {
            assert(workspaces@.skip(i as int)[0] == workspaces@[i as int]);
            assert(workspaces@.skip(i as int).drop_first() =~= workspaces@.skip(i as int + 1));
        }
        if workspaces[i].id == id {
            return Some(workspaces[i]);
        }
        i = i + 1;
    }
    proof {
        assert(workspaces@.skip(i as int) =~= Seq::<Workspace>::empty());
    }
    None
}

} // verus!
