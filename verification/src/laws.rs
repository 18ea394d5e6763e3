//! The guarantees of the reconciliation cycle that relate several functions
//! or several cycles, stated and proved over the cycle's specification.

use vstd::prelude::*;

use crate::actions::SyncAction;
use crate::model::{
    find_window, find_window_idx, find_workspace, spec_next_display_state, DisplayState,
    PlatformInput, StateV, UserConfig, Window, Workspace,
};
use crate::sync::{
    exclude_id, spec_border_actions, spec_cycle, spec_effect_actions, spec_focus_snapshot,
    spec_redraw, spec_reposition_action, spec_sync_focus_actions, spec_unfocused_candidates,
    SyncError,
};

verus! {

/// Law: the visibility state machine follows the transition table exactly. A
/// hidden or hiding window whose workspace is displayed starts showing; a
/// shown or showing window whose workspace is not displayed starts hiding;
/// every other combination leaves the state unchanged.
pub proof fn lemma_display_state_table(current: DisplayState, workspace_displayed: bool)
    ensures
        ((current is Hidden || current is Hiding) && workspace_displayed) ==> spec_next_display_state(
            current,
            workspace_displayed,
        ) is Showing,
        ((current is Shown || current is Showing) && !workspace_displayed)
            ==> spec_next_display_state(current, workspace_displayed) is Hiding,
        (!((current is Hidden || current is Hiding) && workspace_displayed) && !((current is Shown
            || current is Showing) && !workspace_displayed)) ==> spec_next_display_state(
            current,
            workspace_displayed,
        ) == current,
{
}

/// How many focus-changed notifications a log holds.
pub open spec fn count_focus_notifications(actions: Seq<SyncAction>) -> nat
    decreases actions.len(),
{
    if actions.len() == 0 {
        0
    } else {
        (if actions[0] is FocusChanged {
            1nat
        } else {
            0nat
        }) + count_focus_notifications(actions.drop_first())
    }
}

/// Every action of the log is a border-color call.
pub open spec fn all_border_calls(actions: Seq<SyncAction>) -> bool {
    forall|k: int| 0 <= k < actions.len() ==> actions[k] is SetBorderColor
}

proof fn lemma_count_concat(a: Seq<SyncAction>, b: Seq<SyncAction>)
    ensures
        count_focus_notifications(a + b) == count_focus_notifications(a)
            + count_focus_notifications(b),
    decreases a.len(),
{
    if a.len() == 0 {
        assert(a + b =~= b);
    } else {
        assert((a + b).drop_first() =~= a.drop_first() + b);
        lemma_count_concat(a.drop_first(), b);
    }
}

proof fn lemma_count_singleton(a: SyncAction)
    ensures
        count_focus_notifications(seq![a]) == (if a is FocusChanged {
            1nat
        } else {
            0nat
        }),
{
    assert(seq![a].drop_first() =~= Seq::<SyncAction>::empty());
    assert(count_focus_notifications(Seq::<SyncAction>::empty()) == 0);
}

/// The redraw pass emits no focus-changed notification.
proof fn lemma_redraw_no_notifications(
    windows: Seq<Window>,
    workspaces: Seq<Workspace>,
    queue: Seq<u64>,
)
    ensures
        count_focus_notifications(spec_redraw(windows, workspaces, queue).actions) == 0,
    decreases queue.len(),
{
    if queue.len() == 0 {
    } else {
        match find_window_idx(windows, queue[0]) {
            None => {
                lemma_redraw_no_notifications(windows, workspaces, queue.drop_first());
            },
            Some(wi) => {
                let w = windows[wi];
                match find_workspace(workspaces, w.workspace_id) {
                    None => {},
                    Some(ws) => {
                        let w2 = Window {
                            display_state: spec_next_display_state(
                                w.display_state,
                                ws.is_displayed,
                            ),
                            ..w
                        };
                        lemma_redraw_no_notifications(
                            windows.update(wi, w2),
                            workspaces,
                            queue.drop_first(),
                        );
                        lemma_count_singleton(spec_reposition_action(w2));
                        lemma_count_concat(
                            seq![spec_reposition_action(w2)],
                            spec_redraw(
                                windows.update(wi, w2),
                                workspaces,
                                queue.drop_first(),
                            ).actions,
                        );
                    },
                }
            },
        }
    }
}

/// The focus synchronizer emits exactly one focus-changed notification.
proof fn lemma_sync_focus_one_notification(
    windows: Seq<Window>,
    focused_id: u64,
    platform: PlatformInput,
)
    ensures
        count_focus_notifications(spec_sync_focus_actions(windows, focused_id, platform)) == 1,
{
    let note = SyncAction::FocusChanged { snapshot: spec_focus_snapshot(windows, focused_id) };
    lemma_count_singleton(note);
    match find_window(windows, focused_id) {
        Some(w) => {
            if platform.foreground_window != w.handle {
                lemma_count_singleton(SyncAction::SetForeground { handle: w.handle });
                lemma_count_concat(seq![SyncAction::SetForeground { handle: w.handle }], seq![note]);
            } else {
                assert(Seq::<SyncAction>::empty() + seq![note] =~= seq![note]);
            }
        },
        None => {
            if platform.foreground_window != platform.desktop_window {
                lemma_count_singleton(SyncAction::SetForeground { handle: platform.desktop_window });
                lemma_count_concat(
                    seq![SyncAction::SetForeground { handle: platform.desktop_window }],
                    seq![note],
                );
            } else {
                assert(Seq::<SyncAction>::empty() + seq![note] =~= seq![note]);
            }
        },
    }
}

/// The effects applier emits only border-color calls, so no notification.
proof fn lemma_effect_actions_are_borders(w: Window, is_focused: bool, config: UserConfig)
    ensures
        all_border_calls(spec_effect_actions(w, is_focused, config)),
        count_focus_notifications(spec_effect_actions(w, is_focused, config)) == 0,
{
    let acts = spec_effect_actions(w, is_focused, config);
    if acts.len() > 0 {
        lemma_count_singleton(acts[0]);
        assert(acts =~= seq![acts[0]]);
    }
}

/// Border calls for a whole candidate set are only border calls.
proof fn lemma_border_actions_are_borders(candidates: Seq<Window>, config: UserConfig)
    ensures
        all_border_calls(spec_border_actions(candidates, config)),
        count_focus_notifications(spec_border_actions(candidates, config)) == 0,
    decreases candidates.len(),
{
    if candidates.len() > 0 {
        let head = spec_effect_actions(candidates[0], false, config);
        let rest = spec_border_actions(candidates.drop_first(), config);
        lemma_effect_actions_are_borders(candidates[0], false, config);
        lemma_border_actions_are_borders(candidates.drop_first(), config);
        lemma_count_concat(head, rest);
        assert forall|k: int| 0 <= k < (head + rest).len() implies (head + rest)[k]
            is SetBorderColor by {
            if k < head.len() {
                assert((head + rest)[k] == head[k]);
            } else {
                assert((head + rest)[k] == rest[k - head.len()]);
            }
        }
    }
}

/// With unfocused borders disabled, the candidate pass emits nothing.
proof fn lemma_border_actions_empty_when_disabled(candidates: Seq<Window>, config: UserConfig)
    requires
        !config.unfocused_border.enabled,
    ensures
        spec_border_actions(candidates, config) == Seq::<SyncAction>::empty(),
    decreases candidates.len(),
{
    if candidates.len() > 0 {
        lemma_border_actions_empty_when_disabled(candidates.drop_first(), config);
        assert(spec_border_actions(candidates, config) =~= Seq::<SyncAction>::empty());
    }
}

/// Law: a completed cycle emits the focus-changed notification exactly once
/// if the focus-changed flag was set at cycle start, and not at all
/// otherwise.
pub proof fn lemma_focus_notification_once(s: StateV, config: UserConfig, platform: PlatformInput)
    requires
        spec_cycle(s, config, platform).result is Ok,
    ensures
        count_focus_notifications(spec_cycle(s, config, platform).actions) == (if s.focus_change {
            1nat
        } else {
            0nat
        }),
{
    let r = spec_redraw(s.windows, s.workspaces, s.containers_to_redraw);
    assert(r.ok);
    match s.focused_container {
        None => {
            assert(false);
        },
        Some(focused_id) => {
            let focus_acts = if s.focus_change {
                spec_sync_focus_actions(r.windows, focused_id, platform)
            } else {
                Seq::<SyncAction>::empty()
            };
            let focused_effect = match find_window(r.windows, focused_id) {
                Some(w) => spec_effect_actions(w, true, config),
                None => Seq::<SyncAction>::empty(),
            };
            let candidates = spec_unfocused_candidates(
                r.windows,
                s.recent_focused_container,
                s.reset_window_effects,
                focused_id,
            );
            let bacts = spec_border_actions(candidates, config);
            lemma_redraw_no_notifications(s.windows, s.workspaces, s.containers_to_redraw);
            if s.focus_change {
                lemma_sync_focus_one_notification(r.windows, focused_id, platform);
            }
            match find_window(r.windows, focused_id) {
                Some(w) => {
                    lemma_effect_actions_are_borders(w, true, config);
                },
                None => {},
            }
            lemma_border_actions_are_borders(candidates, config);
            lemma_count_concat(r.actions, focus_acts);
            lemma_count_concat(r.actions + focus_acts, focused_effect);
            lemma_count_concat(r.actions + focus_acts + focused_effect, bacts);
        },
    }
}

/// Law: a completed cycle consumes every pending intent: the redraw queue is
/// empty and both flags are cleared afterward, while the focus target and the
/// workspaces are untouched.
pub proof fn lemma_cycle_clears_intents(s: StateV, config: UserConfig, platform: PlatformInput)
    requires
        spec_cycle(s, config, platform).result is Ok,
    ensures
        ({
            let s1 = spec_cycle(s, config, platform).state;
            &&& s1.containers_to_redraw.len() == 0
            &&& !s1.focus_change
            &&& !s1.reset_window_effects
            &&& s1.focused_container == s.focused_container
            &&& s1.workspaces == s.workspaces
        }),
{
}

/// Law: after a completed cycle, an immediately following cycle with no
/// intervening model mutation issues no reposition call, no foreground
/// request and no notification — every action it can still emit is a
/// border-color call (the focused-window border is reapplied each cycle) —
/// and it leaves the model exactly as the first cycle left it.
pub proof fn lemma_second_cycle_issues_only_border_calls(
    s: StateV,
    config: UserConfig,
    p1: PlatformInput,
    p2: PlatformInput,
)
    requires
        spec_cycle(s, config, p1).result is Ok,
    ensures
        ({
            let out2 = spec_cycle(spec_cycle(s, config, p1).state, config, p2);
            &&& out2.result is Ok
            &&& all_border_calls(out2.actions)
            &&& out2.state == spec_cycle(s, config, p1).state
        }),
{
    let s1 = spec_cycle(s, config, p1).state;
    let r2 = spec_redraw(s1.windows, s1.workspaces, s1.containers_to_redraw);
    assert(s1.containers_to_redraw.len() == 0);
    assert(s1.containers_to_redraw =~= Seq::<u64>::empty());
    match s1.focused_container {
        None => {
            assert(false);
        },
        Some(focused_id) => {
            let focused_effect = match find_window(s1.windows, focused_id) {
                Some(w) => spec_effect_actions(w, true, config),
                None => Seq::<SyncAction>::empty(),
            };
            let candidates = spec_unfocused_candidates(
                s1.windows,
                s1.recent_focused_container,
                false,
                focused_id,
            );
            let bacts = spec_border_actions(candidates, config);
            match find_window(s1.windows, focused_id) {
                Some(w) => {
                    lemma_effect_actions_are_borders(w, true, config);
                },
                None => {},
            }
            lemma_border_actions_are_borders(candidates, config);
            let out2 = spec_cycle(s1, config, p2);
            assert(out2.actions =~= focused_effect + bacts);
            assert forall|k: int| 0 <= k < out2.actions.len() implies out2.actions[k]
                is SetBorderColor by {
                if k < focused_effect.len() {
                    assert(out2.actions[k] == focused_effect[k]);
                } else {
                    assert(out2.actions[k] == bacts[k - focused_effect.len()]);
                }
            }
        },
    }
}

/// Law: with border styling disabled for both window classes, a completed
/// cycle leaves nothing behind: an immediately following cycle with no
/// intervening model mutation issues zero native calls.
pub proof fn lemma_cycle_idempotent_without_borders(
    s: StateV,
    config: UserConfig,
    p1: PlatformInput,
    p2: PlatformInput,
)
    requires
        spec_cycle(s, config, p1).result is Ok,
        !config.focused_border.enabled,
        !config.unfocused_border.enabled,
    ensures
        spec_cycle(spec_cycle(s, config, p1).state, config, p2).actions == Seq::<
            SyncAction,
        >::empty(),
{
    let s1 = spec_cycle(s, config, p1).state;
    assert(s1.containers_to_redraw.len() == 0);
    match s1.focused_container {
        None => {
            assert(false);
        },
        Some(focused_id) => {
            let candidates = spec_unfocused_candidates(
                s1.windows,
                s1.recent_focused_container,
                false,
                focused_id,
            );
            lemma_border_actions_empty_when_disabled(candidates, config);
            assert(spec_cycle(s1, config, p2).actions =~= Seq::<SyncAction>::empty());
        },
    }
}

/// Law: a model with no focused container makes the cycle fail.
pub proof fn lemma_no_focused_container_fails(
    s: StateV,
    config: UserConfig,
    platform: PlatformInput,
)
    requires
        s.focused_container is None,
    ensures
        spec_cycle(s, config, platform).result is Err,
{
}

/// Law: a model with no focused container and an empty redraw queue makes
/// the cycle fail deterministically before issuing any native call, leaving
/// the model untouched. (With a non-empty redraw queue the reposition calls
/// of the redraw pass precede focus resolution, by the load-bearing step
/// order.)
pub proof fn lemma_no_focused_container_fails_before_any_call(
    s: StateV,
    config: UserConfig,
    platform: PlatformInput,
)
    requires
        s.focused_container is None,
        s.containers_to_redraw.len() == 0,
    ensures
        spec_cycle(s, config, platform).result == Err::<(), SyncError>(
            SyncError::NoFocusedContainer,
        ),
        spec_cycle(s, config, platform).actions == Seq::<SyncAction>::empty(),
        spec_cycle(s, config, platform).state == s,
{
    assert(s.containers_to_redraw =~= Seq::<u64>::empty());
}

/// The candidates kept by `exclude_id` are exactly the windows whose
/// identity differs from the excluded one, and never more windows than the
/// model has.
pub proof fn lemma_exclude_id_membership(windows: Seq<Window>, id: u64)
    ensures
        exclude_id(windows, id).len() <= windows.len(),
        forall|w: Window| #[trigger] exclude_id(windows, id).contains(w) <==> (windows.contains(w)
            && w.id != id),
    decreases windows.len(),
{
    let c = exclude_id(windows, id);
    if windows.len() == 0 {
        assert(c =~= Seq::<Window>::empty());
    } else {
        let rest = windows.drop_first();
        let crest = exclude_id(rest, id);
        lemma_exclude_id_membership(rest, id);
        assert forall|w: Window| #[trigger] c.contains(w) implies (windows.contains(w) && w.id
            != id) by {
            let k = choose|k: int| 0 <= k < c.len() && c[k] == w;
            if windows[0].id == id {
                assert(crest[k] == w);
                assert(crest.contains(w));
                let m = choose|m: int| 0 <= m < rest.len() && rest[m] == w;
                assert(windows[m + 1] == w);
            } else {
                if k == 0 {
                    assert(windows[0] == w);
                } else {
                    assert(crest[k - 1] == w);
                    assert(crest.contains(w));
                    let m = choose|m: int| 0 <= m < rest.len() && rest[m] == w;
                    assert(windows[m + 1] == w);
                }
            }
        }
        assert forall|w: Window| windows.contains(w) && w.id != id implies #[trigger] c.contains(
            w,
        ) by {
            let k = choose|k: int| 0 <= k < windows.len() && windows[k] == w;
            if k == 0 {
                assert(c[0] == w);
            } else {
                assert(rest[k - 1] == w);
                assert(rest.contains(w));
                assert(crest.contains(w));
                let m = choose|m: int| 0 <= m < crest.len() && crest[m] == w;
                if windows[0].id == id {
                    assert(c[m] == w);
                } else {
                    assert(c[m + 1] == w);
                }
            }
        }
    }
}

/// Every candidate's identity differs from the excluded one.
pub proof fn lemma_exclude_id_excludes(windows: Seq<Window>, id: u64)
    ensures
        forall|k: int| 0 <= k < exclude_id(windows, id).len() ==> (#[trigger] exclude_id(
            windows,
            id,
        )[k]).id != id,
    decreases windows.len(),
{
    if windows.len() > 0 {
        lemma_exclude_id_excludes(windows.drop_first(), id);
    }
}

/// Law: without an effects reset the unfocused candidate set has at most one
/// window and never the focused container.
pub proof fn lemma_effects_scope_no_reset(windows: Seq<Window>, recent: Option<u64>, focused_id: u64)
    ensures
        spec_unfocused_candidates(windows, recent, false, focused_id).len() <= 1,
        forall|k: int|
            0 <= k < spec_unfocused_candidates(windows, recent, false, focused_id).len()
                ==> (#[trigger] spec_unfocused_candidates(windows, recent, false, focused_id)[k]).id
                != focused_id,
{
    let base: Seq<Window> = match recent {
        Some(rid) => match find_window(windows, rid) {
            Some(w) => seq![w],
            None => Seq::<Window>::empty(),
        },
        None => Seq::<Window>::empty(),
    };
    lemma_exclude_id_membership(base, focused_id);
    lemma_exclude_id_excludes(base, focused_id);
}

/// Law: on an effects reset the unfocused candidate set is exactly all
/// windows of the model minus the focused container, whatever the recency
/// hint holds.
pub proof fn lemma_effects_scope_reset(windows: Seq<Window>, recent: Option<u64>, focused_id: u64)
    ensures
        forall|w: Window| #[trigger] spec_unfocused_candidates(
            windows,
            recent,
            true,
            focused_id,
        ).contains(w) <==> (windows.contains(w) && w.id != focused_id),
        forall|k: int|
            0 <= k < spec_unfocused_candidates(windows, recent, true, focused_id).len() ==> (
            #[trigger] spec_unfocused_candidates(windows, recent, true, focused_id)[k]).id
                != focused_id,
{
    lemma_exclude_id_membership(windows, focused_id);
    lemma_exclude_id_excludes(windows, focused_id);
}

} // verus!
