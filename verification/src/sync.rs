//! The reconciliation cycle: the redraw reconciler, the focus synchronizer,
//! the window-effects applier and the orchestrator that runs them in order
//! and clears the consumed intents.
//!
//! Every function both mutates the model and appends the native calls it
//! decides on to an action log; `spec_cycle` is the mathematical statement of
//! one whole cycle, and `platform_sync`'s contract ties the executable code
//! to it.

use vstd::prelude::*;

use crate::actions::{FocusedSnapshot, SyncAction};
use crate::geometry::spec_apply_delta;
use crate::model::{
    find_window, find_window_idx, find_window_index, find_workspace, lookup_workspace,
    next_display_state, spec_next_display_state, wf_state, BorderConfig, PlatformInput, StateV,
    UserConfig, Window, WmState, Workspace,
};

verus! {

/// Invariant violations that abort the whole cycle: they indicate model
/// corruption and are surfaced to the invoking command layer.
#[derive(Clone, Copy, PartialEq, Eq, Debug)]
pub enum SyncError {
    /// The model has no focused container.
    NoFocusedContainer,
    /// A window queued for redraw belongs to no workspace.
    WindowHasNoWorkspace,
}

/// Outcome of the redraw pass, at the specification level: the windows after
/// the visibility transitions, the reposition calls issued, and whether the
/// pass ran to completion. On a failure the windows and calls of the queue
/// entries already processed are kept: their native calls were already
/// issued when the violation was found.
pub ghost struct RedrawOut {
    pub windows: Seq<Window>,
    pub actions: Seq<SyncAction>,
    pub ok: bool,
}

/// The one reposition call issued for a window after its visibility
/// transition.
pub open spec fn spec_reposition_action(w: Window) -> SyncAction {
    SyncAction::SetPosition {
        handle: w.handle,
        state: w.state,
        display_state: w.display_state,
        rect: spec_apply_delta(w.rect, w.border_delta),
        has_pending_dpi_adjustment: w.has_pending_dpi_adjustment,
    }
}

/// The redraw pass over the queued identities, front first. A queued
/// identity that no longer resolves to a window is ignored (the window was
/// closed while queued); a window whose workspace cannot be resolved aborts
/// the pass.
pub open spec fn spec_redraw(
    windows: Seq<Window>,
    workspaces: Seq<Workspace>,
    queue: Seq<u64>,
) -> RedrawOut
    decreases queue.len(),
{
    if queue.len() == 0 {
        RedrawOut { windows, actions: Seq::empty(), ok: true }
    } else {
        match find_window_idx(windows, queue[0]) {
            None => spec_redraw(windows, workspaces, queue.drop_first()),
            Some(wi) => {
                let w = windows[wi];
                match find_workspace(workspaces, w.workspace_id) {
                    None => RedrawOut { windows, actions: Seq::empty(), ok: false },
                    Some(ws) => {
                        let w2 = Window {
                            display_state: spec_next_display_state(
                                w.display_state,
                                ws.is_displayed,
                            ),
                            ..w
                        };
                        let rest = spec_redraw(
                            windows.update(wi, w2),
                            workspaces,
                            queue.drop_first(),
                        );
                        RedrawOut {
                            windows: rest.windows,
                            actions: seq![spec_reposition_action(w2)] + rest.actions,
                            ok: rest.ok,
                        }
                    },
                }
            },
        }
    }
}

/// The snapshot the focus-changed notification carries.
pub open spec fn spec_focus_snapshot(windows: Seq<Window>, focused_id: u64) -> FocusedSnapshot {
    FocusedSnapshot {
        container_id: focused_id,
        window_handle: match find_window(windows, focused_id) {
            Some(w) => Some(w.handle),
            None => None,
        },
    }
}

/// The calls the focus synchronizer issues: a foreground request for the
/// focused window's handle (or for the desktop surface when the focused
/// container bears no window) only when the sampled foreground differs, then
/// exactly one focus-changed notification.
pub open spec fn spec_sync_focus_actions(
    windows: Seq<Window>,
    focused_id: u64,
    platform: PlatformInput,
) -> Seq<SyncAction> {
    let foreground = match find_window(windows, focused_id) {
        Some(w) => if platform.foreground_window != w.handle {
            seq![SyncAction::SetForeground { handle: w.handle }]
        } else {
            Seq::<SyncAction>::empty()
        },
        None => if platform.foreground_window != platform.desktop_window {
            seq![SyncAction::SetForeground { handle: platform.desktop_window }]
        } else {
            Seq::<SyncAction>::empty()
        },
    };
    foreground + seq![
        SyncAction::FocusChanged { snapshot: spec_focus_snapshot(windows, focused_id) },
    ]
}

/// The border configuration that applies to a window class.
pub open spec fn spec_border_config(config: UserConfig, is_focused: bool) -> BorderConfig {
    if is_focused {
        config.focused_border
    } else {
        config.unfocused_border
    }
}

/// The calls the effects applier issues for one window: one border-color
/// call when borders are enabled for its class, nothing otherwise.
pub open spec fn spec_effect_actions(
    w: Window,
    is_focused: bool,
    config: UserConfig,
) -> Seq<SyncAction> {
    let border = spec_border_config(config, is_focused);
    if border.enabled {
        seq![SyncAction::SetBorderColor { handle: w.handle, color: border.color }]
    } else {
        Seq::<SyncAction>::empty()
    }
}

/// The subsequence of `windows` whose identity differs from `id`, in order.
pub open spec fn exclude_id(windows: Seq<Window>, id: u64) -> Seq<Window>
    decreases windows.len(),
{
    if windows.len() == 0 {
        Seq::empty()
    } else if windows[0].id == id {
        exclude_id(windows.drop_first(), id)
    } else {
        seq![windows[0]] + exclude_id(windows.drop_first(), id)
    }
}

/// The unfocused candidate set: on an effects reset every window of the
/// model, otherwise at most the most recently focused window; the focused
/// container is excluded either way.
pub open spec fn spec_unfocused_candidates(
    windows: Seq<Window>,
    recent: Option<u64>,
    reset: bool,
    focused_id: u64,
) -> Seq<Window> {
    let base = if reset {
        windows
    } else {
        match recent {
            Some(rid) => match find_window(windows, rid) {
                Some(w) => seq![w],
                None => Seq::<Window>::empty(),
            },
            None => Seq::<Window>::empty(),
        }
    };
    exclude_id(base, focused_id)
}

/// The unfocused-border calls for a candidate set, in order.
pub open spec fn spec_border_actions(candidates: Seq<Window>, config: UserConfig) -> Seq<
    SyncAction,
>
    decreases candidates.len(),
{
    if candidates.len() == 0 {
        Seq::empty()
    } else {
        spec_effect_actions(candidates[0], false, config) + spec_border_actions(
            candidates.drop_first(),
            config,
        )
    }
}

/// Outcome of one whole reconciliation cycle, at the specification level.
pub ghost struct CycleOut {
    pub state: StateV,
    pub actions: Seq<SyncAction>,
    pub result: Result<(), SyncError>,
}

/// One whole reconciliation cycle over the model: the redraw pass, then
/// focus resolution (aborting when the model has no focused container), then
/// the focus synchronizer when the focus-changed flag is set, then window
/// effects, with the consumed intents cleared. The unfocused candidate set
/// is selected with the recency hint as it stood at cycle start.
pub open spec fn spec_cycle(s: StateV, config: UserConfig, platform: PlatformInput) -> CycleOut {
    let r = spec_redraw(s.windows, s.workspaces, s.containers_to_redraw);
    if !r.ok {
        CycleOut {
            state: StateV { windows: r.windows, ..s },
            actions: r.actions,
            result: Err(SyncError::WindowHasNoWorkspace),
        }
    } else {
        match s.focused_container {
            None => CycleOut {
                state: StateV {
                    windows: r.windows,
                    containers_to_redraw: Seq::<u64>::empty(),
                    ..s
                },
                actions: r.actions,
                result: Err(SyncError::NoFocusedContainer),
            },
            Some(focused_id) => {
                let focus_actions = if s.focus_change {
                    spec_sync_focus_actions(r.windows, focused_id, platform)
                } else {
                    Seq::<SyncAction>::empty()
                };
                let focused_effect = match find_window(r.windows, focused_id) {
                    Some(w) => spec_effect_actions(w, true, config),
                    None => Seq::<SyncAction>::empty(),
                };
                let candidates = spec_unfocused_candidates(
                    r.windows,
                    s.recent_focused_container,
                    s.reset_window_effects,
                    focused_id,
                );
                CycleOut {
                    state: StateV {
                        windows: r.windows,
                        workspaces: s.workspaces,
                        focused_container: s.focused_container,
                        recent_focused_container: if s.focus_change {
                            Some(focused_id)
                        } else {
                            s.recent_focused_container
                        },
                        containers_to_redraw: Seq::<u64>::empty(),
                        focus_change: false,
                        reset_window_effects: false,
                    },
                    actions: r.actions + focus_actions + focused_effect + spec_border_actions(
                        candidates,
                        config,
                    ),
                    result: Ok(()),
                }
            },
        }
    }
}

/// Apply border styling to one window: look up the border configuration for
/// its class and, when enabled, issue one set-border-color call.
pub fn apply_window_effects(
    window: &Window,
    is_focused: bool,
    config: &UserConfig,
    actions: &mut Vec<SyncAction>,
)
    ensures
        final(actions)@ == old(actions)@ + spec_effect_actions(*window, is_focused, *config),
{
    let enable_borders = if is_focused {
        config.focused_border.enabled
    } else {
        config.unfocused_border.enabled
    };
    if enable_borders {
        let color = if is_focused {
            config.focused_border.color
        } else {
            config.unfocused_border.color
        };
        actions.push(SyncAction::SetBorderColor { handle: window.handle, color });
        proof {
            assert(actions@ =~= old(actions)@ + spec_effect_actions(
                *window,
                is_focused,
                *config,
            ));
        }
    } else {
        proof {
            assert(actions@ =~= old(actions)@ + spec_effect_actions(
                *window,
                is_focused,
                *config,
            ));
        }
    }
}

/// Align native focus with the model's focused container: request foreground
/// for its window handle (or for the desktop surface when it bears no
/// window) when the sampled foreground differs, emit the focus-changed
/// notification, and update the recency hint.
pub fn sync_focus(
    state: &mut WmState,
    focused_id: u64,
    platform: &PlatformInput,
    actions: &mut Vec<SyncAction>,
)
    ensures
        final(state)@ == (StateV { recent_focused_container: Some(focused_id), ..old(state)@ }),
        final(actions)@ == old(actions)@ + spec_sync_focus_actions(
            old(state)@.windows,
            focused_id,
            *platform,
        ),
{
    let window_handle: Option<u64> = match find_window_index(&state.windows, focused_id) {
        Some(i) => Some(state.windows[i].handle),
        None => None,
    };
    match window_handle {
        Some(handle) => {
            if platform.foreground_window != handle {
                actions.push(SyncAction::SetForeground { handle });
            }
        },
        None => {
            if platform.foreground_window != platform.desktop_window {
                actions.push(SyncAction::SetForeground { handle: platform.desktop_window });
            }
        },
    }
    actions.push(
        SyncAction::FocusChanged {
            snapshot: FocusedSnapshot { container_id: focused_id, window_handle },
        },
    );
    state.recent_focused_container = Some(focused_id);
    proof {
        assert(actions@ =~= old(actions)@ + spec_sync_focus_actions(
            old(state)@.windows,
            focused_id,
            *platform,
        ));
    }
}

/// Drain the redraw queue: advance each queued window's visibility state
/// machine and issue one reposition call for it. A window whose workspace
/// cannot be resolved aborts the pass; the transitions and calls of the
/// entries already processed stand, since their native calls are already
/// out. The queue itself is cleared by the orchestrator.
pub fn redraw_containers(state: &mut WmState, actions: &mut Vec<SyncAction>) -> (r: Result<
    (),
    SyncError,
>)
    requires
        wf_state(old(state)@),
    ensures
        ({
            let out = spec_redraw(
                old(state)@.windows,
                old(state)@.workspaces,
                old(state)@.containers_to_redraw,
            );
            &&& final(state)@ == (StateV { windows: out.windows, ..old(state)@ })
            &&& final(actions)@ == old(actions)@ + out.actions
            &&& r == (if out.ok {
                Ok::<(), SyncError>(())
            } else {
                Err::<(), SyncError>(SyncError::WindowHasNoWorkspace)
            })
            &&& wf_state(final(state)@)
        }),
{
    let ghost w0: Seq<Window> = state.windows@;
    let ghost wss: Seq<Workspace> = state.workspaces@;
    let ghost q: Seq<u64> = state.pending_sync.containers_to_redraw@;
    let ghost a0: Seq<SyncAction> = actions@;
    let ghost mut emitted: Seq<SyncAction> = Seq::empty();
    proof {
        assert(q.skip(0) =~= q);
        assert(emitted + spec_redraw(w0, wss, q).actions =~= spec_redraw(w0, wss, q).actions);
        assert(a0 + emitted =~= a0);
    }
    let n = state.pending_sync.containers_to_redraw.len();
    let mut qi: usize = 0;
    while qi < n
        invariant
            qi <= n,
            n == q.len(),
            w0 == old(state)@.windows,
            wss == old(state)@.workspaces,
            q == old(state)@.containers_to_redraw,
            a0 == old(actions)@,
            state.workspaces@ == wss,
            state.pending_sync.containers_to_redraw@ == q,
            state.focused_container == old(state).focused_container,
            state.recent_focused_container == old(state).recent_focused_container,
            state.pending_sync.focus_change == old(state).pending_sync.focus_change,
            state.pending_sync.reset_window_effects == old(
                state,
            ).pending_sync.reset_window_effects,
            wf_state(state@),
            actions@ == a0 + emitted,
            ({
                let rest = spec_redraw(state.windows@, wss, q.skip(qi as int));
                spec_redraw(w0, wss, q) == (RedrawOut {
                    windows: rest.windows,
                    actions: emitted + rest.actions,
                    ok: rest.ok,
                })
            }),
        decreases n - qi,
    {
        proof {
            assert(q.skip(qi as int)[0] == q[qi as int]);
            assert(q.skip(qi as int).drop_first() =~= q.skip(qi as int + 1));
        }
        let id = state.pending_sync.containers_to_redraw[qi];
        match find_window_index(&state.windows, id) {
            None => {},
            Some(wi) => {
                let w = state.windows[wi];
                proof {
                    crate::model::lemma_find_window_idx(state.windows@, id);
                }
                match lookup_workspace(&state.workspaces, w.workspace_id) {
                    None => {
                        proof {
                            let rest = spec_redraw(state.windows@, wss, q.skip(qi as int));
                            assert(rest.actions =~= Seq::<SyncAction>::empty());
                            assert(emitted + rest.actions =~= emitted);
                        }
                        return Err(SyncError::WindowHasNoWorkspace);
                    },
                    Some(workspace) => {
                        let next = next_display_state(w.display_state, workspace.is_displayed);
                        let w2 = Window { display_state: next, ..w };
                        let ghost pre_windows: Seq<Window> = state.windows@;
                        state.windows[wi] = w2;
                        let target_rect = w2.rect.apply_delta(&w2.border_delta);
                        let action = SyncAction::SetPosition {
                            handle: w2.handle,
                            state: w2.state,
                            display_state: w2.display_state,
                            rect: target_rect,
                            has_pending_dpi_adjustment: w2.has_pending_dpi_adjustment,
                        };
                        actions.push(action);
                        proof {
                            assert(state.windows@ =~= pre_windows.update(wi as int, w2));
                            assert(action == spec_reposition_action(w2));
                            let rest_next = spec_redraw(state.windows@, wss, q.skip(qi as int + 1));
                            assert(emitted + (seq![action] + rest_next.actions) =~= emitted.push(
                                action,
                            ) + rest_next.actions);
                            emitted = emitted.push(action);
                            assert(actions@ =~= a0 + emitted);
                        }
                    },
                }
            },
        }
        qi = qi + 1;
    }
    proof {
        assert(q.skip(n as int) =~= Seq::<u64>::empty());
        let rest = spec_redraw(state.windows@, wss, q.skip(n as int));
        assert(rest.actions =~= Seq::<SyncAction>::empty());
        assert(emitted + rest.actions =~= emitted);
    }
    Ok(())
}

/// One whole reconciliation cycle, in the load-bearing order: drain the
/// redraw queue and clear it, resolve the focused container (aborting when
/// none exists), synchronize native focus when the focus-changed flag is
/// set and clear the flag, apply window effects to the focused window and
/// to the unfocused candidate set, and clear the effects-reset flag.
///
/// The native calls decided on are appended to `actions`, in issue order,
/// for the caller to perform; on an aborted cycle the calls already decided
/// on stay in the log, exactly as they were already issued when the
/// violation was found.
#[verifier::rlimit(60)]
pub fn platform_sync(
    state: &mut WmState,
    config: &UserConfig,
    platform: &PlatformInput,
    actions: &mut Vec<SyncAction>,
) -> (r: Result<(), SyncError>)
    requires
        wf_state(old(state)@),
    ensures
        ({
            let out = spec_cycle(old(state)@, *config, *platform);
            &&& final(state)@ == out.state
            &&& final(actions)@ == old(actions)@ + out.actions
            &&& r == out.result
        }),
{
    let ghost s0: StateV = state@;
    let ghost a0: Seq<SyncAction> = actions@;
    let ghost rout: RedrawOut = spec_redraw(s0.windows, s0.workspaces, s0.containers_to_redraw);

    if state.pending_sync.containers_to_redraw.len() > 0 {
        match redraw_containers(state, actions) {
            Err(e) => {
                return Err(e);
            },
            Ok(()) => {},
        }
        state.pending_sync.containers_to_redraw.clear();
    } else {
        proof {
            assert(s0.containers_to_redraw =~= Seq::<u64>::empty());
            assert(a0 + rout.actions =~= a0);
        }
    }
    proof {
        assert(rout.ok);
        assert(state@ == (StateV {
            windows: rout.windows,
            containers_to_redraw: Seq::<u64>::empty(),
            ..s0
        }));
        assert(actions@ == a0 + rout.actions);
        assert(wf_state(state@));
    }

    let recent_focused = state.recent_focused_container;
    let focused_id = match state.focused_container {
        Some(id) => id,
        None => {
            return Err(SyncError::NoFocusedContainer);
        },
    };

    let ghost focus_acts: Seq<SyncAction> = if s0.focus_change {
        spec_sync_focus_actions(rout.windows, focused_id, *platform)
    } else {
        Seq::<SyncAction>::empty()
    };
    if state.pending_sync.focus_change {
        sync_focus(state, focused_id, platform, actions);
        state.pending_sync.focus_change = false;
    } else {
        proof {
            assert(actions@ + focus_acts =~= actions@);
        }
    }
    proof {
        assert(state@ == (StateV {
            windows: rout.windows,
            containers_to_redraw: Seq::<u64>::empty(),
            recent_focused_container: if s0.focus_change {
                Some(focused_id)
            } else {
                s0.recent_focused_container
            },
            focus_change: false,
            ..s0
        }));
        assert(actions@ =~= a0 + rout.actions + focus_acts);
    }

    let ghost focused_effect: Seq<SyncAction> = match find_window(rout.windows, focused_id) {
        Some(w) => spec_effect_actions(w, true, *config),
        None => Seq::<SyncAction>::empty(),
    };
    match find_window_index(&state.windows, focused_id) {
        Some(i) => {
            let w = state.windows[i];
            apply_window_effects(&w, true, config, actions);
        },
        None => {
            proof {
                assert(actions@ + focused_effect =~= actions@);
            }
        },
    }
    proof {
        assert(actions@ =~= a0 + rout.actions + focus_acts + focused_effect);
    }

    let ghost candidates: Seq<Window> = spec_unfocused_candidates(
        rout.windows,
        s0.recent_focused_container,
        s0.reset_window_effects,
        focused_id,
    );
    let ghost bacts: Seq<SyncAction> = spec_border_actions(candidates, *config);
    let ghost s2: StateV = state@;
    let ghost a2: Seq<SyncAction> = actions@;
    let ghost cw: Seq<Window> = state.windows@;

    if state.pending_sync.reset_window_effects {
        let ghost mut emitted: Seq<SyncAction> = Seq::empty();
        proof {
            assert(cw.skip(0) =~= cw);
            assert(emitted + spec_border_actions(exclude_id(cw, focused_id), *config)
                =~= spec_border_actions(exclude_id(cw, focused_id), *config));
            assert(a2 + emitted =~= a2);
        }
        let wn = state.windows.len();
        let mut j: usize = 0;
        while j < wn
            invariant
                j <= wn,
                wn == cw.len(),
                state@ == s2,
                cw == s2.windows,
                actions@ == a2 + emitted,
                spec_border_actions(exclude_id(cw, focused_id), *config) == emitted
                    + spec_border_actions(exclude_id(cw.skip(j as int), focused_id), *config),
            decreases wn - j,
        {
            proof {
                assert(cw.skip(j as int)[0] == cw[j as int]);
                assert(cw.skip(j as int).drop_first() =~= cw.skip(j as int + 1));
            }
            let w = state.windows[j];
            if w.id != focused_id {
                apply_window_effects(&w, false, config, actions);
                proof {
                    let rest_next = spec_border_actions(
                        exclude_id(cw.skip(j as int + 1), focused_id),
                        *config,
                    );
                    assert(exclude_id(cw.skip(j as int), focused_id) == seq![cw[j as int]]
                        + exclude_id(cw.skip(j as int + 1), focused_id));
                    assert((seq![cw[j as int]] + exclude_id(cw.skip(j as int + 1), focused_id))
                        .drop_first() =~= exclude_id(cw.skip(j as int + 1), focused_id));
                    assert(emitted + (spec_effect_actions(cw[j as int], false, *config)
                        + rest_next) =~= (emitted + spec_effect_actions(
                        cw[j as int],
                        false,
                        *config,
                    )) + rest_next);
                    emitted = emitted + spec_effect_actions(cw[j as int], false, *config);
                    assert(actions@ =~= a2 + emitted);
                }
            }
            j = j + 1;
        }
        proof {
            assert(cw.skip(wn as int) =~= Seq::<Window>::empty());
            assert(exclude_id(Seq::<Window>::empty(), focused_id) =~= Seq::<Window>::empty());
            assert(emitted + spec_border_actions(Seq::<Window>::empty(), *config) =~= emitted);
            assert(actions@ =~= a2 + bacts);
        }
    } else {
        match recent_focused {
            Some(rid) => {
                match find_window_index(&state.windows, rid) {
                    Some(j) => {
                        let w = state.windows[j];
                        proof {
                            crate::model::lemma_find_window_idx(cw, rid);
                            assert(find_window(cw, rid) == Some(w));
                            assert(seq![w].drop_first() =~= Seq::<Window>::empty());
                            assert(exclude_id(Seq::<Window>::empty(), focused_id)
                                =~= Seq::<Window>::empty());
                        }
                        if w.id != focused_id {
                            proof {
                                assert(candidates == seq![w] + Seq::<Window>::empty());
                                assert(candidates =~= seq![w]);
                                assert(candidates.drop_first() =~= Seq::<Window>::empty());
                                assert(spec_border_actions(Seq::<Window>::empty(), *config)
                                    =~= Seq::<SyncAction>::empty());
                                assert(bacts =~= spec_effect_actions(w, false, *config));
                            }
                            apply_window_effects(&w, false, config, actions);
                            proof {
                                assert(actions@ =~= a2 + bacts);
                            }
                        } else {
                            proof {
                                assert(candidates =~= Seq::<Window>::empty());
                                assert(actions@ =~= a2 + bacts);
                            }
                        }
                    },
                    None => {
                        proof {
                            assert(exclude_id(Seq::<Window>::empty(), focused_id)
                                =~= Seq::<Window>::empty());
                            assert(candidates =~= Seq::<Window>::empty());
                            assert(actions@ =~= a2 + bacts);
                        }
                    },
                }
            },
            None => {
                proof {
                    assert(exclude_id(Seq::<Window>::empty(), focused_id)
                        =~= Seq::<Window>::empty());
                    assert(candidates =~= Seq::<Window>::empty());
                    assert(actions@ =~= a2 + bacts);
                }
            },
        }
    }

    state.pending_sync.reset_window_effects = false;
    proof {
        let out = spec_cycle(s0, *config, *platform);
        assert(actions@ =~= a0 + (rout.actions + focus_acts + focused_effect + bacts));
        assert(state@ == out.state);
        assert(actions@ == a0 + out.actions);
        assert(out.result == Ok::<(), SyncError>(()));
    }
    Ok(())
}

} // verus!

