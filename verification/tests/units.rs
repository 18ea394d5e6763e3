use wm_sync::actions::SyncAction;
use wm_sync::geometry::{BorderDelta, Rect};
use wm_sync::model::{
    check_state, next_display_state, BorderConfig, DisplayState, PendingSync, PlatformInput,
    UserConfig, Window, WindowState, WmState, Workspace,
};
use wm_sync::sync::{apply_window_effects, platform_sync, redraw_containers, sync_focus};

fn window(id: u64, handle: u64, workspace_id: u64, display_state: DisplayState) -> Window {
    Window {
        id,
        handle,
        workspace_id,
        display_state,
        state: WindowState::Tiling,
        rect: Rect { left: 100, top: 200, right: 300, bottom: 400 },
        border_delta: BorderDelta { left: 5, top: 6, right: 7, bottom: 8 },
        has_pending_dpi_adjustment: true,
    }
}

#[test]
fn display_state_transition_table() {
    // Hidden or Hiding with a displayed workspace starts showing.
    assert_eq!(next_display_state(DisplayState::Hidden, true), DisplayState::Showing);
    assert_eq!(next_display_state(DisplayState::Hiding, true), DisplayState::Showing);
    // Shown or Showing with an undisplayed workspace starts hiding.
    assert_eq!(next_display_state(DisplayState::Shown, false), DisplayState::Hiding);
    assert_eq!(next_display_state(DisplayState::Showing, false), DisplayState::Hiding);
    // Every other combination is unchanged.
    assert_eq!(next_display_state(DisplayState::Shown, true), DisplayState::Shown);
    assert_eq!(next_display_state(DisplayState::Showing, true), DisplayState::Showing);
    assert_eq!(next_display_state(DisplayState::Hidden, false), DisplayState::Hidden);
    assert_eq!(next_display_state(DisplayState::Hiding, false), DisplayState::Hiding);
}

#[test]
fn apply_delta_widens_each_side() {
    let r = Rect { left: 100, top: 200, right: 300, bottom: 400 };
    let d = BorderDelta { left: 5, top: 6, right: 7, bottom: 8 };
    assert_eq!(r.apply_delta(&d), Rect { left: 95, top: 194, right: 307, bottom: 408 });
}

#[test]
fn reposition_carries_adjusted_rect_and_flags() {
    let w = window(1, 10, 100, DisplayState::Hidden);
    let mut st = WmState {
        windows: vec![w],
        workspaces: vec![Workspace { id: 100, is_displayed: true }],
        focused_container: Some(1),
        recent_focused_container: None,
        pending_sync: PendingSync {
            containers_to_redraw: vec![1],
            focus_change: false,
            reset_window_effects: false,
        },
    };
    let mut actions: Vec<SyncAction> = Vec::new();
    assert_eq!(redraw_containers(&mut st, &mut actions), Ok(()));
    assert_eq!(
        actions,
        vec![SyncAction::SetPosition {
            handle: 10,
            state: WindowState::Tiling,
            display_state: DisplayState::Showing,
            rect: Rect { left: 95, top: 194, right: 307, bottom: 408 },
            has_pending_dpi_adjustment: true,
        }]
    );
    // The reconciler leaves clearing the queue to the orchestrator.
    assert_eq!(st.pending_sync.containers_to_redraw, vec![1]);
}

#[test]
fn unchanged_combination_still_repositions() {
    // A Shown window on a displayed workspace keeps its state but still
    // receives its one reposition call.
    let w = window(1, 10, 100, DisplayState::Shown);
    let mut st = WmState {
        windows: vec![w],
        workspaces: vec![Workspace { id: 100, is_displayed: true }],
        focused_container: Some(1),
        recent_focused_container: None,
        pending_sync: PendingSync {
            containers_to_redraw: vec![1],
            focus_change: false,
            reset_window_effects: false,
        },
    };
    let mut actions: Vec<SyncAction> = Vec::new();
    assert_eq!(redraw_containers(&mut st, &mut actions), Ok(()));
    assert_eq!(st.windows[0].display_state, DisplayState::Shown);
    assert_eq!(actions.len(), 1);
    assert!(matches!(
        actions[0],
        SyncAction::SetPosition { handle: 10, display_state: DisplayState::Shown, .. }
    ));
}

#[test]
fn queued_identity_without_window_is_ignored() {
    let mut st = WmState {
        windows: vec![],
        workspaces: vec![],
        focused_container: Some(1),
        recent_focused_container: None,
        pending_sync: PendingSync {
            containers_to_redraw: vec![7],
            focus_change: false,
            reset_window_effects: false,
        },
    };
    let mut actions: Vec<SyncAction> = Vec::new();
    assert_eq!(redraw_containers(&mut st, &mut actions), Ok(()));
    assert!(actions.is_empty());
}

#[test]
fn effects_respect_the_enabled_flag() {
    let w = window(1, 10, 100, DisplayState::Shown);
    let cfg = UserConfig {
        focused_border: BorderConfig { enabled: true, color: 0x123456 },
        unfocused_border: BorderConfig { enabled: false, color: 0x654321 },
    };
    let mut actions: Vec<SyncAction> = Vec::new();
    apply_window_effects(&w, true, &cfg, &mut actions);
    assert_eq!(actions, vec![SyncAction::SetBorderColor { handle: 10, color: 0x123456 }]);
    apply_window_effects(&w, false, &cfg, &mut actions);
    assert_eq!(actions.len(), 1);
}

#[test]
fn sync_focus_updates_recency_hint() {
    let w = window(4, 40, 100, DisplayState::Shown);
    let mut st = WmState {
        windows: vec![w],
        workspaces: vec![Workspace { id: 100, is_displayed: true }],
        focused_container: Some(4),
        recent_focused_container: Some(1),
        pending_sync: PendingSync {
            containers_to_redraw: vec![],
            focus_change: true,
            reset_window_effects: false,
        },
    };
    let platform = PlatformInput { foreground_window: 40, desktop_window: 5 };
    let mut actions: Vec<SyncAction> = Vec::new();
    sync_focus(&mut st, 4, &platform, &mut actions);
    assert_eq!(st.recent_focused_container, Some(4));
    assert_eq!(actions.len(), 1);
    assert!(matches!(actions[0], SyncAction::FocusChanged { .. }));
}

#[test]
fn check_state_detects_delta_overflow() {
    let mut w = window(1, 10, 100, DisplayState::Shown);
    w.rect = Rect { left: i32::MIN, top: 0, right: 0, bottom: 0 };
    w.border_delta = BorderDelta { left: 1, top: 0, right: 0, bottom: 0 };
    let st = WmState {
        windows: vec![w],
        workspaces: vec![],
        focused_container: Some(1),
        recent_focused_container: None,
        pending_sync: PendingSync {
            containers_to_redraw: vec![],
            focus_change: false,
            reset_window_effects: false,
        },
    };
    assert!(!check_state(&st));

    let ok = WmState {
        windows: vec![window(1, 10, 100, DisplayState::Shown)],
        workspaces: vec![],
        focused_container: Some(1),
        recent_focused_container: None,
        pending_sync: PendingSync {
            containers_to_redraw: vec![],
            focus_change: false,
            reset_window_effects: false,
        },
    };
    assert!(check_state(&ok));
}

#[test]
fn workspace_not_displayed_hides_shown_window() {
    let w = window(1, 10, 100, DisplayState::Shown);
    let mut st = WmState {
        windows: vec![w],
        workspaces: vec![Workspace { id: 100, is_displayed: false }],
        focused_container: Some(1),
        recent_focused_container: None,
        pending_sync: PendingSync {
            containers_to_redraw: vec![1],
            focus_change: false,
            reset_window_effects: false,
        },
    };
    let cfg = UserConfig {
        focused_border: BorderConfig { enabled: false, color: 0 },
        unfocused_border: BorderConfig { enabled: false, color: 0 },
    };
    let platform = PlatformInput { foreground_window: 10, desktop_window: 5 };
    let mut actions: Vec<SyncAction> = Vec::new();
    assert_eq!(platform_sync(&mut st, &cfg, &platform, &mut actions), Ok(()));
    assert_eq!(st.windows[0].display_state, DisplayState::Hiding);
    assert!(st.pending_sync.containers_to_redraw.is_empty());
}
