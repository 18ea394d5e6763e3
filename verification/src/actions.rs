//! The native calls and the notification a reconciliation cycle emits, in
//! issue order. The caller performs them after the cycle; a failure of any
//! one of them is discarded (best effort), so nothing flows back.

use vstd::prelude::*;

use crate::geometry::Rect;
use crate::model::{DisplayState, WindowState};

verus! {

/// Snapshot of the focused container carried by the focus-changed
/// notification: its identity and, when it projects to a window, the native
/// handle of that window.
#[derive(Clone, Copy, PartialEq, Eq, Debug)]
pub struct FocusedSnapshot {
    pub container_id: u64,
    pub window_handle: Option<u64>,
}

/// One native call, or the focus-changed notification, issued during a
/// reconciliation cycle.
#[derive(Clone, Copy, PartialEq, Eq, Debug)]
pub enum SyncAction {
    /// Reposition/restate one window: geometry class, resolved visibility
    /// stage, delta-adjusted target rectangle and the pending-DPI flag.
    SetPosition {
        handle: u64,
        state: WindowState,
        display_state: DisplayState,
        rect: Rect,
        has_pending_dpi_adjustment: bool,
    },
    /// Request native foreground focus for a handle.
    SetForeground { handle: u64 },
    /// Focus-changed notification toward external subscribers.
    FocusChanged { snapshot: FocusedSnapshot },
    /// Apply a border color to a window.
    SetBorderColor { handle: u64, color: u32 },
}

} // verus!
