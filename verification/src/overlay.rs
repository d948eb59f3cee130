//! The recording overlay: which state it shows, and which window operations
//! a change of state calls for.
//!
//! The window itself belongs to the windowing toolkit. The manager plans the
//! operations, its owner performs them in order and stops at the first that
//! fails, and reports back what has been done.

use vstd::prelude::*;

verus! {

/// What the overlay shows.
#[derive(Debug, Clone, Copy, PartialEq, Eq, Structural)]
pub enum OverlayState {
    Hidden,
    Recording,
    Processing,
}

/// One operation on the overlay window.
#[derive(Debug, Clone, Copy, PartialEq, Eq, Structural)]
pub enum OverlayAction {
    /// Create the window.
    CreateWindow,
    /// Make the window visible.
    ShowWindow,
    /// Keep the window above all others.
    KeepOnTop,
    /// Move the window to the bottom centre of the primary monitor.
    PositionWindow,
    /// Tell the window which state to display. A failure of this one is
    /// reported and does not stop the rest.
    EmitState(OverlayState),
    /// Make the window invisible.
    HideWindow,
}

/// Keeps track of the overlay window and of the state it shows.
#[derive(Debug)]
pub struct OverlayManager {
    has_window: bool,
    current_state: OverlayState,
}

/// The operations that show the overlay in `state`.
pub open spec fn show_plan(has_window: bool, state: OverlayState) -> Seq<OverlayAction> {
    let shown = seq![
        OverlayAction::ShowWindow,
        OverlayAction::KeepOnTop,
        OverlayAction::PositionWindow,
        OverlayAction::EmitState(state),
    ];
    if has_window {
        shown
    } else {
        seq![OverlayAction::CreateWindow] + shown
    }
}

/// The operations that hide the overlay.
pub open spec fn hide_plan(has_window: bool) -> Seq<OverlayAction> {
    if has_window {
        seq![OverlayAction::HideWindow]
    } else {
        Seq::empty()
    }
}

/// The operations that change the displayed state without showing or hiding.
pub open spec fn update_plan(has_window: bool, state: OverlayState) -> Seq<OverlayAction> {
    if has_window {
        seq![OverlayAction::EmitState(state)]
    } else {
        Seq::empty()
    }
}

impl OverlayManager {
    /// Whether the overlay window has been created.
    pub closed spec fn window_exists(&self) -> bool {
        self.has_window
    }

    /// The state that the overlay shows.
    pub closed spec fn state(&self) -> OverlayState {
        self.current_state
    }

    /// A manager without a window, in the hidden state.
    pub fn new() -> (manager: OverlayManager)
        ensures
            !manager.window_exists(),
            manager.state() == OverlayState::Hidden,
    {
        OverlayManager { has_window: false, current_state: OverlayState::Hidden }
    }

    /// Plans showing the overlay in `state`: the window is created first if
    /// there is none yet.
    pub fn show_overlay(&self, state: OverlayState) -> (plan: Vec<OverlayAction>)
        ensures
            plan@ == show_plan(self.window_exists(), state),
    {
        let mut plan: Vec<OverlayAction> = Vec::new();
        if !self.has_window {
            plan.push(OverlayAction::CreateWindow);
        }
        plan.push(OverlayAction::ShowWindow);
        plan.push(OverlayAction::KeepOnTop);
        plan.push(OverlayAction::PositionWindow);
        plan.push(OverlayAction::EmitState(state));
        assert(plan@ =~= show_plan(self.window_exists(), state));
        plan
    }

    /// Plans hiding the overlay: nothing is to be done without a window.
    pub fn hide_overlay(&self) -> (plan: Vec<OverlayAction>)
        ensures
            plan@ == hide_plan(self.window_exists()),
    {
        let mut plan: Vec<OverlayAction> = Vec::new();
        if self.has_window {
            plan.push(OverlayAction::HideWindow);
        }
        assert(plan@ =~= hide_plan(self.window_exists()));
        plan
    }

    /// Plans a change of the displayed state: the window is told if there is one.
    pub fn update_state(&self, state: OverlayState) -> (plan: Vec<OverlayAction>)
        ensures
            plan@ == update_plan(self.window_exists(), state),
    {
        let mut plan: Vec<OverlayAction> = Vec::new();
        if self.has_window {
            plan.push(OverlayAction::EmitState(state));
        }
        assert(plan@ =~= update_plan(self.window_exists(), state));
        plan
    }

    /// Records that the window has been created.
    pub fn window_created(&mut self)
        ensures
            final(self).window_exists(),
            final(self).state() == old(self).state(),
    {
        self.has_window = true;
    }

    /// Records that a plan has been carried out and the overlay is now in `state`.
    pub fn state_changed(&mut self, state: OverlayState)
        ensures
            final(self).state() == state,
            final(self).window_exists() == old(self).window_exists(),
    {
        self.current_state = state;
    }

    /// The state that the overlay shows.
    pub fn get_current_state(&self) -> (state: &OverlayState)
        ensures
            *state == self.state(),
    {
        &self.current_state
    }
}

} // verus!
