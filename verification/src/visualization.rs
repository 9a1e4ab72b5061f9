//! The visualizer's state machine.
//!
//! The visualizer sits in one of three states: waiting for a drop, holding
//! a loaded file, or showing the grid scene. Events arrive one at a time
//! from the window (a dropped file, a load request, the back button), and
//! each event moves the machine at most one step.

use vstd::prelude::*;

verus! {

/// The scene a load request asks for.
#[derive(Debug, Clone, Copy, PartialEq, Eq, Structural)]
pub enum VisualizationKind {
    Grid,
}

/// Where the visualizer stands.
#[derive(Debug, Clone, Copy, PartialEq, Eq, Hash, Structural)]
pub enum VisualizerState {
    Input,
    Loaded,
    Grid,
}

impl Default for VisualizerState {
    fn default() -> (r: Self)
        ensures
            r == VisualizerState::Input,
    {
        VisualizerState::Input
    }
}

/// A request to bring up a visualization of the given kind.
#[derive(Debug, Clone, Copy, PartialEq, Eq, Structural)]
pub struct LoadVisualization(pub VisualizationKind);

/// One input the state machine reacts to.
#[derive(Debug, Clone, Copy, PartialEq, Eq, Structural)]
pub enum VisualizerEvent {
    /// A file was dropped onto the window.
    FileDropped,
    /// A load request was dispatched.
    Load(VisualizationKind),
    /// The back button of the selection header was pressed.
    Back,
}

/// The state a load request of the given kind dispatches.
pub open spec fn state_for_kind_of(kind: VisualizationKind) -> VisualizerState {
    match kind {
        VisualizationKind::Grid => VisualizerState::Grid,
    }
}

/// Maps a load request to the state it dispatches.
pub fn state_for_kind(kind: &VisualizationKind) -> (r: VisualizerState)
    ensures
        r == state_for_kind_of(*kind),
{
    match kind {
        VisualizationKind::Grid => VisualizerState::Grid,
    }
}

/// The transition table: a drop is only taken while waiting for input,
/// a load request dispatches its state from anywhere, and the back button
/// always returns to input. Any other pairing leaves the state alone.
pub open spec fn next_state_of(s: VisualizerState, e: VisualizerEvent) -> VisualizerState {
    match e {
        VisualizerEvent::FileDropped => if s == VisualizerState::Input {
            VisualizerState::Loaded
        } else {
            s
        },
        VisualizerEvent::Load(kind) => state_for_kind_of(kind),
        VisualizerEvent::Back => VisualizerState::Input,
    }
}

/// Steps the state machine once.
pub fn next_state(s: &VisualizerState, e: &VisualizerEvent) -> (r: VisualizerState)
    ensures
        r == next_state_of(*s, *e),
{
    match e {
        VisualizerEvent::FileDropped => {
            if *s == VisualizerState::Input {
                VisualizerState::Loaded
            } else {
                *s
            }
        },
        VisualizerEvent::Load(kind) => state_for_kind(kind),
        VisualizerEvent::Back => VisualizerState::Input,
    }
}

/// The back button reaches the input state from anywhere, and a second
/// back press changes nothing more.
pub proof fn lemma_back_resets(s: VisualizerState)
    ensures
        next_state_of(s, VisualizerEvent::Back) == VisualizerState::Input,
        next_state_of(next_state_of(s, VisualizerEvent::Back), VisualizerEvent::Back)
            == VisualizerState::Input,
{
}

/// Whether the UI overlay is drawn.
#[derive(Debug, Clone, Copy, PartialEq, Eq, Hash, Structural)]
pub enum UiStatus {
    Visible,
    Invisible,
}

impl Default for UiStatus {
    fn default() -> (r: Self)
        ensures
            r == UiStatus::Visible,
    {
        UiStatus::Visible
    }
}

/// The other overlay state.
pub open spec fn toggled(s: UiStatus) -> UiStatus {
    match s {
        UiStatus::Visible => UiStatus::Invisible,
        UiStatus::Invisible => UiStatus::Visible,
    }
}

/// Flips the overlay between shown and hidden, as the spacebar does.
pub fn toggle_ui(s: &UiStatus) -> (r: UiStatus)
    ensures
        r == toggled(*s),
        r != *s,
{
    match s {
        UiStatus::Visible => UiStatus::Invisible,
        UiStatus::Invisible => UiStatus::Visible,
    }
}

/// Two spacebar presses bring the overlay back to where it was.
pub proof fn lemma_toggle_involutive(s: UiStatus)
    ensures
        toggled(toggled(s)) == s,
{
}

} // verus!
