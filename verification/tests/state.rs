use storyteller::visualization::{
    next_state, state_for_kind, toggle_ui, UiStatus, VisualizationKind, VisualizerEvent,
    VisualizerState,
};

#[test]
fn drop_moves_input_to_loaded() {
    assert_eq!(
        next_state(&VisualizerState::Input, &VisualizerEvent::FileDropped),
        VisualizerState::Loaded
    );
}

#[test]
fn drop_is_ignored_elsewhere() {
    assert_eq!(
        next_state(&VisualizerState::Loaded, &VisualizerEvent::FileDropped),
        VisualizerState::Loaded
    );
    assert_eq!(
        next_state(&VisualizerState::Grid, &VisualizerEvent::FileDropped),
        VisualizerState::Grid
    );
}

#[test]
fn load_dispatches_its_kind_from_anywhere() {
    for s in [
        VisualizerState::Input,
        VisualizerState::Loaded,
        VisualizerState::Grid,
    ] {
        assert_eq!(
            next_state(&s, &VisualizerEvent::Load(VisualizationKind::Grid)),
            VisualizerState::Grid
        );
    }
}

#[test]
fn back_returns_to_input_from_anywhere() {
    for s in [
        VisualizerState::Input,
        VisualizerState::Loaded,
        VisualizerState::Grid,
    ] {
        assert_eq!(next_state(&s, &VisualizerEvent::Back), VisualizerState::Input);
    }
}

#[test]
fn grid_kind_maps_to_grid_state() {
    assert_eq!(state_for_kind(&VisualizationKind::Grid), VisualizerState::Grid);
}

#[test]
fn visualizer_starts_at_input() {
    assert_eq!(VisualizerState::default(), VisualizerState::Input);
}

#[test]
fn ui_starts_visible_and_spacebar_toggles() {
    assert_eq!(UiStatus::default(), UiStatus::Visible);
    assert_eq!(toggle_ui(&UiStatus::Visible), UiStatus::Invisible);
    assert_eq!(toggle_ui(&UiStatus::Invisible), UiStatus::Visible);
    let s = UiStatus::default();
    assert_eq!(toggle_ui(&toggle_ui(&s)), s);
}
