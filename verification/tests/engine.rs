use kugou_tui::engine::PlaybackState;

#[test]
fn playback_state_code_round_trips() {
    for state in [
        PlaybackState::Stopped,
        PlaybackState::Loading,
        PlaybackState::Playing,
        PlaybackState::Paused,
    ] {
        assert_eq!(PlaybackState::from_code(state.code()), state);
    }
}

#[test]
fn unknown_code_falls_back_to_stopped() {
    assert_eq!(PlaybackState::from_code(200), PlaybackState::Stopped);
}

