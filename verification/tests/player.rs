use platformer::{Axis, Displacement, InputState, PlayerActions, PlayerBundle, UNIT};

#[test]
fn a_new_player_has_no_input_and_no_request() {
    let player = PlayerBundle::new("Player".to_string());
    assert_eq!(player.name, "Player");
    assert_eq!(player.input.axis, None);
    assert!(player.input.just_pressed.is_empty());
    assert_eq!(player.request, None);
}

#[test]
fn update_requests_what_the_input_asks_for() {
    let mut player = PlayerBundle::new("Player".to_string());
    player.input = InputState::new(Some(Axis { steps: 65_536 }));
    player.update();
    assert_eq!(player.request, Some(Displacement { dx: 15 * UNIT, dy: -2 * UNIT }));
    assert_eq!(player.name, "Player");
    assert_eq!(player.input.axis, Some(Axis { steps: 65_536 }));
}

#[test]
fn update_replaces_a_stale_request() {
    let mut player = PlayerBundle::new("Player".to_string());
    player.request = Some(Displacement { dx: 1, dy: 2 });
    player.input = InputState::new(Some(Axis { steps: -65_536 }));
    player.input.press(PlayerActions::Jump);
    player.update();
    assert_eq!(player.request, Some(Displacement { dx: -15 * UNIT, dy: 150 * UNIT }));
    // A second tick on the same input does not add to the first.
    player.update();
    assert_eq!(player.request, Some(Displacement { dx: -15 * UNIT, dy: 150 * UNIT }));
}

#[test]
fn update_without_an_axis_sample_leaves_no_request() {
    let mut player = PlayerBundle::new("Player".to_string());
    player.request = Some(Displacement { dx: 15 * UNIT, dy: 150 * UNIT });
    player.input = InputState::new(None);
    player.input.press(PlayerActions::Jump);
    player.update();
    assert_eq!(player.request, None);
}

#[test]
fn the_jump_lasts_one_tick() {
    let mut player = PlayerBundle::new("Player".to_string());
    player.input = InputState::new(Some(Axis { steps: 0 }));
    player.input.press(PlayerActions::Jump);
    player.update();
    assert_eq!(player.request, Some(Displacement { dx: 0, dy: 150 * UNIT }));
    player.input = InputState::new(Some(Axis { steps: 0 }));
    player.update();
    assert_eq!(player.request, Some(Displacement { dx: 0, dy: -2 * UNIT }));
}

#[test]
fn the_default_player_is_nameless_and_idle() {
    let player = PlayerBundle::default();
    assert_eq!(player.name, "");
    assert_eq!(player.input.axis, None);
    assert!(player.input.just_pressed.is_empty());
    assert_eq!(player.request, None);
}
