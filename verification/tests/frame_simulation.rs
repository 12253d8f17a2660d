//! Whole-frame scenarios: free fall under gravity and drag until a
//! floor blocks it, throwing the hat, recalling it, and the catch that
//! closes the state-machine cycle.

use hat_wizard::level::Level;
use hat_wizard::player::Player;
use hat_wizard::player::InputState;
use hat_wizard::player::HatState;
use hat_wizard::player::Tri;
use hat_wizard::playing::PlayingLevel;

/// An open room with a solid floor row at tile `floor_row`.
fn room_with_floor(width: u32, height: u32, floor_row: u32) -> Level {
    let cells = (width * height) as usize;
    let mut foreground = vec![0u16; cells];
    for x in 0..width {
        foreground[(floor_row * width + x) as usize] = 1;
    }
    Level {
        background: vec![0; cells],
        foreground,
        width,
        height,
        collision: vec![0, 1],
        collision_tile: 1,
    }
}

fn idle() -> InputState {
    InputState { x_tri: Tri::Zero, y_tri: Tri::Zero, action_pressed: false }
}

fn press(x: Tri, y: Tri) -> InputState {
    InputState { x_tri: x, y_tri: y, action_pressed: true }
}

#[test]
fn free_fall_accelerates_then_the_floor_stops_it() {
    // Wizard starts at (120, 80); the floor row sits at pixel y = 120.
    let level = room_with_floor(30, 20, 15);
    let mut player = Player::new();
    let mut timer: i32 = 0;

    // For sixteen frames the downward velocity grows every frame
    // (gravity scaled by the 62/64 drag) and the position falls
    // monotonically.
    let mut last_vy: i32 = 0;
    let mut last_y = player.wizard.position.y.raw;
    for _ in 0..16 {
        timer += 1;
        player.update_frame(&idle(), timer, &level);
        assert!(player.wizard.velocity.y.raw > last_vy);
        assert!(player.wizard.position.y.raw > last_y);
        last_vy = player.wizard.velocity.y.raw;
        last_y = player.wizard.position.y.raw;
    }
    // The very first frame: gravity 1/16 scaled by 62/64.
    // Keep falling until the floor blocks the move: the returned
    // displacement (stored back as velocity) has a zero Y component.
    let mut blocked = false;
    for _ in 0..300 {
        timer += 1;
        player.update_frame(&idle(), timer, &level);
        if player.wizard.velocity.y.raw == 0 {
            blocked = true;
            break;
        }
    }
    assert!(blocked);
    // Resting on the floor: feet at the floor row's top edge. The
    // wizard still creeps sub-pixel for a few frames until even the
    // smallest gravity step would cross into the floor row.
    for _ in 0..100 {
        timer += 1;
        player.update_frame(&idle(), timer, &level);
        let y = player.wizard.position.y.raw;
        assert!(y >= 118 * 1024 && y < 120 * 1024);
    }
    let resting = player.wizard.position;
    timer += 1;
    player.update_frame(&idle(), timer, &level);
    assert_eq!(player.wizard.position, resting);
    assert_eq!(player.wizard.velocity.y.raw, 0);
}

#[test]
fn first_fall_frame_is_gravity_scaled_by_drag() {
    let level = room_with_floor(30, 20, 15);
    let mut player = Player::new();
    player.update_frame(&idle(), 1, &level);
    // (0 + 1024/16) * 62 / 64 = 62 raw units.
    assert_eq!(player.wizard.velocity.y.raw, 62);
    assert_eq!(player.wizard.velocity.x.raw, 0);
}

#[test]
fn throwing_right_sets_a_flat_five_unit_velocity() {
    let level = room_with_floor(30, 20, 15);
    let mut player = Player::new();
    // Settle the wizard on the floor first, hat pinned to the head.
    let mut timer: i32 = 0;
    for _ in 0..200 {
        timer += 1;
        player.update_frame(&idle(), timer, &level);
    }
    assert_eq!(player.hat_state, HatState::OnHead);
    assert_eq!(player.wizard.velocity.y.raw, 0);

    timer += 1;
    player.update_frame(&press(Tri::Positive, Tri::Zero), timer, &level);
    assert_eq!(player.hat_state, HatState::Thrown);
    // The throw itself sets exactly five units rightward, (5120, 0) in
    // raw form, with no downward bias (the vertical component is not
    // positive). Within the same frame the thrown hat already homes by
    // a quarter unit towards the wizard, who stepped right under the
    // held direction: the observable velocity is 5120 + 256 rightward.
    assert_eq!(player.hat.velocity.x.raw, 5 * 1024 + 256);
    assert_eq!(player.hat.velocity.y.raw, 0);
}

#[test]
fn throwing_downward_gets_the_four_thirds_bias() {
    // A floor far below, so the downward flight is unobstructed.
    let level = room_with_floor(30, 40, 35);
    let mut player = Player::new();
    player.update_frame(&idle(), 1, &level);
    player.update_frame(&press(Tri::Zero, Tri::Positive), 2, &level);
    assert_eq!(player.hat_state, HatState::Thrown);
    assert_eq!(player.hat.velocity.x.raw, 0);
    // 5 units scaled by 4096/3 = 1365: (5120 * 1365) / 1024 = 6825,
    // plus the same-frame homing quarter unit towards the falling
    // wizard below.
    assert_eq!(player.hat.velocity.y.raw, 6825 + 256);
}

#[test]
fn pressing_without_a_direction_does_not_throw() {
    let level = room_with_floor(30, 20, 15);
    let mut player = Player::new();
    player.update_frame(&idle(), 1, &level);
    player.update_frame(&press(Tri::Zero, Tri::Zero), 2, &level);
    assert_eq!(player.hat_state, HatState::OnHead);
}

#[test]
fn thrown_hat_leaves_range_and_is_caught_again() {
    let level = room_with_floor(40, 20, 15);
    let mut player = Player::new();
    let mut timer: i32 = 0;
    timer += 1;
    player.update_frame(&idle(), timer, &level);
    timer += 1;
    player.update_frame(&press(Tri::Positive, Tri::Zero), timer, &level);
    assert_eq!(player.hat_state, HatState::Thrown);

    let mut saw_left_range = false;
    let mut caught = false;
    for _ in 0..400 {
        timer += 1;
        player.update_frame(&idle(), timer, &level);
        saw_left_range = saw_left_range || player.hat_left_range;
        if player.hat_state == HatState::OnHead {
            caught = true;
            break;
        }
    }
    assert!(saw_left_range);
    assert!(caught);
}

#[test]
fn recall_pulls_the_wizard_to_the_hat() {
    let level = room_with_floor(40, 20, 15);
    let mut player = Player::new();
    let mut timer: i32 = 0;
    timer += 1;
    player.update_frame(&idle(), timer, &level);
    timer += 1;
    player.update_frame(&press(Tri::Positive, Tri::Zero), timer, &level);
    // Let the hat fly out of range first.
    for _ in 0..6 {
        timer += 1;
        player.update_frame(&idle(), timer, &level);
    }
    assert_eq!(player.hat_state, HatState::Thrown);
    timer += 1;
    player.update_frame(&press(Tri::Zero, Tri::Zero), timer, &level);
    assert_eq!(player.hat_state, HatState::WizardTowards);
    let mut caught = false;
    for _ in 0..400 {
        timer += 1;
        player.update_frame(&idle(), timer, &level);
        if player.hat_state == HatState::OnHead {
            caught = true;
            break;
        }
    }
    assert!(caught);
}

#[test]
fn on_head_pins_the_hat_to_the_wizard() {
    let level = room_with_floor(30, 20, 15);
    let mut player = Player::new();
    player.update_frame(&idle(), 1, &level);
    // Falling pose: resting offset is (0, 8) pixels.
    assert_eq!(player.hat.position.x.raw, player.wizard.position.x.raw);
    assert_eq!(player.hat.position.y.raw, player.wizard.position.y.raw - 8 * 1024);
}

#[test]
fn session_counts_frames_and_commits_both_sprites() {
    let level = room_with_floor(30, 20, 15);
    let mut session = PlayingLevel::open_level(level);
    assert_eq!(session.timer, 0);
    let (wizard_commit, hat_commit) = session.update_frame(&idle());
    assert_eq!(session.timer, 1);
    assert!(wizard_commit.visible);
    assert!(hat_commit.visible);
    // The sprite anchor is the position floored, centred by 8 pixels.
    let expected_x = session.player.wizard.position.x.raw / 1024 - 8;
    assert_eq!(wizard_commit.x, expected_x);
}
