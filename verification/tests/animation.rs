//! The animation policy: the ping-pong walk cycle while moving fast
//! enough, the forced rising pose, facing-driven mirror and hat tiles,
//! and the ten-frame hat flight animation at half frame rate.

use hat_wizard::level::Level;
use hat_wizard::player::ping_pong;
use hat_wizard::player::HatState;
use hat_wizard::player::InputState;
use hat_wizard::player::Player;
use hat_wizard::player::Tri;

fn room_with_floor(width: u32, height: u32, floor_row: u32) -> Level {
    let cells = (width * height) as usize;
    let mut foreground = vec![0u16; cells];
    for x in 0..width {
        foreground[(floor_row * width + x) as usize] = 1;
    }
    Level {
        background: vec![0; cells],
        foreground,
        width,
        height,
        collision: vec![0, 1],
        collision_tile: 1,
    }
}

fn held(x: Tri) -> InputState {
    InputState { x_tri: x, y_tri: Tri::Zero, action_pressed: false }
}

#[test]
fn falling_sideways_cycles_the_walk_animation() {
    // A deep room: the wizard falls freely while drifting right.
    let level = room_with_floor(30, 40, 38);
    let mut player = Player::new();
    for t in 1..=40 {
        player.update_frame(&held(Tri::Positive), t, &level);
        if t >= 6 {
            // By now the horizontal speed exceeds 1/16 of a unit and
            // the fall speed is no longer "rising", so the walk cycle
            // shows: one ping-pong step per 16 frames.
            let expected = ping_pong(t / 16, 4) as u8;
            assert_eq!(player.wizard_frame, expected);
            assert_eq!(player.wizard.tile_id, (expected as u16) * 4);
        }
    }
    assert!(!player.wizard.hflip);
    // Facing right shows the right-facing hat sprite.
    assert_eq!(player.hat.tile_id, 36);
}

#[test]
fn standing_on_the_floor_forces_the_rising_pose() {
    let level = room_with_floor(30, 20, 15);
    let mut player = Player::new();
    for t in 1..=120 {
        player.update_frame(&held(Tri::Positive), t, &level);
    }
    // On the floor the vertical displacement is zero, which counts as
    // "rising or nearly still": the pose is pinned to the fall tile.
    assert_eq!(player.wizard_frame, 0);
    assert_eq!(player.wizard.tile_id, 20);
}

#[test]
fn facing_left_mirrors_the_wizard_and_swaps_the_hat_sprite() {
    let level = room_with_floor(30, 20, 15);
    let mut player = Player::new();
    player.update_frame(&held(Tri::Negative), 1, &level);
    assert_eq!(player.facing, Tri::Negative);
    assert!(player.wizard.hflip);
    assert_eq!(player.hat.tile_id, 56);
    // Releasing the direction keeps the last facing.
    player.update_frame(&held(Tri::Zero), 2, &level);
    assert!(player.wizard.hflip);
    assert_eq!(player.hat.tile_id, 56);
}

#[test]
fn thrown_hat_cycles_ten_flight_frames_at_half_rate() {
    let level = room_with_floor(60, 20, 15);
    let mut player = Player::new();
    player.update_frame(&held(Tri::Zero), 1, &level);
    player.update_frame(
        &InputState { x_tri: Tri::Positive, y_tri: Tri::Zero, action_pressed: true },
        2,
        &level,
    );
    for t in 3..=20 {
        player.update_frame(&held(Tri::Zero), t, &level);
        if player.hat_state == HatState::Thrown {
            assert_eq!(player.hat.tile_id, 36 + 4 * ((t as u16 / 2) % 10));
        }
    }
}
