//! The player: a wizard and a hat, each an entity, plus the hat
//! throw/recall state machine and the animation/input policy that runs
//! once per frame.

use vstd::prelude::*;
use vstd::arithmetic::div_mod::*;
use crate::fixed::Fix;
use crate::fixed::Vec2;
use crate::fixed::V2;
use crate::fixed::v2;
use crate::fixed::v2_add;
use crate::fixed::v2_sub;
use crate::fixed::v2_scale;
use crate::fixed::v2_div_int;
use crate::fixed::v2_mul_fix;
use crate::fixed::v2_div_fix;
use crate::fixed::v2_mag;
use crate::fixed::v2_norm;
use crate::fixed::tdiv;
use crate::fixed::fmul;
use crate::fixed::div_trunc;
use crate::fixed::lemma_tdiv_bound;
use crate::fixed::lemma_unit_components;
use crate::fixed::lemma_isqrt_le;
use crate::fixed::lemma_isqrt_square;
use crate::entity::Entity;
use crate::entity::EntityV;
use crate::entity::BoxSize;
use crate::entity::step_x;
use crate::entity::moved_position;
use crate::entity::lemma_free_position_in_level;
use crate::level::Level;

verus! {

/// Sprite-sheet tile ids; each 16x16 sprite frame spans four 8x8 tiles.
pub const WIZARD_TILE_START: u16 = 0;
pub const WIZARD_FALL_TILE: u16 = 20;
pub const HAT_TILE_START: u16 = 36;

/// Largest raw coordinate the wizard can reach: the pixel extent of the
/// largest well-formed level (2048 tiles of 8 pixels, in 1024ths of a
/// pixel).
pub const WIZARD_POS_LIMIT: i32 = 16777216;

/// The hat can additionally sit one resting offset above the wizard.
pub const HAT_POS_LIMIT: i32 = 16786432;

/// Largest raw velocity component either entity can carry between
/// frames: a displacement between two in-range positions, with slack.
/// This is where the 32-bit fixed-point representation caps the level
/// size: the drag step multiplies a velocity component by 62 before
/// dividing, so the component must stay under `i32::MAX / 62`, and a
/// velocity spans two in-range positions.
pub const VEL_LIMIT: i32 = 33600000;

/// Tri-state directional input along one axis.
#[derive(Clone, Copy, PartialEq, Eq, Structural, Debug)]
pub enum Tri {
    Negative,
    Zero,
    Positive,
}

pub open spec fn tri_val(t: Tri) -> int {
    match t {
        Tri::Negative => -1,
        Tri::Zero => 0,
        Tri::Positive => 1,
    }
}

impl Tri {
    pub fn value(self) -> (v: i32)
        ensures
            v == tri_val(self),
    {
        match self {
            Tri::Negative => -1,
            Tri::Zero => 0,
            Tri::Positive => 1,
        }
    }
}

/// One frame's input snapshot: the directional tri-states and the
/// edge-triggered ("just pressed") state of the action button.
#[derive(Clone, Copy, PartialEq, Eq, Structural, Debug)]
pub struct InputState {
    pub x_tri: Tri,
    pub y_tri: Tri,
    pub action_pressed: bool,
}

/// The hat/wizard interaction mode: the single source of truth for
/// throw, recall and return behaviour.
#[derive(Clone, Copy, PartialEq, Eq, Structural, Debug)]
pub enum HatState {
    OnHead,
    Thrown,
    WizardTowards,
}

pub struct Player {
    pub wizard: Entity,
    pub hat: Entity,
    pub hat_state: HatState,
    pub hat_left_range: bool,
    pub hat_slow_counter: i32,
    pub wizard_frame: u8,
    pub facing: Tri,
}

pub ghost struct PlayerV {
    pub wizard: EntityV,
    pub hat: EntityV,
    pub hat_state: HatState,
    pub hat_left_range: bool,
    pub hat_slow_counter: int,
    pub wizard_frame: int,
    pub facing: Tri,
}

impl View for Player {
    type V = PlayerV;

    open spec fn view(&self) -> PlayerV {
        PlayerV {
            wizard: self.wizard@,
            hat: self.hat@,
            hat_state: self.hat_state,
            hat_left_range: self.hat_left_range,
            hat_slow_counter: self.hat_slow_counter as int,
            wizard_frame: self.wizard_frame as int,
            facing: self.facing,
        }
    }
}

/// An entity whose state the per-frame update can always process
/// without overflow: position within `pos_bound`, velocity within
/// `VEL_LIMIT`, and the 16x16 collision box both entities carry.
pub open spec fn entity_ok(e: EntityV, pos_bound: int) -> bool {
    &&& -pos_bound <= e.position.x <= pos_bound
    &&& -pos_bound <= e.position.y <= pos_bound
    &&& -VEL_LIMIT <= e.velocity.x <= VEL_LIMIT
    &&& -VEL_LIMIT <= e.velocity.y <= VEL_LIMIT
    &&& e.mask_x == 16
    &&& e.mask_y == 16
}

/// The player invariant: both entities in range, the slow counter on
/// its 0..=10 scale, the walk frame on its 0..=3 scale.
pub open spec fn player_wf(p: PlayerV) -> bool {
    &&& entity_ok(p.wizard, WIZARD_POS_LIMIT as int)
    &&& entity_ok(p.hat, HAT_POS_LIMIT as int)
    &&& 0 <= p.hat_slow_counter <= 10
    &&& 0 <= p.wizard_frame <= 3
}

/// Triangle-wave index: walks 0 up to `n - 1` and back, with period
/// `2 * (n - 1)`.
pub open spec fn spec_ping_pong(i: int, n: int) -> int {
    let cycle = 2 * (n - 1);
    let j = i % cycle;
    if j >= n {
        cycle - j
    } else {
        j
    }
}

pub fn ping_pong(i: i32, n: i32) -> (r: i32)
    requires
        0 <= i,
        2 <= n,
        2 * (n - 1) <= i32::MAX,
    ensures
        r == spec_ping_pong(i as int, n as int),
        0 <= r < n,
{
    let cycle = 2 * (n - 1);
    let j = ((i as u32) % (cycle as u32)) as i32;
    if j >= n {
        cycle - j
    } else {
        j
    }
}

/// The triangle wave repeats with period `2 * (n - 1)`.
pub proof fn lemma_ping_pong_periodic(i: int, n: int)
    requires
        0 <= i,
        2 <= n,
    ensures
        spec_ping_pong(i + 2 * (n - 1), n) == spec_ping_pong(i, n),
{
    lemma_mod_add_multiples_vanish(i, 2 * (n - 1));
}

/// The triangle wave is symmetric: reflecting an index within one
/// period leaves the output unchanged.
pub proof fn lemma_ping_pong_symmetric(i: int, n: int)
    requires
        0 <= i <= 2 * (n - 1),
        2 <= n,
    ensures
        spec_ping_pong(2 * (n - 1) - i, n) == spec_ping_pong(i, n),
{
    let cycle = 2 * (n - 1);
    if i == 0 || i == cycle {
        lemma_mod_self_0(cycle);
        lemma_small_mod(0nat, cycle as nat);
    } else {
        lemma_small_mod((cycle - i) as nat, cycle as nat);
        lemma_small_mod(i as nat, cycle as nat);
    }
}

/// The raw throw velocity for a nonzero input direction `(xt, yt)`
/// (tri-state values): the unit vector times five, with the downward
/// component further scaled by four thirds.
pub open spec fn throw_velocity(xt: int, yt: int) -> V2 {
    let dir = v2(xt * 1024, yt * 1024);
    let vel = v2_scale(v2_norm(dir), 5);
    if vel.y > 0 {
        V2 { x: vel.x, y: fmul(vel.y, (4int * 1024) / 3) }
    } else {
        vel
    }
}

/// Step one of the frame: on the action button's press edge, throw the
/// hat (when on the head, with a direction held) or recall it (when
/// thrown).
pub open spec fn throw_recall_step(p: PlayerV, inp: InputState) -> PlayerV {
    if !inp.action_pressed {
        p
    } else if p.hat_state == HatState::OnHead {
        if tri_val(inp.x_tri) == 0 && tri_val(inp.y_tri) == 0 {
            p
        } else {
            PlayerV {
                hat: EntityV {
                    velocity: throw_velocity(tri_val(inp.x_tri), tri_val(inp.y_tri)),
                    ..p.hat
                },
                hat_state: HatState::Thrown,
                ..p
            }
        }
    } else if p.hat_state == HatState::Thrown {
        PlayerV {
            hat: EntityV { velocity: v2(0, 0), ..p.hat },
            wizard: EntityV { velocity: v2(0, 0), ..p.wizard },
            hat_state: HatState::WizardTowards,
            ..p
        }
    } else {
        p
    }
}

/// Step two: wizard physics and walk animation, skipped while the
/// wizard is being pulled towards the hat. Gravity, input acceleration
/// and drag update the velocity; the velocity is then overwritten by
/// the displacement the collision actually allowed.
pub open spec fn wizard_physics_step(p: PlayerV, inp: InputState, timer: int, level: Level) -> PlayerV {
    if p.hat_state == HatState::WizardTowards {
        p
    } else {
        let vel_pull = V2 {
            x: p.wizard.velocity.x + tdiv(tri_val(inp.x_tri) * 1024, 64),
            y: p.wizard.velocity.y + 64,
        };
        let vel_drag = v2_div_int(v2_scale(vel_pull, 62), 64);
        let newpos = moved_position(level, p.wizard.mask_x, p.wizard.mask_y, p.wizard.position, vel_drag);
        let vel_out = v2_sub(newpos, p.wizard.position);
        let absx = if vel_out.x >= 0 { vel_out.x } else { -vel_out.x };
        let walking = absx > 64;
        let walk_idx = spec_ping_pong(tdiv(timer, 16), 4);
        let frame_walk = if walking { walk_idx } else { p.wizard_frame };
        let tile_walk = if walking { WIZARD_TILE_START + walk_idx * 4 } else { p.wizard.tile_id };
        let rising = vel_out.y < 64;
        let frame_out = if rising { 0 } else { frame_walk };
        let tile_out = if rising { WIZARD_FALL_TILE as int } else { tile_walk };
        let facing_out = if tri_val(inp.x_tri) != 0 { inp.x_tri } else { p.facing };
        PlayerV {
            wizard: EntityV {
                position: newpos,
                velocity: vel_out,
                tile_id: tile_out,
                ..p.wizard
            },
            wizard_frame: frame_out,
            facing: facing_out,
            ..p
        }
    }
}

/// Step three: the facing direction picks the wizard mirror flag and
/// which hat sprite (left- or right-facing) is shown.
pub open spec fn facing_step(p: PlayerV) -> PlayerV {
    match p.facing {
        Tri::Negative => PlayerV {
            wizard: EntityV { hflip: true, ..p.wizard },
            hat: EntityV { tile_id: HAT_TILE_START + 20, ..p.hat },
            ..p
        },
        Tri::Positive => PlayerV {
            wizard: EntityV { hflip: false, ..p.wizard },
            hat: EntityV { tile_id: HAT_TILE_START as int, ..p.hat },
            ..p
        },
        Tri::Zero => p,
    }
}

/// Where the hat rests on the wizard's head: one pixel lower during the
/// middle walk frames.
pub open spec fn hat_resting_offset(frame: int) -> V2 {
    if frame == 1 || frame == 2 {
        v2(0, 9216)
    } else {
        v2(0, 8192)
    }
}

/// The hat flight animation tile for this frame.
pub open spec fn hat_flight_tile(timer: int) -> int {
    HAT_TILE_START + 4 * (tdiv(timer, 2) % 10)
}

/// Step four: hat behaviour, dispatched on the hat state.
pub open spec fn hat_step(p: PlayerV, timer: int, level: Level) -> PlayerV {
    let offset = hat_resting_offset(p.wizard_frame);
    match p.hat_state {
        HatState::Thrown => {
            let dv = v2_sub(v2_sub(p.wizard.position, p.hat.position), offset);
            let dist = v2_mag(dv);
            let dir = if dist == 0 {
                v2(0, 0)
            } else {
                v2_div_fix(dv, dist)
            };
            let hovering = p.hat_slow_counter < 10 && v2_mag(p.hat.velocity) < 2048;
            let vel_in = if hovering {
                v2(0, 0)
            } else {
                v2_add(p.hat.velocity, v2_div_int(dir, 4))
            };
            let counter_out = if hovering {
                p.hat_slow_counter + 1
            } else {
                p.hat_slow_counter
            };
            let newpos = moved_position(level, p.hat.mask_x, p.hat.mask_y, p.hat.position, vel_in);
            let vel_out = v2_sub(newpos, p.hat.position);
            let left_out = if dist > 16384 {
                true
            } else {
                p.hat_left_range
            };
            let state_out = if left_out && dist < 16384 {
                HatState::OnHead
            } else {
                p.hat_state
            };
            PlayerV {
                hat: EntityV {
                    position: newpos,
                    velocity: vel_out,
                    tile_id: hat_flight_tile(timer),
                    ..p.hat
                },
                hat_slow_counter: counter_out,
                hat_left_range: left_out,
                hat_state: state_out,
                ..p
            }
        }
        HatState::OnHead => PlayerV {
            hat: EntityV { position: v2_sub(p.wizard.position, offset), ..p.hat },
            hat_slow_counter: 0,
            hat_left_range: false,
            ..p
        },
        HatState::WizardTowards => {
            let dv = v2_add(v2_sub(p.hat.position, p.wizard.position), offset);
            let dist = v2_mag(dv);
            let vel_in = if dist != 0 {
                v2_mul_fix(v2_div_fix(dv, dist), v2_mag(p.wizard.velocity) + 1024)
            } else {
                p.wizard.velocity
            };
            let newpos = moved_position(
                level,
                p.wizard.mask_x,
                p.wizard.mask_y,
                p.wizard.position,
                vel_in,
            );
            let vel_out = v2_sub(newpos, p.wizard.position);
            let vel_final = if dist < 16384 {
                v2_div_int(vel_out, 8)
            } else {
                vel_out
            };
            let state_out = if dist < 16384 {
                HatState::OnHead
            } else {
                p.hat_state
            };
            PlayerV {
                wizard: EntityV { position: newpos, velocity: vel_final, ..p.wizard },
                hat: EntityV { tile_id: hat_flight_tile(timer), ..p.hat },
                hat_state: state_out,
                ..p
            }
        }
    }
}

/// One whole frame of the player, in order: throw/recall edge handling,
/// wizard physics and animation, facing, then hat behaviour.
pub open spec fn player_step(p: PlayerV, inp: InputState, timer: int, level: Level) -> PlayerV {
    hat_step(facing_step(wizard_physics_step(throw_recall_step(p, inp), inp, timer, level)), timer, level)
}

/// The player's initial state: wizard at the screen centre, hat on the
/// head, no motion.
pub open spec fn player_init() -> PlayerV {
    PlayerV {
        wizard: EntityV {
            position: v2(120int * 1024, 80int * 1024),
            velocity: v2(0, 0),
            mask_x: 16,
            mask_y: 16,
            tile_id: WIZARD_TILE_START as int,
            hflip: false,
        },
        hat: EntityV {
            position: v2(0, 0),
            velocity: v2(0, 0),
            mask_x: 16,
            mask_y: 16,
            tile_id: HAT_TILE_START as int,
            hflip: false,
        },
        hat_state: HatState::OnHead,
        hat_left_range: false,
        hat_slow_counter: 0,
        wizard_frame: 0,
        facing: Tri::Zero,
    }
}

impl Player {
    pub fn new() -> (p: Player)
        ensures
            p@ == player_init(),
            player_wf(p@),
    {
        let mut wizard = Entity::new(BoxSize { x: 16, y: 16 });
        let mut hat = Entity::new(BoxSize { x: 16, y: 16 });
        wizard.tile_id = WIZARD_TILE_START;
        hat.tile_id = HAT_TILE_START;
        // Half the screen size, in whole pixels.
        wizard.position = Vec2::from_ints(120, 80);
        Player {
            wizard,
            hat,
            hat_slow_counter: 0,
            hat_state: HatState::OnHead,
            hat_left_range: false,
            wizard_frame: 0,
            facing: Tri::Zero,
        }
    }

    /// One frame of the player against `level`, with this frame's input
    /// snapshot and the global frame counter. The result is exactly one
    /// application of the frame-step function, and the player invariant
    /// is preserved.
    pub fn update_frame(&mut self, input: &InputState, timer: i32, level: &Level)
        requires
            player_wf(old(self)@),
            level.wf(),
            0 <= timer,
        ensures
            final(self)@ == player_step(old(self)@, *input, timer as int, *level),
            player_wf(final(self)@),
    {
        self.step_throw_recall(input);
        self.step_wizard_physics(input, timer, level);
        self.step_facing();
        self.step_hat(timer, level);
    }

    /// Throw or recall, on the action button's press edge only.
    fn step_throw_recall(&mut self, input: &InputState)
        requires
            player_wf(old(self)@),
        ensures
            final(self)@ == throw_recall_step(old(self)@, *input),
            player_wf(final(self)@),
    {
        if input.action_pressed {
            if self.hat_state == HatState::OnHead {
                let direction = Vec2::from_ints(input.x_tri.value(), input.y_tri.value());
                if !(direction.x.raw == 0 && direction.y.raw == 0) {
                    proof {
                        lemma_unit_components(direction@);
                    }
                    let mut velocity = direction.normalise().scale(5);
                    if velocity.y.raw > 0 {
                        let ratio = Fix::from_int(4).div_int(3);
                        proof {
                            assert(ratio.raw == 1365);
                            assert(-5120 <= velocity.y.raw as int <= 5120);
                            assert(-5120int * 1365 <= velocity.y.raw as int * ratio.raw as int
                                <= 5120int * 1365) by (nonlinear_arith)
                                requires
                                    -5120 <= velocity.y.raw as int <= 5120,
                                    ratio.raw as int == 1365,
                            ;
                            lemma_tdiv_bound(
                                velocity.y.raw as int * ratio.raw as int,
                                1024,
                                5120int * 1365,
                            );
                        }
                        velocity = Vec2 { x: velocity.x, y: velocity.y.times(ratio) };
                    }
                    self.hat.velocity = velocity;
                    self.hat_state = HatState::Thrown;
                }
            } else if self.hat_state == HatState::Thrown {
                self.hat.velocity = Vec2::zero();
                self.wizard.velocity = Vec2::zero();
                self.hat_state = HatState::WizardTowards;
            }
        }
    }

    /// Wizard physics and walk animation, skipped while being pulled in:
    /// gravity, input acceleration, drag, the collision-resolved move,
    /// and the velocity-becomes-displacement rule.
    fn step_wizard_physics(&mut self, input: &InputState, timer: i32, level: &Level)
        requires
            player_wf(old(self)@),
            level.wf(),
            0 <= timer,
        ensures
            final(self)@ == wizard_physics_step(old(self)@, *input, timer as int, *level),
            player_wf(final(self)@),
    {
        if self.hat_state != HatState::WizardTowards {
            let gravity = Vec2::from_ints(0, 1).div_int(16);
            self.wizard.velocity = self.wizard.velocity.plus(gravity);
            let accel = Fix::from_int(input.x_tri.value()).div_int(64);
            self.wizard.velocity = Vec2 {
                x: self.wizard.velocity.x.plus(accel),
                y: self.wizard.velocity.y,
            };
            self.wizard.velocity = self.wizard.velocity.scale(62).div_int(64);
            let ghost wpos = self.wizard@.position;
            let ghost wvel = self.wizard@.velocity;
            let moved = self.wizard.update_position(level);
            self.wizard.velocity = moved;
            proof {
                lemma_moved_in_bounds(*level, wpos, wvel, WIZARD_POS_LIMIT as int);
            }
            if self.wizard.velocity.x.abs().raw > 64 {
                proof {
                    lemma_tdiv_bound(timer as int, 16, 0x7fff_ffff);
                }
                let step_idx = div_trunc(timer as i64, 16) as i32;
                let offset = ping_pong(step_idx, 4);
                self.wizard_frame = offset as u8;
                self.wizard.tile_id = WIZARD_TILE_START + (offset as u16) * 4;
            }
            if self.wizard.velocity.y.raw < 64 {
                // Rising (or nearly still): force the jump/fall pose.
                self.wizard_frame = 0;
                self.wizard.tile_id = WIZARD_FALL_TILE;
            }
            if self.x_input_held(input) {
                self.facing = input.x_tri;
            }
        }
    }

    /// Facing picks the wizard mirror flag and the hat sprite.
    fn step_facing(&mut self)
        requires
            player_wf(old(self)@),
        ensures
            final(self)@ == facing_step(old(self)@),
            player_wf(final(self)@),
    {
        match self.facing {
            Tri::Negative => {
                self.wizard.hflip = true;
                self.hat.tile_id = HAT_TILE_START + 20;
            }
            Tri::Positive => {
                self.wizard.hflip = false;
                self.hat.tile_id = HAT_TILE_START;
            }
            Tri::Zero => {},
        }
    }

    /// Hat behaviour, dispatched on the hat state.
    fn step_hat(&mut self, timer: i32, level: &Level)
        requires
            player_wf(old(self)@),
            level.wf(),
            0 <= timer,
        ensures
            final(self)@ == hat_step(old(self)@, timer as int, *level),
            player_wf(final(self)@),
    {
        let hat_resting = if self.wizard_frame == 1 || self.wizard_frame == 2 {
            Vec2::from_ints(0, 9)
        } else {
            Vec2::from_ints(0, 8)
        };
        match self.hat_state {
            HatState::Thrown => {
                // The hat homes towards the wizard's head.
                let distance_vector = self.wizard.position.minus(self.hat.position).minus(
                    hat_resting,
                );
                let distance = distance_vector.magnitude();
                self.hat.tile_id = self.flight_tile(timer);
                proof {
                    lemma_unit_components(distance_vector@);
                }
                let direction = if distance.raw == 0 {
                    Vec2::zero()
                } else {
                    distance_vector.div_fix(distance)
                };
                let hat_speed = self.hat.velocity.magnitude();
                if self.hat_slow_counter < 10 && hat_speed.raw < 2048 {
                    // Hover briefly before being pulled back.
                    self.hat.velocity = Vec2::zero();
                    self.hat_slow_counter = self.hat_slow_counter + 1;
                } else {
                    self.hat.velocity = self.hat.velocity.plus(direction.div_int(4));
                }
                let ghost hpos = self.hat@.position;
                let ghost hvel = self.hat@.velocity;
                let moved = self.hat.update_position(level);
                self.hat.velocity = moved;
                proof {
                    lemma_moved_in_bounds(*level, hpos, hvel, HAT_POS_LIMIT as int);
                }
                if distance.raw > 16384 {
                    self.hat_left_range = true;
                }
                if self.hat_left_range && distance.raw < 16384 {
                    self.hat_state = HatState::OnHead;
                }
            }
            HatState::OnHead => {
                self.hat_slow_counter = 0;
                self.hat_left_range = false;
                self.hat.position = self.wizard.position.minus(hat_resting);
            }
            HatState::WizardTowards => {
                // The wizard is pulled towards the hat, ever faster.
                self.hat.tile_id = self.flight_tile(timer);
                let distance_vector = self.hat.position.minus(self.wizard.position).plus(
                    hat_resting,
                );
                let distance = distance_vector.magnitude();
                if distance.raw != 0 {
                    proof {
                        lemma_unit_components(distance_vector@);
                        lemma_mag_bound(self.wizard@.velocity, VEL_LIMIT as int);
                    }
                    let speed = self.wizard.velocity.magnitude();
                    let pull = speed.plus(Fix::from_int(1));
                    let unit = distance_vector.div_fix(distance);
                    proof {
                        lemma_fmul_unit_bound(unit@.x, pull.raw as int, 2 * VEL_LIMIT as int + 1024);
                        lemma_fmul_unit_bound(unit@.y, pull.raw as int, 2 * VEL_LIMIT as int + 1024);
                    }
                    self.wizard.velocity = unit.mul_fix(pull);
                }
                let ghost wpos = self.wizard@.position;
                let ghost wvel = self.wizard@.velocity;
                let moved = self.wizard.update_position(level);
                self.wizard.velocity = moved;
                proof {
                    lemma_moved_in_bounds(*level, wpos, wvel, WIZARD_POS_LIMIT as int);
                }
                if distance.raw < 16384 {
                    self.wizard.velocity = self.wizard.velocity.div_int(8);
                    self.hat_state = HatState::OnHead;
                }
            }
        }
    }

    /// Whether a horizontal direction is held this frame.
    fn x_input_held(&self, input: &InputState) -> (held: bool)
        ensures
            held == (tri_val(input.x_tri) != 0),
    {
        match input.x_tri {
            Tri::Zero => false,
            _ => true,
        }
    }

    /// The hat flight animation tile for this frame: ten frames, cycled
    /// at half the game frame rate.
    fn flight_tile(&self, timer: i32) -> (tile: u16)
        requires
            0 <= timer,
        ensures
            tile == hat_flight_tile(timer as int),
    {
        proof {
            lemma_tdiv_bound(timer as int, 2, 0x7fff_ffff);
        }
        let flight = div_trunc(timer as i64, 2);
        let idx = ((flight as u64) % 10) as u16;
        HAT_TILE_START + 4 * idx
    }
}

/// Bound on a vector's raw length from bounds on its components.
proof fn lemma_mag_bound(a: V2, m: int)
    requires
        -m <= a.x <= m,
        -m <= a.y <= m,
        0 <= m,
    ensures
        0 <= v2_mag(a) <= 2 * m,
{
    assert(0 <= a.x * a.x + a.y * a.y <= (2 * m) * (2 * m)) by (nonlinear_arith)
        requires
            -m <= a.x <= m,
            -m <= a.y <= m,
            0 <= m,
    ;
    crate::fixed::lemma_isqrt(a.x * a.x + a.y * a.y);
    lemma_isqrt_le(a.x * a.x + a.y * a.y, (2 * m) * (2 * m));
    lemma_isqrt_square(2 * m);
}

/// Scaling by a unit-magnitude fixed-point factor cannot grow a value
/// past its own bound.
proof fn lemma_fmul_unit_bound(u: int, w: int, m: int)
    requires
        -1024 <= u <= 1024,
        -m <= w <= m,
        0 <= m,
    ensures
        -m <= fmul(u, w) <= m,
{
    assert(-(1024 * m) <= u * w <= 1024 * m) by (nonlinear_arith)
        requires
            -1024 <= u <= 1024,
            -m <= w <= m,
            0 <= m,
    ;
    lemma_tdiv_bound(u * w, 1024, 1024 * m);
    assert((1024 * m) / 1024 == m) by {
        lemma_div_multiples_vanish(m, 1024);
    }
}

/// One collision-resolved move keeps a 16x16 entity within its position
/// bound (a committed step lands inside the level; a rejected one does
/// not move), and the resulting displacement within the velocity bound.
proof fn lemma_moved_in_bounds(level: Level, pos: V2, vel: V2, pos_bound: int)
    requires
        level.wf(),
        -pos_bound <= pos.x <= pos_bound,
        -pos_bound <= pos.y <= pos_bound,
        WIZARD_POS_LIMIT <= pos_bound <= HAT_POS_LIMIT,
    ensures
        ({
            let np = moved_position(level, 16, 16, pos, vel);
            &&& -pos_bound <= np.x <= pos_bound
            &&& -pos_bound <= np.y <= pos_bound
            &&& -VEL_LIMIT <= np.x - pos.x <= VEL_LIMIT
            &&& -VEL_LIMIT <= np.y - pos.y <= VEL_LIMIT
        }),
{
    let after_x = step_x(level, 16, 16, pos, vel);
    if after_x != pos {
        lemma_free_position_in_level(level, after_x);
        lemma_level_extent(level);
    }
    let after_xy = moved_position(level, 16, 16, pos, vel);
    if after_xy != after_x {
        lemma_free_position_in_level(level, after_xy);
        lemma_level_extent(level);
    }
}

/// A well-formed level's pixel extent stays within the wizard's
/// position bound.
proof fn lemma_level_extent(level: Level)
    requires
        level.wf(),
    ensures
        8 * 1024 * (level.width as int) <= 8 * 1024 * 2048,
        8 * 1024 * (level.height as int) <= 8 * 1024 * 2048,
{
    assert(8 * 1024 * (level.width as int) <= 8 * 1024 * 2048) by (nonlinear_arith)
        requires
            level.width as int <= 2048,
    ;
    assert(8 * 1024 * (level.height as int) <= 8 * 1024 * 2048) by (nonlinear_arith)
        requires
            level.height as int <= 2048,
    ;
}

/// How the throw/recall stage may move the hat state, exactly: on the
/// action button's press edge, OnHead becomes Thrown just when a
/// direction is held, and Thrown becomes WizardTowards; nothing else
/// changes state here.
pub proof fn lemma_throw_recall_transitions(p: PlayerV, inp: InputState)
    ensures
        ({
            let q = throw_recall_step(p, inp);
            &&& ((q.hat_state == HatState::Thrown && p.hat_state != HatState::Thrown) <==> (
                p.hat_state == HatState::OnHead && inp.action_pressed && !(tri_val(inp.x_tri) == 0
                    && tri_val(inp.y_tri) == 0)))
            &&& ((q.hat_state == HatState::WizardTowards && p.hat_state
                != HatState::WizardTowards) <==> (p.hat_state == HatState::Thrown
                && inp.action_pressed))
            &&& (q.hat_state != p.hat_state ==> (q.hat_state == HatState::Thrown || q.hat_state
                == HatState::WizardTowards))
        }),
{
}

/// Neither wizard physics nor the facing stage touches the hat state,
/// the range flag or the slow counter.
pub proof fn lemma_middle_stages_keep_hat_state(p: PlayerV, inp: InputState, timer: int, level: Level)
    ensures
        wizard_physics_step(p, inp, timer, level).hat_state == p.hat_state,
        wizard_physics_step(p, inp, timer, level).hat_left_range == p.hat_left_range,
        facing_step(p).hat_state == p.hat_state,
        facing_step(p).hat_left_range == p.hat_left_range,
{
}

/// How the hat stage may move the hat state, exactly. A thrown hat is
/// caught (OnHead) just when it counts as having left range — this
/// frame's measurement included — while the measured distance to the
/// head is back under sixteen units; a wizard pulled towards the hat
/// catches it just when that distance is under sixteen units. A hat on
/// the head stays there.
pub proof fn lemma_hat_step_transitions(p: PlayerV, timer: int, level: Level)
    ensures
        ({
            let q = hat_step(p, timer, level);
            let offset = hat_resting_offset(p.wizard_frame);
            let to_head = v2_mag(v2_sub(v2_sub(p.wizard.position, p.hat.position), offset));
            let to_hat = v2_mag(v2_add(v2_sub(p.hat.position, p.wizard.position), offset));
            &&& (p.hat_state == HatState::OnHead ==> q.hat_state == HatState::OnHead)
            &&& (p.hat_state == HatState::Thrown ==> q.hat_state == (if (to_head > 16384
                || p.hat_left_range) && to_head < 16384 {
                HatState::OnHead
            } else {
                HatState::Thrown
            }))
            &&& (p.hat_state == HatState::WizardTowards ==> q.hat_state == (if to_hat < 16384 {
                HatState::OnHead
            } else {
                HatState::WizardTowards
            }))
        }),
{
}

/// The hat-state machine of one whole frame: Thrown is entered only by
/// a throw (button edge, hat on head, a direction held), WizardTowards
/// only by a recall (button edge while thrown), and OnHead only by a
/// catch (the measured head distance back under sixteen units — after
/// having left range, for a thrown hat). No other transition is
/// reachable.
pub proof fn lemma_hat_state_transitions(p: PlayerV, inp: InputState, timer: int, level: Level)
    ensures
        ({
            let q = player_step(p, inp, timer, level);
            let r = facing_step(wizard_physics_step(throw_recall_step(p, inp), inp, timer, level));
            let offset = hat_resting_offset(r.wizard_frame);
            let to_head = v2_mag(v2_sub(v2_sub(r.wizard.position, r.hat.position), offset));
            let to_hat = v2_mag(v2_add(v2_sub(r.hat.position, r.wizard.position), offset));
            &&& r.hat_state == throw_recall_step(p, inp).hat_state
            &&& (q.hat_state == HatState::Thrown ==> (p.hat_state == HatState::Thrown || (
                p.hat_state == HatState::OnHead && inp.action_pressed && !(tri_val(inp.x_tri) == 0
                    && tri_val(inp.y_tri) == 0))))
            &&& (q.hat_state == HatState::WizardTowards ==> ((p.hat_state == HatState::Thrown
                && inp.action_pressed) || p.hat_state == HatState::WizardTowards))
            &&& (q.hat_state == HatState::OnHead ==> ((r.hat_state == HatState::OnHead
                && p.hat_state == HatState::OnHead) || (r.hat_state == HatState::Thrown && (
                to_head > 16384 || r.hat_left_range) && to_head < 16384) || (r.hat_state
                == HatState::WizardTowards && to_hat < 16384)))
        }),
{
    lemma_throw_recall_transitions(p, inp);
    lemma_middle_stages_keep_hat_state(throw_recall_step(p, inp), inp, timer, level);
    let r = facing_step(wizard_physics_step(throw_recall_step(p, inp), inp, timer, level));
    lemma_hat_step_transitions(r, timer, level);
}

/// A press of the action button with the hat on the head and the
/// direction held flat to the right throws the hat at exactly five
/// units per frame rightward: the vertical component is not positive,
/// so the downward bias does not apply.
pub proof fn lemma_throw_flat_right(p: PlayerV, inp: InputState)
    requires
        p.hat_state == HatState::OnHead,
        inp.action_pressed,
        inp.x_tri == Tri::Positive,
        inp.y_tri == Tri::Zero,
    ensures
        throw_recall_step(p, inp).hat_state == HatState::Thrown,
        throw_recall_step(p, inp).hat.velocity == v2(5int * 1024, 0),
{
    lemma_isqrt_square(1024);
    assert(1024int * 1024 + 0 * 0 == 1024int * 1024);
    assert(v2_mag(v2(1024, 0)) == 1024);
    assert(tdiv(1024int * 1024, 1024) == 1024) by {
        lemma_div_multiples_vanish(1024, 1024);
    }
    assert(tdiv(0, 1024) == 0) by {
        lemma_div_of0(1024);
    }
    assert(v2_norm(v2(1024, 0)) == v2(1024, 0));
    assert(throw_velocity(1, 0) == v2(5int * 1024, 0));
}

} // verus!
