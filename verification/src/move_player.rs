//! The per-frame motion controller.
//!
//! [`MovePlayerSystem::run`] advances one player entity by one frame:
//! it reads exactly the input mode the player listens to, integrates
//! the position in fixed-point world coordinates, keeps the
//! `Standing`/`Moving` flag consistent with actual movement, and
//! detects arrival at a clicked target. Its contract equates the whole
//! frame with the model function [`crate::model::frame_step`].

use vstd::prelude::*;

verus! {

use crate::player::PlayerState;
use crate::player::InputState;
use crate::player::PlayerComponent;
use crate::math::MAX_SPEED;
use crate::math::MAX_ELAPSED;
use crate::math::MAX_AXIS;
use crate::math::MAX_COORD;
use crate::math::ARRIVE_SQ;
use crate::math::axis_displacement;
use crate::math::compute_step_length;
use crate::math::compute_dist_sq;
use crate::math::move_component;
use crate::math::isqrt;
use crate::math::sqrt_floor;
use crate::math::lemma_sqrt_floor_at_least;
use crate::model::PositionModel;
use crate::model::FrameInput;
use crate::model::opt_xy;
use crate::model::frame_step;
use crate::model::keyboard_step;
use crate::model::pointer_step;
use crate::model::travel;
use crate::model::flip_to_world;

/// The entity's spatial record, in fixed-point world sub-units. The
/// controller is granted write access to it for the duration of one
/// frame update; movement only ever touches `x` and `y`.
#[derive(Clone, Copy, Debug)]
pub struct SpatialTransform {
    pub x: i64,
    pub y: i64,
    pub z: i64,
}

impl View for SpatialTransform {
    type V = PositionModel;

    open spec fn view(&self) -> PositionModel {
        PositionModel { x: self.x as int, y: self.y as int, z: self.z as int }
    }
}

/// The controller. Its only private state is the pointer-move order:
/// the world-space target remembered from a click until arrival.
pub struct MovePlayerSystem {
    mouse_target_location: Option<(i64, i64)>,
}

impl View for MovePlayerSystem {
    type V = Option<(int, int)>;

    closed spec fn view(&self) -> Option<(int, int)> {
        opt_xy(self.mouse_target_location)
    }
}

impl Default for MovePlayerSystem {
    /// A fresh controller has no pointer-move order in flight.
    fn default() -> (r: MovePlayerSystem)
        ensures
            r@ is None,
    {
        MovePlayerSystem { mouse_target_location: None }
    }
}

impl MovePlayerSystem {
    /// A remembered target always lies in the world rectangle that
    /// clicks can produce.
    pub open spec fn wf(&self) -> bool {
        match self@ {
            Some(tg) => 0 <= tg.0 <= MAX_COORD as int && 0 <= tg.1 <= MAX_COORD as int,
            None => true,
        }
    }

    /// The pointer-move order currently in flight, if any.
    pub fn target_location(&self) -> (r: Option<(i64, i64)>)
        ensures
            opt_xy(r) == self@,
    {
        self.mouse_target_location
    }

    /// Advance the player by one frame. The returned vector holds the
    /// state transitions this frame fired, in order; a transition is
    /// fired only on the frame where the state actually changes.
    ///
    /// The whole effect of the call is `frame_step` of the old state:
    /// position, state flag, pointer target and events all follow the
    /// model.
    pub fn run(
        &mut self,
        player: &mut PlayerComponent,
        transform: &mut SpatialTransform,
        elapsed: i64,
        axis_x: i64,
        axis_y: i64,
        mouse_down: bool,
        mouse_position: Option<(i64, i64)>,
        screen_height: i64,
    ) -> (events: Vec<PlayerState>)
        requires
            old(self).wf(),
            0 <= old(player).speed <= MAX_SPEED,
            -MAX_COORD <= old(transform).x <= MAX_COORD,
            -MAX_COORD <= old(transform).y <= MAX_COORD,
            0 <= elapsed <= MAX_ELAPSED,
            -MAX_AXIS <= axis_x <= MAX_AXIS,
            -MAX_AXIS <= axis_y <= MAX_AXIS,
            0 <= screen_height <= MAX_COORD,
            mouse_position matches Some(m) ==> 0 <= m.0 <= MAX_COORD && 0 <= m.1 <= screen_height,
        ensures
            ({
                let r = frame_step(
                    old(player)@,
                    old(transform)@,
                    old(self)@,
                    FrameInput {
                        elapsed: elapsed as int,
                        axis_x: axis_x as int,
                        axis_y: axis_y as int,
                        mouse_down: mouse_down,
                        mouse: opt_xy(mouse_position),
                        screen_height: screen_height as int,
                    },
                );
                &&& final(player)@ == r.player
                &&& final(transform)@ == r.position
                &&& final(self)@ == r.target
                &&& events@ == r.events
            }),
            final(self).wf(),
    {
        let ghost i = FrameInput {
            elapsed: elapsed as int,
            axis_x: axis_x as int,
            axis_y: axis_y as int,
            mouse_down: mouse_down,
            mouse: opt_xy(mouse_position),
            screen_height: screen_height as int,
        };
        let ghost r = frame_step(old(player)@, old(transform)@, old(self)@, i);
        let mut events: Vec<PlayerState> = Vec::new();
        match player.input_state {
            InputState::Keyboard => {
                let dx = axis_displacement(player.speed, elapsed, axis_x);
                let dy = axis_displacement(player.speed, elapsed, axis_y);
                let old_x = transform.x;
                let old_y = transform.y;
                transform.x = transform.x + dx;
                transform.y = transform.y + dy;
                if transform.x == old_x && transform.y == old_y {
                    if player.state != PlayerState::Standing {
                        player.state = PlayerState::Standing;
                        events.push(PlayerState::Standing);
                    }
                } else {
                    if player.state != PlayerState::Moving {
                        player.state = PlayerState::Moving;
                        events.push(PlayerState::Moving);
                    }
                }
                proof {
                    assert(r == keyboard_step(old(player)@, old(transform)@, old(self)@, i));
                    assert(events@ =~= r.events);
                }
            },
            InputState::Mouse => {
                if mouse_down {
                    match mouse_position {
                        Some(m) => {
                            self.mouse_target_location = Some((m.0, screen_height - m.1));
                        },
                        None => {
                            self.mouse_target_location = None;
                        },
                    }
                    if !player.is_moving() {
                        player.state = PlayerState::Moving;
                        events.push(PlayerState::Moving);
                    }
                }
                proof {
                    assert(self@ == if mouse_down {
                        flip_to_world(i.mouse, i.screen_height)
                    } else {
                        old(self)@
                    });
                    assert(self.wf());
                }
                let current = self.mouse_target_location;
                match current {
                    Some(tg) => {
                        if player.is_moving() {
                            let (tx, ty): (i64, i64) = tg;
                            let step = compute_step_length(player.speed, elapsed);
                            let d2 = compute_dist_sq(transform.x, transform.y, tx, ty);
                            if d2 != 0 {
                                let dist = isqrt(d2);
                                proof {
                                    lemma_sqrt_floor_at_least(1, d2 as nat);
                                    lemma_diff_bounded_by_root(
                                        tx as int - transform.x as int,
                                        ty as int - transform.y as int,
                                        d2 as nat,
                                    );
                                }
                                let mx = move_component(step, tx - transform.x, dist);
                                let my = move_component(step, ty - transform.y, dist);
                                transform.x = transform.x + mx;
                                transform.y = transform.y + my;
                            }
                            proof {
                                assert(transform@ == travel(
                                    old(transform)@,
                                    (tx as int, ty as int),
                                    player@.speed,
                                    i.elapsed,
                                ));
                            }
                            let d2_after = compute_dist_sq(transform.x, transform.y, tx, ty);
                            if d2_after <= (ARRIVE_SQ as u64) {
                                self.mouse_target_location = None;
                                player.state = PlayerState::Standing;
                                events.push(PlayerState::Standing);
                            }
                        }
                    },
                    None => {},
                }
                proof {
                    assert(r == pointer_step(old(player)@, old(transform)@, old(self)@, i));
                    assert(events@ =~= r.events);
                }
            },
            InputState::Controller => {
                proof {
                    assert(events@ =~= r.events);
                }
            },
        }
        events
    }
}

/// Each component of a difference vector is bounded in magnitude by
/// the integer length of the vector.
proof fn lemma_diff_bounded_by_root(dx: int, dy: int, n: nat)
    requires
        n == dx * dx + dy * dy,
    ensures
        -(sqrt_floor(n) as int) <= dx <= sqrt_floor(n) as int,
        -(sqrt_floor(n) as int) <= dy <= sqrt_floor(n) as int,
{
    let ax: nat = if dx >= 0 {
        dx as nat
    } else {
        (-dx) as nat
    };
    let ay: nat = if dy >= 0 {
        dy as nat
    } else {
        (-dy) as nat
    };
    assert((ax as int) * (ax as int) == dx * dx && (ay as int) * (ay as int) == dy * dy
        && dx * dx >= 0 && dy * dy >= 0) by (nonlinear_arith)
        requires
            ax as int == dx || ax as int == -dx,
            ay as int == dy || ay as int == -dy,
    ;
    lemma_sqrt_floor_at_least(ax, n);
    lemma_sqrt_floor_at_least(ay, n);
}

} // verus!
