//! The mathematical model of one frame update.
//!
//! Each executable record has a view into an unbounded-integer model,
//! and [`frame_step`] says exactly what one controller invocation does
//! to that model: the new player record, the new position, the new
//! pointer target, and the sequence of state-transition events the
//! frame fired. The executable controller's contract equates its
//! effect with `frame_step`; the laws in [`crate::laws`] are proved
//! about `frame_step` alone.

use vstd::prelude::*;

verus! {

use crate::player::PlayerState;
use crate::player::InputState;
use crate::player::PlayerComponent;
use crate::math::axis_delta;
use crate::math::step_length;
use crate::math::scaled_toward;
use crate::math::dist_sq;
use crate::math::sqrt_floor;
use crate::math::ARRIVE_SQ;

/// Model of a [`PlayerComponent`].
pub struct PlayerModel {
    pub speed: int,
    pub state: PlayerState,
    pub input_state: InputState,
}

impl View for PlayerComponent {
    type V = PlayerModel;

    open spec fn view(&self) -> PlayerModel {
        PlayerModel { speed: self.speed as int, state: self.state, input_state: self.input_state }
    }
}

/// Model of a position in fixed-point world coordinates.
pub struct PositionModel {
    pub x: int,
    pub y: int,
    pub z: int,
}

/// Everything the external input layer hands the controller for one
/// frame: the frame delta, the two analog axes, the pointer button,
/// the pointer's screen position, and the screen height used to flip
/// the pointer's vertical coordinate into world space.
pub struct FrameInput {
    pub elapsed: int,
    pub axis_x: int,
    pub axis_y: int,
    pub mouse_down: bool,
    pub mouse: Option<(int, int)>,
    pub screen_height: int,
}

/// What one frame update did: the new player record, position and
/// pointer target, and the state transitions it fired, in order. A
/// transition appears only on the frame where the state actually
/// changes, never on a frame that merely stays in the same state.
#[verifier::ext_equal]
pub struct StepResult {
    pub player: PlayerModel,
    pub position: PositionModel,
    pub target: Option<(int, int)>,
    pub events: Seq<PlayerState>,
}

/// An `Option` pair of machine integers, widened to the model.
pub open spec fn opt_xy(v: Option<(i64, i64)>) -> Option<(int, int)> {
    match v {
        Some(p) => Some((p.0 as int, p.1 as int)),
        None => None,
    }
}

/// A pointer's screen position resolved to world space: the vertical
/// axis is inverted between screen and world coordinates, so
/// `world_y == screen_height - screen_y`.
pub open spec fn flip_to_world(mouse: Option<(int, int)>, screen_height: int) -> Option<
    (int, int),
> {
    match mouse {
        Some(m) => Some((m.0, screen_height - m.1)),
        None => None,
    }
}

/// One keyboard-mode frame: integrate the axes into the position, then
/// reconcile the state flag with whether the position actually
/// changed, firing the transition only on the frame where motion
/// starts or stops.
pub open spec fn keyboard_step(
    p: PlayerModel,
    t: PositionModel,
    tgt: Option<(int, int)>,
    i: FrameInput,
) -> StepResult {
    let dx = axis_delta(p.speed, i.elapsed, i.axis_x);
    let dy = axis_delta(p.speed, i.elapsed, i.axis_y);
    let nt = PositionModel { x: t.x + dx, y: t.y + dy, z: t.z };
    if dx == 0 && dy == 0 {
        if p.state != PlayerState::Standing {
            StepResult {
                player: PlayerModel {
                    speed: p.speed,
                    state: PlayerState::Standing,
                    input_state: p.input_state,
                },
                position: nt,
                target: tgt,
                events: seq![PlayerState::Standing],
            }
        } else {
            StepResult { player: p, position: nt, target: tgt, events: seq![] }
        }
    } else {
        if p.state != PlayerState::Moving {
            StepResult {
                player: PlayerModel {
                    speed: p.speed,
                    state: PlayerState::Moving,
                    input_state: p.input_state,
                },
                position: nt,
                target: tgt,
                events: seq![PlayerState::Moving],
            }
        } else {
            StepResult { player: p, position: nt, target: tgt, events: seq![] }
        }
    }
}

/// Movement of one pointer-mode frame: advance `step_length` sub-units
/// from `t` toward `tg` along the straight line between them. The
/// direction's integer length normalizes the movement; when the
/// target coincides with the position exactly there is no direction,
/// and the position is left unchanged.
pub open spec fn travel(t: PositionModel, tg: (int, int), speed: int, elapsed: int) -> PositionModel {
    let dx = tg.0 - t.x;
    let dy = tg.1 - t.y;
    let d2 = dist_sq(t.x, t.y, tg.0, tg.1);
    if d2 == 0 {
        t
    } else {
        let dist = sqrt_floor(d2 as nat) as int;
        let step = step_length(speed, elapsed);
        PositionModel {
            x: t.x + scaled_toward(step, dx, dist),
            y: t.y + scaled_toward(step, dy, dist),
            z: t.z,
        }
    }
}

/// One pointer-mode frame. A pressed pointer button overwrites the
/// remembered target with the click's world position and puts the
/// player in `Moving` (firing the transition only if it was not moving
/// already). Then, if a target is remembered and the player is moving,
/// the position advances toward the target; when the new position is
/// within one world unit of the target, the target is cleared and the
/// player comes to a stand.
pub open spec fn pointer_step(
    p: PlayerModel,
    t: PositionModel,
    tgt: Option<(int, int)>,
    i: FrameInput,
) -> StepResult {
    let tgt1 = if i.mouse_down {
        flip_to_world(i.mouse, i.screen_height)
    } else {
        tgt
    };
    let fired = i.mouse_down && p.state == PlayerState::Standing;
    let p1 = if fired {
        PlayerModel { speed: p.speed, state: PlayerState::Moving, input_state: p.input_state }
    } else {
        p
    };
    let ev1: Seq<PlayerState> = if fired {
        seq![PlayerState::Moving]
    } else {
        seq![]
    };
    match tgt1 {
        Some(tg) => {
            if p1.state != PlayerState::Standing {
                let nt = travel(t, tg, p1.speed, i.elapsed);
                if dist_sq(nt.x, nt.y, tg.0, tg.1) <= ARRIVE_SQ as int {
                    StepResult {
                        player: PlayerModel {
                            speed: p1.speed,
                            state: PlayerState::Standing,
                            input_state: p1.input_state,
                        },
                        position: nt,
                        target: None,
                        events: ev1 + seq![PlayerState::Standing],
                    }
                } else {
                    StepResult { player: p1, position: nt, target: tgt1, events: ev1 }
                }
            } else {
                StepResult { player: p1, position: t, target: tgt1, events: ev1 }
            }
        },
        None => StepResult { player: p1, position: t, target: tgt1, events: ev1 },
    }
}

/// One controller frame. Exactly the mode the player's `input_state`
/// selects is read: keyboard frames never consult the pointer, pointer
/// frames never consult the axes, and controller mode does nothing.
pub open spec fn frame_step(
    p: PlayerModel,
    t: PositionModel,
    tgt: Option<(int, int)>,
    i: FrameInput,
) -> StepResult {
    match p.input_state {
        InputState::Keyboard => keyboard_step(p, t, tgt, i),
        InputState::Mouse => pointer_step(p, t, tgt, i),
        InputState::Controller => StepResult { player: p, position: t, target: tgt, events: seq![] },
    }
}

} // verus!
