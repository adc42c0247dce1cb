//! Frame-level laws of the motion controller, proved over
//! [`crate::model::frame_step`].

use vstd::prelude::*;

verus! {

use vstd::math::abs;
use vstd::arithmetic::div_mod::lemma_div_is_ordered;
use vstd::arithmetic::div_mod::lemma_div_by_self;
use crate::player::PlayerState;
use crate::player::InputState;
use crate::player::next_input_state;
use crate::math::SCALE;
use crate::math::axis_delta;
use crate::model::PlayerModel;
use crate::model::PositionModel;
use crate::model::FrameInput;
use crate::model::frame_step;

/// Cycling the input mode three times returns to the original mode.
pub proof fn lemma_input_mode_cycle(s: InputState)
    ensures
        next_input_state(next_input_state(next_input_state(s))) == s,
{
}

/// A keyboard-mode frame whose axes are both at rest leaves the
/// position unchanged and leaves the player standing; the `Standing`
/// transition fires on exactly this frame if the player was moving,
/// and nothing fires if it already stood.
pub proof fn lemma_keyboard_idle(
    p: PlayerModel,
    t: PositionModel,
    tgt: Option<(int, int)>,
    i: FrameInput,
)
    requires
        p.input_state == InputState::Keyboard,
        i.axis_x == 0,
        i.axis_y == 0,
    ensures
        ({
            let r = frame_step(p, t, tgt, i);
            &&& r.position == t
            &&& r.player.state == PlayerState::Standing
            &&& r.player.speed == p.speed
            &&& r.player.input_state == p.input_state
            &&& r.target == tgt
            &&& (p.state == PlayerState::Moving ==> r.events == seq![PlayerState::Standing])
            &&& (p.state == PlayerState::Standing ==> r.events == Seq::<PlayerState>::empty())
        }),
{
    lemma_axis_delta_zero(p.speed, i.elapsed);
    let r = frame_step(p, t, tgt, i);
    assert(r.position == PositionModel { x: t.x + 0, y: t.y + 0, z: t.z });
    if p.state == PlayerState::Standing {
        assert(r.events =~= Seq::<PlayerState>::empty());
    }
}

/// A keyboard-mode frame with a live axis moves the player along the
/// input direction by exactly the speed- and elapsed-scaled
/// displacement, and the player is moving afterwards; the `Moving`
/// transition fires on exactly the frame motion begins. The axis
/// products must be large enough for the fixed-point displacement to
/// be nonzero.
pub proof fn lemma_keyboard_drive(
    p: PlayerModel,
    t: PositionModel,
    tgt: Option<(int, int)>,
    i: FrameInput,
)
    requires
        p.input_state == InputState::Keyboard,
        p.speed > 0,
        i.axis_x != 0 || i.axis_y != 0,
        i.axis_x != 0 ==> p.speed * i.elapsed * abs(i.axis_x) >= (SCALE * SCALE) as int,
        i.axis_y != 0 ==> p.speed * i.elapsed * abs(i.axis_y) >= (SCALE * SCALE) as int,
    ensures
        ({
            let r = frame_step(p, t, tgt, i);
            &&& r.player.state == PlayerState::Moving
            &&& r.player.speed == p.speed
            &&& r.player.input_state == p.input_state
            &&& r.position.x == t.x + axis_delta(p.speed, i.elapsed, i.axis_x)
            &&& r.position.y == t.y + axis_delta(p.speed, i.elapsed, i.axis_y)
            &&& r.position.z == t.z
            &&& (i.axis_x > 0 ==> r.position.x > t.x)
            &&& (i.axis_x < 0 ==> r.position.x < t.x)
            &&& (i.axis_x == 0 ==> r.position.x == t.x)
            &&& (i.axis_y > 0 ==> r.position.y > t.y)
            &&& (i.axis_y < 0 ==> r.position.y < t.y)
            &&& (i.axis_y == 0 ==> r.position.y == t.y)
            &&& r.target == tgt
            &&& (p.state == PlayerState::Standing ==> r.events == seq![PlayerState::Moving])
            &&& (p.state == PlayerState::Moving ==> r.events == Seq::<PlayerState>::empty())
        }),
{
    lemma_axis_delta_sign(p.speed, i.elapsed, i.axis_x);
    lemma_axis_delta_sign(p.speed, i.elapsed, i.axis_y);
    if i.axis_x == 0 || i.axis_y == 0 {
        lemma_axis_delta_zero(p.speed, i.elapsed);
    }
    let r = frame_step(p, t, tgt, i);
    if p.state == PlayerState::Moving {
        assert(r.events =~= Seq::<PlayerState>::empty());
    }
}

/// Idempotence of the no-op update: a frame that found a standing
/// player and fired no transition left player, position and target
/// exactly as they were, so running the very same frame again fires
/// no transition either.
pub proof fn lemma_standing_noop_idempotent(
    p: PlayerModel,
    t: PositionModel,
    tgt: Option<(int, int)>,
    i: FrameInput,
)
    requires
        p.state == PlayerState::Standing,
        frame_step(p, t, tgt, i).events.len() == 0,
    ensures
        ({
            let r = frame_step(p, t, tgt, i);
            &&& r.player == p
            &&& r.position == t
            &&& r.target == tgt
            &&& frame_step(r.player, r.position, r.target, i) == r
            &&& frame_step(r.player, r.position, r.target, i).events.len() == 0
        }),
{
    let r = frame_step(p, t, tgt, i);
    match p.input_state {
        InputState::Keyboard => {
            let dx = axis_delta(p.speed, i.elapsed, i.axis_x);
            let dy = axis_delta(p.speed, i.elapsed, i.axis_y);
            assert(dx == 0 && dy == 0);
            assert(r.position == PositionModel { x: t.x + 0, y: t.y + 0, z: t.z });
        },
        InputState::Mouse => {
            assert(!i.mouse_down);
        },
        InputState::Controller => {
        },
    }
}

/// Mode exclusivity, pointer side: a pointer-mode frame never reads
/// the axes, so two frames that differ only in axis input have the
/// same outcome — no keyboard displacement is ever applied.
pub proof fn lemma_pointer_ignores_axes(
    p: PlayerModel,
    t: PositionModel,
    tgt: Option<(int, int)>,
    i: FrameInput,
    j: FrameInput,
)
    requires
        p.input_state == InputState::Mouse,
        j.elapsed == i.elapsed,
        j.mouse_down == i.mouse_down,
        j.mouse == i.mouse,
        j.screen_height == i.screen_height,
    ensures
        frame_step(p, t, tgt, i) == frame_step(p, t, tgt, j),
{
    assert(frame_step(p, t, tgt, i) =~= frame_step(p, t, tgt, j));
}

/// Mode exclusivity, keyboard side: a keyboard-mode frame never reads
/// the pointer, so two frames that differ only in pointer input have
/// the same outcome, and the pointer-move order is left untouched.
pub proof fn lemma_keyboard_ignores_pointer(
    p: PlayerModel,
    t: PositionModel,
    tgt: Option<(int, int)>,
    i: FrameInput,
    j: FrameInput,
)
    requires
        p.input_state == InputState::Keyboard,
        j.elapsed == i.elapsed,
        j.axis_x == i.axis_x,
        j.axis_y == i.axis_y,
    ensures
        frame_step(p, t, tgt, i) == frame_step(p, t, tgt, j),
        frame_step(p, t, tgt, i).target == tgt,
{
    assert(frame_step(p, t, tgt, i) =~= frame_step(p, t, tgt, j));
}

/// With both factors nonnegative and a zero axis, the fixed-point
/// displacement is zero.
proof fn lemma_axis_delta_zero(speed: int, elapsed: int)
    ensures
        axis_delta(speed, elapsed, 0) == 0,
{
    assert(speed * elapsed * 0 == 0) by (nonlinear_arith);
    assert((0int) / ((SCALE * SCALE) as int) == 0);
}

/// A displacement whose scaled axis product reaches one sub-unit is
/// nonzero, with the sign of the axis.
proof fn lemma_axis_delta_sign(speed: int, elapsed: int, axis: int)
    requires
        axis != 0 ==> speed * elapsed * abs(axis) >= (SCALE * SCALE) as int,
    ensures
        axis > 0 ==> axis_delta(speed, elapsed, axis) >= 1,
        axis < 0 ==> axis_delta(speed, elapsed, axis) <= -1,
{
    let k = (SCALE * SCALE) as int;
    if axis > 0 {
        assert(speed * elapsed * axis == speed * elapsed * abs(axis));
        lemma_div_is_ordered(k, speed * elapsed * axis, k);
        lemma_div_by_self(k);
    }
    if axis < 0 {
        assert(speed * elapsed * (-axis) == speed * elapsed * abs(axis));
        lemma_div_is_ordered(k, speed * elapsed * (-axis), k);
        lemma_div_by_self(k);
    }
}

} // verus!
