//! Turning per-tick input snapshots into an ordered queue of movement
//! actions.
use vstd::prelude::*;
use crate::fixed::UNIT;

verus! {

/// A movement action produced by input for one tick.
///
/// Magnitudes are fixed-point, `UNIT` standing for a full press.
#[derive(Clone, Copy, Debug, PartialEq, Eq, Structural)]
pub enum MovementAction {
    /// Horizontal movement with a signed magnitude.
    Move(i64),
    /// A jump request.
    Jump,
    /// Vertical climbing with a signed magnitude.
    Climb(i64),
}

/// Which keys are held, or were pressed this tick.
#[derive(Clone, Copy, Debug, PartialEq, Eq, Structural)]
pub struct KeyboardState {
    /// A left key (A or Left) is held.
    pub left: bool,
    /// A right key (D or Right) is held.
    pub right: bool,
    /// The jump key (Space) was pressed this tick.
    pub jump_just_pressed: bool,
    /// An up key (W or Up) is held.
    pub up: bool,
    /// A down key (S or Down) is held.
    pub down: bool,
}

/// One gamepad as seen this tick.
#[derive(Clone, Copy, Debug, PartialEq, Eq, Structural)]
pub struct GamepadState {
    /// The left stick's horizontal axis, fixed-point, if the pad reports it.
    pub left_stick_x: Option<i64>,
    /// The south face button was pressed this tick.
    pub south_just_pressed: bool,
}

/// The direction given by a pair of opposite keys: -1, 0 or 1.
pub open spec fn key_axis(negative: bool, positive: bool) -> int {
    (if positive { 1int } else { 0int }) - (if negative { 1int } else { 0int })
}

/// The actions a keyboard snapshot produces: a move if exactly one of left and
/// right is held, a jump if it was pressed, a climb if exactly one of up and
/// down is held, in that order.
pub open spec fn keyboard_actions(k: KeyboardState) -> Seq<MovementAction> {
    let h = key_axis(k.left, k.right);
    let v = key_axis(k.down, k.up);
    (if h != 0 { seq![MovementAction::Move((h * UNIT) as i64)] } else { Seq::empty() })
        + (if k.jump_just_pressed { seq![MovementAction::Jump] } else { Seq::empty() })
        + (if v != 0 { seq![MovementAction::Climb((v * UNIT) as i64)] } else { Seq::empty() })
}

/// The actions of one gamepad: a move with the stick's value if it has one,
/// then a jump if its button was pressed.
pub open spec fn pad_actions(p: GamepadState) -> Seq<MovementAction> {
    (match p.left_stick_x {
        Some(x) => seq![MovementAction::Move(x)],
        None => Seq::empty(),
    }) + (if p.south_just_pressed { seq![MovementAction::Jump] } else { Seq::empty() })
}

/// The actions of all gamepads, pad by pad in order.
pub open spec fn gamepad_actions(pads: Seq<GamepadState>) -> Seq<MovementAction>
    decreases pads.len(),
{
    if pads.len() == 0 {
        Seq::empty()
    } else {
        gamepad_actions(pads.drop_last()) + pad_actions(pads.last())
    }
}

fn key_direction(negative: bool, positive: bool) -> (r: i64)
    ensures
        r == key_axis(negative, positive) * UNIT,
{
    let mut d: i64 = 0;
    if positive {
        d = d + UNIT;
    }
    if negative {
        d = d - UNIT;
    }
    d
}

/// The actions that a keyboard snapshot sends this tick.
pub fn keyboard_input(keys: &KeyboardState) -> (r: Vec<MovementAction>)
    ensures
        r@ == keyboard_actions(*keys),
{
    let mut out: Vec<MovementAction> = Vec::new();
    let h = key_direction(keys.left, keys.right);
    if h != 0 {
        out.push(MovementAction::Move(h));
    }
    if keys.jump_just_pressed {
        out.push(MovementAction::Jump);
    }
    let v = key_direction(keys.down, keys.up);
    if v != 0 {
        out.push(MovementAction::Climb(v));
    }
    assert(out@ =~= keyboard_actions(*keys));
    out
}

/// The actions that the connected gamepads send this tick.
pub fn gamepad_input(pads: &Vec<GamepadState>) -> (r: Vec<MovementAction>)
    ensures
        r@ == gamepad_actions(pads@),
{
    let mut out: Vec<MovementAction> = Vec::new();
    let mut i: usize = 0;
    while i < pads.len()
        invariant
            i <= pads@.len(),
            out@ == gamepad_actions(pads@.take(i as int)),
        decreases pads@.len() - i,
    {
        let pad = pads[i];
        let ghost before = out@;
        match pad.left_stick_x {
            Some(x) => out.push(MovementAction::Move(x)),
            None => {},
        }
        if pad.south_just_pressed {
            out.push(MovementAction::Jump);
        }
        assert(pads@.take(i as int + 1).drop_last() =~= pads@.take(i as int));
        assert(out@ =~= before + pad_actions(pad));
        i = i + 1;
    }
    assert(pads@.take(pads@.len() as int) =~= pads@);
    out
}

/// The whole action queue of a tick: the keyboard's actions, then the
/// gamepads'.
pub fn collect_input(keys: &KeyboardState, pads: &Vec<GamepadState>) -> (r: Vec<MovementAction>)
    ensures
        r@ == keyboard_actions(*keys) + gamepad_actions(pads@),
{
    let mut out = keyboard_input(keys);
    let mut rest = gamepad_input(pads);
    out.append(&mut rest);
    out
}

} // verus!
