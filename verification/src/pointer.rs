//! What the buttons and the wheel of the pointer mean to the bar.

use vstd::prelude::*;

verus! {

/// What the pointer does to the part of the bar that it is on.
#[derive(Clone, Copy, Debug, PartialEq, Eq, Structural)]
pub enum PointerAction {
    Primary,
    Secondary,
    ScrollUp,
    ScrollDown,
}

/// A button of the pointer.
#[derive(Clone, Copy, Debug, PartialEq, Eq, Structural)]
pub enum MouseButton {
    Left,
    Right,
    Middle,
    Other(u16),
}

/// The bit of an `f64` that holds its sign.
pub const F64_SIGN: u64 = 0x8000_0000_0000_0000;

/// The bits of the `f64` that is infinite and positive.
pub const F64_INFINITY: u64 = 0x7ff0_0000_0000_0000;

/// Whether the sign bit of the `f64` with these bits is set.
pub open spec fn f64_signed(bits: u64) -> bool {
    bits >= F64_SIGN
}

/// The bits without the sign. They order the numbers of one sign by size, with
/// zero at the bottom and what is not a number above infinity.
pub open spec fn f64_magnitude(bits: u64) -> int {
    if f64_signed(bits) {
        bits - F64_SIGN
    } else {
        bits as int
    }
}

/// Whether the `f64` with these bits is a number other than zero.
pub open spec fn f64_nonzero(bits: u64) -> bool {
    0 < f64_magnitude(bits) <= F64_INFINITY
}

/// The action of a button, where it has one.
pub fn button_action(button: MouseButton) -> (r: Option<PointerAction>)
    ensures
        r == (match button {
            MouseButton::Left => Some(PointerAction::Primary),
            MouseButton::Right => Some(PointerAction::Secondary),
            _ => None,
        }),
{
    match button {
        MouseButton::Left => Some(PointerAction::Primary),
        MouseButton::Right => Some(PointerAction::Secondary),
        MouseButton::Middle | MouseButton::Other(_) => None,
    }
}

/// The action of a turn of the wheel by the `f64` with these bits.
pub open spec fn wheel_meaning(bits: u64) -> Option<PointerAction> {
    if !f64_nonzero(bits) {
        None
    } else if f64_signed(bits) {
        Some(PointerAction::ScrollDown)
    } else {
        Some(PointerAction::ScrollUp)
    }
}

/// The action of a turn of the wheel: a turn by more than zero scrolls up, one
/// by less than zero scrolls down, and zero or what is not a number does
/// nothing. The turn is given by the bits of an `f64`.
pub fn wheel_action(bits: u64) -> (r: Option<PointerAction>)
    ensures
        r == wheel_meaning(bits),
{
    if 0 < bits && bits <= F64_INFINITY {
        Some(PointerAction::ScrollUp)
    } else if F64_SIGN < bits && bits - F64_SIGN <= F64_INFINITY {
        Some(PointerAction::ScrollDown)
    } else {
        None
    }
}

/// Turning the wheel by the same amount the other way does the opposite, and
/// does nothing where the first turn did nothing.
pub proof fn law_opposite_turns_oppose(bits: u64, opposite: u64)
    requires
        f64_signed(bits) != f64_signed(opposite),
        f64_magnitude(bits) == f64_magnitude(opposite),
    ensures
        match wheel_meaning(bits) {
            Some(PointerAction::ScrollUp) => wheel_meaning(opposite) == Some(
                PointerAction::ScrollDown,
            ),
            Some(PointerAction::ScrollDown) => wheel_meaning(opposite) == Some(
                PointerAction::ScrollUp,
            ),
            Some(_) => false,
            None => wheel_meaning(opposite) is None,
        },
{
}

/// A turn is read from the bits of an `f64`: below the sign bit lies its
/// magnitude, which is a number other than zero up to infinity. Such a turn
/// scrolls up where the sign bit is not set and down where it is; no other turn
/// does anything.
pub proof fn law_wheel_goes_by_sign(bits: u64, action: Option<PointerAction>)
    requires
        call_ensures(wheel_action, (bits,), action),
    ensures
        ({
            let negative = bits / 0x8000_0000_0000_0000 == 1;
            let magnitude = bits % 0x8000_0000_0000_0000;
            let turned = 0 < magnitude <= 0x7ff0_0000_0000_0000;
            &&& action == Some(PointerAction::ScrollUp) <==> turned && !negative
            &&& action == Some(PointerAction::ScrollDown) <==> turned && negative
            &&& action is None <==> !turned
        }),
{
}

/// The left button is the primary one, the right button the secondary one, and
/// no other button does anything.
pub proof fn law_two_buttons_act(button: MouseButton, action: Option<PointerAction>)
    requires
        call_ensures(button_action, (button,), action),
    ensures
        action == Some(PointerAction::Primary) <==> button == MouseButton::Left,
        action == Some(PointerAction::Secondary) <==> button == MouseButton::Right,
        action is None <==> button != MouseButton::Left && button != MouseButton::Right,
{
}

} // verus!
