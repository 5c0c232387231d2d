//! The output capability: a LED behind one GPIO pin.
//!
//! The pin itself (mode, output type, speed, the set/reset register) is
//! driven outside this crate; here lives the one decision the driver makes:
//! which level to put on the pin for a logical on or off, given the wiring
//! polarity.

use vstd::prelude::*;
use crate::beacon::LedAction;

verus! {

/// Wiring polarity of the LED: whether it lights on a low or a high pin.
#[derive(Clone, Copy, Debug, PartialEq, Eq, Structural)]
pub enum Active {
    Low,
    High,
}

/// Electrical level to drive onto the pin.
#[derive(Clone, Copy, Debug, PartialEq, Eq, Structural)]
pub enum PinLevel {
    Low,
    High,
}

/// An output capability with a logical on and off; the polarity is the
/// implementer's concern, not the callers'.
pub trait Led {
    fn on(&self);

    fn off(&self);
}

/// The level that realizes an action under a polarity: an active-low LED is
/// lit by a low pin, an active-high one by a high pin.
pub open spec fn spec_drive_level(active: Active, action: LedAction) -> PinLevel {
    match (active, action) {
        (Active::Low, LedAction::On) => PinLevel::Low,
        (Active::Low, LedAction::Off) => PinLevel::High,
        (Active::High, LedAction::On) => PinLevel::High,
        (Active::High, LedAction::Off) => PinLevel::Low,
    }
}

/// Decides the pin level for an action under the given polarity.
pub fn drive_level(active: &Active, action: &LedAction) -> (level: PinLevel)
    ensures
        level == spec_drive_level(*active, *action),
{
    match (active, action) {
        (Active::Low, LedAction::On) => PinLevel::Low,
        (Active::Low, LedAction::Off) => PinLevel::High,
        (Active::High, LedAction::On) => PinLevel::High,
        (Active::High, LedAction::Off) => PinLevel::Low,
    }
}

} // verus!
