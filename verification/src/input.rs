//! The controls as they stand during one tick.

use vstd::prelude::*;

verus! {

/// The controls of the aircraft.
#[derive(Clone, Copy, Debug, PartialEq, Eq, Structural)]
pub enum Control {
    YawLeft,
    YawRight,
    PitchUp,
    PitchDown,
    ThrottleUp,
    ThrottleDown,
    Reset,
}

/// Which of the controls are held during a tick. The state is sampled
/// afresh every tick, so a control that stays held acts again each tick.
#[derive(Clone, Copy, Debug, PartialEq, Eq, Structural)]
pub struct InputSnapshot {
    pub yaw_left: bool,
    pub yaw_right: bool,
    pub pitch_up: bool,
    pub pitch_down: bool,
    pub throttle_up: bool,
    pub throttle_down: bool,
    pub reset: bool,
}

/// What a tick does to the throttle.
#[derive(Clone, Copy, Debug, PartialEq, Eq, Structural)]
pub enum ThrottleCommand {
    Raise,
    Lower,
    Hold,
}

impl InputSnapshot {
    /// The snapshot in which no control is held.
    pub open spec fn released() -> InputSnapshot {
        InputSnapshot {
            yaw_left: false,
            yaw_right: false,
            pitch_up: false,
            pitch_down: false,
            throttle_up: false,
            throttle_down: false,
            reset: false,
        }
    }

    /// Whether `control` is held in this snapshot.
    pub open spec fn holds(self, control: Control) -> bool {
        match control {
            Control::YawLeft => self.yaw_left,
            Control::YawRight => self.yaw_right,
            Control::PitchUp => self.pitch_up,
            Control::PitchDown => self.pitch_down,
            Control::ThrottleUp => self.throttle_up,
            Control::ThrottleDown => self.throttle_down,
            Control::Reset => self.reset,
        }
    }

    /// Yaw demand: `1` for right alone, `-1` for left alone, `0` when
    /// neither or both are held.
    pub open spec fn yaw_axis(self) -> int {
        (if self.yaw_right { 1int } else { 0int }) - (if self.yaw_left { 1int } else { 0int })
    }

    /// Pitch demand: `1` for up alone, `-1` for down alone, `0` when
    /// neither or both are held.
    pub open spec fn pitch_axis(self) -> int {
        (if self.pitch_up { 1int } else { 0int }) - (if self.pitch_down { 1int } else { 0int })
    }

    /// Throttle demand: raising wins when both throttle controls are held.
    pub open spec fn throttle_command(self) -> ThrottleCommand {
        if self.throttle_up {
            ThrottleCommand::Raise
        } else if self.throttle_down {
            ThrottleCommand::Lower
        } else {
            ThrottleCommand::Hold
        }
    }

    /// The snapshot in which no control is held, as read when no input
    /// device is present.
    pub fn none() -> (snapshot: InputSnapshot)
        ensures
            snapshot == InputSnapshot::released(),
    {
        InputSnapshot {
            yaw_left: false,
            yaw_right: false,
            pitch_up: false,
            pitch_down: false,
            throttle_up: false,
            throttle_down: false,
            reset: false,
        }
    }

    /// Reads every control once through `is_held` and records the
    /// answers.
    pub fn sample<F: Fn(Control) -> bool>(is_held: F) -> (snapshot: InputSnapshot)
        requires
            forall|control: Control| call_requires(is_held, (control,)),
        ensures
            forall|control: Control| call_ensures(is_held, (control,), snapshot.holds(control)),
    {
        let snapshot = InputSnapshot {
            yaw_left: is_held(Control::YawLeft),
            yaw_right: is_held(Control::YawRight),
            pitch_up: is_held(Control::PitchUp),
            pitch_down: is_held(Control::PitchDown),
            throttle_up: is_held(Control::ThrottleUp),
            throttle_down: is_held(Control::ThrottleDown),
            reset: is_held(Control::Reset),
        };
        assert forall|control: Control| call_ensures(
            is_held,
            (control,),
            snapshot.holds(control),
        ) by {
            match control {
                Control::YawLeft => {},
                Control::YawRight => {},
                Control::PitchUp => {},
                Control::PitchDown => {},
                Control::ThrottleUp => {},
                Control::ThrottleDown => {},
                Control::Reset => {},
            }
        }
        snapshot
    }

    /// Whether `control` is held in this snapshot.
    pub fn is_held(&self, control: Control) -> (held: bool)
        ensures
            held == self.holds(control),
    {
        match control {
            Control::YawLeft => self.yaw_left,
            Control::YawRight => self.yaw_right,
            Control::PitchUp => self.pitch_up,
            Control::PitchDown => self.pitch_down,
            Control::ThrottleUp => self.throttle_up,
            Control::ThrottleDown => self.throttle_down,
            Control::Reset => self.reset,
        }
    }

    /// Yaw demand of this snapshot.
    pub fn yaw(&self) -> (axis: i64)
        ensures
            axis == self.yaw_axis(),
    {
        let right: i64 = if self.yaw_right { 1 } else { 0 };
        let left: i64 = if self.yaw_left { 1 } else { 0 };
        right - left
    }

    /// Pitch demand of this snapshot.
    pub fn pitch(&self) -> (axis: i64)
        ensures
            axis == self.pitch_axis(),
    {
        let up: i64 = if self.pitch_up { 1 } else { 0 };
        let down: i64 = if self.pitch_down { 1 } else { 0 };
        up - down
    }

    /// Throttle demand of this snapshot.
    pub fn throttle(&self) -> (command: ThrottleCommand)
        ensures
            command == self.throttle_command(),
    {
        if self.throttle_up {
            ThrottleCommand::Raise
        } else if self.throttle_down {
            ThrottleCommand::Lower
        } else {
            ThrottleCommand::Hold
        }
    }
}

} // verus!
