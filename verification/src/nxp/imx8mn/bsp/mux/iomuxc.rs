//! Pin mux and pin control field values.
use vstd::prelude::*;

verus! {

/// MUX Mode Select Field.
#[derive(Clone, Copy, PartialEq, Eq, Structural)]
pub enum MuxMode {
    Alt0,
    Alt1,
    Alt2,
    Alt3,
    Alt4,
    Alt5,
    Alt6,
    Alt7,
}

/// Software Input On Field.
#[derive(Clone, Copy, PartialEq, Eq, Structural)]
pub enum Sion {
    Enabled,
    Disabled,
}

/// Drive Strength Field.
#[derive(Clone, Copy, PartialEq, Eq, Structural)]
pub enum Dse {
    DseX1,
    DseX2,
    DseX6,
    Unimplemented,
}

/// Slew Rate Field.
#[derive(Clone, Copy, PartialEq, Eq, Structural)]
pub enum Fsel {
    Slow,
    Fast,
}

/// Open Drain Enable Field.
#[derive(Clone, Copy, PartialEq, Eq, Structural)]
pub enum Ode {
    Enabled,
    Disabled,
}

/// Pull select: pull-up or pull-down.
#[derive(Clone, Copy, PartialEq, Eq, Structural)]
pub enum Pue {
    PullUp,
    PullDown,
}

/// Hysteresis Enable Field.
#[derive(Clone, Copy, PartialEq, Eq, Structural)]
pub enum Hys {
    Enabled,
    Disabled,
}

/// Pull Resistors Enable Field.
#[derive(Clone, Copy, PartialEq, Eq, Structural)]
pub enum Pe {
    Enabled,
    Disabled,
}

} // verus!
