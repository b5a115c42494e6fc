//! The digital lines beside the bus, and the commands that drive them.

use vstd::prelude::*;

verus! {

/// The electrical level of a digital line.
#[derive(Copy, Clone, PartialEq, Eq, Debug, Structural)]
pub enum Level {
    /// The line is pulled to ground.
    Low,
    /// The line is pulled to the supply.
    High,
}

/// An output line of the driver.
#[derive(Copy, Clone, PartialEq, Eq, Debug, Structural)]
pub enum Line {
    /// Gates a transaction: the chip listens to the bus while it is low.
    ChipSelect,
    /// Switches the driver stage of the chip.
    Enable,
}

/// A command for the hardware: put `line` at `level`.
#[derive(Copy, Clone, PartialEq, Eq, Debug, Structural)]
pub struct Drive {
    /// The line to drive.
    pub line: Line,
    /// The level to drive it to.
    pub level: Level,
}

} // verus!
