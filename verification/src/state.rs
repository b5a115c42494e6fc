//! The state of the driver as a plain value, and what each operation makes
//! of it. The contracts of the driver are written over these.

use crate::line::{Drive, Level, Line};
use crate::response::{response_to, Decode, Response};
use vstd::prelude::*;

verus! {

/// Where the driver stands in a transaction.
#[derive(Copy, Clone, PartialEq, Eq, Debug, Structural)]
pub enum Phase {
    /// No transaction has been started since the driver was made or since
    /// chip select was last driven by hand.
    Idle,
    /// Chip select is low; the frame has not been handed out yet.
    Selected,
    /// The frame is on the bus.
    Transferring,
    /// The exchange is over and chip select is high again.
    Released,
}

/// The state of a driver as a plain value: what it has told the hardware to
/// do so far, and what it is waiting for.
pub struct Model {
    /// The level that chip select was last driven to, if it ever was.
    pub cs: Option<Level>,
    /// The level that enable was last driven to, if it ever was.
    pub enable: Option<Level>,
    /// The place in the current transaction.
    pub phase: Phase,
    /// The transmit frame of the transaction last started.
    pub frame: Seq<u8>,
    /// How the response of that transaction is to be decoded.
    pub decode: Decode,
}

impl Model {
    /// A transaction is under way: chip select has been pulled low for it and
    /// not yet raised.
    pub open spec fn busy(self) -> bool {
        self.phase == Phase::Selected || self.phase == Phase::Transferring
    }

    /// Chip select goes with the phase: low throughout a transaction, high
    /// once it is over.
    pub open spec fn wf(self) -> bool {
        &&& self.frame.len() == 5
        &&& self.busy() ==> self.cs == Some(Level::Low)
        &&& self.phase == Phase::Released ==> self.cs == Some(Level::High)
    }

    /// A driver that has driven nothing yet.
    pub open spec fn fresh() -> Model {
        Model {
            cs: None,
            enable: None,
            phase: Phase::Idle,
            frame: seq![0u8, 0u8, 0u8, 0u8, 0u8],
            decode: Decode::Raw,
        }
    }

    /// Chip select driven by hand. That is no step of a transaction: one
    /// under way is given up, and one that was over is forgotten.
    pub open spec fn cs_driven(self, level: Level) -> Model {
        Model { cs: Some(level), phase: Phase::Idle, ..self }
    }

    /// Enable driven to `level`.
    pub open spec fn enabled(self, level: Level) -> Model {
        Model { enable: Some(level), ..self }
    }

    /// A transaction started from rest: chip select low, the frame ready.
    pub open spec fn selected(self, frame: Seq<u8>, decode: Decode) -> Model {
        Model { cs: Some(Level::Low), phase: Phase::Selected, frame, decode, ..self }
    }

    /// The frame handed out to the bus.
    pub open spec fn exchanging(self) -> Model {
        Model { phase: Phase::Transferring, ..self }
    }

    /// The exchange over, chip select high again.
    pub open spec fn released(self) -> Model {
        Model { cs: Some(Level::High), phase: Phase::Released, ..self }
    }
}

/// The command that drives chip select to `level`.
pub open spec fn chip_select(level: Level) -> Drive {
    Drive { line: Line::ChipSelect, level }
}

/// The command that drives enable to `level`.
pub open spec fn enable(level: Level) -> Drive {
    Drive { line: Line::Enable, level }
}

/// Chip select is low while a transaction is under way and high once it is
/// over, in every state a driver can reach: a fresh driver is in such a
/// state, and every operation leads from such a state to such a state.
pub proof fn lemma_chip_select_follows_phase(
    state: Model,
    frame: Seq<u8>,
    decode: Decode,
    level: Level,
)
    requires
        state.wf(),
        frame.len() == 5,
    ensures
        Model::fresh().wf(),
        state.cs_driven(level).wf(),
        state.enabled(level).wf(),
        !state.busy() ==> state.selected(frame, decode).wf(),
        state.phase == Phase::Selected ==> state.exchanging().wf(),
        state.phase == Phase::Transferring ==> state.released().wf(),
{
}

/// One transaction from its start to its end: chip select is low when the
/// frame is handed out and while it is on the bus, the frame handed out is
/// the one the transaction was started with, and chip select is high when
/// the transaction returns, whether the exchange succeeded or failed.
pub proof fn lemma_chip_select_brackets_exchange(state: Model, frame: Seq<u8>, decode: Decode)
    ensures
        state.selected(frame, decode).phase == Phase::Selected,
        state.selected(frame, decode).cs == Some(Level::Low),
        state.selected(frame, decode).exchanging().phase == Phase::Transferring,
        state.selected(frame, decode).exchanging().cs == Some(Level::Low),
        state.selected(frame, decode).exchanging().frame == frame,
        state.selected(frame, decode).exchanging().decode == decode,
        state.selected(frame, decode).exchanging().released().phase == Phase::Released,
        state.selected(frame, decode).exchanging().released().cs == Some(Level::High),
        state.selected(frame, decode).exchanging().released().enable == state.enable,
{
}

/// A failed exchange leaves nothing behind: whatever the state and however
/// the response was to be decoded, the error of the bus is what the
/// transaction returns, chip select is high, and no transaction is under way.
pub proof fn lemma_bus_error_is_reported<E>(state: Model, error: E)
    ensures
        response_to(state.decode, Err::<[u8; 5], E>(error)) == Err::<Response, E>(error),
        state.released().cs == Some(Level::High),
        !state.released().busy(),
{
}

} // verus!
