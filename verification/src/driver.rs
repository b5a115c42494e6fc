//! The driver: line control, the transaction engine and the typed accessors.
//!
//! The driver owns no hardware. Each of its operations returns what is to be
//! done on the hardware next, and the one that ends a transaction takes what
//! the bus answered. One transaction runs through three calls:
//!
//! 1. an accessor (`read_u32`, `write_i32`, ...) builds the transmit frame
//!    and returns the command that pulls chip select low;
//! 2. `exchange` hands out the frame to clock out;
//! 3. `transfer_data` takes the outcome of the exchange, returns the command
//!    that raises chip select again, whatever the outcome was, and the
//!    decoded response or the error of the bus.

use crate::frame::{read_frame, read_request, write_frame, write_request};
use crate::line::{Drive, Level, Line};
use crate::payload::{
    bytes_of_signed32, bytes_of_unsigned32, deserialize_signed32, deserialize_unsigned32,
    serialize_signed32, serialize_unsigned32,
};
use crate::registers::Registers;
use crate::response::{response_to, Decode, Reply, Response};
use crate::state::{chip_select, enable, Model, Phase};
use crate::status::TmcStatus;
use vstd::prelude::*;

verus! {

/// The driver of one chip: what it last told the chip-select and enable lines
/// to do, and how far the transaction in hand has come.
///
/// Chip select is low from the start of a transaction until its release and
/// high once it is released; no operation leaves the driver otherwise. What
/// the driver holds is read through its view, a [`Model`].
pub struct TMC5130 {
    cs: Option<Level>,
    enable: Option<Level>,
    phase: Phase,
    frame: [u8; 5],
    decode: Decode,
}

impl View for TMC5130 {
    type V = Model;

    closed spec fn view(&self) -> Model {
        Model {
            cs: self.cs,
            enable: self.enable,
            phase: self.phase,
            frame: self.frame@,
            decode: self.decode,
        }
    }
}

impl TMC5130 {
    /// Holds of every driver there is.
    #[verifier::type_invariant]
    spec fn well_formed(&self) -> bool {
        self@.wf()
    }

    /// A driver for a chip whose lines it has not driven yet.
    pub fn new() -> (driver: Self)
        ensures
            driver@ == Model::fresh(),
            driver@.wf(),
    {
        let driver = TMC5130 {
            cs: None,
            enable: None,
            phase: Phase::Idle,
            frame: [0u8, 0u8, 0u8, 0u8, 0u8],
            decode: Decode::Raw,
        };
        driver
    }

    /// Where the driver stands in a transaction.
    pub fn phase(&self) -> (phase: Phase)
        ensures
            phase == self@.phase,
            self@.wf(),
    {
        proof {
            use_type_invariant(self);
        }
        self.phase
    }

    /// Whether a transaction is under way.
    pub fn busy(&self) -> (busy: bool)
        ensures
            busy == self@.busy(),
            self@.wf(),
    {
        proof {
            use_type_invariant(self);
        }
        match self.phase {
            Phase::Selected | Phase::Transferring => true,
            Phase::Idle | Phase::Released => false,
        }
    }

    /// The level that chip select was last driven to, if it ever was.
    pub fn cs_level(&self) -> (level: Option<Level>)
        ensures
            level == self@.cs,
            self@.wf(),
    {
        proof {
            use_type_invariant(self);
        }
        self.cs
    }

    /// The level that enable was last driven to, if it ever was.
    pub fn enable_level(&self) -> (level: Option<Level>)
        ensures
            level == self@.enable,
    {
        self.enable
    }

    /// Releases chip select: the command drives it high. Done by hand this is
    /// no step of a transaction: the driver is idle afterwards, and a
    /// transaction that was under way is given up.
    pub fn set_cs(&mut self) -> (command: Drive)
        ensures
            command == chip_select(Level::High),
            final(self)@ == old(self)@.cs_driven(Level::High),
            final(self)@.wf(),
    {
        proof {
            use_type_invariant(&*self);
        }
        *self = TMC5130 {
            cs: Some(Level::High),
            enable: self.enable,
            phase: Phase::Idle,
            frame: self.frame,
            decode: self.decode,
        };
        Drive { line: Line::ChipSelect, level: Level::High }
    }

    /// Asserts chip select: the command drives it low. Done by hand this is
    /// no step of a transaction: the driver is idle afterwards, and a
    /// transaction that was under way is given up.
    pub fn clear_cs(&mut self) -> (command: Drive)
        ensures
            command == chip_select(Level::Low),
            final(self)@ == old(self)@.cs_driven(Level::Low),
            final(self)@.wf(),
    {
        proof {
            use_type_invariant(&*self);
        }
        *self = TMC5130 {
            cs: Some(Level::Low),
            enable: self.enable,
            phase: Phase::Idle,
            frame: self.frame,
            decode: self.decode,
        };
        Drive { line: Line::ChipSelect, level: Level::Low }
    }

    /// The command that drives enable high. Nothing else changes.
    pub fn set_en(&mut self) -> (command: Drive)
        ensures
            command == enable(Level::High),
            final(self)@ == old(self)@.enabled(Level::High),
            final(self)@.wf(),
    {
        proof {
            use_type_invariant(&*self);
        }
        self.enable = Some(Level::High);
        Drive { line: Line::Enable, level: Level::High }
    }

    /// The command that drives enable low. Nothing else changes.
    pub fn clear_en(&mut self) -> (command: Drive)
        ensures
            command == enable(Level::Low),
            final(self)@ == old(self)@.enabled(Level::Low),
            final(self)@.wf(),
    {
        proof {
            use_type_invariant(&*self);
        }
        self.enable = Some(Level::Low);
        Drive { line: Line::Enable, level: Level::Low }
    }

    /// The level of the first diagnostic line, from what reading it gave. A
    /// reading that failed has no level: the caller does not go on with one.
    pub fn diag0<E>(&self, reading: Result<bool, E>) -> (high: bool)
        requires
            reading is Ok,
        ensures
            reading == Ok::<bool, E>(high),
    {
        match reading {
            Ok(state) => state,
            Err(_) => unreached(),
        }
    }

    /// The level of the second diagnostic line, from what reading it gave. A
    /// reading that failed has no level: the caller does not go on with one.
    pub fn diag1<E>(&self, reading: Result<bool, E>) -> (high: bool)
        requires
            reading is Ok,
        ensures
            reading == Ok::<bool, E>(high),
    {
        match reading {
            Ok(state) => state,
            Err(_) => unreached(),
        }
    }

    /// Starts a transaction with a frame of the caller's own: the command
    /// pulls chip select low. No transaction may be under way: one that was
    /// cut short is first given up by `set_cs`, so that the chip sees chip
    /// select rise before it falls again.
    pub fn select(&mut self, frame: [u8; 5], decode: Decode) -> (command: Drive)
        requires
            !old(self)@.busy(),
        ensures
            command == chip_select(Level::Low),
            final(self)@ == old(self)@.selected(frame@, decode),
            final(self)@.wf(),
    {
        let command = self.clear_cs();
        *self = TMC5130 {
            cs: self.cs,
            enable: self.enable,
            phase: Phase::Selected,
            frame,
            decode,
        };
        command
    }

    /// Hands out the frame to put on the bus, once chip select is low.
    pub fn exchange(&mut self) -> (frame: [u8; 5])
        requires
            old(self)@.phase == Phase::Selected,
        ensures
            frame@ == old(self)@.frame,
            final(self)@ == old(self)@.exchanging(),
            final(self)@.wf(),
    {
        proof {
            use_type_invariant(&*self);
        }
        self.phase = Phase::Transferring;
        self.frame
    }

    /// Ends the transaction with what the bus answered: the five bytes
    /// received, or its error. Either way the command raises chip select, so
    /// that the line is never left low. The first byte received is the
    /// status, the other four are decoded as the accessor asked; an error of
    /// the bus is handed on as it came.
    pub fn transfer_data<E>(&mut self, outcome: Result<[u8; 5], E>) -> (done: (
        Drive,
        Result<Response, E>,
    ))
        requires
            old(self)@.phase == Phase::Transferring,
        ensures
            done.0 == chip_select(Level::High),
            done.1 == response_to(old(self)@.decode, outcome),
            final(self)@ == old(self)@.released(),
            final(self)@.wf(),
    {
        proof {
            use_type_invariant(&*self);
        }
        let command = self.set_cs();
        self.phase = Phase::Released;
        let result = match outcome {
            Ok(received) => {
                let payload: [u8; 4] = [received[1], received[2], received[3], received[4]];
                let reply = match self.decode {
                    Decode::Raw => Reply::Raw(payload),
                    Decode::Signed => Reply::Signed(deserialize_signed32(payload)),
                    Decode::Unsigned => Reply::Unsigned(deserialize_unsigned32(payload)),
                };
                Ok(Response { status: TmcStatus(received[0]), reply })
            },
            Err(error) => Err(error),
        };
        (command, result)
    }

    /// Starts a read of `register`, whose response is wanted as it comes.
    pub fn read_register(&mut self, register: Registers) -> (command: Drive)
        requires
            !old(self)@.busy(),
        ensures
            command == chip_select(Level::Low),
            final(self)@ == old(self)@.selected(read_frame(register), Decode::Raw),
            final(self)@.wf(),
    {
        let frame = read_request(register);
        self.select(frame, Decode::Raw)
    }

    /// Starts a write of four bytes to `register`.
    pub fn write_register(&mut self, register: Registers, data: [u8; 4]) -> (command: Drive)
        requires
            !old(self)@.busy(),
        ensures
            command == chip_select(Level::Low),
            final(self)@ == old(self)@.selected(write_frame(register, data@), Decode::Raw),
            final(self)@.wf(),
    {
        let frame = write_request(register, data);
        self.select(frame, Decode::Raw)
    }

    /// Starts a write of a signed value to `register`.
    pub fn write_i32(&mut self, register: Registers, data: i32) -> (command: Drive)
        requires
            !old(self)@.busy(),
        ensures
            command == chip_select(Level::Low),
            final(self)@ == old(self)@.selected(
                write_frame(register, bytes_of_signed32(data)),
                Decode::Raw,
            ),
            final(self)@.wf(),
    {
        let frame = write_request(register, serialize_signed32(data));
        self.select(frame, Decode::Raw)
    }

    /// Starts a write of an unsigned value to `register`.
    pub fn write_u32(&mut self, register: Registers, data: u32) -> (command: Drive)
        requires
            !old(self)@.busy(),
        ensures
            command == chip_select(Level::Low),
            final(self)@ == old(self)@.selected(
                write_frame(register, bytes_of_unsigned32(data)),
                Decode::Raw,
            ),
            final(self)@.wf(),
    {
        let frame = write_request(register, serialize_unsigned32(data));
        self.select(frame, Decode::Raw)
    }

    /// Starts a read of `register`, whose value is wanted as a signed number.
    pub fn read_i32(&mut self, register: Registers) -> (command: Drive)
        requires
            !old(self)@.busy(),
        ensures
            command == chip_select(Level::Low),
            final(self)@ == old(self)@.selected(read_frame(register), Decode::Signed),
            final(self)@.wf(),
    {
        let frame = read_request(register);
        self.select(frame, Decode::Signed)
    }

    /// Starts a read of `register`, whose value is wanted as an unsigned
    /// number.
    pub fn read_u32(&mut self, register: Registers) -> (command: Drive)
        requires
            !old(self)@.busy(),
        ensures
            command == chip_select(Level::Low),
            final(self)@ == old(self)@.selected(read_frame(register), Decode::Unsigned),
            final(self)@.wf(),
    {
        let frame = read_request(register);
        self.select(frame, Decode::Unsigned)
    }
}

} // verus!
