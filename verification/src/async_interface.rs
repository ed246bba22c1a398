//! The session with one sensor.
//!
//! The session owns the transport for as long as the driver lives. Each
//! operation hands out the exchange that the owner then carries through over
//! that transport: it performs the action the exchange names, reports what
//! came of it, and goes on until the exchange is done.

use vstd::prelude::*;
use crate::command::{command_frame, create_command};
use crate::exchange::{Exchange, ExchangeState};
use crate::response::{ACTIVE_MODE_RESPONSE, PASSIVE_MODE_RESPONSE, SLEEP_RESPONSE};

verus! {

/// Opcode that sets the reporting mode: argument 0 for passive, 1 for active.
pub const OPCODE_MODE: u8 = 0xE1;

/// Opcode that asks for a measurement in passive mode.
pub const OPCODE_REQUEST: u8 = 0xE2;

/// Opcode for sleep and wake: argument 0 to sleep, 1 to wake.
pub const OPCODE_SLEEP: u8 = 0xE4;

/// A PMS7003 sensor behind a serial transport.
pub struct Pms7003SensorAsync<Serial> {
    /// The transport, for the owner to carry exchanges through.
    pub serial: Serial,
}

impl<Serial> Pms7003SensorAsync<Serial> {
    /// Creates a sensor that talks over `serial`.
    pub fn new(serial: Serial) -> (sensor: Self)
        ensures
            sensor.serial == serial,
    {
        Self { serial }
    }

    /// Reads a measurement: nothing is sent, a frame of thirty-two bytes is
    /// read and decoded.
    pub fn read(&mut self) -> (exchange: Exchange)
        ensures
            exchange@ == ExchangeState::measurement(),
            exchange@.wf(),
            *final(self) == *old(self),
    {
        Exchange::measurement()
    }

    /// Puts the sensor to sleep and reads its acknowledgement. A measurement
    /// frame that is under way when the command arrives may take the place
    /// of the acknowledgement; the operation then fails.
    pub fn sleep(&mut self) -> (exchange: Exchange)
        ensures
            exchange@ == ExchangeState::command(
                command_frame(OPCODE_SLEEP, 0),
                Some(SLEEP_RESPONSE@),
            ),
            exchange@.wf(),
            *final(self) == *old(self),
    {
        Exchange::command(create_command(OPCODE_SLEEP, 0), Some(SLEEP_RESPONSE))
    }

    /// Wakes the sensor from sleep. The sensor does not acknowledge this.
    pub fn wake(&mut self) -> (exchange: Exchange)
        ensures
            exchange@ == ExchangeState::command(command_frame(OPCODE_SLEEP, 1), None),
            exchange@.wf(),
            *final(self) == *old(self),
    {
        Exchange::command(create_command(OPCODE_SLEEP, 1), None)
    }

    /// Switches to passive mode, in which the sensor reports on request, and
    /// reads its acknowledgement.
    pub fn passive(&mut self) -> (exchange: Exchange)
        ensures
            exchange@ == ExchangeState::command(
                command_frame(OPCODE_MODE, 0),
                Some(PASSIVE_MODE_RESPONSE@),
            ),
            exchange@.wf(),
            *final(self) == *old(self),
    {
        Exchange::command(create_command(OPCODE_MODE, 0), Some(PASSIVE_MODE_RESPONSE))
    }

    /// Switches to active mode, in which the sensor reports continuously,
    /// and reads its acknowledgement.
    pub fn active(&mut self) -> (exchange: Exchange)
        ensures
            exchange@ == ExchangeState::command(
                command_frame(OPCODE_MODE, 1),
                Some(ACTIVE_MODE_RESPONSE@),
            ),
            exchange@.wf(),
            *final(self) == *old(self),
    {
        Exchange::command(create_command(OPCODE_MODE, 1), Some(ACTIVE_MODE_RESPONSE))
    }

    /// Asks for a measurement in passive mode. The answer is the frame that
    /// the next `read` takes in.
    pub fn request(&mut self) -> (exchange: Exchange)
        ensures
            exchange@ == ExchangeState::command(command_frame(OPCODE_REQUEST, 0), None),
            exchange@.wf(),
            *final(self) == *old(self),
    {
        Exchange::command(create_command(OPCODE_REQUEST, 0), None)
    }
}

} // verus!
