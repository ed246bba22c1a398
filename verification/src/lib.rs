//! Protocol engine for the PMS7003 particulate-matter sensor.
//!
//! The sensor talks over a serial link in small frames that end in a 16-bit
//! additive checksum. This crate holds the frame codec, the byte-at-a-time
//! frame assembler, the measurement decoder and the sequencing of each sensor
//! operation, all without touching the transport: the caller moves the bytes.

pub mod async_interface;
pub mod checksum;
pub mod command;
pub mod error;
pub mod exchange;
pub mod frame;
pub mod read_fsm;
pub mod response;

pub use crate::async_interface::Pms7003SensorAsync;
pub use crate::checksum::{compute_checksum, verify_checksum, CHECKSUM_SIZE};
pub use crate::command::{create_command, CMD_FRAME_SIZE, MN1, MN2};
pub use crate::error::Error;
pub use crate::exchange::{Action, Event, Exchange, Reply};
pub use crate::frame::{OutputFrame, OUTPUT_FRAME_SIZE};
pub use crate::response::{
    Response, ACTIVE_MODE_RESPONSE, PASSIVE_MODE_RESPONSE, RESPONSE_FRAME_SIZE, SLEEP_RESPONSE,
};
