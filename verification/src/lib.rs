//! Session manager for a secure serial-line cash-handling peripheral
//! protocol (SSP/eSSP).
//!
//! The library owns the protocol logic: key negotiation state, frame
//! construction with an alternating sequence flag, the write-retry /
//! read state machine for one command/response exchange, the encrypted
//! envelope dispatch rule, and the background-poller lifecycle.  The
//! caller drives the serial port itself and feeds transport events
//! (write outcomes, bytes read) into the exchange state machine.
use vstd::prelude::*;

pub mod codec;
pub mod device_handle;
pub mod response;
pub mod exchange;

pub mod error;


pub mod wire;

verus! {

/// Timeout for waiting on a mutual-exclusion lock (milliseconds).
pub const LOCK_TIMEOUT_MS: u64 = 5_000;

/// Timeout for waiting on serial communication (milliseconds).
pub const SERIAL_TIMEOUT_MS: u64 = 10_000;

/// Minimum polling interval between messages (milliseconds).
pub const MIN_POLLING_MS: u64 = 200;

/// Maximum polling interval between messages (milliseconds).
pub const MAX_POLLING_MS: u64 = 1_000;

/// Default serial connection baud rate (bits per second).
pub const BAUD_RATE: u32 = 9_600;

} // verus!
