//! Protocol interpreters for Bitcoin hardware signing devices.
//!
//! An interpreter turns one command into the frames to send and makes a
//! typed response of the replies. It performs no I/O: whoever drives it
//! delivers each frame and hands back the reply.

pub mod bip32;
pub mod bytes;
pub mod coldcard;
pub mod common;
pub mod device;
pub mod devices;
pub mod jade;
pub mod ledger;
pub mod network;
pub mod runner;

use vstd::prelude::*;

verus! {

/// A protocol interpreter for one command.
///
/// `start` gives the first frame. Each reply goes to `exchange`, which gives
/// the next frame, or `None` when nothing more is to be sent. `end` then
/// gives the response.
pub trait Interpreter {
    type Command;

    type Transmit;

    type Response;

    type Error;

    fn start(&mut self, command: Self::Command) -> Result<Self::Transmit, Self::Error>;

    fn exchange(&mut self, data: Vec<u8>) -> Result<Option<Self::Transmit>, Self::Error>;

    fn end(self) -> Result<Self::Response, Self::Error>;
}

} // verus!
