//! The host side of an interrupted command: the device asks, a store
//! answers, and the interpreter carries the answer back.

use super::apdu::ClientCommandCode;
use vstd::prelude::*;

verus! {

/// Why a store gave no answer to the device's request.
#[derive(Debug)]
pub enum StoreError {
    /// The request held no byte.
    EmptyRequest,
    /// The request's first byte names no client command.
    UnknownCommand(u8),
    /// The store has nothing to answer this client command with.
    Unanswerable(ClientCommandCode),
}

/// Answers the requests that a device makes while a command is interrupted.
/// What a store answers is its own affair: the interpreter forwards the
/// answer, or the error, whatever it is.
pub trait ClientCommandStore {
    fn execute(&mut self, request: Vec<u8>) -> Result<Vec<u8>, StoreError>;
}

/// What a store that holds nothing says to a request.
pub open spec fn refusal(request: Seq<u8>) -> StoreError {
    if request.len() == 0 {
        StoreError::EmptyRequest
    } else {
        match ClientCommandCode::spec_try_from(request[0]) {
            Some(code) => StoreError::Unanswerable(code),
            None => StoreError::UnknownCommand(request[0]),
        }
    }
}

/// The store of a command that registers nothing with the host: it refuses
/// every request.
#[derive(Debug)]
pub struct NoStore;

impl ClientCommandStore for NoStore {
    fn execute(&mut self, request: Vec<u8>) -> (r: Result<Vec<u8>, StoreError>)
        ensures
            r == Err::<Vec<u8>, StoreError>(refusal(request@)),
    {
        if request.len() == 0 {
            return Err(StoreError::EmptyRequest);
        }
        match ClientCommandCode::try_from(request[0]) {
            Ok(code) => Err(StoreError::Unanswerable(code)),
            Err(_) => Err(StoreError::UnknownCommand(request[0])),
        }
    }
}

} // verus!
