//! What can go wrong between a client of the Bitcoin application and the
//! device.

use super::apdu::StatusWord;
use super::store::StoreError;
use vstd::prelude::*;
use vstd::std_specs::convert::FromSpecImpl;

verus! {

#[derive(Debug)]
pub enum BitcoinClientError<T> {
    ClientError(String),
    InvalidPsbt,
    Transport(T),
    Store(StoreError),
    Device { command: u8, status: StatusWord },
    UnexpectedResult { command: u8, data: Vec<u8> },
    InvalidResponse(String),
    UnsupportedAppVersion,
}

impl<T> From<StoreError> for BitcoinClientError<T> {
    fn from(e: StoreError) -> (r: BitcoinClientError<T>)
        ensures
            r == BitcoinClientError::<T>::Store(e),
    {
        BitcoinClientError::Store(e)
    }
}

impl<T> FromSpecImpl<StoreError> for BitcoinClientError<T> {
    open spec fn obeys_from_spec() -> bool {
        true
    }

    open spec fn from_spec(e: StoreError) -> BitcoinClientError<T> {
        BitcoinClientError::Store(e)
    }
}

} // verus!
