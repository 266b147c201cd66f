//! The decisions of the loop that runs a command: which capability a frame
//! goes to, when the loop ends, and how failures are reported.
//!
//! The loop itself delivers frames and waits for replies. It starts a
//! command, does what `after_start` says, hands each reply to the
//! interpreter and does what `after_exchange` says, until that says to
//! finish; then it asks the interpreter for the response.

use crate::bip32::{Fingerprint, Xpub};
use crate::common::{
    Command, Recipient, RecipientView, Response, Transmit, TransmitView, UnlockOptions,
};
use crate::network::Network;
use vstd::prelude::*;
use vstd::std_specs::convert::FromSpecImpl;

verus! {

/// Why a command failed: the transport, the HTTP client, or the
/// interpreter.
#[derive(Debug)]
pub enum Error<E, F> {
    Transport(E),
    HttpClient(F),
    Interpreter(crate::common::Error),
}

impl<E, F> From<crate::common::Error> for Error<E, F> {
    fn from(value: crate::common::Error) -> (r: Error<E, F>)
        ensures
            r == Error::<E, F>::Interpreter(value),
    {
        Error::Interpreter(value)
    }
}

impl<E, F> FromSpecImpl<crate::common::Error> for Error<E, F> {
    open spec fn obeys_from_spec() -> bool {
        true
    }

    open spec fn from_spec(value: crate::common::Error) -> Error<E, F> {
        Error::Interpreter(value)
    }
}

/// What a device does with the response to `Unlock`.
pub trait OnUnlock {
    fn on_unlock(&mut self, response: Response) -> Result<(), crate::common::Error>;
}

/// What the loop has to do with a frame.
#[derive(Debug)]
pub enum Action {
    /// Send the payload to the device and wait for its reply.
    Exchange { payload: Vec<u8>, encrypted: bool },
    /// Post the payload to the URL and wait for the answer.
    Request { url: String, payload: Vec<u8> },
}

/// An action as a plain value.
pub ghost enum ActionView {
    Exchange { payload: Seq<u8>, encrypted: bool },
    Request { url: Seq<char>, payload: Seq<u8> },
}

impl View for Action {
    type V = ActionView;

    open spec fn view(&self) -> ActionView {
        match self {
            Action::Exchange { payload, encrypted } => ActionView::Exchange {
                payload: payload@,
                encrypted: *encrypted,
            },
            Action::Request { url, payload } => ActionView::Request {
                url: url@,
                payload: payload@,
            },
        }
    }
}

/// What the loop does after a reply has gone to the interpreter.
#[derive(Debug)]
pub enum Step {
    Deliver(Action),
    /// Nothing more is to be sent: ask the interpreter for the response.
    Finish,
}

/// The action for a frame: the recipient decides where it goes.
pub open spec fn action_of(transmit: TransmitView) -> ActionView {
    match transmit.recipient {
        RecipientView::Device => ActionView::Exchange {
            payload: transmit.payload,
            encrypted: transmit.encrypted,
        },
        RecipientView::PinServer { url } => ActionView::Request { url, payload: transmit.payload },
    }
}

/// Decides where a frame goes.
pub fn dispatch(transmit: Transmit) -> (a: Action)
    ensures
        a@ == action_of(transmit@),
{
    match transmit.recipient {
        Recipient::Device => Action::Exchange {
            payload: transmit.payload,
            encrypted: transmit.encrypted,
        },
        Recipient::PinServer { url } => Action::Request { url, payload: transmit.payload },
    }
}

/// What to do once the interpreter has started a command: deliver the first
/// frame, or give up with the interpreter's error.
pub fn after_start<E, F>(started: Result<Transmit, crate::common::Error>) -> (r: Result<
    Action,
    Error<E, F>,
>)
    ensures
        match started {
            Ok(t) => r matches Ok(a) && a@ == action_of(t@),
            Err(e) => r == Err::<Action, Error<E, F>>(Error::Interpreter(e)),
        },
{
    match started {
        Ok(t) => Ok(dispatch(t)),
        Err(e) => Err(Error::Interpreter(e)),
    }
}

/// What to do once the interpreter has taken a reply: deliver the next
/// frame, finish, or give up with the interpreter's error.
pub fn after_exchange<E, F>(next: Result<Option<Transmit>, crate::common::Error>) -> (r: Result<
    Step,
    Error<E, F>,
>)
    ensures
        match next {
            Ok(Some(t)) => r matches Ok(Step::Deliver(a)) && a@ == action_of(t@),
            Ok(None) => r matches Ok(Step::Finish),
            Err(e) => r == Err::<Step, Error<E, F>>(Error::Interpreter(e)),
        },
{
    match next {
        Ok(Some(t)) => Ok(Step::Deliver(dispatch(t))),
        Ok(None) => Ok(Step::Finish),
        Err(e) => Err(Error::Interpreter(e)),
    }
}

/// The outcome of a command, from what the interpreter ends with.
pub fn after_end<E, F>(ended: Result<Response, crate::common::Error>) -> (r: Result<
    Response,
    Error<E, F>,
>)
    ensures
        match ended {
            Ok(response) => r == Ok::<Response, Error<E, F>>(response),
            Err(e) => r == Err::<Response, Error<E, F>>(Error::Interpreter(e)),
        },
{
    match ended {
        Ok(response) => Ok(response),
        Err(e) => Err(Error::Interpreter(e)),
    }
}

/// Whether an HTTP status is a success: the 2xx range. Any other answer of
/// the PIN server is a failure of the HTTP client.
pub fn http_success(status: u16) -> (ok: bool)
    ensures
        ok == (200 <= status <= 299),
{
    200 <= status && status <= 299
}

/// The command that unlocks a device for a network.
pub fn unlock_command(network: Network) -> (c: Command)
    ensures
        c == (Command::Unlock { options: UnlockOptions { network: Some(network) } }),
{
    Command::Unlock { options: UnlockOptions { network: Some(network) } }
}

/// The master fingerprint in a response; a response of another kind is no
/// result.
pub fn master_fingerprint<E, F>(response: Response) -> (r: Result<Fingerprint, Error<E, F>>)
    ensures
        match response {
            Response::MasterFingerprint(fg) => r == Ok::<Fingerprint, Error<E, F>>(fg),
            _ => r == Err::<Fingerprint, Error<E, F>>(
                Error::Interpreter(crate::common::Error::NoErrorOrResult),
            ),
        },
{
    match response {
        Response::MasterFingerprint(fg) => Ok(fg),
        _ => Err(Error::Interpreter(crate::common::Error::NoErrorOrResult)),
    }
}

/// The extended public key in a response; a response of another kind is no
/// result.
pub fn extended_pubkey<E, F>(response: Response) -> (r: Result<Xpub, Error<E, F>>)
    ensures
        match response {
            Response::Xpub(xpub) => r == Ok::<Xpub, Error<E, F>>(xpub),
            _ => r == Err::<Xpub, Error<E, F>>(
                Error::Interpreter(crate::common::Error::NoErrorOrResult),
            ),
        },
{
    match response {
        Response::Xpub(xpub) => Ok(xpub),
        _ => Err(Error::Interpreter(crate::common::Error::NoErrorOrResult)),
    }
}

} // verus!
