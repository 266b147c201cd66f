//! The interpreter for Ledger devices and the frames it speaks.

pub mod apdu;
pub mod command;
pub mod error;
pub mod hid;
pub mod store;

use crate::bip32::{xpub_parsing, DerivationPath, Fingerprint, Xpub};
use crate::network::Network;
use crate::Interpreter;
use apdu::{trailing_word, ApduCommand, ApduError, ApduResponse, StatusWord};
use store::{ClientCommandStore, NoStore, StoreError};
use vstd::prelude::*;
use vstd::std_specs::convert::FromSpecImpl;

verus! {

#[derive(Debug)]
pub enum LedgerError {
    NoErrorOrResult,
    MissingCommandInfo(&'static str),
    Apdu(ApduError),
    Store(StoreError),
    Interrupted,
    UnexpectedResult(LedgerCommand, Vec<u8>),
    FailedToOpenApp(Vec<u8>),
}

impl From<ApduError> for LedgerError {
    fn from(value: ApduError) -> (e: LedgerError)
        ensures
            e == LedgerError::Apdu(value),
    {
        LedgerError::Apdu(value)
    }
}

impl FromSpecImpl<ApduError> for LedgerError {
    open spec fn obeys_from_spec() -> bool {
        true
    }

    open spec fn from_spec(value: ApduError) -> LedgerError {
        LedgerError::Apdu(value)
    }
}

impl From<StoreError> for LedgerError {
    fn from(value: StoreError) -> (e: LedgerError)
        ensures
            e == LedgerError::Store(value),
    {
        LedgerError::Store(value)
    }
}

impl FromSpecImpl<StoreError> for LedgerError {
    open spec fn obeys_from_spec() -> bool {
        true
    }

    open spec fn from_spec(value: StoreError) -> LedgerError {
        LedgerError::Store(value)
    }
}

/// An error as a plain value.
pub ghost enum LedgerErrorView {
    NoErrorOrResult,
    MissingCommandInfo(&'static str),
    Apdu(ApduError),
    Store(StoreError),
    Interrupted,
    UnexpectedResult(LedgerCommandView, Seq<u8>),
    FailedToOpenApp(Seq<u8>),
}

impl View for LedgerError {
    type V = LedgerErrorView;

    open spec fn view(&self) -> LedgerErrorView {
        match self {
            LedgerError::NoErrorOrResult => LedgerErrorView::NoErrorOrResult,
            LedgerError::MissingCommandInfo(m) => LedgerErrorView::MissingCommandInfo(*m),
            LedgerError::Apdu(e) => LedgerErrorView::Apdu(*e),
            LedgerError::Store(e) => LedgerErrorView::Store(*e),
            LedgerError::Interrupted => LedgerErrorView::Interrupted,
            LedgerError::UnexpectedResult(c, d) => LedgerErrorView::UnexpectedResult(c@, d@),
            LedgerError::FailedToOpenApp(d) => LedgerErrorView::FailedToOpenApp(d@),
        }
    }
}

#[derive(Debug)]
pub enum LedgerCommand {
    OpenApp(Network),
    GetMasterFingerprint,
    GetXpub { path: DerivationPath, display: bool },
}

/// A command as a plain value.
pub ghost enum LedgerCommandView {
    OpenApp(Network),
    GetMasterFingerprint,
    GetXpub { path: Seq<u32>, display: bool },
}

impl View for LedgerCommand {
    type V = LedgerCommandView;

    open spec fn view(&self) -> LedgerCommandView {
        match self {
            LedgerCommand::OpenApp(network) => LedgerCommandView::OpenApp(*network),
            LedgerCommand::GetMasterFingerprint => LedgerCommandView::GetMasterFingerprint,
            LedgerCommand::GetXpub { path, display } => LedgerCommandView::GetXpub {
                path: path@,
                display: *display,
            },
        }
    }
}

impl Clone for LedgerCommand {
    fn clone(&self) -> (c: LedgerCommand)
        ensures
            c@ == self@,
    {
        match self {
            LedgerCommand::OpenApp(network) => LedgerCommand::OpenApp(*network),
            LedgerCommand::GetMasterFingerprint => LedgerCommand::GetMasterFingerprint,
            LedgerCommand::GetXpub { path, display } => LedgerCommand::GetXpub {
                path: DerivationPath::from_u32_vec(path.to_u32_vec()),
                display: *display,
            },
        }
    }
}

#[derive(Copy, Clone, Debug, PartialEq, Eq)]
pub enum LedgerResponse {
    TaskDone,
    MasterFingerprint(Fingerprint),
    Xpub(Xpub),
}

/// A response as a plain value: a fingerprint as its four bytes, a key as
/// its serialization.
pub ghost enum LedgerResponseView {
    TaskDone,
    MasterFingerprint(Seq<u8>),
    Xpub(Seq<u8>),
}

impl View for LedgerResponse {
    type V = LedgerResponseView;

    open spec fn view(&self) -> LedgerResponseView {
        match self {
            LedgerResponse::TaskDone => LedgerResponseView::TaskDone,
            LedgerResponse::MasterFingerprint(fg) => LedgerResponseView::MasterFingerprint(fg@),
            LedgerResponse::Xpub(xpub) => LedgerResponseView::Xpub(xpub@),
        }
    }
}

enum State {
    New,
    Running(LedgerCommand),
    Finished(LedgerResponse),
}

/// Where an interpreter stands.
pub ghost enum LedgerState {
    New,
    Running(LedgerCommandView),
    Finished(LedgerResponseView),
}

/// The header and data of the frame that starts a command.
pub open spec fn request(command: LedgerCommandView) -> (u8, u8, u8, u8, Seq<u8>) {
    match command {
        LedgerCommandView::OpenApp(network) => (
            0xe0,
            0xd8,
            0,
            0,
            if network.is_mainnet() {
                command::app_name_mainnet()
            } else {
                command::app_name_test()
            },
        ),
        LedgerCommandView::GetMasterFingerprint => (0xe1, 0x05, 0, 1, Seq::<u8>::empty()),
        LedgerCommandView::GetXpub { path, display } => (
            0xe1,
            0x00,
            0,
            1,
            command::extended_pubkey_data(path, display),
        ),
    }
}

/// What a frame is, as header and data.
pub open spec fn frame(c: ApduCommand) -> (u8, u8, u8, u8, Seq<u8>) {
    (c.cla, c.ins, c.p1, c.p2, c.data@)
}

/// What a reply means to a running command.
pub ghost enum Reply {
    /// The reply is no response frame.
    Malformed(ApduError),
    /// The device interrupts the command and asks the host for this.
    Interrupted(Seq<u8>),
    /// The command is done, with this response.
    Done(LedgerResponseView),
    /// The device answered with something else: the reply's data.
    Unexpected(Seq<u8>),
}

/// The meaning of a reply to a running command.
///
/// A reply shorter than two bytes, or one that ends in no recognized status
/// word, is malformed. The status word `InterruptedExecution` interrupts
/// the command. Opening the application is done on `OK` and on
/// `ClaNotSupported` (the application is open already). The master
/// fingerprint is the first four bytes of the data of an `OK` reply with
/// four bytes or more. An extended public key is the parsed text of the
/// data of an `OK` reply. Everything else is unexpected.
pub open spec fn reply_meaning(command: LedgerCommandView, reply: Seq<u8>) -> Reply {
    if reply.len() < 2 {
        Reply::Malformed(ApduError::ResponseTooShort)
    } else {
        let data = reply.take(reply.len() - 2);
        match trailing_word(reply) {
            None => Reply::Malformed(ApduError::StatusWordUnknown),
            Some(StatusWord::InterruptedExecution) => Reply::Interrupted(data),
            Some(word) => match command {
                LedgerCommandView::GetMasterFingerprint => if word == StatusWord::OK
                    && data.len() >= 4 {
                    Reply::Done(LedgerResponseView::MasterFingerprint(data.take(4)))
                } else {
                    Reply::Unexpected(data)
                },
                LedgerCommandView::OpenApp(_) => if word == StatusWord::OK || word
                    == StatusWord::ClaNotSupported {
                    Reply::Done(LedgerResponseView::TaskDone)
                } else {
                    Reply::Unexpected(data)
                },
                LedgerCommandView::GetXpub { .. } => match xpub_parsing(data) {
                    Ok(encoded) => if word == StatusWord::OK {
                        Reply::Done(LedgerResponseView::Xpub(encoded))
                    } else {
                        Reply::Unexpected(data)
                    },
                    Err(_) => Reply::Unexpected(data),
                },
            },
        }
    }
}

/// What a reply does to an interpreter that has no store: where it then
/// stands, and the error, if the reply makes one.
pub open spec fn spec_exchange(state: LedgerState, reply: Seq<u8>) -> (
    LedgerState,
    Result<(), LedgerErrorView>,
) {
    match state {
        LedgerState::Running(command) => match reply_meaning(command, reply) {
            Reply::Malformed(e) => (state, Err(LedgerErrorView::Apdu(e))),
            Reply::Interrupted(_) => (state, Err(LedgerErrorView::Interrupted)),
            Reply::Done(response) => (LedgerState::Finished(response), Ok(())),
            Reply::Unexpected(bytes) => (
                state,
                Err(LedgerErrorView::UnexpectedResult(command, bytes)),
            ),
        },
        _ => (state, Ok(())),
    }
}

/// Whether a reply has the interpreter turn to its store: the device
/// interrupts a running command, and there is a store.
pub open spec fn asks_the_store(state: LedgerState, has_store: bool, reply: Seq<u8>) -> bool {
    has_store && (state matches LedgerState::Running(command) && reply_meaning(command, reply)
        is Interrupted)
}

/// What `end` gives: the response of a finished command, and before that
/// none.
pub open spec fn spec_end(state: LedgerState) -> Result<LedgerResponseView, LedgerErrorView> {
    match state {
        LedgerState::Finished(response) => Ok(response),
        _ => Err(LedgerErrorView::NoErrorOrResult),
    }
}

/// An interpreter that is asked for its response too early has none: not
/// before a command, not when the command has only been started, and not
/// after a reply that was refused.
pub proof fn lemma_end_before_completion(command: LedgerCommandView, reply: Seq<u8>)
    ensures
        spec_end(LedgerState::New) == Err::<LedgerResponseView, LedgerErrorView>(
            LedgerErrorView::NoErrorOrResult,
        ),
        spec_end(LedgerState::Running(command)) == Err::<LedgerResponseView, LedgerErrorView>(
            LedgerErrorView::NoErrorOrResult,
        ),
        spec_exchange(LedgerState::Running(command), reply).1 is Err ==> spec_end(
            spec_exchange(LedgerState::Running(command), reply).0,
        ) == Err::<LedgerResponseView, LedgerErrorView>(LedgerErrorView::NoErrorOrResult),
        spec_exchange(LedgerState::Running(command), reply).1 is Ok ==> spec_end(
            spec_exchange(LedgerState::Running(command), reply).0,
        ) is Ok,
{
}

/// The interpreter of one command for a Ledger device. `S` is the store
/// that answers the device when it interrupts a command; an interpreter
/// without a store fails on an interruption.
pub struct LedgerInterpreter<S> {
    state: State,
    store: Option<S>,
}

impl<S> LedgerInterpreter<S> {
    /// Where the interpreter stands.
    pub closed spec fn state(&self) -> LedgerState {
        match self.state {
            State::New => LedgerState::New,
            State::Running(command) => LedgerState::Running(command@),
            State::Finished(response) => LedgerState::Finished(response@),
        }
    }

    /// The store that the interpreter turns to, if it has one.
    pub closed spec fn store(&self) -> Option<S> {
        self.store
    }

    /// Whether the interpreter has a store to turn to.
    pub open spec fn has_store(&self) -> bool {
        self.store() is Some
    }

    /// An interpreter that answers interruptions from a store.
    pub fn with_store(store: S) -> (i: LedgerInterpreter<S>)
        ensures
            i.state() == LedgerState::New,
            i.store() == Some(store),
    {
        LedgerInterpreter { state: State::New, store: Some(store) }
    }
}

impl LedgerInterpreter<NoStore> {
    pub fn new() -> (i: LedgerInterpreter<NoStore>)
        ensures
            i.state() == LedgerState::New,
            !i.has_store(),
    {
        LedgerInterpreter { state: State::New, store: None }
    }
}

impl core::default::Default for LedgerInterpreter<NoStore> {
    fn default() -> (i: LedgerInterpreter<NoStore>)
        ensures
            i.state() == LedgerState::New,
            !i.has_store(),
    {
        LedgerInterpreter { state: State::New, store: None }
    }
}

impl<S: ClientCommandStore> Interpreter for LedgerInterpreter<S> {
    type Command = LedgerCommand;

    type Transmit = ApduCommand;

    type Response = LedgerResponse;

    type Error = LedgerError;

    /// Starts a command, whatever went before: the frame to send is the
    /// command's request.
    fn start(&mut self, command: LedgerCommand) -> (r: Result<ApduCommand, LedgerError>)
        ensures
            r is Ok,
            frame(r->Ok_0) == request(command@),
            final(self).state() == LedgerState::Running(command@),
            final(self).store() == old(self).store(),
    {
        let transmit = match &command {
            LedgerCommand::GetMasterFingerprint => command::get_master_fingerprint(),
            LedgerCommand::OpenApp(network) => command::open_app(*network),
            LedgerCommand::GetXpub { path, display } => command::get_extended_pubkey(
                path,
                *display,
            ),
        };
        self.state = State::Running(command);
        Ok(transmit)
    }

    /// Takes the reply to the frame sent last. Outside a running command a
    /// reply changes nothing. To a running command it means what
    /// `reply_meaning` says.
    fn exchange(&mut self, data: Vec<u8>) -> (r: Result<Option<ApduCommand>, LedgerError>)
        ensures
            final(self).has_store() == old(self).has_store(),
            !asks_the_store(old(self).state(), old(self).has_store(), data@)
                ==> final(self).store() == old(self).store(),
            match old(self).state() {
                LedgerState::Running(command) => match reply_meaning(command, data@) {
                    Reply::Malformed(e) => r == Err::<Option<ApduCommand>, LedgerError>(
                        LedgerError::Apdu(e),
                    ) && final(self).state() == old(self).state(),
                    Reply::Interrupted(_) => final(self).state() == old(self).state() && (
                    if old(self).has_store() {
                        match r {
                            Ok(Some(t)) => t.cla == 0xf8 && t.ins == 0x01 && t.p1 == 0 && t.p2
                                == 1,
                            Ok(None) => false,
                            Err(e) => e is Store,
                        }
                    } else {
                        r == Err::<Option<ApduCommand>, LedgerError>(LedgerError::Interrupted)
                    }),
                    Reply::Done(response) => r == Ok::<Option<ApduCommand>, LedgerError>(None)
                        && final(self).state() == LedgerState::Finished(response),
                    Reply::Unexpected(bytes) => final(self).state() == old(self).state() && (
                    r matches Err(LedgerError::UnexpectedResult(c, d)) && c@ == command && d@
                        == bytes),
                },
                _ => r == Ok::<Option<ApduCommand>, LedgerError>(None) && final(self).state()
                    == old(self).state(),
            },
    {
        let command = match &self.state {
            State::Running(command) => command.clone(),
            _ => {
                return Ok(None);
            },
        };
        let res = match ApduResponse::try_from(data) {
            Ok(res) => res,
            Err(e) => {
                return Err(LedgerError::from(e));
            },
        };
        if res.status_word == StatusWord::InterruptedExecution {
            return match &mut self.store {
                Some(store) => match store.execute(res.data) {
                    Ok(transmit) => Ok(Some(command::continue_interrupted(transmit))),
                    Err(e) => Err(LedgerError::from(e)),
                },
                None => Err(LedgerError::Interrupted),
            };
        }
        match &command {
            LedgerCommand::GetMasterFingerprint => {
                if res.status_word == StatusWord::OK && res.data.len() >= 4 {
                    let fg: [u8; 4] = [res.data[0], res.data[1], res.data[2], res.data[3]];
                    assert(fg@ =~= res.data@.take(4));
                    self.state = State::Finished(
                        LedgerResponse::MasterFingerprint(Fingerprint::new(fg)),
                    );
                    Ok(None)
                } else {
                    Err(LedgerError::UnexpectedResult(command, res.data))
                }
            },
            LedgerCommand::OpenApp(_) => {
                if res.status_word == StatusWord::OK || res.status_word
                    == StatusWord::ClaNotSupported {
                    self.state = State::Finished(LedgerResponse::TaskDone);
                    Ok(None)
                } else {
                    Err(LedgerError::UnexpectedResult(command, res.data))
                }
            },
            LedgerCommand::GetXpub { .. } => {
                match Xpub::from_ascii(res.data.as_slice()) {
                    Ok(xpub) => {
                        if res.status_word == StatusWord::OK {
                            self.state = State::Finished(LedgerResponse::Xpub(xpub));
                            Ok(None)
                        } else {
                            Err(LedgerError::UnexpectedResult(command, res.data))
                        }
                    },
                    Err(_) => Err(LedgerError::UnexpectedResult(command, res.data)),
                }
            },
        }
    }

    /// The response of a finished command. Before that there is none.
    fn end(self) -> (r: Result<LedgerResponse, LedgerError>)
        ensures
            match spec_end(self.state()) {
                Ok(response) => r matches Ok(res) && res@ == response,
                Err(e) => r matches Err(f) && f@ == e,
            },
    {
        match self.state {
            State::Finished(res) => Ok(res),
            _ => Err(LedgerError::NoErrorOrResult),
        }
    }
}

} // verus!
