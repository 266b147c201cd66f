//! The vocabulary that all devices share, and the interpreters that speak
//! it: each takes a common command to its device's interpreter and brings
//! frames, responses and errors back in common terms.
//!
//! The conversions are `From` and `TryFrom` impls. Some of them build new
//! strings and byte strings, so what each one gives is stated on plain
//! values, in the contract of its `from` or `try_from`.

use crate::bip32::{DerivationPath, Fingerprint, Xpub};
use crate::coldcard::encrypt::Engine;
use crate::coldcard::{
    ColdcardCommand, ColdcardCommandView, ColdcardError, ColdcardErrorView, ColdcardResponse,
    ColdcardResponseView, ColdcardState, ColdcardTransmit,
};
use crate::jade::{
    JadeCommand, JadeCommandView, JadeError, JadeErrorView, JadeRecipient, JadeRecipientView,
    JadeResponse, JadeResponseView, JadeTransmit, JadeView,
};
use crate::ledger::apdu::{encoding, ApduCommand, ApduError};
use crate::ledger::store::NoStore;
use crate::ledger::{
    LedgerCommand, LedgerCommandView, LedgerError, LedgerErrorView, LedgerResponse,
    LedgerResponseView, LedgerState,
};
use crate::network::Network;
use crate::Interpreter;
use vstd::prelude::*;
use vstd::std_specs::convert::{FromSpecImpl, TryFromSpecImpl};
use vstd::utf8::encode_utf8;

verus! {

#[derive(Debug)]
pub struct UnlockOptions {
    pub network: Option<Network>,
}

impl core::default::Default for UnlockOptions {
    fn default() -> (o: UnlockOptions)
        ensures
            o.network is None,
    {
        UnlockOptions { network: None }
    }
}

#[derive(Debug)]
pub enum Command {
    /// Make the device ready for Bitcoin operations on a network.
    Unlock { options: UnlockOptions },
    GetMasterFingerprint,
    /// Ask for the extended public key at a path; `display` has the device
    /// ask its user first.
    GetXpub { path: DerivationPath, display: bool },
}

/// A command as a plain value.
pub ghost enum CommandView {
    Unlock { network: Option<Network> },
    GetMasterFingerprint,
    GetXpub { path: Seq<u32>, display: bool },
}

impl View for Command {
    type V = CommandView;

    open spec fn view(&self) -> CommandView {
        match self {
            Command::Unlock { options } => CommandView::Unlock { network: options.network },
            Command::GetMasterFingerprint => CommandView::GetMasterFingerprint,
            Command::GetXpub { path, display } => CommandView::GetXpub {
                path: path@,
                display: *display,
            },
        }
    }
}

#[derive(Copy, Clone, Debug, PartialEq, Eq)]
pub enum Response {
    TaskDone,
    MasterFingerprint(Fingerprint),
    Xpub(Xpub),
    /// The public key of a Coldcard's session.
    EncryptionKey([u8; 64]),
}

/// A response as a plain value.
pub ghost enum ResponseView {
    TaskDone,
    MasterFingerprint(Seq<u8>),
    Xpub(Seq<u8>),
    EncryptionKey(Seq<u8>),
}

impl View for Response {
    type V = ResponseView;

    open spec fn view(&self) -> ResponseView {
        match self {
            Response::TaskDone => ResponseView::TaskDone,
            Response::MasterFingerprint(fg) => ResponseView::MasterFingerprint(fg@),
            Response::Xpub(xpub) => ResponseView::Xpub(xpub@),
            Response::EncryptionKey(key) => ResponseView::EncryptionKey(key@),
        }
    }
}

/// Who a frame is for.
#[derive(Debug)]
pub enum Recipient {
    Device,
    PinServer { url: String },
}

/// A recipient as a plain value.
pub ghost enum RecipientView {
    Device,
    PinServer { url: Seq<char> },
}

impl View for Recipient {
    type V = RecipientView;

    open spec fn view(&self) -> RecipientView {
        match self {
            Recipient::Device => RecipientView::Device,
            Recipient::PinServer { url } => RecipientView::PinServer { url: url@ },
        }
    }
}

/// A frame that an interpreter wants sent. `encrypted` tells a transport
/// that marks encrypted frames that this is one.
#[derive(Debug)]
pub struct Transmit {
    pub recipient: Recipient,
    pub payload: Vec<u8>,
    pub encrypted: bool,
}

/// A frame as a plain value.
pub ghost struct TransmitView {
    pub recipient: RecipientView,
    pub payload: Seq<u8>,
    pub encrypted: bool,
}

impl View for Transmit {
    type V = TransmitView;

    open spec fn view(&self) -> TransmitView {
        TransmitView {
            recipient: self.recipient@,
            payload: self.payload@,
            encrypted: self.encrypted,
        }
    }
}

#[derive(Debug)]
pub enum Error {
    /// A Coldcard's session could not encrypt or decrypt.
    Encryption(&'static str),
    /// The protocol ended without a result.
    NoErrorOrResult,
    /// The command lacks what the device needs.
    MissingCommandInfo(&'static str),
    /// The device answered in good form with something else.
    UnexpectedResult(Vec<u8>),
    /// The device reports an error: its code and message.
    Rpc(i32, Option<String>),
    /// A reply could not be read.
    Serialization(String),
    /// A request could not be made.
    Request(&'static str),
    AuthenticationRefused,
}

/// An error as a plain value.
pub ghost enum ErrorView {
    Encryption(&'static str),
    NoErrorOrResult,
    MissingCommandInfo(&'static str),
    UnexpectedResult(Seq<u8>),
    Rpc(i32, Option<Seq<char>>),
    Serialization(Seq<char>),
    Request(&'static str),
    AuthenticationRefused,
}

impl View for Error {
    type V = ErrorView;

    open spec fn view(&self) -> ErrorView {
        match self {
            Error::Encryption(m) => ErrorView::Encryption(*m),
            Error::NoErrorOrResult => ErrorView::NoErrorOrResult,
            Error::MissingCommandInfo(m) => ErrorView::MissingCommandInfo(*m),
            Error::UnexpectedResult(d) => ErrorView::UnexpectedResult(d@),
            Error::Rpc(code, message) => ErrorView::Rpc(
                *code,
                match message {
                    Some(m) => Some(m@),
                    None => None,
                },
            ),
            Error::Serialization(m) => ErrorView::Serialization(m@),
            Error::Request(m) => ErrorView::Request(*m),
            Error::AuthenticationRefused => ErrorView::AuthenticationRefused,
        }
    }
}

// Coldcard

/// The Coldcard's command for a common command: unlocking opens the
/// encrypted session.
pub open spec fn coldcard_command(command: CommandView) -> ColdcardCommandView {
    match command {
        CommandView::Unlock { .. } => ColdcardCommandView::StartEncryption,
        CommandView::GetMasterFingerprint => ColdcardCommandView::GetMasterFingerprint,
        CommandView::GetXpub { path, .. } => ColdcardCommandView::GetXpub(path),
    }
}

/// A Coldcard's response in common terms: of its greeting, the session's
/// public key.
pub open spec fn response_of_coldcard(response: ColdcardResponseView) -> ResponseView {
    match response {
        ColdcardResponseView::MasterFingerprint(fg) => ResponseView::MasterFingerprint(fg),
        ColdcardResponseView::Xpub(xpub) => ResponseView::Xpub(xpub),
        ColdcardResponseView::MyPub { encryption_key, .. } => ResponseView::EncryptionKey(
            encryption_key,
        ),
    }
}

/// A Coldcard's frame in common terms: it is for the device.
pub open spec fn transmit_of_coldcard(transmit: (Seq<u8>, bool)) -> TransmitView {
    TransmitView { recipient: RecipientView::Device, payload: transmit.0, encrypted: transmit.1 }
}

/// A Coldcard's error in common terms.
pub open spec fn error_of_coldcard(error: ColdcardErrorView) -> ErrorView {
    match error {
        ColdcardErrorView::Encryption(e) => ErrorView::Encryption(e),
        ColdcardErrorView::MissingCommandInfo(e) => ErrorView::MissingCommandInfo(e),
        ColdcardErrorView::NoErrorOrResult => ErrorView::NoErrorOrResult,
        ColdcardErrorView::Serialization(s) => ErrorView::Serialization(s),
    }
}

impl TryFrom<Command> for ColdcardCommand {
    type Error = ColdcardError;

    fn try_from(cmd: Command) -> (r: Result<ColdcardCommand, ColdcardError>)
        ensures
            r matches Ok(c) && c@ == coldcard_command(cmd@),
    {
        match cmd {
            Command::Unlock { .. } => Ok(ColdcardCommand::StartEncryption),
            Command::GetMasterFingerprint => Ok(ColdcardCommand::GetMasterFingerprint),
            Command::GetXpub { path, .. } => Ok(ColdcardCommand::GetXpub(path)),
        }
    }
}

impl TryFromSpecImpl<Command> for ColdcardCommand {
    open spec fn obeys_try_from_spec() -> bool {
        false
    }

    open spec fn try_from_spec(cmd: Command) -> Result<ColdcardCommand, ColdcardError> {
        arbitrary()
    }
}

impl From<ColdcardResponse> for Response {
    fn from(res: ColdcardResponse) -> (r: Response)
        ensures
            r@ == response_of_coldcard(res@),
    {
        match res {
            ColdcardResponse::MasterFingerprint(fg) => Response::MasterFingerprint(fg),
            ColdcardResponse::Xpub(xpub) => Response::Xpub(xpub),
            ColdcardResponse::MyPub { encryption_key, .. } => Response::EncryptionKey(
                encryption_key,
            ),
        }
    }
}

impl FromSpecImpl<ColdcardResponse> for Response {
    open spec fn obeys_from_spec() -> bool {
        false
    }

    open spec fn from_spec(res: ColdcardResponse) -> Response {
        arbitrary()
    }
}

impl From<ColdcardTransmit> for Transmit {
    fn from(transmit: ColdcardTransmit) -> (r: Transmit)
        ensures
            r@ == transmit_of_coldcard(transmit@),
    {
        Transmit {
            recipient: Recipient::Device,
            payload: transmit.payload,
            encrypted: transmit.encrypted,
        }
    }
}

impl FromSpecImpl<ColdcardTransmit> for Transmit {
    open spec fn obeys_from_spec() -> bool {
        false
    }

    open spec fn from_spec(transmit: ColdcardTransmit) -> Transmit {
        arbitrary()
    }
}

impl From<ColdcardError> for Error {
    fn from(error: ColdcardError) -> (r: Error)
        ensures
            r@ == error_of_coldcard(error@),
    {
        match error {
            ColdcardError::Encryption(e) => Error::Encryption(e),
            ColdcardError::MissingCommandInfo(e) => Error::MissingCommandInfo(e),
            ColdcardError::NoErrorOrResult => Error::NoErrorOrResult,
            ColdcardError::Serialization(s) => Error::Serialization(s),
        }
    }
}

impl FromSpecImpl<ColdcardError> for Error {
    open spec fn obeys_from_spec() -> bool {
        false
    }

    open spec fn from_spec(error: ColdcardError) -> Error {
        arbitrary()
    }
}

// Jade

/// The Jade's command for a common command: unlocking authenticates the
/// user.
pub open spec fn jade_command(command: CommandView) -> JadeCommandView {
    match command {
        CommandView::Unlock { .. } => JadeCommandView::Auth,
        CommandView::GetMasterFingerprint => JadeCommandView::GetMasterFingerprint,
        CommandView::GetXpub { path, .. } => JadeCommandView::GetXpub(path),
    }
}

pub open spec fn response_of_jade(response: JadeResponseView) -> ResponseView {
    match response {
        JadeResponseView::TaskDone => ResponseView::TaskDone,
        JadeResponseView::MasterFingerprint(fg) => ResponseView::MasterFingerprint(fg),
        JadeResponseView::Xpub(xpub) => ResponseView::Xpub(xpub),
    }
}

pub open spec fn recipient_of_jade(recipient: JadeRecipientView) -> RecipientView {
    match recipient {
        JadeRecipientView::Device => RecipientView::Device,
        JadeRecipientView::PinServer { url } => RecipientView::PinServer { url },
    }
}

/// A Jade's frame in common terms: it is never marked encrypted.
pub open spec fn transmit_of_jade(transmit: (JadeRecipientView, Seq<u8>)) -> TransmitView {
    TransmitView {
        recipient: recipient_of_jade(transmit.0),
        payload: transmit.1,
        encrypted: false,
    }
}

/// A Jade's error in common terms.
pub open spec fn error_of_jade(error: JadeErrorView) -> ErrorView {
    match error {
        JadeErrorView::Cbor => ErrorView::Serialization("cbor"@),
        JadeErrorView::NoErrorOrResult => ErrorView::NoErrorOrResult,
        JadeErrorView::Rpc(e) => ErrorView::Rpc(e.code, e.message),
        JadeErrorView::Serialization(s) => ErrorView::Serialization(s),
        JadeErrorView::Request(s) => ErrorView::Request(s),
        JadeErrorView::Unexpected(message) => ErrorView::UnexpectedResult(encode_utf8(message)),
        JadeErrorView::HandshakeRefused => ErrorView::AuthenticationRefused,
    }
}

impl From<Command> for JadeCommand {
    fn from(cmd: Command) -> (r: JadeCommand)
        ensures
            r@ == jade_command(cmd@),
    {
        match cmd {
            Command::Unlock { .. } => JadeCommand::Auth,
            Command::GetMasterFingerprint => JadeCommand::GetMasterFingerprint,
            Command::GetXpub { path, .. } => JadeCommand::GetXpub(path),
        }
    }
}

impl FromSpecImpl<Command> for JadeCommand {
    open spec fn obeys_from_spec() -> bool {
        false
    }

    open spec fn from_spec(cmd: Command) -> JadeCommand {
        arbitrary()
    }
}

impl From<JadeResponse> for Response {
    fn from(res: JadeResponse) -> (r: Response)
        ensures
            r@ == response_of_jade(res@),
    {
        match res {
            JadeResponse::TaskDone => Response::TaskDone,
            JadeResponse::MasterFingerprint(fg) => Response::MasterFingerprint(fg),
            JadeResponse::Xpub(xpub) => Response::Xpub(xpub),
        }
    }
}

impl FromSpecImpl<JadeResponse> for Response {
    open spec fn obeys_from_spec() -> bool {
        false
    }

    open spec fn from_spec(res: JadeResponse) -> Response {
        arbitrary()
    }
}

impl From<JadeRecipient> for Recipient {
    fn from(recipient: JadeRecipient) -> (r: Recipient)
        ensures
            r@ == recipient_of_jade(recipient@),
    {
        match recipient {
            JadeRecipient::Device => Recipient::Device,
            JadeRecipient::PinServer { url } => Recipient::PinServer { url },
        }
    }
}

impl FromSpecImpl<JadeRecipient> for Recipient {
    open spec fn obeys_from_spec() -> bool {
        false
    }

    open spec fn from_spec(recipient: JadeRecipient) -> Recipient {
        arbitrary()
    }
}

impl From<JadeTransmit> for Transmit {
    fn from(transmit: JadeTransmit) -> (r: Transmit)
        ensures
            r@ == transmit_of_jade(transmit@),
    {
        Transmit {
            recipient: Recipient::from(transmit.recipient),
            payload: transmit.payload,
            encrypted: false,
        }
    }
}

impl FromSpecImpl<JadeTransmit> for Transmit {
    open spec fn obeys_from_spec() -> bool {
        false
    }

    open spec fn from_spec(transmit: JadeTransmit) -> Transmit {
        arbitrary()
    }
}

impl From<JadeError> for Error {
    fn from(error: JadeError) -> (r: Error)
        ensures
            r@ == error_of_jade(error@),
    {
        match error {
            JadeError::Cbor => Error::Serialization("cbor".to_string()),
            JadeError::NoErrorOrResult => Error::NoErrorOrResult,
            JadeError::Rpc(api_error) => Error::Rpc(api_error.code, api_error.message),
            JadeError::Serialization(s) => Error::Serialization(s),
            JadeError::Request(s) => Error::Request(s),
            JadeError::Unexpected(msg) => {
                let bytes = msg.as_str().as_bytes();
                let data = crate::bytes::copy_range(bytes, 0, bytes.len());
                assert(data@ =~= encode_utf8(msg@));
                Error::UnexpectedResult(data)
            },
            JadeError::HandshakeRefused => Error::AuthenticationRefused,
        }
    }
}

impl FromSpecImpl<JadeError> for Error {
    open spec fn obeys_from_spec() -> bool {
        false
    }

    open spec fn from_spec(error: JadeError) -> Error {
        arbitrary()
    }
}

// Ledger

/// The Ledger's command for a common command: unlocking opens the Bitcoin
/// application of a network, which the command must name.
pub open spec fn ledger_command(command: CommandView) -> Result<
    LedgerCommandView,
    LedgerErrorView,
> {
    match command {
        CommandView::Unlock { network } => match network {
            Some(network) => Ok(LedgerCommandView::OpenApp(network)),
            None => Err(LedgerErrorView::MissingCommandInfo("network")),
        },
        CommandView::GetMasterFingerprint => Ok(LedgerCommandView::GetMasterFingerprint),
        CommandView::GetXpub { path, display } => Ok(LedgerCommandView::GetXpub { path, display }),
    }
}

pub open spec fn response_of_ledger(response: LedgerResponseView) -> ResponseView {
    match response {
        LedgerResponseView::MasterFingerprint(fg) => ResponseView::MasterFingerprint(fg),
        LedgerResponseView::TaskDone => ResponseView::TaskDone,
        LedgerResponseView::Xpub(xpub) => ResponseView::Xpub(xpub),
    }
}

/// Bytes as a frame for the device, in the clear.
pub open spec fn transmit_of_bytes(payload: Seq<u8>) -> TransmitView {
    TransmitView { recipient: RecipientView::Device, payload, encrypted: false }
}

/// A Ledger's frame in common terms: its wire form, for the device.
pub open spec fn transmit_of_apdu(frame: (u8, u8, u8, u8, Seq<u8>)) -> TransmitView {
    transmit_of_bytes(encoding(frame.0, frame.1, frame.2, frame.3, frame.4))
}

/// The name of an APDU error, as `Debug` prints it.
pub open spec fn apdu_error_name(e: ApduError) -> Seq<char> {
    match e {
        ApduError::StatusWordUnknown => "StatusWordUnknown"@,
        ApduError::ResponseTooShort => "ResponseTooShort"@,
    }
}

/// A Ledger's error in common terms.
pub open spec fn error_of_ledger(error: LedgerErrorView) -> ErrorView {
    match error {
        LedgerErrorView::MissingCommandInfo(e) => ErrorView::MissingCommandInfo(e),
        LedgerErrorView::NoErrorOrResult => ErrorView::NoErrorOrResult,
        LedgerErrorView::Apdu(e) => ErrorView::Serialization(apdu_error_name(e)),
        LedgerErrorView::Store(_) => ErrorView::Request("Store operation failed"),
        LedgerErrorView::Interrupted => ErrorView::Request("Operation interrupted"),
        LedgerErrorView::UnexpectedResult(_, data) => ErrorView::UnexpectedResult(data),
        LedgerErrorView::FailedToOpenApp(_) => ErrorView::AuthenticationRefused,
    }
}

impl TryFrom<Command> for LedgerCommand {
    type Error = LedgerError;

    fn try_from(cmd: Command) -> (r: Result<LedgerCommand, LedgerError>)
        ensures
            match ledger_command(cmd@) {
                Ok(command) => r matches Ok(c) && c@ == command,
                Err(e) => r matches Err(f) && f@ == e,
            },
    {
        match cmd {
            Command::Unlock { options } => match options.network {
                Some(network) => Ok(LedgerCommand::OpenApp(network)),
                None => Err(LedgerError::MissingCommandInfo("network")),
            },
            Command::GetMasterFingerprint => Ok(LedgerCommand::GetMasterFingerprint),
            Command::GetXpub { path, display } => Ok(LedgerCommand::GetXpub { path, display }),
        }
    }
}

impl TryFromSpecImpl<Command> for LedgerCommand {
    open spec fn obeys_try_from_spec() -> bool {
        false
    }

    open spec fn try_from_spec(cmd: Command) -> Result<LedgerCommand, LedgerError> {
        arbitrary()
    }
}

impl From<LedgerResponse> for Response {
    fn from(res: LedgerResponse) -> (r: Response)
        ensures
            r@ == response_of_ledger(res@),
    {
        match res {
            LedgerResponse::MasterFingerprint(fg) => Response::MasterFingerprint(fg),
            LedgerResponse::TaskDone => Response::TaskDone,
            LedgerResponse::Xpub(xpub) => Response::Xpub(xpub),
        }
    }
}

impl FromSpecImpl<LedgerResponse> for Response {
    open spec fn obeys_from_spec() -> bool {
        false
    }

    open spec fn from_spec(res: LedgerResponse) -> Response {
        arbitrary()
    }
}

impl From<Vec<u8>> for Transmit {
    fn from(payload: Vec<u8>) -> (r: Transmit)
        ensures
            r@ == transmit_of_bytes(payload@),
    {
        Transmit { recipient: Recipient::Device, payload, encrypted: false }
    }
}

impl FromSpecImpl<Vec<u8>> for Transmit {
    open spec fn obeys_from_spec() -> bool {
        false
    }

    open spec fn from_spec(payload: Vec<u8>) -> Transmit {
        arbitrary()
    }
}

impl From<ApduCommand> for Transmit {
    fn from(payload: ApduCommand) -> (r: Transmit)
        ensures
            r@ == transmit_of_apdu(crate::ledger::frame(payload)),
    {
        Transmit { recipient: Recipient::Device, payload: payload.encode(), encrypted: false }
    }
}

impl FromSpecImpl<ApduCommand> for Transmit {
    open spec fn obeys_from_spec() -> bool {
        false
    }

    open spec fn from_spec(payload: ApduCommand) -> Transmit {
        arbitrary()
    }
}

impl From<LedgerError> for Error {
    fn from(error: LedgerError) -> (r: Error)
        ensures
            r@ == error_of_ledger(error@),
    {
        match error {
            LedgerError::MissingCommandInfo(e) => Error::MissingCommandInfo(e),
            LedgerError::NoErrorOrResult => Error::NoErrorOrResult,
            LedgerError::Apdu(e) => Error::Serialization(
                match e {
                    ApduError::StatusWordUnknown => "StatusWordUnknown".to_string(),
                    ApduError::ResponseTooShort => "ResponseTooShort".to_string(),
                },
            ),
            LedgerError::Store(_) => Error::Request("Store operation failed"),
            LedgerError::Interrupted => Error::Request("Operation interrupted"),
            LedgerError::UnexpectedResult(_, data) => Error::UnexpectedResult(data),
            LedgerError::FailedToOpenApp(_) => Error::AuthenticationRefused,
        }
    }
}

impl FromSpecImpl<LedgerError> for Error {
    open spec fn obeys_from_spec() -> bool {
        false
    }

    open spec fn from_spec(error: LedgerError) -> Error {
        arbitrary()
    }
}

} // verus!

verus! {

/// The interpreter of one common command for a Ledger device.
pub struct LedgerInterpreter {
    inner: crate::ledger::LedgerInterpreter<NoStore>,
}

impl LedgerInterpreter {
    /// Where the interpreter stands.
    pub closed spec fn state(&self) -> LedgerState {
        self.inner.state()
    }

    /// Whether the interpreter has a store to turn to when the device
    /// interrupts a command. One made by `new` or `default` has none.
    pub closed spec fn has_store(&self) -> bool {
        self.inner.has_store()
    }

    pub fn new() -> (i: LedgerInterpreter)
        ensures
            i.state() == LedgerState::New,
            !i.has_store(),
    {
        LedgerInterpreter { inner: crate::ledger::LedgerInterpreter::new() }
    }
}

impl core::default::Default for LedgerInterpreter {
    fn default() -> (i: LedgerInterpreter)
        ensures
            i.state() == LedgerState::New,
            !i.has_store(),
    {
        LedgerInterpreter { inner: crate::ledger::LedgerInterpreter::new() }
    }
}

impl Interpreter for LedgerInterpreter {
    type Command = Command;

    type Transmit = Transmit;

    type Response = Response;

    type Error = Error;

    /// Starts the Ledger's command for a common command. A command that
    /// the device cannot take changes nothing.
    fn start(&mut self, command: Command) -> (r: Result<Transmit, Error>)
        ensures
            final(self).has_store() == old(self).has_store(),
            match ledger_command(command@) {
                Ok(c) => r matches Ok(t) && t@ == transmit_of_apdu(crate::ledger::request(c))
                    && final(self).state() == LedgerState::Running(c),
                Err(e) => r matches Err(f) && f@ == error_of_ledger(e) && final(self).state()
                    == old(self).state(),
            },
    {
        let command = match LedgerCommand::try_from(command) {
            Ok(c) => c,
            Err(e) => {
                return Err(Error::from(e));
            },
        };
        match self.inner.start(command) {
            Ok(t) => Ok(Transmit::from(t)),
            Err(e) => Err(Error::from(e)),
        }
    }

    /// Takes the reply to the frame sent last. Where the interpreter turns
    /// to a store, the next frame carries the store's answer, whatever it
    /// is, or the store's failure is reported.
    fn exchange(&mut self, data: Vec<u8>) -> (r: Result<Option<Transmit>, Error>)
        ensures
            final(self).has_store() == old(self).has_store(),
            if crate::ledger::asks_the_store(old(self).state(), old(self).has_store(), data@) {
                final(self).state() == old(self).state() && match r {
                    Ok(Some(t)) => exists|answer: Seq<u8>|
                        t@ == #[trigger] transmit_of_apdu((0xf8u8, 0x01u8, 0u8, 1u8, answer)),
                    Ok(None) => false,
                    Err(f) => f@ == ErrorView::Request("Store operation failed"),
                }
            } else {
                final(self).state() == crate::ledger::spec_exchange(old(self).state(), data@).0
                    && match crate::ledger::spec_exchange(old(self).state(), data@).1 {
                    Ok(_) => r matches Ok(None),
                    Err(e) => r matches Err(f) && f@ == error_of_ledger(e),
                }
            },
    {
        match self.inner.exchange(data) {
            Ok(Some(t)) => {
                let ghost answer = t.data@;
                let out = Transmit::from(t);
                assert(out@ == transmit_of_apdu((0xf8u8, 0x01u8, 0u8, 1u8, answer)));
                Ok(Some(out))
            },
            Ok(None) => Ok(None),
            Err(e) => Err(Error::from(e)),
        }
    }

    /// The response of a finished command. Before that there is none.
    fn end(self) -> (r: Result<Response, Error>)
        ensures
            match self.state() {
                LedgerState::Finished(response) => r matches Ok(res) && res@
                    == response_of_ledger(response),
                _ => r matches Err(Error::NoErrorOrResult),
            },
    {
        match self.inner.end() {
            Ok(res) => Ok(Response::from(res)),
            Err(e) => Err(Error::from(e)),
        }
    }
}

/// The interpreter of one common command for a Coldcard.
pub struct ColdcardInterpreter<'a> {
    inner: crate::coldcard::ColdcardInterpreter<'a>,
}

impl<'a> ColdcardInterpreter<'a> {
    /// Where the interpreter stands.
    pub closed spec fn state(&self) -> ColdcardState {
        self.inner.state()
    }

    /// The engine as the interpreter has left it.
    pub closed spec fn engine(&self) -> Engine {
        self.inner.engine()
    }

    pub fn new(encryption: &'a mut Engine) -> (i: ColdcardInterpreter<'a>)
        ensures
            i.state() == ColdcardState::New,
            i.engine() == *old(encryption),
    {
        ColdcardInterpreter { inner: crate::coldcard::ColdcardInterpreter::new(encryption) }
    }
}

impl<'a> Interpreter for ColdcardInterpreter<'a> {
    type Command = Command;

    type Transmit = Transmit;

    type Response = Response;

    type Error = Error;

    /// Starts the Coldcard's command for a common command.
    fn start(&mut self, command: Command) -> (r: Result<Transmit, Error>)
        ensures
            final(self).engine() == crate::coldcard::spec_start(
                old(self).engine(),
                coldcard_command(command@),
            ).0,
            match crate::coldcard::spec_start(old(self).engine(), coldcard_command(command@)).1 {
                Ok(frame) => r matches Ok(t) && t@ == transmit_of_coldcard(frame)
                    && final(self).state() == ColdcardState::Running(coldcard_command(command@)),
                Err(message) => r matches Err(f) && f@ == ErrorView::Encryption(message)
                    && final(self).state() == old(self).state(),
            },
    {
        let command = match ColdcardCommand::try_from(command) {
            Ok(c) => c,
            Err(e) => {
                return Err(Error::from(e));
            },
        };
        match self.inner.start(command) {
            Ok(t) => Ok(Transmit::from(t)),
            Err(e) => Err(Error::from(e)),
        }
    }

    /// Takes the reply to the frame sent last.
    fn exchange(&mut self, data: Vec<u8>) -> (r: Result<Option<Transmit>, Error>)
        ensures
            match old(self).state() {
                ColdcardState::Running(command) => {
                    let (engine, outcome) = crate::coldcard::spec_exchange(
                        old(self).engine(),
                        command,
                        data@,
                    );
                    &&& final(self).engine() == engine
                    &&& match outcome {
                        Ok(response) => r matches Ok(None) && final(self).state()
                            == ColdcardState::Finished(response),
                        Err(e) => r matches Err(f) && f@ == error_of_coldcard(e)
                            && final(self).state() == old(self).state(),
                    }
                },
                _ => r matches Ok(None) && final(self).state() == old(self).state()
                    && final(self).engine() == old(self).engine(),
            },
    {
        match self.inner.exchange(data) {
            Ok(Some(t)) => Ok(Some(Transmit::from(t))),
            Ok(None) => Ok(None),
            Err(e) => Err(Error::from(e)),
        }
    }

    /// The response of a finished command. Before that there is none.
    fn end(self) -> (r: Result<Response, Error>)
        ensures
            match self.state() {
                ColdcardState::Finished(response) => r matches Ok(res) && res@
                    == response_of_coldcard(response),
                _ => r matches Err(Error::NoErrorOrResult),
            },
    {
        match self.inner.end() {
            Ok(res) => Ok(Response::from(res)),
            Err(e) => Err(Error::from(e)),
        }
    }
}

/// The interpreter of one common command for a Jade.
pub struct JadeInterpreter {
    inner: crate::jade::JadeInterpreter,
}

impl View for JadeInterpreter {
    type V = JadeView;

    closed spec fn view(&self) -> JadeView {
        self.inner@
    }
}

/// What a Jade's `exchange` gives back, in common terms.
pub open spec fn outcome_of_jade(outcome: crate::jade::Outcome) -> Result<
    Option<TransmitView>,
    ErrorView,
> {
    match outcome {
        Ok(Some(t)) => Ok(Some(transmit_of_jade(t))),
        Ok(None) => Ok(None),
        Err(e) => Err(error_of_jade(e)),
    }
}

pub open spec fn optional_view(t: Option<Transmit>) -> Option<TransmitView> {
    match t {
        Some(t) => Some(t@),
        None => None,
    }
}

impl JadeInterpreter {
    pub fn new() -> (i: JadeInterpreter)
        ensures
            i@ == crate::jade::fresh(),
    {
        JadeInterpreter { inner: crate::jade::JadeInterpreter::new() }
    }

    /// The same interpreter for another network.
    pub fn with_network(self, network: Network) -> (i: JadeInterpreter)
        ensures
            i@ == (JadeView { mainnet: network.is_mainnet(), ..self@ }),
    {
        JadeInterpreter { inner: self.inner.with_network(network) }
    }

    /// The same interpreter, numbering its requests from `id`.
    pub fn with_request_id(self, id: u64) -> (i: JadeInterpreter)
        ensures
            i@ == (JadeView { next_id: id, ..self@ }),
    {
        JadeInterpreter { inner: self.inner.with_request_id(id) }
    }
}

impl core::default::Default for JadeInterpreter {
    fn default() -> (i: JadeInterpreter)
        ensures
            i@ == crate::jade::fresh(),
    {
        JadeInterpreter { inner: crate::jade::JadeInterpreter::new() }
    }
}

impl Interpreter for JadeInterpreter {
    type Command = Command;

    type Transmit = Transmit;

    type Response = Response;

    type Error = Error;

    /// Starts the Jade's command for a common command.
    fn start(&mut self, command: Command) -> (r: Result<Transmit, Error>)
        ensures
            r matches Ok(t) && t@ == transmit_of_jade(
                (
                    JadeRecipientView::Device,
                    crate::jade::spec_start(old(self)@, jade_command(command@)).1,
                ),
            ),
            final(self)@ == crate::jade::spec_start(old(self)@, jade_command(command@)).0,
    {
        match self.inner.start(JadeCommand::from(command)) {
            Ok(t) => Ok(Transmit::from(t)),
            Err(e) => Err(Error::from(e)),
        }
    }

    /// Takes the reply to the frame sent last.
    fn exchange(&mut self, data: Vec<u8>) -> (r: Result<Option<Transmit>, Error>)
        ensures
            final(self)@ == crate::jade::spec_exchange(old(self)@, data@).0,
            match outcome_of_jade(crate::jade::spec_exchange(old(self)@, data@).1) {
                Ok(next) => r matches Ok(t) && optional_view(t) == next,
                Err(e) => r matches Err(f) && f@ == e,
            },
    {
        match self.inner.exchange(data) {
            Ok(Some(t)) => Ok(Some(Transmit::from(t))),
            Ok(None) => Ok(None),
            Err(e) => Err(Error::from(e)),
        }
    }

    /// The response, once the device has given it. Before that there is
    /// none.
    fn end(self) -> (r: Result<Response, Error>)
        ensures
            match self@.response {
                Some(response) => r matches Ok(res) && res@ == response_of_jade(response),
                None => r matches Err(Error::NoErrorOrResult),
            },
    {
        match self.inner.end() {
            Ok(res) => Ok(Response::from(res)),
            Err(e) => Err(Error::from(e)),
        }
    }
}

} // verus!
