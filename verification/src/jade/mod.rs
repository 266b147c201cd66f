//! The interpreter for Jade devices.
//!
//! A Jade is unlocked with the help of a PIN server: the device answers
//! `auth_user` with a request for the server, the server's answer goes back
//! to the device as `pin`, and the device then says whether it is unlocked.

pub mod api;
pub mod cbor;
pub mod serial;

use crate::bip32::{fingerprint_of, xpub_parsing, DerivationPath, Fingerprint, Xpub};
use crate::network::Network;
use crate::Interpreter;
use api::{
    auth_reply, cbor_of_json, envelope, json_of_cbor, request, xpub_params, AuthReply,
    AuthReplyView, Envelope, EnvelopeView, ErrorView,
};
use cbor::{bool_at, text_at};
use vstd::prelude::*;
use vstd::string::StringSliceAdditionalSpecFns;

verus! {

/// The speed of the serial line to a Jade.
pub const JADE_BAUD_RATE: u32 = 115200;

pub const JADE_NETWORK_MAINNET: &'static str = "mainnet";

pub const JADE_NETWORK_TESTNET: &'static str = "testnet";

#[derive(Debug)]
pub enum JadeError {
    /// The reply has neither a result nor an error, or the interpreter is
    /// asked for a response that it has not got.
    NoErrorOrResult,
    /// The device reports an error.
    Rpc(api::Error),
    /// The reply cannot be read.
    Cbor,
    Serialization(String),
    /// The PIN server's answer cannot be handed on.
    Request(&'static str),
    /// The reply holds something else than what was asked for.
    Unexpected(String),
    /// The device refuses the PIN server's answer.
    HandshakeRefused,
}

/// An error as a plain value.
pub ghost enum JadeErrorView {
    NoErrorOrResult,
    Rpc(ErrorView),
    Cbor,
    Serialization(Seq<char>),
    Request(&'static str),
    Unexpected(Seq<char>),
    HandshakeRefused,
}

impl View for JadeError {
    type V = JadeErrorView;

    open spec fn view(&self) -> JadeErrorView {
        match self {
            JadeError::NoErrorOrResult => JadeErrorView::NoErrorOrResult,
            JadeError::Rpc(e) => JadeErrorView::Rpc(e@),
            JadeError::Cbor => JadeErrorView::Cbor,
            JadeError::Serialization(m) => JadeErrorView::Serialization(m@),
            JadeError::Request(m) => JadeErrorView::Request(*m),
            JadeError::Unexpected(m) => JadeErrorView::Unexpected(m@),
            JadeError::HandshakeRefused => JadeErrorView::HandshakeRefused,
        }
    }
}

#[derive(Debug)]
pub enum JadeCommand {
    Auth,
    GetMasterFingerprint,
    GetXpub(DerivationPath),
}

/// A command as a plain value.
pub ghost enum JadeCommandView {
    Auth,
    GetMasterFingerprint,
    GetXpub(Seq<u32>),
}

impl View for JadeCommand {
    type V = JadeCommandView;

    open spec fn view(&self) -> JadeCommandView {
        match self {
            JadeCommand::Auth => JadeCommandView::Auth,
            JadeCommand::GetMasterFingerprint => JadeCommandView::GetMasterFingerprint,
            JadeCommand::GetXpub(path) => JadeCommandView::GetXpub(path@),
        }
    }
}

#[derive(Copy, Clone, Debug, PartialEq, Eq)]
pub enum JadeResponse {
    TaskDone,
    MasterFingerprint(Fingerprint),
    Xpub(Xpub),
}

/// A response as a plain value.
pub ghost enum JadeResponseView {
    TaskDone,
    MasterFingerprint(Seq<u8>),
    Xpub(Seq<u8>),
}

impl View for JadeResponse {
    type V = JadeResponseView;

    open spec fn view(&self) -> JadeResponseView {
        match self {
            JadeResponse::TaskDone => JadeResponseView::TaskDone,
            JadeResponse::MasterFingerprint(fg) => JadeResponseView::MasterFingerprint(fg@),
            JadeResponse::Xpub(xpub) => JadeResponseView::Xpub(xpub@),
        }
    }
}

/// Who a frame is for.
#[derive(Debug)]
pub enum JadeRecipient {
    Device,
    PinServer { url: String },
}

/// A recipient as a plain value.
pub ghost enum JadeRecipientView {
    Device,
    PinServer { url: Seq<char> },
}

impl View for JadeRecipient {
    type V = JadeRecipientView;

    open spec fn view(&self) -> JadeRecipientView {
        match self {
            JadeRecipient::Device => JadeRecipientView::Device,
            JadeRecipient::PinServer { url } => JadeRecipientView::PinServer { url: url@ },
        }
    }
}

#[derive(Debug)]
pub struct JadeTransmit {
    pub recipient: JadeRecipient,
    pub payload: Vec<u8>,
}

impl View for JadeTransmit {
    type V = (JadeRecipientView, Seq<u8>);

    open spec fn view(&self) -> (JadeRecipientView, Seq<u8>) {
        (self.recipient@, self.payload@)
    }
}

enum State {
    New,
    Running(JadeCommand),
    WaitingPinServer,
    WaitingFinalHandshake,
}

/// The phase of a command.
pub ghost enum JadeState {
    New,
    Running(JadeCommandView),
    WaitingPinServer,
    WaitingFinalHandshake,
}

/// Where an interpreter stands.
pub ghost struct JadeView {
    /// Whether the device is asked for mainnet.
    pub mainnet: bool,
    pub state: JadeState,
    /// The response, once there is one.
    pub response: Option<JadeResponseView>,
    /// The id of the next request.
    pub next_id: u64,
}

/// The id after an id.
pub open spec fn id_after(id: u64) -> u64 {
    if id == u64::MAX {
        0
    } else {
        (id + 1) as u64
    }
}

/// The first frame of a command, and where the interpreter then stands. The
/// device is asked to `auth_user`, or to `get_xpub` at a path: the master
/// key's for the master fingerprint.
pub open spec fn spec_start(v: JadeView, command: JadeCommandView) -> (JadeView, Seq<u8>) {
    let (method, path) = match command {
        JadeCommandView::Auth => ("auth_user".spec_bytes(), Seq::<u32>::empty()),
        JadeCommandView::GetMasterFingerprint => ("get_xpub".spec_bytes(), Seq::<u32>::empty()),
        JadeCommandView::GetXpub(path) => ("get_xpub".spec_bytes(), path),
    };
    (
        JadeView { state: JadeState::Running(command), next_id: id_after(v.next_id), ..v },
        request(v.next_id, method, xpub_params(v.mainnet, path)),
    )
}

/// The place of the result in a reply, or the error that the reply makes.
pub open spec fn result_of(data: Seq<u8>) -> Result<int, JadeErrorView> {
    match envelope(data) {
        EnvelopeView::Malformed => Err(JadeErrorView::Cbor),
        EnvelopeView::Failure(e) => Err(JadeErrorView::Rpc(e)),
        EnvelopeView::Empty => Err(JadeErrorView::NoErrorOrResult),
        EnvelopeView::Result(at) => Ok(at),
    }
}

/// What `exchange` gives back, as a plain value: the next frame, if there
/// is one, or the error.
pub type Outcome = Result<Option<(JadeRecipientView, Seq<u8>)>, JadeErrorView>;

/// What a reply does to an interpreter, and the next frame, if there is
/// one, or the error.
///
/// Before a command a reply changes nothing. The answer to `auth_user` is
/// a truth value, which changes nothing, or a request for the PIN server:
/// then the interpreter waits for the server, and the frame for the server
/// is the request's data as JSON. The server's answer goes to the device
/// as the parameters of `pin`, and the interpreter waits for the device's
/// word on it: `true` makes the response, `false` is a refusal. The answer
/// to `get_xpub` is the text of a key, which makes the response.
pub open spec fn spec_exchange(v: JadeView, data: Seq<u8>) -> (JadeView, Outcome) {
    match v.state {
        JadeState::New => (v, Ok(None)),
        JadeState::Running(JadeCommandView::Auth) => auth_step(v, data),
        JadeState::WaitingPinServer => pin_server_step(v, data),
        JadeState::WaitingFinalHandshake => handshake_step(v, data),
        JadeState::Running(command) => key_step(v, data, command is GetMasterFingerprint),
    }
}

/// What the device's answer to `auth_user` does.
pub open spec fn auth_step(v: JadeView, data: Seq<u8>) -> (JadeView, Outcome) {
    match result_of(data) {
        Err(e) => (v, Err(e)),
        Ok(at) => match auth_reply(data, at) {
            AuthReplyView::Malformed => (v, Err(JadeErrorView::Cbor)),
            AuthReplyView::Settled(_) => (v, Ok(None)),
            AuthReplyView::NoUrl => (
                JadeView { state: JadeState::WaitingPinServer, ..v },
                Err(JadeErrorView::Unexpected("No url provided"@)),
            ),
            AuthReplyView::PinServer { url, data: span } => (
                JadeView { state: JadeState::WaitingPinServer, ..v },
                match json_of_cbor(data.subrange(span.0, span.1)) {
                    Ok(json) => Ok(Some((JadeRecipientView::PinServer { url }, json))),
                    Err(message) => Err(JadeErrorView::Unexpected(message)),
                },
            ),
        },
    }
}

/// What the PIN server's answer does.
pub open spec fn pin_server_step(v: JadeView, data: Seq<u8>) -> (JadeView, Outcome) {
    match cbor_of_json(data) {
        None => (v, Err(JadeErrorView::Request("Wrong response from pin server"))),
        Some(params) => (
            JadeView {
                state: JadeState::WaitingFinalHandshake,
                next_id: id_after(v.next_id),
                ..v
            },
            Ok(Some((JadeRecipientView::Device, request(v.next_id, "pin".spec_bytes(), params)))),
        ),
    }
}

/// What the device's word on the PIN server's answer does.
pub open spec fn handshake_step(v: JadeView, data: Seq<u8>) -> (JadeView, Outcome) {
    match result_of(data) {
        Err(e) => (v, Err(e)),
        Ok(at) => match bool_at(data, at) {
            None => (v, Err(JadeErrorView::Cbor)),
            Some(true) => (JadeView { response: Some(JadeResponseView::TaskDone), ..v }, Ok(None)),
            Some(false) => (v, Err(JadeErrorView::HandshakeRefused)),
        },
    }
}

/// What the device's answer to `get_xpub` does: the key makes the response,
/// or its fingerprint does where that was asked for.
pub open spec fn key_step(v: JadeView, data: Seq<u8>, fingerprint: bool) -> (JadeView, Outcome) {
    match result_of(data) {
        Err(e) => (v, Err(e)),
        Ok(at) => match text_at(data, at) {
            None => (v, Err(JadeErrorView::Cbor)),
            Some((from, to)) => match xpub_parsing(data.subrange(from, to)) {
                Err(message) => (v, Err(JadeErrorView::Unexpected(message))),
                Ok(encoded) => (
                    JadeView {
                        response: Some(
                            if fingerprint {
                                JadeResponseView::MasterFingerprint(fingerprint_of(encoded))
                            } else {
                                JadeResponseView::Xpub(encoded)
                            },
                        ),
                        ..v
                    },
                    Ok(None),
                ),
            },
        },
    }
}

/// Whether what `exchange` gave back is the outcome that the reply makes.
pub open spec fn is_outcome(r: Result<Option<JadeTransmit>, JadeError>, outcome: Outcome) -> bool {
    match outcome {
        Ok(next) => r matches Ok(t) && transmit_view(t) == next,
        Err(e) => r matches Err(f) && f@ == e,
    }
}

/// What `end` gives: the response, once the device has given it, and
/// before that none.
pub open spec fn spec_end(v: JadeView) -> Result<JadeResponseView, JadeErrorView> {
    match v.response {
        Some(response) => Ok(response),
        None => Err(JadeErrorView::NoErrorOrResult),
    }
}

/// An interpreter that is asked for its response too early has none: not
/// before a command, not when the command has only been started, and not
/// while a next frame is still to be delivered or a reply was refused.
pub proof fn lemma_end_before_completion(v: JadeView, command: JadeCommandView, reply: Seq<u8>)
    requires
        v.response is None,
    ensures
        spec_end(v) == Err::<JadeResponseView, JadeErrorView>(JadeErrorView::NoErrorOrResult),
        spec_end(spec_start(v, command).0) == Err::<JadeResponseView, JadeErrorView>(
            JadeErrorView::NoErrorOrResult,
        ),
        !(spec_exchange(v, reply).1 matches Ok(None)) ==> spec_end(spec_exchange(v, reply).0)
            == Err::<JadeResponseView, JadeErrorView>(JadeErrorView::NoErrorOrResult),
{
}

pub open spec fn transmit_view(t: Option<JadeTransmit>) -> Option<(JadeRecipientView, Seq<u8>)> {
    match t {
        Some(t) => Some(t@),
        None => None,
    }
}

/// The interpreter of one command for a Jade. It numbers its requests from
/// the id it was made with.
pub struct JadeInterpreter {
    mainnet: bool,
    state: State,
    response: Option<JadeResponse>,
    next_id: u64,
}

#[derive(Copy, Clone)]
enum Phase {
    New,
    Auth,
    Key { fingerprint: bool },
    WaitingPinServer,
    WaitingFinalHandshake,
}

fn result_place(data: &[u8]) -> (r: Result<usize, JadeError>)
    ensures
        match result_of(data@) {
            Ok(at) => r matches Ok(place) && place == at && place <= data@.len(),
            Err(e) => r matches Err(f) && f@ == e,
        },
{
    match api::read_envelope(data) {
        Envelope::Malformed => Err(JadeError::Cbor),
        Envelope::Failure(e) => Err(JadeError::Rpc(e)),
        Envelope::Empty => Err(JadeError::NoErrorOrResult),
        Envelope::Result(at) => Ok(at),
    }
}

impl View for JadeInterpreter {
    type V = JadeView;

    closed spec fn view(&self) -> JadeView {
        JadeView {
            mainnet: self.mainnet,
            state: match self.state {
                State::New => JadeState::New,
                State::Running(command) => JadeState::Running(command@),
                State::WaitingPinServer => JadeState::WaitingPinServer,
                State::WaitingFinalHandshake => JadeState::WaitingFinalHandshake,
            },
            response: match self.response {
                Some(r) => Some(r@),
                None => None,
            },
            next_id: self.next_id,
        }
    }
}

/// An interpreter before its command: for mainnet, its first request
/// numbered 1.
pub open spec fn fresh() -> JadeView {
    JadeView { mainnet: true, state: JadeState::New, response: None, next_id: 1 }
}

impl core::default::Default for JadeInterpreter {
    fn default() -> (i: JadeInterpreter)
        ensures
            i@ == fresh(),
    {
        JadeInterpreter { mainnet: true, state: State::New, response: None, next_id: 1 }
    }
}

impl JadeInterpreter {
    pub fn new() -> (i: JadeInterpreter)
        ensures
            i@ == fresh(),
    {
        JadeInterpreter { mainnet: true, state: State::New, response: None, next_id: 1 }
    }

    /// The same interpreter for another network.
    pub fn with_network(self, network: Network) -> (i: JadeInterpreter)
        ensures
            i@ == (JadeView { mainnet: network.is_mainnet(), ..self@ }),
    {
        let mut i = self;
        i.mainnet = network.is_mainnet();
        i
    }

    /// The same interpreter, numbering its requests from `id`.
    pub fn with_request_id(self, id: u64) -> (i: JadeInterpreter)
        ensures
            i@ == (JadeView { next_id: id, ..self@ }),
    {
        let mut i = self;
        i.next_id = id;
        i
    }

    fn phase(&self) -> (p: Phase)
        ensures
            match self@.state {
                JadeState::New => p matches Phase::New,
                JadeState::Running(JadeCommandView::Auth) => p matches Phase::Auth,
                JadeState::Running(command) => p matches Phase::Key { fingerprint } && fingerprint
                    == (command is GetMasterFingerprint),
                JadeState::WaitingPinServer => p matches Phase::WaitingPinServer,
                JadeState::WaitingFinalHandshake => p matches Phase::WaitingFinalHandshake,
            },
    {
        match &self.state {
            State::New => Phase::New,
            State::Running(JadeCommand::Auth) => Phase::Auth,
            State::Running(JadeCommand::GetMasterFingerprint) => Phase::Key { fingerprint: true },
            State::Running(JadeCommand::GetXpub(_)) => Phase::Key { fingerprint: false },
            State::WaitingPinServer => Phase::WaitingPinServer,
            State::WaitingFinalHandshake => Phase::WaitingFinalHandshake,
        }
    }

    fn generate_request_id(&mut self) -> (id: u64)
        ensures
            id == old(self)@.next_id,
            final(self)@ == (JadeView { next_id: id_after(id), ..old(self)@ }),
    {
        let id = self.next_id;
        self.next_id = if id == u64::MAX {
            0
        } else {
            id + 1
        };
        id
    }

    fn request(&mut self, method: &str, params: &[u8]) -> (t: JadeTransmit)
        ensures
            t@ == (
                JadeRecipientView::Device,
                request(old(self)@.next_id, method.spec_bytes(), params@),
            ),
            final(self)@ == (JadeView { next_id: id_after(old(self)@.next_id), ..old(self)@ }),
    {
        let id = self.generate_request_id();
        JadeTransmit {
            payload: api::write_request(id, method, params),
            recipient: JadeRecipient::Device,
        }
    }

    fn exchange_auth(&mut self, data: &[u8]) -> (r: Result<Option<JadeTransmit>, JadeError>)
        ensures
            final(self)@ == auth_step(old(self)@, data@).0,
            is_outcome(r, auth_step(old(self)@, data@).1),
    {
        let at = match result_place(data) {
            Ok(at) => at,
            Err(e) => {
                return Err(e);
            },
        };
        match api::read_auth_reply(data, at) {
            AuthReply::Malformed => Err(JadeError::Cbor),
            AuthReply::Settled(_) => Ok(None),
            AuthReply::NoUrl => {
                self.state = State::WaitingPinServer;
                Err(JadeError::Unexpected("No url provided".to_string()))
            },
            AuthReply::PinServer { url, data: span } => {
                self.state = State::WaitingPinServer;
                match api::json_of(data, span.0, span.1) {
                    Ok(payload) => Ok(
                        Some(JadeTransmit { recipient: JadeRecipient::PinServer { url }, payload }),
                    ),
                    Err(message) => Err(JadeError::Unexpected(message)),
                }
            },
        }
    }

    fn exchange_pin_server(&mut self, data: &[u8]) -> (r: Result<Option<JadeTransmit>, JadeError>)
        ensures
            final(self)@ == pin_server_step(old(self)@, data@).0,
            is_outcome(r, pin_server_step(old(self)@, data@).1),
    {
        let pin_params = match api::cbor_of(data) {
            Some(params) => params,
            None => {
                return Err(JadeError::Request("Wrong response from pin server"));
            },
        };
        let transmit = self.request("pin", pin_params.as_slice());
        self.state = State::WaitingFinalHandshake;
        Ok(Some(transmit))
    }

    fn exchange_handshake(&mut self, data: &[u8]) -> (r: Result<Option<JadeTransmit>, JadeError>)
        ensures
            final(self)@ == handshake_step(old(self)@, data@).0,
            is_outcome(r, handshake_step(old(self)@, data@).1),
    {
        let at = match result_place(data) {
            Ok(at) => at,
            Err(e) => {
                return Err(e);
            },
        };
        match cbor::read_bool(data, at) {
            None => Err(JadeError::Cbor),
            Some(true) => {
                self.response = Some(JadeResponse::TaskDone);
                Ok(None)
            },
            Some(false) => Err(JadeError::HandshakeRefused),
        }
    }

    fn exchange_key(&mut self, data: &[u8], fingerprint: bool) -> (r: Result<
        Option<JadeTransmit>,
        JadeError,
    >)
        ensures
            final(self)@ == key_step(old(self)@, data@, fingerprint).0,
            is_outcome(r, key_step(old(self)@, data@, fingerprint).1),
    {
        let at = match result_place(data) {
            Ok(at) => at,
            Err(e) => {
                return Err(e);
            },
        };
        let (from, to) = match cbor::read_text(data, at) {
            Some(span) => span,
            None => {
                return Err(JadeError::Cbor);
            },
        };
        let text = vstd::slice::slice_subrange(data, from, to);
        let xpub = match Xpub::from_ascii(text) {
            Ok(xpub) => xpub,
            Err(message) => {
                return Err(JadeError::Unexpected(message));
            },
        };
        self.response = Some(
            if fingerprint {
                JadeResponse::MasterFingerprint(xpub.fingerprint())
            } else {
                JadeResponse::Xpub(xpub)
            },
        );
        Ok(None)
    }
}

impl Interpreter for JadeInterpreter {
    type Command = JadeCommand;

    type Transmit = JadeTransmit;

    type Response = JadeResponse;

    type Error = JadeError;

    /// Starts a command, whatever went before.
    fn start(&mut self, command: JadeCommand) -> (r: Result<JadeTransmit, JadeError>)
        ensures
            r matches Ok(t) && t@ == (
                JadeRecipientView::Device,
                spec_start(old(self)@, command@).1,
            ),
            final(self)@ == spec_start(old(self)@, command@).0,
    {
        let req = match &command {
            JadeCommand::Auth => {
                let params = api::write_xpub_params(
                    self.mainnet,
                    DerivationPath::master().as_slice(),
                );
                self.request("auth_user", params.as_slice())
            },
            JadeCommand::GetMasterFingerprint => {
                let params = api::write_xpub_params(
                    self.mainnet,
                    DerivationPath::master().as_slice(),
                );
                self.request("get_xpub", params.as_slice())
            },
            JadeCommand::GetXpub(path) => {
                let params = api::write_xpub_params(self.mainnet, path.as_slice());
                self.request("get_xpub", params.as_slice())
            },
        };
        self.state = State::Running(command);
        Ok(req)
    }

    /// Takes the reply to the frame sent last.
    fn exchange(&mut self, data: Vec<u8>) -> (r: Result<Option<JadeTransmit>, JadeError>)
        ensures
            final(self)@ == spec_exchange(old(self)@, data@).0,
            is_outcome(r, spec_exchange(old(self)@, data@).1),
    {
        match self.phase() {
            Phase::New => Ok(None),
            Phase::Auth => self.exchange_auth(data.as_slice()),
            Phase::WaitingPinServer => self.exchange_pin_server(data.as_slice()),
            Phase::WaitingFinalHandshake => self.exchange_handshake(data.as_slice()),
            Phase::Key { fingerprint } => self.exchange_key(data.as_slice(), fingerprint),
        }
    }

    /// The response, once the device has given it. Before that there is
    /// none.
    fn end(self) -> (r: Result<JadeResponse, JadeError>)
        ensures
            match spec_end(self@) {
                Ok(response) => r matches Ok(res) && res@ == response,
                Err(e) => r matches Err(f) && f@ == e,
            },
    {
        match self.response {
            Some(res) => Ok(res),
            None => Err(JadeError::NoErrorOrResult),
        }
    }
}

} // verus!
