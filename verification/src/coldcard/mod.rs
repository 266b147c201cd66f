//! The interpreter for Coldcard devices.

pub mod api;
pub mod encrypt;
pub mod hid;

use crate::bip32::{fingerprint_of, DerivationPath, Fingerprint, Xpub};
use crate::Interpreter;
use encrypt::Engine;
use vstd::prelude::*;

verus! {

#[derive(Debug)]
pub enum ColdcardError {
    Encryption(&'static str),
    MissingCommandInfo(&'static str),
    NoErrorOrResult,
    Serialization(String),
}

/// An error as a plain value.
pub ghost enum ColdcardErrorView {
    Encryption(&'static str),
    MissingCommandInfo(&'static str),
    NoErrorOrResult,
    Serialization(Seq<char>),
}

impl View for ColdcardError {
    type V = ColdcardErrorView;

    open spec fn view(&self) -> ColdcardErrorView {
        match self {
            ColdcardError::Encryption(m) => ColdcardErrorView::Encryption(*m),
            ColdcardError::MissingCommandInfo(m) => ColdcardErrorView::MissingCommandInfo(*m),
            ColdcardError::NoErrorOrResult => ColdcardErrorView::NoErrorOrResult,
            ColdcardError::Serialization(m) => ColdcardErrorView::Serialization(m@),
        }
    }
}

#[derive(Debug)]
pub enum ColdcardCommand {
    StartEncryption,
    GetMasterFingerprint,
    GetXpub(DerivationPath),
}

/// A command as a plain value.
pub ghost enum ColdcardCommandView {
    StartEncryption,
    GetMasterFingerprint,
    GetXpub(Seq<u32>),
}

impl View for ColdcardCommand {
    type V = ColdcardCommandView;

    open spec fn view(&self) -> ColdcardCommandView {
        match self {
            ColdcardCommand::StartEncryption => ColdcardCommandView::StartEncryption,
            ColdcardCommand::GetMasterFingerprint => ColdcardCommandView::GetMasterFingerprint,
            ColdcardCommand::GetXpub(path) => ColdcardCommandView::GetXpub(path@),
        }
    }
}

#[derive(Copy, Clone, Debug, PartialEq, Eq)]
pub enum ColdcardResponse {
    MasterFingerprint(Fingerprint),
    Xpub(Xpub),
    MyPub { encryption_key: [u8; 64], xpub_fingerprint: Fingerprint, xpub: Option<Xpub> },
}

/// A response as a plain value: keys and fingerprints as their bytes.
pub ghost enum ColdcardResponseView {
    MasterFingerprint(Seq<u8>),
    Xpub(Seq<u8>),
    MyPub { encryption_key: Seq<u8>, xpub_fingerprint: Seq<u8>, xpub: Option<Seq<u8>> },
}

impl View for ColdcardResponse {
    type V = ColdcardResponseView;

    open spec fn view(&self) -> ColdcardResponseView {
        match self {
            ColdcardResponse::MasterFingerprint(fg) => ColdcardResponseView::MasterFingerprint(
                fg@,
            ),
            ColdcardResponse::Xpub(xpub) => ColdcardResponseView::Xpub(xpub@),
            ColdcardResponse::MyPub {
                encryption_key,
                xpub_fingerprint,
                xpub,
            } => ColdcardResponseView::MyPub {
                encryption_key: encryption_key@,
                xpub_fingerprint: xpub_fingerprint@,
                xpub: match xpub {
                    Some(x) => Some(x@),
                    None => None,
                },
            },
        }
    }
}

/// A frame for the device, and whether its payload is encrypted.
#[derive(Debug)]
pub struct ColdcardTransmit {
    pub payload: Vec<u8>,
    pub encrypted: bool,
}

impl View for ColdcardTransmit {
    type V = (Seq<u8>, bool);

    open spec fn view(&self) -> (Seq<u8>, bool) {
        (self.payload@, self.encrypted)
    }
}

} // verus!

verus! {

enum State {
    New,
    Running(ColdcardCommand),
    Finished(ColdcardResponse),
}

/// Where an interpreter stands.
pub ghost enum ColdcardState {
    New,
    Running(ColdcardCommandView),
    Finished(ColdcardResponseView),
}

/// The first frame of a command, from an engine: what becomes of the
/// engine, and the frame's payload with its encryption flag, or the reason
/// why there is none.
///
/// The request that opens the session carries the engine's public key in
/// the clear. The others are encrypted with the engine's keystream for
/// requests; the master fingerprint is asked for as the master key's
/// extended public key.
pub open spec fn spec_start(engine: Engine, command: ColdcardCommandView) -> (
    Engine,
    Result<(Seq<u8>, bool), &'static str>,
) {
    match command {
        ColdcardCommandView::StartEncryption => match engine {
            Engine::New(secret_key) => match encrypt::secp256k1_public_key(secret_key@) {
                Some(key) => (engine, Ok((api::request::spec_start_encryption(None, key), false))),
                None => (engine, Err("failed to create pubkey")),
            },
            Engine::Ready { .. } => (engine, Err("Engine is not new")),
        },
        ColdcardCommandView::GetMasterFingerprint => {
            let (after, sent) = engine.spec_encrypt(
                api::request::spec_get_xpub(Seq::<u32>::empty()),
            );
            match sent {
                Ok(payload) => (after, Ok((payload, true))),
                Err(message) => (after, Err(message)),
            }
        },
        ColdcardCommandView::GetXpub(path) => {
            let (after, sent) = engine.spec_encrypt(api::request::spec_get_xpub(path));
            match sent {
                Ok(payload) => (after, Ok((payload, true))),
                Err(message) => (after, Err(message)),
            }
        },
    }
}

/// What a reply means to a running command, from an engine: what becomes of
/// the engine, and the response or the error.
///
/// The greeting is read in the clear. Every other reply is decrypted with
/// the engine's keystream for replies, which moves on even where the
/// decrypted reply is then refused.
pub open spec fn spec_exchange(engine: Engine, command: ColdcardCommandView, data: Seq<u8>) -> (
    Engine,
    Result<ColdcardResponseView, ColdcardErrorView>,
) {
    match command {
        ColdcardCommandView::StartEncryption => (engine, api::response::mypub_meaning(data)),
        _ => {
            let (after, received) = engine.spec_decrypt(data);
            match received {
                Err(message) => (after, Err(ColdcardErrorView::Encryption(message))),
                Ok(plain) => match api::response::xpub_meaning(plain) {
                    Err(e) => (after, Err(e)),
                    Ok(encoded) => (
                        after,
                        Ok(
                            if command is GetMasterFingerprint {
                                ColdcardResponseView::MasterFingerprint(fingerprint_of(encoded))
                            } else {
                                ColdcardResponseView::Xpub(encoded)
                            },
                        ),
                    ),
                },
            }
        },
    }
}

/// What `end` gives: the response of a finished command, and before that
/// none.
pub open spec fn spec_end(state: ColdcardState) -> Result<ColdcardResponseView, ColdcardErrorView> {
    match state {
        ColdcardState::Finished(response) => Ok(response),
        _ => Err(ColdcardErrorView::NoErrorOrResult),
    }
}

/// An interpreter that is asked for its response too early has none: not
/// before a command, and not when the command has only been started. A
/// reply finishes the command exactly when it is not refused.
pub proof fn lemma_end_before_completion(
    engine: Engine,
    command: ColdcardCommandView,
    reply: Seq<u8>,
)
    ensures
        spec_end(ColdcardState::New) == Err::<ColdcardResponseView, ColdcardErrorView>(
            ColdcardErrorView::NoErrorOrResult,
        ),
        spec_end(ColdcardState::Running(command)) == Err::<
            ColdcardResponseView,
            ColdcardErrorView,
        >(ColdcardErrorView::NoErrorOrResult),
        spec_exchange(engine, command, reply).1 matches Ok(response) ==> spec_end(
            ColdcardState::Finished(response),
        ) == Ok::<ColdcardResponseView, ColdcardErrorView>(response),
{
}

/// The interpreter of one command for a Coldcard. It works on the
/// encryption engine of the device's session.
pub struct ColdcardInterpreter<'a> {
    state: State,
    encryption: &'a mut Engine,
}

fn request(payload: Vec<u8>, encryption: &mut Engine) -> (r: Result<
    ColdcardTransmit,
    ColdcardError,
>)
    ensures
        *final(encryption) == old(encryption).spec_encrypt(payload@).0,
        match old(encryption).spec_encrypt(payload@).1 {
            Ok(bytes) => r matches Ok(t) && t.payload@ == bytes && t.encrypted,
            Err(message) => r == Err::<ColdcardTransmit, ColdcardError>(
                ColdcardError::Encryption(message),
            ),
        },
{
    match encryption.encrypt(payload) {
        Ok(payload) => Ok(ColdcardTransmit { payload, encrypted: true }),
        Err(e) => Err(e),
    }
}

impl<'a> ColdcardInterpreter<'a> {
    /// Where the interpreter stands.
    pub closed spec fn state(&self) -> ColdcardState {
        match self.state {
            State::New => ColdcardState::New,
            State::Running(command) => ColdcardState::Running(command@),
            State::Finished(response) => ColdcardState::Finished(response@),
        }
    }

    /// The engine as the interpreter has left it.
    pub closed spec fn engine(&self) -> Engine {
        *self.encryption
    }

    pub fn new(encryption: &'a mut Engine) -> (i: ColdcardInterpreter<'a>)
        ensures
            i.state() == ColdcardState::New,
            i.engine() == *old(encryption),
    {
        ColdcardInterpreter { state: State::New, encryption }
    }
}

impl<'a> Interpreter for ColdcardInterpreter<'a> {
    type Command = ColdcardCommand;

    type Transmit = ColdcardTransmit;

    type Response = ColdcardResponse;

    type Error = ColdcardError;

    /// Starts a command, whatever went before. Where no frame can be made
    /// the interpreter stands as it stood.
    fn start(&mut self, command: ColdcardCommand) -> (r: Result<ColdcardTransmit, ColdcardError>)
        ensures
            final(self).engine() == spec_start(old(self).engine(), command@).0,
            match spec_start(old(self).engine(), command@).1 {
                Ok((payload, encrypted)) => r matches Ok(t) && t.payload@ == payload
                    && t.encrypted == encrypted && final(self).state() == ColdcardState::Running(
                    command@,
                ),
                Err(message) => r == Err::<ColdcardTransmit, ColdcardError>(
                    ColdcardError::Encryption(message),
                ) && final(self).state() == old(self).state(),
            },
    {
        let req = match &command {
            ColdcardCommand::StartEncryption => {
                let key = match self.encryption.pub_key() {
                    Ok(key) => key,
                    Err(e) => {
                        return Err(e);
                    },
                };
                ColdcardTransmit {
                    payload: api::request::start_encryption(None, &key),
                    encrypted: false,
                }
            },
            ColdcardCommand::GetMasterFingerprint => {
                let payload = api::request::get_xpub(&DerivationPath::master());
                match request(payload, self.encryption) {
                    Ok(t) => t,
                    Err(e) => {
                        return Err(e);
                    },
                }
            },
            ColdcardCommand::GetXpub(path) => {
                let payload = api::request::get_xpub(path);
                match request(payload, self.encryption) {
                    Ok(t) => t,
                    Err(e) => {
                        return Err(e);
                    },
                }
            },
        };
        self.state = State::Running(command);
        Ok(req)
    }

    /// Takes the reply to the frame sent last. Outside a running command a
    /// reply changes nothing. A command is finished by its first good
    /// reply; after a refused one it is still running.
    fn exchange(&mut self, data: Vec<u8>) -> (r: Result<Option<ColdcardTransmit>, ColdcardError>)
        ensures
            match old(self).state() {
                ColdcardState::Running(command) => {
                    let (engine, outcome) = spec_exchange(old(self).engine(), command, data@);
                    &&& final(self).engine() == engine
                    &&& match outcome {
                        Ok(response) => r matches Ok(None) && final(self).state()
                            == ColdcardState::Finished(response),
                        Err(e) => r matches Err(f) && f@ == e
                            && final(self).state() == old(self).state(),
                    }
                },
                _ => r matches Ok(None) && final(self).state() == old(self).state()
                    && final(self).engine() == old(self).engine(),
            },
    {
        match &self.state {
            State::New => Ok(None),
            State::Running(ColdcardCommand::GetMasterFingerprint) => {
                let data = match self.encryption.decrypt(data) {
                    Ok(data) => data,
                    Err(e) => {
                        return Err(e);
                    },
                };
                let xpub = match api::response::xpub(data) {
                    Ok(xpub) => xpub,
                    Err(e) => {
                        return Err(e);
                    },
                };
                self.state = State::Finished(
                    ColdcardResponse::MasterFingerprint(xpub.fingerprint()),
                );
                Ok(None)
            },
            State::Running(ColdcardCommand::GetXpub(_)) => {
                let data = match self.encryption.decrypt(data) {
                    Ok(data) => data,
                    Err(e) => {
                        return Err(e);
                    },
                };
                let xpub = match api::response::xpub(data) {
                    Ok(xpub) => xpub,
                    Err(e) => {
                        return Err(e);
                    },
                };
                self.state = State::Finished(ColdcardResponse::Xpub(xpub));
                Ok(None)
            },
            State::Running(ColdcardCommand::StartEncryption) => {
                let mypub = match api::response::mypub(data) {
                    Ok(mypub) => mypub,
                    Err(e) => {
                        return Err(e);
                    },
                };
                self.state = State::Finished(mypub);
                Ok(None)
            },
            State::Finished(_) => Ok(None),
        }
    }

    /// The response of a finished command. Before that there is none.
    fn end(self) -> (r: Result<ColdcardResponse, ColdcardError>)
        ensures
            match spec_end(self.state()) {
                Ok(response) => r matches Ok(res) && res@ == response,
                Err(e) => r matches Err(f) && f@ == e,
            },
    {
        match self.state {
            State::Finished(res) => Ok(res),
            _ => Err(ColdcardError::NoErrorOrResult),
        }
    }
}

} // verus!
