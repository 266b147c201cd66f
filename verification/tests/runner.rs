use bhwi::bip32::{Fingerprint, Xpub};
use bhwi::coldcard::encrypt::Engine;
use bhwi::common::{
    Command, Error as CommonError, JadeInterpreter, Recipient, Response, Transmit, UnlockOptions,
};
use bhwi::device::{Coldcard, DummyClient, Jade, Ledger};
use bhwi::network::Network;
use bhwi::runner::{
    after_end, after_exchange, after_start, dispatch, extended_pubkey, master_fingerprint,
    unlock_command, Action, Error, OnUnlock, Step,
};
use bhwi::Interpreter;

const MASTER_XPUB: &str = "xpub661MyMwAqRbcFtXgS5sYJABqqG9YLmC4Q1Rdap9gSE8NqtwybGhePY2gZ29ESFjqJoCu1Rupje8YtGqsefD265TMg7usUDFdp6W1EGMcet8";

type Failure = Error<&'static str, u16>;

fn to_device(payload: Vec<u8>, encrypted: bool) -> Transmit {
    Transmit { recipient: Recipient::Device, payload, encrypted }
}

fn to_server(url: &str, payload: Vec<u8>) -> Transmit {
    Transmit { recipient: Recipient::PinServer { url: url.to_string() }, payload, encrypted: false }
}

#[test]
fn the_recipient_decides_where_a_frame_goes() {
    match dispatch(to_device(vec![1, 2], true)) {
        Action::Exchange { payload, encrypted } => assert_eq!((payload, encrypted), (vec![1, 2], true)),
        other => panic!("{:?}", other),
    }
    match dispatch(to_server("https://p", vec![3])) {
        Action::Request { url, payload } => assert_eq!((url.as_str(), payload), ("https://p", vec![3])),
        other => panic!("{:?}", other),
    }
}

#[test]
fn decisions_after_each_call() {
    let r: Result<Action, Failure> = after_start(Ok(to_server("u", vec![1])));
    assert!(matches!(r, Ok(Action::Request { .. })));
    let r: Result<Action, Failure> = after_start(Err(CommonError::MissingCommandInfo("network")));
    assert!(matches!(r, Err(Error::Interpreter(CommonError::MissingCommandInfo("network")))));

    let r: Result<Step, Failure> = after_exchange(Ok(Some(to_device(vec![4], false))));
    match r {
        Ok(Step::Deliver(Action::Exchange { payload, encrypted: false })) => assert_eq!(payload, vec![4]),
        other => panic!("{:?}", other),
    }
    let r: Result<Step, Failure> = after_exchange(Ok(None));
    assert!(matches!(r, Ok(Step::Finish)));
    let r: Result<Step, Failure> = after_exchange(Err(CommonError::AuthenticationRefused));
    assert!(matches!(r, Err(Error::Interpreter(CommonError::AuthenticationRefused))));

    let r: Result<Response, Failure> = after_end(Ok(Response::TaskDone));
    assert!(matches!(r, Ok(Response::TaskDone)));
    let r: Result<Response, Failure> = after_end(Err(CommonError::NoErrorOrResult));
    assert!(matches!(r, Err(Error::Interpreter(CommonError::NoErrorOrResult))));
    let e: Failure = Error::from(CommonError::NoErrorOrResult);
    assert!(matches!(e, Error::Interpreter(CommonError::NoErrorOrResult)));
}

#[test]
fn responses_of_the_right_kind() {
    let fg = Fingerprint::new([1, 2, 3, 4]);
    let xpub = Xpub::from_str(MASTER_XPUB).unwrap();
    let r: Result<Fingerprint, Failure> = master_fingerprint(Response::MasterFingerprint(fg));
    assert_eq!(r.unwrap(), fg);
    let r: Result<Fingerprint, Failure> = master_fingerprint(Response::TaskDone);
    assert!(matches!(r, Err(Error::Interpreter(CommonError::NoErrorOrResult))));
    let r: Result<Xpub, Failure> = extended_pubkey(Response::Xpub(xpub));
    assert_eq!(r.unwrap(), xpub);
    let r: Result<Xpub, Failure> = extended_pubkey(Response::MasterFingerprint(fg));
    assert!(matches!(r, Err(Error::Interpreter(CommonError::NoErrorOrResult))));
    match unlock_command(Network::Testnet) {
        Command::Unlock { options: UnlockOptions { network } } => {
            assert_eq!(network, Some(Network::Testnet))
        }
        other => panic!("{:?}", other),
    }
}

/// Runs a command as the loop does, with a device and a server that answer from tables.
fn run<I>(
    mut intpr: I,
    command: Command,
    device: &mut dyn FnMut(&[u8], bool) -> Result<Vec<u8>, &'static str>,
    server: &mut dyn FnMut(&str, &[u8]) -> Result<Vec<u8>, u16>,
) -> Result<Response, Failure>
where
    I: Interpreter<Command = Command, Transmit = Transmit, Response = Response, Error = CommonError>,
{
    let mut action = after_start(intpr.start(command))?;
    loop {
        let reply = match &action {
            Action::Exchange { payload, encrypted } => {
                device(payload, *encrypted).map_err(Error::Transport)?
            }
            Action::Request { url, payload } => server(url, payload).map_err(Error::HttpClient)?,
        };
        match after_exchange(intpr.exchange(reply))? {
            Step::Deliver(next) => action = next,
            Step::Finish => break,
        }
    }
    after_end(intpr.end())
}

#[test]
fn a_ledger_command_runs_to_its_end() {
    let ledger = Ledger::new(());
    let mut sent = vec![];
    let response = run(
        ledger.interpreter(),
        Command::GetMasterFingerprint,
        &mut |payload, encrypted| {
            sent.push((payload.to_vec(), encrypted));
            Ok(vec![0xDE, 0xAD, 0xBE, 0xEF, 0x90, 0x00])
        },
        &mut |_, _| panic!("a Ledger asks no server"),
    );
    assert_eq!(
        response.unwrap(),
        Response::MasterFingerprint(Fingerprint::new([0xDE, 0xAD, 0xBE, 0xEF]))
    );
    assert_eq!(sent, vec![(vec![0xE1, 0x05, 0x00, 0x01, 0x00], false)]);
}

#[test]
fn failures_are_told_apart() {
    let ledger = Ledger::new(());
    let r = run(
        ledger.interpreter(),
        Command::GetMasterFingerprint,
        &mut |_, _| Err("unplugged"),
        &mut |_, _| Ok(vec![]),
    );
    assert!(matches!(r, Err(Error::Transport("unplugged"))));
    let r = run(
        ledger.interpreter(),
        unlock_command(Network::Bitcoin),
        &mut |_, _| Ok(vec![0x6A, 0x80]),
        &mut |_, _| Ok(vec![]),
    );
    assert!(matches!(r, Err(Error::Interpreter(CommonError::UnexpectedResult(_)))));
    let r = run(
        ledger.interpreter(),
        Command::Unlock { options: UnlockOptions::default() },
        &mut |_, _| panic!("nothing is sent"),
        &mut |_, _| panic!("nothing is sent"),
    );
    assert!(matches!(r, Err(Error::Interpreter(CommonError::MissingCommandInfo("network")))));
}

fn jade_result(value: &[u8]) -> Vec<u8> {
    let mut reply = vec![0xa1, 0x66];
    reply.extend_from_slice(b"result");
    reply.extend_from_slice(value);
    reply
}

#[test]
fn a_jade_is_unlocked_through_its_pin_server() {
    let mut jade = Jade::new(Network::Testnet, (), DummyClient);
    let mut device_calls = 0;
    let mut server_calls = vec![];
    let response = run(
        jade.interpreter(),
        unlock_command(Network::Testnet),
        &mut |payload, encrypted| {
            assert!(!encrypted);
            device_calls += 1;
            if device_calls == 1 {
                assert_eq!(&payload[..6], &[0xa3, 0x62, 0x69, 0x64, 0x61, 0x31]);
                // {http_request: {params: {urls: ["https://p"], data: {"a": 1}}}}
                let mut result = vec![0xa1, 0x6c];
                result.extend_from_slice(b"http_request");
                result.extend_from_slice(&[0xa1, 0x66]);
                result.extend_from_slice(b"params");
                result.extend_from_slice(&[0xa2, 0x64]);
                result.extend_from_slice(b"urls");
                result.extend_from_slice(&[0x81, 0x69]);
                result.extend_from_slice(b"https://p");
                result.extend_from_slice(&[0x64]);
                result.extend_from_slice(b"data");
                result.extend_from_slice(&[0xa1, 0x61, 0x61, 0x01]);
                Ok(jade_result(&result))
            } else {
                assert_eq!(&payload[..6], &[0xa3, 0x62, 0x69, 0x64, 0x61, 0x32]);
                assert_eq!(&payload[payload.len() - 4..], &[0xa1, 0x61, 0x62, 0x02]);
                Ok(jade_result(&[0xf5]))
            }
        },
        &mut |url, body| {
            server_calls.push((url.to_string(), body.to_vec()));
            Ok(b"{\"b\":2}".to_vec())
        },
    );
    assert_eq!(response.unwrap(), Response::TaskDone);
    assert_eq!(device_calls, 2);
    assert_eq!(server_calls, vec![("https://p".to_string(), b"{\"a\":1}".to_vec())]);
    assert!(jade.on_unlock(Response::TaskDone).is_ok());

    // the next command goes on counting
    let mut next = jade.interpreter();
    let transmit = next.start(Command::GetMasterFingerprint).unwrap();
    assert_eq!(&transmit.payload[..6], &[0xa3, 0x62, 0x69, 0x64, 0x61, 0x33]);
    assert_eq!(&transmit.payload[transmit.payload.len() - 14..][..8], b"\x67testnet");
}

#[test]
fn a_failing_pin_server_is_an_http_failure() {
    let mut jade = Jade::new(Network::Bitcoin, (), DummyClient);
    let mut result = vec![0xa1, 0x6c];
    result.extend_from_slice(b"http_request");
    result.extend_from_slice(&[0xa1, 0x66]);
    result.extend_from_slice(b"params");
    result.extend_from_slice(&[0xa2, 0x64]);
    result.extend_from_slice(b"urls");
    result.extend_from_slice(&[0x81, 0x61, 0x75, 0x64]);
    result.extend_from_slice(b"data");
    result.extend_from_slice(&[0x01]);
    let r = run(
        jade.interpreter(),
        unlock_command(Network::Bitcoin),
        &mut |_, _| Ok(jade_result(&result)),
        &mut |_, _| Err(503),
    );
    assert!(matches!(r, Err(Error::HttpClient(503))));
}

#[test]
fn a_coldcard_is_unlocked_and_then_encrypts() {
    let device_secret = [2u8; 32];
    let device_public = Engine::new(device_secret).pub_key().unwrap();
    let mut device_engine = Engine::new(device_secret);
    let mut coldcard = Coldcard::new((), [1u8; 32]);
    let mut host_public = None;
    let response = run(
        coldcard.interpreter(),
        unlock_command(Network::Bitcoin),
        &mut |payload, encrypted| {
            assert!(!encrypted);
            assert_eq!(&payload[..8], b"ncry\x01\x00\x00\x00");
            host_public = Some(<[u8; 64]>::try_from(&payload[8..]).unwrap());
            let mut reply = b"mypb".to_vec();
            reply.extend_from_slice(&device_public);
            reply.extend_from_slice(&[0xAA, 0xBB, 0xCC, 0xDD, 0, 0, 0, 0]);
            Ok(reply)
        },
        &mut |_, _| panic!("a Coldcard asks no server"),
    )
    .unwrap();
    assert_eq!(response, Response::EncryptionKey(device_public));
    coldcard.on_unlock(response).unwrap();
    device_engine.ready(host_public.unwrap()).unwrap();

    let response = run(
        coldcard.interpreter(),
        Command::GetMasterFingerprint,
        &mut |payload, encrypted| {
            assert!(encrypted);
            assert_eq!(device_engine.decrypt(payload.to_vec()).unwrap(), b"xpubm".to_vec());
            let mut reply = b"asci".to_vec();
            reply.extend_from_slice(MASTER_XPUB.as_bytes());
            Ok(device_engine.encrypt(reply).unwrap())
        },
        &mut |_, _| panic!("a Coldcard asks no server"),
    );
    assert_eq!(
        response.unwrap(),
        Response::MasterFingerprint(Fingerprint::new([0x34, 0x42, 0x19, 0x3e]))
    );
    // a second unlock finds the engine ready
    assert!(matches!(
        coldcard.on_unlock(Response::EncryptionKey(device_public)),
        Err(CommonError::Encryption("Engine is not New"))
    ));
    assert!(coldcard.on_unlock(Response::TaskDone).is_ok());
}

#[test]
fn unlocking_changes_nothing_about_a_ledger() {
    let mut ledger = Ledger::new(5u8);
    assert!(ledger.on_unlock(Response::TaskDone).is_ok());
    assert!(ledger.on_unlock(Response::EncryptionKey([0; 64])).is_ok());
    assert_eq!(ledger.transport, 5);
    let jade = Jade::new(Network::Signet, 1u8, 2u8);
    assert_eq!((jade.network, jade.transport, jade.pinserver), (Network::Signet, 1, 2));
    let _ = JadeInterpreter::new();
}
