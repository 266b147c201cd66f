use bhwi::bip32::{DerivationPath, Fingerprint, Xpub};
use bhwi::coldcard::encrypt::Engine;
use bhwi::coldcard::{ColdcardCommand, ColdcardError, ColdcardResponse, ColdcardTransmit};
use bhwi::common::{
    ColdcardInterpreter, Command, Error, JadeInterpreter, LedgerInterpreter, Recipient, Response,
    Transmit, UnlockOptions,
};
use bhwi::jade::{JadeCommand, JadeError, JadeRecipient, JadeResponse, JadeTransmit};
use bhwi::ledger::apdu::{ApduCommand, ApduError};
use bhwi::ledger::store::StoreError;
use bhwi::ledger::{LedgerCommand, LedgerError, LedgerResponse};
use bhwi::network::Network;
use bhwi::Interpreter;

const MASTER_XPUB: &str = "xpub661MyMwAqRbcFtXgS5sYJABqqG9YLmC4Q1Rdap9gSE8NqtwybGhePY2gZ29ESFjqJoCu1Rupje8YtGqsefD265TMg7usUDFdp6W1EGMcet8";

#[test]
fn common_interpreter_is_satisfied() {
    let interpreters: Vec<
        Box<
            dyn Interpreter<
                Command = Command,
                Transmit = Transmit,
                Response = Response,
                Error = Error,
            >,
        >,
    > = vec![Box::<LedgerInterpreter>::default(), Box::<JadeInterpreter>::default()];
    assert_eq!(interpreters.len(), 2);
}

#[test]
fn common_common_interpreter_is_satisfied() {
    let interpreters: Vec<
        Box<
            dyn Interpreter<
                Command = Command,
                Transmit = Transmit,
                Response = Response,
                Error = Error,
            >,
        >,
    > = vec![Box::new(LedgerInterpreter::new()), Box::new(JadeInterpreter::new())];
    assert_eq!(interpreters.len(), 2);
}

fn unlock(network: Option<Network>) -> Command {
    Command::Unlock { options: UnlockOptions { network } }
}

fn get_xpub() -> Command {
    Command::GetXpub { path: DerivationPath::from_str("m/1/2").unwrap(), display: true }
}

#[test]
fn unlock_options_default_to_no_network() {
    assert_eq!(UnlockOptions::default().network, None);
}

#[test]
fn commands_for_a_coldcard() {
    assert!(matches!(
        ColdcardCommand::try_from(unlock(None)),
        Ok(ColdcardCommand::StartEncryption)
    ));
    assert!(matches!(
        ColdcardCommand::try_from(Command::GetMasterFingerprint),
        Ok(ColdcardCommand::GetMasterFingerprint)
    ));
    match ColdcardCommand::try_from(get_xpub()) {
        Ok(ColdcardCommand::GetXpub(path)) => assert_eq!(path.to_u32_vec(), vec![1, 2]),
        other => panic!("{:?}", other),
    }
}

#[test]
fn commands_for_a_jade() {
    assert!(matches!(JadeCommand::from(unlock(Some(Network::Bitcoin))), JadeCommand::Auth));
    assert!(matches!(
        JadeCommand::from(Command::GetMasterFingerprint),
        JadeCommand::GetMasterFingerprint
    ));
    match JadeCommand::from(get_xpub()) {
        JadeCommand::GetXpub(path) => assert_eq!(path.to_u32_vec(), vec![1, 2]),
        other => panic!("{:?}", other),
    }
}

#[test]
fn commands_for_a_ledger() {
    assert!(matches!(
        LedgerCommand::try_from(unlock(Some(Network::Signet))),
        Ok(LedgerCommand::OpenApp(Network::Signet))
    ));
    assert!(matches!(
        LedgerCommand::try_from(unlock(None)),
        Err(LedgerError::MissingCommandInfo("network"))
    ));
    assert!(matches!(
        LedgerCommand::try_from(Command::GetMasterFingerprint),
        Ok(LedgerCommand::GetMasterFingerprint)
    ));
    match LedgerCommand::try_from(get_xpub()) {
        Ok(LedgerCommand::GetXpub { path, display: true }) => {
            assert_eq!(path.to_u32_vec(), vec![1, 2])
        }
        other => panic!("{:?}", other),
    }
}

#[test]
fn responses_in_common_terms() {
    let fg = Fingerprint::new([1, 2, 3, 4]);
    let xpub = Xpub::from_str(MASTER_XPUB).unwrap();
    assert_eq!(
        Response::from(ColdcardResponse::MasterFingerprint(fg)),
        Response::MasterFingerprint(fg)
    );
    assert_eq!(Response::from(ColdcardResponse::Xpub(xpub)), Response::Xpub(xpub));
    assert_eq!(
        Response::from(ColdcardResponse::MyPub {
            encryption_key: [7; 64],
            xpub_fingerprint: fg,
            xpub: Some(xpub)
        }),
        Response::EncryptionKey([7; 64])
    );
    assert_eq!(Response::from(JadeResponse::TaskDone), Response::TaskDone);
    assert_eq!(
        Response::from(JadeResponse::MasterFingerprint(fg)),
        Response::MasterFingerprint(fg)
    );
    assert_eq!(Response::from(JadeResponse::Xpub(xpub)), Response::Xpub(xpub));
    assert_eq!(Response::from(LedgerResponse::TaskDone), Response::TaskDone);
    assert_eq!(
        Response::from(LedgerResponse::MasterFingerprint(fg)),
        Response::MasterFingerprint(fg)
    );
    assert_eq!(Response::from(LedgerResponse::Xpub(xpub)), Response::Xpub(xpub));
}

#[test]
fn transmits_in_common_terms() {
    let t = Transmit::from(ColdcardTransmit { payload: vec![1, 2], encrypted: true });
    assert!(matches!(t.recipient, Recipient::Device));
    assert_eq!((t.payload, t.encrypted), (vec![1, 2], true));

    let t = Transmit::from(JadeTransmit {
        recipient: JadeRecipient::PinServer { url: "https://p".to_string() },
        payload: vec![3],
    });
    match t.recipient {
        Recipient::PinServer { url } => assert_eq!(url, "https://p"),
        other => panic!("{:?}", other),
    }
    assert_eq!((t.payload, t.encrypted), (vec![3], false));
    assert!(matches!(Recipient::from(JadeRecipient::Device), Recipient::Device));

    let t = Transmit::from(vec![9u8, 8]);
    assert!(matches!(t.recipient, Recipient::Device));
    assert_eq!((t.payload, t.encrypted), (vec![9, 8], false));

    let t = Transmit::from(ApduCommand { cla: 1, ins: 2, p1: 3, p2: 4, data: vec![5, 6] });
    assert!(matches!(t.recipient, Recipient::Device));
    assert_eq!((t.payload, t.encrypted), (vec![1, 2, 3, 4, 2, 5, 6], false));
}

#[test]
fn coldcard_errors_in_common_terms() {
    assert!(matches!(Error::from(ColdcardError::Encryption("e")), Error::Encryption("e")));
    assert!(matches!(
        Error::from(ColdcardError::MissingCommandInfo("m")),
        Error::MissingCommandInfo("m")
    ));
    assert!(matches!(Error::from(ColdcardError::NoErrorOrResult), Error::NoErrorOrResult));
    match Error::from(ColdcardError::Serialization("s".to_string())) {
        Error::Serialization(s) => assert_eq!(s, "s"),
        other => panic!("{:?}", other),
    }
}

#[test]
fn jade_errors_in_common_terms() {
    match Error::from(JadeError::Cbor) {
        Error::Serialization(s) => assert_eq!(s, "cbor"),
        other => panic!("{:?}", other),
    }
    assert!(matches!(Error::from(JadeError::NoErrorOrResult), Error::NoErrorOrResult));
    let rpc = bhwi::jade::api::Error { code: -5, message: Some("m".to_string()) };
    match Error::from(JadeError::Rpc(rpc)) {
        Error::Rpc(-5, Some(m)) => assert_eq!(m, "m"),
        other => panic!("{:?}", other),
    }
    match Error::from(JadeError::Serialization("s".to_string())) {
        Error::Serialization(s) => assert_eq!(s, "s"),
        other => panic!("{:?}", other),
    }
    assert!(matches!(Error::from(JadeError::Request("r")), Error::Request("r")));
    match Error::from(JadeError::Unexpected("héllo".to_string())) {
        Error::UnexpectedResult(bytes) => assert_eq!(bytes, "héllo".as_bytes().to_vec()),
        other => panic!("{:?}", other),
    }
    assert!(matches!(Error::from(JadeError::HandshakeRefused), Error::AuthenticationRefused));
}

#[test]
fn ledger_errors_in_common_terms() {
    assert!(matches!(
        Error::from(LedgerError::MissingCommandInfo("network")),
        Error::MissingCommandInfo("network")
    ));
    assert!(matches!(Error::from(LedgerError::NoErrorOrResult), Error::NoErrorOrResult));
    match Error::from(LedgerError::Apdu(ApduError::StatusWordUnknown)) {
        Error::Serialization(s) => assert_eq!(s, format!("{:?}", ApduError::StatusWordUnknown)),
        other => panic!("{:?}", other),
    }
    match Error::from(LedgerError::Apdu(ApduError::ResponseTooShort)) {
        Error::Serialization(s) => assert_eq!(s, format!("{:?}", ApduError::ResponseTooShort)),
        other => panic!("{:?}", other),
    }
    assert!(matches!(
        Error::from(LedgerError::Store(StoreError::EmptyRequest)),
        Error::Request("Store operation failed")
    ));
    assert!(matches!(
        Error::from(LedgerError::Interrupted),
        Error::Request("Operation interrupted")
    ));
    match Error::from(LedgerError::UnexpectedResult(LedgerCommand::GetMasterFingerprint, vec![1])) {
        Error::UnexpectedResult(data) => assert_eq!(data, vec![1]),
        other => panic!("{:?}", other),
    }
    assert!(matches!(
        Error::from(LedgerError::FailedToOpenApp(vec![])),
        Error::AuthenticationRefused
    ));
}

#[test]
fn ledger_in_common_terms() {
    let mut intpr = LedgerInterpreter::new();
    assert!(matches!(intpr.start(unlock(None)), Err(Error::MissingCommandInfo("network"))));
    assert!(matches!(intpr.exchange(vec![0x90, 0x00]), Ok(None)));
    let transmit = intpr.start(unlock(Some(Network::Bitcoin))).unwrap();
    assert!(matches!(transmit.recipient, Recipient::Device));
    assert!(!transmit.encrypted);
    assert_eq!(
        transmit.payload,
        vec![0xE0, 0xD8, 0x00, 0x00, 0x07, 0x42, 0x69, 0x74, 0x63, 0x6F, 0x69, 0x6E]
    );
    match intpr.exchange(vec![0x6A, 0x80]) {
        Err(Error::UnexpectedResult(data)) => assert!(data.is_empty()),
        other => panic!("{:?}", other),
    }
    match intpr.exchange(vec![0x6A]) {
        Err(Error::Serialization(s)) => assert_eq!(s, "ResponseTooShort"),
        other => panic!("{:?}", other),
    }
    assert!(matches!(
        intpr.exchange(vec![0xE0, 0x00]),
        Err(Error::Request("Operation interrupted"))
    ));
    assert!(matches!(intpr.exchange(vec![0x90, 0x00]), Ok(None)));
    assert_eq!(intpr.end().unwrap(), Response::TaskDone);

    let mut intpr = LedgerInterpreter::default();
    let transmit = intpr.start(Command::GetMasterFingerprint).unwrap();
    assert_eq!(transmit.payload, vec![0xE1, 0x05, 0x00, 0x01, 0x00]);
    assert!(matches!(intpr.exchange(vec![0xDE, 0xAD, 0xBE, 0xEF, 0x90, 0x00]), Ok(None)));
    assert_eq!(
        intpr.end().unwrap(),
        Response::MasterFingerprint(Fingerprint::new([0xDE, 0xAD, 0xBE, 0xEF]))
    );
    assert!(matches!(LedgerInterpreter::new().end(), Err(Error::NoErrorOrResult)));
}

#[test]
fn coldcard_in_common_terms() {
    let secret = [1u8; 32];
    let mut engine = Engine::new(secret);
    let key = engine.pub_key().unwrap();
    let mut intpr = ColdcardInterpreter::new(&mut engine);
    assert!(matches!(
        intpr.start(Command::GetMasterFingerprint),
        Err(Error::Encryption("Engine not ready"))
    ));
    let transmit = intpr.start(unlock(None)).unwrap();
    assert!(matches!(transmit.recipient, Recipient::Device));
    assert!(!transmit.encrypted);
    let mut expected = b"ncry".to_vec();
    expected.extend_from_slice(&[1, 0, 0, 0]);
    expected.extend_from_slice(&key);
    assert_eq!(transmit.payload, expected);
    match intpr.exchange(b"oops".to_vec()) {
        Err(Error::Serialization(s)) => assert_eq!(s, "Wrong xpub response"),
        other => panic!("{:?}", other),
    }
    let mut reply = b"mypb".to_vec();
    reply.extend_from_slice(&[0x33; 64]);
    reply.extend_from_slice(&[0; 8]);
    assert!(matches!(intpr.exchange(reply), Ok(None)));
    assert_eq!(intpr.end().unwrap(), Response::EncryptionKey([0x33; 64]));
    assert!(matches!(ColdcardInterpreter::new(&mut engine).end(), Err(Error::NoErrorOrResult)));
}

#[test]
fn jade_in_common_terms() {
    let mut intpr = JadeInterpreter::new().with_network(Network::Testnet).with_request_id(3);
    let transmit = intpr.start(Command::GetMasterFingerprint).unwrap();
    assert!(matches!(transmit.recipient, Recipient::Device));
    assert!(!transmit.encrypted);
    let mut expected = vec![0xa3, 0x62, 0x69, 0x64, 0x61, 0x33];
    expected.extend_from_slice(&[0x66]);
    expected.extend_from_slice(b"method");
    expected.extend_from_slice(&[0x68]);
    expected.extend_from_slice(b"get_xpub");
    expected.extend_from_slice(&[0x66]);
    expected.extend_from_slice(b"params");
    expected.extend_from_slice(&[0xa2, 0x67]);
    expected.extend_from_slice(b"network");
    expected.extend_from_slice(&[0x67]);
    expected.extend_from_slice(b"testnet");
    expected.extend_from_slice(&[0x64]);
    expected.extend_from_slice(b"path");
    expected.extend_from_slice(&[0x80]);
    assert_eq!(transmit.payload, expected);
    match intpr.exchange(vec![0xa0, 0x00]) {
        Err(Error::Serialization(s)) => assert_eq!(s, "cbor"),
        other => panic!("{:?}", other),
    }
    assert!(matches!(intpr.exchange(vec![0xa0]), Err(Error::NoErrorOrResult)));
    let mut reply = vec![0xa1, 0x66];
    reply.extend_from_slice(b"result");
    reply.extend_from_slice(&[0x78, MASTER_XPUB.len() as u8]);
    reply.extend_from_slice(MASTER_XPUB.as_bytes());
    assert!(matches!(intpr.exchange(reply), Ok(None)));
    assert_eq!(
        intpr.end().unwrap(),
        Response::MasterFingerprint(Fingerprint::new([0x34, 0x42, 0x19, 0x3e]))
    );
    assert!(matches!(JadeInterpreter::default().end(), Err(Error::NoErrorOrResult)));
}
