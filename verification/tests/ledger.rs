use bhwi::bip32::{DerivationPath, Fingerprint, Xpub};
use bhwi::ledger::apdu::{ApduError, ClientCommandCode, StatusWord};
use bhwi::ledger::error::BitcoinClientError;
use bhwi::ledger::store::{ClientCommandStore, NoStore, StoreError};
use bhwi::ledger::{LedgerCommand, LedgerError, LedgerInterpreter, LedgerResponse};
use bhwi::network::Network;
use bhwi::Interpreter;

const MASTER_XPUB: &str = "xpub661MyMwAqRbcFtXgS5sYJABqqG9YLmC4Q1Rdap9gSE8NqtwybGhePY2gZ29ESFjqJoCu1Rupje8YtGqsefD265TMg7usUDFdp6W1EGMcet8";

#[test]
fn get_master_fingerprint_scenario() {
    let mut intpr = LedgerInterpreter::new();
    let apdu = intpr.start(LedgerCommand::GetMasterFingerprint).unwrap();
    assert_eq!(apdu.encode(), vec![0xE1, 0x05, 0x00, 0x01, 0x00]);
    let next = intpr.exchange(vec![0xDE, 0xAD, 0xBE, 0xEF, 0x90, 0x00]).unwrap();
    assert!(next.is_none());
    assert_eq!(
        intpr.end().unwrap(),
        LedgerResponse::MasterFingerprint(Fingerprint::new([0xDE, 0xAD, 0xBE, 0xEF]))
    );
}

#[test]
fn get_master_fingerprint_takes_the_first_four_bytes() {
    let mut intpr = LedgerInterpreter::new();
    intpr.start(LedgerCommand::GetMasterFingerprint).unwrap();
    intpr.exchange(vec![1, 2, 3, 4, 5, 6, 0x90, 0x00]).unwrap();
    assert_eq!(
        intpr.end().unwrap(),
        LedgerResponse::MasterFingerprint(Fingerprint::new([1, 2, 3, 4]))
    );
}

#[test]
fn get_master_fingerprint_wants_four_bytes() {
    let mut intpr = LedgerInterpreter::new();
    intpr.start(LedgerCommand::GetMasterFingerprint).unwrap();
    match intpr.exchange(vec![0xDE, 0xAD, 0xBE, 0x90, 0x00]) {
        Err(LedgerError::UnexpectedResult(LedgerCommand::GetMasterFingerprint, data)) => {
            assert_eq!(data, vec![0xDE, 0xAD, 0xBE])
        }
        other => panic!("{:?}", other),
    }
    assert!(matches!(intpr.end(), Err(LedgerError::NoErrorOrResult)));
}

#[test]
fn get_master_fingerprint_wants_ok() {
    let mut intpr = LedgerInterpreter::new();
    intpr.start(LedgerCommand::GetMasterFingerprint).unwrap();
    match intpr.exchange(vec![0xDE, 0xAD, 0xBE, 0xEF, 0x69, 0x85]) {
        Err(LedgerError::UnexpectedResult(_, data)) => {
            assert_eq!(data, vec![0xDE, 0xAD, 0xBE, 0xEF])
        }
        other => panic!("{:?}", other),
    }
}

#[test]
fn open_app_mainnet_scenario() {
    let mut intpr = LedgerInterpreter::new();
    let apdu = intpr.start(LedgerCommand::OpenApp(Network::Bitcoin)).unwrap();
    assert_eq!(
        apdu.encode(),
        vec![0xE0, 0xD8, 0x00, 0x00, 0x07, 0x42, 0x69, 0x74, 0x63, 0x6F, 0x69, 0x6E]
    );
    assert!(intpr.exchange(vec![0x90, 0x00]).unwrap().is_none());
    assert_eq!(intpr.end().unwrap(), LedgerResponse::TaskDone);
}

#[test]
fn open_app_already_open() {
    let mut intpr = LedgerInterpreter::new();
    intpr.start(LedgerCommand::OpenApp(Network::Bitcoin)).unwrap();
    assert!(intpr.exchange(vec![0x6E, 0x00]).unwrap().is_none());
    assert_eq!(intpr.end().unwrap(), LedgerResponse::TaskDone);
}

#[test]
fn open_app_refused() {
    let mut intpr = LedgerInterpreter::new();
    intpr.start(LedgerCommand::OpenApp(Network::Bitcoin)).unwrap();
    match intpr.exchange(vec![0x01, 0x6A, 0x80]) {
        Err(LedgerError::UnexpectedResult(LedgerCommand::OpenApp(Network::Bitcoin), data)) => {
            assert_eq!(data, vec![0x01])
        }
        other => panic!("{:?}", other),
    }
    assert!(matches!(intpr.end(), Err(LedgerError::NoErrorOrResult)));
}

#[test]
fn open_app_testnets() {
    for network in [Network::Testnet, Network::Testnet4, Network::Signet, Network::Regtest] {
        let mut intpr = LedgerInterpreter::new();
        let apdu = intpr.start(LedgerCommand::OpenApp(network)).unwrap();
        let mut expected = vec![0xE0, 0xD8, 0x00, 0x00, 12];
        expected.extend_from_slice(b"Bitcoin Test");
        assert_eq!(apdu.encode(), expected);
    }
}

#[test]
fn get_xpub_request_and_reply() {
    let path = DerivationPath::from_str("m/48'/1'/0'/2'").unwrap();
    let mut intpr = LedgerInterpreter::new();
    let apdu = intpr.start(LedgerCommand::GetXpub { path, display: true }).unwrap();
    assert_eq!(
        apdu.encode(),
        vec![
            0xE1, 0x00, 0x00, 0x01, 18, 0x01, 0x04, 0x80, 0, 0, 48, 0x80, 0, 0, 1, 0x80, 0, 0, 0,
            0x80, 0, 0, 2
        ]
    );
    let mut reply = MASTER_XPUB.as_bytes().to_vec();
    reply.extend_from_slice(&[0x90, 0x00]);
    assert!(intpr.exchange(reply).unwrap().is_none());
    assert_eq!(intpr.end().unwrap(), LedgerResponse::Xpub(Xpub::from_str(MASTER_XPUB).unwrap()));
}

#[test]
fn get_xpub_refuses_what_is_no_key() {
    let mut intpr = LedgerInterpreter::new();
    intpr
        .start(LedgerCommand::GetXpub { path: DerivationPath::master(), display: false })
        .unwrap();
    match intpr.exchange(vec![0x78, 0x70, 0x90, 0x00]) {
        Err(LedgerError::UnexpectedResult(LedgerCommand::GetXpub { display: false, .. }, data)) => {
            assert_eq!(data, vec![0x78, 0x70])
        }
        other => panic!("{:?}", other),
    }
}

#[test]
fn malformed_replies() {
    let mut intpr = LedgerInterpreter::new();
    intpr.start(LedgerCommand::GetMasterFingerprint).unwrap();
    assert!(matches!(
        intpr.exchange(vec![0x90]),
        Err(LedgerError::Apdu(ApduError::ResponseTooShort))
    ));
    assert!(matches!(
        intpr.exchange(vec![0, 0, 0, 0, 0x12, 0x34]),
        Err(LedgerError::Apdu(ApduError::StatusWordUnknown))
    ));
    // the command is still running
    assert!(intpr.exchange(vec![9, 9, 9, 9, 0x90, 0x00]).unwrap().is_none());
    assert_eq!(
        intpr.end().unwrap(),
        LedgerResponse::MasterFingerprint(Fingerprint::new([9, 9, 9, 9]))
    );
}

#[test]
fn end_before_completion_is_no_result() {
    assert!(matches!(LedgerInterpreter::new().end(), Err(LedgerError::NoErrorOrResult)));
    let mut intpr = LedgerInterpreter::new();
    intpr.start(LedgerCommand::GetMasterFingerprint).unwrap();
    assert!(matches!(intpr.end(), Err(LedgerError::NoErrorOrResult)));
}

#[test]
fn exchange_outside_a_command_changes_nothing() {
    let mut intpr = LedgerInterpreter::new();
    assert!(intpr.exchange(vec![0x90, 0x00]).unwrap().is_none());
    assert!(intpr.exchange(vec![]).unwrap().is_none());
    assert!(matches!(intpr.end(), Err(LedgerError::NoErrorOrResult)));

    let mut intpr = LedgerInterpreter::new();
    intpr.start(LedgerCommand::OpenApp(Network::Bitcoin)).unwrap();
    intpr.exchange(vec![0x90, 0x00]).unwrap();
    assert!(intpr.exchange(vec![0x6A, 0x80]).unwrap().is_none());
    assert_eq!(intpr.end().unwrap(), LedgerResponse::TaskDone);
}

#[test]
fn interruption_without_a_store_fails() {
    let mut intpr = LedgerInterpreter::new();
    intpr.start(LedgerCommand::GetMasterFingerprint).unwrap();
    assert!(matches!(intpr.exchange(vec![0x10, 0xE0, 0x00]), Err(LedgerError::Interrupted)));
}

struct Echo {
    seen: Vec<Vec<u8>>,
}

impl ClientCommandStore for Echo {
    fn execute(&mut self, request: Vec<u8>) -> Result<Vec<u8>, StoreError> {
        self.seen.push(request.clone());
        if request.is_empty() {
            return Err(StoreError::EmptyRequest);
        }
        Ok(request.iter().rev().cloned().collect())
    }
}

#[test]
fn interruption_is_answered_from_the_store() {
    let mut intpr = LedgerInterpreter::with_store(Echo { seen: vec![] });
    intpr.start(LedgerCommand::GetMasterFingerprint).unwrap();
    let next = intpr.exchange(vec![0x10, 0x20, 0x30, 0xE0, 0x00]).unwrap().unwrap();
    assert_eq!(next.encode(), vec![0xF8, 0x01, 0x00, 0x01, 0x03, 0x30, 0x20, 0x10]);
    assert!(matches!(
        intpr.exchange(vec![0xE0, 0x00]),
        Err(LedgerError::Store(StoreError::EmptyRequest))
    ));
    intpr.exchange(vec![1, 2, 3, 4, 0x90, 0x00]).unwrap();
    assert_eq!(
        intpr.end().unwrap(),
        LedgerResponse::MasterFingerprint(Fingerprint::new([1, 2, 3, 4]))
    );
}

#[test]
fn a_store_that_holds_nothing_refuses() {
    let mut store = NoStore;
    assert!(matches!(store.execute(vec![]), Err(StoreError::EmptyRequest)));
    assert!(matches!(store.execute(vec![0x11]), Err(StoreError::UnknownCommand(0x11))));
    assert!(matches!(
        store.execute(vec![0x40, 1]),
        Err(StoreError::Unanswerable(ClientCommandCode::GetPreimage))
    ));
}

#[test]
fn status_words_round_trip() {
    let words = [
        (StatusWord::Deny, 0x6985u16),
        (StatusWord::IncorrectData, 0x6A80),
        (StatusWord::NotSupported, 0x6A82),
        (StatusWord::WrongP1P2, 0x6A86),
        (StatusWord::WrongDataLength, 0x6A87),
        (StatusWord::InsNotSupported, 0x6D00),
        (StatusWord::ClaNotSupported, 0x6E00),
        (StatusWord::BadState, 0xB007),
        (StatusWord::SignatureFail, 0xB008),
        (StatusWord::OK, 0x9000),
        (StatusWord::InterruptedExecution, 0xE000),
    ];
    for (word, code) in words {
        assert_eq!(word.code(), code);
        assert_eq!(StatusWord::try_from(code).unwrap(), word);
    }
    let mut recognized = 0;
    for value in 0..=u16::MAX {
        if let Ok(word) = StatusWord::try_from(value) {
            assert_eq!(word.code(), value);
            recognized += 1;
        }
    }
    assert_eq!(recognized, 11);
}

#[test]
fn client_command_codes() {
    let codes = [
        (ClientCommandCode::Yield, 0x10u8),
        (ClientCommandCode::GetPreimage, 0x40),
        (ClientCommandCode::GetMerkleLeafProof, 0x41),
        (ClientCommandCode::GetMerkleLeafIndex, 0x42),
        (ClientCommandCode::GetMoreElements, 0xA0),
    ];
    for (code, byte) in codes {
        assert_eq!(code.code(), byte);
        assert_eq!(ClientCommandCode::try_from(byte), Ok(code));
    }
    assert_eq!(ClientCommandCode::try_from(0x11), Err(()));
}

#[test]
fn conversions_of_errors() {
    assert!(matches!(
        LedgerError::from(ApduError::ResponseTooShort),
        LedgerError::Apdu(ApduError::ResponseTooShort)
    ));
    assert!(matches!(
        LedgerError::from(StoreError::UnknownCommand(3)),
        LedgerError::Store(StoreError::UnknownCommand(3))
    ));
    let e: BitcoinClientError<u8> = StoreError::EmptyRequest.into();
    assert!(matches!(e, BitcoinClientError::Store(StoreError::EmptyRequest)));
    let word: Result<StatusWord, ApduError> = 0x9000u16.try_into();
    assert_eq!(word, Ok(StatusWord::OK));
    let code: Result<ClientCommandCode, ()> = 0xA0u8.try_into();
    assert_eq!(code, Ok(ClientCommandCode::GetMoreElements));
    let response = bhwi::ledger::apdu::ApduResponse { data: vec![1, 2], status_word: StatusWord::Deny };
    let bytes: Vec<u8> = response.into();
    assert_eq!(bytes, vec![1, 2, 0x69, 0x85]);
}
