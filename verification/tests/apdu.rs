use bhwi::ledger::apdu::{ApduCommand, ApduError, ApduResponse, StatusWord};

#[test]
fn encode_puts_header_length_and_data() {
    let command = ApduCommand { cla: 0xE1, ins: 0x05, p1: 0x00, p2: 0x01, data: vec![] };
    assert_eq!(command.encode(), vec![0xE1, 0x05, 0x00, 0x01, 0x00]);
    let command = ApduCommand { cla: 0xE0, ins: 0xD8, p1: 0, p2: 0, data: b"Bitcoin".to_vec() };
    assert_eq!(
        command.encode(),
        vec![0xE0, 0xD8, 0x00, 0x00, 0x07, 0x42, 0x69, 0x74, 0x63, 0x6F, 0x69, 0x6E]
    );
}

#[test]
fn response_splits_data_and_status_word() {
    let response = ApduResponse::try_from(vec![0xDE, 0xAD, 0xBE, 0xEF, 0x90, 0x00]).unwrap();
    assert_eq!(response.data, vec![0xDE, 0xAD, 0xBE, 0xEF]);
    assert_eq!(response.status_word, StatusWord::OK);
    assert_eq!(response.into_bytes(), vec![0xDE, 0xAD, 0xBE, 0xEF, 0x90, 0x00]);
}

#[test]
fn response_errors() {
    assert_eq!(ApduResponse::try_from(vec![0x90]).unwrap_err(), ApduError::ResponseTooShort);
    assert_eq!(ApduResponse::try_from(vec![]).unwrap_err(), ApduError::ResponseTooShort);
    assert_eq!(
        ApduResponse::try_from(vec![0x12, 0x34]).unwrap_err(),
        ApduError::StatusWordUnknown
    );
}
