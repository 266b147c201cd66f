use bhwi::ledger::hid::{
    write_apdu, ApduReader, LedgerHIDError, LedgerTransportHID, LEDGER_CHANNEL,
    LEDGER_PACKET_PAYLOAD, LEDGER_PACKET_SIZE, LEDGER_TAG, LEDGER_USAGE_PAGE, LEDGER_VID,
};

fn report(frame: &[u8]) -> [u8; 64] {
    let mut buffer = [0u8; 64];
    buffer.copy_from_slice(frame);
    buffer
}

fn reassemble(frames: &[Vec<u8>]) -> Vec<u8> {
    let mut reader = ApduReader::new(LEDGER_CHANNEL);
    for (i, frame) in frames.iter().enumerate() {
        let done = reader.accept(&report(frame), 64).unwrap();
        assert_eq!(done, i == frames.len() - 1);
        assert_eq!(reader.is_complete(), done);
    }
    reader.into_answer()
}

fn message(len: usize) -> Vec<u8> {
    (0..len).map(|i| (i * 7 + 3) as u8).collect()
}

#[test]
fn constants() {
    assert_eq!(LEDGER_VID, 0x2c97);
    assert_eq!(LEDGER_USAGE_PAGE, 0xFFA0);
    assert_eq!(LEDGER_CHANNEL, 0x0101);
    assert_eq!(LEDGER_TAG, 0x05);
    assert_eq!(LEDGER_PACKET_SIZE, 64);
    assert_eq!(LEDGER_PACKET_PAYLOAD, 59);
}

#[test]
fn a_short_message_is_one_report() {
    let frames = write_apdu(LEDGER_CHANNEL, &[0xE1, 0x05, 0x00, 0x01, 0x00], false);
    assert_eq!(frames.len(), 1);
    let mut expected = vec![0x01, 0x01, 0x05, 0x00, 0x00, 0x00, 0x05, 0xE1, 0x05, 0x00, 0x01, 0x00];
    expected.resize(64, 0);
    assert_eq!(frames[0], expected);
}

#[test]
fn reports_with_report_id() {
    let frames = write_apdu(0x0203, &[0xAA; 60], true);
    assert_eq!(frames.len(), 2);
    for frame in &frames {
        assert_eq!(frame.len(), 65);
        assert_eq!(&frame[..4], &[0x00, 0x02, 0x03, 0x05]);
    }
    assert_eq!(&frames[0][4..8], &[0, 0, 0, 60]);
    assert_eq!(&frames[1][4..6], &[0, 1]);
    assert_eq!(&frames[1][6..9], &[0xAA; 3]);
    assert_eq!(&frames[1][9..], &[0u8; 56]);
}

#[test]
fn round_trip_of_many_lengths() {
    for len in [0usize, 1, 2, 56, 57, 58, 59, 60, 115, 116, 117, 255, 256, 1000, 65535] {
        let apdu = message(len);
        let frames = write_apdu(LEDGER_CHANNEL, &apdu, false);
        assert_eq!(frames.len(), (len + 2 + 58) / 59);
        for (k, frame) in frames.iter().enumerate() {
            assert_eq!(frame.len(), 64);
            assert_eq!(&frame[..3], &[0x01, 0x01, 0x05]);
            assert_eq!(&frame[3..5], &[(k >> 8) as u8, k as u8]);
        }
        assert_eq!(reassemble(&frames), apdu);
    }
}

#[test]
fn padding_is_zero() {
    let apdu = message(100);
    let frames = write_apdu(LEDGER_CHANNEL, &apdu, false);
    assert_eq!(frames.len(), 2);
    assert_eq!(&frames[1][5..48], &apdu[57..]);
    assert_eq!(&frames[1][48..], &[0u8; 16]);
}

#[test]
fn reader_refuses_bad_reports() {
    let good = write_apdu(LEDGER_CHANNEL, &message(100), false);
    let mut reader = ApduReader::new(LEDGER_CHANNEL);
    assert!(matches!(
        reader.accept(&report(&good[0]), 6),
        Err(LedgerHIDError::Comm("Read error. Incomplete header"))
    ));
    let mut wrong = report(&good[0]);
    wrong[0] = 0x02;
    assert!(matches!(reader.accept(&wrong, 64), Err(LedgerHIDError::Comm("Invalid channel"))));
    let mut wrong = report(&good[0]);
    wrong[2] = 0x06;
    assert!(matches!(reader.accept(&wrong, 64), Err(LedgerHIDError::Comm("Invalid tag"))));
    assert!(matches!(
        reader.accept(&report(&good[1]), 64),
        Err(LedgerHIDError::Comm("Invalid sequence idx"))
    ));
    assert_eq!(reader.accept(&report(&good[0]), 64).unwrap(), false);
    assert!(matches!(
        reader.accept(&report(&good[1]), 4),
        Err(LedgerHIDError::Comm("Read error. Incomplete header"))
    ));
    assert!(matches!(
        reader.accept(&report(&good[0]), 64),
        Err(LedgerHIDError::Comm("Invalid sequence idx"))
    ));
    assert_eq!(reader.accept(&report(&good[1]), 5).unwrap(), true);
    // a complete message takes no more
    assert_eq!(reader.accept(&report(&good[0]), 0).unwrap(), true);
    assert_eq!(reader.into_answer(), message(100));
}

#[test]
fn reader_takes_no_more_than_announced() {
    let mut buffer = [0xEEu8; 64];
    buffer[..7].copy_from_slice(&[0x01, 0x01, 0x05, 0x00, 0x00, 0x00, 0x03]);
    let mut reader = ApduReader::new(LEDGER_CHANNEL);
    assert_eq!(reader.accept(&buffer, 64).unwrap(), true);
    assert_eq!(reader.into_answer(), vec![0xEE; 3]);
}

#[test]
fn transport_holds_its_channel() {
    let transport = LedgerTransportHID::new(7u8);
    assert_eq!(transport.channel, 7);
}
