use bhwi::bip32::DerivationPath;
use bhwi::ledger::apdu::{
    ApduCommand, ApduResponse, BitcoinCommandCode, Cla, FrameworkCommandCode, StatusWord,
    CURRENT_PROTOCOL_VERSION,
};
use bhwi::ledger::command::{
    continue_interrupted, get_extended_pubkey, get_master_fingerprint, get_version,
    get_wallet_address, open_app, register_wallet, sign_message, sign_psbt,
};
use bhwi::network::Network;

#[test]
fn default_command() {
    let command = ApduCommand::default();
    assert_eq!(command.cla, 0xB0);
    assert_eq!(command.ins, 0);
    assert_eq!(command.p1, 0);
    assert_eq!(command.p2, CURRENT_PROTOCOL_VERSION);
    assert!(command.data.is_empty());
    assert_eq!(command.encode(), vec![0xB0, 0, 0, 1, 0]);
}

#[test]
fn class_and_instruction_bytes() {
    assert_eq!(Cla::Default.code(), 0xB0);
    assert_eq!(Cla::Bitcoin.code(), 0xE1);
    assert_eq!(Cla::Framework.code(), 0xF8);
    assert_eq!(BitcoinCommandCode::GetExtendedPubkey.code(), 0x00);
    assert_eq!(BitcoinCommandCode::GetVersion.code(), 0x01);
    assert_eq!(BitcoinCommandCode::RegisterWallet.code(), 0x02);
    assert_eq!(BitcoinCommandCode::GetWalletAddress.code(), 0x03);
    assert_eq!(BitcoinCommandCode::SignPSBT.code(), 0x04);
    assert_eq!(BitcoinCommandCode::GetMasterFingerprint.code(), 0x05);
    assert_eq!(BitcoinCommandCode::SignMessage.code(), 0x10);
    assert_eq!(FrameworkCommandCode::ContinueInterrupted.code(), 0x01);
}

#[test]
fn length_byte_wraps_beyond_255() {
    let command = ApduCommand { cla: 1, ins: 2, p1: 3, p2: 4, data: vec![7; 258] };
    let bytes = command.encode();
    assert_eq!(bytes.len(), 263);
    assert_eq!(&bytes[..5], &[1, 2, 3, 4, 2]);
}

#[test]
fn command_then_status_word_decodes() {
    let command = ApduCommand { cla: 0xE1, ins: 0x00, p1: 0, p2: 1, data: vec![5; 255] };
    let mut wire = command.encode();
    wire.extend_from_slice(&[0xB0, 0x08]);
    let response = ApduResponse::try_from(wire).unwrap();
    assert_eq!(response.status_word, StatusWord::SignatureFail);
    assert_eq!(response.data, command.encode());
    assert_eq!(response.data[4], 255);
    assert_eq!(&response.data[5..], &command.data[..]);
}

#[test]
fn simple_commands() {
    assert_eq!(get_version().encode(), vec![0xB0, 0x01, 0x00, 0x00, 0x00]);
    assert_eq!(get_master_fingerprint().encode(), vec![0xE1, 0x05, 0x00, 0x01, 0x00]);
    assert_eq!(
        continue_interrupted(vec![9, 8, 7]).encode(),
        vec![0xF8, 0x01, 0x00, 0x01, 0x03, 9, 8, 7]
    );
    assert_eq!(open_app(Network::Bitcoin).data, b"Bitcoin".to_vec());
    assert_eq!(open_app(Network::Signet).data, b"Bitcoin Test".to_vec());
    assert_eq!(open_app(Network::Bitcoin).cla, 0xE0);
    assert_eq!(open_app(Network::Bitcoin).ins, 0xD8);
    assert_eq!(open_app(Network::Bitcoin).p2, 0);
}

#[test]
fn extended_pubkey_command() {
    let path = DerivationPath::from_str("m/44'/0").unwrap();
    assert_eq!(
        get_extended_pubkey(&path, false).data,
        vec![0, 2, 0x80, 0, 0, 44, 0, 0, 0, 0]
    );
    assert_eq!(get_extended_pubkey(&DerivationPath::master(), true).data, vec![1, 0]);
    let path = DerivationPath::from_u32_vec(vec![0x01020304]);
    assert_eq!(get_extended_pubkey(&path, true).data, vec![1, 1, 1, 2, 3, 4]);
}

#[test]
fn wallet_address_command() {
    let id = [0x11u8; 32];
    let hmac = [0x22u8; 32];
    let command = get_wallet_address(&id, Some(&hmac), true, 0x01020304, false);
    let mut expected = vec![0u8];
    expected.extend_from_slice(&id);
    expected.extend_from_slice(&hmac);
    expected.push(1);
    expected.extend_from_slice(&[1, 2, 3, 4]);
    assert_eq!(command.data, expected);
    assert_eq!(command.data.len(), 70);
    assert_eq!((command.cla, command.ins, command.p1, command.p2), (0xE1, 0x03, 0, 1));
    let command = get_wallet_address(&id, None, false, 7, true);
    assert_eq!(command.data[0], 1);
    assert_eq!(&command.data[33..65], &[0u8; 32]);
    assert_eq!(&command.data[65..], &[0, 0, 0, 0, 7]);
}

#[test]
fn register_wallet_command() {
    let policy = vec![0xAB; 300];
    let command = register_wallet(&policy);
    assert_eq!(&command.data[..3], &[0xFD, 0x2C, 0x01]);
    assert_eq!(&command.data[3..], &policy[..]);
    assert_eq!(command.ins, 0x02);
    let command = register_wallet(&[1, 2, 3]);
    assert_eq!(command.data, vec![3, 1, 2, 3]);
    assert_eq!(register_wallet(&vec![0u8; 0xFC]).data[0], 0xFC);
    assert_eq!(&register_wallet(&vec![0u8; 0xFD]).data[..3], &[0xFD, 0xFD, 0x00]);
    assert_eq!(&register_wallet(&vec![0u8; 0x10000]).data[..5], &[0xFE, 0, 0, 1, 0]);
}

#[test]
fn sign_psbt_command() {
    let global = [1u8, 2, 3];
    let inputs_root = [4u8; 32];
    let outputs_root = [5u8; 32];
    let id = [6u8; 32];
    let command = sign_psbt(&global, 2, &inputs_root, 0x1234, &outputs_root, &id, None);
    let mut expected = vec![1u8, 2, 3, 2];
    expected.extend_from_slice(&inputs_root);
    expected.extend_from_slice(&[0xFD, 0x34, 0x12]);
    expected.extend_from_slice(&outputs_root);
    expected.extend_from_slice(&id);
    expected.extend_from_slice(&[0u8; 32]);
    assert_eq!(command.data, expected);
    assert_eq!(command.ins, 0x04);
}

#[test]
fn sign_message_command() {
    let root = [9u8; 32];
    let path = DerivationPath::from_str("m/84'/1").unwrap();
    let command = sign_message(0x1_0000_0000, &root, &path);
    let mut expected = vec![2u8, 0x80, 0, 0, 84, 0, 0, 0, 1];
    expected.extend_from_slice(&[0xFF, 0, 0, 0, 0, 1, 0, 0, 0]);
    expected.extend_from_slice(&root);
    assert_eq!(command.data, expected);
    assert_eq!(command.ins, 0x10);
}
