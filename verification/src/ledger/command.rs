//! The command frames of the Bitcoin application.

use super::apdu::{ApduCommand, BitcoinCommandCode, Cla, FrameworkCommandCode};
use crate::bip32::DerivationPath;
use crate::bytes::{be32, be32_all, le16, le32, le64};
use crate::network::Network;
use vstd::prelude::*;

verus! {

/// ASCII `Bitcoin`, the name of the mainnet application.
pub open spec fn app_name_mainnet() -> Seq<u8> {
    seq![0x42, 0x69, 0x74, 0x63, 0x6f, 0x69, 0x6e]
}

/// ASCII `Bitcoin Test`, the name of the application for every other network.
pub open spec fn app_name_test() -> Seq<u8> {
    seq![0x42, 0x69, 0x74, 0x63, 0x6f, 0x69, 0x6e, 0x20, 0x54, 0x65, 0x73, 0x74]
}

/// Bitcoin's variable-length encoding of an unsigned integer.
pub open spec fn compact_size(n: u64) -> Seq<u8> {
    if n <= 0xFC {
        seq![n as u8]
    } else if n <= 0xFFFF {
        seq![0xFDu8] + le16(n as u16)
    } else if n <= 0xFFFF_FFFF {
        seq![0xFEu8] + le32(n as u32)
    } else {
        seq![0xFFu8] + le64(n)
    }
}

/// One byte for a flag: 1 when set, 0 when not.
pub open spec fn flag(b: bool) -> u8 {
    if b {
        1
    } else {
        0
    }
}

/// Thirty-two zero bytes, sent in place of an absent HMAC.
pub open spec fn no_hmac() -> Seq<u8> {
    Seq::new(32, |i: int| 0u8)
}

pub open spec fn hmac_bytes(hmac: Option<&[u8; 32]>) -> Seq<u8> {
    match hmac {
        Some(h) => h@,
        None => no_hmac(),
    }
}

/// Calls `bitcoin::consensus::encode::serialize` on a `VarInt`. The result
/// is the integer's variable-length encoding: one byte up to 0xFC, else a
/// marker byte (0xFD, 0xFE, 0xFF) and the value in 2, 4 or 8 bytes, least
/// significant first.
#[verifier::external_body]
fn var_int(n: u64) -> (r: Vec<u8>)
    ensures
        r@ == compact_size(n),
{
    bitcoin::consensus::encode::serialize(&bitcoin::consensus::encode::VarInt(n))
}

fn flag_byte(b: bool) -> (r: u8)
    ensures
        r == flag(b),
{
    if b {
        1
    } else {
        0
    }
}

fn push_hmac(data: &mut Vec<u8>, hmac: Option<&[u8; 32]>)
    ensures
        final(data)@ == old(data)@ + hmac_bytes(hmac),
{
    match hmac {
        Some(h) => {
            data.extend_from_slice(h.as_slice());
        },
        None => {
            let mut i: usize = 0;
            while i < 32
                invariant
                    i <= 32,
                    data@ == old(data)@ + Seq::new(i as nat, |k: int| 0u8),
                decreases 32 - i,
            {
                data.push(0);
                i = i + 1;
                assert(data@ =~= old(data)@ + Seq::new(i as nat, |k: int| 0u8));
            }
            assert(data@ =~= old(data)@ + no_hmac());
        },
    }
}

/// The frame that asks the device's dashboard to open the Bitcoin
/// application of a network.
pub fn open_app(network: Network) -> (c: ApduCommand)
    ensures
        c.cla == 0xe0,
        c.ins == 0xd8,
        c.p1 == 0,
        c.p2 == 0,
        c.data@ == if network.is_mainnet() {
            app_name_mainnet()
        } else {
            app_name_test()
        },
{
    let data: Vec<u8> = if network.is_mainnet() {
        vec![0x42, 0x69, 0x74, 0x63, 0x6f, 0x69, 0x6e]
    } else {
        vec![0x42, 0x69, 0x74, 0x63, 0x6f, 0x69, 0x6e, 0x20, 0x54, 0x65, 0x73, 0x74]
    };
    assert(network.is_mainnet() ==> data@ =~= app_name_mainnet());
    assert(!network.is_mainnet() ==> data@ =~= app_name_test());
    ApduCommand { cla: 0xe0, ins: 0xd8, p1: 0x00, p2: 0x00, data }
}

/// The frame that asks for the application's name, version and state flags.
pub fn get_version() -> (c: ApduCommand)
    ensures
        c.cla == Cla::Default.code(),
        c.ins == BitcoinCommandCode::GetVersion.code(),
        c.p1 == 0,
        c.p2 == 0,
        c.data@ == Seq::<u8>::empty(),
{
    ApduCommand {
        cla: Cla::Default.code(),
        ins: BitcoinCommandCode::GetVersion.code(),
        p1: 0x00,
        p2: 0x00,
        data: Vec::new(),
    }
}

/// The frame that asks for the master fingerprint.
pub fn get_master_fingerprint() -> (c: ApduCommand)
    ensures
        c.cla == Cla::Bitcoin.code(),
        c.ins == BitcoinCommandCode::GetMasterFingerprint.code(),
        c.p1 == 0,
        c.p2 == 1,
        c.data@ == Seq::<u8>::empty(),
{
    ApduCommand {
        cla: Cla::Bitcoin.code(),
        ins: BitcoinCommandCode::GetMasterFingerprint.code(),
        p1: 0x00,
        p2: super::apdu::CURRENT_PROTOCOL_VERSION,
        data: Vec::new(),
    }
}

/// The data of a request for an extended public key: the display flag, the
/// number of path components (modulo 256), and each component in four
/// bytes, most significant first.
pub open spec fn extended_pubkey_data(path: Seq<u32>, display: bool) -> Seq<u8> {
    seq![flag(display), (path.len() % 256) as u8] + be32_all(path)
}

/// The frame that asks for the extended public key at a derivation path.
pub fn get_extended_pubkey(path: &DerivationPath, display: bool) -> (c: ApduCommand)
    ensures
        c.cla == Cla::Bitcoin.code(),
        c.ins == BitcoinCommandCode::GetExtendedPubkey.code(),
        c.p1 == 0,
        c.p2 == 1,
        c.data@ == extended_pubkey_data(path@, display),
{
    let child_numbers = path.as_slice();
    let mut data: Vec<u8> = Vec::new();
    data.push(flag_byte(display));
    data.push(crate::bytes::low_byte(child_numbers.len()));
    crate::bytes::push_be32_all(&mut data, child_numbers);
    assert(data@ =~= extended_pubkey_data(path@, display));
    ApduCommand {
        cla: Cla::Bitcoin.code(),
        ins: BitcoinCommandCode::GetExtendedPubkey.code(),
        p1: 0x00,
        p2: super::apdu::CURRENT_PROTOCOL_VERSION,
        data,
    }
}

/// The frame that registers a wallet policy, given in its serialized form.
pub fn register_wallet(policy: &[u8]) -> (c: ApduCommand)
    ensures
        c.cla == Cla::Bitcoin.code(),
        c.ins == BitcoinCommandCode::RegisterWallet.code(),
        c.p1 == 0,
        c.p2 == 1,
        c.data@ == compact_size(policy@.len() as u64) + policy@,
{
    let mut data = var_int(policy.len() as u64);
    data.extend_from_slice(policy);
    ApduCommand {
        cla: Cla::Bitcoin.code(),
        ins: BitcoinCommandCode::RegisterWallet.code(),
        p1: 0x00,
        p2: super::apdu::CURRENT_PROTOCOL_VERSION,
        data,
    }
}

/// The data of a request for a wallet address.
pub open spec fn wallet_address_data(
    policy_id: Seq<u8>,
    hmac: Option<&[u8; 32]>,
    change: bool,
    address_index: u32,
    display: bool,
) -> Seq<u8> {
    seq![flag(display)] + policy_id + hmac_bytes(hmac) + seq![flag(change)] + be32(address_index)
}

/// The frame that asks for an address of the wallet whose policy has the
/// given id.
pub fn get_wallet_address(
    policy_id: &[u8; 32],
    hmac: Option<&[u8; 32]>,
    change: bool,
    address_index: u32,
    display: bool,
) -> (c: ApduCommand)
    ensures
        c.cla == Cla::Bitcoin.code(),
        c.ins == BitcoinCommandCode::GetWalletAddress.code(),
        c.p1 == 0,
        c.p2 == 1,
        c.data@ == wallet_address_data(policy_id@, hmac, change, address_index, display),
{
    let mut data: Vec<u8> = Vec::with_capacity(70);
    data.push(flag_byte(display));
    data.extend_from_slice(policy_id.as_slice());
    push_hmac(&mut data, hmac);
    data.push(flag_byte(change));
    crate::bytes::push_be32(&mut data, address_index);
    assert(data@ =~= wallet_address_data(policy_id@, hmac, change, address_index, display));
    ApduCommand {
        cla: Cla::Bitcoin.code(),
        ins: BitcoinCommandCode::GetWalletAddress.code(),
        p1: 0x00,
        p2: super::apdu::CURRENT_PROTOCOL_VERSION,
        data,
    }
}

/// The data of a request to sign a PSBT.
pub open spec fn sign_psbt_data(
    global_mapping_commitment: Seq<u8>,
    inputs_number: usize,
    input_commitments_root: Seq<u8>,
    outputs_number: usize,
    output_commitments_root: Seq<u8>,
    policy_id: Seq<u8>,
    hmac: Option<&[u8; 32]>,
) -> Seq<u8> {
    global_mapping_commitment + compact_size(inputs_number as u64) + input_commitments_root
        + compact_size(outputs_number as u64) + output_commitments_root + policy_id
        + hmac_bytes(hmac)
}

/// The frame that asks the device to sign a PSBT.
pub fn sign_psbt(
    global_mapping_commitment: &[u8],
    inputs_number: usize,
    input_commitments_root: &[u8; 32],
    outputs_number: usize,
    output_commitments_root: &[u8; 32],
    policy_id: &[u8; 32],
    hmac: Option<&[u8; 32]>,
) -> (c: ApduCommand)
    ensures
        c.cla == Cla::Bitcoin.code(),
        c.ins == BitcoinCommandCode::SignPSBT.code(),
        c.p1 == 0,
        c.p2 == 1,
        c.data@ == sign_psbt_data(
            global_mapping_commitment@,
            inputs_number,
            input_commitments_root@,
            outputs_number,
            output_commitments_root@,
            policy_id@,
            hmac,
        ),
{
    let mut data: Vec<u8> = Vec::new();
    data.extend_from_slice(global_mapping_commitment);
    let inputs = var_int(inputs_number as u64);
    data.extend_from_slice(inputs.as_slice());
    data.extend_from_slice(input_commitments_root.as_slice());
    let outputs = var_int(outputs_number as u64);
    data.extend_from_slice(outputs.as_slice());
    data.extend_from_slice(output_commitments_root.as_slice());
    data.extend_from_slice(policy_id.as_slice());
    push_hmac(&mut data, hmac);
    assert(data@ =~= sign_psbt_data(
        global_mapping_commitment@,
        inputs_number,
        input_commitments_root@,
        outputs_number,
        output_commitments_root@,
        policy_id@,
        hmac,
    ));
    ApduCommand {
        cla: Cla::Bitcoin.code(),
        ins: BitcoinCommandCode::SignPSBT.code(),
        p1: 0x00,
        p2: super::apdu::CURRENT_PROTOCOL_VERSION,
        data,
    }
}

/// The data of a request to sign a message.
pub open spec fn sign_message_data(
    message_length: usize,
    message_commitment_root: Seq<u8>,
    path: Seq<u32>,
) -> Seq<u8> {
    seq![(path.len() % 256) as u8] + be32_all(path) + compact_size(message_length as u64)
        + message_commitment_root
}

/// The frame that asks the device to sign a message with the key at a path.
pub fn sign_message(
    message_length: usize,
    message_commitment_root: &[u8; 32],
    path: &DerivationPath,
) -> (c: ApduCommand)
    ensures
        c.cla == Cla::Bitcoin.code(),
        c.ins == BitcoinCommandCode::SignMessage.code(),
        c.p1 == 0,
        c.p2 == 1,
        c.data@ == sign_message_data(message_length, message_commitment_root@, path@),
{
    let child_numbers = path.as_slice();
    let mut data: Vec<u8> = Vec::new();
    data.push(crate::bytes::low_byte(child_numbers.len()));
    crate::bytes::push_be32_all(&mut data, child_numbers);
    let length = var_int(message_length as u64);
    data.extend_from_slice(length.as_slice());
    data.extend_from_slice(message_commitment_root.as_slice());
    assert(data@ =~= sign_message_data(message_length, message_commitment_root@, path@));
    ApduCommand {
        cla: Cla::Bitcoin.code(),
        ins: BitcoinCommandCode::SignMessage.code(),
        p1: 0x00,
        p2: super::apdu::CURRENT_PROTOCOL_VERSION,
        data,
    }
}

/// The frame that carries the host's answer to an interrupted command.
pub fn continue_interrupted(data: Vec<u8>) -> (c: ApduCommand)
    ensures
        c.cla == Cla::Framework.code(),
        c.ins == FrameworkCommandCode::ContinueInterrupted.code(),
        c.p1 == 0,
        c.p2 == 1,
        c.data == data,
{
    ApduCommand {
        cla: Cla::Framework.code(),
        ins: FrameworkCommandCode::ContinueInterrupted.code(),
        p1: 0x00,
        p2: super::apdu::CURRENT_PROTOCOL_VERSION,
        data,
    }
}

} // verus!
