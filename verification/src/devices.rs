//! What is known of the devices on a machine before any command runs: how
//! they are told apart by their USB ids, and how one is picked.

use crate::bip32::Fingerprint;
use crate::coldcard::hid::COLDCARD_VID;
use crate::ledger::hid::LEDGER_VID;
use vstd::prelude::*;
use vstd::string::StringSliceAdditionalSpecFns;

verus! {

/// A device as the enumeration found it.
#[derive(Debug)]
pub struct DeviceInfo {
    pub device_type: String,
    pub path: String,
    pub vid: Option<u16>,
    pub pid: Option<u16>,
}

/// A stand-in for a device that was found but is not driven.
#[derive(Debug)]
pub struct MockDevice {
    pub info: DeviceInfo,
}

/// An HTTP client that asks no server.
#[derive(Debug)]
pub struct SimpleHttpClient;

impl SimpleHttpClient {
    pub fn new() -> SimpleHttpClient {
        SimpleHttpClient
    }
}

/// The kind of device that shows itself on HID under a vendor id.
pub open spec fn spec_hid_device_type(vid: u16) -> Option<&'static str> {
    if vid == LEDGER_VID {
        Some("Ledger")
    } else if vid == COLDCARD_VID {
        Some("Coldcard")
    } else {
        None
    }
}

/// Tells a Ledger and a Coldcard by the vendor id of a HID device.
pub fn hid_device_type(vid: u16) -> (r: Option<&'static str>)
    ensures
        r == spec_hid_device_type(vid),
{
    if vid == LEDGER_VID {
        Some("Ledger")
    } else if vid == COLDCARD_VID {
        Some("Coldcard")
    } else {
        None
    }
}

/// Whether a USB serial port with these vendor and product ids is one of
/// the bridges that a Jade is built with.
pub open spec fn spec_is_jade(vid: u16, pid: u16) -> bool {
    ||| (vid == 0x10c4 && pid == 0xea60)
    ||| (vid == 0x1a86 && pid == 0x55d4)
    ||| (vid == 0x0403 && pid == 0x6001)
    ||| (vid == 0x1a86 && pid == 0x7523)
    ||| (vid == 0x303a && pid == 0x4001)
    ||| (vid == 0x303a && pid == 0x1001)
}

/// Tells a Jade by the ids of a USB serial port.
pub fn is_jade(vid: u16, pid: u16) -> (r: bool)
    ensures
        r == spec_is_jade(vid, pid),
{
    (vid == 0x10c4 && pid == 0xea60) || (vid == 0x1a86 && pid == 0x55d4) || (vid == 0x0403 && pid
        == 0x6001) || (vid == 0x1a86 && pid == 0x7523) || (vid == 0x303a && pid == 0x4001) || (vid
        == 0x303a && pid == 0x1001)
}

fn is_named(device_type: &str, name: &str) -> (r: bool)
    ensures
        r == (device_type.spec_bytes() == name.spec_bytes()),
{
    let a = device_type.as_bytes();
    let b = name.as_bytes();
    if a.len() != b.len() {
        return false;
    }
    let r = crate::bytes::starts_with(a, b);
    assert(a@.subrange(0, b@.len() as int) =~= a@);
    r
}

/// The fingerprint that a stand-in of a kind answers with.
pub open spec fn spec_mock_fingerprint(device_type: Seq<u8>) -> Seq<u8> {
    if device_type == "Ledger".spec_bytes() {
        seq![0x12, 0x34, 0x56, 0x78]
    } else if device_type == "Coldcard".spec_bytes() {
        seq![0xAB, 0xCD, 0xEF, 0x01]
    } else if device_type == "Jade".spec_bytes() {
        seq![0x98, 0x76, 0x54, 0x32]
    } else {
        seq![0x00, 0x00, 0x00, 0x00]
    }
}

impl MockDevice {
    /// The fingerprint that the stand-in answers with: one for each kind of
    /// device, zeros for an unknown kind.
    pub fn get_master_fingerprint(&self) -> (f: Fingerprint)
        ensures
            f@ == spec_mock_fingerprint(vstd::utf8::encode_utf8(self.info.device_type@)),
    {
        let device_type = self.info.device_type.as_str();
        let bytes: [u8; 4] = if is_named(device_type, "Ledger") {
            [0x12, 0x34, 0x56, 0x78]
        } else if is_named(device_type, "Coldcard") {
            [0xAB, 0xCD, 0xEF, 0x01]
        } else if is_named(device_type, "Jade") {
            [0x98, 0x76, 0x54, 0x32]
        } else {
            [0x00, 0x00, 0x00, 0x00]
        };
        assert(bytes@ =~= spec_mock_fingerprint(device_type.spec_bytes()));
        Fingerprint::new(bytes)
    }
}

/// Whether a device is the one looked for: any device where no fingerprint
/// is asked for, else the one that answers with that fingerprint. A device
/// that does not answer is passed over.
pub open spec fn spec_selects(target: Option<Fingerprint>, answer: Option<Fingerprint>) -> bool {
    match target {
        None => true,
        Some(wanted) => match answer {
            Some(found) => found@ == wanted@,
            None => false,
        },
    }
}

/// Decides whether a device is the one looked for, from its answer to the
/// request for its master fingerprint.
pub fn selects(target: Option<Fingerprint>, answer: Option<Fingerprint>) -> (r: bool)
    ensures
        r == spec_selects(target, answer),
{
    match target {
        None => true,
        Some(wanted) => match answer {
            Some(found) => {
                let a = wanted.to_bytes();
                let b = found.to_bytes();
                let same = a[0] == b[0] && a[1] == b[1] && a[2] == b[2] && a[3] == b[3];
                if same {
                    assert(found@ =~= wanted@);
                }
                same
            },
            None => false,
        },
    }
}

} // verus!
