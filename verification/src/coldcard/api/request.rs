//! The requests that a Coldcard understands, as the bytes to send.

use crate::bip32::{derivation_path_text, DerivationPath};
use crate::bytes::le32;
use vstd::prelude::*;
use vstd::utf8::encode_utf8;

verus! {

/// ASCII `ncry`.
pub open spec fn tag_ncry() -> Seq<u8> {
    seq![0x6e, 0x63, 0x72, 0x79]
}

/// ASCII `xpubm`.
pub open spec fn tag_xpubm() -> Seq<u8> {
    seq![0x78, 0x70, 0x75, 0x62, 0x6d]
}

/// The request that opens an encrypted session: `ncry`, the protocol
/// version in four bytes, least significant first (1 where none is given),
/// and the host's public key.
pub open spec fn spec_start_encryption(version: Option<u32>, key: Seq<u8>) -> Seq<u8> {
    tag_ncry() + le32(
        match version {
            Some(v) => v,
            None => 1,
        },
    ) + key
}

/// The request for the extended public key at a path: `xpubm` for the
/// master key, else `xpubm/` and the path's text.
pub open spec fn spec_get_xpub(path: Seq<u32>) -> Seq<u8> {
    if path.len() == 0 {
        tag_xpubm()
    } else {
        tag_xpubm() + seq![0x2fu8] + encode_utf8(derivation_path_text(path))
    }
}

pub fn start_encryption(version: Option<u32>, key: &[u8; 64]) -> (data: Vec<u8>)
    ensures
        data@ == spec_start_encryption(version, key@),
{
    let mut data: Vec<u8> = vec![0x6e, 0x63, 0x72, 0x79];
    let v = match version {
        Some(v) => v,
        None => 1,
    };
    crate::bytes::push_le32(&mut data, v);
    data.extend_from_slice(key.as_slice());
    assert(data@ =~= spec_start_encryption(version, key@));
    data
}

pub fn get_xpub(path: &DerivationPath) -> (data: Vec<u8>)
    ensures
        data@ == spec_get_xpub(path@),
{
    let mut data: Vec<u8> = vec![0x78, 0x70, 0x75, 0x62, 0x6d];
    if path.is_master() {
        assert(data@ =~= tag_xpubm());
    } else {
        data.push(0x2f);
        let text = path.to_string();
        data.extend_from_slice(text.as_str().as_bytes());
        assert(data@ =~= spec_get_xpub(path@));
    }
    data
}

} // verus!
