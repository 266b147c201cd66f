//! The replies of a Coldcard, read from their bytes.

use crate::bip32::{xpub_parsing, Fingerprint, Xpub};
use crate::bytes::le32_value;
use crate::coldcard::{ColdcardError, ColdcardErrorView, ColdcardResponse, ColdcardResponseView};
use vstd::prelude::*;

verus! {

/// ASCII `asci`.
pub open spec fn tag_asci() -> Seq<u8> {
    seq![0x61, 0x73, 0x63, 0x69]
}

/// ASCII `mypb`.
pub open spec fn tag_mypb() -> Seq<u8> {
    seq![0x6d, 0x79, 0x70, 0x62]
}

/// The text that reports a reply with another tag than the one awaited:
/// the tag and the rest, each as text where it is UTF-8 and else as a list
/// of numbers, as `format!` renders them.
pub uninterp spec fn unexpected_reply_text(command: Seq<u8>, data: Seq<u8>) -> Seq<char>;

/// Renders a reply's tag and data for an error message with `format!`: the
/// tag with `{:?}` and the data with `{}`, each as a `String` where
/// `String::from_utf8` accepts it and else as the `{:?}` of its bytes. The
/// result is the named text.
#[verifier::external_body]
fn describe(command: &[u8], data: &[u8]) -> (r: String)
    ensures
        r@ == unexpected_reply_text(command@, data@),
{
    format!(
        "command: {:?}, data: {}",
        String::from_utf8(command.to_vec()).unwrap_or_else(|_| format!("{:?}", command)),
        String::from_utf8(data.to_vec()).unwrap_or_else(|_| format!("{:?}", data))
    )
}

/// A byte string cut in two at `mid`, where it is that long.
pub open spec fn spec_split(bytes: Seq<u8>, mid: int) -> Result<
    (Seq<u8>, Seq<u8>),
    ColdcardErrorView,
> {
    if bytes.len() < mid {
        Err(ColdcardErrorView::Serialization("unexpected slice length"@))
    } else {
        Ok((bytes.take(mid), bytes.skip(mid)))
    }
}

/// Splits a slice at `mid`; a slice shorter than `mid` is an error.
pub fn split(bytes: &[u8], mid: usize) -> (r: Result<(&[u8], &[u8]), ColdcardError>)
    ensures
        match spec_split(bytes@, mid as int) {
            Ok((head, tail)) => r matches Ok((h, t)) && h@ == head && t@ == tail,
            Err(e) => r matches Err(f) && f@ == e,
        },
{
    if bytes.len() < mid {
        Err(ColdcardError::Serialization("unexpected slice length".to_string()))
    } else {
        let head = vstd::slice::slice_subrange(bytes, 0, mid);
        let tail = vstd::slice::slice_subrange(bytes, mid, bytes.len());
        Ok((head, tail))
    }
}

/// The number that a slice of exactly four bytes holds, least significant
/// byte first.
pub open spec fn spec_decode_u32(bytes: Option<Seq<u8>>) -> Result<u32, ColdcardErrorView> {
    match bytes {
        Some(b) => if b.len() == 4 {
            Ok(le32_value(b) as u32)
        } else {
            Err(ColdcardErrorView::Serialization("u32"@))
        },
        None => Err(ColdcardErrorView::Serialization("u32"@)),
    }
}

pub open spec fn slice_view(bytes: Option<&[u8]>) -> Option<Seq<u8>> {
    match bytes {
        Some(b) => Some(b@),
        None => None,
    }
}

/// Decodes a slice of four bytes, if there is one, into a `u32`.
pub fn decode_u32(bytes: Option<&[u8]>) -> (r: Result<u32, ColdcardError>)
    ensures
        match spec_decode_u32(slice_view(bytes)) {
            Ok(n) => r matches Ok(m) && m == n,
            Err(e) => r matches Err(f) && f@ == e,
        },
{
    match bytes {
        Some(b) => {
            if b.len() == 4 {
                assert(b@.subrange(0, 4) =~= b@);
                Ok(crate::bytes::read_le32(b, 0))
            } else {
                Err(ColdcardError::Serialization("u32".to_string()))
            }
        },
        None => Err(ColdcardError::Serialization("u32".to_string())),
    }
}

/// What a reply to a request for an extended public key holds: after the
/// tag `asci`, the key's text. A reply under four bytes is too short; one
/// with another tag is reported with its content.
pub open spec fn xpub_meaning(res: Seq<u8>) -> Result<Seq<u8>, ColdcardErrorView> {
    if res.len() < 4 {
        Err(ColdcardErrorView::Serialization("unexpected slice length"@))
    } else if res.take(4) == tag_asci() {
        match xpub_parsing(res.skip(4)) {
            Ok(encoded) => Ok(encoded),
            Err(message) => Err(ColdcardErrorView::Serialization(message)),
        }
    } else {
        Err(ColdcardErrorView::Serialization(unexpected_reply_text(res.take(4), res.skip(4))))
    }
}

fn has_tag(command: &[u8], a: u8, b: u8, c: u8, d: u8) -> (r: bool)
    requires
        command@.len() == 4,
    ensures
        r == (command@ == seq![a, b, c, d]),
{
    let r = command[0] == a && command[1] == b && command[2] == c && command[3] == d;
    if r {
        assert(command@ =~= seq![a, b, c, d]);
    } else {
        assert(seq![a, b, c, d][0] == a);
        assert(seq![a, b, c, d][1] == b);
        assert(seq![a, b, c, d][2] == c);
        assert(seq![a, b, c, d][3] == d);
    }
    r
}

/// Reads the reply to a request for an extended public key.
pub fn xpub(res: Vec<u8>) -> (r: Result<Xpub, ColdcardError>)
    ensures
        match xpub_meaning(res@) {
            Ok(encoded) => r matches Ok(x) && x@ == encoded,
            Err(e) => r matches Err(f) && f@ == e,
        },
{
    let (command, data) = match split(res.as_slice(), 4) {
        Ok(parts) => parts,
        Err(e) => {
            return Err(e);
        },
    };
    if has_tag(command, 0x61, 0x73, 0x63, 0x69) {
        match Xpub::from_ascii(data) {
            Ok(x) => Ok(x),
            Err(message) => Err(ColdcardError::Serialization(message)),
        }
    } else {
        Err(ColdcardError::Serialization(describe(command, data)))
    }
}

/// The extended public key that may follow the fingerprint in the device's
/// greeting: none where the announced length is zero or more than what
/// follows.
pub open spec fn greeting_xpub(rest: Seq<u8>, xpub_len: int) -> Result<
    Option<Seq<u8>>,
    ColdcardErrorView,
> {
    if xpub_len > 0 && 8 + xpub_len <= rest.len() {
        match xpub_parsing(rest.subrange(8, 8 + xpub_len)) {
            Ok(encoded) => Ok(Some(encoded)),
            Err(message) => Err(ColdcardErrorView::Serialization(message)),
        }
    } else {
        Ok(None)
    }
}

/// What the device's greeting holds: after the tag `mypb`, the device's
/// public key (64 bytes), the fingerprint of its master key (4 bytes), the
/// length of the text of its master extended public key (4 bytes, least
/// significant first) and, where that length is not zero, the text.
pub open spec fn mypub_meaning(res: Seq<u8>) -> Result<ColdcardResponseView, ColdcardErrorView> {
    if res.len() < 4 {
        Err(ColdcardErrorView::Serialization("unexpected slice length"@))
    } else if res.take(4) != tag_mypb() {
        Err(ColdcardErrorView::Serialization("Wrong xpub response"@))
    } else if res.len() < 68 {
        Err(ColdcardErrorView::Serialization("unexpected slice length"@))
    } else {
        let rest = res.skip(68);
        if rest.len() < 4 {
            Err(ColdcardErrorView::Serialization("xfp wants 4 bytes"@))
        } else if rest.len() < 8 {
            Err(ColdcardErrorView::Serialization("u32"@))
        } else {
            match greeting_xpub(rest, le32_value(rest.subrange(4, 8))) {
                Ok(xpub) => Ok(
                    ColdcardResponseView::MyPub {
                        encryption_key: res.subrange(4, 68),
                        xpub_fingerprint: rest.take(4),
                        xpub,
                    },
                ),
                Err(e) => Err(e),
            }
        }
    }
}

/// Reads the device's greeting, the reply to the request that opens an
/// encrypted session.
pub fn mypub(res: Vec<u8>) -> (r: Result<ColdcardResponse, ColdcardError>)
    ensures
        match mypub_meaning(res@) {
            Ok(response) => r matches Ok(x) && x@ == response,
            Err(e) => r matches Err(f) && f@ == e,
        },
{
    let (command, data) = match split(res.as_slice(), 4) {
        Ok(parts) => parts,
        Err(e) => {
            return Err(e);
        },
    };
    if !has_tag(command, 0x6d, 0x79, 0x70, 0x62) {
        return Err(ColdcardError::Serialization("Wrong xpub response".to_string()));
    }
    let (dev_pubkey, data) = match split(data, 64) {
        Ok(parts) => parts,
        Err(e) => {
            return Err(e);
        },
    };
    assert(dev_pubkey@ =~= res@.subrange(4, 68));
    assert(data@ =~= res@.skip(68));
    let mut encryption_key: [u8; 64] = [0u8; 64];
    let mut i: usize = 0;
    while i < 64
        invariant
            i <= 64,
            dev_pubkey@.len() == 64,
            forall|k: int| 0 <= k < i ==> encryption_key@[k] == dev_pubkey@[k],
        decreases 64 - i,
    {
        encryption_key[i] = dev_pubkey[i];
        i = i + 1;
    }
    assert(encryption_key@ =~= dev_pubkey@);
    if data.len() < 4 {
        return Err(ColdcardError::Serialization("xfp wants 4 bytes".to_string()));
    }
    let xfp: [u8; 4] = [data[0], data[1], data[2], data[3]];
    assert(xfp@ =~= data@.take(4));
    let length_bytes: Option<&[u8]> = if data.len() >= 8 {
        Some(vstd::slice::slice_subrange(data, 4, 8))
    } else {
        None
    };
    let xpub_len = match decode_u32(length_bytes) {
        Ok(n) => n as usize,
        Err(e) => {
            return Err(e);
        },
    };
    let xpub = if xpub_len > 0 && xpub_len <= data.len() - 8 {
        let text = vstd::slice::slice_subrange(data, 8, 8 + xpub_len);
        match Xpub::from_ascii(text) {
            Ok(x) => Some(x),
            Err(message) => {
                return Err(ColdcardError::Serialization(message));
            },
        }
    } else {
        None
    };
    Ok(
        ColdcardResponse::MyPub {
            encryption_key,
            xpub_fingerprint: Fingerprint::new(xfp),
            xpub,
        },
    )
}

} // verus!
