//! Derivation paths, fingerprints and extended public keys, held as the
//! plain values that the interpreters read. Parsing, rendering and hashing
//! are done by the `bitcoin` crate.

use vstd::prelude::*;
use vstd::string::StringSliceAdditionalSpecFns;

verus! {

/// The bit that marks a hardened child number.
pub const HARDENED: u32 = 0x8000_0000;

/// The length of a serialized extended key.
pub const XPUB_LEN: usize = 78;

/// The first four bytes of the HASH160 of a public key.
#[derive(Copy, Clone, Debug, PartialEq, Eq)]
pub struct Fingerprint {
    pub bytes: [u8; 4],
}

impl View for Fingerprint {
    type V = Seq<u8>;

    open spec fn view(&self) -> Seq<u8> {
        self.bytes@
    }
}

impl Fingerprint {
    pub fn new(bytes: [u8; 4]) -> (f: Fingerprint)
        ensures
            f@ == bytes@,
            f.bytes == bytes,
    {
        Fingerprint { bytes }
    }

    pub fn to_bytes(&self) -> (bytes: [u8; 4])
        ensures
            bytes@ == self@,
    {
        self.bytes
    }
}

/// What `bitcoin::bip32::DerivationPath::from_str` makes of a text: the
/// child numbers, hardened ones with their high bit set, or nothing where it
/// refuses the text.
pub uninterp spec fn derivation_path_parsing(text: Seq<char>) -> Option<Seq<u32>>;

/// A number in decimal digits.
pub open spec fn decimal_text(n: nat) -> Seq<char>
    decreases n,
{
    if n < 10 {
        seq![(0x30 + n) as char]
    } else {
        decimal_text(n / 10) + seq![(0x30 + n % 10) as char]
    }
}

/// A child number as text: its index in decimal digits, followed by an
/// apostrophe where it is hardened.
pub open spec fn child_number_text(number: u32) -> Seq<char> {
    if number >= HARDENED {
        decimal_text((number - HARDENED) as nat) + seq!['\'']
    } else {
        decimal_text(number as nat)
    }
}

/// A path as text: its child numbers with a slash between them. The text
/// of the master key's path is empty.
pub open spec fn derivation_path_text(components: Seq<u32>) -> Seq<char>
    decreases components.len(),
{
    if components.len() == 0 {
        Seq::<char>::empty()
    } else if components.len() == 1 {
        child_number_text(components[0])
    } else {
        derivation_path_text(components.drop_last()) + seq!['/'] + child_number_text(
            components.last(),
        )
    }
}

/// What `bitcoin::bip32::Xpub::from_str` makes of a text given as bytes: the
/// 78-byte serialization of the key, or the message of the error (of the
/// UTF-8 check or of the key's decoding).
pub uninterp spec fn xpub_parsing(text: Seq<u8>) -> Result<Seq<u8>, Seq<char>>;

/// The Base58Check text of a byte string, as `bitcoin::base58::encode_check`
/// gives it.
pub uninterp spec fn base58check_text(data: Seq<u8>) -> Seq<char>;

/// The 20-byte HASH160 (RIPEMD-160 of SHA-256) of a byte string.
pub uninterp spec fn hash160(data: Seq<u8>) -> Seq<u8>;

pub open spec fn view_of(r: Option<Vec<u32>>) -> Option<Seq<u32>> {
    match r {
        Some(v) => Some(v@),
        None => None,
    }
}

/// Calls `bitcoin::bip32::DerivationPath::from_str` and hands out the child
/// numbers as `to_u32_vec` gives them. The result is the named parsing of
/// the text.
#[verifier::external_body]
fn parse_path(text: &str) -> (r: Option<Vec<u32>>)
    ensures
        view_of(r) == derivation_path_parsing(text@),
{
    text.parse::<bitcoin::bip32::DerivationPath>().ok().map(|p| p.to_u32_vec())
}

/// Builds a `bitcoin::bip32::DerivationPath` from child numbers and renders
/// it with `to_string`: each child number's index in decimal digits, an
/// apostrophe behind a hardened one, and slashes between them.
#[verifier::external_body]
fn render_path(components: &Vec<u32>) -> (r: String)
    ensures
        r@ == derivation_path_text(components@),
{
    let numbers: Vec<bitcoin::bip32::ChildNumber> = components.iter().map(
        |c| bitcoin::bip32::ChildNumber::from(*c),
    ).collect();
    bitcoin::bip32::DerivationPath::from(numbers).to_string()
}

/// Checks that the bytes are UTF-8, calls `bitcoin::bip32::Xpub::from_str`
/// on them and hands out the key's `encode()`, or the failing step's error
/// rendered with `to_string`. The result is the named parsing of the bytes.
#[verifier::external_body]
fn parse_xpub(text: &[u8]) -> (r: Result<[u8; 78], String>)
    ensures
        match r {
            Ok(encoded) => xpub_parsing(text@) == Ok::<Seq<u8>, Seq<char>>(encoded@),
            Err(message) => xpub_parsing(text@) == Err::<Seq<u8>, Seq<char>>(message@),
        },
{
    let s = std::str::from_utf8(text).map_err(|e| e.to_string())?;
    let xpub = s.parse::<bitcoin::bip32::Xpub>().map_err(|e| e.to_string())?;
    Ok(xpub.encode())
}

/// Calls `bitcoin::base58::encode_check`. The result is the named text.
#[verifier::external_body]
fn render_base58check(data: &[u8]) -> (r: String)
    ensures
        r@ == base58check_text(data@),
{
    bitcoin::base58::encode_check(data)
}

/// Calls `bitcoin::hashes::hash160::Hash::hash`. The result is the named
/// hash, of 20 bytes.
#[verifier::external_body]
fn hash160_of(data: &[u8]) -> (r: [u8; 20])
    ensures
        r@ == hash160(data@),
{
    let hash: bitcoin::hashes::hash160::Hash = bitcoin::hashes::Hash::hash(data);
    bitcoin::hashes::Hash::to_byte_array(hash)
}

/// A BIP-32 derivation path: the child numbers from the master key down,
/// hardened ones with their high bit set. The empty path is the master key.
#[derive(Clone, Debug, PartialEq, Eq)]
pub struct DerivationPath {
    components: Vec<u32>,
}

impl View for DerivationPath {
    type V = Seq<u32>;

    closed spec fn view(&self) -> Seq<u32> {
        self.components@
    }
}

impl DerivationPath {
    /// The path of the master key.
    pub fn master() -> (p: DerivationPath)
        ensures
            p@ == Seq::<u32>::empty(),
    {
        DerivationPath { components: Vec::new() }
    }

    pub fn from_u32_vec(components: Vec<u32>) -> (p: DerivationPath)
        ensures
            p@ == components@,
    {
        DerivationPath { components }
    }

    /// Parses a path such as `m/48'/1'/0'/2'`.
    pub fn from_str(text: &str) -> (r: Option<DerivationPath>)
        ensures
            match r {
                Some(p) => derivation_path_parsing(text@) == Some(p@),
                None => derivation_path_parsing(text@) is None,
            },
    {
        match parse_path(text) {
            Some(components) => Some(DerivationPath { components }),
            None => None,
        }
    }

    pub fn is_master(&self) -> (b: bool)
        ensures
            b == (self@.len() == 0),
    {
        self.components.len() == 0
    }

    pub fn len(&self) -> (n: usize)
        ensures
            n == self@.len(),
    {
        self.components.len()
    }

    pub fn as_slice(&self) -> (s: &[u32])
        ensures
            s@ == self@,
    {
        self.components.as_slice()
    }

    pub fn to_u32_vec(&self) -> (v: Vec<u32>)
        ensures
            v@ == self@,
    {
        let mut v: Vec<u32> = Vec::new();
        let mut i: usize = 0;
        while i < self.components.len()
            invariant
                i <= self.components@.len(),
                v@ == self.components@.take(i as int),
            decreases self.components@.len() - i,
        {
            v.push(self.components[i]);
            i = i + 1;
            assert(v@ =~= self.components@.take(i as int));
        }
        assert(v@ =~= self.components@);
        v
    }

    /// The path without the leading `m/`, such as `48'/1'/0'/2'`.
    pub fn to_string(&self) -> (s: String)
        ensures
            s@ == derivation_path_text(self@),
    {
        render_path(&self.components)
    }
}

/// An extended public key, held as its 78-byte BIP-32 serialization.
#[derive(Copy, Clone, Debug, PartialEq, Eq)]
pub struct Xpub {
    encoded: [u8; 78],
}

impl View for Xpub {
    type V = Seq<u8>;

    closed spec fn view(&self) -> Seq<u8> {
        self.encoded@
    }
}

/// The fingerprint of a serialized extended public key: the first four
/// bytes of the HASH160 of its public key, which is its last 33 bytes.
pub open spec fn fingerprint_of(encoded: Seq<u8>) -> Seq<u8> {
    hash160(encoded.subrange(45, 78)).take(4)
}

impl Xpub {
    /// A serialization has 78 bytes.
    pub proof fn lemma_len(&self)
        ensures
            self@.len() == XPUB_LEN,
    {
    }

    /// The key whose serialization is given.
    pub fn from_encoded(encoded: [u8; 78]) -> (x: Xpub)
        ensures
            x@ == encoded@,
    {
        Xpub { encoded }
    }

    /// Parses the Base58Check text of a key, given as bytes.
    pub fn from_ascii(text: &[u8]) -> (r: Result<Xpub, String>)
        ensures
            match r {
                Ok(x) => xpub_parsing(text@) == Ok::<Seq<u8>, Seq<char>>(x@) && x@.len()
                    == XPUB_LEN,
                Err(message) => xpub_parsing(text@) == Err::<Seq<u8>, Seq<char>>(message@),
            },
    {
        match parse_xpub(text) {
            Ok(encoded) => Ok(Xpub { encoded }),
            Err(message) => Err(message),
        }
    }

    /// Parses the Base58Check text of a key.
    pub fn from_str(text: &str) -> (r: Result<Xpub, String>)
        ensures
            match r {
                Ok(x) => xpub_parsing(text.spec_bytes()) == Ok::<Seq<u8>, Seq<char>>(x@)
                    && x@.len() == XPUB_LEN,
                Err(message) => xpub_parsing(text.spec_bytes()) == Err::<Seq<u8>, Seq<char>>(
                    message@,
                ),
            },
    {
        Self::from_ascii(text.as_bytes())
    }

    /// The 78-byte serialization.
    pub fn encode(&self) -> (bytes: Vec<u8>)
        ensures
            bytes@ == self@,
            bytes@.len() == XPUB_LEN,
    {
        crate::bytes::copy_range(self.encoded.as_slice(), 0, 78)
    }

    pub fn fingerprint(&self) -> (f: Fingerprint)
        ensures
            f@ == fingerprint_of(self@),
    {
        let key = vstd::slice::slice_subrange(self.encoded.as_slice(), 45, 78);
        let hash = hash160_of(key);
        let bytes: [u8; 4] = [hash[0], hash[1], hash[2], hash[3]];
        assert(bytes@ =~= hash@.take(4));
        Fingerprint { bytes }
    }

    /// The Base58Check text of the key.
    pub fn to_string(&self) -> (s: String)
        ensures
            s@ == base58check_text(self@),
    {
        render_base58check(self.encoded.as_slice())
    }
}

} // verus!
