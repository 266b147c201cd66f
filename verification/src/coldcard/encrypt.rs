//! The encrypted session with a Coldcard: a key agreed by ECDH on
//! secp256k1, hashed with SHA-256, and used for AES-256 in counter mode,
//! one keystream for each direction.
//!
//! The engine holds plain values: the secret key as 32 bytes, the session
//! key as 32 bytes, and the place in each keystream as a count of bytes.
//! The curve, the hash and the cipher are those of the `k256`, `bitcoin`
//! and `aes`/`ctr` crates.

use super::ColdcardError;
use aes::cipher::{KeyIvInit, StreamCipher, StreamCipherSeek};
use k256::elliptic_curve::sec1::ToEncodedPoint;
use vstd::prelude::*;

verus! {

/// The public key of a secret key on secp256k1, as the 64 bytes of its
/// uncompressed SEC1 encoding after the leading `0x04`; nothing where the
/// 32 bytes are no secret key (zero, or not below the group's order).
pub uninterp spec fn secp256k1_public_key(secret: Seq<u8>) -> Option<Seq<u8>>;

/// Whether a byte string is the SEC1 encoding of a point that
/// `k256::PublicKey::from_sec1_bytes` accepts as a public key.
pub uninterp spec fn secp256k1_sec1_valid(sec1: Seq<u8>) -> bool;

/// The product of a public key, given in SEC1 encoding, with a secret key,
/// as the 65 bytes of its uncompressed SEC1 encoding; nothing where either
/// key is refused or the product is the point at infinity.
pub uninterp spec fn secp256k1_shared_point(secret: Seq<u8>, sec1: Seq<u8>) -> Option<Seq<u8>>;

/// The 32-byte SHA-256 hash of a byte string.
pub uninterp spec fn sha256(data: Seq<u8>) -> Seq<u8>;

/// Byte `index` of the keystream of AES-256 in counter mode with a 64-bit
/// big-endian counter and an all-zero nonce, under a 32-byte key.
pub uninterp spec fn aes256_ctr_keystream(key: Seq<u8>, index: int) -> u8;

/// Makes a `k256::SecretKey` of the bytes with `from_slice` and hands out
/// its `public_key()` in uncompressed encoding without the first byte. The
/// result is the named public key.
#[verifier::external_body]
fn public_key_of(secret: &[u8; 32]) -> (r: Option<[u8; 64]>)
    ensures
        match r {
            Some(key) => secp256k1_public_key(secret@) == Some(key@),
            None => secp256k1_public_key(secret@) is None,
        },
{
    let key = k256::SecretKey::from_slice(secret).ok()?;
    let point = key.public_key().to_encoded_point(false);
    point.as_bytes()[1..].try_into().ok()
}

/// Calls `k256::PublicKey::from_sec1_bytes` and says whether it accepted
/// the bytes.
#[verifier::external_body]
fn sec1_valid(sec1: &[u8]) -> (r: bool)
    ensures
        r == secp256k1_sec1_valid(sec1@),
{
    k256::PublicKey::from_sec1_bytes(sec1).is_ok()
}

/// Multiplies the point of a `k256::PublicKey` by the scalar of a
/// `k256::SecretKey`, makes a public key of the product with `from_affine`
/// and hands out its uncompressed encoding. The result is the named shared
/// point; an uncompressed encoding has 65 bytes.
#[verifier::external_body]
fn shared_point(secret: &[u8; 32], sec1: &[u8]) -> (r: Option<Vec<u8>>)
    ensures
        match r {
            Some(point) => secp256k1_shared_point(secret@, sec1@) == Some(point@) && point@.len()
                == 65,
            None => secp256k1_shared_point(secret@, sec1@) is None,
        },
{
    let sk = k256::SecretKey::from_slice(secret).ok()?;
    let pk = k256::PublicKey::from_sec1_bytes(sec1).ok()?;
    let product = (*pk.as_affine() * *sk.to_nonzero_scalar()).to_affine();
    let tweaked = k256::PublicKey::from_affine(product).ok()?;
    Some(tweaked.to_encoded_point(false).as_bytes().to_vec())
}

/// Calls `bitcoin::hashes::sha256::Hash::hash`. The result is the named
/// hash.
#[verifier::external_body]
fn sha256_of(data: &[u8]) -> (r: [u8; 32])
    ensures
        r@ == sha256(data@),
{
    let hash: bitcoin::hashes::sha256::Hash = bitcoin::hashes::Hash::hash(data);
    bitcoin::hashes::Hash::to_byte_array(hash)
}

/// Makes a `ctr::Ctr64BE<aes::Aes256>` of the key and a zero nonce, moves
/// it to a place in its keystream with `seek` and calls `apply_keystream`
/// on the data. Each byte of the result is the byte of the data, XORed with
/// the keystream's byte at its place.
#[verifier::external_body]
fn apply_keystream(key: &[u8; 32], position: u64, data: Vec<u8>) -> (r: Vec<u8>)
    ensures
        r@.len() == data@.len(),
        forall|i: int|
            0 <= i < data@.len() ==> #[trigger] r@[i] == data@[i] ^ aes256_ctr_keystream(
                key@,
                position + i,
            ),
{
    let mut data = data;
    let mut cipher = ctr::Ctr64BE::<aes::Aes256>::new(key.into(), &[0u8; 16].into());
    cipher.seek(position);
    cipher.apply_keystream(&mut data);
    data
}

/// A byte string XORed with the keystream of a key from a place on.
pub open spec fn keystream_xor(key: Seq<u8>, position: int, data: Seq<u8>) -> Seq<u8> {
    Seq::new(data.len(), |i: int| data[i] ^ aes256_ctr_keystream(key, position + i))
}

/// A public key of 64 bytes in uncompressed SEC1 encoding.
pub open spec fn sec1_uncompressed(public_key: Seq<u8>) -> Seq<u8> {
    seq![0x04u8] + public_key
}

/// The session key of a secret key and another party's public key: the
/// SHA-256 hash of the shared point's uncompressed encoding without its
/// first byte.
pub open spec fn spec_session_key(secret: Seq<u8>, public_key: Seq<u8>) -> Option<Seq<u8>> {
    match secp256k1_shared_point(secret, sec1_uncompressed(public_key)) {
        Some(point) => Some(sha256(point.skip(1))),
        None => None,
    }
}

fn prefixed(public_key: &[u8; 64]) -> (sec1: Vec<u8>)
    ensures
        sec1@ == sec1_uncompressed(public_key@),
{
    let mut sec1: Vec<u8> = Vec::new();
    sec1.push(0x04);
    sec1.extend_from_slice(public_key.as_slice());
    assert(sec1@ =~= sec1_uncompressed(public_key@));
    sec1
}

/// The session key that a secret key and another party's public key agree
/// on. There is none where either key is refused.
pub fn session_key(secret_key: &[u8; 32], public_key: &[u8; 64]) -> (r: Result<
    [u8; 32],
    ColdcardError,
>)
    ensures
        match spec_session_key(secret_key@, public_key@) {
            Some(key) => r matches Ok(k) && k@ == key,
            None => r == Err::<[u8; 32], ColdcardError>(ColdcardError::Encryption("session_key")),
        },
{
    let sec1 = prefixed(public_key);
    match shared_point(secret_key, sec1.as_slice()) {
        Some(point) => {
            let tail = vstd::slice::slice_subrange(point.as_slice(), 1, 65);
            assert(tail@ =~= point@.skip(1));
            Ok(sha256_of(tail))
        },
        None => Err(ColdcardError::Encryption("session_key")),
    }
}

/// The host's side of the session. A new engine has only its secret key.
/// Once the device's public key is known the engine is ready: it holds the
/// session key and how many bytes it has encrypted and decrypted.
#[derive(Copy, Clone, Debug, PartialEq, Eq)]
pub enum Engine {
    New([u8; 32]),
    Ready { key: [u8; 32], encrypt: u64, decrypt: u64 },
}

/// What `ready` makes of a new engine and the device's public key.
pub open spec fn spec_ready(secret_key: Seq<u8>, public_key: Seq<u8>) -> Result<
    Seq<u8>,
    &'static str,
> {
    if !secp256k1_sec1_valid(sec1_uncompressed(public_key)) {
        Err("from_sec1_bytes")
    } else {
        match spec_session_key(secret_key, public_key) {
            Some(key) => Ok(key),
            None => Err("session_key"),
        }
    }
}

impl Engine {
    /// A new engine with this secret key.
    pub fn new(secret_key: [u8; 32]) -> (e: Engine)
        ensures
            e == Engine::New(secret_key),
    {
        Engine::New(secret_key)
    }

    /// Makes a new engine ready with the device's public key, both
    /// keystreams at their start. An engine that is not new stays as it is,
    /// and so does one whose key, or the device's, is refused.
    pub fn ready(&mut self, public_key: [u8; 64]) -> (r: Result<(), ColdcardError>)
        ensures
            match *old(self) {
                Engine::New(secret_key) => match spec_ready(secret_key@, public_key@) {
                    Ok(session) => r is Ok && (*final(self) matches Engine::Ready {
                        key,
                        encrypt,
                        decrypt,
                    } && key@ == session && encrypt == 0 && decrypt == 0),
                    Err(message) => r == Err::<(), ColdcardError>(
                        ColdcardError::Encryption(message),
                    ) && *final(self) == *old(self),
                },
                Engine::Ready { .. } => r == Err::<(), ColdcardError>(
                    ColdcardError::Encryption("Engine is not New"),
                ) && *final(self) == *old(self),
            },
    {
        match *self {
            Engine::New(secret_key) => {
                let sec1 = prefixed(&public_key);
                if !sec1_valid(sec1.as_slice()) {
                    return Err(ColdcardError::Encryption("from_sec1_bytes"));
                }
                match session_key(&secret_key, &public_key) {
                    Ok(key) => {
                        *self = Engine::Ready { key, encrypt: 0, decrypt: 0 };
                        Ok(())
                    },
                    Err(_) => Err(ColdcardError::Encryption("session_key")),
                }
            },
            Engine::Ready { .. } => Err(ColdcardError::Encryption("Engine is not New")),
        }
    }

    /// The public key that goes to the device: 64 bytes, the uncompressed
    /// encoding without its first byte.
    pub fn pub_key(&self) -> (r: Result<[u8; 64], ColdcardError>)
        ensures
            match *self {
                Engine::New(secret_key) => match secp256k1_public_key(secret_key@) {
                    Some(key) => r matches Ok(k) && k@ == key,
                    None => r == Err::<[u8; 64], ColdcardError>(
                        ColdcardError::Encryption("failed to create pubkey"),
                    ),
                },
                Engine::Ready { .. } => r == Err::<[u8; 64], ColdcardError>(
                    ColdcardError::Encryption("Engine is not new"),
                ),
            },
    {
        match self {
            Engine::New(secret_key) => match public_key_of(secret_key) {
                Some(key) => Ok(key),
                None => Err(ColdcardError::Encryption("failed to create pubkey")),
            },
            Engine::Ready { .. } => Err(ColdcardError::Encryption("Engine is not new")),
        }
    }

    /// What `encrypt` does to an engine and gives back.
    pub open spec fn spec_encrypt(self, data: Seq<u8>) -> (Engine, Result<Seq<u8>, &'static str>) {
        match self {
            Engine::Ready { key, encrypt, decrypt } => if encrypt + data.len() <= u64::MAX {
                (
                    Engine::Ready { key, encrypt: (encrypt + data.len()) as u64, decrypt },
                    Ok(keystream_xor(key@, encrypt as int, data)),
                )
            } else {
                (self, Err("Keystream exhausted"))
            },
            Engine::New(_) => (self, Err("Engine not ready")),
        }
    }

    /// What `decrypt` does to an engine and gives back.
    pub open spec fn spec_decrypt(self, data: Seq<u8>) -> (Engine, Result<Seq<u8>, &'static str>) {
        match self {
            Engine::Ready { key, encrypt, decrypt } => if decrypt + data.len() <= u64::MAX {
                (
                    Engine::Ready { key, encrypt, decrypt: (decrypt + data.len()) as u64 },
                    Ok(keystream_xor(key@, decrypt as int, data)),
                )
            } else {
                (self, Err("Keystream exhausted"))
            },
            Engine::New(_) => (self, Err("Engine not ready")),
        }
    }

    /// Encrypts a request with the next bytes of the keystream for
    /// requests.
    pub fn encrypt(&mut self, data: Vec<u8>) -> (r: Result<Vec<u8>, ColdcardError>)
        ensures
            *final(self) == old(self).spec_encrypt(data@).0,
            match old(self).spec_encrypt(data@).1 {
                Ok(bytes) => r matches Ok(b) && b@ == bytes,
                Err(message) => r == Err::<Vec<u8>, ColdcardError>(
                    ColdcardError::Encryption(message),
                ),
            },
    {
        match *self {
            Engine::Ready { key, encrypt, decrypt } => {
                if data.len() as u128 + encrypt as u128 > u64::MAX as u128 {
                    return Err(ColdcardError::Encryption("Keystream exhausted"));
                }
                let next = encrypt + data.len() as u64;
                let out = apply_keystream(&key, encrypt, data);
                assert(out@ =~= keystream_xor(key@, encrypt as int, data@));
                *self = Engine::Ready { key, encrypt: next, decrypt };
                Ok(out)
            },
            Engine::New(_) => Err(ColdcardError::Encryption("Engine not ready")),
        }
    }

    /// Decrypts a reply with the next bytes of the keystream for replies.
    pub fn decrypt(&mut self, data: Vec<u8>) -> (r: Result<Vec<u8>, ColdcardError>)
        ensures
            *final(self) == old(self).spec_decrypt(data@).0,
            match old(self).spec_decrypt(data@).1 {
                Ok(bytes) => r matches Ok(b) && b@ == bytes,
                Err(message) => r == Err::<Vec<u8>, ColdcardError>(
                    ColdcardError::Encryption(message),
                ),
            },
    {
        match *self {
            Engine::Ready { key, encrypt, decrypt } => {
                if data.len() as u128 + decrypt as u128 > u64::MAX as u128 {
                    return Err(ColdcardError::Encryption("Keystream exhausted"));
                }
                let next = decrypt + data.len() as u64;
                let out = apply_keystream(&key, decrypt, data);
                assert(out@ =~= keystream_xor(key@, decrypt as int, data@));
                *self = Engine::Ready { key, encrypt, decrypt: next };
                Ok(out)
            },
            Engine::New(_) => Err(ColdcardError::Encryption("Engine not ready")),
        }
    }
}

/// XORing twice with the same stretch of keystream gives the data back.
pub proof fn lemma_keystream_involution(key: Seq<u8>, position: int, data: Seq<u8>)
    ensures
        keystream_xor(key, position, keystream_xor(key, position, data)) == data,
{
    let once = keystream_xor(key, position, data);
    let twice = keystream_xor(key, position, once);
    assert forall|i: int| 0 <= i < data.len() implies twice[i] == data[i] by {
        let d = data[i];
        let k = aes256_ctr_keystream(key, position + i);
        assert((d ^ k) ^ k == d) by (bit_vector);
    }
    assert(twice =~= data);
}

/// What one side encrypts, the other decrypts: when two ready engines hold
/// the same session key and the receiver has decrypted as many bytes as the
/// sender has encrypted, the receiver's `decrypt` of the sender's `encrypt`
/// of a message is that message, and the two are again in step, so that the
/// same holds of the message after it.
pub proof fn lemma_ctr_symmetry(sender: Engine, receiver: Engine, message: Seq<u8>)
    requires
        sender matches Engine::Ready { key: k1, encrypt, .. } && receiver matches Engine::Ready {
            key: k2,
            decrypt,
            ..
        } && k1@ == k2@ && encrypt == decrypt && encrypt + message.len() <= u64::MAX,
    ensures
        ({
            let (sender_after, sent) = sender.spec_encrypt(message);
            &&& sent is Ok
            &&& ({
                let (receiver_after, received) = receiver.spec_decrypt(sent->Ok_0);
                &&& received == Ok::<Seq<u8>, &'static str>(message)
                &&& sender_after matches Engine::Ready { key: k1, encrypt, .. }
                    && receiver_after matches Engine::Ready { key: k2, decrypt, .. } && k1@
                    == k2@ && encrypt == decrypt
            })
        }),
{
    let key = sender->Ready_key@;
    let position = sender->Ready_encrypt as int;
    lemma_keystream_involution(key, position, message);
}

/// The bytes in a row of messages.
pub open spec fn total_len(messages: Seq<Seq<u8>>) -> int
    decreases messages.len(),
{
    if messages.len() == 0 {
        0
    } else {
        total_len(messages.drop_last()) + messages.last().len()
    }
}

/// Whether two engines are ready with the same session key, the receiver
/// having decrypted as many bytes as the sender has encrypted.
pub open spec fn in_step(sender: Engine, receiver: Engine) -> bool {
    sender matches Engine::Ready { key: k1, encrypt, .. } && receiver matches Engine::Ready {
        key: k2,
        decrypt,
        ..
    } && k1@ == k2@ && encrypt == decrypt
}

/// What becomes of two engines when the sender encrypts messages one after
/// another and the receiver decrypts each, and what the receiver gets for
/// each.
pub open spec fn relayed(sender: Engine, receiver: Engine, messages: Seq<Seq<u8>>) -> (
    Engine,
    Engine,
    Seq<Result<Seq<u8>, &'static str>>,
)
    decreases messages.len(),
{
    if messages.len() == 0 {
        (sender, receiver, Seq::empty())
    } else {
        let (s, r, got) = relayed(sender, receiver, messages.drop_last());
        let (s_after, sent) = s.spec_encrypt(messages.last());
        match sent {
            Ok(bytes) => {
                let (r_after, received) = r.spec_decrypt(bytes);
                (s_after, r_after, got.push(received))
            },
            Err(message) => (s_after, r, got.push(Err(message))),
        }
    }
}

/// A receiver in step with a sender gets every message of a sequence as it
/// was, in the order in which they were sent, as long as the keystream
/// lasts.
pub proof fn lemma_ctr_symmetry_in_sequence(
    sender: Engine,
    receiver: Engine,
    messages: Seq<Seq<u8>>,
)
    requires
        in_step(sender, receiver),
        sender->Ready_encrypt + total_len(messages) <= u64::MAX,
    ensures
        ({
            let (s, r, got) = relayed(sender, receiver, messages);
            &&& in_step(s, r)
            &&& s->Ready_encrypt == sender->Ready_encrypt + total_len(messages)
            &&& got.len() == messages.len()
            &&& forall|i: int|
                0 <= i < messages.len() ==> got[i] == Ok::<Seq<u8>, &'static str>(messages[i])
        }),
    decreases messages.len(),
{
    if messages.len() > 0 {
        lemma_total_len_nonnegative(messages.drop_last());
        lemma_ctr_symmetry_in_sequence(sender, receiver, messages.drop_last());
        let (s, r, got) = relayed(sender, receiver, messages.drop_last());
        lemma_ctr_symmetry(s, r, messages.last());
    }
}

proof fn lemma_total_len_nonnegative(messages: Seq<Seq<u8>>)
    ensures
        total_len(messages) >= 0,
    decreases messages.len(),
{
    if messages.len() > 0 {
        lemma_total_len_nonnegative(messages.drop_last());
    }
}

/// The session key depends on the shared point alone: two pairs of keys
/// whose products are the same point agree on the same session key.
pub proof fn lemma_session_key_commutes(
    secret_a: Seq<u8>,
    public_a: Seq<u8>,
    secret_b: Seq<u8>,
    public_b: Seq<u8>,
)
    requires
        secp256k1_shared_point(secret_a, sec1_uncompressed(public_b)) == secp256k1_shared_point(
            secret_b,
            sec1_uncompressed(public_a),
        ),
    ensures
        spec_session_key(secret_a, public_b) == spec_session_key(secret_b, public_a),
{
}

} // verus!
