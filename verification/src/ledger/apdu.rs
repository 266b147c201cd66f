//! Application protocol data units: the command and response frames of a
//! Ledger device, and the status words that end a response.

use vstd::prelude::*;
use vstd::std_specs::convert::{FromSpecImpl, TryFromSpecImpl};

verus! {

/// The protocol version, carried in `p2`.
pub const CURRENT_PROTOCOL_VERSION: u8 = 1;

#[derive(Copy, Clone, Debug, PartialEq, Eq, Structural)]
pub enum Cla {
    Default,
    Bitcoin,
    Framework,
}

impl Cla {
    pub open spec fn spec_code(self) -> u8 {
        match self {
            Cla::Default => 0xB0,
            Cla::Bitcoin => 0xE1,
            Cla::Framework => 0xF8,
        }
    }

    /// The class byte on the wire.
    #[verifier::when_used_as_spec(spec_code)]
    pub fn code(self) -> (c: u8)
        ensures
            c == self.spec_code(),
    {
        match self {
            Cla::Default => 0xB0,
            Cla::Bitcoin => 0xE1,
            Cla::Framework => 0xF8,
        }
    }
}

#[derive(Copy, Clone, Debug, PartialEq, Eq, Structural)]
pub enum BitcoinCommandCode {
    GetExtendedPubkey,
    GetVersion,
    RegisterWallet,
    GetWalletAddress,
    SignPSBT,
    GetMasterFingerprint,
    SignMessage,
}

impl BitcoinCommandCode {
    pub open spec fn spec_code(self) -> u8 {
        match self {
            BitcoinCommandCode::GetExtendedPubkey => 0x00,
            BitcoinCommandCode::GetVersion => 0x01,
            BitcoinCommandCode::RegisterWallet => 0x02,
            BitcoinCommandCode::GetWalletAddress => 0x03,
            BitcoinCommandCode::SignPSBT => 0x04,
            BitcoinCommandCode::GetMasterFingerprint => 0x05,
            BitcoinCommandCode::SignMessage => 0x10,
        }
    }

    /// The instruction byte on the wire.
    #[verifier::when_used_as_spec(spec_code)]
    pub fn code(self) -> (c: u8)
        ensures
            c == self.spec_code(),
    {
        match self {
            BitcoinCommandCode::GetExtendedPubkey => 0x00,
            BitcoinCommandCode::GetVersion => 0x01,
            BitcoinCommandCode::RegisterWallet => 0x02,
            BitcoinCommandCode::GetWalletAddress => 0x03,
            BitcoinCommandCode::SignPSBT => 0x04,
            BitcoinCommandCode::GetMasterFingerprint => 0x05,
            BitcoinCommandCode::SignMessage => 0x10,
        }
    }
}

#[derive(Copy, Clone, Debug, PartialEq, Eq, Structural)]
pub enum FrameworkCommandCode {
    ContinueInterrupted,
}

impl FrameworkCommandCode {
    pub open spec fn spec_code(self) -> u8 {
        0x01
    }

    /// The instruction byte on the wire.
    #[verifier::when_used_as_spec(spec_code)]
    pub fn code(self) -> (c: u8)
        ensures
            c == self.spec_code(),
    {
        0x01
    }
}

#[derive(Copy, Clone, Debug, PartialEq, Eq, Structural)]
pub enum ClientCommandCode {
    Yield,
    GetPreimage,
    GetMerkleLeafProof,
    GetMerkleLeafIndex,
    GetMoreElements,
}

impl ClientCommandCode {
    pub open spec fn spec_code(self) -> u8 {
        match self {
            ClientCommandCode::Yield => 0x10,
            ClientCommandCode::GetPreimage => 0x40,
            ClientCommandCode::GetMerkleLeafProof => 0x41,
            ClientCommandCode::GetMerkleLeafIndex => 0x42,
            ClientCommandCode::GetMoreElements => 0xA0,
        }
    }

    /// The client command that a byte names, if any.
    pub open spec fn spec_try_from(value: u8) -> Option<ClientCommandCode> {
        if value == 0x10 {
            Some(ClientCommandCode::Yield)
        } else if value == 0x40 {
            Some(ClientCommandCode::GetPreimage)
        } else if value == 0x41 {
            Some(ClientCommandCode::GetMerkleLeafProof)
        } else if value == 0x42 {
            Some(ClientCommandCode::GetMerkleLeafIndex)
        } else if value == 0xA0 {
            Some(ClientCommandCode::GetMoreElements)
        } else {
            None
        }
    }

    /// The byte on the wire.
    #[verifier::when_used_as_spec(spec_code)]
    pub fn code(self) -> (c: u8)
        ensures
            c == self.spec_code(),
    {
        match self {
            ClientCommandCode::Yield => 0x10,
            ClientCommandCode::GetPreimage => 0x40,
            ClientCommandCode::GetMerkleLeafProof => 0x41,
            ClientCommandCode::GetMerkleLeafIndex => 0x42,
            ClientCommandCode::GetMoreElements => 0xA0,
        }
    }

}

impl TryFrom<u8> for ClientCommandCode {
    type Error = ();

    fn try_from(value: u8) -> (r: Result<ClientCommandCode, ()>)
        ensures
            r.ok() == ClientCommandCode::spec_try_from(value),
    {
        match value {
            0x10 => Ok(ClientCommandCode::Yield),
            0x40 => Ok(ClientCommandCode::GetPreimage),
            0x41 => Ok(ClientCommandCode::GetMerkleLeafProof),
            0x42 => Ok(ClientCommandCode::GetMerkleLeafIndex),
            0xA0 => Ok(ClientCommandCode::GetMoreElements),
            _ => Err(()),
        }
    }
}

impl TryFromSpecImpl<u8> for ClientCommandCode {
    open spec fn obeys_try_from_spec() -> bool {
        true
    }

    open spec fn try_from_spec(value: u8) -> Result<ClientCommandCode, ()> {
        match ClientCommandCode::spec_try_from(value) {
            Some(code) => Ok(code),
            None => Err(()),
        }
    }
}

/// The outcome that the last two bytes of a response report.
#[derive(Copy, Clone, Debug, PartialEq, Eq, Structural)]
pub enum StatusWord {
    /// Rejected by user
    Deny,
    /// Incorrect Data
    IncorrectData,
    /// Not Supported
    NotSupported,
    /// Wrong P1P2
    WrongP1P2,
    /// Wrong DataLength
    WrongDataLength,
    /// Ins not supported
    InsNotSupported,
    /// Cla not supported
    ClaNotSupported,
    /// Bad state
    BadState,
    /// Signature fail
    SignatureFail,
    /// Success
    OK,
    /// The command is interrupted, and requires the client's response
    InterruptedExecution,
}

impl StatusWord {
    pub open spec fn spec_code(self) -> u16 {
        match self {
            StatusWord::Deny => 0x6985,
            StatusWord::IncorrectData => 0x6A80,
            StatusWord::NotSupported => 0x6A82,
            StatusWord::WrongP1P2 => 0x6A86,
            StatusWord::WrongDataLength => 0x6A87,
            StatusWord::InsNotSupported => 0x6D00,
            StatusWord::ClaNotSupported => 0x6E00,
            StatusWord::BadState => 0xB007,
            StatusWord::SignatureFail => 0xB008,
            StatusWord::OK => 0x9000,
            StatusWord::InterruptedExecution => 0xE000,
        }
    }

    /// The status word that a 16-bit value names, if it is a recognized one.
    pub open spec fn spec_try_from(value: u16) -> Option<StatusWord> {
        if value == 0x6985 {
            Some(StatusWord::Deny)
        } else if value == 0x6A80 {
            Some(StatusWord::IncorrectData)
        } else if value == 0x6A82 {
            Some(StatusWord::NotSupported)
        } else if value == 0x6A86 {
            Some(StatusWord::WrongP1P2)
        } else if value == 0x6A87 {
            Some(StatusWord::WrongDataLength)
        } else if value == 0x6D00 {
            Some(StatusWord::InsNotSupported)
        } else if value == 0x6E00 {
            Some(StatusWord::ClaNotSupported)
        } else if value == 0xB007 {
            Some(StatusWord::BadState)
        } else if value == 0xB008 {
            Some(StatusWord::SignatureFail)
        } else if value == 0x9000 {
            Some(StatusWord::OK)
        } else if value == 0xE000 {
            Some(StatusWord::InterruptedExecution)
        } else {
            None
        }
    }

    /// The 16-bit value on the wire.
    #[verifier::when_used_as_spec(spec_code)]
    pub fn code(self) -> (c: u16)
        ensures
            c == self.spec_code(),
    {
        match self {
            StatusWord::Deny => 0x6985,
            StatusWord::IncorrectData => 0x6A80,
            StatusWord::NotSupported => 0x6A82,
            StatusWord::WrongP1P2 => 0x6A86,
            StatusWord::WrongDataLength => 0x6A87,
            StatusWord::InsNotSupported => 0x6D00,
            StatusWord::ClaNotSupported => 0x6E00,
            StatusWord::BadState => 0xB007,
            StatusWord::SignatureFail => 0xB008,
            StatusWord::OK => 0x9000,
            StatusWord::InterruptedExecution => 0xE000,
        }
    }

}

impl TryFrom<u16> for StatusWord {
    type Error = ApduError;

    /// The status word that a 16-bit value names; a value that names none
    /// is unknown.
    fn try_from(value: u16) -> (r: Result<StatusWord, ApduError>)
        ensures
            r.ok() == StatusWord::spec_try_from(value),
            r is Err ==> r == Err::<StatusWord, ApduError>(ApduError::StatusWordUnknown),
    {
        match value {
            0x6985 => Ok(StatusWord::Deny),
            0x6A80 => Ok(StatusWord::IncorrectData),
            0x6A82 => Ok(StatusWord::NotSupported),
            0x6A86 => Ok(StatusWord::WrongP1P2),
            0x6A87 => Ok(StatusWord::WrongDataLength),
            0x6D00 => Ok(StatusWord::InsNotSupported),
            0x6E00 => Ok(StatusWord::ClaNotSupported),
            0xB007 => Ok(StatusWord::BadState),
            0xB008 => Ok(StatusWord::SignatureFail),
            0x9000 => Ok(StatusWord::OK),
            0xE000 => Ok(StatusWord::InterruptedExecution),
            _ => Err(ApduError::StatusWordUnknown),
        }
    }
}

impl TryFromSpecImpl<u16> for StatusWord {
    open spec fn obeys_try_from_spec() -> bool {
        true
    }

    open spec fn try_from_spec(value: u16) -> Result<StatusWord, ApduError> {
        match StatusWord::spec_try_from(value) {
            Some(word) => Ok(word),
            None => Err(ApduError::StatusWordUnknown),
        }
    }
}

#[derive(Copy, Clone, Debug, PartialEq, Eq, Structural)]
pub enum ApduError {
    StatusWordUnknown,
    ResponseTooShort,
}

/// A command frame: four header bytes and up to 255 bytes of data.
#[derive(Clone, Debug)]
pub struct ApduCommand {
    pub cla: u8,
    pub ins: u8,
    pub p1: u8,
    pub p2: u8,
    pub data: Vec<u8>,
}

/// The wire form of a command: `cla ins p1 p2 len data`, where `len` is the
/// data's length modulo 256.
pub open spec fn encoding(cla: u8, ins: u8, p1: u8, p2: u8, data: Seq<u8>) -> Seq<u8> {
    seq![cla, ins, p1, p2, (data.len() % 256) as u8] + data
}

/// What a wire form says of the command that it came from: the four header
/// bytes and the data, where the length byte agrees with what follows it.
pub open spec fn decoding(bytes: Seq<u8>) -> Option<(u8, u8, u8, u8, Seq<u8>)> {
    if bytes.len() >= 5 && bytes.len() - 5 == bytes[4] as int {
        Some((bytes[0], bytes[1], bytes[2], bytes[3], bytes.skip(5)))
    } else {
        None
    }
}

impl ApduCommand {
    pub open spec fn spec_encode(&self) -> Seq<u8> {
        encoding(self.cla, self.ins, self.p1, self.p2, self.data@)
    }

    pub fn encode(&self) -> (bytes: Vec<u8>)
        ensures
            bytes@ == self.spec_encode(),
    {
        let mut vec: Vec<u8> = Vec::new();
        vec.push(self.cla);
        vec.push(self.ins);
        vec.push(self.p1);
        vec.push(self.p2);
        vec.push(crate::bytes::low_byte(self.data.len()));
        vec.extend_from_slice(self.data.as_slice());
        assert(vec@ =~= self.spec_encode());
        vec
    }
}

impl core::default::Default for ApduCommand {
    fn default() -> (c: ApduCommand)
        ensures
            c.cla == Cla::Default.spec_code(),
            c.ins == 0,
            c.p1 == 0,
            c.p2 == CURRENT_PROTOCOL_VERSION,
            c.data@ == Seq::<u8>::empty(),
    {
        ApduCommand {
            cla: Cla::Default.code(),
            ins: 0x00,
            p1: 0x00,
            p2: CURRENT_PROTOCOL_VERSION,
            data: Vec::new(),
        }
    }
}

/// A response frame: the data, then the status word as two bytes.
#[derive(Debug)]
pub struct ApduResponse {
    pub data: Vec<u8>,
    pub status_word: StatusWord,
}

/// The status word that the last two bytes of a response name.
pub open spec fn trailing_word(res: Seq<u8>) -> Option<StatusWord>
    recommends
        res.len() >= 2,
{
    StatusWord::spec_try_from(
        crate::bytes::be16_value(res[res.len() - 2], res[res.len() - 1]) as u16,
    )
}

impl ApduResponse {
    /// The wire form: the data followed by the status word, high byte first.
    pub open spec fn spec_encode(&self) -> Seq<u8> {
        self.data@ + crate::bytes::be16(self.status_word.spec_code() as int)
    }

    /// The wire form of the response.
    pub fn into_bytes(self) -> (bytes: Vec<u8>)
        ensures
            bytes@ == self.spec_encode(),
    {
        let code = self.status_word.code();
        let mut vec = self.data;
        crate::bytes::push_be16(&mut vec, code as usize);
        vec
    }

}

impl From<ApduResponse> for Vec<u8> {
    /// The wire form of a response.
    fn from(res: ApduResponse) -> (bytes: Vec<u8>)
        ensures
            bytes@ == res.spec_encode(),
    {
        res.into_bytes()
    }
}

impl FromSpecImpl<ApduResponse> for Vec<u8> {
    open spec fn obeys_from_spec() -> bool {
        false
    }

    open spec fn from_spec(res: ApduResponse) -> Vec<u8> {
        arbitrary()
    }
}

impl TryFrom<Vec<u8>> for ApduResponse {
    type Error = ApduError;

    /// Splits a response into data and status word. A response of fewer than
    /// two bytes is too short; one whose last two bytes are no recognized
    /// status word is refused.
    fn try_from(res: Vec<u8>) -> (r: Result<ApduResponse, ApduError>)
        ensures
            res@.len() < 2 ==> r == Err::<ApduResponse, ApduError>(ApduError::ResponseTooShort),
            res@.len() >= 2 && trailing_word(res@) is None ==> r == Err::<
                ApduResponse,
                ApduError,
            >(ApduError::StatusWordUnknown),
            res@.len() >= 2 && trailing_word(res@) is Some ==> r is Ok && r->Ok_0.data@
                == res@.take(res@.len() - 2) && Some(r->Ok_0.status_word) == trailing_word(
                res@,
            ),
    {
        if res.len() < 2 {
            return Err(ApduError::ResponseTooShort);
        }
        let s = crate::bytes::read_be16(res[res.len() - 2], res[res.len() - 1]);
        let status_word = match StatusWord::try_from(s) {
            Ok(w) => w,
            Err(e) => {
                return Err(e);
            },
        };
        let mut data = res;
        data.truncate(data.len() - 2);
        assert(data@ =~= res@.take(res@.len() - 2));
        Ok(ApduResponse { data, status_word })
    }
}

impl TryFromSpecImpl<Vec<u8>> for ApduResponse {
    open spec fn obeys_try_from_spec() -> bool {
        false
    }

    open spec fn try_from_spec(res: Vec<u8>) -> Result<ApduResponse, ApduError> {
        arbitrary()
    }
}

/// Every recognized status word is read back from its own two bytes.
pub proof fn lemma_status_word_round_trip(w: StatusWord)
    ensures
        StatusWord::spec_try_from(w.spec_code()) == Some(w),
        crate::bytes::be16_value(
            crate::bytes::be16(w.spec_code() as int)[0],
            crate::bytes::be16(w.spec_code() as int)[1],
        ) == w.spec_code(),
{
}

/// A value that names a status word is that status word's code.
pub proof fn lemma_status_word_code(value: u16)
    ensures
        StatusWord::spec_try_from(value) matches Some(w) ==> w.spec_code() == value,
{
}

/// Decoding the wire form of a response gives the response back: for every
/// data and every recognized status word `w`, the bytes `data ‖ hi(w) ‖ lo(w)`
/// split into `data` and `w`.
pub proof fn lemma_response_round_trip(data: Seq<u8>, w: StatusWord)
    ensures
        ({
            let wire = data + crate::bytes::be16(w.spec_code() as int);
            &&& wire.len() >= 2
            &&& trailing_word(wire) == Some(w)
            &&& wire.take(wire.len() - 2) == data
        }),
{
    let wire = data + crate::bytes::be16(w.spec_code() as int);
    lemma_status_word_round_trip(w);
    assert(wire.take(wire.len() - 2) =~= data);
}

/// A command of at most 255 data bytes is read back from its wire form.
pub proof fn lemma_command_round_trip(cla: u8, ins: u8, p1: u8, p2: u8, data: Seq<u8>)
    requires
        data.len() <= 255,
    ensures
        decoding(encoding(cla, ins, p1, p2, data)) == Some((cla, ins, p1, p2, data)),
{
    let wire = encoding(cla, ins, p1, p2, data);
    assert(wire.skip(5) =~= data);
}

/// The wire form of a command followed by the two bytes of a recognized
/// status word decodes, as a response, into that wire form and that status
/// word; and the wire form gives back the command when its data has at most
/// 255 bytes.
pub proof fn lemma_command_then_status(
    cla: u8,
    ins: u8,
    p1: u8,
    p2: u8,
    data: Seq<u8>,
    w: StatusWord,
)
    requires
        data.len() <= 255,
    ensures
        ({
            let wire = encoding(cla, ins, p1, p2, data) + crate::bytes::be16(
                w.spec_code() as int,
            );
            &&& trailing_word(wire) == Some(w)
            &&& decoding(wire.take(wire.len() - 2)) == Some((cla, ins, p1, p2, data))
        }),
{
    lemma_response_round_trip(encoding(cla, ins, p1, p2, data), w);
    lemma_command_round_trip(cla, ins, p1, p2, data);
}

} // verus!
