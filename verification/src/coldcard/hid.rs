//! Framing of messages over the 64-byte reports of a Coldcard's HID
//! interface.
//!
//! A report is a flag byte and up to 63 bytes of the message. The flag's low
//! six bits give the number of message bytes in the report, bit 7 marks the
//! last report of a message, and bit 6, on the last report only, says that
//! the message is encrypted.

use vstd::prelude::*;

verus! {

pub const COLDCARD_VID: u16 = 0xd13e;

/// The bytes of a message that one report carries.
pub const COLDCARD_PACKET_WRITE_SIZE: usize = 63;

/// The size of a report.
pub const COLDCARD_PACKET_READ_SIZE: usize = 64;

#[derive(Debug)]
pub enum ColdcardHIDError {
    /// The reports do not follow the framing.
    Comm(&'static str),
    /// The channel failed: the message of its error.
    Hid(String),
}

/// ASCII `fram`.
pub open spec fn tag_fram() -> Seq<u8> {
    seq![0x66, 0x72, 0x61, 0x6d]
}

/// The number of reports that a request takes. An empty request takes none.
pub open spec fn frame_count(request: Seq<u8>) -> int {
    (request.len() as int + 62) / 63
}

/// The number of message bytes in report `k` of a request.
pub open spec fn chunk_len(request: Seq<u8>, k: int) -> int {
    if 63 * (k + 1) <= request.len() {
        63
    } else {
        request.len() - 63 * k
    }
}

/// The flag of report `k` of a request.
pub open spec fn frame_flag(request: Seq<u8>, encrypted: bool, k: int) -> u8 {
    let len = chunk_len(request, k) as u8;
    if k == frame_count(request) - 1 {
        len | (0x80u8 | if encrypted {
            0x40u8
        } else {
            0x00u8
        })
    } else {
        len | 0x00u8
    }
}

/// Byte `j` of what follows the flag in report `k` of a request: the
/// request's bytes, and behind them what the report before left there
/// (zeros in the first report).
pub open spec fn frame_byte(request: Seq<u8>, k: int, j: int) -> u8 {
    if 63 * k + j < request.len() {
        request[63 * k + j]
    } else if k > 0 {
        request[63 * (k - 1) + j]
    } else {
        0
    }
}

/// Report `k` of a request.
pub open spec fn frame(request: Seq<u8>, encrypted: bool, k: int) -> Seq<u8> {
    seq![frame_flag(request, encrypted, k)] + Seq::new(63, |j: int| frame_byte(request, k, j))
}

/// The reports that carry a request, in order: 64 bytes each.
pub fn frames(request: &[u8], encrypted: bool) -> (out: Vec<Vec<u8>>)
    ensures
        out@.len() == frame_count(request@),
        forall|k: int| 0 <= k < out@.len() ==> #[trigger] out@[k]@ == frame(request@, encrypted, k),
{
    let len = request.len();
    let n_chunks: usize = len / 63 + if len % 63 == 0 {
        0
    } else {
        1
    };
    let mut out: Vec<Vec<u8>> = Vec::new();
    let mut i: usize = 0;
    while i < n_chunks
        invariant
            len == request@.len(),
            n_chunks == frame_count(request@),
            i <= n_chunks,
            out@.len() == i,
            forall|k: int| 0 <= k < i ==> #[trigger] out@[k]@ == frame(request@, encrypted, k),
        decreases n_chunks - i,
    {
        let start: usize = 63 * i;
        let size: usize = if len - start >= 63 {
            63
        } else {
            len - start
        };
        let flag: u8 = (size as u8) | if i == n_chunks - 1 {
            0x80u8 | if encrypted {
                0x40u8
            } else {
                0x00u8
            }
        } else {
            0x00u8
        };
        let mut buffer: Vec<u8> = Vec::new();
        buffer.push(flag);
        let mut j: usize = 0;
        while j < 63
            invariant
                j <= 63,
                len == request@.len(),
                start == 63 * i,
                start < len,
                buffer@ == seq![flag] + Seq::new(
                    j as nat,
                    |x: int| frame_byte(request@, i as int, x),
                ),
            decreases 63 - j,
        {
            let b: u8 = if j < len - start {
                request[start + j]
            } else if i > 0 {
                request[start - 63 + j]
            } else {
                0
            };
            buffer.push(b);
            j = j + 1;
            assert(buffer@ =~= seq![flag] + Seq::new(
                j as nat,
                |x: int| frame_byte(request@, i as int, x),
            ));
        }
        assert(buffer@ =~= frame(request@, encrypted, i as int));
        out.push(buffer);
        i = i + 1;
    }
    out
}

/// A report with a zero byte in front, for platforms that want the report
/// id there.
pub fn with_report_id(frame: &[u8]) -> (out: Vec<u8>)
    ensures
        out@ == seq![0u8] + frame@,
{
    let mut out: Vec<u8> = Vec::new();
    out.push(0);
    out.extend_from_slice(frame);
    out
}

/// Where the reading of a reply stands.
pub ghost struct ReaderView {
    /// The bytes of the reply read so far.
    pub data: Seq<u8>,
    /// Whether no report has been read yet.
    pub is_first: bool,
    /// Whether the reply is complete.
    pub done: bool,
}

/// The state before the first report.
pub open spec fn reader_start() -> ReaderView {
    ReaderView { data: Seq::<u8>::empty(), is_first: true, done: false }
}

/// What one report does to the reading of a reply. `read` is the number of
/// bytes that the channel said it read into the report.
///
/// A complete reply takes no more reports. Otherwise the report must have
/// been read whole. It adds as many of its bytes as its flag's low six bits
/// say, and it is the last where the flag's bit 7 is set, or where it is
/// the first report and begins with `fram`: such replies are one report
/// long, and the firmware forgets the bit.
pub open spec fn accept_step(s: ReaderView, buffer: Seq<u8>, read: int) -> Result<
    ReaderView,
    &'static str,
>
    recommends
        buffer.len() == 64,
{
    if s.done {
        Ok(s)
    } else if read != 64 {
        Err("USB read error. Could not read whole message")
    } else {
        let flag = buffer[0];
        let is_last = flag & 0x80 != 0;
        let is_fram = buffer.subrange(1, 5) == tag_fram() && s.is_first;
        let length = (flag & 0x3f) as int;
        Ok(
            ReaderView {
                data: s.data + buffer.subrange(1, 1 + length),
                is_first: false,
                done: is_last || is_fram,
            },
        )
    }
}

/// Reassembles a reply from the reports of a Coldcard.
pub struct ReplyReader {
    data: Vec<u8>,
    is_first: bool,
    done: bool,
}

impl View for ReplyReader {
    type V = ReaderView;

    closed spec fn view(&self) -> ReaderView {
        ReaderView { data: self.data@, is_first: self.is_first, done: self.done }
    }
}

impl ReplyReader {
    pub fn new() -> (r: ReplyReader)
        ensures
            r@ == reader_start(),
    {
        ReplyReader { data: Vec::new(), is_first: true, done: false }
    }

    /// Takes the next report, of which the channel read `read` bytes. Says
    /// whether the reply is now complete. A refused report changes nothing.
    pub fn accept(&mut self, buffer: &[u8; 64], read: usize) -> (r: Result<bool, ColdcardHIDError>)
        ensures
            match accept_step(old(self)@, buffer@, read as int) {
                Ok(s) => r == Ok::<bool, ColdcardHIDError>(s.done) && final(self)@ == s,
                Err(message) => r == Err::<bool, ColdcardHIDError>(
                    ColdcardHIDError::Comm(message),
                ) && final(self)@ == old(self)@,
            },
    {
        if self.done {
            return Ok(true);
        }
        if read != 64 {
            return Err(ColdcardHIDError::Comm("USB read error. Could not read whole message"));
        }
        let flag = buffer[0];
        let is_last = flag & 0x80 != 0;
        let is_fram = buffer[1] == 0x66 && buffer[2] == 0x72 && buffer[3] == 0x61 && buffer[4]
            == 0x6d && self.is_first;
        proof {
            let head = buffer@.subrange(1, 5);
            if buffer[1] == 0x66 && buffer[2] == 0x72 && buffer[3] == 0x61 && buffer[4] == 0x6d {
                assert(head =~= tag_fram());
            } else {
                assert(head[0] == buffer[1] && head[1] == buffer[2] && head[2] == buffer[3]
                    && head[3] == buffer[4]);
                assert(tag_fram()[0] == 0x66 && tag_fram()[1] == 0x72 && tag_fram()[2] == 0x61
                    && tag_fram()[3] == 0x6d);
            }
        }
        let length = (flag & 0x3f) as usize;
        assert(flag & 0x3f <= 63) by (bit_vector);
        let chunk = vstd::slice::slice_subrange(buffer.as_slice(), 1, 1 + length);
        self.data.extend_from_slice(chunk);
        self.is_first = false;
        self.done = is_last || is_fram;
        proof {
            let step = accept_step(old(self)@, buffer@, read as int);
            assert(self@.data =~= step->Ok_0.data);
        }
        Ok(self.done)
    }

    /// Whether the reply is complete.
    pub fn is_complete(&self) -> (b: bool)
        ensures
            b == self@.done,
    {
        self.done
    }

    /// The bytes of the reply read so far: all of it, once it is complete.
    pub fn into_data(self) -> (data: Vec<u8>)
        ensures
            data@ == self@.data,
    {
        self.data
    }
}

/// The state of a reader after some reports, fed in order from `s`; or the
/// complaint about the first one that it refuses.
pub open spec fn feed(s: ReaderView, reports: Seq<Seq<u8>>) -> Result<ReaderView, &'static str>
    decreases reports.len(),
{
    if reports.len() == 0 {
        Ok(s)
    } else {
        match feed(s, reports.drop_last()) {
            Ok(before) => accept_step(before, reports.last(), 64),
            Err(message) => Err(message),
        }
    }
}

/// Where a reader stands after the first `k` reports of a message.
pub open spec fn progress(request: Seq<u8>, k: int) -> ReaderView {
    ReaderView {
        data: if k == frame_count(request) {
            request
        } else {
            request.take(63 * k)
        },
        is_first: k == 0,
        done: k == frame_count(request),
    }
}

/// Whether a message would be cut short by the reader's allowance for
/// `fram` replies: it begins with `fram` and takes more than one report.
pub open spec fn cut_short(request: Seq<u8>) -> bool {
    request.len() > 63 && request.take(4) == tag_fram()
}

proof fn lemma_flag_bits(len: u8, encrypted: bool)
    requires
        len <= 63,
    ensures
        (len | 0x00u8) & 0x3f == len,
        (len | 0x00u8) & 0x80 == 0,
        (len | (0x80u8 | 0x40u8)) & 0x3f == len,
        (len | (0x80u8 | 0x40u8)) & 0x80 != 0,
        (len | (0x80u8 | 0x00u8)) & 0x3f == len,
        (len | (0x80u8 | 0x00u8)) & 0x80 != 0,
{
    assert(len <= 63 ==> (len | 0x00u8) & 0x3f == len && (len | 0x00u8) & 0x80 == 0 && (len | (
    0x80u8 | 0x40u8)) & 0x3f == len && (len | (0x80u8 | 0x40u8)) & 0x80 != 0 && (len | (0x80u8
        | 0x00u8)) & 0x3f == len && (len | (0x80u8 | 0x00u8)) & 0x80 != 0) by (bit_vector);
}

/// One report of a message takes the reader from its place after `k`
/// reports to its place after `k + 1`.
pub proof fn lemma_accept_frame(request: Seq<u8>, encrypted: bool, k: int)
    requires
        !cut_short(request),
        0 <= k < frame_count(request),
    ensures
        accept_step(progress(request, k), frame(request, encrypted, k), 64) == Ok::<
            ReaderView,
            &'static str,
        >(progress(request, k + 1)),
{
    let n = frame_count(request);
    let f = frame(request, encrypted, k);
    let s = progress(request, k);
    let p = Seq::new(63, |j: int| frame_byte(request, k, j));
    let len = chunk_len(request, k);
    assert(f =~= seq![frame_flag(request, encrypted, k)] + p);
    assert(f[0] == frame_flag(request, encrypted, k));
    lemma_flag_bits(len as u8, encrypted);
    let flag = f[0];
    assert((flag & 0x3f) as int == len);
    assert((flag & 0x80 != 0) == (k == n - 1));
    let is_fram = f.subrange(1, 5) == tag_fram() && s.is_first;
    if is_fram && k != n - 1 {
        assert(k == 0);
        assert(request.len() > 63);
        assert(request.take(4) =~= f.subrange(1, 5)) by {
            assert forall|i: int| 0 <= i < 4 implies request.take(4)[i] == f.subrange(1, 5)[i] by {
                assert(f[1 + i] == p[i]);
            }
        }
    }
    let next = progress(request, k + 1);
    let data = s.data + f.subrange(1, 1 + len);
    assert(data =~= next.data) by {
        assert(data.len() == next.data.len());
        assert forall|i: int| 0 <= i < data.len() implies data[i] == next.data[i] by {
            if i >= s.data.len() {
                let j = i - s.data.len();
                assert(data[i] == f[1 + j]);
                assert(f[1 + j] == p[j]);
            }
        }
    }
}

/// Reassembling the reports of a message gives the message back: fed in
/// order to a fresh reader, the first `k` reports of a message are all
/// accepted, and the reader is complete exactly when all of them are in,
/// holding the message. Every report has 64 bytes. This holds of every
/// message that has a byte and is not cut short.
pub proof fn lemma_round_trip(request: Seq<u8>, encrypted: bool, k: int)
    requires
        request.len() > 0,
        !cut_short(request),
        0 <= k <= frame_count(request),
    ensures
        feed(reader_start(), Seq::new(k as nat, |i: int| frame(request, encrypted, i))) == Ok::<
            ReaderView,
            &'static str,
        >(progress(request, k)),
        progress(request, k).done == (k == frame_count(request)),
        k == frame_count(request) ==> progress(request, k).data == request,
        forall|i: int|
            0 <= i < frame_count(request) ==> (#[trigger] frame(request, encrypted, i)).len()
                == 64,
    decreases k,
{
    let reports = Seq::new(k as nat, |i: int| frame(request, encrypted, i));
    if k == 0 {
        assert(request.take(0) =~= Seq::<u8>::empty());
        assert(reports =~= Seq::<Seq<u8>>::empty());
        assert(progress(request, 0) == reader_start());
    } else {
        lemma_round_trip(request, encrypted, k - 1);
        assert(reports.drop_last() =~= Seq::new(
            (k - 1) as nat,
            |i: int| frame(request, encrypted, i),
        ));
        assert(reports.last() == frame(request, encrypted, k - 1));
        lemma_accept_frame(request, encrypted, k - 1);
    }
}

/// A device's view of a Coldcard on one HID channel.
pub struct ColdcardTransportHID<C> {
    pub channel: C,
}

impl<C> ColdcardTransportHID<C> {
    pub fn new(channel: C) -> (t: ColdcardTransportHID<C>)
        ensures
            t.channel == channel,
    {
        ColdcardTransportHID { channel }
    }
}

} // verus!
