//! Framing of APDU bytes over the 64-byte reports of a Ledger's HID
//! interface.
//!
//! A message is sent as its length in two bytes, most significant first,
//! followed by its bytes. That stream is cut into pieces of 59 bytes. Each
//! piece travels in one report: the channel (two bytes), the tag `0x05`, the
//! piece's number (two bytes, counted from 0) and the piece, padded with
//! zeros.

use crate::bytes::{be16, be16_value};
use vstd::prelude::*;

verus! {

pub const LEDGER_VID: u16 = 0x2c97;

pub const LEDGER_USAGE_PAGE: u16 = 0xFFA0;

pub const LEDGER_CHANNEL: u16 = 0x0101;

/// The tag of every report.
pub const LEDGER_TAG: u8 = 0x05;

/// The size of a report.
pub const LEDGER_PACKET_SIZE: usize = 64;

/// The bytes of the message stream that one report carries.
pub const LEDGER_PACKET_PAYLOAD: usize = 59;

#[derive(Debug)]
pub enum LedgerHIDError {
    /// The reports do not follow the framing.
    Comm(&'static str),
    /// The channel failed: the message of its error.
    Hid(String),
}

/// Byte `index` of the stream that carries a message: the length, then the
/// message, then zeros without end.
pub open spec fn stream_byte(apdu: Seq<u8>, index: int) -> u8 {
    if index < 2 {
        be16(apdu.len() as int)[index]
    } else if index - 2 < apdu.len() {
        apdu[index - 2]
    } else {
        0
    }
}

/// The number of reports that a message takes.
pub open spec fn frame_count(apdu: Seq<u8>) -> int {
    (apdu.len() as int + 2 + 58) / 59
}

/// The five bytes that head report `k` on a channel.
pub open spec fn frame_header(channel: u16, k: int) -> Seq<u8> {
    be16(channel as int) + seq![LEDGER_TAG] + be16(k)
}

/// Report `k` of a message.
pub open spec fn frame(channel: u16, apdu: Seq<u8>, k: int) -> Seq<u8> {
    frame_header(channel, k) + Seq::new(59, |j: int| stream_byte(apdu, 59 * k + j))
}

/// The reports of a message, in the order in which they are sent.
pub open spec fn frames(channel: u16, apdu: Seq<u8>) -> Seq<Seq<u8>> {
    Seq::new(frame_count(apdu) as nat, |k: int| frame(channel, apdu, k))
}

/// What stands in a report to write: the frame, after a zero byte where the
/// platform wants the report id in front.
pub open spec fn report(with_report_id: bool, frame: Seq<u8>) -> Seq<u8> {
    if with_report_id {
        seq![0u8] + frame
    } else {
        frame
    }
}

fn write_frame(channel: u16, apdu_command: &[u8], k: usize, with_report_id: bool) -> (out: Vec<u8>)
    requires
        59 * k < apdu_command@.len() + 2,
    ensures
        out@ == report(with_report_id, frame(channel, apdu_command@, k as int)),
{
    let len = apdu_command.len();
    let mut out: Vec<u8> = Vec::new();
    if with_report_id {
        out.push(0);
    }
    let ghost start = out@;
    crate::bytes::push_be16(&mut out, channel as usize);
    out.push(LEDGER_TAG);
    crate::bytes::push_be16(&mut out, k);
    assert(out@ =~= start + frame_header(channel, k as int));
    let base: u128 = 59 * (k as u128);
    let mut j: usize = 0;
    while j < 59
        invariant
            j <= 59,
            len == apdu_command@.len(),
            base == 59 * k,
            out@ == start + frame_header(channel, k as int) + Seq::new(
                j as nat,
                |i: int| stream_byte(apdu_command@, 59 * k + i),
            ),
        decreases 59 - j,
    {
        let index: u128 = base + j as u128;
        let b: u8 = if index == 0 {
            crate::bytes::second_byte(len)
        } else if index == 1 {
            crate::bytes::low_byte(len)
        } else if index - 2 < len as u128 {
            apdu_command[(index - 2) as usize]
        } else {
            0
        };
        assert(b == stream_byte(apdu_command@, 59 * k + j));
        out.push(b);
        j = j + 1;
        assert(out@ =~= start + frame_header(channel, k as int) + Seq::new(
            j as nat,
            |i: int| stream_byte(apdu_command@, 59 * k + i),
        ));
    }
    assert(out@ =~= report(with_report_id, frame(channel, apdu_command@, k as int)));
    out
}

/// The reports that carry a message, in order. With `with_report_id` each
/// report has 65 bytes, a zero in front; without, 64.
pub fn write_apdu(channel: u16, apdu_command: &[u8], with_report_id: bool) -> (out: Vec<Vec<u8>>)
    ensures
        out@.len() == frame_count(apdu_command@),
        forall|k: int|
            0 <= k < out@.len() ==> #[trigger] out@[k]@ == report(
                with_report_id,
                frames(channel, apdu_command@)[k],
            ),
{
    let len = apdu_command.len();
    let mut out: Vec<Vec<u8>> = Vec::new();
    let mut k: usize = 0;
    while 59 * (k as u128) < len as u128 + 2
        invariant
            len == apdu_command@.len(),
            out@.len() == k,
            59 * k <= len + 60,
            forall|i: int|
                0 <= i < k ==> #[trigger] out@[i]@ == report(
                    with_report_id,
                    frame(channel, apdu_command@, i),
                ),
        decreases len + 61 - 59 * k,
    {
        let f = write_frame(channel, apdu_command, k, with_report_id);
        out.push(f);
        k = k + 1;
    }
    out
}

/// Where the reading of a message stands.
pub ghost struct ReaderView {
    /// The number that the next report must carry.
    pub sequence_idx: int,
    /// The length that the first report announced; 0 before it.
    pub expected: int,
    /// The bytes of the message read so far.
    pub answer: Seq<u8>,
    /// Whether the message is complete.
    pub done: bool,
}

/// The state before the first report.
pub open spec fn reader_start() -> ReaderView {
    ReaderView { sequence_idx: 0, expected: 0, answer: Seq::<u8>::empty(), done: false }
}

/// What one report does to the reading of a message on a channel. `read` is
/// the number of bytes that the channel said it read into the report.
///
/// A complete message takes no more reports. Otherwise the report must hold
/// its header (7 bytes in the first report, which also announces the length;
/// 5 in the others), the channel, the tag and the expected number. It adds
/// as many of its bytes as the message still misses.
pub open spec fn accept_step(channel: u16, s: ReaderView, buffer: Seq<u8>, read: int) -> Result<
    ReaderView,
    &'static str,
>
    recommends
        buffer.len() == 64,
{
    if s.done {
        Ok(s)
    } else if (s.sequence_idx == 0 && read < 7) || read < 5 {
        Err("Read error. Incomplete header")
    } else if be16_value(buffer[0], buffer[1]) != channel {
        Err("Invalid channel")
    } else if buffer[2] != LEDGER_TAG {
        Err("Invalid tag")
    } else if be16_value(buffer[3], buffer[4]) != s.sequence_idx {
        Err("Invalid sequence idx")
    } else {
        let header: int = if s.sequence_idx == 0 {
            7
        } else {
            5
        };
        let expected = if s.sequence_idx == 0 {
            be16_value(buffer[5], buffer[6])
        } else {
            s.expected
        };
        let missing = expected - s.answer.len();
        let taken = if missing < 64 - header {
            missing
        } else {
            64 - header
        };
        let answer = s.answer + buffer.subrange(header, header + taken);
        if answer.len() >= expected {
            Ok(ReaderView { sequence_idx: s.sequence_idx, expected, answer, done: true })
        } else {
            Ok(ReaderView { sequence_idx: s.sequence_idx + 1, expected, answer, done: false })
        }
    }
}

/// Reassembles a message from the reports of one channel.
pub struct ApduReader {
    channel: u16,
    sequence_idx: u16,
    expected_apdu_len: usize,
    answer: Vec<u8>,
    done: bool,
}

impl View for ApduReader {
    type V = ReaderView;

    closed spec fn view(&self) -> ReaderView {
        ReaderView {
            sequence_idx: self.sequence_idx as int,
            expected: self.expected_apdu_len as int,
            answer: self.answer@,
            done: self.done,
        }
    }
}

impl ApduReader {
    /// What holds of every reader that `new` made and `accept` worked on:
    /// while the message is incomplete, the bytes read are those of the
    /// reports so far, and fewer than announced.
    pub closed spec fn wf(&self) -> bool {
        &&& self.expected_apdu_len <= 0xffff
        &&& !self.done && self.sequence_idx == 0 ==> self.answer@.len() == 0
        &&& !self.done && self.sequence_idx > 0 ==> self.answer@.len() == 59 * self.sequence_idx
            - 2 && self.answer@.len() < self.expected_apdu_len
    }

    /// The channel whose reports are read.
    pub closed spec fn channel(&self) -> u16 {
        self.channel
    }

    pub fn new(channel: u16) -> (r: ApduReader)
        ensures
            r@ == reader_start(),
            r.channel() == channel,
            r.wf(),
    {
        ApduReader {
            channel,
            sequence_idx: 0,
            expected_apdu_len: 0,
            answer: Vec::with_capacity(256),
            done: false,
        }
    }

    /// Takes the next report, of which the channel read `read` bytes. Says
    /// whether the message is now complete. A refused report changes
    /// nothing.
    pub fn accept(&mut self, buffer: &[u8; 64], read: usize) -> (r: Result<bool, LedgerHIDError>)
        requires
            old(self).wf(),
        ensures
            final(self).wf(),
            final(self).channel() == old(self).channel(),
            match accept_step(old(self).channel(), old(self)@, buffer@, read as int) {
                Ok(s) => r == Ok::<bool, LedgerHIDError>(s.done) && final(self)@ == s,
                Err(message) => r == Err::<bool, LedgerHIDError>(LedgerHIDError::Comm(message))
                    && final(self)@ == old(self)@,
            },
    {
        if self.done {
            return Ok(true);
        }
        if (self.sequence_idx == 0 && read < 7) || read < 5 {
            return Err(LedgerHIDError::Comm("Read error. Incomplete header"));
        }
        let rcv_channel = crate::bytes::read_be16(buffer[0], buffer[1]);
        let rcv_tag = buffer[2];
        let rcv_seq_idx = crate::bytes::read_be16(buffer[3], buffer[4]);
        if rcv_channel != self.channel {
            return Err(LedgerHIDError::Comm("Invalid channel"));
        }
        if rcv_tag != LEDGER_TAG {
            return Err(LedgerHIDError::Comm("Invalid tag"));
        }
        if rcv_seq_idx != self.sequence_idx {
            return Err(LedgerHIDError::Comm("Invalid sequence idx"));
        }
        let mut position: usize = 5;
        let mut expected: usize = self.expected_apdu_len;
        if rcv_seq_idx == 0 {
            expected = crate::bytes::read_be16(buffer[5], buffer[6]) as usize;
            position = 7;
        }
        let available: usize = 64 - position;
        let missing: usize = expected - self.answer.len();
        let end_p = position + if available < missing {
            available
        } else {
            missing
        };
        let new_chunk = vstd::slice::slice_subrange(buffer.as_slice(), position, end_p);
        self.expected_apdu_len = expected;
        self.answer.extend_from_slice(new_chunk);
        let done = self.answer.len() >= expected;
        if done {
            self.done = true;
        } else {
            self.sequence_idx = self.sequence_idx + 1;
        }
        proof {
            let step = accept_step(old(self).channel(), old(self)@, buffer@, read as int);
            assert(step is Ok);
            assert(self@.answer =~= step->Ok_0.answer);
        }
        Ok(done)
    }

    /// Whether the message is complete.
    pub fn is_complete(&self) -> (b: bool)
        ensures
            b == self@.done,
    {
        self.done
    }

    /// The bytes of the message read so far: all of it, once it is
    /// complete.
    pub fn into_answer(self) -> (answer: Vec<u8>)
        ensures
            answer@ == self@.answer,
    {
        self.answer
    }
}

/// The state of a reader after the reports of some messages' frames, fed in
/// order from `s`; or the complaint about the first one that it refuses.
pub open spec fn feed(channel: u16, s: ReaderView, reports: Seq<Seq<u8>>) -> Result<
    ReaderView,
    &'static str,
>
    decreases reports.len(),
{
    if reports.len() == 0 {
        Ok(s)
    } else {
        match feed(channel, s, reports.drop_last()) {
            Ok(before) => accept_step(channel, before, reports.last(), 64),
            Err(message) => Err(message),
        }
    }
}

/// Where a reader stands after the first `k` reports of a message.
pub open spec fn progress(apdu: Seq<u8>, k: int) -> ReaderView {
    let n = frame_count(apdu);
    ReaderView {
        sequence_idx: if k == n {
            n - 1
        } else {
            k
        },
        expected: if k == 0 {
            0
        } else {
            apdu.len() as int
        },
        answer: if k == 0 {
            Seq::<u8>::empty()
        } else if k == n {
            apdu
        } else {
            apdu.take(59 * k - 2)
        },
        done: k == n,
    }
}

/// One report of a message takes the reader from its place after `k`
/// reports to its place after `k + 1`.
pub proof fn lemma_accept_frame(channel: u16, apdu: Seq<u8>, k: int)
    requires
        apdu.len() <= 0xffff,
        0 <= k < frame_count(apdu),
    ensures
        accept_step(channel, progress(apdu, k), frame(channel, apdu, k), 64) == Ok::<
            ReaderView,
            &'static str,
        >(progress(apdu, k + 1)),
{
    let n = frame_count(apdu);
    let len = apdu.len() as int;
    let f = frame(channel, apdu, k);
    let s = progress(apdu, k);
    assert(f.len() == 64);
    assert(f[0] == be16(channel as int)[0]);
    assert(f[1] == be16(channel as int)[1]);
    assert(f[2] == LEDGER_TAG);
    assert(f[3] == be16(k)[0]);
    assert(f[4] == be16(k)[1]);
    assert(k < 0x10000);
    assert(be16_value(f[0], f[1]) == channel);
    assert(be16_value(f[3], f[4]) == k);
    let p = Seq::new(59, |j: int| stream_byte(apdu, 59 * k + j));
    assert(f =~= frame_header(channel, k) + p);
    let header: int = if k == 0 {
        7
    } else {
        5
    };
    if k == 0 {
        assert(f[5] == p[0]);
        assert(f[6] == p[1]);
        assert(be16_value(f[5], f[6]) == len);
    }
    let expected = len;
    let missing = expected - s.answer.len();
    let taken = if missing < 64 - header {
        missing
    } else {
        64 - header
    };
    let answer = s.answer + f.subrange(header, header + taken);
    let next = progress(apdu, k + 1);
    assert(answer =~= next.answer) by {
        assert(answer.len() == next.answer.len());
        assert forall|i: int| 0 <= i < answer.len() implies answer[i] == next.answer[i] by {
            if i >= s.answer.len() {
                let j = i - s.answer.len() + header - 5;
                assert(answer[i] == f[5 + j]);
                assert(f[5 + j] == p[j]);
            }
        }
    }
}

/// Reassembling the reports of a message gives the message back: fed in
/// order to a fresh reader, the first `k` reports of a message of at most
/// 65535 bytes are all accepted, and the reader is complete exactly when all
/// of them are in, holding the message. Every report has 64 bytes and
/// carries its own number.
pub proof fn lemma_round_trip(channel: u16, apdu: Seq<u8>, k: int)
    requires
        apdu.len() <= 0xffff,
        0 <= k <= frame_count(apdu),
    ensures
        feed(channel, reader_start(), frames(channel, apdu).take(k)) == Ok::<
            ReaderView,
            &'static str,
        >(progress(apdu, k)),
        progress(apdu, k).done == (k == frame_count(apdu)),
        k == frame_count(apdu) ==> progress(apdu, k).answer == apdu,
        forall|i: int|
            0 <= i < frame_count(apdu) ==> (#[trigger] frames(channel, apdu)[i]).len() == 64
                && frames(channel, apdu)[i].subrange(3, 5) == be16(i),
    decreases k,
{
    let all = frames(channel, apdu);
    assert forall|i: int| 0 <= i < frame_count(apdu) implies (#[trigger] all[i]).len() == 64
        && all[i].subrange(3, 5) == be16(i) by {
        assert(all[i].subrange(3, 5) =~= be16(i));
    }
    if k == 0 {
        assert(all.take(0) =~= Seq::<Seq<u8>>::empty());
        assert(progress(apdu, 0) == reader_start());
    } else {
        lemma_round_trip(channel, apdu, k - 1);
        assert(all.take(k).drop_last() =~= all.take(k - 1));
        assert(all.take(k).last() == frame(channel, apdu, k - 1));
        lemma_accept_frame(channel, apdu, k - 1);
    }
}

/// A device's view of a Ledger on one HID channel.
pub struct LedgerTransportHID<C> {
    pub channel: C,
}

impl<C> LedgerTransportHID<C> {
    pub fn new(channel: C) -> (t: LedgerTransportHID<C>)
        ensures
            t.channel == channel,
    {
        LedgerTransportHID { channel }
    }
}

} // verus!
