//! How a reply is collected from the serial line to a Jade. The line has no
//! framing: a reply is what arrives until the line falls quiet.
//!
//! The first read waits as long as it takes, for the user may have to act
//! on the device. After it each read gives up after half a second, and the
//! reply ends with the first quiet spell after at least one byte.

use vstd::prelude::*;

verus! {

/// The time that a read after the first waits for bytes, in milliseconds.
pub const JADE_READ_TIMEOUT_MS: i32 = 500;

/// What a read came to.
#[derive(Debug)]
pub enum ReadEvent {
    /// Bytes arrived, or none did and the line is still open.
    Chunk(Vec<u8>),
    /// The read ended without a chunk.
    NoChunk,
    /// The read failed.
    Failed,
    /// No byte arrived in time.
    TimedOut,
}

/// An event as a plain value.
pub ghost enum ReadEventView {
    Chunk(Seq<u8>),
    NoChunk,
    Failed,
    TimedOut,
}

impl View for ReadEvent {
    type V = ReadEventView;

    open spec fn view(&self) -> ReadEventView {
        match self {
            ReadEvent::Chunk(bytes) => ReadEventView::Chunk(bytes@),
            ReadEvent::NoChunk => ReadEventView::NoChunk,
            ReadEvent::Failed => ReadEventView::Failed,
            ReadEvent::TimedOut => ReadEventView::TimedOut,
        }
    }
}

/// What to do after a read.
#[derive(Copy, Clone, Debug, PartialEq, Eq, Structural)]
pub enum ReadStep {
    /// Read again, and give up after `JADE_READ_TIMEOUT_MS`.
    Again,
    /// The reply is what has been collected.
    Finished,
    /// There is no reply.
    Lost,
}

/// Where the collecting of a reply stands.
pub ghost struct SerialView {
    /// The bytes collected so far.
    pub data: Seq<u8>,
    /// Whether the next read is the first.
    pub first: bool,
}

/// What a read does to the collecting of a reply, and what to do next.
///
/// A chunk is added and another read follows. The first read ends the reply
/// where it brings no chunk, and loses it where it fails. A later read that
/// brings no chunk, or fails, ends the reply with what there is. A quiet
/// spell ends the reply once there is a byte; before that the reading goes
/// on.
pub open spec fn read_step(s: SerialView, event: ReadEventView) -> (SerialView, ReadStep) {
    match event {
        ReadEventView::Chunk(bytes) => (
            SerialView { data: s.data + bytes, first: false },
            ReadStep::Again,
        ),
        ReadEventView::NoChunk => (SerialView { first: false, ..s }, ReadStep::Finished),
        ReadEventView::Failed => (
            SerialView { first: false, ..s },
            if s.first {
                ReadStep::Lost
            } else {
                ReadStep::Finished
            },
        ),
        ReadEventView::TimedOut => (
            SerialView { first: false, ..s },
            if s.data.len() > 0 {
                ReadStep::Finished
            } else {
                ReadStep::Again
            },
        ),
    }
}

/// Collects a reply from the serial line.
pub struct SerialReader {
    data: Vec<u8>,
    first: bool,
}

impl View for SerialReader {
    type V = SerialView;

    closed spec fn view(&self) -> SerialView {
        SerialView { data: self.data@, first: self.first }
    }
}

impl SerialReader {
    /// A reader before its first read, which is to wait without a limit.
    pub fn new() -> (r: SerialReader)
        ensures
            r@ == (SerialView { data: Seq::<u8>::empty(), first: true }),
    {
        SerialReader { data: Vec::new(), first: true }
    }

    /// Takes what a read came to and says what to do next.
    pub fn accept(&mut self, event: ReadEvent) -> (step: ReadStep)
        ensures
            final(self)@ == read_step(old(self)@, event@).0,
            step == read_step(old(self)@, event@).1,
    {
        let first = self.first;
        self.first = false;
        match event {
            ReadEvent::Chunk(bytes) => {
                self.data.extend_from_slice(bytes.as_slice());
                assert(self@.data =~= old(self)@.data + bytes@);
                ReadStep::Again
            },
            ReadEvent::NoChunk => ReadStep::Finished,
            ReadEvent::Failed => {
                if first {
                    ReadStep::Lost
                } else {
                    ReadStep::Finished
                }
            },
            ReadEvent::TimedOut => {
                if self.data.len() > 0 {
                    ReadStep::Finished
                } else {
                    ReadStep::Again
                }
            },
        }
    }

    /// The bytes collected.
    pub fn into_data(self) -> (data: Vec<u8>)
        ensures
            data@ == self@.data,
    {
        self.data
    }
}

} // verus!
