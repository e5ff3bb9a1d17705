//! The stream driver: a pull-based state machine that owns the buffer of
//! unparsed bytes and the terminal flag. Whoever owns the byte source runs the
//! loop: pull, and on `NeedChunk` hand over the next chunk or report the end.

use vstd::prelude::*;
use crate::decoder::{decode_frame, done_marker, frame_decoded, ErrorView, StreamingError};
use crate::frame::{append_range, extract_frame, next_frame, FrameView};
use crate::text::same_text;

verus! {

broadcast use vstd::seq::group_seq_axioms;

/// The bound on the unparsed tail of a stream, in bytes (1 MiB).
pub const MAX_EVENT_BYTES: usize = 1024 * 1024;

/// The next frame that a pull settles on, passing over frames with empty
/// data, and the buffer left after it.
pub open spec fn next_live_frame(buf: Seq<u8>) -> (Option<FrameView>, Seq<u8>)
    decreases buf.len(),
{
    match next_frame(buf) {
        None => (None, buf),
        Some((f, n)) => if f.data.len() == 0 && 0 < n <= buf.len() {
            next_live_frame(buf.skip(n))
        } else {
            (Some(f), buf.skip(n))
        },
    }
}

/// The state of a driver: its unparsed bytes and whether it has ended.
pub struct DriverView {
    pub buf: Seq<u8>,
    pub done: bool,
}

/// What a pull settles on, before any decoding.
pub enum Step {
    /// No complete frame is buffered: the next chunk is needed.
    NeedChunk,
    /// The stream has ended.
    End,
    /// This frame is to be decoded.
    Frame(FrameView),
}

/// One pull: an ended driver stays ended; otherwise the next live frame is
/// taken off the buffer, and the end marker ends the stream.
pub open spec fn pull_step(s: DriverView) -> (DriverView, Step) {
    if s.done {
        (s, Step::End)
    } else {
        let (live, rest) = next_live_frame(s.buf);
        match live {
            None => (DriverView { buf: rest, done: false }, Step::NeedChunk),
            Some(f) => if f.data == done_marker() {
                (DriverView { buf: rest, done: true }, Step::End)
            } else {
                (DriverView { buf: rest, done: false }, Step::Frame(f))
            },
        }
    }
}

/// Taking a chunk: an ended driver ignores it; otherwise it is appended, and a
/// buffer past the bound ends the stream (the flag says so).
pub open spec fn receive_step(s: DriverView, chunk: Seq<u8>) -> (DriverView, bool) {
    if s.done {
        (s, false)
    } else {
        let buf = s.buf + chunk;
        if buf.len() > MAX_EVENT_BYTES {
            (DriverView { buf, done: true }, true)
        } else {
            (DriverView { buf, done: false }, false)
        }
    }
}

/// What one pull gives.
pub enum Pull<T> {
    /// An event or the stream's last error.
    Ready(Result<T, StreamingError>),
    /// The stream has ended; every later pull ends too.
    End,
    /// No complete frame is buffered: hand over the next chunk.
    NeedChunk,
}

/// The decoded item of a pull, seen as `decode_frame` gives it.
pub open spec fn item_view<T>(x: Result<T, StreamingError>) -> Result<Option<T>, ErrorView> {
    match x {
        Ok(v) => Ok(Some(v)),
        Err(e) => Err(e@),
    }
}

/// The stream driver: the buffer of bytes not yet parsed, and whether the
/// stream has ended. Once ended it stays ended.
pub struct StreamDriver {
    buf: Vec<u8>,
    done: bool,
}

impl View for StreamDriver {
    type V = DriverView;

    closed spec fn view(&self) -> DriverView {
        DriverView { buf: self.buf@, done: self.done }
    }
}

impl StreamDriver {
    /// A driver with an empty buffer that has not ended.
    pub fn new() -> (r: StreamDriver)
        ensures
            r@ == (DriverView { buf: Seq::empty(), done: false }),
    {
        let r = StreamDriver { buf: Vec::new(), done: false };
        assert(r@.buf =~= Seq::<u8>::empty());
        r
    }

    /// Whether the stream has ended.
    pub fn is_done(&self) -> (r: bool)
        ensures
            r == self@.done,
    {
        self.done
    }

    /// Takes the next chunk of the byte source; see `receive_step`. Returns
    /// the `EventTooLarge` error where the buffer went past the bound.
    pub fn receive(&mut self, chunk: &[u8]) -> (r: Option<StreamingError>)
        ensures
            final(self)@ == receive_step(old(self)@, chunk@).0,
            r is Some == receive_step(old(self)@, chunk@).1,
            r matches Some(e) ==> e@ == (ErrorView::EventTooLarge { limit_bytes: MAX_EVENT_BYTES }),
    {
        if self.done {
            return None;
        }
        let n = chunk.len();
        append_range(&mut self.buf, chunk, 0, n);
        assert(chunk@.subrange(0, n as int) =~= chunk@);
        if self.buf.len() > MAX_EVENT_BYTES {
            self.done = true;
            Some(StreamingError::EventTooLarge { limit_bytes: MAX_EVENT_BYTES })
        } else {
            None
        }
    }

    /// Ends the stream: the byte source is exhausted or failed. Bytes still
    /// buffered are dropped unread.
    pub fn close(&mut self)
        ensures
            final(self)@ == (DriverView { buf: old(self)@.buf, done: true }),
    {
        self.done = true;
    }

    /// Pulls the next item: passes over frames with empty data, stops at the
    /// end marker, and decodes the first other frame with `decode`. A decode
    /// error ends the stream.
    pub fn pull<T, F: Fn(String) -> Result<T, serde_json::Error>>(&mut self, decode: &F) -> (r: Pull<T>)
        requires
            forall|s: String| call_requires(*decode, (s,)),
        ensures
            ({
                let (next, step) = pull_step(old(self)@);
                match step {
                    Step::NeedChunk => r is NeedChunk && final(self)@ == next,
                    Step::End => r is End && final(self)@ == next,
                    Step::Frame(f) => r matches Pull::Ready(x) && frame_decoded(f, *decode, item_view(x))
                        && final(self)@ == (DriverView { buf: next.buf, done: x is Err }),
                }
            }),
    {
        if self.done {
            return Pull::End;
        }
        loop
            invariant
                !self.done,
                !old(self).done,
                forall|s: String| call_requires(*decode, (s,)),
                next_live_frame(self.buf@) == next_live_frame(old(self).buf@),
            decreases self.buf@.len(),
        {
            match extract_frame(self.buf.as_slice()) {
                None => {
                    assert(next_live_frame(self.buf@) == (None::<FrameView>, self.buf@));
                    return Pull::NeedChunk;
                },
                Some((frame, consumed)) => {
                    let ghost before = self.buf@;
                    let rest = self.buf.split_off(consumed);
                    self.buf = rest;
                    assert(self.buf@ =~= before.skip(consumed as int));
                    let ghost f = frame@;
                    if frame.data.as_str().is_empty() {
                        assert(next_live_frame(before) == next_live_frame(self.buf@));
                        continue;
                    }
                    assert(next_live_frame(before) == (Some(f), self.buf@));
                    if same_text(frame.data.as_str(), "[DONE]") {
                        self.done = true;
                        return Pull::End;
                    }
                    match decode_frame(frame, decode) {
                        Ok(Some(event)) => {
                            return Pull::Ready(Ok(event));
                        },
                        Ok(None) => {
                            assert(false);
                            continue;
                        },
                        Err(e) => {
                            self.done = true;
                            return Pull::Ready(Err(e));
                        },
                    }
                },
            }
        }
    }
}

} // verus!
