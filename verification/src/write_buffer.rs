//! What a transport has taken to write and not written yet, and when the protocol has to hold back.

use vstd::prelude::*;
use crate::objects::ExceptionClass;
use vstd::slice::slice_subrange;
use crate::text::{decimal, push_decimal};

verus! {

pub const DEFAULT_WRITE_BUFFER_HIGH_WATER: usize = 65_536;

pub const DEFAULT_WRITE_BUFFER_LOW_WATER: usize = 16_384;

/// What the protocol has to be told.
#[derive(Clone, Copy, PartialEq, Eq, Debug, Structural)]
pub enum Flow {
    Unchanged,
    Pause,
    Resume,
}

/// The two limits do not go together.
#[derive(Clone, Copy, PartialEq, Eq, Debug, Structural)]
pub struct LimitsError {
    pub high: usize,
    pub low: usize,
}

impl LimitsError {
    pub fn message(&self) -> (text: String)
        ensures
            text@ == "high ("@ + decimal(self.high as nat) + ") must be >= low ("@ + decimal(
                self.low as nat,
            ) + ") must be >= 0"@,
    {
        let mut text = "high (".to_owned();
        push_decimal(&mut text, self.high as u64);
        text.append(") must be >= low (");
        push_decimal(&mut text, self.low as u64);
        text.append(") must be >= 0");
        text
    }

    /// The class of the exception that it becomes.
    pub open spec fn class(self) -> ExceptionClass {
        ExceptionClass::ValueError
    }

    pub fn exception(&self) -> (class: ExceptionClass)
        ensures
            class == self.class(),
    {
        ExceptionClass::ValueError
    }
}

/// The high-water mark that the arguments ask for.
pub open spec fn requested_high(high: Option<usize>, low: Option<usize>) -> int {
    match (high, low) {
        (Some(high), _) => high as int,
        (None, Some(low)) => 4 * low,
        (None, None) => DEFAULT_WRITE_BUFFER_HIGH_WATER as int,
    }
}

/// The low-water mark that the arguments ask for.
pub open spec fn requested_low(high: Option<usize>, low: Option<usize>) -> int {
    match low {
        Some(low) => low as int,
        None => requested_high(high, low) / 4,
    }
}

/// The size of a write buffer and the marks between which the protocol may write.
#[derive(Clone, Copy, PartialEq, Eq, Debug, Structural)]
pub struct StreamWriteBufferState {
    pub size: usize,
    pub high_water: usize,
    pub low_water: usize,
    pub protocol_paused: bool,
}

impl StreamWriteBufferState {
    /// The protocol is held back whenever the buffer is above the high mark, and never when it is
    /// at or below the low one.
    pub open spec fn wf(self) -> bool {
        &&& self.low_water <= self.high_water
        &&& self.size > self.high_water ==> self.protocol_paused
        &&& self.size <= self.low_water ==> !self.protocol_paused
    }

    /// After the marks were set, and the change that it asks for; or why they cannot be set.
    #[verifier::opaque]
    pub open spec fn limited(self, high: Option<usize>, low: Option<usize>) -> Result<
        (StreamWriteBufferState, Flow),
        LimitsError,
    > {
        let new_high = requested_high(high, low) as usize;
        let new_low = requested_low(high, low) as usize;
        if new_high < new_low {
            Err(LimitsError { high: new_high, low: new_low })
        } else {
            Ok(
                (StreamWriteBufferState {
                    high_water: new_high,
                    low_water: new_low,
                    ..self
                }).settled(),
            )
        }
    }

    /// After `len` more bytes were taken. The size stays at the largest number where it would not
    /// fit.
    pub open spec fn enqueued(self, len: usize) -> StreamWriteBufferState {
        let size = if self.size + len > usize::MAX {
            usize::MAX
        } else {
            (self.size + len) as usize
        };
        StreamWriteBufferState {
            size,
            protocol_paused: self.protocol_paused || (len > 0 && size > self.high_water),
            ..self
        }
    }

    /// After `len` bytes were written.
    pub open spec fn drained(self, len: usize) -> StreamWriteBufferState {
        let size = if len > self.size {
            0usize
        } else {
            (self.size - len) as usize
        };
        StreamWriteBufferState {
            size,
            protocol_paused: self.protocol_paused && !(len > 0 && size <= self.low_water),
            ..self
        }
    }

    /// After what was taken was given up.
    pub open spec fn cleared(self) -> StreamWriteBufferState {
        StreamWriteBufferState { size: 0, protocol_paused: false, ..self }
    }

    /// The change that the marks ask for, and the state after it.
    pub open spec fn settled(self) -> (StreamWriteBufferState, Flow) {
        if self.size > self.high_water && !self.protocol_paused {
            (StreamWriteBufferState { protocol_paused: true, ..self }, Flow::Pause)
        } else if self.protocol_paused && self.size <= self.low_water {
            (StreamWriteBufferState { protocol_paused: false, ..self }, Flow::Resume)
        } else {
            (self, Flow::Unchanged)
        }
    }
}

/// Nothing waits, and the marks are the usual ones.
pub open spec fn empty_write_buffer() -> StreamWriteBufferState {
    StreamWriteBufferState {
        size: 0,
        high_water: DEFAULT_WRITE_BUFFER_HIGH_WATER,
        low_water: DEFAULT_WRITE_BUFFER_LOW_WATER,
        protocol_paused: false,
    }
}

impl Default for StreamWriteBufferState {
    fn default() -> (state: Self)
        ensures
            state == empty_write_buffer(),
            state.wf(),
    {
        StreamWriteBufferState {
            size: 0,
            high_water: DEFAULT_WRITE_BUFFER_HIGH_WATER,
            low_water: DEFAULT_WRITE_BUFFER_LOW_WATER,
            protocol_paused: false,
        }
    }
}

impl StreamWriteBufferState {
    /// Sets the marks. A mark that is not given follows from the other one: the high one is four
    /// times the low one.
    pub fn set_limits(&mut self, high: Option<usize>, low: Option<usize>) -> (flow: Result<
        Flow,
        LimitsError,
    >)
        requires
            requested_high(high, low) <= usize::MAX,
        ensures
            old(self).wf() ==> final(self).wf(),
            match old(self).limited(high, low) {
                Ok((after, change)) => *final(self) == after && flow == Result::<
                    Flow,
                    LimitsError,
                >::Ok(change),
                Err(error) => *final(self) == *old(self) && flow == Result::<
                    Flow,
                    LimitsError,
                >::Err(error),
            },
    {
        proof {
            reveal(StreamWriteBufferState::limited);
        }
        let high: usize = match (high, low) {
            (Some(high), _) => high,
            (None, Some(low)) => 4 * low,
            (None, None) => DEFAULT_WRITE_BUFFER_HIGH_WATER,
        };
        let low: usize = match low {
            Some(low) => low,
            None => high / 4,
        };
        if high < low {
            return Err(LimitsError { high, low });
        }
        self.high_water = high;
        self.low_water = low;
        if self.size > self.high_water && !self.protocol_paused {
            self.protocol_paused = true;
            Ok(Flow::Pause)
        } else if self.protocol_paused && self.size <= self.low_water {
            self.protocol_paused = false;
            Ok(Flow::Resume)
        } else {
            Ok(Flow::Unchanged)
        }
    }

    /// More was taken. The result says that the protocol has to be held back now.
    pub fn record_enqueued(&mut self, len: usize) -> (pause: bool)
        ensures
            old(self).wf() ==> final(self).wf(),
            *final(self) == old(self).enqueued(len),
            pause == (final(self).protocol_paused && !old(self).protocol_paused),
    {
        if len == 0 {
            return false;
        }
        self.size = self.size.saturating_add(len);
        if self.size > self.high_water && !self.protocol_paused {
            self.protocol_paused = true;
            return true;
        }
        false
    }

    /// Some of it was written. The result says that the protocol may go on now.
    pub fn record_drained(&mut self, len: usize) -> (resume: bool)
        ensures
            old(self).wf() ==> final(self).wf(),
            *final(self) == old(self).drained(len),
            resume == (old(self).protocol_paused && !final(self).protocol_paused),
    {
        if len == 0 {
            return false;
        }
        self.size = self.size.saturating_sub(len);
        if self.protocol_paused && self.size <= self.low_water {
            self.protocol_paused = false;
            true
        } else {
            false
        }
    }

    /// What was taken is given up. The result says that the protocol has to be told so.
    pub fn clear(&mut self, resume_protocol: bool) -> (resume: bool)
        ensures
            old(self).wf() ==> final(self).wf(),
            resume == (resume_protocol && old(self).protocol_paused),
            *final(self) == old(self).cleared(),
    {
        let resume = resume_protocol && self.protocol_paused;
        self.size = 0;
        self.protocol_paused = false;
        resume
    }
}

/// Writing what was taken leaves the size as it was, as long as the size fits its type.
pub proof fn law_drained_undoes_enqueued(state: StreamWriteBufferState, len: usize)
    requires
        state.size + len <= usize::MAX,
    ensures
        state.enqueued(len).drained(len).size == state.size,
{
}

/// Between the marks nothing changes for the protocol: it is told to hold back only on the way
/// above the high mark, and to go on only on the way down to the low one.
pub proof fn law_marks_give_hysteresis(state: StreamWriteBufferState, len: usize)
    requires
        state.wf(),
    ensures
        state.enqueued(len).protocol_paused && !state.protocol_paused ==> state.enqueued(len).size
            > state.high_water,
        state.protocol_paused && !state.drained(len).protocol_paused ==> state.drained(len).size
            <= state.low_water,
        state.enqueued(len).wf(),
        state.drained(len).wf(),
{
}

/// Bytes that have to be written, and how far that has come.
pub struct OwnedWriteBuffer {
    bytes: Vec<u8>,
    offset: usize,
}

impl View for OwnedWriteBuffer {
    type V = Seq<u8>;

    /// The bytes that are still to be written.
    closed spec fn view(&self) -> Seq<u8> {
        self.bytes@.skip(self.offset as int)
    }
}

/// What is left of the bytes when so many were written.
pub open spec fn left_after(bytes: Seq<u8>, written: nat) -> Seq<u8> {
    bytes.skip(written as int)
}

impl OwnedWriteBuffer {
    pub closed spec fn wf(&self) -> bool {
        self.offset <= self.bytes@.len()
    }

    pub fn from_slice(data: &[u8]) -> (buffer: Self)
        ensures
            buffer.wf(),
            buffer@ == data@,
    {
        let mut bytes: Vec<u8> = Vec::new();
        bytes.extend_from_slice(data);
        assert(bytes@.skip(0) =~= data@);
        OwnedWriteBuffer { bytes, offset: 0 }
    }

    pub fn remaining(&self) -> (rest: &[u8])
        requires
            self.wf(),
        ensures
            rest@ == self@,
    {
        slice_subrange(self.bytes.as_slice(), self.offset, self.bytes.len())
    }

    /// So many bytes were written.
    pub fn advance(&mut self, written: usize)
        requires
            old(self).wf(),
            written <= old(self)@.len(),
        ensures
            final(self).wf(),
            final(self)@ == left_after(old(self)@, written as nat),
    {
        let stored: usize = self.bytes.len();
        assert(self.offset + written <= stored);
        self.offset = self.offset + written;
        assert(self@ =~= old(self)@.skip(written as int));
    }

    pub fn is_empty(&self) -> (empty: bool)
        requires
            self.wf(),
        ensures
            empty == (self@.len() == 0),
    {
        self.offset == self.bytes.len()
    }
}

} // verus!
