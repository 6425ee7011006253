//! The byte buffer behind a stream reader: append at the end, consume from the front.

use vstd::prelude::*;
use vstd::slice::slice_subrange;

verus! {

/// Consumed bytes are dropped lazily; a prefix shorter than this is never worth moving the rest.
pub const COMPACT_THRESHOLD: usize = 4096;

/// Bytes that were received and not read yet. `start` counts the bytes at the front of `bytes`
/// that were read already.
pub struct ReadBuffer {
    bytes: Vec<u8>,
    start: usize,
}

impl View for ReadBuffer {
    type V = Seq<u8>;

    /// The unread bytes, oldest first.
    closed spec fn view(&self) -> Seq<u8> {
        self.bytes@.skip(self.start as int)
    }
}

/// The bytes without the oldest `n`, or none where there are fewer.
pub open spec fn without_first(unread: Seq<u8>, n: nat) -> Seq<u8> {
    if n <= unread.len() {
        unread.skip(n as int)
    } else {
        Seq::empty()
    }
}

impl ReadBuffer {
    /// The read prefix stays inside the storage, is empty whenever nothing is unread, and once it
    /// reaches the threshold it is smaller than what is unread.
    pub closed spec fn wf(&self) -> bool {
        &&& self.start <= self.bytes@.len()
        &&& self.start == self.bytes@.len() ==> self.start == 0
        &&& self.start >= COMPACT_THRESHOLD ==> 2 * self.start < self.bytes@.len()
    }

    /// The bytes that the buffer still stores although they were read.
    pub closed spec fn stale(&self) -> nat {
        self.start as nat
    }

    pub fn with_capacity(capacity: usize) -> (buffer: Self)
        requires
            capacity <= isize::MAX,
        ensures
            buffer.wf(),
            buffer@ == Seq::<u8>::empty(),
            buffer.stale() == 0,
    {
        ReadBuffer { bytes: Vec::with_capacity(capacity), start: 0 }
    }

    pub fn len(&self) -> (len: usize)
        requires
            self.wf(),
        ensures
            len == self@.len(),
    {
        self.bytes.len().saturating_sub(self.start)
    }

    pub fn is_empty(&self) -> (empty: bool)
        requires
            self.wf(),
        ensures
            empty == (self@.len() == 0),
    {
        self.len() == 0
    }

    pub fn unread(&self) -> (unread: &[u8])
        requires
            self.wf(),
        ensures
            unread@ == self@,
    {
        slice_subrange(self.bytes.as_slice(), self.start, self.bytes.len())
    }

    /// Appends `data` behind the unread bytes.
    pub fn extend(&mut self, data: &[u8])
        requires
            old(self).wf(),
        ensures
            final(self).wf(),
            final(self)@ == old(self)@ + data@,
            final(self).stale() <= old(self).stale(),
    {
        if data.len() == 0 {
            assert(self@ + data@ =~= self@);
            return;
        }
        self.compact_if_needed();
        let ghost before = self.bytes@;
        self.bytes.reserve(data.len());
        self.bytes.extend_from_slice(data);
        assert(self.bytes@ =~= before + data@);
        assert(self@ =~= old(self)@ + data@);
    }

    /// Drops the oldest `n` unread bytes, or all of them where fewer are unread.
    pub fn consume(&mut self, n: usize)
        requires
            old(self).wf(),
        ensures
            final(self).wf(),
            final(self)@ == without_first(old(self)@, n as nat),
    {
        if n >= self.len() {
            self.start = self.bytes.len();
        } else {
            let stored: usize = self.bytes.len();
            assert(self.start + n <= stored);
            self.start = self.start + n;
        }
        self.compact_if_needed();
        assert(n <= old(self)@.len() ==> self@ =~= old(self)@.skip(n as int));
        assert(n > old(self)@.len() ==> self@ =~= Seq::<u8>::empty());
    }

    /// Drops every unread byte.
    pub fn consume_all(&mut self)
        requires
            old(self).wf(),
        ensures
            final(self).wf(),
            final(self)@ == Seq::<u8>::empty(),
            final(self).stale() == 0,
    {
        self.start = self.bytes.len();
        self.compact_if_needed();
        assert(self@ =~= Seq::<u8>::empty());
    }

    /// Forgets what is unread and holds `data` instead.
    pub fn replace(&mut self, data: &[u8])
        ensures
            final(self).wf(),
            final(self)@ == data@,
            final(self).stale() == 0,
    {
        self.bytes.clear();
        self.bytes.extend_from_slice(data);
        self.start = 0;
        assert(self.bytes@ =~= data@);
        assert(self@ =~= data@);
    }

    /// Gives the read prefix up where it is all there is, or where it is large both absolutely and
    /// against what is unread. What is unread stays as it is.
    fn compact_if_needed(&mut self)
        requires
            old(self).start <= old(self).bytes@.len(),
        ensures
            final(self).wf(),
            final(self)@ == old(self)@,
            final(self).start <= old(self).start,
            final(self).start == old(self).start || final(self).start == 0,
            old(self).start == old(self).bytes@.len() ==> final(self).start == 0,
    {
        if self.start == 0 {
            return;
        }
        if self.start == self.bytes.len() {
            self.bytes.clear();
            self.start = 0;
            assert(self@ =~= old(self)@);
            return;
        }
        if self.start >= COMPACT_THRESHOLD && self.start >= self.bytes.len() - self.start {
            let tail = self.bytes.split_off(self.start);
            self.bytes = tail;
            self.start = 0;
            assert(self@ =~= old(self)@);
        }
    }
}

/// The memory law of the buffer: what it keeps of bytes that were read already is below the
/// threshold, or less than what is still unread.
pub proof fn law_stale_bytes_are_bounded(buffer: ReadBuffer)
    requires
        buffer.wf(),
    ensures
        buffer.stale() < COMPACT_THRESHOLD || buffer.stale() < buffer@.len(),
        buffer@.len() == 0 ==> buffer.stale() == 0,
{
}

} // verus!
