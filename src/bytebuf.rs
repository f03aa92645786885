//! A growable byte buffer with a read cursor and a saved (marked) cursor.

use vstd::math::min;
use vstd::prelude::*;

verus! {

/// A growable byte buffer. Bytes are appended at the end and read from the
/// read cursor; the cursor can be saved and restored.
#[derive(Clone, Debug)]
pub struct ByteBuf {
    inner: Vec<u8>,
    read_cursor_position: usize,
    marked_read_position: usize,
}

/// The abstract state of a [`ByteBuf`]: its bytes, the read cursor and the
/// saved cursor.
pub ghost struct ByteBufView {
    pub bytes: Seq<u8>,
    pub read: nat,
    pub marked: nat,
}

impl View for ByteBuf {
    type V = ByteBufView;

    closed spec fn view(&self) -> ByteBufView {
        ByteBufView {
            bytes: self.inner@,
            read: self.read_cursor_position as nat,
            marked: self.marked_read_position as nat,
        }
    }
}

/// Relies on `Vec::capacity`: the capacity is never below the length.
#[verifier::external_body]
fn vec_capacity(v: &Vec<u8>) -> (r: usize)
    ensures
        r >= v@.len(),
{
    v.capacity()
}

impl ByteBuf {
    /// Both cursors lie within the bytes.
    pub open spec fn wf(&self) -> bool {
        &&& self@.read <= self@.bytes.len()
        &&& self@.marked <= self@.bytes.len()
    }

    /// An empty buffer with room for `capacity` bytes.
    pub fn with_capacity(capacity: usize) -> (r: Self)
        ensures
            r.wf(),
            r@.bytes == Seq::<u8>::empty(),
            r@.read == 0,
            r@.marked == 0,
    {
        Self { inner: Vec::with_capacity(capacity), read_cursor_position: 0, marked_read_position: 0 }
    }

    /// An empty buffer.
    pub fn new() -> (r: Self)
        ensures
            r.wf(),
            r@.bytes == Seq::<u8>::empty(),
            r@.read == 0,
            r@.marked == 0,
    {
        Self { inner: Vec::new(), read_cursor_position: 0, marked_read_position: 0 }
    }

    /// The read cursor.
    pub fn read_position(&self) -> (r: usize)
        ensures
            r == self@.read,
    {
        self.read_cursor_position
    }

    /// Saves the read cursor.
    pub fn mark_read_position(&mut self)
        requires
            old(self).wf(),
        ensures
            final(self).wf(),
            final(self)@ == (ByteBufView { marked: old(self)@.read, ..old(self)@ }),
    {
        self.marked_read_position = self.read_cursor_position;
    }

    /// Moves the read cursor back to the saved one.
    pub fn reset_read_position(&mut self)
        requires
            old(self).wf(),
        ensures
            final(self).wf(),
            final(self)@ == (ByteBufView { read: old(self)@.marked, ..old(self)@ }),
    {
        self.read_cursor_position = self.marked_read_position;
    }

    /// The bytes from the read cursor on.
    pub fn inner(&self) -> (r: &[u8])
        requires
            self.wf(),
        ensures
            r@ == self@.bytes.subrange(self@.read as int, self@.bytes.len() as int),
    {
        vstd::slice::slice_subrange(self.inner.as_slice(), self.read_cursor_position, self.inner.len())
    }

    /// Makes room for at least `additional` more bytes.
    pub fn reserve(&mut self, additional: usize)
        requires
            old(self).wf(),
        ensures
            final(self).wf(),
            final(self)@ == old(self)@,
    {
        self.inner.reserve(additional);
    }

    /// Removes all bytes prior to the read cursor. The unread bytes move to
    /// the front, the read cursor goes to 0, and the saved cursor moves back
    /// by the old read cursor (to 0 if it lay before it).
    pub fn remove_prior(&mut self)
        requires
            old(self).wf(),
        ensures
            final(self).wf(),
            final(self)@.bytes == old(self)@.bytes.subrange(
                old(self)@.read as int,
                old(self)@.bytes.len() as int,
            ),
            final(self)@.read == 0,
            final(self)@.marked == if old(self)@.marked >= old(self)@.read {
                (old(self)@.marked - old(self)@.read) as nat
            } else {
                0
            },
    {
        let new_capacity = vec_capacity(&self.inner) - self.read_cursor_position;
        let mut new_inner: Vec<u8> = Vec::with_capacity(new_capacity);
        let unread = vstd::slice::slice_subrange(
            self.inner.as_slice(),
            self.read_cursor_position,
            self.inner.len(),
        );
        new_inner.extend_from_slice(unread);
        assert(new_inner@ =~= unread@);
        self.marked_read_position = if self.marked_read_position >= self.read_cursor_position {
            self.marked_read_position - self.read_cursor_position
        } else {
            0
        };
        self.read_cursor_position = 0;
        self.inner = new_inner;
    }

    /// Appends the bytes of `src`; both cursors stay where they were.
    pub fn put_slice(&mut self, src: &[u8])
        requires
            old(self).wf(),
        ensures
            final(self).wf(),
            final(self)@ == (ByteBufView { bytes: old(self)@.bytes + src@, ..old(self)@ }),
    {
        self.inner.extend_from_slice(src);
        assert(self.inner@ =~= old(self)@.bytes + src@);
    }

    /// The number of bytes held, read or not.
    pub fn len(&self) -> (r: usize)
        ensures
            r == self@.bytes.len(),
    {
        self.inner.len()
    }

    /// The number of bytes the storage can hold without growing.
    pub fn capacity(&self) -> (r: usize)
        ensures
            r >= self@.bytes.len(),
    {
        vec_capacity(&self.inner)
    }

    /// The number of bytes left to read.
    pub fn remaining(&self) -> (r: usize)
        requires
            self.wf(),
        ensures
            r == self@.bytes.len() - self@.read,
    {
        self.inner.len() - self.read_cursor_position
    }

    /// Moves the read cursor `cnt` bytes on.
    pub fn advance(&mut self, cnt: usize)
        requires
            old(self).wf(),
            old(self)@.read + cnt <= old(self)@.bytes.len(),
        ensures
            final(self).wf(),
            final(self)@ == (ByteBufView { read: (old(self)@.read + cnt) as nat, ..old(self)@ }),
    {
        let len = self.inner.len();
        assert(self.read_cursor_position + cnt <= len);
        self.read_cursor_position = self.read_cursor_position + cnt;
    }

    /// The number of bytes that can be appended without growing the storage:
    /// the capacity, which the allocator decides, less the length.
    pub fn remaining_mut(&self) -> (r: usize)
        ensures
            r <= usize::MAX - self@.bytes.len(),
    {
        vec_capacity(&self.inner) - self.inner.len()
    }

    /// Copies bytes from the read cursor into `buf`, as many as fit in
    /// `buf` and are left to read, and returns how many. The read cursor
    /// does not move.
    pub fn read(&mut self, buf: &mut [u8]) -> (n: usize)
        requires
            old(self).wf(),
        ensures
            *final(self) == *old(self),
            n == min(old(buf)@.len() as int, old(self)@.bytes.len() - old(self)@.read),
            final(buf)@.len() == old(buf)@.len(),
            forall|i: int| 0 <= i < n ==> final(buf)@[i] == old(self)@.bytes[old(self)@.read + i],
            forall|i: int| n <= i < old(buf)@.len() ==> final(buf)@[i] == old(buf)@[i],
    {
        let mut amount_read: usize = 0;
        while amount_read < buf.len()
            invariant
                self.wf(),
                amount_read <= buf@.len(),
                self.read_cursor_position + amount_read <= self.inner@.len(),
                buf@.len() == old(buf)@.len(),
                forall|i: int| 0 <= i < amount_read ==> buf@[i] == self@.bytes[self@.read + i],
                forall|i: int| amount_read <= i < buf@.len() ==> buf@[i] == old(buf)@[i],
            ensures
                amount_read == min(buf@.len() as int, self@.bytes.len() - self@.read),
            decreases buf@.len() - amount_read,
        {
            if amount_read >= self.inner.len() - self.read_cursor_position {
                break;
            }
            let self_index = self.read_cursor_position + amount_read;
            buf[amount_read] = self.inner[self_index];
            amount_read = amount_read + 1;
        }
        amount_read
    }
}

} // verus!
