//! An in-memory backing store: a growable byte buffer with a cursor,
//! implementing the `Stream` capability.

use vstd::prelude::*;

use crate::error::StreamError;
use crate::stream::Stream;
use crate::stream::overwrite;

verus! {

/// A `Stream` over a growable in-memory byte buffer. Writes past the end
/// of the buffer grow it; reads past the end fail; the valid seek range is
/// the buffer's current extent.
pub struct MemoryStream {
    buffer: Vec<u8>,
    cursor: usize,
}

impl MemoryStream {
    /// Creates an empty in-memory stream with the cursor at offset zero.
    pub fn new() -> (r: MemoryStream)
        ensures
            r.inv(),
            r.data() == Seq::<u8>::empty(),
            r.pos() == 0,
    {
        MemoryStream { buffer: Vec::new(), cursor: 0 }
    }
}

impl Stream for MemoryStream {
    closed spec fn inv(&self) -> bool {
        self.cursor <= self.buffer@.len() <= usize::MAX
    }

    closed spec fn data(&self) -> Seq<u8> {
        self.buffer@
    }

    closed spec fn pos(&self) -> int {
        self.cursor as int
    }

    proof fn inv_properties(&self) {
    }

    fn write(&mut self, bytes: &Vec<u8>) -> (r: Result<usize, StreamError>)
        ensures
            r is Ok <==> old(self).pos() + bytes@.len() <= usize::MAX,
            r is Err ==> *final(self) == *old(self),
    {
        let n = bytes.len();
        if usize::MAX - self.cursor < n {
            return Err(StreamError::WriteError);
        }
        let ghost orig = self.buffer@;
        let ghost start = self.cursor as int;
        let mut i: usize = 0;
        while i < n
            invariant
                i <= n,
                n == bytes@.len(),
                self.cursor == start,
                0 <= start <= orig.len() <= usize::MAX,
                start + n <= usize::MAX,
                self.buffer@ == overwrite(orig, start, bytes@.subrange(0, i as int)),
            decreases n - i,
        {
            let b = bytes[i];
            let idx = self.cursor + i;
            if idx < self.buffer.len() {
                self.buffer.set(idx, b);
            } else {
                self.buffer.push(b);
            }
            i = i + 1;
            proof {
                assert(self.buffer@ =~= overwrite(orig, start, bytes@.subrange(0, i as int)));
            }
        }
        proof {
            assert(bytes@.subrange(0, n as int) =~= bytes@);
        }
        self.cursor = self.cursor + n;
        Ok(n)
    }

    fn read(&mut self, buffer: &mut Vec<u8>) -> (r: Result<usize, StreamError>)
        ensures
            r is Ok <==> old(self).pos() + old(buffer)@.len() <= old(self).data().len(),
            r is Err ==> *final(self) == *old(self) && final(buffer)@ == old(buffer)@,
    {
        let n = buffer.len();
        if usize::MAX - self.cursor < n {
            return Err(StreamError::ReadError);
        }
        if self.cursor + n > self.buffer.len() {
            return Err(StreamError::ReadError);
        }
        let ghost orig = buffer@;
        let ghost sdata = self.buffer@;
        let ghost start = self.cursor as int;
        let mut i: usize = 0;
        while i < n
            invariant
                i <= n,
                n == buffer@.len(),
                self.cursor == start,
                self.buffer@ == sdata,
                0 <= start,
                start + n <= sdata.len() <= usize::MAX,
                forall|j: int| 0 <= j < i ==> #[trigger] buffer@[j] == sdata[start + j],
            decreases n - i,
        {
            let b = self.buffer[self.cursor + i];
            buffer.set(i, b);
            i = i + 1;
        }
        proof {
            assert(buffer@ =~= self.buffer@.subrange(start, start + n));
        }
        self.cursor = self.cursor + n;
        Ok(n)
    }

    fn seek(&mut self, to: usize) -> (r: Result<usize, StreamError>)
        ensures
            r is Ok <==> to <= old(self).data().len(),
            r is Err ==> *final(self) == *old(self),
    {
        if to <= self.buffer.len() {
            self.cursor = to;
            Ok(to)
        } else {
            Err(StreamError::SeekError)
        }
    }

    fn tell(&mut self) -> (r: Result<usize, StreamError>)
        ensures
            r is Ok,
    {
        Ok(self.cursor)
    }
}

} // verus!
