//! `BinaryWriter`: typed write operations that encode fixed-width values
//! and length-prefixed strings at the stream's current position.

use vstd::prelude::*;

use vstd::bytes::spec_u16_to_le_bytes;
use vstd::bytes::spec_u32_to_le_bytes;
use vstd::bytes::spec_u64_to_le_bytes;
use vstd::bytes::u16_to_le_bytes;
use vstd::bytes::u32_to_le_bytes;
use vstd::bytes::u64_to_le_bytes;
use vstd::string::StrSliceExecFns;
use vstd::utf8::encode_utf8;

use crate::codec::spec_i16_to_le_bytes;
use crate::codec::spec_i32_to_le_bytes;
use crate::codec::spec_i64_to_le_bytes;
use crate::codec::spec_i8_to_le_bytes;
use crate::codec::spec_isize_to_le_bytes;
use crate::codec::spec_u8_to_le_bytes;
use crate::codec::spec_usize_to_le_bytes;
use crate::error::BinaryError;
use crate::error::StreamError;
use crate::stream::Stream;
use crate::stream::lemma_overwrite_append;
use crate::stream::lemma_overwrite_len;
use crate::stream::overwrite;

verus! {

/// Encodes typed values to bytes and writes them at the current position of
/// a `Stream`. The writer owns the stream for its whole lifetime, so no
/// other reader or writer can touch the stream while it lives; `into_inner`
/// hands the stream back.
pub struct BinaryWriter<S: Stream> {
    stream: S,
}

impl<S: Stream> BinaryWriter<S> {
    /// The underlying stream's well-formedness.
    pub closed spec fn inv(&self) -> bool {
        self.stream.inv()
    }

    /// The byte contents of the underlying medium.
    pub closed spec fn data(&self) -> Seq<u8> {
        self.stream.data()
    }

    /// The cursor of the underlying medium.
    pub closed spec fn pos(&self) -> int {
        self.stream.pos()
    }

    /// Wraps a stream, taking exclusive ownership of it.
    pub fn new(stream: S) -> (r: BinaryWriter<S>)
        ensures
            r.inv() == stream.inv(),
            r.data() == stream.data(),
            r.pos() == stream.pos(),
    {
        BinaryWriter { stream }
    }

    /// Releases the stream, ending this writer's exclusive hold on it.
    pub fn into_inner(self) -> (r: S)
        ensures
            r.inv() == self.inv(),
            r.data() == self.data(),
            r.pos() == self.pos(),
    {
        self.stream
    }

    /// Moves the cursor to the absolute offset `to`; an offset past the end
    /// of the medium is refused with a seek error.
    pub fn seek_to(&mut self, to: usize) -> (r: Result<usize, BinaryError>)
        requires
            old(self).inv(),
        ensures
            final(self).inv(),
            final(self).data() == old(self).data(),
            match r {
                Ok(p) => p == to && final(self).pos() == to && to <= old(self).data().len(),
                Err(e) => {
                    &&& e == BinaryError::StreamError(StreamError::SeekError)
                    &&& final(self).pos() == old(self).pos()
                },
            },
            to > old(self).data().len() ==> r is Err,
    {
        match self.stream.seek(to) {
            Ok(p) => Ok(p),
            Err(e) => Err(BinaryError::StreamError(e)),
        }
    }

    /// Reports the current cursor offset.
    pub fn get_cur_pos(&mut self) -> (r: Result<usize, BinaryError>)
        requires
            old(self).inv(),
        ensures
            final(self).inv(),
            final(self).data() == old(self).data(),
            final(self).pos() == old(self).pos(),
            match r {
                Ok(p) => p == old(self).pos(),
                Err(e) => e == BinaryError::StreamError(StreamError::TellError),
            },
    {
        match self.stream.tell() {
            Ok(p) => Ok(p),
            Err(e) => Err(BinaryError::StreamError(e)),
        }
    }

    /// Writes `data` verbatim at the current position, with no framing, and
    /// returns the number of bytes written.
    pub fn write_bytes(&mut self, data: Vec<u8>) -> (r: Result<usize, BinaryError>)
        requires
            old(self).inv(),
        ensures
            final(self).inv(),
            match r {
                Ok(n) => {
                    &&& n == data@.len()
                    &&& final(self).data() == overwrite(old(self).data(), old(self).pos(), data@)
                    &&& final(self).pos() == old(self).pos() + data@.len()
                },
                Err(e) => e == BinaryError::StreamError(StreamError::WriteError),
            },
    {
        match self.stream.write(&data) {
            Ok(n) => Ok(n),
            Err(e) => Err(BinaryError::StreamError(e)),
        }
    }

    /// Writes a `u8` as one raw byte.
    pub fn write_u8(&mut self, value: u8) -> (r: Result<usize, BinaryError>)
        requires
            old(self).inv(),
        ensures
            final(self).inv(),
            match r {
                Ok(n) => {
                    &&& n == 1
                    &&& final(self).data() == overwrite(
                        old(self).data(),
                        old(self).pos(),
                        spec_u8_to_le_bytes(value),
                    )
                    &&& final(self).pos() == old(self).pos() + 1
                },
                Err(e) => e == BinaryError::StreamError(StreamError::WriteError),
            },
    {
        let mut data: Vec<u8> = Vec::new();
        data.push(value);
        proof {
            assert(data@ =~= spec_u8_to_le_bytes(value));
        }
        self.write_bytes(data)
    }

    /// Writes an `i8` as one two's-complement byte.
    pub fn write_i8(&mut self, value: i8) -> (r: Result<usize, BinaryError>)
        requires
            old(self).inv(),
        ensures
            final(self).inv(),
            match r {
                Ok(n) => {
                    &&& n == 1
                    &&& final(self).data() == overwrite(
                        old(self).data(),
                        old(self).pos(),
                        spec_i8_to_le_bytes(value),
                    )
                    &&& final(self).pos() == old(self).pos() + 1
                },
                Err(e) => e == BinaryError::StreamError(StreamError::WriteError),
            },
    {
        self.write_u8(value as u8)
    }

    /// Writes a `u16` as two little-endian bytes.
    pub fn write_u16(&mut self, value: u16) -> (r: Result<usize, BinaryError>)
        requires
            old(self).inv(),
        ensures
            final(self).inv(),
            match r {
                Ok(n) => {
                    &&& n == 2
                    &&& final(self).data() == overwrite(
                        old(self).data(),
                        old(self).pos(),
                        spec_u16_to_le_bytes(value),
                    )
                    &&& final(self).pos() == old(self).pos() + 2
                },
                Err(e) => e == BinaryError::StreamError(StreamError::WriteError),
            },
    {
        self.write_bytes(u16_to_le_bytes(value))
    }

    /// Writes an `i16` as two little-endian two's-complement bytes.
    pub fn write_i16(&mut self, value: i16) -> (r: Result<usize, BinaryError>)
        requires
            old(self).inv(),
        ensures
            final(self).inv(),
            match r {
                Ok(n) => {
                    &&& n == 2
                    &&& final(self).data() == overwrite(
                        old(self).data(),
                        old(self).pos(),
                        spec_i16_to_le_bytes(value),
                    )
                    &&& final(self).pos() == old(self).pos() + 2
                },
                Err(e) => e == BinaryError::StreamError(StreamError::WriteError),
            },
    {
        self.write_u16(value as u16)
    }

    /// Writes a `u32` as four little-endian bytes.
    pub fn write_u32(&mut self, value: u32) -> (r: Result<usize, BinaryError>)
        requires
            old(self).inv(),
        ensures
            final(self).inv(),
            match r {
                Ok(n) => {
                    &&& n == 4
                    &&& final(self).data() == overwrite(
                        old(self).data(),
                        old(self).pos(),
                        spec_u32_to_le_bytes(value),
                    )
                    &&& final(self).pos() == old(self).pos() + 4
                },
                Err(e) => e == BinaryError::StreamError(StreamError::WriteError),
            },
    {
        self.write_bytes(u32_to_le_bytes(value))
    }

    /// Writes an `i32` as four little-endian two's-complement bytes.
    pub fn write_i32(&mut self, value: i32) -> (r: Result<usize, BinaryError>)
        requires
            old(self).inv(),
        ensures
            final(self).inv(),
            match r {
                Ok(n) => {
                    &&& n == 4
                    &&& final(self).data() == overwrite(
                        old(self).data(),
                        old(self).pos(),
                        spec_i32_to_le_bytes(value),
                    )
                    &&& final(self).pos() == old(self).pos() + 4
                },
                Err(e) => e == BinaryError::StreamError(StreamError::WriteError),
            },
    {
        self.write_u32(value as u32)
    }

    /// Writes a `u64` as eight little-endian bytes.
    pub fn write_u64(&mut self, value: u64) -> (r: Result<usize, BinaryError>)
        requires
            old(self).inv(),
        ensures
            final(self).inv(),
            match r {
                Ok(n) => {
                    &&& n == 8
                    &&& final(self).data() == overwrite(
                        old(self).data(),
                        old(self).pos(),
                        spec_u64_to_le_bytes(value),
                    )
                    &&& final(self).pos() == old(self).pos() + 8
                },
                Err(e) => e == BinaryError::StreamError(StreamError::WriteError),
            },
    {
        self.write_bytes(u64_to_le_bytes(value))
    }

    /// Writes an `i64` as eight little-endian two's-complement bytes.
    pub fn write_i64(&mut self, value: i64) -> (r: Result<usize, BinaryError>)
        requires
            old(self).inv(),
        ensures
            final(self).inv(),
            match r {
                Ok(n) => {
                    &&& n == 8
                    &&& final(self).data() == overwrite(
                        old(self).data(),
                        old(self).pos(),
                        spec_i64_to_le_bytes(value),
                    )
                    &&& final(self).pos() == old(self).pos() + 8
                },
                Err(e) => e == BinaryError::StreamError(StreamError::WriteError),
            },
    {
        self.write_u64(value as u64)
    }

    /// Writes a `usize` as eight little-endian bytes, whatever the host
    /// pointer width.
    pub fn write_usize(&mut self, value: usize) -> (r: Result<usize, BinaryError>)
        requires
            old(self).inv(),
        ensures
            final(self).inv(),
            match r {
                Ok(n) => {
                    &&& n == 8
                    &&& final(self).data() == overwrite(
                        old(self).data(),
                        old(self).pos(),
                        spec_usize_to_le_bytes(value),
                    )
                    &&& final(self).pos() == old(self).pos() + 8
                },
                Err(e) => e == BinaryError::StreamError(StreamError::WriteError),
            },
    {
        self.write_u64(value as u64)
    }

    /// Writes an `isize` as eight little-endian two's-complement bytes,
    /// whatever the host pointer width.
    pub fn write_isize(&mut self, value: isize) -> (r: Result<usize, BinaryError>)
        requires
            old(self).inv(),
        ensures
            final(self).inv(),
            match r {
                Ok(n) => {
                    &&& n == 8
                    &&& final(self).data() == overwrite(
                        old(self).data(),
                        old(self).pos(),
                        spec_isize_to_le_bytes(value),
                    )
                    &&& final(self).pos() == old(self).pos() + 8
                },
                Err(e) => e == BinaryError::StreamError(StreamError::WriteError),
            },
    {
        self.write_i64(value as i64)
    }

    /// Writes the eight-byte length of `value`'s UTF-8 encoding, then those
    /// bytes verbatim — no terminator, no padding. Returns the number of
    /// payload bytes written, excluding the prefix. On failure the medium
    /// may hold the prefix already; the cursor is unspecified.
    pub fn write_string(&mut self, value: String) -> (r: Result<usize, BinaryError>)
        requires
            old(self).inv(),
        ensures
            final(self).inv(),
            match r {
                Ok(n) => {
                    let payload = encode_utf8(value@);
                    &&& n == payload.len()
                    &&& payload.len() <= usize::MAX
                    &&& final(self).data() == overwrite(
                        old(self).data(),
                        old(self).pos(),
                        spec_u64_to_le_bytes(payload.len() as u64) + payload,
                    )
                    &&& final(self).pos() == old(self).pos() + 8 + payload.len()
                },
                Err(e) => e == BinaryError::StreamError(StreamError::WriteError),
            },
    {
        proof {
            self.stream.inv_properties();
        }
        let bytes = value.as_str().as_bytes_vec();
        let len = bytes.len();
        let ghost prefix = spec_usize_to_le_bytes(len);
        match self.write_usize(len) {
            Ok(_) => {},
            Err(e) => {
                return Err(e);
            },
        }
        proof {
            crate::codec::lemma_usize_round_trip(len);
            lemma_overwrite_len(old(self).data(), old(self).pos(), prefix);
        }
        match self.write_bytes(bytes) {
            Ok(n) => {
                proof {
                    lemma_overwrite_append(
                        old(self).data(),
                        old(self).pos(),
                        prefix,
                        encode_utf8(value@),
                    );
                }
                Ok(n)
            },
            Err(e) => Err(e),
        }
    }
}

} // verus!
