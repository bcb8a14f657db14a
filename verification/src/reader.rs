//! `BinaryReader`: typed read operations that decode fixed-width values and
//! length-prefixed strings from the stream's current position.

use vstd::prelude::*;

use vstd::bytes::spec_u16_from_le_bytes;
use vstd::bytes::spec_u32_from_le_bytes;
use vstd::bytes::spec_u64_from_le_bytes;
use vstd::bytes::u16_from_le_bytes;
use vstd::bytes::u32_from_le_bytes;
use vstd::bytes::u64_from_le_bytes;
use vstd::utf8::decode_utf8;
use vstd::utf8::valid_utf8;

use crate::codec::spec_i16_from_le_bytes;
use crate::codec::spec_i32_from_le_bytes;
use crate::codec::spec_i64_from_le_bytes;
use crate::codec::spec_i8_from_le_bytes;
use crate::codec::spec_u8_from_le_bytes;
use crate::error::BinaryError;
use crate::error::StreamError;
use crate::stream::Stream;

verus! {

/// Relies on `String::from_utf8`: it succeeds exactly when `bytes` is a
/// valid UTF-8 encoding, and then returns the string those bytes encode.
#[verifier::external_body]
fn bytes_to_string(bytes: Vec<u8>) -> (r: Option<String>)
    ensures
        match r {
            Some(s) => valid_utf8(bytes@) && s@ == decode_utf8(bytes@),
            None => !valid_utf8(bytes@),
        },
{
    match String::from_utf8(bytes) {
        Ok(s) => Some(s),
        Err(_) => None,
    }
}

/// Decodes typed values from the bytes at the current position of a
/// `Stream`. The reader owns the stream for its whole lifetime, so no other
/// reader or writer can touch the stream while it lives; `into_inner` hands
/// the stream back.
pub struct BinaryReader<S: Stream> {
    stream: S,
}

impl<S: Stream> BinaryReader<S> {
    /// The underlying stream's well-formedness.
    pub closed spec fn inv(&self) -> bool {
        self.stream.inv()
    }

    /// The byte contents of the underlying medium.
    pub closed spec fn data(&self) -> Seq<u8> {
        self.stream.data()
    }

    /// The cursor of the underlying medium.
    pub closed spec fn pos(&self) -> int {
        self.stream.pos()
    }

    /// Wraps a stream, taking exclusive ownership of it.
    pub fn new(stream: S) -> (r: BinaryReader<S>)
        ensures
            r.inv() == stream.inv(),
            r.data() == stream.data(),
            r.pos() == stream.pos(),
    {
        BinaryReader { stream }
    }

    /// Releases the stream, ending this reader's exclusive hold on it.
    pub fn into_inner(self) -> (r: S)
        ensures
            r.inv() == self.inv(),
            r.data() == self.data(),
            r.pos() == self.pos(),
    {
        self.stream
    }

    /// Moves the cursor to the absolute offset `to`; an offset past the end
    /// of the medium is refused with a seek error.
    pub fn seek_to(&mut self, to: usize) -> (r: Result<usize, BinaryError>)
        requires
            old(self).inv(),
        ensures
            final(self).inv(),
            final(self).data() == old(self).data(),
            match r {
                Ok(p) => p == to && final(self).pos() == to && to <= old(self).data().len(),
                Err(e) => {
                    &&& e == BinaryError::StreamError(StreamError::SeekError)
                    &&& final(self).pos() == old(self).pos()
                },
            },
            to > old(self).data().len() ==> r is Err,
    {
        match self.stream.seek(to) {
            Ok(p) => Ok(p),
            Err(e) => Err(BinaryError::StreamError(e)),
        }
    }

    /// Reports the current cursor offset.
    pub fn get_cur_pos(&mut self) -> (r: Result<usize, BinaryError>)
        requires
            old(self).inv(),
        ensures
            final(self).inv(),
            final(self).data() == old(self).data(),
            final(self).pos() == old(self).pos(),
            match r {
                Ok(p) => p == old(self).pos(),
                Err(e) => e == BinaryError::StreamError(StreamError::TellError),
            },
    {
        match self.stream.tell() {
            Ok(p) => Ok(p),
            Err(e) => Err(BinaryError::StreamError(e)),
        }
    }

    /// Reads exactly `length` raw bytes with no interpretation. When fewer
    /// than `length` bytes remain, the read fails with a stream read error
    /// and no partial buffer is handed back.
    pub fn read_bytes(&mut self, length: usize) -> (r: Result<Vec<u8>, BinaryError>)
        requires
            old(self).inv(),
        ensures
            final(self).inv(),
            final(self).data() == old(self).data(),
            0 <= old(self).pos() <= old(self).data().len(),
            match r {
                Ok(b) => {
                    &&& old(self).pos() + length <= old(self).data().len()
                    &&& b@ == old(self).data().subrange(
                        old(self).pos(),
                        old(self).pos() + length,
                    )
                    &&& final(self).pos() == old(self).pos() + length
                },
                Err(e) => e == BinaryError::StreamError(StreamError::ReadError),
            },
            old(self).pos() + length > old(self).data().len() ==> r is Err,
    {
        proof {
            self.stream.inv_properties();
        }
        let mut buffer: Vec<u8> = vec![0u8; length];
        match self.stream.read(&mut buffer) {
            Ok(_) => Ok(buffer),
            Err(e) => Err(BinaryError::StreamError(e)),
        }
    }

    /// Reads one raw byte as a `u8`.
    pub fn read_u8(&mut self) -> (r: Result<u8, BinaryError>)
        requires
            old(self).inv(),
        ensures
            final(self).inv(),
            final(self).data() == old(self).data(),
            match r {
                Ok(v) => {
                    &&& old(self).pos() + 1 <= old(self).data().len()
                    &&& v == spec_u8_from_le_bytes(
                        old(self).data().subrange(old(self).pos(), old(self).pos() + 1),
                    )
                    &&& final(self).pos() == old(self).pos() + 1
                },
                Err(e) => e == BinaryError::StreamError(StreamError::ReadError),
            },
            old(self).pos() + 1 > old(self).data().len() ==> r is Err,
    {
        match self.read_bytes(1) {
            Ok(buffer) => Ok(buffer[0]),
            Err(e) => Err(e),
        }
    }

    /// Reads one two's-complement byte as an `i8`.
    pub fn read_i8(&mut self) -> (r: Result<i8, BinaryError>)
        requires
            old(self).inv(),
        ensures
            final(self).inv(),
            final(self).data() == old(self).data(),
            match r {
                Ok(v) => {
                    &&& old(self).pos() + 1 <= old(self).data().len()
                    &&& v == spec_i8_from_le_bytes(
                        old(self).data().subrange(old(self).pos(), old(self).pos() + 1),
                    )
                    &&& final(self).pos() == old(self).pos() + 1
                },
                Err(e) => e == BinaryError::StreamError(StreamError::ReadError),
            },
            old(self).pos() + 1 > old(self).data().len() ==> r is Err,
    {
        match self.read_u8() {
            Ok(v) => Ok(v as i8),
            Err(e) => Err(e),
        }
    }

    /// Reads two little-endian bytes as a `u16`.
    pub fn read_u16(&mut self) -> (r: Result<u16, BinaryError>)
        requires
            old(self).inv(),
        ensures
            final(self).inv(),
            final(self).data() == old(self).data(),
            match r {
                Ok(v) => {
                    &&& old(self).pos() + 2 <= old(self).data().len()
                    &&& v == spec_u16_from_le_bytes(
                        old(self).data().subrange(old(self).pos(), old(self).pos() + 2),
                    )
                    &&& final(self).pos() == old(self).pos() + 2
                },
                Err(e) => e == BinaryError::StreamError(StreamError::ReadError),
            },
            old(self).pos() + 2 > old(self).data().len() ==> r is Err,
    {
        match self.read_bytes(2) {
            Ok(buffer) => Ok(u16_from_le_bytes(buffer.as_slice())),
            Err(e) => Err(e),
        }
    }

    /// Reads two little-endian two's-complement bytes as an `i16`.
    pub fn read_i16(&mut self) -> (r: Result<i16, BinaryError>)
        requires
            old(self).inv(),
        ensures
            final(self).inv(),
            final(self).data() == old(self).data(),
            match r {
                Ok(v) => {
                    &&& old(self).pos() + 2 <= old(self).data().len()
                    &&& v == spec_i16_from_le_bytes(
                        old(self).data().subrange(old(self).pos(), old(self).pos() + 2),
                    )
                    &&& final(self).pos() == old(self).pos() + 2
                },
                Err(e) => e == BinaryError::StreamError(StreamError::ReadError),
            },
            old(self).pos() + 2 > old(self).data().len() ==> r is Err,
    {
        match self.read_u16() {
            Ok(v) => Ok(v as i16),
            Err(e) => Err(e),
        }
    }

    /// Reads four little-endian bytes as a `u32`.
    pub fn read_u32(&mut self) -> (r: Result<u32, BinaryError>)
        requires
            old(self).inv(),
        ensures
            final(self).inv(),
            final(self).data() == old(self).data(),
            match r {
                Ok(v) => {
                    &&& old(self).pos() + 4 <= old(self).data().len()
                    &&& v == spec_u32_from_le_bytes(
                        old(self).data().subrange(old(self).pos(), old(self).pos() + 4),
                    )
                    &&& final(self).pos() == old(self).pos() + 4
                },
                Err(e) => e == BinaryError::StreamError(StreamError::ReadError),
            },
            old(self).pos() + 4 > old(self).data().len() ==> r is Err,
    {
        match self.read_bytes(4) {
            Ok(buffer) => Ok(u32_from_le_bytes(buffer.as_slice())),
            Err(e) => Err(e),
        }
    }

    /// Reads four little-endian two's-complement bytes as an `i32`.
    pub fn read_i32(&mut self) -> (r: Result<i32, BinaryError>)
        requires
            old(self).inv(),
        ensures
            final(self).inv(),
            final(self).data() == old(self).data(),
            match r {
                Ok(v) => {
                    &&& old(self).pos() + 4 <= old(self).data().len()
                    &&& v == spec_i32_from_le_bytes(
                        old(self).data().subrange(old(self).pos(), old(self).pos() + 4),
                    )
                    &&& final(self).pos() == old(self).pos() + 4
                },
                Err(e) => e == BinaryError::StreamError(StreamError::ReadError),
            },
            old(self).pos() + 4 > old(self).data().len() ==> r is Err,
    {
        match self.read_u32() {
            Ok(v) => Ok(v as i32),
            Err(e) => Err(e),
        }
    }

    /// Reads eight little-endian bytes as a `u64`.
    pub fn read_u64(&mut self) -> (r: Result<u64, BinaryError>)
        requires
            old(self).inv(),
        ensures
            final(self).inv(),
            final(self).data() == old(self).data(),
            match r {
                Ok(v) => {
                    &&& old(self).pos() + 8 <= old(self).data().len()
                    &&& v == spec_u64_from_le_bytes(
                        old(self).data().subrange(old(self).pos(), old(self).pos() + 8),
                    )
                    &&& final(self).pos() == old(self).pos() + 8
                },
                Err(e) => e == BinaryError::StreamError(StreamError::ReadError),
            },
            old(self).pos() + 8 > old(self).data().len() ==> r is Err,
    {
        match self.read_bytes(8) {
            Ok(buffer) => Ok(u64_from_le_bytes(buffer.as_slice())),
            Err(e) => Err(e),
        }
    }

    /// Reads eight little-endian two's-complement bytes as an `i64`.
    pub fn read_i64(&mut self) -> (r: Result<i64, BinaryError>)
        requires
            old(self).inv(),
        ensures
            final(self).inv(),
            final(self).data() == old(self).data(),
            match r {
                Ok(v) => {
                    &&& old(self).pos() + 8 <= old(self).data().len()
                    &&& v == spec_i64_from_le_bytes(
                        old(self).data().subrange(old(self).pos(), old(self).pos() + 8),
                    )
                    &&& final(self).pos() == old(self).pos() + 8
                },
                Err(e) => e == BinaryError::StreamError(StreamError::ReadError),
            },
            old(self).pos() + 8 > old(self).data().len() ==> r is Err,
    {
        match self.read_u64() {
            Ok(v) => Ok(v as i64),
            Err(e) => Err(e),
        }
    }

    /// Reads eight little-endian bytes as a `usize`. A stored value too
    /// large for the host's pointer width cannot be decoded and fails with
    /// a codec error, the cursor still advanced past the eight bytes.
    pub fn read_usize(&mut self) -> (r: Result<usize, BinaryError>)
        requires
            old(self).inv(),
        ensures
            final(self).inv(),
            final(self).data() == old(self).data(),
            ({
                let stored = spec_u64_from_le_bytes(
                    old(self).data().subrange(old(self).pos(), old(self).pos() + 8),
                );
                match r {
                    Ok(v) => {
                        &&& old(self).pos() + 8 <= old(self).data().len()
                        &&& stored <= usize::MAX
                        &&& v == stored as usize
                        &&& final(self).pos() == old(self).pos() + 8
                    },
                    Err(e) => match e {
                        BinaryError::StreamError(se) => se == StreamError::ReadError,
                        BinaryError::CodecError => {
                            &&& old(self).pos() + 8 <= old(self).data().len()
                            &&& stored > usize::MAX
                            &&& final(self).pos() == old(self).pos() + 8
                        },
                        BinaryError::Utf8Error => false,
                    },
                }
            }),
            old(self).pos() + 8 > old(self).data().len() ==> r is Err,
    {
        match self.read_u64() {
            Ok(v) => {
                if v <= usize::MAX as u64 {
                    Ok(v as usize)
                } else {
                    Err(BinaryError::CodecError)
                }
            },
            Err(e) => Err(e),
        }
    }

    /// Reads eight little-endian two's-complement bytes as an `isize`. A
    /// stored value outside the host's pointer-width range cannot be decoded
    /// and fails with a codec error, the cursor still advanced past the
    /// eight bytes.
    pub fn read_isize(&mut self) -> (r: Result<isize, BinaryError>)
        requires
            old(self).inv(),
        ensures
            final(self).inv(),
            final(self).data() == old(self).data(),
            ({
                let stored = spec_i64_from_le_bytes(
                    old(self).data().subrange(old(self).pos(), old(self).pos() + 8),
                );
                match r {
                    Ok(v) => {
                        &&& old(self).pos() + 8 <= old(self).data().len()
                        &&& isize::MIN <= stored <= isize::MAX
                        &&& v == stored as isize
                        &&& final(self).pos() == old(self).pos() + 8
                    },
                    Err(e) => match e {
                        BinaryError::StreamError(se) => se == StreamError::ReadError,
                        BinaryError::CodecError => {
                            &&& old(self).pos() + 8 <= old(self).data().len()
                            &&& (stored < isize::MIN || stored > isize::MAX)
                            &&& final(self).pos() == old(self).pos() + 8
                        },
                        BinaryError::Utf8Error => false,
                    },
                }
            }),
            old(self).pos() + 8 > old(self).data().len() ==> r is Err,
    {
        match self.read_i64() {
            Ok(v) => {
                if isize::MIN as i64 <= v && v <= isize::MAX as i64 {
                    Ok(v as isize)
                } else {
                    Err(BinaryError::CodecError)
                }
            },
            Err(e) => Err(e),
        }
    }

    /// Reads an eight-byte length prefix, then exactly that many bytes, and
    /// decodes them as UTF-8. Bytes that are not valid UTF-8 fail with a
    /// UTF-8 error — never retried or truncated — with the cursor still
    /// advanced past the prefixed length.
    pub fn read_string(&mut self) -> (r: Result<String, BinaryError>)
        requires
            old(self).inv(),
        ensures
            final(self).inv(),
            final(self).data() == old(self).data(),
            ({
                let pos = old(self).pos();
                let data = old(self).data();
                let stored = spec_u64_from_le_bytes(data.subrange(pos, pos + 8));
                let payload = data.subrange(pos + 8, pos + 8 + stored as int);
                match r {
                    Ok(s) => {
                        &&& pos + 8 <= data.len()
                        &&& stored <= usize::MAX
                        &&& pos + 8 + stored <= data.len()
                        &&& valid_utf8(payload)
                        &&& s@ == decode_utf8(payload)
                        &&& final(self).pos() == pos + 8 + stored
                    },
                    Err(e) => match e {
                        BinaryError::StreamError(se) => se == StreamError::ReadError,
                        BinaryError::CodecError => {
                            &&& pos + 8 <= data.len()
                            &&& stored > usize::MAX
                            &&& final(self).pos() == pos + 8
                        },
                        BinaryError::Utf8Error => {
                            &&& pos + 8 <= data.len()
                            &&& stored <= usize::MAX
                            &&& pos + 8 + stored <= data.len()
                            &&& !valid_utf8(payload)
                            &&& final(self).pos() == pos + 8 + stored
                        },
                    },
                }
            }),
            old(self).pos() + 8 > old(self).data().len() ==> r is Err,
    {
        let str_len = match self.read_usize() {
            Ok(l) => l,
            Err(e) => {
                return Err(e);
            },
        };
        let chars = match self.read_bytes(str_len) {
            Ok(c) => c,
            Err(e) => {
                return Err(e);
            },
        };
        match bytes_to_string(chars) {
            Some(s) => Ok(s),
            None => Err(BinaryError::Utf8Error),
        }
    }
}

} // verus!
