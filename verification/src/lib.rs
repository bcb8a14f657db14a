//! A small binary-encoding layer: a seekable `Stream` capability over a
//! byte-addressable medium, and `BinaryReader`/`BinaryWriter` facades that
//! encode and decode fixed-width little-endian primitive values and
//! length-prefixed UTF-8 strings on top of it.
//!
//! A reader or writer takes its stream by value, so at most one facade can
//! touch a stream at a time; `into_inner` hands the stream back when the
//! facade is done. This is the layer's one concurrency guarantee: exclusive
//! access, enforced by ownership.

pub mod codec;
pub mod error;
pub mod memory;
pub mod reader;
pub mod stream;
pub mod writer;

pub use error::BinaryError;
pub use error::StreamError;
pub use memory::MemoryStream;
pub use reader::BinaryReader;
pub use stream::Stream;
pub use writer::BinaryWriter;
