use binary_rw::BinaryError;
use binary_rw::BinaryReader;
use binary_rw::BinaryWriter;
use binary_rw::MemoryStream;
use binary_rw::StreamError;

#[test]
fn short_read_fails_hard() {
    // Three bytes in the medium, ten requested: a stream read error, no
    // partial buffer.
    let stream = MemoryStream::new();
    let mut writer = BinaryWriter::new(stream);
    writer.write_bytes(vec![1u8, 2, 3]).expect("write");
    writer.seek_to(0).expect("seek");
    let mut reader = BinaryReader::new(writer.into_inner());
    let result = reader.read_bytes(10);
    assert_eq!(
        result.expect_err("a short read must fail"),
        BinaryError::StreamError(StreamError::ReadError)
    );
}

#[test]
fn read_from_empty_stream_fails() {
    let mut reader = BinaryReader::new(MemoryStream::new());
    assert!(matches!(
        reader.read_u32(),
        Err(BinaryError::StreamError(StreamError::ReadError))
    ));
    assert!(matches!(
        reader.read_string(),
        Err(BinaryError::StreamError(StreamError::ReadError))
    ));
}

#[test]
fn short_string_payload_fails() {
    // A correct prefix that promises more bytes than the medium holds.
    let stream = MemoryStream::new();
    let mut writer = BinaryWriter::new(stream);
    writer.write_usize(100).expect("write prefix");
    writer.write_bytes(vec![b'h', b'i']).expect("write payload");
    writer.seek_to(0).expect("seek");
    let mut reader = BinaryReader::new(writer.into_inner());
    assert!(matches!(
        reader.read_string(),
        Err(BinaryError::StreamError(StreamError::ReadError))
    ));
}

#[test]
fn malformed_utf8_fails_and_consumes_prefixed_bytes() {
    // A correct length prefix over bytes that are not valid UTF-8: the read
    // fails with the UTF-8 error kind and the cursor still advances past
    // exactly the prefixed payload.
    let stream = MemoryStream::new();
    let mut writer = BinaryWriter::new(stream);
    writer.write_usize(4).expect("write prefix");
    writer.write_bytes(vec![0xff, 0xfe, 0xfd, 0xfc]).expect("write payload");
    writer.seek_to(0).expect("seek");
    let mut reader = BinaryReader::new(writer.into_inner());
    assert_eq!(reader.read_string().expect_err("not UTF-8"), BinaryError::Utf8Error);
    assert_eq!(reader.get_cur_pos().expect("tell"), 12);
}

#[test]
fn continuation_byte_alone_fails_utf8() {
    let stream = MemoryStream::new();
    let mut writer = BinaryWriter::new(stream);
    writer.write_usize(1).expect("write prefix");
    writer.write_bytes(vec![0x80]).expect("write payload");
    writer.seek_to(0).expect("seek");
    let mut reader = BinaryReader::new(writer.into_inner());
    assert_eq!(reader.read_string().expect_err("not UTF-8"), BinaryError::Utf8Error);
}

#[test]
fn seek_past_end_fails() {
    let stream = MemoryStream::new();
    let mut writer = BinaryWriter::new(stream);
    writer.write_bytes(vec![1u8, 2, 3, 4]).expect("write");
    assert_eq!(
        writer.seek_to(5).expect_err("past the end"),
        BinaryError::StreamError(StreamError::SeekError)
    );
    // The end itself is a valid offset.
    assert_eq!(writer.seek_to(4).expect("end is in range"), 4);
    let mut reader = BinaryReader::new(writer.into_inner());
    assert!(matches!(
        reader.seek_to(9),
        Err(BinaryError::StreamError(StreamError::SeekError))
    ));
    assert_eq!(reader.seek_to(0).expect("start is in range"), 0);
}

#[test]
fn errors_describe_themselves() {
    assert_eq!(StreamError::OpenError.message(), "stream error trying to open");
    assert_eq!(StreamError::ReadError.message(), "stream error trying to read");
    assert_eq!(StreamError::TellError.message(), "stream error trying to tell");
    assert_eq!(BinaryError::Utf8Error.message(), "bytes are not valid UTF-8");
    assert_eq!(
        BinaryError::StreamError(StreamError::WriteError).message(),
        "stream error"
    );
}

#[test]
fn binary_error_wraps_stream_error() {
    let wrapped = BinaryError::from(StreamError::SeekError);
    assert_eq!(wrapped, BinaryError::StreamError(StreamError::SeekError));
    assert_eq!(wrapped.stream_cause(), Some(StreamError::SeekError));
    assert_eq!(BinaryError::CodecError.stream_cause(), None);
    assert_eq!(BinaryError::Utf8Error.stream_cause(), None);
}

#[test]
fn failed_seek_keeps_position() {
    let stream = MemoryStream::new();
    let mut writer = BinaryWriter::new(stream);
    writer.write_u16(7).expect("write");
    assert_eq!(writer.get_cur_pos().expect("tell"), 2);
    writer.seek_to(50).expect_err("past the end");
    assert_eq!(writer.get_cur_pos().expect("tell"), 2);
}
