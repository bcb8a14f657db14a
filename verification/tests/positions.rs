use binary_rw::BinaryReader;
use binary_rw::BinaryWriter;
use binary_rw::MemoryStream;
use binary_rw::Stream;
use binary_rw::StreamError;

#[test]
fn recorded_offsets_read_back_the_same_values() {
    // Write a mixed sequence, recording the offset before each value; then
    // revisit the offsets in a scrambled order and read the same values.
    let stream = MemoryStream::new();
    let mut writer = BinaryWriter::new(stream);

    let at_u16 = writer.get_cur_pos().expect("tell");
    writer.write_u16(0xbeef).expect("write");
    let at_string = writer.get_cur_pos().expect("tell");
    writer.write_string(String::from("mixed")).expect("write");
    let at_i32 = writer.get_cur_pos().expect("tell");
    writer.write_i32(-77).expect("write");
    let at_u64 = writer.get_cur_pos().expect("tell");
    writer.write_u64(u64::MAX - 3).expect("write");

    let mut reader = BinaryReader::new(writer.into_inner());

    reader.seek_to(at_i32).expect("seek");
    assert_eq!(reader.read_i32().expect("read"), -77);
    reader.seek_to(at_u16).expect("seek");
    assert_eq!(reader.read_u16().expect("read"), 0xbeef);
    reader.seek_to(at_u64).expect("seek");
    assert_eq!(reader.read_u64().expect("read"), u64::MAX - 3);
    reader.seek_to(at_string).expect("seek");
    assert_eq!(reader.read_string().expect("read"), "mixed");
}

#[test]
fn sequential_reads_follow_the_cursor() {
    let stream = MemoryStream::new();
    let mut writer = BinaryWriter::new(stream);
    writer.write_u8(9).expect("write");
    writer.write_i16(-9).expect("write");
    writer.write_u32(99).expect("write");
    writer.seek_to(0).expect("seek");
    let mut reader = BinaryReader::new(writer.into_inner());
    assert_eq!(reader.read_u8().expect("read"), 9);
    assert_eq!(reader.read_i16().expect("read"), -9);
    assert_eq!(reader.read_u32().expect("read"), 99);
    assert_eq!(reader.get_cur_pos().expect("tell"), 7);
}

#[test]
fn overwrite_in_the_middle_keeps_neighbours() {
    let stream = MemoryStream::new();
    let mut writer = BinaryWriter::new(stream);
    writer.write_bytes(vec![0xaa; 6]).expect("write");
    writer.seek_to(2).expect("seek");
    writer.write_u16(0x0102).expect("write");
    writer.seek_to(0).expect("seek");
    let mut reader = BinaryReader::new(writer.into_inner());
    assert_eq!(
        reader.read_bytes(6).expect("read"),
        vec![0xaa, 0xaa, 0x02, 0x01, 0xaa, 0xaa]
    );
}

#[test]
fn memory_stream_raw_operations() {
    // The Stream capability itself: write advances the cursor by what was
    // written, tell reports it, seek moves it, read fills a caller-sized
    // buffer exactly.
    let mut stream = MemoryStream::new();
    assert_eq!(stream.tell().expect("tell"), 0);
    assert_eq!(stream.write(&vec![10u8, 20, 30]).expect("write"), 3);
    assert_eq!(stream.tell().expect("tell"), 3);
    assert_eq!(stream.seek(1).expect("seek"), 1);
    let mut buffer = vec![0u8; 2];
    assert_eq!(stream.read(&mut buffer).expect("read"), 2);
    assert_eq!(buffer, vec![20, 30]);
    assert_eq!(stream.tell().expect("tell"), 3);
    let mut too_much = vec![0u8; 4];
    assert_eq!(stream.seek(0).expect("seek"), 0);
    assert_eq!(stream.read(&mut too_much).expect_err("short"), StreamError::ReadError);
}

#[test]
fn ownership_moves_between_reader_and_writer() {
    // Exclusivity: a facade owns the stream; only after `into_inner` can
    // another facade be built over the same medium.
    let stream = MemoryStream::new();
    let mut writer = BinaryWriter::new(stream);
    writer.write_u8(1).expect("write");
    let stream = writer.into_inner();
    let mut reader = BinaryReader::new(stream);
    reader.seek_to(0).expect("seek");
    assert_eq!(reader.read_u8().expect("read"), 1);
    let stream = reader.into_inner();
    let mut writer = BinaryWriter::new(stream);
    assert_eq!(writer.get_cur_pos().expect("tell"), 1);
}
