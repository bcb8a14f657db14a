use binary_rw::BinaryReader;
use binary_rw::BinaryWriter;
use binary_rw::MemoryStream;

fn written(write: impl FnOnce(&mut BinaryWriter<MemoryStream>)) -> BinaryReader<MemoryStream> {
    let stream = MemoryStream::new();
    let mut writer = BinaryWriter::new(stream);
    write(&mut writer);
    writer.seek_to(0).expect("seek back to the start");
    BinaryReader::new(writer.into_inner())
}

#[test]
fn u8_round_trip() {
    for v in [0u8, 1, 127, 255] {
        let mut reader = written(|w| {
            assert_eq!(w.write_u8(v).expect("write"), 1);
        });
        assert_eq!(reader.read_u8().expect("read"), v);
    }
}

#[test]
fn i8_round_trip() {
    for v in [i8::MIN, -1, 0, 1, i8::MAX] {
        let mut reader = written(|w| {
            assert_eq!(w.write_i8(v).expect("write"), 1);
        });
        assert_eq!(reader.read_i8().expect("read"), v);
    }
}

#[test]
fn u16_round_trip() {
    for v in [0u16, 1, 0x1234, u16::MAX] {
        let mut reader = written(|w| {
            assert_eq!(w.write_u16(v).expect("write"), 2);
        });
        assert_eq!(reader.read_u16().expect("read"), v);
    }
}

#[test]
fn i16_round_trip() {
    for v in [i16::MIN, -300, 0, 300, i16::MAX] {
        let mut reader = written(|w| {
            assert_eq!(w.write_i16(v).expect("write"), 2);
        });
        assert_eq!(reader.read_i16().expect("read"), v);
    }
}

#[test]
fn u32_round_trip() {
    for v in [0u32, 300, 0xdead_beef, u32::MAX] {
        let mut reader = written(|w| {
            assert_eq!(w.write_u32(v).expect("write"), 4);
        });
        assert_eq!(reader.read_u32().expect("read"), v);
    }
}

#[test]
fn i32_round_trip() {
    for v in [i32::MIN, -1, 0, 65_000_000, i32::MAX] {
        let mut reader = written(|w| {
            assert_eq!(w.write_i32(v).expect("write"), 4);
        });
        assert_eq!(reader.read_i32().expect("read"), v);
    }
}

#[test]
fn u64_round_trip() {
    for v in [0u64, 1, 0x0123_4567_89ab_cdef, u64::MAX] {
        let mut reader = written(|w| {
            assert_eq!(w.write_u64(v).expect("write"), 8);
        });
        assert_eq!(reader.read_u64().expect("read"), v);
    }
}

#[test]
fn i64_round_trip() {
    for v in [i64::MIN, -42, 0, 42, i64::MAX] {
        let mut reader = written(|w| {
            assert_eq!(w.write_i64(v).expect("write"), 8);
        });
        assert_eq!(reader.read_i64().expect("read"), v);
    }
}

#[test]
fn usize_round_trip() {
    for v in [0usize, 1, 4096, usize::MAX] {
        let mut reader = written(|w| {
            assert_eq!(w.write_usize(v).expect("write"), 8);
        });
        assert_eq!(reader.read_usize().expect("read"), v);
    }
}

#[test]
fn isize_round_trip() {
    for v in [isize::MIN, -7, 0, 7, isize::MAX] {
        let mut reader = written(|w| {
            assert_eq!(w.write_isize(v).expect("write"), 8);
        });
        assert_eq!(reader.read_isize().expect("read"), v);
    }
}

#[test]
fn f32_bits_round_trip() {
    // The wire format for an f32 is the little-endian bytes of its IEEE-754
    // bit pattern, which is exactly the encoding of `to_bits`.
    for v in [0.0f32, -0.0, 3.14, f32::MIN, f32::MAX, f32::INFINITY, f32::NAN] {
        let bits = v.to_bits();
        let mut reader = written(|w| {
            assert_eq!(w.write_u32(bits).expect("write"), 4);
        });
        let back = f32::from_bits(reader.read_u32().expect("read"));
        assert_eq!(back.to_bits(), bits);
    }
}

#[test]
fn f64_bits_round_trip() {
    for v in [0.0f64, -0.0, 3.14159, f64::MIN, f64::MAX, f64::NEG_INFINITY, f64::NAN] {
        let bits = v.to_bits();
        let mut reader = written(|w| {
            assert_eq!(w.write_u64(bits).expect("write"), 8);
        });
        let back = f64::from_bits(reader.read_u64().expect("read"));
        assert_eq!(back.to_bits(), bits);
    }
}

#[test]
fn string_round_trip() {
    for s in ["", "a", "hello world", "h\u{e9}llo", "\u{65e5}\u{672c}\u{8a9e} text \u{1f600}"] {
        let mut reader = written(|w| {
            let n = w.write_string(String::from(s)).expect("write");
            assert_eq!(n, s.len());
        });
        assert_eq!(reader.read_string().expect("read"), s);
    }
}

#[test]
fn string_prefix_is_byte_length_not_char_count() {
    // Two-byte code point: one char, two bytes.
    let s = "\u{e9}";
    assert_eq!(s.chars().count(), 1);
    let mut reader = written(|w| {
        w.write_string(String::from(s)).expect("write");
    });
    let prefix = reader.read_usize().expect("read prefix");
    assert_eq!(prefix, 2);
    let payload = reader.read_bytes(prefix).expect("read payload");
    assert_eq!(payload, vec![0xc3, 0xa9]);
}

#[test]
fn bytes_round_trip() {
    let data = vec![0u8, 255, 17, 42];
    let mut reader = written(|w| {
        assert_eq!(w.write_bytes(vec![0u8, 255, 17, 42]).expect("write"), 4);
    });
    assert_eq!(reader.read_bytes(4).expect("read"), data);
}
