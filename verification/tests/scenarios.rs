use binary_file_reader::error::BinaryFileReaderError;
use binary_file_reader::BinaryFileReader;

fn sequential() -> Vec<u8> {
    (0..=255).collect::<Vec<u8>>()
}

#[test]
fn round_trip_scenario() {
    let buffer = [0x01, 0x02, 0x03, 0x04, 0x05];
    let mut reader = BinaryFileReader::new(&buffer);
    assert_eq!(reader.current_offset(), 0);
    assert_eq!(reader.read_u16().unwrap(), 0x0102);
    assert_eq!(reader.current_offset(), 2);
    assert_eq!(reader.read_u16().unwrap(), 0x0304);
    assert_eq!(reader.current_offset(), 4);
    match reader.read_u16() {
        Err(BinaryFileReaderError::BufferUnderflow {
            requested_bytes,
            current_offset,
            available_bytes,
        }) => {
            assert_eq!(requested_bytes, 2);
            assert_eq!(current_offset, 4);
            assert_eq!(available_bytes, 1);
        }
        other => panic!("unexpected result: {:?}", other),
    }
    assert_eq!(reader.current_offset(), 4);
    assert_eq!(reader.read_u8().unwrap(), 0x05);
    assert_eq!(reader.current_offset(), 5);
    assert_eq!(reader.available_bytes(), 0);
}

#[test]
fn nested_split_scenario() {
    let buffer = sequential();
    let mut parent = BinaryFileReader::new(&buffer);

    let mut a = parent.split_off_front(128).unwrap();
    assert_eq!(a.current_offset(), 0);
    assert_eq!(a.available_bytes(), 128);
    assert_eq!(parent.current_offset(), 128);

    let mut b = parent.split_off_front(64).unwrap();
    assert_eq!(b.current_offset(), 128);
    assert_eq!(b.available_bytes(), 64);
    assert_eq!(parent.current_offset(), 192);

    let mut c = a.split_off_front(64).unwrap();
    assert_eq!(c.current_offset(), 0);
    assert_eq!(c.available_bytes(), 64);
    assert_eq!(a.current_offset(), 64);
    assert_eq!(a.available_bytes(), 64);

    assert_eq!(a.read_u8().unwrap(), 64);
    assert_eq!(b.read_u8().unwrap(), 128);
    assert_eq!(c.read_u8().unwrap(), 0);
    assert_eq!(parent.read_u8().unwrap(), 192);
}

#[test]
fn failed_calls_keep_the_offset() {
    let buffer = [0xff, 0xfe, 0xfd];
    let mut reader = BinaryFileReader::new(&buffer);
    reader.read_u8().unwrap();
    assert_eq!(reader.current_offset(), 1);
    assert_eq!(reader.available_bytes(), 2);

    assert!(reader.read_u32().is_err());
    assert_eq!(reader.current_offset(), 1);
    assert!(reader.read_u64().is_err());
    assert_eq!(reader.current_offset(), 1);
    assert!(reader.read_u128().is_err());
    assert_eq!(reader.current_offset(), 1);
    let mut three = [7u8; 3];
    assert!(reader.read_bytes(&mut three).is_err());
    assert_eq!(three, [7, 7, 7]);
    assert_eq!(reader.current_offset(), 1);
    assert!(reader.read_utf8(3).is_err());
    assert_eq!(reader.current_offset(), 1);
    assert!(reader.read_utf8(2).is_err());
    assert_eq!(reader.current_offset(), 1);
    assert!(reader.expect(&[0xfe, 0xfd, 0xfc]).is_err());
    assert_eq!(reader.current_offset(), 1);
    assert!(reader.expect(&[0xfe, 0x00]).is_err());
    assert_eq!(reader.current_offset(), 1);
    assert!(reader.expect_utf8("ab").is_err());
    assert_eq!(reader.current_offset(), 1);
    assert!(reader.split_off_front(3).is_err());
    assert_eq!(reader.current_offset(), 1);
    assert_eq!(reader.available_bytes(), 2);

    reader.read_u16().unwrap();
    assert!(reader.read_u8().is_err());
    assert_eq!(reader.current_offset(), 3);
    assert!(reader.read_u4().is_err());
    assert_eq!(reader.current_offset(), 3);
    assert!(reader.read_u16().is_err());
    assert_eq!(reader.current_offset(), 3);
    assert_eq!(reader.available_bytes(), 0);
}

#[test]
fn successful_reads_advance_by_their_width() {
    let buffer = sequential();
    let mut reader = BinaryFileReader::new(&buffer);
    reader.read_u4().unwrap();
    assert_eq!(reader.current_offset(), 1);
    reader.read_u8().unwrap();
    assert_eq!(reader.current_offset(), 2);
    reader.read_u16().unwrap();
    assert_eq!(reader.current_offset(), 4);
    reader.read_u32().unwrap();
    assert_eq!(reader.current_offset(), 8);
    reader.read_u64().unwrap();
    assert_eq!(reader.current_offset(), 16);
    reader.read_u128().unwrap();
    assert_eq!(reader.current_offset(), 32);
    let mut run = [0u8; 5];
    reader.read_bytes(&mut run).unwrap();
    assert_eq!(run, [32, 33, 34, 35, 36]);
    assert_eq!(reader.current_offset(), 37);
    assert_eq!(reader.read_utf8(3).unwrap(), "%&'");
    assert_eq!(reader.current_offset(), 40);
    reader.expect(&[40, 41]).unwrap();
    assert_eq!(reader.current_offset(), 42);
    reader.expect_utf8("*+,").unwrap();
    assert_eq!(reader.current_offset(), 45);
    let child = reader.split_off_front(11).unwrap();
    assert_eq!(child.current_offset(), 45);
    assert_eq!(reader.current_offset(), 56);
    assert_eq!(reader.available_bytes(), 200);
}

#[test]
fn peeks_repeat_and_do_not_move() {
    let buffer = [0x41, 0x42, 0x43, 0x44, 0x45, 0x46, 0x47, 0x48, 0x49];
    let mut reader = BinaryFileReader::new(&buffer);
    reader.read_u8().unwrap();
    for _ in 0..3 {
        assert_eq!(reader.peek_u4().unwrap(), (0x4, 0x2));
        assert_eq!(reader.peek_u8().unwrap(), 0x42);
        assert_eq!(reader.peek_u16().unwrap(), 0x4243);
        assert_eq!(reader.peek_u32().unwrap(), 0x42434445);
        assert_eq!(reader.peek_u64().unwrap(), 0x4243444546474849);
        assert!(matches!(
            reader.peek_u128(),
            Err(BinaryFileReaderError::BufferUnderflow {
                requested_bytes: 16,
                current_offset: 1,
                available_bytes: 8,
            })
        ));
        let mut run = [0u8; 3];
        reader.peek_bytes(&mut run).unwrap();
        assert_eq!(run, [0x42, 0x43, 0x44]);
        assert_eq!(reader.peek_utf8(4).unwrap(), "BCDE");
        reader.expect_peek(&[0x42, 0x43]).unwrap();
        assert!(reader.expect_peek(&[0x43]).is_err());
        assert_eq!(reader.current_offset(), 1);
        assert_eq!(reader.available_bytes(), 8);
    }
    assert_eq!(reader.read_u16().unwrap(), 0x4243);
}

#[test]
fn split_parts_are_disjoint() {
    let buffer = sequential();
    let mut parent = BinaryFileReader::new(&buffer);
    parent.read_u32().unwrap();
    let m = parent.available_bytes();
    assert_eq!(m, 252);

    let mut child = parent.split_off_front(10).unwrap();
    assert_eq!(parent.available_bytes(), m - 10);
    assert_eq!(child.available_bytes(), 10);
    assert_eq!(child.current_offset(), 4);
    assert_eq!(child.current_offset() + child.available_bytes(), parent.current_offset());

    assert_eq!(child.read_u64().unwrap(), 0x0405060708090a0b);
    assert_eq!(child.read_u16().unwrap(), 0x0c0d);
    assert_eq!(child.available_bytes(), 0);
    assert!(matches!(
        child.read_u8(),
        Err(BinaryFileReaderError::BufferUnderflow {
            requested_bytes: 1,
            current_offset: 14,
            available_bytes: 0,
        })
    ));
    assert_eq!(parent.read_u8().unwrap(), 14);
}

#[test]
fn split_child_cannot_read_past_its_end() {
    let buffer = sequential();
    let mut parent = BinaryFileReader::new(&buffer);
    let mut child = parent.split_off_front(3).unwrap();
    assert!(matches!(
        child.read_u32(),
        Err(BinaryFileReaderError::BufferUnderflow {
            requested_bytes: 4,
            current_offset: 0,
            available_bytes: 3,
        })
    ));
    assert!(matches!(
        child.split_off_front(4),
        Err(BinaryFileReaderError::BufferUnderflow {
            requested_bytes: 4,
            current_offset: 0,
            available_bytes: 3,
        })
    ));
    let mut run = [0u8; 3];
    child.read_bytes(&mut run).unwrap();
    assert_eq!(run, [0, 1, 2]);
}

#[test]
fn split_parts_move_independently() {
    let buffer = sequential();
    let mut parent = BinaryFileReader::new(&buffer);
    let mut child = parent.split_off_front(100).unwrap();

    child.read_u64().unwrap();
    assert_eq!(child.current_offset(), 8);
    assert_eq!(parent.current_offset(), 100);
    assert_eq!(parent.available_bytes(), 156);

    parent.read_u128().unwrap();
    assert_eq!(parent.current_offset(), 116);
    assert_eq!(child.current_offset(), 8);
    assert_eq!(child.available_bytes(), 92);

    let grandchild = child.split_off_front(92).unwrap();
    assert_eq!(grandchild.current_offset(), 8);
    assert_eq!(child.available_bytes(), 0);
    assert_eq!(parent.current_offset(), 116);
    assert_eq!(parent.read_u8().unwrap(), 116);
    assert_eq!(grandchild.peek_u8().unwrap(), 8);
}

#[test]
fn underflow_boundary() {
    let buffer = [9u8, 8, 7, 6, 5];
    let mut reader = BinaryFileReader::new(&buffer);
    reader.read_u8().unwrap();
    let available = reader.available_bytes();
    assert_eq!(available, 4);

    let mut too_long = vec![0u8; available + 1];
    assert!(matches!(
        reader.read_bytes(&mut too_long),
        Err(BinaryFileReaderError::BufferUnderflow {
            requested_bytes: 5,
            current_offset: 1,
            available_bytes: 4,
        })
    ));
    assert!(matches!(
        reader.read_utf8(available + 1),
        Err(BinaryFileReaderError::BufferUnderflow {
            requested_bytes: 5,
            current_offset: 1,
            available_bytes: 4,
        })
    ));
    assert!(matches!(
        reader.split_off_front(available + 1),
        Err(BinaryFileReaderError::BufferUnderflow {
            requested_bytes: 5,
            current_offset: 1,
            available_bytes: 4,
        })
    ));
    assert_eq!(reader.available_bytes(), 4);

    let mut exact = vec![0u8; available];
    reader.read_bytes(&mut exact).unwrap();
    assert_eq!(exact, vec![8, 7, 6, 5]);
    assert_eq!(reader.available_bytes(), 0);
    assert_eq!(reader.current_offset(), 5);
}

#[test]
fn expect_is_exact() {
    let buffer = [1u8, 2, 3, 4, 5, 6];
    let mut reader = BinaryFileReader::new(&buffer);
    reader.read_u8().unwrap();

    match reader.expect(&[2, 3, 9]) {
        Err(BinaryFileReaderError::Expect { require, got, available_bytes, current_offset }) => {
            assert_eq!(require, vec![2, 3, 9]);
            assert_eq!(got, vec![2, 3, 4]);
            assert_eq!(available_bytes, 5);
            assert_eq!(current_offset, 1);
        }
        other => panic!("unexpected result: {:?}", other),
    }
    match reader.expect(&[9, 3, 4]) {
        Err(BinaryFileReaderError::Expect { require, got, .. }) => {
            assert_eq!(require, vec![9, 3, 4]);
            assert_eq!(got, vec![2, 3, 4]);
        }
        other => panic!("unexpected result: {:?}", other),
    }
    match reader.expect(&[2, 3, 4, 5, 6, 7]) {
        Err(BinaryFileReaderError::ExpectInsufficientBytes {
            require,
            available_bytes,
            current_offset,
        }) => {
            assert_eq!(require, vec![2, 3, 4, 5, 6, 7]);
            assert_eq!(available_bytes, 5);
            assert_eq!(current_offset, 1);
        }
        other => panic!("unexpected result: {:?}", other),
    }
    assert_eq!(reader.current_offset(), 1);

    let mut twin = reader.clone();
    reader.expect(&[2, 3, 4]).unwrap();
    let mut run = [0u8; 3];
    twin.read_bytes(&mut run).unwrap();
    assert_eq!(run, [2, 3, 4]);
    assert_eq!(reader.current_offset(), twin.current_offset());
    assert_eq!(reader.available_bytes(), twin.available_bytes());
}

#[test]
fn expect_utf8_compares_the_encoded_text() {
    let text = "héllo, wörld";
    let buffer = text.as_bytes().to_vec();
    let mut reader = BinaryFileReader::new(&buffer);
    reader.expect_utf8("héllo").unwrap();
    assert_eq!(reader.current_offset(), 6);
    assert!(matches!(
        reader.expect_utf8("héllo"),
        Err(BinaryFileReaderError::Expect { .. })
    ));
    assert_eq!(reader.current_offset(), 6);
    reader.expect_utf8(", wörld").unwrap();
    assert_eq!(reader.available_bytes(), 0);
    assert!(matches!(
        reader.expect_utf8("!"),
        Err(BinaryFileReaderError::ExpectInsufficientBytes { .. })
    ));
}

#[test]
fn big_endian_values_are_exact() {
    let buffer = [
        0xff, 0x00, 0x12, 0x34, 0x56, 0x78, 0x9a, 0xbc, 0xde, 0xf0, 0x0f, 0x1e, 0x2d, 0x3c, 0x4b,
        0x5a, 0x69, 0x78, 0x87, 0x96, 0xa5, 0xb4, 0xc3, 0xd2, 0xe1, 0xf0, 0xff, 0xff, 0xff, 0xff,
        0xff, 0xff, 0xff, 0xff, 0xff, 0xff, 0xff, 0xff, 0xff, 0xff, 0xff, 0xff,
    ];
    let mut reader = BinaryFileReader::new(&buffer);
    assert_eq!(reader.peek_u16().unwrap(), 0xff00);
    assert_eq!(reader.peek_u32().unwrap(), 0xff001234);
    assert_eq!(reader.peek_u64().unwrap(), 0xff00123456789abc);
    assert_eq!(reader.peek_u128().unwrap(), 0xff00123456789abcdef00f1e2d3c4b5a);
    assert_eq!(reader.read_u16().unwrap(), 65280);
    assert_eq!(reader.read_u32().unwrap(), 0x12345678);
    assert_eq!(reader.read_u64().unwrap(), 0x9abcdef00f1e2d3c);
    assert_eq!(reader.read_u128().unwrap(), 0x4b5a69788796a5b4c3d2e1f0ffffffff);
    assert_eq!(reader.peek_u64().unwrap(), u64::MAX);
    assert_eq!(reader.read_u32().unwrap(), u32::MAX);
    assert_eq!(reader.read_u16().unwrap(), u16::MAX);
    assert_eq!(reader.available_bytes(), 6);

    let ones = [0xffu8; 16];
    let reader = BinaryFileReader::new(&ones);
    assert_eq!(reader.peek_u128().unwrap(), u128::MAX);
}

#[test]
fn nibble_pairs() {
    let buffer = vec![0xab, 0xcd, 0xef, 0x00, 0xf0, 0x0f, 0xff];
    let mut reader = BinaryFileReader::new(&buffer);
    assert_eq!(reader.peek_u4().unwrap(), (0x0a, 0x0b));
    assert_eq!(reader.read_u4().unwrap(), (0x0a, 0x0b));
    assert_eq!(reader.read_u4().unwrap(), (0x0c, 0x0d));
    assert_eq!(reader.read_u4().unwrap(), (0x0e, 0x0f));
    assert_eq!(reader.read_u4().unwrap(), (0, 0));
    assert_eq!(reader.read_u4().unwrap(), (15, 0));
    assert_eq!(reader.read_u4().unwrap(), (0, 15));
    assert_eq!(reader.read_u4().unwrap(), (15, 15));
    assert!(reader.read_u4().is_err());
}

#[test]
fn byte_runs() {
    let buffer = vec![0, 1, 2, 3, 4, 5, 6, 7, 8, 9];
    let mut reader = BinaryFileReader::new(&buffer);
    let mut run = vec![0; 5];
    reader.peek_bytes(&mut run).unwrap();
    assert_eq!(run, vec![0, 1, 2, 3, 4]);
    reader.read_bytes(&mut run).unwrap();
    assert_eq!(run, vec![0, 1, 2, 3, 4]);
    reader.read_bytes(&mut run).unwrap();
    assert_eq!(run, vec![5, 6, 7, 8, 9]);
    assert!(reader.read_u8().is_err());

    let reader = BinaryFileReader::new(&buffer);
    let mut long = vec![42; 11];
    assert!(reader.peek_bytes(&mut long).is_err());
    assert_eq!(long, vec![42; 11]);
}

#[test]
fn requests_of_length_zero() {
    let buffer = [1u8, 2];
    let mut reader = BinaryFileReader::new(&buffer);
    reader.read_u16().unwrap();
    assert_eq!(reader.available_bytes(), 0);

    let mut nothing: [u8; 0] = [];
    reader.read_bytes(&mut nothing).unwrap();
    reader.peek_bytes(&mut nothing).unwrap();
    assert_eq!(reader.read_utf8(0).unwrap(), "");
    reader.expect(&[]).unwrap();
    reader.expect_utf8("").unwrap();
    let child = reader.split_off_front(0).unwrap();
    assert_eq!(child.current_offset(), 2);
    assert_eq!(child.available_bytes(), 0);
    assert_eq!(reader.current_offset(), 2);
    assert_eq!(child.take(), Vec::<u8>::new());
}

#[test]
fn empty_buffer() {
    let reader = BinaryFileReader::new(&[]);
    assert_eq!(reader.current_offset(), 0);
    assert_eq!(reader.available_bytes(), 0);
    assert!(matches!(
        reader.peek_u8(),
        Err(BinaryFileReaderError::BufferUnderflow {
            requested_bytes: 1,
            current_offset: 0,
            available_bytes: 0,
        })
    ));
    assert!(matches!(
        reader.expect_peek(&[0]),
        Err(BinaryFileReaderError::ExpectInsufficientBytes { .. })
    ));
    assert_eq!(reader.take(), Vec::<u8>::new());
}

#[test]
fn take_returns_the_unread_bytes() {
    let buffer = sequential();
    let mut reader = BinaryFileReader::new(&buffer);
    reader.read_u64().unwrap();
    let mut child = reader.split_off_front(6).unwrap();
    child.read_u16().unwrap();
    assert_eq!(child.take(), vec![10, 11, 12, 13]);
    reader.read_bytes(&mut [0u8; 240]).unwrap();
    assert_eq!(reader.take(), vec![254, 255]);
}

#[test]
fn text_is_decoded_from_exactly_the_bytes_asked() {
    let text = "aé€😀z";
    let buffer = text.as_bytes().to_vec();
    assert_eq!(buffer.len(), 11);
    let mut reader = BinaryFileReader::new(&buffer);
    assert_eq!(reader.peek_utf8(11).unwrap(), "aé€😀z");
    assert_eq!(reader.read_utf8(1).unwrap(), "a");
    assert_eq!(reader.read_utf8(2).unwrap(), "é");
    assert!(matches!(reader.peek_utf8(2), Err(BinaryFileReaderError::Utf8Error(_))));
    assert!(matches!(reader.read_utf8(4), Err(BinaryFileReaderError::Utf8Error(_))));
    assert_eq!(reader.current_offset(), 3);
    assert_eq!(reader.read_utf8(7).unwrap(), "€😀");
    assert_eq!(reader.read_utf8(1).unwrap(), "z");
    assert!(matches!(
        reader.read_utf8(1),
        Err(BinaryFileReaderError::BufferUnderflow {
            requested_bytes: 1,
            current_offset: 11,
            available_bytes: 0,
        })
    ));
}

#[test]
fn invalid_text_is_reported_by_the_decoder() {
    let buffer = [0x68, 0x69, 0xff, 0x21];
    let mut reader = BinaryFileReader::new(&buffer);
    match reader.read_utf8(4) {
        Err(BinaryFileReaderError::Utf8Error(cause)) => {
            assert_eq!(cause.valid_up_to(), 2);
            assert_eq!(cause.error_len(), Some(1));
        }
        other => panic!("unexpected result: {:?}", other),
    }
    assert_eq!(reader.current_offset(), 0);
    assert_eq!(reader.read_utf8(2).unwrap(), "hi");

    let overlong = [0xc0, 0x80];
    let reader = BinaryFileReader::new(&overlong);
    assert!(matches!(reader.peek_utf8(2), Err(BinaryFileReaderError::Utf8Error(_))));
    let surrogate = [0xed, 0xa0, 0x80];
    let reader = BinaryFileReader::new(&surrogate);
    assert!(matches!(reader.peek_utf8(3), Err(BinaryFileReaderError::Utf8Error(_))));
    let beyond = [0xf4, 0x90, 0x80, 0x80];
    let reader = BinaryFileReader::new(&beyond);
    assert!(matches!(reader.peek_utf8(4), Err(BinaryFileReaderError::Utf8Error(_))));
    let last = [0xf4, 0x8f, 0xbf, 0xbf];
    let reader = BinaryFileReader::new(&last);
    assert_eq!(reader.peek_utf8(4).unwrap(), "\u{10ffff}");
}

#[test]
fn a_clone_moves_on_its_own() {
    let buffer = [1u8, 2, 3, 4];
    let mut reader = BinaryFileReader::new(&buffer);
    reader.read_u8().unwrap();
    let mut copy = reader.clone();
    assert_eq!(copy.current_offset(), 1);
    assert_eq!(copy.available_bytes(), 3);
    assert_eq!(copy.read_u16().unwrap(), 0x0203);
    assert_eq!(reader.current_offset(), 1);
    assert_eq!(reader.read_u8().unwrap(), 2);
    assert_eq!(copy.current_offset(), 3);
}
