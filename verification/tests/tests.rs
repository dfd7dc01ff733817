use untrusted::EndOfInput;
use untrusted::Input;
use untrusted::Reader;

#[test]
fn test_input_from() {
    let _ = untrusted::Input::from(b"foo");
}

#[test]
fn test_input_is_empty() {
    let input = untrusted::Input::from(b"");
    assert!(input.is_empty());
    let input = untrusted::Input::from(b"foo");
    assert!(!input.is_empty());
}

#[test]
fn test_input_len() {
    let input = untrusted::Input::from(b"foo");
    assert_eq!(input.len(), 3);
}

#[test]
fn test_input_read_all() {
    let input = untrusted::Input::from(b"foo");
    let result = input.read_all(untrusted::EndOfInput, |input| {
        assert_eq!(b'f', input.read_byte()?);
        assert_eq!(b'o', input.read_byte()?);
        assert_eq!(b'o', input.read_byte()?);
        assert!(input.at_end());
        Ok(())
    });
    assert_eq!(result, Ok(()));
}

#[test]
fn test_input_read_all_unconsume() {
    let input = untrusted::Input::from(b"foo");
    let result = input.read_all(untrusted::EndOfInput, |input| {
        assert_eq!(b'f', input.read_byte()?);
        assert!(!input.at_end());
        Ok(())
    });
    assert_eq!(result, Err(untrusted::EndOfInput));
}

#[test]
fn test_input_as_slice_less_safe() {
    let slice = b"foo";
    let input = untrusted::Input::from(slice);
    assert_eq!(input.as_slice_less_safe(), slice);
}

#[test]
fn using_reader_after_skip_and_get_error_returns_error_must_not_panic() {
    let input = untrusted::Input::from(&[]);
    let r = input.read_all(untrusted::EndOfInput, |input| {
        let r = input.read_bytes(1);
        assert_eq!(r, Err(untrusted::EndOfInput));
        Ok(input.read_bytes_to_end())
    });
    let _ = r; // "Use" r. The value of `r` is undefined here.
}

#[test]
fn size_assumptions() {
    // Assume that a pointer can address any point in the address space, and
    // infer that this implies that a byte slice will never be
    // `core::usize::MAX` bytes long.
    assert_eq!(core::mem::size_of::<&u8>(), core::mem::size_of::<usize>());
}

#[test]
fn const_fn() {
    let _input: untrusted::Input<'static> = untrusted::Input::from(&[]);
}

#[test]
fn test_vec_into() {
    let vec = vec![0u8; 0];
    let _x: untrusted::Input = (&vec[..]).into();
}

#[test]
fn test_from_slice() {
    let slice: &[u8] = &[0u8];
    let _x: untrusted::Input = slice.into();
}

#[test]
fn test_debug() {
    let vec: Vec<_> = (0..0x100).map(|b| b as u8).collect();

    let expected = "b\"\
        \\0\\x01\\x02\\x03\\x04\\x05\\x06\\x07\
        \\x08\\t\\n\\x0b\\x0c\\r\\x0e\\x0f\
        \\x10\\x11\\x12\\x13\\x14\\x15\\x16\\x17\
        \\x18\\x19\\x1a\\x1b\\x1c\\x1d\\x1e\\x1f\
        \x20!\\\"#$%&'()*+,-./0123456789:;<=>?\
        @ABCDEFGHIJKLMNOPQRSTUVWXYZ[\\\\]^_\
        `abcdefghijklmnopqrstuvwxyz{|}~\\x7f\
        \\x80\\x81\\x82\\x83\\x84\\x85\\x86\\x87\
        \\x88\\x89\\x8a\\x8b\\x8c\\x8d\\x8e\\x8f\
        \\x90\\x91\\x92\\x93\\x94\\x95\\x96\\x97\
        \\x98\\x99\\x9a\\x9b\\x9c\\x9d\\x9e\\x9f\
        \\xa0\\xa1\\xa2\\xa3\\xa4\\xa5\\xa6\\xa7\
        \\xa8\\xa9\\xaa\\xab\\xac\\xad\\xae\\xaf\
        \\xb0\\xb1\\xb2\\xb3\\xb4\\xb5\\xb6\\xb7\
        \\xb8\\xb9\\xba\\xbb\\xbc\\xbd\\xbe\\xbf\
        \\xc0\\xc1\\xc2\\xc3\\xc4\\xc5\\xc6\\xc7\
        \\xc8\\xc9\\xca\\xcb\\xcc\\xcd\\xce\\xcf\
        \\xd0\\xd1\\xd2\\xd3\\xd4\\xd5\\xd6\\xd7\
        \\xd8\\xd9\\xda\\xdb\\xdc\\xdd\\xde\\xdf\
        \\xe0\\xe1\\xe2\\xe3\\xe4\\xe5\\xe6\\xe7\
        \\xe8\\xe9\\xea\\xeb\\xec\\xed\\xee\\xef\
        \\xf0\\xf1\\xf2\\xf3\\xf4\\xf5\\xf6\\xf7\
        \\xf8\\xf9\\xfa\\xfb\\xfc\\xfd\\xfe\\xff\"";

    assert_eq!(expected, Input::from(&vec).to_debug_string());
}

#[test]
fn read_bytes_in_bounds_returns_prefix_and_advances() {
    let data = [1u8, 2, 3, 4, 5];
    for n in 0..=data.len() {
        let mut reader = Reader::new(Input::from(&data));
        let taken = reader.read_bytes(n).unwrap();
        assert_eq!(taken.as_slice_less_safe(), &data[..n]);
        assert_eq!(reader.read_bytes_to_end().as_slice_less_safe(), &data[n..]);
    }
}

#[test]
fn read_bytes_out_of_bounds_fails_and_preserves_state() {
    let data = [1u8, 2, 3];
    for n in data.len() + 1..data.len() + 40 {
        let mut reader = Reader::new(Input::from(&data));
        assert_eq!(reader.read_bytes(n), Err(EndOfInput));
        assert_eq!(reader.read_bytes_to_end().as_slice_less_safe(), &data[..]);
    }
}

#[test]
fn read_byte_on_empty_cursor_fails_idempotently() {
    let mut reader = Reader::new(Input::from(&[]));
    for _ in 0..4 {
        assert_eq!(reader.read_byte(), Err(EndOfInput));
        assert!(reader.at_end());
    }
    assert!(reader.read_bytes_to_end().is_empty());
}

#[test]
fn read_all_propagates_inner_error() {
    let input = Input::from(b"xy");
    let result: Result<(), u32> = input.read_all(7, |r| {
        let _ = r.read_byte().map_err(|_| 9u32)?;
        Err(5)
    });
    assert_eq!(result, Err(5));
}

#[test]
fn empty_input_read_bytes_then_to_end() {
    let input = Input::from(&[]);
    let mut reader = Reader::new(input);
    assert_eq!(reader.read_bytes(1), Err(EndOfInput));
    let rest = reader.read_bytes_to_end();
    assert!(rest.is_empty());
    assert_eq!(rest.len(), 0);
}

#[test]
fn split_at_out_of_bounds_is_none() {
    let buffer = [0xabu8; 64];
    for len in 0..=8 {
        let region = &buffer[..len];
        let input = Input::from(region);
        for i in len + 1..len + 50 {
            assert!(input.split_at(i).is_none());
        }
        assert!(input.split_at(0).is_some());
        assert!(input.split_at(len).is_some());
    }
}

#[test]
fn split_first_and_first() {
    let input = Input::from(b"ab");
    assert_eq!(input.first(), Some(&b'a'));
    let (head, tail) = input.split_first().unwrap();
    assert_eq!(head, b'a');
    assert_eq!(tail.as_slice_less_safe(), b"b");
    assert!(Input::from(b"").split_first().is_none());
    assert!(Input::from(b"").first().is_none());
}

#[test]
fn peek_does_not_consume() {
    let mut reader = Reader::new(Input::from(b"z"));
    assert!(reader.peek(b'z'));
    assert!(!reader.peek(b'a'));
    assert!(reader.peek(b'z'));
    assert_eq!(reader.read_byte(), Ok(b'z'));
    assert!(!reader.peek(b'z'));
}

#[test]
fn skip_and_skip_to_end() {
    let mut reader = Reader::new(Input::from(b"abcd"));
    assert_eq!(reader.skip(2), Ok(()));
    assert_eq!(reader.skip(5), Err(EndOfInput));
    assert!(reader.peek(b'c'));
    reader.skip_to_end();
    assert!(reader.at_end());
}

#[test]
fn read_partial_reports_consumed_bytes() {
    let input = Input::from(b"abcd");
    let result = input.read_all(EndOfInput, |r| {
        let (consumed, first) = r.read_partial(|inner| inner.read_byte())?;
        assert_eq!(consumed.as_slice_less_safe(), b"a");
        assert_eq!(first, b'a');
        let (consumed, ()) = r.read_partial(|inner| {
            inner.skip(2)?;
            Ok(())
        })?;
        assert_eq!(consumed.as_slice_less_safe(), b"bc");
        assert_eq!(r.read_byte(), Ok(b'd'));
        Ok(())
    });
    assert_eq!(result, Ok(()));
}

#[test]
fn read_partial_propagates_failure() {
    let mut reader = Reader::new(Input::from(b"ab"));
    let result: Result<(Input, u8), EndOfInput> = reader.read_partial(|inner| {
        inner.skip(1)?;
        inner.read_byte()?;
        inner.read_byte()
    });
    assert_eq!(result, Err(EndOfInput));
}

#[test]
fn input_equality_is_content_equality() {
    let a = [1u8, 2, 3];
    let b = vec![1u8, 2, 3];
    assert_eq!(Input::from(&a), Input::from(&b[..]));
    assert!(Input::from(b"foo") != Input::from(b"fop"));
    assert!(Input::from(b"foo") != Input::from(b"fo"));
    assert_eq!(Input::empty(), Input::from(b""));
    assert!(Input::from(b"foo") == b"foo"[..]);
    assert!(b"foo"[..] == Input::from(b"foo"));
    assert!(Input::from(b"foo") != b"bar"[..]);
}

#[test]
fn slice_checked_access() {
    let data = [10u8, 20, 30];
    let slice = untrusted::Slice::new(&data);
    assert_eq!(slice.len(), 3);
    assert!(!slice.is_empty());
    assert_eq!(slice.get(0), Some(&10));
    assert_eq!(slice.get(2), Some(&30));
    assert_eq!(slice.get(3), None);
    assert_eq!(slice.get(usize::MAX), None);
    let sub = slice.subslice(1..3).unwrap();
    assert_eq!(sub.as_slice_less_safe(), &[20, 30]);
    assert!(slice.subslice(1..4).is_none());
    assert!(slice.subslice(2..1).is_none());
    assert!(slice.subslice(3..3).unwrap().is_empty());
}

#[test]
fn debug_rendering_single_bytes() {
    assert_eq!(Input::from(&[0x00]).to_debug_string(), "b\"\\0\"");
    assert_eq!(Input::from(&[0x0a]).to_debug_string(), "b\"\\n\"");
    assert_eq!(Input::from(&[0x0d]).to_debug_string(), "b\"\\r\"");
    assert_eq!(Input::from(&[0x09]).to_debug_string(), "b\"\\t\"");
    assert_eq!(Input::from(&[0x41]).to_debug_string(), "b\"A\"");
    assert_eq!(Input::from(&[0xff]).to_debug_string(), "b\"\\xff\"");
    assert_eq!(Input::from(&[0x22]).to_debug_string(), "b\"\\\"\"");
    assert_eq!(Input::from(&[0x5c]).to_debug_string(), "b\"\\\\\"");
    assert_eq!(Input::from(&[0x7e]).to_debug_string(), "b\"~\"");
    assert_eq!(Input::from(&[0x7f]).to_debug_string(), "b\"\\x7f\"");
    assert_eq!(Input::from(&[0x20]).to_debug_string(), "b\" \"");
    assert_eq!(Input::from(b"").to_debug_string(), "b\"\"");
}

#[test]
fn u16_round_trips() {
    for v in [0u16, 1, 0x1234, 0xff00, u16::MAX] {
        let be = untrusted::endian::u16_to_be_bytes(v);
        let mut reader = Reader::new(Input::from(&be));
        assert_eq!(untrusted::endian::read_u16_be(&mut reader), Ok(v));
        assert!(reader.at_end());

        let le = untrusted::endian::u16_to_le_bytes(v);
        let mut reader = Reader::new(Input::from(&le));
        assert_eq!(untrusted::endian::read_u16_le(&mut reader), Ok(v));
        assert!(reader.at_end());
    }
}

#[test]
fn u32_round_trips() {
    for v in [0u32, 1, 0x12345678, 0xdead_beef, u32::MAX] {
        let be = untrusted::endian::u32_to_be_bytes(v);
        let mut reader = Reader::new(Input::from(&be));
        assert_eq!(untrusted::endian::read_u32_be(&mut reader), Ok(v));
        assert!(reader.at_end());

        let le = untrusted::endian::u32_to_le_bytes(v);
        let mut reader = Reader::new(Input::from(&le));
        assert_eq!(untrusted::endian::read_u32_le(&mut reader), Ok(v));
        assert!(reader.at_end());
    }
}

#[test]
fn u64_round_trips() {
    for v in [0u64, 1, 0x0123_4567_89ab_cdef, u64::MAX] {
        let be = untrusted::endian::u64_to_be_bytes(v);
        let mut reader = Reader::new(Input::from(&be));
        assert_eq!(untrusted::endian::read_u64_be(&mut reader), Ok(v));
        assert!(reader.at_end());

        let le = untrusted::endian::u64_to_le_bytes(v);
        let mut reader = Reader::new(Input::from(&le));
        assert_eq!(untrusted::endian::read_u64_le(&mut reader), Ok(v));
        assert!(reader.at_end());
    }
}

#[test]
fn endian_exact_values() {
    let bytes = [0x12u8, 0x34];
    let mut reader = Reader::new(Input::from(&bytes));
    assert_eq!(untrusted::endian::read_u16_be(&mut reader), Ok(0x1234));
    let mut reader = Reader::new(Input::from(&bytes));
    assert_eq!(untrusted::endian::read_u16_le(&mut reader), Ok(0x3412));

    let bytes = [0x01u8, 0x02, 0x03, 0x04];
    let mut reader = Reader::new(Input::from(&bytes));
    assert_eq!(untrusted::endian::read_u32_be(&mut reader), Ok(0x0102_0304));
    let mut reader = Reader::new(Input::from(&bytes));
    assert_eq!(untrusted::endian::read_u32_le(&mut reader), Ok(0x0403_0201));

    let bytes = [0u8, 0, 0, 0, 0, 0, 0x12, 0x34];
    let mut reader = Reader::new(Input::from(&bytes));
    assert_eq!(untrusted::endian::read_u64_be(&mut reader), Ok(0x1234));
}

#[test]
fn endian_insufficient_bytes() {
    let bytes = [0x12u8];
    let mut reader = Reader::new(Input::from(&bytes));
    assert_eq!(untrusted::endian::read_u16_be(&mut reader), Err(EndOfInput));
    assert_eq!(untrusted::endian::read_u16_le(&mut reader), Err(EndOfInput));
    assert_eq!(untrusted::endian::read_u32_be(&mut reader), Err(EndOfInput));
    assert_eq!(untrusted::endian::read_u64_le(&mut reader), Err(EndOfInput));
    // the failed decodes consumed nothing
    assert_eq!(reader.read_byte(), Ok(0x12));
}
