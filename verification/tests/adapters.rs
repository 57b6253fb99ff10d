use rotmg::adapter::rle::{LengthPrefix, RLE};
use rotmg::adapter::{Adapter, Error, InvalidData, OtherError};
use rotmg::cursor::Cursor;
use rotmg::ieee::{F32, F64};
use std::mem::size_of;

#[test]
fn primitives_test_primitive_adapters() {
    let mut buffer = vec![];

    123u8.put_be(&mut buffer).unwrap();
    123u16.put_be(&mut buffer).unwrap();
    123u32.put_be(&mut buffer).unwrap();
    123u64.put_be(&mut buffer).unwrap();
    123u128.put_be(&mut buffer).unwrap();

    (-123i8).put_be(&mut buffer).unwrap();
    (-123i16).put_be(&mut buffer).unwrap();
    (-123i32).put_be(&mut buffer).unwrap();
    (-123i64).put_be(&mut buffer).unwrap();
    (-123i128).put_be(&mut buffer).unwrap();

    F32::from_bits(3.14f32.to_bits()).put_be(&mut buffer).unwrap();
    F64::from_bits(3.14f64.to_bits()).put_be(&mut buffer).unwrap();

    true.put_be(&mut buffer).unwrap();

    let mut reader = Cursor::new(&buffer);

    assert_eq!(123u8, u8::get_be(&mut reader).unwrap());
    assert_eq!(123u16, u16::get_be(&mut reader).unwrap());
    assert_eq!(123u32, u32::get_be(&mut reader).unwrap());
    assert_eq!(123u64, u64::get_be(&mut reader).unwrap());
    assert_eq!(123u128, u128::get_be(&mut reader).unwrap());

    assert_eq!(-123i8, i8::get_be(&mut reader).unwrap());
    assert_eq!(-123i16, i16::get_be(&mut reader).unwrap());
    assert_eq!(-123i32, i32::get_be(&mut reader).unwrap());
    assert_eq!(-123i64, i64::get_be(&mut reader).unwrap());
    assert_eq!(-123i128, i128::get_be(&mut reader).unwrap());

    assert_eq!(3.14f32, f32::from_bits(F32::get_be(&mut reader).unwrap().to_bits()));
    assert_eq!(3.14f64, f64::from_bits(F64::get_be(&mut reader).unwrap().to_bits()));

    assert_eq!(true, bool::get_be(&mut reader).unwrap());

    assert_eq!(reader.remaining(), 0);
}

#[test]
fn complex_test_primitive_adapters() {
    let mut buffer = vec![];

    Some(42i32).put_be(&mut buffer).unwrap();
    None::<i32>.put_be(&mut buffer).unwrap();

    let mut reader = Cursor::new(&buffer);

    assert_eq!(Some(42i32), Option::<i32>::get_be(&mut reader).unwrap());
    assert_eq!(None::<i32>, Option::<i32>::get_be(&mut reader).unwrap());
}

#[test]
fn check_rle_size() {
    assert_eq!(size_of::<RLE<Vec<u32>>>(), size_of::<Vec<u32>>());
}

#[test]
fn test_rle_vec() {
    let mut buf = vec![];
    RLE::<Vec<u8>>::new(vec![1, 2, 3, 4, 5])
        .put_be(&mut buf)
        .expect("encoding error");
    assert_eq!(buf, vec![0, 5, 1, 2, 3, 4, 5]);

    let output = RLE::<Vec<u8>>::get_be(&mut Cursor::new(&buf)).expect("decoding error");
    assert_eq!(output.unwrap(), vec![1, 2, 3, 4, 5]);

    let large = (0..300).collect::<Vec<u16>>();
    assert!(matches!(
        RLE::<_, u8>::new(large).put_be(&mut buf),
        Err(Error::InvalidData(_))
    ));
}

#[test]
fn test_rle_string() {
    let mut buf = vec![];
    RLE::<String>::new("hello world".to_owned())
        .put_be(&mut buf)
        .expect("encoding error");

    let expected_encoded = {
        let mut b = vec![0, 11];
        b.extend_from_slice(b"hello world");
        b
    };

    assert_eq!(buf, expected_encoded);

    let output = RLE::<String>::get_be(&mut Cursor::new(&buf)).expect("decoding error");
    assert_eq!(output.unwrap(), "hello world");

    let large = "abc".repeat(100);
    assert!(matches!(
        RLE::<String, u8>::new(large).put_be(&mut buf),
        Err(Error::InvalidData(_))
    ));
}

#[test]
fn integers_are_written_most_significant_byte_first() {
    let mut buf = vec![];
    0x0102u16.put_be(&mut buf).unwrap();
    0x03040506u32.put_be(&mut buf).unwrap();
    0x0708090a0b0c0d0eu64.put_be(&mut buf).unwrap();
    (-2i16).put_be(&mut buf).unwrap();
    i32::MIN.put_be(&mut buf).unwrap();
    assert_eq!(
        buf,
        vec![
            1, 2, 3, 4, 5, 6, 7, 8, 9, 10, 11, 12, 13, 14, 0xff, 0xfe, 0x80, 0, 0, 0
        ]
    );
    let mut wide = vec![];
    u128::MAX.put_be(&mut wide).unwrap();
    i128::MIN.put_be(&mut wide).unwrap();
    (-1i128).put_be(&mut wide).unwrap();
    let mut reader = Cursor::new(&wide);
    assert_eq!(u128::get_be(&mut reader).unwrap(), u128::MAX);
    assert_eq!(i128::get_be(&mut reader).unwrap(), i128::MIN);
    assert_eq!(i128::get_be(&mut reader).unwrap(), -1);
    assert_eq!(wide[16], 0x80);
}

#[test]
fn extreme_integers_round_trip() {
    let mut buf = vec![];
    i8::MIN.put_be(&mut buf).unwrap();
    i8::MAX.put_be(&mut buf).unwrap();
    i64::MIN.put_be(&mut buf).unwrap();
    u64::MAX.put_be(&mut buf).unwrap();
    u32::MAX.put_be(&mut buf).unwrap();
    let mut reader = Cursor::new(&buf);
    assert_eq!(i8::get_be(&mut reader).unwrap(), i8::MIN);
    assert_eq!(i8::get_be(&mut reader).unwrap(), i8::MAX);
    assert_eq!(i64::get_be(&mut reader).unwrap(), i64::MIN);
    assert_eq!(u64::get_be(&mut reader).unwrap(), u64::MAX);
    assert_eq!(u32::get_be(&mut reader).unwrap(), u32::MAX);
    assert!(!reader.has_remaining());
}

#[test]
fn a_short_buffer_is_refused_and_left_unread() {
    let data = [1u8, 2, 3];
    let mut reader = Cursor::new(&data);
    assert_eq!(
        u32::get_be(&mut reader),
        Err(Error::InsufficientBytes { remaining: 3, needed: 4 })
    );
    assert_eq!(reader.remaining(), 3);
    assert_eq!(u16::get_be(&mut reader), Ok(0x0102));
    assert_eq!(
        u64::get_be(&mut reader),
        Err(Error::InsufficientBytes { remaining: 1, needed: 8 })
    );
    let empty: [u8; 0] = [];
    assert_eq!(
        bool::get_be(&mut Cursor::new(&empty)),
        Err(Error::InsufficientBytes { remaining: 0, needed: 1 })
    );
}

#[test]
fn every_byte_but_zero_is_true() {
    let data = [0u8, 1, 2, 0xff];
    let mut reader = Cursor::new(&data);
    assert_eq!(bool::get_be(&mut reader), Ok(false));
    assert_eq!(bool::get_be(&mut reader), Ok(true));
    assert_eq!(bool::get_be(&mut reader), Ok(true));
    assert_eq!(bool::get_be(&mut reader), Ok(true));
    let mut buf = vec![];
    true.put_be(&mut buf).unwrap();
    false.put_be(&mut buf).unwrap();
    assert_eq!(buf, vec![1, 0]);
}

#[test]
fn a_vector_of_300_fits_a_16_bit_prefix_and_round_trips() {
    let large = (0..300).collect::<Vec<u16>>();
    let mut buf = vec![];
    RLE::<Vec<u16>, u16>::new(large.clone()).put_be(&mut buf).unwrap();
    assert_eq!(buf.len(), 2 + 600);
    assert_eq!(&buf[..2], &[0x01, 0x2c]);
    let back = RLE::<Vec<u16>, u16>::get_be(&mut Cursor::new(&buf)).unwrap();
    assert_eq!(back.unwrap(), large);
}

#[test]
fn a_length_that_does_not_fit_its_prefix_writes_nothing() {
    let mut buf = vec![7u8];
    let r = RLE::<Vec<u8>, u8>::new(vec![0u8; 256]).put_be(&mut buf);
    assert_eq!(
        r,
        Err(Error::InvalidData(InvalidData::LengthFromUsize { len: 256 }))
    );
    assert_eq!(buf, vec![7]);
    let ok = RLE::<Vec<u8>, u8>::new(vec![9u8; 255]).put_be(&mut buf);
    assert_eq!(ok, Ok(()));
    assert_eq!(buf.len(), 1 + 1 + 255);
    assert_eq!(buf[1], 255);
    assert_eq!(
        InvalidData::LengthFromUsize { len: 256 }.message(),
        "cannot cast length from usize"
    );
    assert_eq!(InvalidData::LengthToUsize.message(), "cannot cast length to usize");
}

#[test]
fn prefixes_of_every_width() {
    let mut buf = vec![];
    RLE::<String, u8>::new("ab".to_owned()).put_be(&mut buf).unwrap();
    RLE::<String, u32>::new("cd".to_owned()).put_be(&mut buf).unwrap();
    RLE::<Vec<u8>, u64>::new(vec![5]).put_be(&mut buf).unwrap();
    assert_eq!(
        buf,
        vec![2, b'a', b'b', 0, 0, 0, 2, b'c', b'd', 0, 0, 0, 0, 0, 0, 0, 1, 5]
    );
    let mut reader = Cursor::new(&buf);
    assert_eq!(RLE::<String, u8>::get_be(&mut reader).unwrap().unwrap(), "ab");
    assert_eq!(RLE::<String, u32>::get_be(&mut reader).unwrap().unwrap(), "cd");
    assert_eq!(RLE::<Vec<u8>, u64>::get_be(&mut reader).unwrap().unwrap(), vec![5]);
    assert_eq!(u8::from_usize(255), Some(255));
    assert_eq!(u8::from_usize(256), None);
    assert_eq!(u16::from_usize(65536), None);
    assert_eq!(u32::from_usize(7), Some(7));
    assert_eq!(7u32.to_usize(), Some(7));
    assert_eq!(9u64.to_usize(), Some(9));
}

#[test]
fn text_that_is_not_utf8_is_refused() {
    let data = [0u8, 2, 0xff, 0xfe, 1];
    let mut reader = Cursor::new(&data);
    assert_eq!(
        RLE::<String>::get_be(&mut reader).map(|s| s.unwrap()),
        Err(Error::Other(OtherError::InvalidUtf8))
    );
    assert_eq!(reader.remaining(), 1);
}

#[test]
fn text_of_several_bytes_per_character_round_trips() {
    let text = "héllo wörld €";
    let mut buf = vec![];
    RLE::<String>::new(text.to_owned()).put_be(&mut buf).unwrap();
    assert_eq!(buf[1] as usize, text.len());
    assert_eq!(buf.len(), 2 + text.len());
    let back = RLE::<String>::get_be(&mut Cursor::new(&buf)).unwrap();
    assert_eq!(back.unwrap(), text);
}

#[test]
fn a_sequence_stops_at_the_first_element_that_fails() {
    let data = [0u8, 3, 0, 1, 0, 2, 0];
    let mut reader = Cursor::new(&data);
    let r = RLE::<Vec<u16>>::get_be(&mut reader).map(|v| v.unwrap());
    assert_eq!(r, Err(Error::InsufficientBytes { remaining: 1, needed: 2 }));
    assert_eq!(reader.remaining(), 1);
}

#[test]
fn an_option_is_a_value_exactly_when_bytes_are_left() {
    let data = [7u8];
    let mut reader = Cursor::new(&data);
    assert_eq!(Option::<u8>::get_be(&mut reader), Ok(Some(7)));
    assert_eq!(Option::<u8>::get_be(&mut reader), Ok(None));
    let short = [1u8, 2];
    assert_eq!(
        Option::<u32>::get_be(&mut Cursor::new(&short)),
        Err(Error::InsufficientBytes { remaining: 2, needed: 4 })
    );
    let mut buf = vec![];
    None::<u8>.put_be(&mut buf).unwrap();
    assert!(buf.is_empty());
    Some(5u8).put_be(&mut buf).unwrap();
    assert_eq!(buf, vec![5]);
}

#[test]
fn the_cursor_reads_in_order() {
    let data = [1u8, 2, 3, 4, 5];
    let mut cursor = Cursor::new(&data);
    assert_eq!(cursor.remaining(), 5);
    assert_eq!(cursor.peek(1), 2);
    assert_eq!(cursor.get_u8(), 1);
    cursor.advance(1);
    assert_eq!(cursor.take(2), vec![3, 4]);
    assert!(cursor.has_remaining());
    assert_eq!(cursor.get_u8(), 5);
    assert!(!cursor.has_remaining());
    assert_eq!(cursor.take(0), Vec::<u8>::new());
}

#[test]
fn the_wrapper_gives_back_what_it_holds() {
    let wrapped: RLE<Vec<u8>> = RLE::new(vec![1, 2, 3]);
    assert_eq!(wrapped.as_ref(), &vec![1, 2, 3]);
    let copy = wrapped.clone();
    assert_eq!(copy, wrapped);
    assert_eq!(wrapped.unwrap(), vec![1, 2, 3]);
}
