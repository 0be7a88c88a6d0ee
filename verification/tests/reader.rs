use pump_sniper::reader::{BinaryReader, StringFault};

#[test]
fn integers_are_read_least_significant_byte_first() {
    let data = [0x78u8, 0x56, 0x34, 0x12, 1, 2, 3, 4, 5, 6, 7, 8, 0xff];
    let mut reader = BinaryReader::new(&data);
    assert_eq!(reader.position(), 0);
    assert_eq!(reader.remaining(), 13);
    assert_eq!(reader.read_u32(), Some(0x1234_5678));
    assert_eq!(reader.position(), 4);
    assert_eq!(reader.read_u64(), Some(0x0807_0605_0403_0201));
    assert_eq!(reader.position(), 12);
    assert_eq!(reader.remaining(), 1);
}

#[test]
fn a_failed_read_leaves_the_cursor_where_it_was() {
    let data = [1u8, 2, 3, 4, 5, 6, 7];
    let mut reader = BinaryReader::new(&data);
    assert_eq!(reader.read_u64(), None);
    assert_eq!(reader.position(), 0);
    assert_eq!(reader.read_key(), None);
    assert_eq!(reader.position(), 0);
    assert_eq!(reader.read_u32(), Some(0x0403_0201));
    assert_eq!(reader.read_u32(), None);
    assert_eq!(reader.position(), 4);
    assert_eq!(reader.read_string(), Err(StringFault::LengthTruncated));
    assert_eq!(reader.position(), 4);
}

#[test]
fn the_largest_integers_are_read() {
    let data = [0xffu8; 12];
    let mut reader = BinaryReader::new(&data);
    assert_eq!(reader.read_u64(), Some(u64::MAX));
    assert_eq!(reader.read_u32(), Some(u32::MAX));
    assert_eq!(reader.remaining(), 0);
    assert_eq!(reader.read_u32(), None);
}

#[test]
fn keys_are_thirty_two_raw_bytes() {
    let mut data = vec![9u8];
    for i in 0..32u8 {
        data.push(i);
    }
    data.push(7);
    let mut reader = BinaryReader::starting_at(&data, 1).unwrap();
    let key = reader.read_key().unwrap();
    for i in 0..32usize {
        assert_eq!(key[i], i as u8);
    }
    assert_eq!(reader.position(), 33);
    assert_eq!(reader.read_key(), None);
    assert_eq!(reader.position(), 33);
}

#[test]
fn a_reader_starts_inside_the_slice_or_at_its_end() {
    let data = [1u8, 2, 3];
    assert!(BinaryReader::starting_at(&data, 3).is_some());
    assert!(BinaryReader::starting_at(&data, 4).is_none());
    assert_eq!(BinaryReader::starting_at(&data, 3).map(|r| r.remaining()), Some(0));
    assert_eq!(BinaryReader::starting_at(&data, 1).map(|r| r.position()), Some(1));
}

#[test]
fn strings_carry_their_length_in_front() {
    let data = [5u8, 0, 0, 0, b'h', b'e', b'l', b'l', b'o', 0, 0, 0, 0, 3, 0, 0, 0, 0xe2, 0x82, 0xac];
    let mut reader = BinaryReader::new(&data);
    assert_eq!(reader.read_string(), Ok("hello".to_string()));
    assert_eq!(reader.position(), 9);
    assert_eq!(reader.read_string(), Ok(String::new()));
    assert_eq!(reader.position(), 13);
    assert_eq!(reader.read_string(), Ok("\u{20ac}".to_string()));
    assert_eq!(reader.remaining(), 0);
}

#[test]
fn each_string_fault_has_its_input() {
    let short_length = [1u8, 0, 0];
    let mut reader = BinaryReader::new(&short_length);
    assert_eq!(reader.read_string(), Err(StringFault::LengthTruncated));
    assert_eq!(reader.position(), 0);

    let short_body = [3u8, 0, 0, 0, b'a', b'b'];
    let mut reader = BinaryReader::new(&short_body);
    assert_eq!(reader.read_string(), Err(StringFault::BodyTruncated));
    assert_eq!(reader.position(), 0);

    let huge = [0xffu8, 0xff, 0xff, 0xff, b'a'];
    let mut reader = BinaryReader::new(&huge);
    assert_eq!(reader.read_string(), Err(StringFault::BodyTruncated));
    assert_eq!(reader.position(), 0);

    let not_text = [2u8, 0, 0, 0, 0xc3, 0x28];
    let mut reader = BinaryReader::new(&not_text);
    assert_eq!(reader.read_string(), Err(StringFault::InvalidUtf8));
    assert_eq!(reader.position(), 0);

    let cut_character = [2u8, 0, 0, 0, 0xe2, 0x82, 0xac];
    let mut reader = BinaryReader::new(&cut_character);
    assert_eq!(reader.read_string(), Err(StringFault::InvalidUtf8));
}
