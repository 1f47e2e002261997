use dht_pdu::pdu_io::{FromBytes, SizeOf, ToBytes};
use dht_pdu::schema::{
    decode_record, encode_record, push_fields, read_fields, read_pdu, size_of_fields, write_pdu,
    Field, FieldKind, Record,
};
use dht_pdu::val_pdus::{text_length_octet, write_val_record};
use dht_pdu::net_pdus::NetJoinPdu;
use dht_pdu::text::{
    char_low_byte, extend_with_first_low_bytes, extend_with_low_bytes, string_of_bytes,
};
use dht_pdu::util::{read_be_u16, read_be_u32, read_be_u8};

#[test]
fn primitives_are_written_big_endian() {
    assert_eq!(0xABu8.to_bytes(), vec![0xAB]);
    assert_eq!(0x1234u16.to_bytes(), vec![0x12, 0x34]);
    assert_eq!(0x12345678u32.to_bytes(), vec![0x12, 0x34, 0x56, 0x78]);
    assert_eq!(1000u16.to_bytes(), vec![3, 232]);
    assert_eq!(0u32.to_bytes(), vec![0, 0, 0, 0]);
    assert_eq!(u32::MAX.to_bytes(), vec![255, 255, 255, 255]);
    assert_eq!(u16::MAX.to_bytes(), vec![255, 255]);
}

#[test]
fn primitives_agree_with_the_standard_byte_order() {
    for v in [0u32, 1, 255, 256, 65535, 65536, 0x01020304, 0xfffefdfc, u32::MAX] {
        assert_eq!(v.to_bytes(), v.to_be_bytes().to_vec());
        let bytes = v.to_bytes();
        let mut cursor: &[u8] = &bytes;
        assert_eq!(u32::from_bytes(&mut cursor), v);
        assert!(cursor.is_empty());
    }
    for v in [0u16, 1, 255, 256, 0x0102, u16::MAX] {
        assert_eq!(v.to_bytes(), v.to_be_bytes().to_vec());
        let bytes = v.to_bytes();
        let mut cursor: &[u8] = &bytes;
        assert_eq!(u16::from_bytes(&mut cursor), v);
        assert!(cursor.is_empty());
    }
}

#[test]
fn readers_advance_the_cursor() {
    let data = [0x01u8, 0x02, 0x03, 0x04, 0x05, 0x06, 0x07, 0x08];
    let mut cursor: &[u8] = &data;
    assert_eq!(read_be_u8(&mut cursor), 0x01);
    assert_eq!(cursor, &data[1..]);
    assert_eq!(read_be_u16(&mut cursor), 0x0203);
    assert_eq!(cursor, &data[3..]);
    assert_eq!(read_be_u32(&mut cursor), 0x04050607);
    assert_eq!(cursor, &[0x08]);
    assert_eq!(u8::from_bytes(&mut cursor), 0x08);
    assert!(cursor.is_empty());
}

#[test]
fn widths_are_one_two_and_four() {
    assert_eq!(<u8 as SizeOf>::size_of(), 1);
    assert_eq!(<u16 as SizeOf>::size_of(), 2);
    assert_eq!(<u32 as SizeOf>::size_of(), 4);
    assert_eq!(FieldKind::U8.width(), 1);
    assert_eq!(FieldKind::U16.width(), 2);
    assert_eq!(FieldKind::U32.width(), 4);
}

#[test]
fn the_engine_writes_fields_in_declared_order() {
    let fields = [Field::U16(0x0102), Field::U8(3), Field::U32(0x04050607), Field::U8(8)];
    let bytes = write_pdu(&fields);
    assert_eq!(bytes, vec![1, 2, 3, 4, 5, 6, 7, 8]);
    assert_eq!(write_pdu(&[]), Vec::<u8>::new());
}

#[test]
fn the_engine_reads_what_it_wrote() {
    let schema = [FieldKind::U16, FieldKind::U8, FieldKind::U32, FieldKind::U8];
    assert_eq!(size_of_fields(&schema), 8);
    assert_eq!(size_of_fields(&[]), 0);
    let bytes = [1u8, 2, 3, 4, 5, 6, 7, 8, 99];
    let (fields, consumed) = read_pdu(&schema, &bytes).unwrap();
    assert_eq!(consumed, 8);
    assert_eq!(
        fields,
        vec![Field::U16(0x0102), Field::U8(3), Field::U32(0x04050607), Field::U8(8)]
    );
    for n in 0..8 {
        assert!(read_pdu(&schema, &bytes[..n]).is_none());
    }
    assert_eq!(read_pdu(&[], &[]), Some((vec![], 0)));
}

#[test]
fn a_record_type_declares_its_schema() {
    assert_eq!(
        NetJoinPdu::schema(),
        vec![
            FieldKind::U8,
            FieldKind::U32,
            FieldKind::U16,
            FieldKind::U8,
            FieldKind::U32,
            FieldKind::U16
        ]
    );
    assert_eq!(NetJoinPdu::declared_size(), 14);
    assert_eq!(size_of_fields(&NetJoinPdu::schema()), 14);
    let join = NetJoinPdu::new(1, 2, 3, 4, 5);
    let fields = join.fields();
    assert_eq!(
        fields,
        vec![
            Field::U8(3),
            Field::U32(1),
            Field::U16(2),
            Field::U8(3),
            Field::U32(4),
            Field::U16(5)
        ]
    );
    assert_eq!(NetJoinPdu::from_fields(&fields), join);
    assert_eq!(fields[1].kind(), FieldKind::U32);
    assert_eq!(fields[1].as_u32(), 1);
    assert_eq!(fields[2].as_u16(), 2);
    assert_eq!(fields[3].as_u8(), 3);
}

#[test]
fn text_is_one_byte_per_character() {
    assert_eq!(char_low_byte('A'), 0x41);
    assert_eq!(char_low_byte('\u{ff}'), 0xff);
    assert_eq!(char_low_byte('\u{100}'), 0x00);
    assert_eq!(char_low_byte('\u{1f600}'), 0x00);
    assert_eq!(char_low_byte('\u{20ac}'), 0xac);

    let mut out = vec![7u8];
    extend_with_first_low_bytes(&mut out, "hello", 3);
    assert_eq!(out, vec![7, b'h', b'e', b'l']);
    extend_with_first_low_bytes(&mut out, "hi", 3);
    assert_eq!(out, vec![7, b'h', b'e', b'l', b'h', b'i']);
    extend_with_first_low_bytes(&mut out, "", 3);
    extend_with_first_low_bytes(&mut out, "abc", 0);
    assert_eq!(out.len(), 6);
    extend_with_low_bytes(&mut out, "\u{e9}\u{141}z");
    assert_eq!(&out[6..], &[0xe9, 0x41, b'z']);
    extend_with_low_bytes(&mut out, "");
    assert_eq!(out.len(), 9);

    assert_eq!(string_of_bytes(b"Test"), "Test");
    assert_eq!(string_of_bytes(&[]), "");
    assert_eq!(string_of_bytes(&[0xe9, 0x00, 0xff]), "\u{e9}\u{0}\u{ff}");
}

#[test]
fn fields_are_pushed_behind_what_is_there() {
    let mut out = vec![0xAAu8];
    push_fields(&[Field::U8(1), Field::U16(0x0203)], &mut out);
    assert_eq!(out, vec![0xAA, 1, 2, 3]);
    push_fields(&[], &mut out);
    assert_eq!(out, vec![0xAA, 1, 2, 3]);
}

#[test]
fn fields_are_read_from_left_to_right() {
    let data = [3u8, 0, 0, 0, 7, 0x12, 0x34, 0xEE];
    let mut cursor: &[u8] = &data;
    let fields = read_fields(&[FieldKind::U8, FieldKind::U32, FieldKind::U16], &mut cursor);
    assert_eq!(fields, vec![Field::U8(3), Field::U32(7), Field::U16(0x1234)]);
    assert_eq!(cursor, &[0xEE]);
    assert_eq!(FieldKind::U16.read(&mut &data[5..]), Field::U16(0x1234));
    assert_eq!(Field::U16(0x1234).to_bytes(), vec![0x12, 0x34]);
}

#[test]
fn a_record_goes_through_the_engine() {
    let join = NetJoinPdu::new(0x01020304, 1000, 50, 0x05060708, 2000);
    let bytes = encode_record(&join);
    assert_eq!(bytes, vec![3, 1, 2, 3, 4, 3, 232, 50, 5, 6, 7, 8, 7, 208]);
    assert_eq!(decode_record::<NetJoinPdu>(&bytes), Some((join, 14)));
    assert_eq!(decode_record::<NetJoinPdu>(&bytes[..13]), None);
}

#[test]
fn a_length_octet_counts_utf8_bytes() {
    assert_eq!(text_length_octet(&String::new()), 0);
    assert_eq!(text_length_octet(&"Test".to_owned()), 4);
    assert_eq!(text_length_octet(&"\u{e9}".to_owned()), 2);
    assert_eq!(text_length_octet(&"\u{20ac}".to_owned()), 3);
    assert_eq!(text_length_octet(&"a".repeat(255)), 255);
    assert_eq!(text_length_octet(&"a".repeat(256)), 0);
    assert_eq!(text_length_octet(&"a".repeat(257)), 1);
}

#[test]
fn a_record_is_written_with_the_octets_it_is_given() {
    let bytes = write_val_record(
        100,
        &"ABCDEFGHIJKLMNOP".to_owned(),
        9,
        &"xy".to_owned(),
        0,
        &"z".to_owned(),
    );
    let mut expected = vec![100u8];
    expected.extend_from_slice(b"ABCDEFGHIJKL");
    expected.extend_from_slice(&[9, b'x', b'y', 0, b'z']);
    assert_eq!(bytes, expected);
}
