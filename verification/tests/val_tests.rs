use dht_pdu::pdu_io::ParsePdu;
use dht_pdu::val_pdus::{
    ValInsertPdu, ValLookupPdu, ValLookupResponsePdu, ValRemovePdu, SSN_LENGTH, VAL_INSERT_ID,
    VAL_LOOKUP_ID, VAL_LOOKUP_RESPONSE_ID, VAL_LOOKUP_SIZE, VAL_REMOVE_ID, VAL_REMOVE_SIZE,
};

#[test]
fn test_val_insert() {
    let ssn = "111111111111".to_owned();
    let name = "Test".to_owned();
    let email = "Emai".to_owned();
    let a = ValInsertPdu::new(ssn.clone(), name.clone(), email.clone());
    let b: Vec<u8> = a.into();
    let len = 1 + SSN_LENGTH + 1 + name.len() + 1 + email.len();
    assert_eq!(b.len(), len);
    let (a, b) = ValInsertPdu::try_parse(&b).unwrap();
    assert_eq!(b, len);
    assert_eq!(a.ssn, ssn);
    assert_eq!(a.name_length, name.len() as u8);
    assert_eq!(a.name, name);
    assert_eq!(a.email_length, email.len() as u8);
    assert_eq!(a.email, email);
}

#[test]
fn test_val_remove() {
    let ssn = "111111111111".to_owned();
    let a = ValRemovePdu::new(ssn.clone());
    let b: Vec<u8> = a.into();
    assert_eq!(b.len(), VAL_REMOVE_SIZE);
    let (a, b) = ValRemovePdu::try_parse(&b).unwrap();
    assert_eq!(b, VAL_REMOVE_SIZE);
    assert_eq!(a.ssn, ssn);
}

#[test]
fn test_val_lookup() {
    let ssn = "111111111111".to_owned();
    let a = ValLookupPdu::new(ssn.clone(), 12345, 1234);
    let b: Vec<u8> = a.into();
    assert_eq!(b.len(), VAL_LOOKUP_SIZE);
    let (a, b) = ValLookupPdu::try_parse(&b).unwrap();
    assert_eq!(b, VAL_LOOKUP_SIZE);
    assert_eq!(a.ssn, ssn);
    assert_eq!(a.sender_address, 12345);
    assert_eq!(a.sender_port, 1234);
}

#[test]
fn test_val_lookup_response() {
    let ssn = "111111111111".to_owned();
    let name = "Test".to_owned();
    let email = "Emai".to_owned();
    let a = ValLookupResponsePdu::new(ssn.clone(), name.clone(), email.clone());
    let b: Vec<u8> = a.into();
    let len = 1 + SSN_LENGTH + 1 + name.len() + 1 + email.len();
    assert_eq!(b.len(), len);
    let (a, b) = ValLookupResponsePdu::try_parse(&b).unwrap();
    assert_eq!(b, len);
    assert_eq!(a.ssn, ssn);
    assert_eq!(a.name_length, name.len() as u8);
    assert_eq!(a.name, name);
    assert_eq!(a.email_length, email.len() as u8);
    assert_eq!(a.email, email);
}

#[test]
fn insert_has_the_documented_bytes() {
    let pdu =
        ValInsertPdu::new("111111111111".to_owned(), "Test".to_owned(), "Emai".to_owned());
    assert_eq!(pdu.pdu_type, VAL_INSERT_ID);
    let bytes: Vec<u8> = pdu.into();
    assert_eq!(bytes.len(), 23);
    let mut expected = vec![100u8];
    expected.extend_from_slice(b"111111111111");
    expected.push(4);
    expected.extend_from_slice(b"Test");
    expected.push(4);
    expected.extend_from_slice(b"Emai");
    assert_eq!(bytes, expected);
    let (back, consumed) = ValInsertPdu::try_parse(&bytes).unwrap();
    assert_eq!(consumed, 23);
    assert_eq!(back.pdu_type, 100);
    assert_eq!(back.ssn, "111111111111");
    assert_eq!(back.name, "Test");
    assert_eq!(back.email, "Emai");
}

#[test]
fn lookup_has_the_documented_bytes() {
    let bytes: Vec<u8> = ValLookupPdu::new("ABCDEFGHIJKL".to_owned(), 0x0A000001, 0x1234).into();
    let mut expected = vec![VAL_LOOKUP_ID];
    expected.extend_from_slice(b"ABCDEFGHIJKL");
    expected.extend_from_slice(&[10, 0, 0, 1, 0x12, 0x34]);
    assert_eq!(bytes, expected);
}

#[test]
fn record_consumption_follows_the_declared_lengths() {
    for name_len in [0usize, 1, 255] {
        for email_len in [0usize, 1, 255] {
            let name = "n".repeat(name_len);
            let email = "e".repeat(email_len);
            let pdu = ValInsertPdu::new("123456789012".to_owned(), name.clone(), email.clone());
            let mut bytes: Vec<u8> = pdu.into();
            assert_eq!(bytes.len(), 1 + 12 + 1 + name_len + 1 + email_len);
            bytes.extend_from_slice(&[9, 9, 9]);
            let (back, consumed) = ValInsertPdu::try_parse(&bytes).unwrap();
            assert_eq!(consumed, 1 + 12 + 1 + name_len + 1 + email_len);
            assert_eq!(back.name_length as usize, name_len);
            assert_eq!(back.email_length as usize, email_len);
            assert_eq!(back.name, name);
            assert_eq!(back.email, email);

            let pdu =
                ValLookupResponsePdu::new("123456789012".to_owned(), name.clone(), email.clone());
            let bytes: Vec<u8> = pdu.into();
            let (back, consumed) = ValLookupResponsePdu::try_parse(&bytes).unwrap();
            assert_eq!(consumed, 15 + name_len + email_len);
            assert_eq!(back.name, name);
            assert_eq!(back.email, email);
        }
    }
}

#[test]
fn strict_prefixes_of_a_record_need_more_data() {
    let pdu = ValInsertPdu::new("123456789012".to_owned(), "Ada".to_owned(), "a@b".to_owned());
    let bytes: Vec<u8> = pdu.into();
    for n in 0..bytes.len() {
        assert!(ValInsertPdu::try_parse(&bytes[..n]).is_none());
        assert!(ValLookupResponsePdu::try_parse(&bytes[..n]).is_none());
    }
    assert!(ValInsertPdu::try_parse(&bytes).is_some());
}

#[test]
fn a_declared_length_beyond_the_buffer_needs_more_data() {
    let mut bytes = vec![100u8];
    bytes.extend_from_slice(b"123456789012");
    bytes.push(5);
    bytes.extend_from_slice(b"abc");
    assert!(ValInsertPdu::try_parse(&bytes).is_none());

    let mut bytes = vec![100u8];
    bytes.extend_from_slice(b"123456789012");
    bytes.push(2);
    bytes.extend_from_slice(b"ab");
    // the name is whole, the second length octet is missing
    assert!(ValInsertPdu::try_parse(&bytes).is_none());
    bytes.push(3);
    bytes.extend_from_slice(b"xy");
    assert!(ValInsertPdu::try_parse(&bytes).is_none());
    bytes.push(b'z');
    let (pdu, consumed) = ValInsertPdu::try_parse(&bytes).unwrap();
    assert_eq!(consumed, 20);
    assert_eq!(pdu.name, "ab");
    assert_eq!(pdu.email, "xyz");
}

#[test]
fn strict_prefixes_of_remove_and_lookup_need_more_data() {
    let remove: Vec<u8> = ValRemovePdu::new("123456789012".to_owned()).into();
    for n in 0..remove.len() {
        assert!(ValRemovePdu::try_parse(&remove[..n]).is_none());
    }
    let lookup: Vec<u8> = ValLookupPdu::new("123456789012".to_owned(), 1, 2).into();
    for n in 0..lookup.len() {
        assert!(ValLookupPdu::try_parse(&lookup[..n]).is_none());
    }
}

#[test]
fn a_short_identifier_gives_a_short_message() {
    let bytes: Vec<u8> = ValRemovePdu::new("ABC".to_owned()).into();
    assert_eq!(bytes, vec![VAL_REMOVE_ID, b'A', b'B', b'C']);
    assert_eq!(bytes.len(), 4);
    // alone, the four bytes are taken for the start of a thirteen-byte message
    assert!(ValRemovePdu::try_parse(&bytes).is_none());
    // in a stream, the bytes of the next message are read as the identifier
    let mut stream = bytes.clone();
    let next: Vec<u8> = ValRemovePdu::new("123456789012".to_owned()).into();
    stream.extend_from_slice(&next);
    let (pdu, consumed) = ValRemovePdu::try_parse(&stream).unwrap();
    assert_eq!(consumed, 13);
    assert_eq!(pdu.ssn, "ABCe12345678");
}

#[test]
fn a_long_identifier_is_cut_to_twelve_characters() {
    let bytes: Vec<u8> = ValRemovePdu::new("12345678901234567890".to_owned()).into();
    assert_eq!(bytes.len(), 13);
    let (pdu, _) = ValRemovePdu::try_parse(&bytes).unwrap();
    assert_eq!(pdu.ssn, "123456789012");
}

#[test]
fn characters_are_cut_to_their_low_byte() {
    // U+00E9 fits one byte but takes two in UTF-8; U+0141 loses its high bits
    let pdu =
        ValInsertPdu::new("123456789012".to_owned(), "\u{e9}".to_owned(), "\u{141}".to_owned());
    assert_eq!(pdu.name_length, 2);
    assert_eq!(pdu.email_length, 2);
    let bytes: Vec<u8> = pdu.into();
    assert_eq!(&bytes[13..], &[2, 0xe9, 2, 0x41]);
}

#[test]
fn bytes_above_ascii_are_read_as_single_characters() {
    let mut bytes = vec![VAL_INSERT_ID];
    bytes.extend_from_slice(b"123456789012");
    bytes.extend_from_slice(&[1, 0xe9, 2, 0xff, 0x00]);
    let (pdu, consumed) = ValInsertPdu::try_parse(&bytes).unwrap();
    assert_eq!(consumed, 18);
    assert_eq!(pdu.name, "\u{e9}");
    assert_eq!(pdu.email, "\u{ff}\u{0}");
    // written again, the text gives the bytes it was read from
    let again: Vec<u8> = pdu.into();
    assert_eq!(again, bytes);
}

#[test]
fn a_length_octet_is_the_length_reduced_to_eight_bits() {
    let pdu = ValInsertPdu::new("123456789012".to_owned(), "x".repeat(256), "y".repeat(300));
    assert_eq!(pdu.name_length, 0);
    assert_eq!(pdu.email_length, 44);
}

#[test]
fn a_lookup_response_keeps_its_own_tag() {
    let pdu = ValLookupResponsePdu::new("123456789012".to_owned(), "a".to_owned(), "b".to_owned());
    assert_eq!(pdu.pdu_type, VAL_LOOKUP_RESPONSE_ID);
    let bytes: Vec<u8> = pdu.into();
    assert_eq!(bytes[0], 103);
    let (back, _) = ValLookupResponsePdu::try_parse(&bytes).unwrap();
    assert_eq!(back.pdu_type, 103);
}
