use dht_pdu::pdu_io::ParsePdu;
use dht_pdu::stun_pdus::{
    StunLookupPdu, StunResponsePdu, STUN_LOOKUP_ID, STUN_LOOKUP_SIZE, STUN_RESPONSE_ID,
    STUN_RESPONSE_SIZE,
};

#[test]
fn test_stun_lookup() {
    let a = StunLookupPdu::new();
    let b: Vec<u8> = a.into();
    assert_eq!(b.len(), STUN_LOOKUP_SIZE);
    let (_a, b) = StunLookupPdu::try_parse(&b).unwrap();
    assert_eq!(b, STUN_LOOKUP_SIZE);
}

#[test]
fn test_stun_response() {
    let a = StunResponsePdu::new(12345);
    let b: Vec<u8> = a.into();
    assert_eq!(b.len(), STUN_RESPONSE_SIZE);
    let (a, b) = StunResponsePdu::try_parse(&b).unwrap();
    assert_eq!(b, STUN_RESPONSE_SIZE);
    assert_eq!(a.address, 12345);
}

#[test]
fn stun_messages_have_the_documented_bytes() {
    let lookup: Vec<u8> = StunLookupPdu::new().into();
    assert_eq!(lookup, vec![STUN_LOOKUP_ID]);
    let response: Vec<u8> = StunResponsePdu::new(0x7f000001).into();
    assert_eq!(response, vec![STUN_RESPONSE_ID, 127, 0, 0, 1]);
}

#[test]
fn stun_response_round_trips_at_the_boundaries() {
    for address in [0u32, 1, u32::MAX] {
        let p = StunResponsePdu::new(address);
        let b: Vec<u8> = p.into();
        assert_eq!(StunResponsePdu::try_parse(&b), Some((p, 5)));
        for n in 0..b.len() {
            assert!(StunResponsePdu::try_parse(&b[..n]).is_none());
        }
    }
}
