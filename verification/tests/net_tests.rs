use dht_pdu::net_pdus::{
    NetAlivePdu, NetCloseConnectionPdu, NetGetNodePdu, NetGetNodeResponsePdu, NetJoinPdu,
    NetJoinResponsePdu, NetLeavingPdu, NetNewRangePdu, NetNewRangeResponsePdu, NET_ALIVE_SIZE,
    NET_CLOSE_CONNECTION_SIZE, NET_GET_NODE_RESPONSE_SIZE, NET_GET_NODE_SIZE,
    NET_JOIN_RESPONSE_SIZE, NET_JOIN_SIZE, NET_LEAVING_SIZE, NET_NEW_RANGE_RESPONSE_ID,
    NET_NEW_RANGE_RESPONSE_SIZE, NET_NEW_RANGE_SIZE,
};
use dht_pdu::pdu_io::ParsePdu;

#[test]
fn test_net_alive() {
    let a = NetAlivePdu::new();
    let b: Vec<u8> = a.into();
    assert_eq!(b.len(), NET_ALIVE_SIZE);
    let (_a, b) = NetAlivePdu::try_parse(&b).unwrap();
    assert_eq!(b, NET_ALIVE_SIZE);
}

#[test]
fn test_net_get_node() {
    let a = NetGetNodePdu::new();
    let b: Vec<u8> = a.into();
    assert_eq!(b.len(), NET_GET_NODE_SIZE);
    let (_a, b) = NetGetNodePdu::try_parse(&b).unwrap();
    assert_eq!(b, NET_GET_NODE_SIZE);
}

#[test]
fn test_net_get_node_response() {
    let a = NetGetNodeResponsePdu::new(123456, 1234);
    let b: Vec<u8> = a.into();
    assert_eq!(b.len(), NET_GET_NODE_RESPONSE_SIZE);
    let (a, b) = NetGetNodeResponsePdu::try_parse(&b).unwrap();
    assert_eq!(b, NET_GET_NODE_RESPONSE_SIZE);
    assert_eq!(123456, a.address);
    assert_eq!(1234, a.port);
}

#[test]
fn test_net_join() {
    let a = NetJoinPdu::new(1010, 1011, 10, 1122, 1123);
    let b: Vec<u8> = a.into();
    assert_eq!(b.len(), NET_JOIN_SIZE);
    let (a, b) = NetJoinPdu::try_parse(&b).unwrap();
    assert_eq!(b, NET_JOIN_SIZE);
    assert_eq!(1010, a.src_address);
    assert_eq!(1011, a.src_port);
    assert_eq!(10, a.max_span);
    assert_eq!(1122, a.max_address);
    assert_eq!(1123, a.max_port);
}

#[test]
fn test_net_join_response() {
    let a = NetJoinResponsePdu::new(123456, 1234, 10, 20);
    let b: Vec<u8> = a.into();
    assert_eq!(b.len(), NET_JOIN_RESPONSE_SIZE);
    let (a, b) = NetJoinResponsePdu::try_parse(&b).unwrap();
    assert_eq!(b, NET_JOIN_RESPONSE_SIZE);
    assert_eq!(123456, a.next_address);
    assert_eq!(1234, a.next_port);
    assert_eq!(10, a.range_start);
    assert_eq!(20, a.range_end);
}

#[test]
fn test_net_close_connection() {
    let a = NetCloseConnectionPdu::new();
    let b: Vec<u8> = a.into();
    assert_eq!(b.len(), NET_CLOSE_CONNECTION_SIZE);
    let (_a, b) = NetCloseConnectionPdu::try_parse(&b).unwrap();
    assert_eq!(b, NET_CLOSE_CONNECTION_SIZE);
}

#[test]
fn test_net_new_range() {
    let a = NetNewRangePdu::new(1, 255);
    let b: Vec<u8> = a.into();
    assert_eq!(b.len(), NET_NEW_RANGE_SIZE);
    let (a, b) = NetNewRangePdu::try_parse(&b).unwrap();
    assert_eq!(b, NET_NEW_RANGE_SIZE);
    assert_eq!(a.range_start, 1);
    assert_eq!(a.range_end, 255);
}

#[test]
fn test_net_new_range_response() {
    let a = NetNewRangeResponsePdu::new();
    let b: Vec<u8> = a.into();
    assert_eq!(b.len(), NET_NEW_RANGE_RESPONSE_SIZE);
    let (a, b) = NetNewRangeResponsePdu::try_parse(&b).unwrap();
    assert_eq!(b, NET_NEW_RANGE_RESPONSE_SIZE);
    assert_eq!(a.pdu_type, NET_NEW_RANGE_RESPONSE_ID);
}

#[test]
fn test_net_leaving() {
    let a = NetLeavingPdu::new(12345, 255);
    let b: Vec<u8> = a.into();
    assert_eq!(b.len(), NET_LEAVING_SIZE);
    let (a, b) = NetLeavingPdu::try_parse(&b).unwrap();
    assert_eq!(b, NET_LEAVING_SIZE);
    assert_eq!(a.new_address, 12345);
    assert_eq!(a.new_port, 255);
}

#[test]
fn join_has_the_documented_bytes() {
    let join = NetJoinPdu::new(0x01020304, 1000, 50, 0x05060708, 2000);
    let bytes: Vec<u8> = join.into();
    assert_eq!(bytes, vec![3, 1, 2, 3, 4, 3, 232, 50, 5, 6, 7, 8, 7, 208]);
    let (back, consumed) = NetJoinPdu::try_parse(&bytes).unwrap();
    assert_eq!(consumed, 14);
    assert_eq!(back, join);
}

#[test]
fn join_response_has_the_documented_bytes() {
    let bytes: Vec<u8> = NetJoinResponsePdu::new(0xC0A80001, 8080, 64, 127).into();
    assert_eq!(bytes, vec![4, 192, 168, 0, 1, 0x1f, 0x90, 64, 127]);
}

#[test]
fn fixed_messages_round_trip_at_the_boundaries() {
    for (address, port, small) in [(0u32, 0u16, 0u8), (u32::MAX, u16::MAX, u8::MAX), (1, 256, 128)]
    {
        let p = NetGetNodeResponsePdu::new(address, port);
        let b: Vec<u8> = p.into();
        assert_eq!(NetGetNodeResponsePdu::try_parse(&b), Some((p, 7)));

        let p = NetJoinPdu::new(address, port, small, address, port);
        let b: Vec<u8> = p.into();
        assert_eq!(NetJoinPdu::try_parse(&b), Some((p, 14)));

        let p = NetJoinResponsePdu::new(address, port, small, small);
        let b: Vec<u8> = p.into();
        assert_eq!(NetJoinResponsePdu::try_parse(&b), Some((p, 9)));

        let p = NetNewRangePdu::new(small, small);
        let b: Vec<u8> = p.into();
        assert_eq!(NetNewRangePdu::try_parse(&b), Some((p, 3)));

        let p = NetLeavingPdu::new(address, port);
        let b: Vec<u8> = p.into();
        assert_eq!(NetLeavingPdu::try_parse(&b), Some((p, 7)));
    }
}

#[test]
fn a_fixed_decoder_takes_only_its_own_bytes() {
    let mut stream: Vec<u8> = NetLeavingPdu::new(7, 9).into();
    stream.extend_from_slice(&[0xAA, 0xBB, 0xCC]);
    let (pdu, consumed) = NetLeavingPdu::try_parse(&stream).unwrap();
    assert_eq!(consumed, 7);
    assert_eq!(pdu, NetLeavingPdu::new(7, 9));
}

#[test]
fn strict_prefixes_of_a_join_need_more_data() {
    let bytes: Vec<u8> = NetJoinPdu::new(1, 2, 3, 4, 5).into();
    for n in 0..bytes.len() {
        assert!(NetJoinPdu::try_parse(&bytes[..n]).is_none());
    }
}

#[test]
fn a_decoder_keeps_the_tag_it_reads() {
    let (pdu, consumed) = NetAlivePdu::try_parse(&[42]).unwrap();
    assert_eq!(consumed, 1);
    assert_eq!(pdu.pdu_type, 42);
}
