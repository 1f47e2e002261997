use dht_pdu::net_pdus::{
    NetAlivePdu, NetCloseConnectionPdu, NetGetNodePdu, NetGetNodeResponsePdu, NetJoinPdu,
    NetJoinResponsePdu, NetLeavingPdu, NetNewRangePdu, NetNewRangeResponsePdu,
};
use dht_pdu::pdu::{Catalog, CatalogEntry, CatalogError, Outcome, PduKind, PDU};
use dht_pdu::stun_pdus::{StunLookupPdu, StunResponsePdu};
use dht_pdu::val_pdus::{ValInsertPdu, ValLookupPdu, ValLookupResponsePdu, ValRemovePdu};

fn one_of_each() -> Vec<PDU> {
    let ssn = "098765432109".to_owned();
    vec![
        NetAlivePdu::new().into(),
        NetGetNodePdu::new().into(),
        NetGetNodeResponsePdu::new(u32::MAX, 0).into(),
        NetJoinPdu::new(0x01020304, 1000, 50, 0x05060708, 2000).into(),
        NetJoinResponsePdu::new(0, u16::MAX, 0, 255).into(),
        NetCloseConnectionPdu::new().into(),
        NetNewRangePdu::new(255, 0).into(),
        NetNewRangeResponsePdu::new().into(),
        NetLeavingPdu::new(1, 1).into(),
        ValInsertPdu::new(ssn.clone(), "Test".to_owned(), "Emai".to_owned()).into(),
        ValRemovePdu::new(ssn.clone()).into(),
        ValLookupPdu::new(ssn.clone(), 0xdeadbeef, 4711).into(),
        ValLookupResponsePdu::new(ssn, String::new(), "x".repeat(255)).into(),
        StunLookupPdu::new().into(),
        StunResponsePdu::new(0x7f000001).into(),
    ]
}

const ALL_KINDS: [PduKind; 15] = [
    PduKind::NetAlive,
    PduKind::NetGetNode,
    PduKind::NetGetNodeResponse,
    PduKind::NetJoin,
    PduKind::NetJoinResponse,
    PduKind::NetCloseConnection,
    PduKind::NetNewRange,
    PduKind::NetNewRangeResponse,
    PduKind::NetLeaving,
    PduKind::ValInsert,
    PduKind::ValRemove,
    PduKind::ValLookup,
    PduKind::ValLookupResponse,
    PduKind::StunLookup,
    PduKind::StunResponse,
];

const ALL_TAGS: [u8; 15] = [0, 1, 2, 3, 4, 5, 6, 8, 7, 100, 101, 102, 103, 200, 201];

fn same_message(a: &PDU, b: &PDU) -> bool {
    match (a, b) {
        (PDU::NetAlive(x), PDU::NetAlive(y)) => x == y,
        (PDU::NetGetNode(x), PDU::NetGetNode(y)) => x == y,
        (PDU::NetGetNodeResponse(x), PDU::NetGetNodeResponse(y)) => x == y,
        (PDU::NetJoin(x), PDU::NetJoin(y)) => x == y,
        (PDU::NetJoinResponse(x), PDU::NetJoinResponse(y)) => x == y,
        (PDU::NetCloseConnection(x), PDU::NetCloseConnection(y)) => x == y,
        (PDU::NetNewRange(x), PDU::NetNewRange(y)) => x == y,
        (PDU::NetNewRangeResponse(x), PDU::NetNewRangeResponse(y)) => x == y,
        (PDU::NetLeaving(x), PDU::NetLeaving(y)) => x == y,
        (PDU::ValInsert(x), PDU::ValInsert(y)) => {
            x.pdu_type == y.pdu_type
                && x.ssn == y.ssn
                && x.name_length == y.name_length
                && x.name == y.name
                && x.email_length == y.email_length
                && x.email == y.email
        }
        (PDU::ValRemove(x), PDU::ValRemove(y)) => x.pdu_type == y.pdu_type && x.ssn == y.ssn,
        (PDU::ValLookup(x), PDU::ValLookup(y)) => {
            x.pdu_type == y.pdu_type
                && x.ssn == y.ssn
                && x.sender_address == y.sender_address
                && x.sender_port == y.sender_port
        }
        (PDU::ValLookupResponse(x), PDU::ValLookupResponse(y)) => {
            x.pdu_type == y.pdu_type
                && x.ssn == y.ssn
                && x.name_length == y.name_length
                && x.name == y.name
                && x.email_length == y.email_length
                && x.email == y.email
        }
        (PDU::StunLookup(x), PDU::StunLookup(y)) => x == y,
        (PDU::StunResponse(x), PDU::StunResponse(y)) => x == y,
        _ => false,
    }
}

#[test]
fn every_variant_round_trips_through_the_dispatcher() {
    let expected = one_of_each();
    for (i, pdu) in one_of_each().into_iter().enumerate() {
        assert_eq!(pdu.kind(), ALL_KINDS[i]);
        let mut bytes = pdu.to_bytes();
        let len = bytes.len();
        assert_eq!(bytes[0], ALL_TAGS[i]);
        bytes.extend_from_slice(&[0xEE, 0xFF]);
        match PDU::try_decode(&bytes) {
            Outcome::Parsed(back, consumed) => {
                assert_eq!(consumed, len);
                assert!(same_message(&back, &expected[i]));
            }
            _ => panic!("variant {} did not decode", i),
        }
    }
}

#[test]
fn every_strict_prefix_needs_more_data() {
    for pdu in one_of_each() {
        let bytes = pdu.to_bytes();
        for n in 0..bytes.len() {
            assert!(matches!(PDU::try_decode(&bytes[..n]), Outcome::NeedMoreData));
        }
        assert!(matches!(PDU::try_decode(&bytes), Outcome::Parsed(_, _)));
    }
}

#[test]
fn variants_have_their_sizes() {
    let sizes: Vec<usize> = one_of_each().into_iter().map(|p| p.to_bytes().len()).collect();
    assert_eq!(sizes, vec![1, 1, 7, 14, 9, 1, 3, 1, 7, 23, 13, 19, 270, 1, 5]);
}

#[test]
fn an_unknown_discriminant_is_reported_with_its_byte() {
    assert!(matches!(PDU::try_decode(&[255]), Outcome::UnknownDiscriminant(255)));
    assert!(matches!(PDU::try_decode(&[255, 1, 2, 3]), Outcome::UnknownDiscriminant(255)));
    assert!(matches!(PDU::try_decode(&[9]), Outcome::UnknownDiscriminant(9)));
    assert!(matches!(PDU::try_decode(&[99]), Outcome::UnknownDiscriminant(99)));
    assert!(matches!(PDU::try_decode(&[104]), Outcome::UnknownDiscriminant(104)));
    assert!(matches!(PDU::try_decode(&[199]), Outcome::UnknownDiscriminant(199)));
    assert!(matches!(PDU::try_decode(&[202]), Outcome::UnknownDiscriminant(202)));
    assert!(matches!(PDU::try_decode(&[]), Outcome::NeedMoreData));
}

#[test]
fn the_standard_catalog_registers_each_tag_once() {
    let catalog = Catalog::standard();
    let rows = catalog.entries();
    assert_eq!(rows.len(), 15);
    for i in 0..rows.len() {
        for j in 0..i {
            assert_ne!(rows[i].discriminant, rows[j].discriminant);
        }
    }
    let mut registered = 0;
    for tag in 0..=255u8 {
        match catalog.lookup(tag) {
            Some(kind) => {
                registered += 1;
                assert_eq!(kind.discriminant(), tag);
                assert!(tag <= 8 || (100..=103).contains(&tag) || tag == 200 || tag == 201);
            }
            None => {
                assert!(!(tag <= 8 || (100..=103).contains(&tag) || tag == 200 || tag == 201));
            }
        }
    }
    assert_eq!(registered, 15);
    for (i, kind) in ALL_KINDS.iter().enumerate() {
        assert_eq!(kind.discriminant(), ALL_TAGS[i]);
        assert_eq!(catalog.lookup(ALL_TAGS[i]), Some(*kind));
    }
}

#[test]
fn a_catalog_with_an_injected_duplicate_is_refused() {
    let mut rows: Vec<CatalogEntry> = Catalog::standard().entries().clone();
    assert!(Catalog::new(rows.clone()).is_ok());
    rows.push(CatalogEntry { discriminant: 100, kind: PduKind::StunLookup });
    match Catalog::new(rows) {
        Err(CatalogError::DuplicateDiscriminant(tag)) => assert_eq!(tag, 100),
        Ok(_) => panic!("a repeated tag was accepted"),
    }
    let rows = vec![
        CatalogEntry { discriminant: 1, kind: PduKind::NetAlive },
        CatalogEntry { discriminant: 2, kind: PduKind::NetGetNode },
        CatalogEntry { discriminant: 2, kind: PduKind::NetJoin },
        CatalogEntry { discriminant: 1, kind: PduKind::NetLeaving },
    ];
    assert!(matches!(Catalog::new(rows), Err(CatalogError::DuplicateDiscriminant(2))));
    assert!(Catalog::new(Vec::new()).is_ok());
}

#[test]
fn a_custom_catalog_dispatches_by_its_own_tags() {
    let rows = vec![
        CatalogEntry { discriminant: 42, kind: PduKind::NetNewRange },
        CatalogEntry { discriminant: 0, kind: PduKind::StunResponse },
    ];
    let catalog = Catalog::new(rows).unwrap();
    match catalog.try_decode(&[42, 10, 20]) {
        Outcome::Parsed(PDU::NetNewRange(p), 3) => {
            assert_eq!(p.pdu_type, 42);
            assert_eq!(p.range_start, 10);
            assert_eq!(p.range_end, 20);
        }
        _ => panic!("tag 42 did not select the range decoder"),
    }
    assert!(matches!(catalog.try_decode(&[0, 1, 2]), Outcome::NeedMoreData));
    assert!(matches!(catalog.try_decode(&[6, 1, 2]), Outcome::UnknownDiscriminant(6)));
}

#[test]
fn variants_are_shown_by_name() {
    let names: Vec<&str> = one_of_each().iter().map(|p| p.name()).collect();
    assert_eq!(
        names,
        vec![
            "NetAlive",
            "NetGetNode",
            "NetGetNodeResponse",
            "NetJoin",
            "NetJoinResponse",
            "NetCloseConnection",
            "NetNewRange",
            "NetNewRangeResponse",
            "NetLeaving",
            "ValInsert",
            "ValRemove",
            "ValLookup",
            "ValLookupResponse",
            "StunLookup",
            "StunResponse",
        ]
    );
    assert_eq!(PduKind::NetJoin.name(), "NetJoin");
}

#[test]
fn a_kind_runs_its_own_decoder() {
    let bytes = NetJoinPdu::new(1, 2, 3, 4, 5);
    let wire: Vec<u8> = bytes.into();
    match PduKind::NetJoin.parse(&wire) {
        Some((PDU::NetJoin(p), 14)) => assert_eq!(p, NetJoinPdu::new(1, 2, 3, 4, 5)),
        _ => panic!("the join decoder did not run"),
    }
    assert!(PduKind::NetJoin.parse(&wire[..13]).is_none());
    assert!(matches!(PduKind::NetAlive.parse(&wire), Some((PDU::NetAlive(_), 1))));
}

#[test]
fn a_standard_row_carries_the_tag_of_its_variant() {
    for (i, kind) in ALL_KINDS.iter().enumerate() {
        let row = CatalogEntry::standard(*kind);
        assert_eq!(row, CatalogEntry { discriminant: ALL_TAGS[i], kind: *kind });
        assert_eq!(Catalog::standard().entries()[i], row);
    }
}
