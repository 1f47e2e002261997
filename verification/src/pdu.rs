//! The catalog of messages: the tagged union of every variant, the table
//! of discriminants, and dispatch from a raw buffer to a variant's decoder.

use crate::net_pdus::{
    NetAlivePdu, NetCloseConnectionPdu, NetGetNodePdu, NetGetNodeResponsePdu, NetJoinPdu,
    NetJoinResponsePdu, NetLeavingPdu, NetNewRangePdu, NetNewRangeResponsePdu, NET_ALIVE_ID,
    NET_ALIVE_SIZE, NET_CLOSE_CONNECTION_ID, NET_CLOSE_CONNECTION_SIZE, NET_GET_NODE_ID,
    NET_GET_NODE_RESPONSE_ID, NET_GET_NODE_RESPONSE_SIZE, NET_GET_NODE_SIZE, NET_JOIN_ID,
    NET_JOIN_RESPONSE_ID, NET_JOIN_RESPONSE_SIZE, NET_JOIN_SIZE, NET_LEAVING_ID,
    NET_LEAVING_SIZE, NET_NEW_RANGE_ID, NET_NEW_RANGE_RESPONSE_ID, NET_NEW_RANGE_RESPONSE_SIZE,
    NET_NEW_RANGE_SIZE,
};
use crate::pdu_io::ParsePdu;
use crate::schema::{
    lemma_first_byte, lemma_record_prefix_needs_more, lemma_record_reencode,
    lemma_record_round_trip, lemma_record_size, record_parse, record_wire, size_of_prefix, Record,
};
use crate::stun_pdus::{
    StunLookupPdu, StunResponsePdu, STUN_LOOKUP_ID, STUN_LOOKUP_SIZE, STUN_RESPONSE_ID,
    STUN_RESPONSE_SIZE,
};
use crate::val_pdus::{
    lemma_lookup_prefix_needs_more, lemma_lookup_reencode, lemma_lookup_round_trip,
    lemma_remove_prefix_needs_more, lemma_remove_reencode, lemma_remove_round_trip,
    lemma_val_record_consumed, lemma_val_record_prefix_needs_more, lemma_val_record_round_trip,
    lookup_bytes, parse_lookup, parse_remove, parse_val_record, remove_bytes, ssn_is_faithful,
    val_record_bytes, val_record_is_faithful, ValInsertPdu, ValLookupPdu, ValLookupResponsePdu,
    ValLookupView, ValRecordView, ValRemovePdu, ValRemoveView, SSN_LENGTH, VAL_INSERT_ID,
    VAL_LOOKUP_ID, VAL_LOOKUP_RESPONSE_ID, VAL_LOOKUP_SIZE, VAL_REMOVE_ID, VAL_REMOVE_SIZE,
};
use vstd::prelude::*;
use vstd::std_specs::convert::FromSpecImpl;

verus! {

/// One message of the protocol.
pub enum PDU {
    NetAlive(NetAlivePdu),
    NetGetNode(NetGetNodePdu),
    NetGetNodeResponse(NetGetNodeResponsePdu),
    NetJoin(NetJoinPdu),
    NetJoinResponse(NetJoinResponsePdu),
    NetCloseConnection(NetCloseConnectionPdu),
    NetNewRange(NetNewRangePdu),
    NetNewRangeResponse(NetNewRangeResponsePdu),
    NetLeaving(NetLeavingPdu),
    ValInsert(ValInsertPdu),
    ValRemove(ValRemovePdu),
    ValLookup(ValLookupPdu),
    ValLookupResponse(ValLookupResponsePdu),
    StunLookup(StunLookupPdu),
    StunResponse(StunResponsePdu),
}

/// What a message holds, with texts as sequences of characters.
pub enum PduView {
    NetAlive(NetAlivePdu),
    NetGetNode(NetGetNodePdu),
    NetGetNodeResponse(NetGetNodeResponsePdu),
    NetJoin(NetJoinPdu),
    NetJoinResponse(NetJoinResponsePdu),
    NetCloseConnection(NetCloseConnectionPdu),
    NetNewRange(NetNewRangePdu),
    NetNewRangeResponse(NetNewRangeResponsePdu),
    NetLeaving(NetLeavingPdu),
    ValInsert(ValRecordView),
    ValRemove(ValRemoveView),
    ValLookup(ValLookupView),
    ValLookupResponse(ValRecordView),
    StunLookup(StunLookupPdu),
    StunResponse(StunResponsePdu),
}

/// The variants of the protocol, without their fields.
#[derive(Clone, Copy, Debug, PartialEq, Eq, Structural)]
pub enum PduKind {
    NetAlive,
    NetGetNode,
    NetGetNodeResponse,
    NetJoin,
    NetJoinResponse,
    NetCloseConnection,
    NetNewRange,
    NetNewRangeResponse,
    NetLeaving,
    ValInsert,
    ValRemove,
    ValLookup,
    ValLookupResponse,
    StunLookup,
    StunResponse,
}

impl View for PDU {
    type V = PduView;

    open spec fn view(&self) -> PduView {
        match *self {
            PDU::NetAlive(p) => PduView::NetAlive(p@),
            PDU::NetGetNode(p) => PduView::NetGetNode(p@),
            PDU::NetGetNodeResponse(p) => PduView::NetGetNodeResponse(p@),
            PDU::NetJoin(p) => PduView::NetJoin(p@),
            PDU::NetJoinResponse(p) => PduView::NetJoinResponse(p@),
            PDU::NetCloseConnection(p) => PduView::NetCloseConnection(p@),
            PDU::NetNewRange(p) => PduView::NetNewRange(p@),
            PDU::NetNewRangeResponse(p) => PduView::NetNewRangeResponse(p@),
            PDU::NetLeaving(p) => PduView::NetLeaving(p@),
            PDU::ValInsert(p) => PduView::ValInsert(p@),
            PDU::ValRemove(p) => PduView::ValRemove(p@),
            PDU::ValLookup(p) => PduView::ValLookup(p@),
            PDU::ValLookupResponse(p) => PduView::ValLookupResponse(p@),
            PDU::StunLookup(p) => PduView::StunLookup(p@),
            PDU::StunResponse(p) => PduView::StunResponse(p@),
        }
    }
}

impl PduView {
    /// The variant of a message.
    pub open spec fn kind(self) -> PduKind {
        match self {
            PduView::NetAlive(_) => PduKind::NetAlive,
            PduView::NetGetNode(_) => PduKind::NetGetNode,
            PduView::NetGetNodeResponse(_) => PduKind::NetGetNodeResponse,
            PduView::NetJoin(_) => PduKind::NetJoin,
            PduView::NetJoinResponse(_) => PduKind::NetJoinResponse,
            PduView::NetCloseConnection(_) => PduKind::NetCloseConnection,
            PduView::NetNewRange(_) => PduKind::NetNewRange,
            PduView::NetNewRangeResponse(_) => PduKind::NetNewRangeResponse,
            PduView::NetLeaving(_) => PduKind::NetLeaving,
            PduView::ValInsert(_) => PduKind::ValInsert,
            PduView::ValRemove(_) => PduKind::ValRemove,
            PduView::ValLookup(_) => PduKind::ValLookup,
            PduView::ValLookupResponse(_) => PduKind::ValLookupResponse,
            PduView::StunLookup(_) => PduKind::StunLookup,
            PduView::StunResponse(_) => PduKind::StunResponse,
        }
    }

    /// The tag that the message carries in its own first field.
    pub open spec fn pdu_type(self) -> u8 {
        match self {
            PduView::NetAlive(p) => p.pdu_type,
            PduView::NetGetNode(p) => p.pdu_type,
            PduView::NetGetNodeResponse(p) => p.pdu_type,
            PduView::NetJoin(p) => p.pdu_type,
            PduView::NetJoinResponse(p) => p.pdu_type,
            PduView::NetCloseConnection(p) => p.pdu_type,
            PduView::NetNewRange(p) => p.pdu_type,
            PduView::NetNewRangeResponse(p) => p.pdu_type,
            PduView::NetLeaving(p) => p.pdu_type,
            PduView::ValInsert(p) => p.pdu_type,
            PduView::ValRemove(p) => p.pdu_type,
            PduView::ValLookup(p) => p.pdu_type,
            PduView::ValLookupResponse(p) => p.pdu_type,
            PduView::StunLookup(p) => p.pdu_type,
            PduView::StunResponse(p) => p.pdu_type,
        }
    }

    /// The wire form of a message: that of its variant.
    pub open spec fn wire(self) -> Seq<u8> {
        match self {
            PduView::NetAlive(p) => record_wire(p),
            PduView::NetGetNode(p) => record_wire(p),
            PduView::NetGetNodeResponse(p) => record_wire(p),
            PduView::NetJoin(p) => record_wire(p),
            PduView::NetJoinResponse(p) => record_wire(p),
            PduView::NetCloseConnection(p) => record_wire(p),
            PduView::NetNewRange(p) => record_wire(p),
            PduView::NetNewRangeResponse(p) => record_wire(p),
            PduView::NetLeaving(p) => record_wire(p),
            PduView::ValInsert(p) => val_record_bytes(p),
            PduView::ValRemove(p) => remove_bytes(p),
            PduView::ValLookup(p) => lookup_bytes(p),
            PduView::ValLookupResponse(p) => val_record_bytes(p),
            PduView::StunLookup(p) => record_wire(p),
            PduView::StunResponse(p) => record_wire(p),
        }
    }
}

impl PduKind {
    /// The tag that is registered for the variant.
    pub open spec fn spec_discriminant(self) -> u8 {
        match self {
            PduKind::NetAlive => NET_ALIVE_ID,
            PduKind::NetGetNode => NET_GET_NODE_ID,
            PduKind::NetGetNodeResponse => NET_GET_NODE_RESPONSE_ID,
            PduKind::NetJoin => NET_JOIN_ID,
            PduKind::NetJoinResponse => NET_JOIN_RESPONSE_ID,
            PduKind::NetCloseConnection => NET_CLOSE_CONNECTION_ID,
            PduKind::NetNewRange => NET_NEW_RANGE_ID,
            PduKind::NetNewRangeResponse => NET_NEW_RANGE_RESPONSE_ID,
            PduKind::NetLeaving => NET_LEAVING_ID,
            PduKind::ValInsert => VAL_INSERT_ID,
            PduKind::ValRemove => VAL_REMOVE_ID,
            PduKind::ValLookup => VAL_LOOKUP_ID,
            PduKind::ValLookupResponse => VAL_LOOKUP_RESPONSE_ID,
            PduKind::StunLookup => STUN_LOOKUP_ID,
            PduKind::StunResponse => STUN_RESPONSE_ID,
        }
    }

    /// The name under which the variant is shown.
    pub open spec fn spec_name(self) -> &'static str {
        match self {
            PduKind::NetAlive => "NetAlive",
            PduKind::NetGetNode => "NetGetNode",
            PduKind::NetGetNodeResponse => "NetGetNodeResponse",
            PduKind::NetJoin => "NetJoin",
            PduKind::NetJoinResponse => "NetJoinResponse",
            PduKind::NetCloseConnection => "NetCloseConnection",
            PduKind::NetNewRange => "NetNewRange",
            PduKind::NetNewRangeResponse => "NetNewRangeResponse",
            PduKind::NetLeaving => "NetLeaving",
            PduKind::ValInsert => "ValInsert",
            PduKind::ValRemove => "ValRemove",
            PduKind::ValLookup => "ValLookup",
            PduKind::ValLookupResponse => "ValLookupResponse",
            PduKind::StunLookup => "StunLookup",
            PduKind::StunResponse => "StunResponse",
        }
    }

    /// How a buffer reads under the variant's decoder.
    pub open spec fn spec_parse(self, bytes: Seq<u8>) -> Option<(PduView, nat)> {
        match self {
            PduKind::NetAlive => match record_parse::<NetAlivePdu>(bytes) {
                Some((p, consumed)) => Some((PduView::NetAlive(p), consumed)),
                None => None,
            },
            PduKind::NetGetNode => match record_parse::<NetGetNodePdu>(bytes) {
                Some((p, consumed)) => Some((PduView::NetGetNode(p), consumed)),
                None => None,
            },
            PduKind::NetGetNodeResponse => match record_parse::<NetGetNodeResponsePdu>(bytes) {
                Some((p, consumed)) => Some((PduView::NetGetNodeResponse(p), consumed)),
                None => None,
            },
            PduKind::NetJoin => match record_parse::<NetJoinPdu>(bytes) {
                Some((p, consumed)) => Some((PduView::NetJoin(p), consumed)),
                None => None,
            },
            PduKind::NetJoinResponse => match record_parse::<NetJoinResponsePdu>(bytes) {
                Some((p, consumed)) => Some((PduView::NetJoinResponse(p), consumed)),
                None => None,
            },
            PduKind::NetCloseConnection => match record_parse::<NetCloseConnectionPdu>(bytes) {
                Some((p, consumed)) => Some((PduView::NetCloseConnection(p), consumed)),
                None => None,
            },
            PduKind::NetNewRange => match record_parse::<NetNewRangePdu>(bytes) {
                Some((p, consumed)) => Some((PduView::NetNewRange(p), consumed)),
                None => None,
            },
            PduKind::NetNewRangeResponse => match record_parse::<NetNewRangeResponsePdu>(bytes) {
                Some((p, consumed)) => Some((PduView::NetNewRangeResponse(p), consumed)),
                None => None,
            },
            PduKind::NetLeaving => match record_parse::<NetLeavingPdu>(bytes) {
                Some((p, consumed)) => Some((PduView::NetLeaving(p), consumed)),
                None => None,
            },
            PduKind::ValInsert => match parse_val_record(bytes) {
                Some((p, consumed)) => Some((PduView::ValInsert(p), consumed)),
                None => None,
            },
            PduKind::ValRemove => match parse_remove(bytes) {
                Some((p, consumed)) => Some((PduView::ValRemove(p), consumed)),
                None => None,
            },
            PduKind::ValLookup => match parse_lookup(bytes) {
                Some((p, consumed)) => Some((PduView::ValLookup(p), consumed)),
                None => None,
            },
            PduKind::ValLookupResponse => match parse_val_record(bytes) {
                Some((p, consumed)) => Some((PduView::ValLookupResponse(p), consumed)),
                None => None,
            },
            PduKind::StunLookup => match record_parse::<StunLookupPdu>(bytes) {
                Some((p, consumed)) => Some((PduView::StunLookup(p), consumed)),
                None => None,
            },
            PduKind::StunResponse => match record_parse::<StunResponsePdu>(bytes) {
                Some((p, consumed)) => Some((PduView::StunResponse(p), consumed)),
                None => None,
            },
        }
    }

    pub fn discriminant(self) -> (tag: u8)
        ensures
            tag == self.spec_discriminant(),
    {
        match self {
            PduKind::NetAlive => NET_ALIVE_ID,
            PduKind::NetGetNode => NET_GET_NODE_ID,
            PduKind::NetGetNodeResponse => NET_GET_NODE_RESPONSE_ID,
            PduKind::NetJoin => NET_JOIN_ID,
            PduKind::NetJoinResponse => NET_JOIN_RESPONSE_ID,
            PduKind::NetCloseConnection => NET_CLOSE_CONNECTION_ID,
            PduKind::NetNewRange => NET_NEW_RANGE_ID,
            PduKind::NetNewRangeResponse => NET_NEW_RANGE_RESPONSE_ID,
            PduKind::NetLeaving => NET_LEAVING_ID,
            PduKind::ValInsert => VAL_INSERT_ID,
            PduKind::ValRemove => VAL_REMOVE_ID,
            PduKind::ValLookup => VAL_LOOKUP_ID,
            PduKind::ValLookupResponse => VAL_LOOKUP_RESPONSE_ID,
            PduKind::StunLookup => STUN_LOOKUP_ID,
            PduKind::StunResponse => STUN_RESPONSE_ID,
        }
    }

    pub fn name(self) -> (name: &'static str)
        ensures
            name == self.spec_name(),
    {
        match self {
            PduKind::NetAlive => "NetAlive",
            PduKind::NetGetNode => "NetGetNode",
            PduKind::NetGetNodeResponse => "NetGetNodeResponse",
            PduKind::NetJoin => "NetJoin",
            PduKind::NetJoinResponse => "NetJoinResponse",
            PduKind::NetCloseConnection => "NetCloseConnection",
            PduKind::NetNewRange => "NetNewRange",
            PduKind::NetNewRangeResponse => "NetNewRangeResponse",
            PduKind::NetLeaving => "NetLeaving",
            PduKind::ValInsert => "ValInsert",
            PduKind::ValRemove => "ValRemove",
            PduKind::ValLookup => "ValLookup",
            PduKind::ValLookupResponse => "ValLookupResponse",
            PduKind::StunLookup => "StunLookup",
            PduKind::StunResponse => "StunResponse",
        }
    }

    /// Runs the variant's decoder on a buffer.
    pub fn parse(self, buffer: &[u8]) -> (parsed: Option<(PDU, usize)>)
        ensures
            match parsed {
                Some((pdu, consumed)) => self.spec_parse(buffer@) == Some(
                    (pdu@, consumed as nat),
                ),
                None => self.spec_parse(buffer@) is None,
            },
    {
        match self {
            PduKind::NetAlive => match NetAlivePdu::try_parse(buffer) {
                Some((p, consumed)) => Some((PDU::NetAlive(p), consumed)),
                None => None,
            },
            PduKind::NetGetNode => match NetGetNodePdu::try_parse(buffer) {
                Some((p, consumed)) => Some((PDU::NetGetNode(p), consumed)),
                None => None,
            },
            PduKind::NetGetNodeResponse => match NetGetNodeResponsePdu::try_parse(buffer) {
                Some((p, consumed)) => Some((PDU::NetGetNodeResponse(p), consumed)),
                None => None,
            },
            PduKind::NetJoin => match NetJoinPdu::try_parse(buffer) {
                Some((p, consumed)) => Some((PDU::NetJoin(p), consumed)),
                None => None,
            },
            PduKind::NetJoinResponse => match NetJoinResponsePdu::try_parse(buffer) {
                Some((p, consumed)) => Some((PDU::NetJoinResponse(p), consumed)),
                None => None,
            },
            PduKind::NetCloseConnection => match NetCloseConnectionPdu::try_parse(buffer) {
                Some((p, consumed)) => Some((PDU::NetCloseConnection(p), consumed)),
                None => None,
            },
            PduKind::NetNewRange => match NetNewRangePdu::try_parse(buffer) {
                Some((p, consumed)) => Some((PDU::NetNewRange(p), consumed)),
                None => None,
            },
            PduKind::NetNewRangeResponse => match NetNewRangeResponsePdu::try_parse(buffer) {
                Some((p, consumed)) => Some((PDU::NetNewRangeResponse(p), consumed)),
                None => None,
            },
            PduKind::NetLeaving => match NetLeavingPdu::try_parse(buffer) {
                Some((p, consumed)) => Some((PDU::NetLeaving(p), consumed)),
                None => None,
            },
            PduKind::ValInsert => match ValInsertPdu::try_parse(buffer) {
                Some((p, consumed)) => Some((PDU::ValInsert(p), consumed)),
                None => None,
            },
            PduKind::ValRemove => match ValRemovePdu::try_parse(buffer) {
                Some((p, consumed)) => Some((PDU::ValRemove(p), consumed)),
                None => None,
            },
            PduKind::ValLookup => match ValLookupPdu::try_parse(buffer) {
                Some((p, consumed)) => Some((PDU::ValLookup(p), consumed)),
                None => None,
            },
            PduKind::ValLookupResponse => match ValLookupResponsePdu::try_parse(buffer) {
                Some((p, consumed)) => Some((PDU::ValLookupResponse(p), consumed)),
                None => None,
            },
            PduKind::StunLookup => match StunLookupPdu::try_parse(buffer) {
                Some((p, consumed)) => Some((PDU::StunLookup(p), consumed)),
                None => None,
            },
            PduKind::StunResponse => match StunResponsePdu::try_parse(buffer) {
                Some((p, consumed)) => Some((PDU::StunResponse(p), consumed)),
                None => None,
            },
        }
    }
}

impl PDU {
    pub fn to_bytes(self) -> (out: Vec<u8>)
        ensures
            out@ == self@.wire(),
    {
        match self {
            Self::NetAlive(p) => Vec::from(p),
            Self::NetGetNode(p) => Vec::from(p),
            Self::NetGetNodeResponse(p) => Vec::from(p),
            Self::NetJoin(p) => Vec::from(p),
            Self::NetJoinResponse(p) => Vec::from(p),
            Self::NetCloseConnection(p) => Vec::from(p),
            Self::NetNewRange(p) => Vec::from(p),
            Self::NetNewRangeResponse(p) => Vec::from(p),
            Self::NetLeaving(p) => Vec::from(p),
            Self::ValInsert(p) => Vec::from(p),
            Self::ValRemove(p) => Vec::from(p),
            Self::ValLookup(p) => Vec::from(p),
            Self::ValLookupResponse(p) => Vec::from(p),
            Self::StunLookup(p) => Vec::from(p),
            Self::StunResponse(p) => Vec::from(p),
        }
    }

    pub fn kind(&self) -> (kind: PduKind)
        ensures
            kind == self@.kind(),
    {
        match self {
            Self::NetAlive(_) => PduKind::NetAlive,
            Self::NetGetNode(_) => PduKind::NetGetNode,
            Self::NetGetNodeResponse(_) => PduKind::NetGetNodeResponse,
            Self::NetJoin(_) => PduKind::NetJoin,
            Self::NetJoinResponse(_) => PduKind::NetJoinResponse,
            Self::NetCloseConnection(_) => PduKind::NetCloseConnection,
            Self::NetNewRange(_) => PduKind::NetNewRange,
            Self::NetNewRangeResponse(_) => PduKind::NetNewRangeResponse,
            Self::NetLeaving(_) => PduKind::NetLeaving,
            Self::ValInsert(_) => PduKind::ValInsert,
            Self::ValRemove(_) => PduKind::ValRemove,
            Self::ValLookup(_) => PduKind::ValLookup,
            Self::ValLookupResponse(_) => PduKind::ValLookupResponse,
            Self::StunLookup(_) => PduKind::StunLookup,
            Self::StunResponse(_) => PduKind::StunResponse,
        }
    }

    /// The name of the message's variant, as it is shown when debugging.
    pub fn name(&self) -> (name: &'static str)
        ensures
            name == self@.kind().spec_name(),
    {
        self.kind().name()
    }
}

impl From<NetAlivePdu> for PDU {
    fn from(pdu: NetAlivePdu) -> (out: PDU)
        ensures
            out == PDU::NetAlive(pdu),
    {
        Self::NetAlive(pdu)
    }
}

impl FromSpecImpl<NetAlivePdu> for PDU {
    open spec fn obeys_from_spec() -> bool {
        true
    }

    open spec fn from_spec(pdu: NetAlivePdu) -> PDU {
        PDU::NetAlive(pdu)
    }
}

impl From<NetGetNodePdu> for PDU {
    fn from(pdu: NetGetNodePdu) -> (out: PDU)
        ensures
            out == PDU::NetGetNode(pdu),
    {
        Self::NetGetNode(pdu)
    }
}

impl FromSpecImpl<NetGetNodePdu> for PDU {
    open spec fn obeys_from_spec() -> bool {
        true
    }

    open spec fn from_spec(pdu: NetGetNodePdu) -> PDU {
        PDU::NetGetNode(pdu)
    }
}

impl From<NetGetNodeResponsePdu> for PDU {
    fn from(pdu: NetGetNodeResponsePdu) -> (out: PDU)
        ensures
            out == PDU::NetGetNodeResponse(pdu),
    {
        Self::NetGetNodeResponse(pdu)
    }
}

impl FromSpecImpl<NetGetNodeResponsePdu> for PDU {
    open spec fn obeys_from_spec() -> bool {
        true
    }

    open spec fn from_spec(pdu: NetGetNodeResponsePdu) -> PDU {
        PDU::NetGetNodeResponse(pdu)
    }
}

impl From<NetJoinPdu> for PDU {
    fn from(pdu: NetJoinPdu) -> (out: PDU)
        ensures
            out == PDU::NetJoin(pdu),
    {
        Self::NetJoin(pdu)
    }
}

impl FromSpecImpl<NetJoinPdu> for PDU {
    open spec fn obeys_from_spec() -> bool {
        true
    }

    open spec fn from_spec(pdu: NetJoinPdu) -> PDU {
        PDU::NetJoin(pdu)
    }
}

impl From<NetJoinResponsePdu> for PDU {
    fn from(pdu: NetJoinResponsePdu) -> (out: PDU)
        ensures
            out == PDU::NetJoinResponse(pdu),
    {
        Self::NetJoinResponse(pdu)
    }
}

impl FromSpecImpl<NetJoinResponsePdu> for PDU {
    open spec fn obeys_from_spec() -> bool {
        true
    }

    open spec fn from_spec(pdu: NetJoinResponsePdu) -> PDU {
        PDU::NetJoinResponse(pdu)
    }
}

impl From<NetCloseConnectionPdu> for PDU {
    fn from(pdu: NetCloseConnectionPdu) -> (out: PDU)
        ensures
            out == PDU::NetCloseConnection(pdu),
    {
        Self::NetCloseConnection(pdu)
    }
}

impl FromSpecImpl<NetCloseConnectionPdu> for PDU {
    open spec fn obeys_from_spec() -> bool {
        true
    }

    open spec fn from_spec(pdu: NetCloseConnectionPdu) -> PDU {
        PDU::NetCloseConnection(pdu)
    }
}

impl From<NetNewRangePdu> for PDU {
    fn from(pdu: NetNewRangePdu) -> (out: PDU)
        ensures
            out == PDU::NetNewRange(pdu),
    {
        Self::NetNewRange(pdu)
    }
}

impl FromSpecImpl<NetNewRangePdu> for PDU {
    open spec fn obeys_from_spec() -> bool {
        true
    }

    open spec fn from_spec(pdu: NetNewRangePdu) -> PDU {
        PDU::NetNewRange(pdu)
    }
}

impl From<NetNewRangeResponsePdu> for PDU {
    fn from(pdu: NetNewRangeResponsePdu) -> (out: PDU)
        ensures
            out == PDU::NetNewRangeResponse(pdu),
    {
        Self::NetNewRangeResponse(pdu)
    }
}

impl FromSpecImpl<NetNewRangeResponsePdu> for PDU {
    open spec fn obeys_from_spec() -> bool {
        true
    }

    open spec fn from_spec(pdu: NetNewRangeResponsePdu) -> PDU {
        PDU::NetNewRangeResponse(pdu)
    }
}

impl From<NetLeavingPdu> for PDU {
    fn from(pdu: NetLeavingPdu) -> (out: PDU)
        ensures
            out == PDU::NetLeaving(pdu),
    {
        Self::NetLeaving(pdu)
    }
}

impl FromSpecImpl<NetLeavingPdu> for PDU {
    open spec fn obeys_from_spec() -> bool {
        true
    }

    open spec fn from_spec(pdu: NetLeavingPdu) -> PDU {
        PDU::NetLeaving(pdu)
    }
}

impl From<ValInsertPdu> for PDU {
    fn from(pdu: ValInsertPdu) -> (out: PDU)
        ensures
            out == PDU::ValInsert(pdu),
    {
        Self::ValInsert(pdu)
    }
}

impl FromSpecImpl<ValInsertPdu> for PDU {
    open spec fn obeys_from_spec() -> bool {
        true
    }

    open spec fn from_spec(pdu: ValInsertPdu) -> PDU {
        PDU::ValInsert(pdu)
    }
}

impl From<ValRemovePdu> for PDU {
    fn from(pdu: ValRemovePdu) -> (out: PDU)
        ensures
            out == PDU::ValRemove(pdu),
    {
        Self::ValRemove(pdu)
    }
}

impl FromSpecImpl<ValRemovePdu> for PDU {
    open spec fn obeys_from_spec() -> bool {
        true
    }

    open spec fn from_spec(pdu: ValRemovePdu) -> PDU {
        PDU::ValRemove(pdu)
    }
}

impl From<ValLookupPdu> for PDU {
    fn from(pdu: ValLookupPdu) -> (out: PDU)
        ensures
            out == PDU::ValLookup(pdu),
    {
        Self::ValLookup(pdu)
    }
}

impl FromSpecImpl<ValLookupPdu> for PDU {
    open spec fn obeys_from_spec() -> bool {
        true
    }

    open spec fn from_spec(pdu: ValLookupPdu) -> PDU {
        PDU::ValLookup(pdu)
    }
}

impl From<ValLookupResponsePdu> for PDU {
    fn from(pdu: ValLookupResponsePdu) -> (out: PDU)
        ensures
            out == PDU::ValLookupResponse(pdu),
    {
        Self::ValLookupResponse(pdu)
    }
}

impl FromSpecImpl<ValLookupResponsePdu> for PDU {
    open spec fn obeys_from_spec() -> bool {
        true
    }

    open spec fn from_spec(pdu: ValLookupResponsePdu) -> PDU {
        PDU::ValLookupResponse(pdu)
    }
}

impl From<StunLookupPdu> for PDU {
    fn from(pdu: StunLookupPdu) -> (out: PDU)
        ensures
            out == PDU::StunLookup(pdu),
    {
        Self::StunLookup(pdu)
    }
}

impl FromSpecImpl<StunLookupPdu> for PDU {
    open spec fn obeys_from_spec() -> bool {
        true
    }

    open spec fn from_spec(pdu: StunLookupPdu) -> PDU {
        PDU::StunLookup(pdu)
    }
}

impl From<StunResponsePdu> for PDU {
    fn from(pdu: StunResponsePdu) -> (out: PDU)
        ensures
            out == PDU::StunResponse(pdu),
    {
        Self::StunResponse(pdu)
    }
}

impl FromSpecImpl<StunResponsePdu> for PDU {
    open spec fn obeys_from_spec() -> bool {
        true
    }

    open spec fn from_spec(pdu: StunResponsePdu) -> PDU {
        PDU::StunResponse(pdu)
    }
}

/// One row of the discriminant table: a tag and the variant it selects.
#[derive(Clone, Copy, Debug, PartialEq, Eq, Structural)]
pub struct CatalogEntry {
    pub discriminant: u8,
    pub kind: PduKind,
}

impl CatalogEntry {
    /// The row that registers a variant under its own tag.
    pub fn standard(kind: PduKind) -> (entry: CatalogEntry)
        ensures
            entry == standard_entry(kind),
    {
        CatalogEntry { discriminant: kind.discriminant(), kind }
    }
}

/// Why a table was refused.
#[derive(Clone, Copy, Debug, PartialEq, Eq, Structural)]
pub enum CatalogError {
    /// Two rows carry this tag.
    DuplicateDiscriminant(u8),
}

/// What decoding the front of a buffer gives.
pub enum Outcome {
    /// A whole message, and the number of bytes it took.
    Parsed(PDU, usize),
    /// The buffer does not hold a whole message yet.
    NeedMoreData,
    /// The first byte selects no variant.
    UnknownDiscriminant(u8),
}

pub enum OutcomeView {
    Parsed(PduView, nat),
    NeedMoreData,
    UnknownDiscriminant(u8),
}

impl View for Outcome {
    type V = OutcomeView;

    open spec fn view(&self) -> OutcomeView {
        match *self {
            Outcome::Parsed(pdu, consumed) => OutcomeView::Parsed(pdu@, consumed as nat),
            Outcome::NeedMoreData => OutcomeView::NeedMoreData,
            Outcome::UnknownDiscriminant(tag) => OutcomeView::UnknownDiscriminant(tag),
        }
    }
}

/// No two rows of the table carry the same tag.
pub open spec fn distinct_discriminants(table: Seq<CatalogEntry>) -> bool {
    forall|i: int, j: int|
        0 <= i < j < table.len() ==> table[i].discriminant != table[j].discriminant
}

/// Some row of the table carries `tag`.
pub open spec fn registers(table: Seq<CatalogEntry>, tag: u8) -> bool {
    exists|i: int| 0 <= i < table.len() && table[i].discriminant == tag
}

/// Row `j` carries a tag that an earlier row carries too.
pub open spec fn repeats_earlier(table: Seq<CatalogEntry>, j: int) -> bool {
    exists|i: int| 0 <= i < j && table[i].discriminant == table[j].discriminant
}

/// The variant that the table gives for `tag`, if it registers the tag.
pub open spec fn spec_lookup(table: Seq<CatalogEntry>, tag: u8) -> Option<PduKind> {
    if registers(table, tag) {
        let i = choose|i: int| 0 <= i < table.len() && table[i].discriminant == tag;
        Some(table[i].kind)
    } else {
        None
    }
}

/// Dispatch: an empty buffer needs more data; otherwise the first byte
/// alone selects the decoder, and the decoder's answer is passed on.
pub open spec fn spec_try_decode(table: Seq<CatalogEntry>, bytes: Seq<u8>) -> OutcomeView {
    if bytes.len() == 0 {
        OutcomeView::NeedMoreData
    } else {
        match spec_lookup(table, bytes[0]) {
            None => OutcomeView::UnknownDiscriminant(bytes[0]),
            Some(kind) => match kind.spec_parse(bytes) {
                Some((pdu, consumed)) => OutcomeView::Parsed(pdu, consumed),
                None => OutcomeView::NeedMoreData,
            },
        }
    }
}

/// The row that registers a variant under its own tag.
pub open spec fn standard_entry(kind: PduKind) -> CatalogEntry {
    CatalogEntry { discriminant: kind.spec_discriminant(), kind }
}

/// The protocol's table: every variant under its own tag.
pub open spec fn standard_table() -> Seq<CatalogEntry> {
    seq![
        standard_entry(PduKind::NetAlive),
        standard_entry(PduKind::NetGetNode),
        standard_entry(PduKind::NetGetNodeResponse),
        standard_entry(PduKind::NetJoin),
        standard_entry(PduKind::NetJoinResponse),
        standard_entry(PduKind::NetCloseConnection),
        standard_entry(PduKind::NetNewRange),
        standard_entry(PduKind::NetNewRangeResponse),
        standard_entry(PduKind::NetLeaving),
        standard_entry(PduKind::ValInsert),
        standard_entry(PduKind::ValRemove),
        standard_entry(PduKind::ValLookup),
        standard_entry(PduKind::ValLookupResponse),
        standard_entry(PduKind::StunLookup),
        standard_entry(PduKind::StunResponse),
    ]
}

/// The variant that the protocol registers for a tag.
pub open spec fn standard_kind(tag: u8) -> Option<PduKind> {
    if tag == NET_ALIVE_ID {
        Some(PduKind::NetAlive)
    } else if tag == NET_GET_NODE_ID {
        Some(PduKind::NetGetNode)
    } else if tag == NET_GET_NODE_RESPONSE_ID {
        Some(PduKind::NetGetNodeResponse)
    } else if tag == NET_JOIN_ID {
        Some(PduKind::NetJoin)
    } else if tag == NET_JOIN_RESPONSE_ID {
        Some(PduKind::NetJoinResponse)
    } else if tag == NET_CLOSE_CONNECTION_ID {
        Some(PduKind::NetCloseConnection)
    } else if tag == NET_NEW_RANGE_ID {
        Some(PduKind::NetNewRange)
    } else if tag == NET_NEW_RANGE_RESPONSE_ID {
        Some(PduKind::NetNewRangeResponse)
    } else if tag == NET_LEAVING_ID {
        Some(PduKind::NetLeaving)
    } else if tag == VAL_INSERT_ID {
        Some(PduKind::ValInsert)
    } else if tag == VAL_REMOVE_ID {
        Some(PduKind::ValRemove)
    } else if tag == VAL_LOOKUP_ID {
        Some(PduKind::ValLookup)
    } else if tag == VAL_LOOKUP_RESPONSE_ID {
        Some(PduKind::ValLookupResponse)
    } else if tag == STUN_LOOKUP_ID {
        Some(PduKind::StunLookup)
    } else if tag == STUN_RESPONSE_ID {
        Some(PduKind::StunResponse)
    } else {
        None
    }
}

/// The discriminant table, fixed when it is built and read-only afterwards.
/// A table with a repeated tag cannot be built.
pub struct Catalog {
    entries: Vec<CatalogEntry>,
}

impl View for Catalog {
    type V = Seq<CatalogEntry>;

    closed spec fn view(&self) -> Seq<CatalogEntry> {
        self.entries@
    }
}

impl Catalog {
    #[verifier::type_invariant]
    spec fn inv(&self) -> bool {
        distinct_discriminants(self.entries@)
    }

    /// The rows of the catalog; their tags are pairwise distinct.
    pub fn entries(&self) -> (rows: &Vec<CatalogEntry>)
        ensures
            rows@ == self@,
            distinct_discriminants(self@),
    {
        proof {
            use_type_invariant(self);
        }
        &self.entries
    }

    /// Builds a catalog from its rows, or names the tag of the first row
    /// that repeats an earlier one.
    pub fn new(entries: Vec<CatalogEntry>) -> (built: Result<Catalog, CatalogError>)
        ensures
            built is Ok <==> distinct_discriminants(entries@),
            match built {
                Ok(catalog) => catalog@ == entries@,
                Err(CatalogError::DuplicateDiscriminant(tag)) => exists|j: int|
                    0 <= j < entries@.len() && #[trigger] entries@[j].discriminant == tag
                        && repeats_earlier(entries@, j) && distinct_discriminants(
                        entries@.take(j),
                    ),
            },
    {
        let mut j: usize = 0;
        while j < entries.len()
            invariant
                j <= entries.len(),
                distinct_discriminants(entries@.take(j as int)),
            decreases entries.len() - j,
        {
            let tag: u8 = entries[j].discriminant;
            let mut i: usize = 0;
            while i < j
                invariant
                    i <= j < entries.len(),
                    tag == entries@[j as int].discriminant,
                    distinct_discriminants(entries@.take(j as int)),
                    forall|k: int| 0 <= k < i ==> entries@[k].discriminant != tag,
                decreases j - i,
            {
                if entries[i].discriminant == tag {
                    assert(repeats_earlier(entries@, j as int));
                    assert(!distinct_discriminants(entries@)) by {
                        assert(entries@[i as int].discriminant == entries@[j as int].discriminant);
                    }
                    return Err(CatalogError::DuplicateDiscriminant(tag));
                }
                i = i + 1;
            }
            assert(distinct_discriminants(entries@.take(j + 1))) by {
                let grown = entries@.take(j + 1);
                assert forall|a: int, b: int| 0 <= a < b < grown.len() implies grown[a].discriminant
                    != grown[b].discriminant by {
                    if b < j {
                        assert(entries@.take(j as int)[a].discriminant != entries@.take(
                            j as int,
                        )[b].discriminant);
                    }
                }
            }
            j = j + 1;
        }
        assert(entries@.take(entries@.len() as int) =~= entries@);
        Ok(Catalog { entries })
    }

    /// The protocol's own catalog.
    pub fn standard() -> (catalog: Catalog)
        ensures
            catalog@ == standard_table(),
    {
        let entries: Vec<CatalogEntry> = vec![
            CatalogEntry::standard(PduKind::NetAlive),
            CatalogEntry::standard(PduKind::NetGetNode),
            CatalogEntry::standard(PduKind::NetGetNodeResponse),
            CatalogEntry::standard(PduKind::NetJoin),
            CatalogEntry::standard(PduKind::NetJoinResponse),
            CatalogEntry::standard(PduKind::NetCloseConnection),
            CatalogEntry::standard(PduKind::NetNewRange),
            CatalogEntry::standard(PduKind::NetNewRangeResponse),
            CatalogEntry::standard(PduKind::NetLeaving),
            CatalogEntry::standard(PduKind::ValInsert),
            CatalogEntry::standard(PduKind::ValRemove),
            CatalogEntry::standard(PduKind::ValLookup),
            CatalogEntry::standard(PduKind::ValLookupResponse),
            CatalogEntry::standard(PduKind::StunLookup),
            CatalogEntry::standard(PduKind::StunResponse),
        ];
        proof {
            assert(entries@ =~= standard_table());
            lemma_standard_table_distinct();
        }
        Catalog::new(entries).unwrap()
    }

    /// The variant registered for `tag`, if any.
    pub fn lookup(&self, tag: u8) -> (found: Option<PduKind>)
        ensures
            found == spec_lookup(self@, tag),
    {
        proof {
            use_type_invariant(self);
        }
        let mut i: usize = 0;
        while i < self.entries.len()
            invariant
                i <= self.entries.len(),
                distinct_discriminants(self.entries@),
                forall|k: int| 0 <= k < i ==> self.entries@[k].discriminant != tag,
            decreases self.entries.len() - i,
        {
            if self.entries[i].discriminant == tag {
                return Some(self.entries[i].kind);
            }
            i = i + 1;
        }
        None
    }

    /// Decodes the message at the front of `buffer`.
    pub fn try_decode(&self, buffer: &[u8]) -> (outcome: Outcome)
        ensures
            outcome@ == spec_try_decode(self@, buffer@),
    {
        if buffer.len() == 0 {
            return Outcome::NeedMoreData;
        }
        let tag: u8 = buffer[0];
        match self.lookup(tag) {
            None => Outcome::UnknownDiscriminant(tag),
            Some(kind) => match kind.parse(buffer) {
                Some((pdu, consumed)) => Outcome::Parsed(pdu, consumed),
                None => Outcome::NeedMoreData,
            },
        }
    }
}

/// Discriminant uniqueness: the protocol's table registers every variant
/// once, under a tag that no other variant has.
pub proof fn lemma_standard_table_distinct()
    ensures
        distinct_discriminants(standard_table()),
        forall|kind: PduKind| registers(standard_table(), #[trigger] kind.spec_discriminant()),
{
    let table = standard_table();
    assert forall|kind: PduKind| registers(table, #[trigger] kind.spec_discriminant()) by {
        let i = kind_index(kind);
        assert(table[i].discriminant == kind.spec_discriminant());
    }
}

/// The place of a variant in the protocol's table.
pub open spec fn kind_index(kind: PduKind) -> int {
    match kind {
        PduKind::NetAlive => 0,
        PduKind::NetGetNode => 1,
        PduKind::NetGetNodeResponse => 2,
        PduKind::NetJoin => 3,
        PduKind::NetJoinResponse => 4,
        PduKind::NetCloseConnection => 5,
        PduKind::NetNewRange => 6,
        PduKind::NetNewRangeResponse => 7,
        PduKind::NetLeaving => 8,
        PduKind::ValInsert => 9,
        PduKind::ValRemove => 10,
        PduKind::ValLookup => 11,
        PduKind::ValLookupResponse => 12,
        PduKind::StunLookup => 13,
        PduKind::StunResponse => 14,
    }
}

/// A table that already registers a tag cannot take a second row for it.
pub proof fn lemma_injected_duplicate(table: Seq<CatalogEntry>, entry: CatalogEntry, at: int)
    requires
        registers(table, entry.discriminant),
        0 <= at <= table.len(),
    ensures
        !distinct_discriminants(table.insert(at, entry)),
{
    let i = choose|i: int| 0 <= i < table.len() && table[i].discriminant == entry.discriminant;
    let grown = table.insert(at, entry);
    if i < at {
        assert(grown[i].discriminant == grown[at].discriminant);
    } else {
        assert(grown[at].discriminant == grown[i + 1].discriminant);
    }
}

/// In a table with distinct tags, a row's tag selects that row's variant.
pub proof fn lemma_lookup_of_row(table: Seq<CatalogEntry>, i: int)
    requires
        distinct_discriminants(table),
        0 <= i < table.len(),
    ensures
        spec_lookup(table, table[i].discriminant) == Some(table[i].kind),
{
}

/// The protocol's table gives each of its fifteen tags its own variant, and
/// no variant to any other byte.
pub proof fn lemma_standard_lookup(tag: u8)
    ensures
        spec_lookup(standard_table(), tag) == standard_kind(tag),
{
    let table = standard_table();
    lemma_standard_table_distinct();
    match standard_kind(tag) {
        Some(kind) => {
            lemma_lookup_of_row(table, kind_index(kind));
        },
        None => {},
    }
}

/// Dispatch under the protocol's own table, stated over the tags directly.
pub open spec fn standard_decode(bytes: Seq<u8>) -> OutcomeView {
    if bytes.len() == 0 {
        OutcomeView::NeedMoreData
    } else {
        match standard_kind(bytes[0]) {
            None => OutcomeView::UnknownDiscriminant(bytes[0]),
            Some(kind) => match kind.spec_parse(bytes) {
                Some((pdu, consumed)) => OutcomeView::Parsed(pdu, consumed),
                None => OutcomeView::NeedMoreData,
            },
        }
    }
}

impl PduKind {
    /// The size that a fixed-size variant declares; `None` for the two
    /// variants whose size depends on their texts.
    pub open spec fn declared_size(self) -> Option<nat> {
        match self {
            PduKind::NetAlive => Some(NET_ALIVE_SIZE as nat),
            PduKind::NetGetNode => Some(NET_GET_NODE_SIZE as nat),
            PduKind::NetGetNodeResponse => Some(NET_GET_NODE_RESPONSE_SIZE as nat),
            PduKind::NetJoin => Some(NET_JOIN_SIZE as nat),
            PduKind::NetJoinResponse => Some(NET_JOIN_RESPONSE_SIZE as nat),
            PduKind::NetCloseConnection => Some(NET_CLOSE_CONNECTION_SIZE as nat),
            PduKind::NetNewRange => Some(NET_NEW_RANGE_SIZE as nat),
            PduKind::NetNewRangeResponse => Some(NET_NEW_RANGE_RESPONSE_SIZE as nat),
            PduKind::NetLeaving => Some(NET_LEAVING_SIZE as nat),
            PduKind::ValInsert => None,
            PduKind::ValRemove => Some(VAL_REMOVE_SIZE as nat),
            PduKind::ValLookup => Some(VAL_LOOKUP_SIZE as nat),
            PduKind::ValLookupResponse => None,
            PduKind::StunLookup => Some(STUN_LOOKUP_SIZE as nat),
            PduKind::StunResponse => Some(STUN_RESPONSE_SIZE as nat),
        }
    }
}

impl PduView {
    /// The message carries the tag that is registered for its variant, as
    /// every message made by a constructor does.
    pub open spec fn is_tagged(self) -> bool {
        self.pdu_type() == self.kind().spec_discriminant()
    }

    /// The message can be carried without loss: its identifier, if it has
    /// one, fills twelve single-byte characters, and its texts, if it has
    /// any, are single-byte and as long as their length octets say.
    pub open spec fn is_faithful(self) -> bool {
        match self {
            PduView::ValInsert(r) => val_record_is_faithful(r),
            PduView::ValLookupResponse(r) => val_record_is_faithful(r),
            PduView::ValRemove(r) => ssn_is_faithful(r.ssn),
            PduView::ValLookup(l) => ssn_is_faithful(l.ssn),
            _ => true,
        }
    }
}

impl PDU {
    /// Decodes the message at the front of `buffer` under the protocol's
    /// own table.
    pub fn try_decode(buffer: &[u8]) -> (outcome: Outcome)
        ensures
            outcome@ == standard_decode(buffer@),
    {
        proof {
            if buffer@.len() > 0 {
                lemma_standard_lookup(buffer@[0]);
            }
        }
        Catalog::standard().try_decode(buffer)
    }
}

/// Unknown discriminants: the registered tags are 0 to 8, 100 to 103, 200
/// and 201; a buffer that starts with any other byte is refused with that
/// byte, whatever follows.
pub proof fn lemma_unknown_discriminant(bytes: Seq<u8>)
    requires
        bytes.len() > 0,
    ensures
        standard_kind(bytes[0]) is None <==> !(bytes[0] <= 8 || 100 <= bytes[0] <= 103
            || bytes[0] == 200 || bytes[0] == 201),
        standard_kind(bytes[0]) is None ==> standard_decode(bytes)
            == OutcomeView::UnknownDiscriminant(bytes[0]),
{
}

/// Every message starts with the tag that it carries.
pub proof fn lemma_wire_starts_with_tag(v: PduView)
    ensures
        v.wire().len() >= 1,
        v.wire()[0] == v.pdu_type(),
{
    match v {
        PduView::NetAlive(p) => {
            lemma_first_byte(p.spec_fields());
        },
        PduView::NetGetNode(p) => {
            lemma_first_byte(p.spec_fields());
        },
        PduView::NetGetNodeResponse(p) => {
            lemma_first_byte(p.spec_fields());
        },
        PduView::NetJoin(p) => {
            lemma_first_byte(p.spec_fields());
        },
        PduView::NetJoinResponse(p) => {
            lemma_first_byte(p.spec_fields());
        },
        PduView::NetCloseConnection(p) => {
            lemma_first_byte(p.spec_fields());
        },
        PduView::NetNewRange(p) => {
            lemma_first_byte(p.spec_fields());
        },
        PduView::NetNewRangeResponse(p) => {
            lemma_first_byte(p.spec_fields());
        },
        PduView::NetLeaving(p) => {
            lemma_first_byte(p.spec_fields());
        },
        PduView::ValInsert(p) => {},
        PduView::ValRemove(p) => {},
        PduView::ValLookup(p) => {},
        PduView::ValLookupResponse(p) => {},
        PduView::StunLookup(p) => {
            lemma_first_byte(p.spec_fields());
        },
        PduView::StunResponse(p) => {
            lemma_first_byte(p.spec_fields());
        },
    }
}

/// Size agreement: a message of a fixed-size variant is as long as the
/// variant declares, given an identifier of at least twelve characters
/// where it has one.
pub proof fn lemma_declared_size(v: PduView)
    requires
        v matches PduView::ValRemove(r) ==> r.ssn.len() >= SSN_LENGTH,
        v matches PduView::ValLookup(l) ==> l.ssn.len() >= SSN_LENGTH,
    ensures
        v.kind().declared_size() matches Some(size) ==> v.wire().len() == size,
{
    reveal_with_fuel(size_of_prefix, 7);
    match v {
        PduView::NetAlive(p) => {
            lemma_record_size(p);
        },
        PduView::NetGetNode(p) => {
            lemma_record_size(p);
        },
        PduView::NetGetNodeResponse(p) => {
            lemma_record_size(p);
        },
        PduView::NetJoin(p) => {
            lemma_record_size(p);
        },
        PduView::NetJoinResponse(p) => {
            lemma_record_size(p);
        },
        PduView::NetCloseConnection(p) => {
            lemma_record_size(p);
        },
        PduView::NetNewRange(p) => {
            lemma_record_size(p);
        },
        PduView::NetNewRangeResponse(p) => {
            lemma_record_size(p);
        },
        PduView::NetLeaving(p) => {
            lemma_record_size(p);
        },
        PduView::ValInsert(p) => {},
        PduView::ValRemove(p) => {},
        PduView::ValLookup(p) => {},
        PduView::ValLookupResponse(p) => {},
        PduView::StunLookup(p) => {
            lemma_record_size(p);
        },
        PduView::StunResponse(p) => {
            lemma_record_size(p);
        },
    }
}

/// Round trip under a variant's own decoder: a faithful message, followed
/// by anything, reads back as itself and takes exactly its own bytes.
pub proof fn lemma_kind_round_trip(v: PduView, rest: Seq<u8>)
    requires
        v.is_faithful(),
    ensures
        v.kind().spec_parse(v.wire() + rest) == Some((v, v.wire().len())),
{
    match v {
        PduView::NetAlive(p) => {
            lemma_record_round_trip(p, rest);
        },
        PduView::NetGetNode(p) => {
            lemma_record_round_trip(p, rest);
        },
        PduView::NetGetNodeResponse(p) => {
            lemma_record_round_trip(p, rest);
        },
        PduView::NetJoin(p) => {
            lemma_record_round_trip(p, rest);
        },
        PduView::NetJoinResponse(p) => {
            lemma_record_round_trip(p, rest);
        },
        PduView::NetCloseConnection(p) => {
            lemma_record_round_trip(p, rest);
        },
        PduView::NetNewRange(p) => {
            lemma_record_round_trip(p, rest);
        },
        PduView::NetNewRangeResponse(p) => {
            lemma_record_round_trip(p, rest);
        },
        PduView::NetLeaving(p) => {
            lemma_record_round_trip(p, rest);
        },
        PduView::ValInsert(p) => {
            lemma_val_record_round_trip(p, rest);
        },
        PduView::ValRemove(p) => {
            lemma_remove_round_trip(p, rest);
        },
        PduView::ValLookup(p) => {
            lemma_lookup_round_trip(p, rest);
        },
        PduView::ValLookupResponse(p) => {
            lemma_val_record_round_trip(p, rest);
        },
        PduView::StunLookup(p) => {
            lemma_record_round_trip(p, rest);
        },
        PduView::StunResponse(p) => {
            lemma_record_round_trip(p, rest);
        },
    }
}

/// Round trip through the dispatcher: a faithful message that carries its
/// variant's tag, encoded and followed by anything, decodes to itself and
/// to the length of its encoding.
pub proof fn lemma_pdu_round_trip(v: PduView, rest: Seq<u8>)
    requires
        v.is_tagged(),
        v.is_faithful(),
    ensures
        standard_decode(v.wire() + rest) == OutcomeView::Parsed(v, v.wire().len()),
{
    lemma_wire_starts_with_tag(v);
    lemma_kind_round_trip(v, rest);
    assert((v.wire() + rest)[0] == v.wire()[0]);
}

/// Insufficient data: every strict prefix of the encoding of a faithful,
/// tagged message, the empty one included, asks for more data.
pub proof fn lemma_pdu_prefix_needs_more(v: PduView, n: int)
    requires
        v.is_tagged(),
        v.is_faithful(),
        0 <= n < v.wire().len(),
    ensures
        standard_decode(v.wire().take(n)) == OutcomeView::NeedMoreData,
{
    lemma_wire_starts_with_tag(v);
    if n > 0 {
        assert(v.wire().take(n)[0] == v.wire()[0]);
        match v {
            PduView::NetAlive(p) => {
                lemma_record_size(p);
                lemma_record_prefix_needs_more(p, n);
            },
            PduView::NetGetNode(p) => {
                lemma_record_size(p);
                lemma_record_prefix_needs_more(p, n);
            },
            PduView::NetGetNodeResponse(p) => {
                lemma_record_size(p);
                lemma_record_prefix_needs_more(p, n);
            },
            PduView::NetJoin(p) => {
                lemma_record_size(p);
                lemma_record_prefix_needs_more(p, n);
            },
            PduView::NetJoinResponse(p) => {
                lemma_record_size(p);
                lemma_record_prefix_needs_more(p, n);
            },
            PduView::NetCloseConnection(p) => {
                lemma_record_size(p);
                lemma_record_prefix_needs_more(p, n);
            },
            PduView::NetNewRange(p) => {
                lemma_record_size(p);
                lemma_record_prefix_needs_more(p, n);
            },
            PduView::NetNewRangeResponse(p) => {
                lemma_record_size(p);
                lemma_record_prefix_needs_more(p, n);
            },
            PduView::NetLeaving(p) => {
                lemma_record_size(p);
                lemma_record_prefix_needs_more(p, n);
            },
            PduView::ValInsert(p) => {
                lemma_val_record_prefix_needs_more(p, n);
            },
            PduView::ValRemove(p) => {
                lemma_remove_prefix_needs_more(p, n);
            },
            PduView::ValLookup(p) => {
                lemma_lookup_prefix_needs_more(p, n);
            },
            PduView::ValLookupResponse(p) => {
                lemma_val_record_prefix_needs_more(p, n);
            },
            PduView::StunLookup(p) => {
                lemma_record_size(p);
                lemma_record_prefix_needs_more(p, n);
            },
            PduView::StunResponse(p) => {
                lemma_record_size(p);
                lemma_record_prefix_needs_more(p, n);
            },
        }
    }
}

/// Re-encoding: a message that a variant's decoder reads from a buffer is
/// written as exactly the bytes that it took, so that nothing is lost or
/// added on the way through.
pub proof fn lemma_kind_reencode(kind: PduKind, bytes: Seq<u8>)
    requires
        kind.spec_parse(bytes) is Some,
    ensures
        ({
            let (v, consumed) = kind.spec_parse(bytes)->0;
            &&& v.kind() == kind
            &&& consumed <= bytes.len()
            &&& v.wire() == bytes.take(consumed as int)
        }),
{
    match kind {
        PduKind::NetAlive => {
            lemma_record_reencode::<NetAlivePdu>(bytes);
        },
        PduKind::NetGetNode => {
            lemma_record_reencode::<NetGetNodePdu>(bytes);
        },
        PduKind::NetGetNodeResponse => {
            lemma_record_reencode::<NetGetNodeResponsePdu>(bytes);
        },
        PduKind::NetJoin => {
            lemma_record_reencode::<NetJoinPdu>(bytes);
        },
        PduKind::NetJoinResponse => {
            lemma_record_reencode::<NetJoinResponsePdu>(bytes);
        },
        PduKind::NetCloseConnection => {
            lemma_record_reencode::<NetCloseConnectionPdu>(bytes);
        },
        PduKind::NetNewRange => {
            lemma_record_reencode::<NetNewRangePdu>(bytes);
        },
        PduKind::NetNewRangeResponse => {
            lemma_record_reencode::<NetNewRangeResponsePdu>(bytes);
        },
        PduKind::NetLeaving => {
            lemma_record_reencode::<NetLeavingPdu>(bytes);
        },
        PduKind::ValInsert => {
            lemma_val_record_consumed(bytes);
        },
        PduKind::ValRemove => {
            lemma_remove_reencode(bytes);
        },
        PduKind::ValLookup => {
            lemma_lookup_reencode(bytes);
        },
        PduKind::ValLookupResponse => {
            lemma_val_record_consumed(bytes);
        },
        PduKind::StunLookup => {
            lemma_record_reencode::<StunLookupPdu>(bytes);
        },
        PduKind::StunResponse => {
            lemma_record_reencode::<StunResponsePdu>(bytes);
        },
    }
}

} // verus!
