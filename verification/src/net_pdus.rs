//! The ring-membership messages, all of fixed width.

use crate::pdu_io::ParsePdu;
use crate::schema::{
    decode_record, encode_record, kinds_of, record_parse, record_wire, size_of_prefix, Field,
    FieldKind, Record,
};
use vstd::prelude::*;
use vstd::std_specs::convert::FromSpecImpl;

verus! {

pub const NET_ALIVE_ID: u8 = 0;

pub const NET_GET_NODE_ID: u8 = 1;

pub const NET_GET_NODE_RESPONSE_ID: u8 = 2;

pub const NET_JOIN_ID: u8 = 3;

pub const NET_JOIN_RESPONSE_ID: u8 = 4;

pub const NET_CLOSE_CONNECTION_ID: u8 = 5;

pub const NET_NEW_RANGE_ID: u8 = 6;

pub const NET_LEAVING_ID: u8 = 7;

pub const NET_NEW_RANGE_RESPONSE_ID: u8 = 8;

pub const NET_ALIVE_SIZE: usize = 1;

pub const NET_GET_NODE_SIZE: usize = 1;

pub const NET_GET_NODE_RESPONSE_SIZE: usize = 1 + 4 + 2;

pub const NET_JOIN_SIZE: usize = 1 + 4 + 2 + 1 + 4 + 2;

pub const NET_JOIN_RESPONSE_SIZE: usize = 1 + 4 + 2 + 1 + 1;

pub const NET_CLOSE_CONNECTION_SIZE: usize = 1;

pub const NET_NEW_RANGE_SIZE: usize = 1 + 1 + 1;

pub const NET_LEAVING_SIZE: usize = 1 + 4 + 2;

pub const NET_NEW_RANGE_RESPONSE_SIZE: usize = 1;

/// The answer to a bootstrap request: the address of one ring member.
#[derive(Clone, Copy, Debug, PartialEq, Eq, Structural)]
pub struct NetGetNodeResponsePdu {
    pub pdu_type: u8,
    pub address: u32,
    pub port: u16,
}

impl View for NetGetNodeResponsePdu {
    type V = NetGetNodeResponsePdu;

    open spec fn view(&self) -> NetGetNodeResponsePdu {
        *self
    }
}

impl NetGetNodeResponsePdu {
    pub fn new(address: u32, port: u16) -> (pdu: Self)
        ensures
            pdu == (NetGetNodeResponsePdu { pdu_type: NET_GET_NODE_RESPONSE_ID, address, port }),
    {
        NetGetNodeResponsePdu { pdu_type: NET_GET_NODE_RESPONSE_ID, address, port }
    }
}

impl Record for NetGetNodeResponsePdu {
    open spec fn spec_schema() -> Seq<FieldKind> {
        seq![FieldKind::U8, FieldKind::U32, FieldKind::U16]
    }

    open spec fn spec_fields(self) -> Seq<Field> {
        seq![
            Field::U8(self.pdu_type),
            Field::U32(self.address),
            Field::U16(self.port),
        ]
    }

    open spec fn spec_from_fields(fields: Seq<Field>) -> Self {
        NetGetNodeResponsePdu {
            pdu_type: fields[0].spec_u8(),
            address: fields[1].spec_u32(),
            port: fields[2].spec_u16(),
        }
    }

    fn schema() -> (schema: Vec<FieldKind>) {
        vec![FieldKind::U8, FieldKind::U32, FieldKind::U16]
    }

    fn fields(&self) -> (fields: Vec<Field>) {
        vec![
            Field::U8(self.pdu_type),
            Field::U32(self.address),
            Field::U16(self.port),
        ]
    }

    fn from_fields(fields: &[Field]) -> (record: Self) {
        proof {
            let kinds = kinds_of(fields@);
            assert(kinds.len() == 3);
            assert(kinds[0] == FieldKind::U8);
            assert(kinds[1] == FieldKind::U32);
            assert(kinds[2] == FieldKind::U16);
        }
        NetGetNodeResponsePdu {
            pdu_type: fields[0].as_u8(),
            address: fields[1].as_u32(),
            port: fields[2].as_u16(),
        }
    }

    fn declared_size() -> (size: usize) {
        proof {
            reveal_with_fuel(size_of_prefix, 4);
        }
        NET_GET_NODE_RESPONSE_SIZE
    }

    proof fn lemma_fields_of_record(self) {
        assert(kinds_of(self.spec_fields()) =~= Self::spec_schema());
    }

    proof fn lemma_record_of_fields(fields: Seq<Field>) {
        let kinds = kinds_of(fields);
        assert(kinds.len() == 3);
        assert(kinds[0] == FieldKind::U8);
        assert(kinds[1] == FieldKind::U32);
        assert(kinds[2] == FieldKind::U16);
        assert(Self::spec_from_fields(fields).spec_fields() =~= fields);
    }
}

impl From<NetGetNodeResponsePdu> for Vec<u8> {
    fn from(p: NetGetNodeResponsePdu) -> (out: Vec<u8>)
        ensures
            out@ == record_wire(p),
    {
        encode_record(&p)
    }
}

impl FromSpecImpl<NetGetNodeResponsePdu> for Vec<u8> {
    open spec fn obeys_from_spec() -> bool {
        false
    }

    open spec fn from_spec(p: NetGetNodeResponsePdu) -> Vec<u8> {
        arbitrary()
    }
}

impl ParsePdu for NetGetNodeResponsePdu {
    open spec fn spec_parse(bytes: Seq<u8>) -> Option<(NetGetNodeResponsePdu, nat)> {
        record_parse::<NetGetNodeResponsePdu>(bytes)
    }

    fn try_parse(buffer: &[u8]) -> (parsed: Option<(Self, usize)>) {
        decode_record::<NetGetNodeResponsePdu>(buffer)
    }
}

/// A keepalive; it carries nothing.
#[derive(Clone, Copy, Debug, PartialEq, Eq, Structural)]
pub struct NetAlivePdu {
    pub pdu_type: u8,
}

impl View for NetAlivePdu {
    type V = NetAlivePdu;

    open spec fn view(&self) -> NetAlivePdu {
        *self
    }
}

impl NetAlivePdu {
    pub fn new() -> (pdu: Self)
        ensures
            pdu == (NetAlivePdu { pdu_type: NET_ALIVE_ID }),
    {
        NetAlivePdu { pdu_type: NET_ALIVE_ID }
    }
}

impl Record for NetAlivePdu {
    open spec fn spec_schema() -> Seq<FieldKind> {
        seq![FieldKind::U8]
    }

    open spec fn spec_fields(self) -> Seq<Field> {
        seq![
            Field::U8(self.pdu_type),
        ]
    }

    open spec fn spec_from_fields(fields: Seq<Field>) -> Self {
        NetAlivePdu {
            pdu_type: fields[0].spec_u8(),
        }
    }

    fn schema() -> (schema: Vec<FieldKind>) {
        vec![FieldKind::U8]
    }

    fn fields(&self) -> (fields: Vec<Field>) {
        vec![
            Field::U8(self.pdu_type),
        ]
    }

    fn from_fields(fields: &[Field]) -> (record: Self) {
        proof {
            let kinds = kinds_of(fields@);
            assert(kinds.len() == 1);
            assert(kinds[0] == FieldKind::U8);
        }
        NetAlivePdu {
            pdu_type: fields[0].as_u8(),
        }
    }

    fn declared_size() -> (size: usize) {
        proof {
            reveal_with_fuel(size_of_prefix, 2);
        }
        NET_ALIVE_SIZE
    }

    proof fn lemma_fields_of_record(self) {
        assert(kinds_of(self.spec_fields()) =~= Self::spec_schema());
    }

    proof fn lemma_record_of_fields(fields: Seq<Field>) {
        let kinds = kinds_of(fields);
        assert(kinds.len() == 1);
        assert(kinds[0] == FieldKind::U8);
        assert(Self::spec_from_fields(fields).spec_fields() =~= fields);
    }
}

impl From<NetAlivePdu> for Vec<u8> {
    fn from(p: NetAlivePdu) -> (out: Vec<u8>)
        ensures
            out@ == record_wire(p),
    {
        encode_record(&p)
    }
}

impl FromSpecImpl<NetAlivePdu> for Vec<u8> {
    open spec fn obeys_from_spec() -> bool {
        false
    }

    open spec fn from_spec(p: NetAlivePdu) -> Vec<u8> {
        arbitrary()
    }
}

impl ParsePdu for NetAlivePdu {
    open spec fn spec_parse(bytes: Seq<u8>) -> Option<(NetAlivePdu, nat)> {
        record_parse::<NetAlivePdu>(bytes)
    }

    fn try_parse(buffer: &[u8]) -> (parsed: Option<(Self, usize)>) {
        decode_record::<NetAlivePdu>(buffer)
    }
}

/// A bootstrap request for the address of any ring member.
#[derive(Clone, Copy, Debug, PartialEq, Eq, Structural)]
pub struct NetGetNodePdu {
    pub pdu_type: u8,
}

impl View for NetGetNodePdu {
    type V = NetGetNodePdu;

    open spec fn view(&self) -> NetGetNodePdu {
        *self
    }
}

impl NetGetNodePdu {
    pub fn new() -> (pdu: Self)
        ensures
            pdu == (NetGetNodePdu { pdu_type: NET_GET_NODE_ID }),
    {
        NetGetNodePdu { pdu_type: NET_GET_NODE_ID }
    }
}

impl Record for NetGetNodePdu {
    open spec fn spec_schema() -> Seq<FieldKind> {
        seq![FieldKind::U8]
    }

    open spec fn spec_fields(self) -> Seq<Field> {
        seq![
            Field::U8(self.pdu_type),
        ]
    }

    open spec fn spec_from_fields(fields: Seq<Field>) -> Self {
        NetGetNodePdu {
            pdu_type: fields[0].spec_u8(),
        }
    }

    fn schema() -> (schema: Vec<FieldKind>) {
        vec![FieldKind::U8]
    }

    fn fields(&self) -> (fields: Vec<Field>) {
        vec![
            Field::U8(self.pdu_type),
        ]
    }

    fn from_fields(fields: &[Field]) -> (record: Self) {
        proof {
            let kinds = kinds_of(fields@);
            assert(kinds.len() == 1);
            assert(kinds[0] == FieldKind::U8);
        }
        NetGetNodePdu {
            pdu_type: fields[0].as_u8(),
        }
    }

    fn declared_size() -> (size: usize) {
        proof {
            reveal_with_fuel(size_of_prefix, 2);
        }
        NET_GET_NODE_SIZE
    }

    proof fn lemma_fields_of_record(self) {
        assert(kinds_of(self.spec_fields()) =~= Self::spec_schema());
    }

    proof fn lemma_record_of_fields(fields: Seq<Field>) {
        let kinds = kinds_of(fields);
        assert(kinds.len() == 1);
        assert(kinds[0] == FieldKind::U8);
        assert(Self::spec_from_fields(fields).spec_fields() =~= fields);
    }
}

impl From<NetGetNodePdu> for Vec<u8> {
    fn from(p: NetGetNodePdu) -> (out: Vec<u8>)
        ensures
            out@ == record_wire(p),
    {
        encode_record(&p)
    }
}

impl FromSpecImpl<NetGetNodePdu> for Vec<u8> {
    open spec fn obeys_from_spec() -> bool {
        false
    }

    open spec fn from_spec(p: NetGetNodePdu) -> Vec<u8> {
        arbitrary()
    }
}

impl ParsePdu for NetGetNodePdu {
    open spec fn spec_parse(bytes: Seq<u8>) -> Option<(NetGetNodePdu, nat)> {
        record_parse::<NetGetNodePdu>(bytes)
    }

    fn try_parse(buffer: &[u8]) -> (parsed: Option<(Self, usize)>) {
        decode_record::<NetGetNodePdu>(buffer)
    }
}

/// An explicit teardown; it carries nothing.
#[derive(Clone, Copy, Debug, PartialEq, Eq, Structural)]
pub struct NetCloseConnectionPdu {
    pub pdu_type: u8,
}

impl View for NetCloseConnectionPdu {
    type V = NetCloseConnectionPdu;

    open spec fn view(&self) -> NetCloseConnectionPdu {
        *self
    }
}

impl NetCloseConnectionPdu {
    pub fn new() -> (pdu: Self)
        ensures
            pdu == (NetCloseConnectionPdu { pdu_type: NET_CLOSE_CONNECTION_ID }),
    {
        NetCloseConnectionPdu { pdu_type: NET_CLOSE_CONNECTION_ID }
    }
}

impl Record for NetCloseConnectionPdu {
    open spec fn spec_schema() -> Seq<FieldKind> {
        seq![FieldKind::U8]
    }

    open spec fn spec_fields(self) -> Seq<Field> {
        seq![
            Field::U8(self.pdu_type),
        ]
    }

    open spec fn spec_from_fields(fields: Seq<Field>) -> Self {
        NetCloseConnectionPdu {
            pdu_type: fields[0].spec_u8(),
        }
    }

    fn schema() -> (schema: Vec<FieldKind>) {
        vec![FieldKind::U8]
    }

    fn fields(&self) -> (fields: Vec<Field>) {
        vec![
            Field::U8(self.pdu_type),
        ]
    }

    fn from_fields(fields: &[Field]) -> (record: Self) {
        proof {
            let kinds = kinds_of(fields@);
            assert(kinds.len() == 1);
            assert(kinds[0] == FieldKind::U8);
        }
        NetCloseConnectionPdu {
            pdu_type: fields[0].as_u8(),
        }
    }

    fn declared_size() -> (size: usize) {
        proof {
            reveal_with_fuel(size_of_prefix, 2);
        }
        NET_CLOSE_CONNECTION_SIZE
    }

    proof fn lemma_fields_of_record(self) {
        assert(kinds_of(self.spec_fields()) =~= Self::spec_schema());
    }

    proof fn lemma_record_of_fields(fields: Seq<Field>) {
        let kinds = kinds_of(fields);
        assert(kinds.len() == 1);
        assert(kinds[0] == FieldKind::U8);
        assert(Self::spec_from_fields(fields).spec_fields() =~= fields);
    }
}

impl From<NetCloseConnectionPdu> for Vec<u8> {
    fn from(p: NetCloseConnectionPdu) -> (out: Vec<u8>)
        ensures
            out@ == record_wire(p),
    {
        encode_record(&p)
    }
}

impl FromSpecImpl<NetCloseConnectionPdu> for Vec<u8> {
    open spec fn obeys_from_spec() -> bool {
        false
    }

    open spec fn from_spec(p: NetCloseConnectionPdu) -> Vec<u8> {
        arbitrary()
    }
}

impl ParsePdu for NetCloseConnectionPdu {
    open spec fn spec_parse(bytes: Seq<u8>) -> Option<(NetCloseConnectionPdu, nat)> {
        record_parse::<NetCloseConnectionPdu>(bytes)
    }

    fn try_parse(buffer: &[u8]) -> (parsed: Option<(Self, usize)>) {
        decode_record::<NetCloseConnectionPdu>(buffer)
    }
}

/// A join request: the joiner's address, the largest span the sender knows
/// of, and the address of the node that holds it.
#[derive(Clone, Copy, Debug, PartialEq, Eq, Structural)]
pub struct NetJoinPdu {
    pub pdu_type: u8,
    pub src_address: u32,
    pub src_port: u16,
    pub max_span: u8,
    pub max_address: u32,
    pub max_port: u16,
}

impl View for NetJoinPdu {
    type V = NetJoinPdu;

    open spec fn view(&self) -> NetJoinPdu {
        *self
    }
}

impl NetJoinPdu {
    pub fn new(
        src_address: u32,
        src_port: u16,
        max_span: u8,
        max_address: u32,
        max_port: u16,
    ) -> (pdu: Self)
        ensures
            pdu == (NetJoinPdu {
                pdu_type: NET_JOIN_ID,
                src_address,
                src_port,
                max_span,
                max_address,
                max_port,
            }),
    {
        NetJoinPdu { pdu_type: NET_JOIN_ID, src_address, src_port, max_span, max_address, max_port }
    }
}

impl Record for NetJoinPdu {
    open spec fn spec_schema() -> Seq<FieldKind> {
        seq![
            FieldKind::U8,
            FieldKind::U32,
            FieldKind::U16,
            FieldKind::U8,
            FieldKind::U32,
            FieldKind::U16,
        ]
    }

    open spec fn spec_fields(self) -> Seq<Field> {
        seq![
            Field::U8(self.pdu_type),
            Field::U32(self.src_address),
            Field::U16(self.src_port),
            Field::U8(self.max_span),
            Field::U32(self.max_address),
            Field::U16(self.max_port),
        ]
    }

    open spec fn spec_from_fields(fields: Seq<Field>) -> Self {
        NetJoinPdu {
            pdu_type: fields[0].spec_u8(),
            src_address: fields[1].spec_u32(),
            src_port: fields[2].spec_u16(),
            max_span: fields[3].spec_u8(),
            max_address: fields[4].spec_u32(),
            max_port: fields[5].spec_u16(),
        }
    }

    fn schema() -> (schema: Vec<FieldKind>) {
        vec![
            FieldKind::U8,
            FieldKind::U32,
            FieldKind::U16,
            FieldKind::U8,
            FieldKind::U32,
            FieldKind::U16,
        ]
    }

    fn fields(&self) -> (fields: Vec<Field>) {
        vec![
            Field::U8(self.pdu_type),
            Field::U32(self.src_address),
            Field::U16(self.src_port),
            Field::U8(self.max_span),
            Field::U32(self.max_address),
            Field::U16(self.max_port),
        ]
    }

    fn from_fields(fields: &[Field]) -> (record: Self) {
        proof {
            let kinds = kinds_of(fields@);
            assert(kinds.len() == 6);
            assert(kinds[0] == FieldKind::U8);
            assert(kinds[1] == FieldKind::U32);
            assert(kinds[2] == FieldKind::U16);
            assert(kinds[3] == FieldKind::U8);
            assert(kinds[4] == FieldKind::U32);
            assert(kinds[5] == FieldKind::U16);
        }
        NetJoinPdu {
            pdu_type: fields[0].as_u8(),
            src_address: fields[1].as_u32(),
            src_port: fields[2].as_u16(),
            max_span: fields[3].as_u8(),
            max_address: fields[4].as_u32(),
            max_port: fields[5].as_u16(),
        }
    }

    fn declared_size() -> (size: usize) {
        proof {
            reveal_with_fuel(size_of_prefix, 7);
        }
        NET_JOIN_SIZE
    }

    proof fn lemma_fields_of_record(self) {
        assert(kinds_of(self.spec_fields()) =~= Self::spec_schema());
    }

    proof fn lemma_record_of_fields(fields: Seq<Field>) {
        let kinds = kinds_of(fields);
        assert(kinds.len() == 6);
        assert(kinds[0] == FieldKind::U8);
        assert(kinds[1] == FieldKind::U32);
        assert(kinds[2] == FieldKind::U16);
        assert(kinds[3] == FieldKind::U8);
        assert(kinds[4] == FieldKind::U32);
        assert(kinds[5] == FieldKind::U16);
        assert(Self::spec_from_fields(fields).spec_fields() =~= fields);
    }
}

impl From<NetJoinPdu> for Vec<u8> {
    fn from(p: NetJoinPdu) -> (out: Vec<u8>)
        ensures
            out@ == record_wire(p),
    {
        encode_record(&p)
    }
}

impl FromSpecImpl<NetJoinPdu> for Vec<u8> {
    open spec fn obeys_from_spec() -> bool {
        false
    }

    open spec fn from_spec(p: NetJoinPdu) -> Vec<u8> {
        arbitrary()
    }
}

impl ParsePdu for NetJoinPdu {
    open spec fn spec_parse(bytes: Seq<u8>) -> Option<(NetJoinPdu, nat)> {
        record_parse::<NetJoinPdu>(bytes)
    }

    fn try_parse(buffer: &[u8]) -> (parsed: Option<(Self, usize)>) {
        decode_record::<NetJoinPdu>(buffer)
    }
}

/// The answer to a join: the joiner's successor and its inclusive key range.
#[derive(Clone, Copy, Debug, PartialEq, Eq, Structural)]
pub struct NetJoinResponsePdu {
    pub pdu_type: u8,
    pub next_address: u32,
    pub next_port: u16,
    pub range_start: u8,
    pub range_end: u8,
}

impl View for NetJoinResponsePdu {
    type V = NetJoinResponsePdu;

    open spec fn view(&self) -> NetJoinResponsePdu {
        *self
    }
}

impl NetJoinResponsePdu {
    pub fn new(next_address: u32, next_port: u16, range_start: u8, range_end: u8) -> (pdu: Self)
        ensures
            pdu == (NetJoinResponsePdu {
                pdu_type: NET_JOIN_RESPONSE_ID,
                next_address,
                next_port,
                range_start,
                range_end,
            }),
    {
        NetJoinResponsePdu {
            pdu_type: NET_JOIN_RESPONSE_ID,
            next_address,
            next_port,
            range_start,
            range_end,
        }
    }
}

impl Record for NetJoinResponsePdu {
    open spec fn spec_schema() -> Seq<FieldKind> {
        seq![FieldKind::U8, FieldKind::U32, FieldKind::U16, FieldKind::U8, FieldKind::U8]
    }

    open spec fn spec_fields(self) -> Seq<Field> {
        seq![
            Field::U8(self.pdu_type),
            Field::U32(self.next_address),
            Field::U16(self.next_port),
            Field::U8(self.range_start),
            Field::U8(self.range_end),
        ]
    }

    open spec fn spec_from_fields(fields: Seq<Field>) -> Self {
        NetJoinResponsePdu {
            pdu_type: fields[0].spec_u8(),
            next_address: fields[1].spec_u32(),
            next_port: fields[2].spec_u16(),
            range_start: fields[3].spec_u8(),
            range_end: fields[4].spec_u8(),
        }
    }

    fn schema() -> (schema: Vec<FieldKind>) {
        vec![FieldKind::U8, FieldKind::U32, FieldKind::U16, FieldKind::U8, FieldKind::U8]
    }

    fn fields(&self) -> (fields: Vec<Field>) {
        vec![
            Field::U8(self.pdu_type),
            Field::U32(self.next_address),
            Field::U16(self.next_port),
            Field::U8(self.range_start),
            Field::U8(self.range_end),
        ]
    }

    fn from_fields(fields: &[Field]) -> (record: Self) {
        proof {
            let kinds = kinds_of(fields@);
            assert(kinds.len() == 5);
            assert(kinds[0] == FieldKind::U8);
            assert(kinds[1] == FieldKind::U32);
            assert(kinds[2] == FieldKind::U16);
            assert(kinds[3] == FieldKind::U8);
            assert(kinds[4] == FieldKind::U8);
        }
        NetJoinResponsePdu {
            pdu_type: fields[0].as_u8(),
            next_address: fields[1].as_u32(),
            next_port: fields[2].as_u16(),
            range_start: fields[3].as_u8(),
            range_end: fields[4].as_u8(),
        }
    }

    fn declared_size() -> (size: usize) {
        proof {
            reveal_with_fuel(size_of_prefix, 6);
        }
        NET_JOIN_RESPONSE_SIZE
    }

    proof fn lemma_fields_of_record(self) {
        assert(kinds_of(self.spec_fields()) =~= Self::spec_schema());
    }

    proof fn lemma_record_of_fields(fields: Seq<Field>) {
        let kinds = kinds_of(fields);
        assert(kinds.len() == 5);
        assert(kinds[0] == FieldKind::U8);
        assert(kinds[1] == FieldKind::U32);
        assert(kinds[2] == FieldKind::U16);
        assert(kinds[3] == FieldKind::U8);
        assert(kinds[4] == FieldKind::U8);
        assert(Self::spec_from_fields(fields).spec_fields() =~= fields);
    }
}

impl From<NetJoinResponsePdu> for Vec<u8> {
    fn from(p: NetJoinResponsePdu) -> (out: Vec<u8>)
        ensures
            out@ == record_wire(p),
    {
        encode_record(&p)
    }
}

impl FromSpecImpl<NetJoinResponsePdu> for Vec<u8> {
    open spec fn obeys_from_spec() -> bool {
        false
    }

    open spec fn from_spec(p: NetJoinResponsePdu) -> Vec<u8> {
        arbitrary()
    }
}

impl ParsePdu for NetJoinResponsePdu {
    open spec fn spec_parse(bytes: Seq<u8>) -> Option<(NetJoinResponsePdu, nat)> {
        record_parse::<NetJoinResponsePdu>(bytes)
    }

    fn try_parse(buffer: &[u8]) -> (parsed: Option<(Self, usize)>) {
        decode_record::<NetJoinResponsePdu>(buffer)
    }
}

/// Hands an inclusive key range to a node that has already joined.
#[derive(Clone, Copy, Debug, PartialEq, Eq, Structural)]
pub struct NetNewRangePdu {
    pub pdu_type: u8,
    pub range_start: u8,
    pub range_end: u8,
}

impl View for NetNewRangePdu {
    type V = NetNewRangePdu;

    open spec fn view(&self) -> NetNewRangePdu {
        *self
    }
}

impl NetNewRangePdu {
    pub fn new(range_start: u8, range_end: u8) -> (pdu: Self)
        ensures
            pdu == (NetNewRangePdu { pdu_type: NET_NEW_RANGE_ID, range_start, range_end }),
    {
        NetNewRangePdu { pdu_type: NET_NEW_RANGE_ID, range_start, range_end }
    }
}

impl Record for NetNewRangePdu {
    open spec fn spec_schema() -> Seq<FieldKind> {
        seq![FieldKind::U8, FieldKind::U8, FieldKind::U8]
    }

    open spec fn spec_fields(self) -> Seq<Field> {
        seq![
            Field::U8(self.pdu_type),
            Field::U8(self.range_start),
            Field::U8(self.range_end),
        ]
    }

    open spec fn spec_from_fields(fields: Seq<Field>) -> Self {
        NetNewRangePdu {
            pdu_type: fields[0].spec_u8(),
            range_start: fields[1].spec_u8(),
            range_end: fields[2].spec_u8(),
        }
    }

    fn schema() -> (schema: Vec<FieldKind>) {
        vec![FieldKind::U8, FieldKind::U8, FieldKind::U8]
    }

    fn fields(&self) -> (fields: Vec<Field>) {
        vec![
            Field::U8(self.pdu_type),
            Field::U8(self.range_start),
            Field::U8(self.range_end),
        ]
    }

    fn from_fields(fields: &[Field]) -> (record: Self) {
        proof {
            let kinds = kinds_of(fields@);
            assert(kinds.len() == 3);
            assert(kinds[0] == FieldKind::U8);
            assert(kinds[1] == FieldKind::U8);
            assert(kinds[2] == FieldKind::U8);
        }
        NetNewRangePdu {
            pdu_type: fields[0].as_u8(),
            range_start: fields[1].as_u8(),
            range_end: fields[2].as_u8(),
        }
    }

    fn declared_size() -> (size: usize) {
        proof {
            reveal_with_fuel(size_of_prefix, 4);
        }
        NET_NEW_RANGE_SIZE
    }

    proof fn lemma_fields_of_record(self) {
        assert(kinds_of(self.spec_fields()) =~= Self::spec_schema());
    }

    proof fn lemma_record_of_fields(fields: Seq<Field>) {
        let kinds = kinds_of(fields);
        assert(kinds.len() == 3);
        assert(kinds[0] == FieldKind::U8);
        assert(kinds[1] == FieldKind::U8);
        assert(kinds[2] == FieldKind::U8);
        assert(Self::spec_from_fields(fields).spec_fields() =~= fields);
    }
}

impl From<NetNewRangePdu> for Vec<u8> {
    fn from(p: NetNewRangePdu) -> (out: Vec<u8>)
        ensures
            out@ == record_wire(p),
    {
        encode_record(&p)
    }
}

impl FromSpecImpl<NetNewRangePdu> for Vec<u8> {
    open spec fn obeys_from_spec() -> bool {
        false
    }

    open spec fn from_spec(p: NetNewRangePdu) -> Vec<u8> {
        arbitrary()
    }
}

impl ParsePdu for NetNewRangePdu {
    open spec fn spec_parse(bytes: Seq<u8>) -> Option<(NetNewRangePdu, nat)> {
        record_parse::<NetNewRangePdu>(bytes)
    }

    fn try_parse(buffer: &[u8]) -> (parsed: Option<(Self, usize)>) {
        decode_record::<NetNewRangePdu>(buffer)
    }
}

/// Acknowledges a new key range.
#[derive(Clone, Copy, Debug, PartialEq, Eq, Structural)]
pub struct NetNewRangeResponsePdu {
    pub pdu_type: u8,
}

impl View for NetNewRangeResponsePdu {
    type V = NetNewRangeResponsePdu;

    open spec fn view(&self) -> NetNewRangeResponsePdu {
        *self
    }
}

impl NetNewRangeResponsePdu {
    pub fn new() -> (pdu: Self)
        ensures
            pdu == (NetNewRangeResponsePdu { pdu_type: NET_NEW_RANGE_RESPONSE_ID }),
    {
        NetNewRangeResponsePdu { pdu_type: NET_NEW_RANGE_RESPONSE_ID }
    }
}

impl Record for NetNewRangeResponsePdu {
    open spec fn spec_schema() -> Seq<FieldKind> {
        seq![FieldKind::U8]
    }

    open spec fn spec_fields(self) -> Seq<Field> {
        seq![
            Field::U8(self.pdu_type),
        ]
    }

    open spec fn spec_from_fields(fields: Seq<Field>) -> Self {
        NetNewRangeResponsePdu {
            pdu_type: fields[0].spec_u8(),
        }
    }

    fn schema() -> (schema: Vec<FieldKind>) {
        vec![FieldKind::U8]
    }

    fn fields(&self) -> (fields: Vec<Field>) {
        vec![
            Field::U8(self.pdu_type),
        ]
    }

    fn from_fields(fields: &[Field]) -> (record: Self) {
        proof {
            let kinds = kinds_of(fields@);
            assert(kinds.len() == 1);
            assert(kinds[0] == FieldKind::U8);
        }
        NetNewRangeResponsePdu {
            pdu_type: fields[0].as_u8(),
        }
    }

    fn declared_size() -> (size: usize) {
        proof {
            reveal_with_fuel(size_of_prefix, 2);
        }
        NET_NEW_RANGE_RESPONSE_SIZE
    }

    proof fn lemma_fields_of_record(self) {
        assert(kinds_of(self.spec_fields()) =~= Self::spec_schema());
    }

    proof fn lemma_record_of_fields(fields: Seq<Field>) {
        let kinds = kinds_of(fields);
        assert(kinds.len() == 1);
        assert(kinds[0] == FieldKind::U8);
        assert(Self::spec_from_fields(fields).spec_fields() =~= fields);
    }
}

impl From<NetNewRangeResponsePdu> for Vec<u8> {
    fn from(p: NetNewRangeResponsePdu) -> (out: Vec<u8>)
        ensures
            out@ == record_wire(p),
    {
        encode_record(&p)
    }
}

impl FromSpecImpl<NetNewRangeResponsePdu> for Vec<u8> {
    open spec fn obeys_from_spec() -> bool {
        false
    }

    open spec fn from_spec(p: NetNewRangeResponsePdu) -> Vec<u8> {
        arbitrary()
    }
}

impl ParsePdu for NetNewRangeResponsePdu {
    open spec fn spec_parse(bytes: Seq<u8>) -> Option<(NetNewRangeResponsePdu, nat)> {
        record_parse::<NetNewRangeResponsePdu>(bytes)
    }

    fn try_parse(buffer: &[u8]) -> (parsed: Option<(Self, usize)>) {
        decode_record::<NetNewRangeResponsePdu>(buffer)
    }
}

/// Announces a departure and names the node that takes over the range.
#[derive(Clone, Copy, Debug, PartialEq, Eq, Structural)]
pub struct NetLeavingPdu {
    pub pdu_type: u8,
    pub new_address: u32,
    pub new_port: u16,
}

impl View for NetLeavingPdu {
    type V = NetLeavingPdu;

    open spec fn view(&self) -> NetLeavingPdu {
        *self
    }
}

impl NetLeavingPdu {
    pub fn new(new_address: u32, new_port: u16) -> (pdu: Self)
        ensures
            pdu == (NetLeavingPdu { pdu_type: NET_LEAVING_ID, new_address, new_port }),
    {
        NetLeavingPdu { pdu_type: NET_LEAVING_ID, new_address, new_port }
    }
}

impl Record for NetLeavingPdu {
    open spec fn spec_schema() -> Seq<FieldKind> {
        seq![FieldKind::U8, FieldKind::U32, FieldKind::U16]
    }

    open spec fn spec_fields(self) -> Seq<Field> {
        seq![
            Field::U8(self.pdu_type),
            Field::U32(self.new_address),
            Field::U16(self.new_port),
        ]
    }

    open spec fn spec_from_fields(fields: Seq<Field>) -> Self {
        NetLeavingPdu {
            pdu_type: fields[0].spec_u8(),
            new_address: fields[1].spec_u32(),
            new_port: fields[2].spec_u16(),
        }
    }

    fn schema() -> (schema: Vec<FieldKind>) {
        vec![FieldKind::U8, FieldKind::U32, FieldKind::U16]
    }

    fn fields(&self) -> (fields: Vec<Field>) {
        vec![
            Field::U8(self.pdu_type),
            Field::U32(self.new_address),
            Field::U16(self.new_port),
        ]
    }

    fn from_fields(fields: &[Field]) -> (record: Self) {
        proof {
            let kinds = kinds_of(fields@);
            assert(kinds.len() == 3);
            assert(kinds[0] == FieldKind::U8);
            assert(kinds[1] == FieldKind::U32);
            assert(kinds[2] == FieldKind::U16);
        }
        NetLeavingPdu {
            pdu_type: fields[0].as_u8(),
            new_address: fields[1].as_u32(),
            new_port: fields[2].as_u16(),
        }
    }

    fn declared_size() -> (size: usize) {
        proof {
            reveal_with_fuel(size_of_prefix, 4);
        }
        NET_LEAVING_SIZE
    }

    proof fn lemma_fields_of_record(self) {
        assert(kinds_of(self.spec_fields()) =~= Self::spec_schema());
    }

    proof fn lemma_record_of_fields(fields: Seq<Field>) {
        let kinds = kinds_of(fields);
        assert(kinds.len() == 3);
        assert(kinds[0] == FieldKind::U8);
        assert(kinds[1] == FieldKind::U32);
        assert(kinds[2] == FieldKind::U16);
        assert(Self::spec_from_fields(fields).spec_fields() =~= fields);
    }
}

impl From<NetLeavingPdu> for Vec<u8> {
    fn from(p: NetLeavingPdu) -> (out: Vec<u8>)
        ensures
            out@ == record_wire(p),
    {
        encode_record(&p)
    }
}

impl FromSpecImpl<NetLeavingPdu> for Vec<u8> {
    open spec fn obeys_from_spec() -> bool {
        false
    }

    open spec fn from_spec(p: NetLeavingPdu) -> Vec<u8> {
        arbitrary()
    }
}

impl ParsePdu for NetLeavingPdu {
    open spec fn spec_parse(bytes: Seq<u8>) -> Option<(NetLeavingPdu, nat)> {
        record_parse::<NetLeavingPdu>(bytes)
    }

    fn try_parse(buffer: &[u8]) -> (parsed: Option<(Self, usize)>) {
        decode_record::<NetLeavingPdu>(buffer)
    }
}

} // verus!
