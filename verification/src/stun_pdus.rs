//! The address-discovery messages.

use crate::pdu_io::ParsePdu;
use crate::schema::{
    decode_record, encode_record, kinds_of, record_parse, record_wire, size_of_prefix, Field,
    FieldKind, Record,
};
use vstd::prelude::*;
use vstd::std_specs::convert::FromSpecImpl;

verus! {

pub const STUN_LOOKUP_ID: u8 = 200;

pub const STUN_RESPONSE_ID: u8 = 201;

pub const STUN_LOOKUP_SIZE: usize = 1;

pub const STUN_RESPONSE_SIZE: usize = 1 + 4;

/// The address under which the asking node is seen from outside.
#[derive(Clone, Copy, Debug, PartialEq, Eq, Structural)]
pub struct StunResponsePdu {
    pub pdu_type: u8,
    pub address: u32,
}

impl View for StunResponsePdu {
    type V = StunResponsePdu;

    open spec fn view(&self) -> StunResponsePdu {
        *self
    }
}

impl StunResponsePdu {
    pub fn new(address: u32) -> (pdu: Self)
        ensures
            pdu == (StunResponsePdu { pdu_type: STUN_RESPONSE_ID, address }),
    {
        StunResponsePdu { pdu_type: STUN_RESPONSE_ID, address }
    }
}

impl Record for StunResponsePdu {
    open spec fn spec_schema() -> Seq<FieldKind> {
        seq![FieldKind::U8, FieldKind::U32]
    }

    open spec fn spec_fields(self) -> Seq<Field> {
        seq![
            Field::U8(self.pdu_type),
            Field::U32(self.address),
        ]
    }

    open spec fn spec_from_fields(fields: Seq<Field>) -> Self {
        StunResponsePdu {
            pdu_type: fields[0].spec_u8(),
            address: fields[1].spec_u32(),
        }
    }

    fn schema() -> (schema: Vec<FieldKind>) {
        vec![FieldKind::U8, FieldKind::U32]
    }

    fn fields(&self) -> (fields: Vec<Field>) {
        vec![
            Field::U8(self.pdu_type),
            Field::U32(self.address),
        ]
    }

    fn from_fields(fields: &[Field]) -> (record: Self) {
        proof {
            let kinds = kinds_of(fields@);
            assert(kinds.len() == 2);
            assert(kinds[0] == FieldKind::U8);
            assert(kinds[1] == FieldKind::U32);
        }
        StunResponsePdu {
            pdu_type: fields[0].as_u8(),
            address: fields[1].as_u32(),
        }
    }

    fn declared_size() -> (size: usize) {
        proof {
            reveal_with_fuel(size_of_prefix, 3);
        }
        STUN_RESPONSE_SIZE
    }

    proof fn lemma_fields_of_record(self) {
        assert(kinds_of(self.spec_fields()) =~= Self::spec_schema());
    }

    proof fn lemma_record_of_fields(fields: Seq<Field>) {
        let kinds = kinds_of(fields);
        assert(kinds.len() == 2);
        assert(kinds[0] == FieldKind::U8);
        assert(kinds[1] == FieldKind::U32);
        assert(Self::spec_from_fields(fields).spec_fields() =~= fields);
    }
}

impl From<StunResponsePdu> for Vec<u8> {
    fn from(p: StunResponsePdu) -> (out: Vec<u8>)
        ensures
            out@ == record_wire(p),
    {
        encode_record(&p)
    }
}

impl FromSpecImpl<StunResponsePdu> for Vec<u8> {
    open spec fn obeys_from_spec() -> bool {
        false
    }

    open spec fn from_spec(p: StunResponsePdu) -> Vec<u8> {
        arbitrary()
    }
}

impl ParsePdu for StunResponsePdu {
    open spec fn spec_parse(bytes: Seq<u8>) -> Option<(StunResponsePdu, nat)> {
        record_parse::<StunResponsePdu>(bytes)
    }

    fn try_parse(buffer: &[u8]) -> (parsed: Option<(Self, usize)>) {
        decode_record::<StunResponsePdu>(buffer)
    }
}

/// Asks for the sender's externally visible address.
#[derive(Clone, Copy, Debug, PartialEq, Eq, Structural)]
pub struct StunLookupPdu {
    pub pdu_type: u8,
}

impl View for StunLookupPdu {
    type V = StunLookupPdu;

    open spec fn view(&self) -> StunLookupPdu {
        *self
    }
}

impl StunLookupPdu {
    pub fn new() -> (pdu: Self)
        ensures
            pdu == (StunLookupPdu { pdu_type: STUN_LOOKUP_ID }),
    {
        StunLookupPdu { pdu_type: STUN_LOOKUP_ID }
    }
}

impl Record for StunLookupPdu {
    open spec fn spec_schema() -> Seq<FieldKind> {
        seq![FieldKind::U8]
    }

    open spec fn spec_fields(self) -> Seq<Field> {
        seq![
            Field::U8(self.pdu_type),
        ]
    }

    open spec fn spec_from_fields(fields: Seq<Field>) -> Self {
        StunLookupPdu {
            pdu_type: fields[0].spec_u8(),
        }
    }

    fn schema() -> (schema: Vec<FieldKind>) {
        vec![FieldKind::U8]
    }

    fn fields(&self) -> (fields: Vec<Field>) {
        vec![
            Field::U8(self.pdu_type),
        ]
    }

    fn from_fields(fields: &[Field]) -> (record: Self) {
        proof {
            let kinds = kinds_of(fields@);
            assert(kinds.len() == 1);
            assert(kinds[0] == FieldKind::U8);
        }
        StunLookupPdu {
            pdu_type: fields[0].as_u8(),
        }
    }

    fn declared_size() -> (size: usize) {
        proof {
            reveal_with_fuel(size_of_prefix, 2);
        }
        STUN_LOOKUP_SIZE
    }

    proof fn lemma_fields_of_record(self) {
        assert(kinds_of(self.spec_fields()) =~= Self::spec_schema());
    }

    proof fn lemma_record_of_fields(fields: Seq<Field>) {
        let kinds = kinds_of(fields);
        assert(kinds.len() == 1);
        assert(kinds[0] == FieldKind::U8);
        assert(Self::spec_from_fields(fields).spec_fields() =~= fields);
    }
}

impl From<StunLookupPdu> for Vec<u8> {
    fn from(p: StunLookupPdu) -> (out: Vec<u8>)
        ensures
            out@ == record_wire(p),
    {
        encode_record(&p)
    }
}

impl FromSpecImpl<StunLookupPdu> for Vec<u8> {
    open spec fn obeys_from_spec() -> bool {
        false
    }

    open spec fn from_spec(p: StunLookupPdu) -> Vec<u8> {
        arbitrary()
    }
}

impl ParsePdu for StunLookupPdu {
    open spec fn spec_parse(bytes: Seq<u8>) -> Option<(StunLookupPdu, nat)> {
        record_parse::<StunLookupPdu>(bytes)
    }

    fn try_parse(buffer: &[u8]) -> (parsed: Option<(Self, usize)>) {
        decode_record::<StunLookupPdu>(buffer)
    }
}

} // verus!
