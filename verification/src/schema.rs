//! The record engine: one encoder, one decoder and one size function for
//! every message that is an ordered list of fixed-width fields.

use crate::pdu_io::{
    be_bytes_u16, be_bytes_u32, lemma_u16_bytes_of_value, lemma_u16_round_trip,
    lemma_u32_bytes_of_value, lemma_u32_round_trip, FromBytes, SizeOf, ToBytes,
};
use crate::util::{be_value_u16, be_value_u32, be_value_u8};
use vstd::prelude::*;

verus! {

/// The width of one field of a record.
#[derive(Clone, Copy, Debug, PartialEq, Eq, Structural)]
pub enum FieldKind {
    U8,
    U16,
    U32,
}

/// One field of a record: its width and its value.
#[derive(Clone, Copy, Debug, PartialEq, Eq, Structural)]
pub enum Field {
    U8(u8),
    U16(u16),
    U32(u32),
}

impl FieldKind {
    /// The bytes that a field of this kind takes.
    pub open spec fn spec_width(self) -> nat {
        match self {
            FieldKind::U8 => 1,
            FieldKind::U16 => 2,
            FieldKind::U32 => 4,
        }
    }

    /// The field that the front of `bytes` holds.
    pub open spec fn spec_read(self, bytes: Seq<u8>) -> Field {
        match self {
            FieldKind::U8 => Field::U8(be_value_u8(bytes)),
            FieldKind::U16 => Field::U16(be_value_u16(bytes)),
            FieldKind::U32 => Field::U32(be_value_u32(bytes)),
        }
    }

    pub fn width(self) -> (w: usize)
        ensures
            w == self.spec_width(),
    {
        match self {
            FieldKind::U8 => u8::size_of(),
            FieldKind::U16 => u16::size_of(),
            FieldKind::U32 => u32::size_of(),
        }
    }

    /// Reads one field of this kind and moves the cursor past it.
    pub fn read(self, input: &mut &[u8]) -> (field: Field)
        requires
            old(input)@.len() >= self.spec_width(),
        ensures
            field == self.spec_read(old(input)@),
            final(input)@ == old(input)@.skip(self.spec_width() as int),
    {
        match self {
            FieldKind::U8 => Field::U8(u8::from_bytes(input)),
            FieldKind::U16 => Field::U16(u16::from_bytes(input)),
            FieldKind::U32 => Field::U32(u32::from_bytes(input)),
        }
    }
}

impl Field {
    pub open spec fn spec_kind(self) -> FieldKind {
        match self {
            Field::U8(_) => FieldKind::U8,
            Field::U16(_) => FieldKind::U16,
            Field::U32(_) => FieldKind::U32,
        }
    }

    /// The value of a one-byte field.
    pub open spec fn spec_u8(self) -> u8
        recommends
            self is U8,
    {
        match self {
            Field::U8(v) => v,
            _ => 0,
        }
    }

    /// The value of a two-byte field.
    pub open spec fn spec_u16(self) -> u16
        recommends
            self is U16,
    {
        match self {
            Field::U16(v) => v,
            _ => 0,
        }
    }

    /// The value of a four-byte field.
    pub open spec fn spec_u32(self) -> u32
        recommends
            self is U32,
    {
        match self {
            Field::U32(v) => v,
            _ => 0,
        }
    }

    pub fn kind(self) -> (k: FieldKind)
        ensures
            k == self.spec_kind(),
    {
        match self {
            Field::U8(_) => FieldKind::U8,
            Field::U16(_) => FieldKind::U16,
            Field::U32(_) => FieldKind::U32,
        }
    }

    pub fn as_u8(self) -> (v: u8)
        requires
            self is U8,
        ensures
            v == self.spec_u8(),
    {
        match self {
            Field::U8(v) => v,
            _ => 0,
        }
    }

    pub fn as_u16(self) -> (v: u16)
        requires
            self is U16,
        ensures
            v == self.spec_u16(),
    {
        match self {
            Field::U16(v) => v,
            _ => 0,
        }
    }

    pub fn as_u32(self) -> (v: u32)
        requires
            self is U32,
        ensures
            v == self.spec_u32(),
    {
        match self {
            Field::U32(v) => v,
            _ => 0,
        }
    }
}

impl ToBytes for Field {
    open spec fn spec_to_bytes(self) -> Seq<u8> {
        match self {
            Field::U8(v) => seq![v],
            Field::U16(v) => be_bytes_u16(v),
            Field::U32(v) => be_bytes_u32(v),
        }
    }

    fn to_bytes(self) -> (out: Vec<u8>) {
        match self {
            Field::U8(v) => v.to_bytes(),
            Field::U16(v) => v.to_bytes(),
            Field::U32(v) => v.to_bytes(),
        }
    }
}

/// The bytes that the first `n` fields of a schema take together.
pub open spec fn size_of_prefix(schema: Seq<FieldKind>, n: nat) -> nat
    decreases n,
{
    if n == 0 {
        0
    } else {
        size_of_prefix(schema, (n - 1) as nat) + schema[n - 1].spec_width()
    }
}

/// The size of a record: the sum of its fields' widths.
pub open spec fn schema_size(schema: Seq<FieldKind>) -> nat {
    size_of_prefix(schema, schema.len())
}

/// The kinds of a list of fields, in order.
pub open spec fn kinds_of(fields: Seq<Field>) -> Seq<FieldKind> {
    Seq::new(fields.len(), |i: int| fields[i].spec_kind())
}

/// The first `n` fields, each in its big-endian form, one after the other.
pub open spec fn encode_prefix(fields: Seq<Field>, n: nat) -> Seq<u8>
    decreases n,
{
    if n == 0 {
        Seq::empty()
    } else {
        encode_prefix(fields, (n - 1) as nat) + fields[n - 1].spec_to_bytes()
    }
}

/// The wire form of a record: its fields in declared order.
pub open spec fn encode_fields(fields: Seq<Field>) -> Seq<u8> {
    encode_prefix(fields, fields.len())
}

/// The fields that a buffer holds under a schema: field `i` is read at the
/// offset where the fields before it end.
pub open spec fn decode_fields(schema: Seq<FieldKind>, bytes: Seq<u8>) -> Seq<Field> {
    Seq::new(
        schema.len(),
        |i: int| schema[i].spec_read(bytes.skip(size_of_prefix(schema, i as nat) as int)),
    )
}

/// How a buffer reads under a schema: the record is incomplete while the
/// buffer is shorter than the schema's size; otherwise the fields are read
/// and exactly that size is taken.
pub open spec fn parse_fields(schema: Seq<FieldKind>, bytes: Seq<u8>) -> Option<(Seq<Field>, nat)> {
    if bytes.len() < schema_size(schema) {
        None
    } else {
        Some((decode_fields(schema, bytes), schema_size(schema)))
    }
}

/// A schema whose size can be computed in machine integers.
pub open spec fn schema_fits(schema: Seq<FieldKind>) -> bool {
    schema.len() * 4 <= usize::MAX
}

/// No field is wider than four bytes, and sizes grow with the prefix.
pub proof fn lemma_size_of_prefix_bounds(schema: Seq<FieldKind>, i: nat, n: nat)
    requires
        i <= n,
    ensures
        size_of_prefix(schema, i) <= size_of_prefix(schema, n),
        size_of_prefix(schema, n) <= 4 * n,
    decreases n,
{
    if n > 0 {
        if i < n {
            lemma_size_of_prefix_bounds(schema, i, (n - 1) as nat);
        } else {
            lemma_size_of_prefix_bounds(schema, (n - 1) as nat, (n - 1) as nat);
        }
    }
}

/// The size of a record with the given schema.
pub fn size_of_fields(schema: &[FieldKind]) -> (size: usize)
    requires
        schema_fits(schema@),
    ensures
        size == schema_size(schema@),
{
    let mut size: usize = 0;
    let mut i: usize = 0;
    while i < schema.len()
        invariant
            i <= schema.len(),
            schema_fits(schema@),
            size == size_of_prefix(schema@, i as nat),
        decreases schema.len() - i,
    {
        proof {
            lemma_size_of_prefix_bounds(schema@, (i + 1) as nat, (i + 1) as nat);
        }
        size = size + schema[i].width();
        i = i + 1;
    }
    size
}

/// Appends each field's bytes to `output_vector`, in declared order.
pub fn push_fields(fields: &[Field], output_vector: &mut Vec<u8>)
    ensures
        final(output_vector)@ == old(output_vector)@ + encode_fields(fields@),
{
    let ghost before = output_vector@;
    let mut i: usize = 0;
    while i < fields.len()
        invariant
            i <= fields.len(),
            output_vector@ == before + encode_prefix(fields@, i as nat),
        decreases fields.len() - i,
    {
        let mut bytes: Vec<u8> = fields[i].to_bytes();
        output_vector.append(&mut bytes);
        i = i + 1;
        assert(output_vector@ =~= before + encode_prefix(fields@, i as nat));
    }
}

/// Reads the fields of a schema from left to right and moves the cursor
/// past them.
pub fn read_fields(schema: &[FieldKind], input: &mut &[u8]) -> (fields: Vec<Field>)
    requires
        old(input)@.len() >= schema_size(schema@),
    ensures
        fields@ == decode_fields(schema@, old(input)@),
        final(input)@ == old(input)@.skip(schema_size(schema@) as int),
{
    let ghost whole = input@;
    let mut fields: Vec<Field> = Vec::new();
    let mut i: usize = 0;
    while i < schema.len()
        invariant
            i <= schema.len(),
            schema_size(schema@) <= whole.len(),
            input@ == whole.skip(size_of_prefix(schema@, i as nat) as int),
            fields@ == decode_fields(schema@, whole).take(i as int),
        decreases schema.len() - i,
    {
        proof {
            lemma_size_of_prefix_bounds(schema@, (i + 1) as nat, schema@.len());
        }
        let field: Field = schema[i].read(input);
        fields.push(field);
        i = i + 1;
        assert(input@ =~= whole.skip(size_of_prefix(schema@, i as nat) as int));
        assert(fields@ =~= decode_fields(schema@, whole).take(i as int));
    }
    assert(fields@ =~= decode_fields(schema@, whole));
    fields
}

/// Writes a record: each field's bytes, in declared order.
pub fn write_pdu(fields: &[Field]) -> (out: Vec<u8>)
    ensures
        out@ == encode_fields(fields@),
{
    let mut output_vector: Vec<u8> = Vec::new();
    push_fields(fields, &mut output_vector);
    assert(output_vector@ =~= encode_fields(fields@));
    output_vector
}

/// Reads a record: `None` while the buffer is shorter than the schema's
/// size, otherwise the fields from left to right and that size.
pub fn read_pdu(schema: &[FieldKind], buffer: &[u8]) -> (parsed: Option<(Vec<Field>, usize)>)
    requires
        schema_fits(schema@),
    ensures
        match parsed {
            Some((fields, consumed)) => parse_fields(schema@, buffer@) == Some(
                (fields@, consumed as nat),
            ),
            None => parse_fields(schema@, buffer@) is None,
        },
{
    let size: usize = size_of_fields(schema);
    if buffer.len() < size {
        return None;
    }
    let mut buffer: &[u8] = buffer;
    let fields: Vec<Field> = read_fields(schema, &mut buffer);
    Some((fields, size))
}

/// The bytes of the first `n` fields are as many as their widths say.
pub proof fn lemma_encode_prefix_len(fields: Seq<Field>, n: nat)
    requires
        n <= fields.len(),
    ensures
        encode_prefix(fields, n).len() == size_of_prefix(kinds_of(fields), n),
    decreases n,
{
    if n > 0 {
        lemma_encode_prefix_len(fields, (n - 1) as nat);
    }
}

/// Size agreement: a record's wire form is exactly as long as its schema's
/// size.
pub proof fn lemma_encode_len(fields: Seq<Field>)
    ensures
        encode_fields(fields).len() == schema_size(kinds_of(fields)),
{
    lemma_encode_prefix_len(fields, fields.len());
}

/// A field read at the front of its own bytes is that field, whatever
/// follows.
pub proof fn lemma_field_round_trip(field: Field, rest: Seq<u8>)
    ensures
        field.spec_to_bytes().len() == field.spec_kind().spec_width(),
        field.spec_kind().spec_read(field.spec_to_bytes() + rest) == field,
{
    match field {
        Field::U8(v) => {},
        Field::U16(v) => {
            lemma_u16_round_trip(v, rest);
        },
        Field::U32(v) => {
            lemma_u32_round_trip(v, rest);
        },
    }
}

/// In the bytes of the first `n` fields, followed by anything, field `i`
/// stands at the offset where the fields before it end.
proof fn lemma_field_in_place(fields: Seq<Field>, n: nat, i: nat, rest: Seq<u8>)
    requires
        i < n <= fields.len(),
    ensures
        (encode_prefix(fields, n) + rest).skip(size_of_prefix(kinds_of(fields), i) as int)
            == fields[i as int].spec_to_bytes() + (encode_prefix(fields, n) + rest).skip(
            size_of_prefix(kinds_of(fields), i + 1) as int,
        ),
    decreases n,
{
    let kinds = kinds_of(fields);
    let whole = encode_prefix(fields, n) + rest;
    let start = size_of_prefix(kinds, i) as int;
    let end = size_of_prefix(kinds, i + 1) as int;
    lemma_encode_prefix_len(fields, n);
    lemma_encode_prefix_len(fields, i);
    lemma_encode_prefix_len(fields, i + 1);
    lemma_size_of_prefix_bounds(kinds, i + 1, n);
    lemma_field_round_trip(fields[i as int], rest);
    if i + 1 == n {
        assert(whole.skip(start) =~= fields[i as int].spec_to_bytes() + whole.skip(end));
    } else {
        let last = fields[n - 1].spec_to_bytes();
        lemma_field_in_place(fields, (n - 1) as nat, i, last + rest);
        assert(encode_prefix(fields, (n - 1) as nat) + (last + rest) =~= whole);
    }
}

/// A record with at least one field starts with the first byte of its
/// first field.
pub proof fn lemma_first_byte(fields: Seq<Field>)
    requires
        fields.len() >= 1,
    ensures
        encode_fields(fields).len() >= 1,
        encode_fields(fields)[0] == fields[0].spec_to_bytes()[0],
{
    let rest = Seq::<u8>::empty();
    lemma_field_in_place(fields, fields.len(), 0, rest);
    lemma_field_round_trip(fields[0], rest);
    let whole = encode_fields(fields) + rest;
    assert(whole =~= encode_fields(fields));
    assert(whole.skip(0) =~= whole);
    assert(size_of_prefix(kinds_of(fields), 0) == 0);
}

/// Round trip: the wire form of a record, followed by anything, reads back
/// under the record's own schema as the same fields, and takes exactly the
/// bytes that were written.
pub proof fn lemma_fields_round_trip(fields: Seq<Field>, rest: Seq<u8>)
    ensures
        parse_fields(kinds_of(fields), encode_fields(fields) + rest) == Some(
            (fields, encode_fields(fields).len()),
        ),
{
    let kinds = kinds_of(fields);
    let whole = encode_fields(fields) + rest;
    lemma_encode_len(fields);
    let got = decode_fields(kinds, whole);
    assert forall|i: int| 0 <= i < fields.len() implies got[i] == fields[i] by {
        lemma_field_in_place(fields, fields.len(), i as nat, rest);
        lemma_field_round_trip(
            fields[i],
            whole.skip(size_of_prefix(kinds, (i + 1) as nat) as int),
        );
    }
    assert(got =~= fields);
}

/// A field read from the front of a buffer is written as the bytes it was
/// read from.
pub proof fn lemma_field_reencode(kind: FieldKind, bytes: Seq<u8>)
    requires
        bytes.len() >= kind.spec_width(),
    ensures
        kind.spec_read(bytes).spec_kind() == kind,
        kind.spec_read(bytes).spec_to_bytes() == bytes.take(kind.spec_width() as int),
{
    match kind {
        FieldKind::U8 => {
            assert(seq![bytes[0]] =~= bytes.take(1));
        },
        FieldKind::U16 => {
            lemma_u16_bytes_of_value(bytes);
        },
        FieldKind::U32 => {
            lemma_u32_bytes_of_value(bytes);
        },
    }
}

/// The first `n` fields read under a schema are written as the bytes that
/// they were read from.
proof fn lemma_prefix_reencode(schema: Seq<FieldKind>, bytes: Seq<u8>, n: nat)
    requires
        n <= schema.len(),
        bytes.len() >= schema_size(schema),
    ensures
        encode_prefix(decode_fields(schema, bytes), n) == bytes.take(
            size_of_prefix(schema, n) as int,
        ),
    decreases n,
{
    let fields = decode_fields(schema, bytes);
    lemma_size_of_prefix_bounds(schema, n, schema.len());
    if n == 0 {
        assert(encode_prefix(fields, 0) =~= bytes.take(0));
    } else {
        let start = size_of_prefix(schema, (n - 1) as nat) as int;
        let end = size_of_prefix(schema, n) as int;
        lemma_prefix_reencode(schema, bytes, (n - 1) as nat);
        lemma_field_reencode(schema[n - 1], bytes.skip(start));
        assert(bytes.take(start) + bytes.skip(start).take(end - start) =~= bytes.take(end));
    }
}

/// Re-encoding: what is read from a buffer under a schema is written as
/// exactly the bytes that were taken.
pub proof fn lemma_fields_reencode(schema: Seq<FieldKind>, bytes: Seq<u8>)
    requires
        bytes.len() >= schema_size(schema),
    ensures
        encode_fields(decode_fields(schema, bytes)) == bytes.take(schema_size(schema) as int),
{
    lemma_prefix_reencode(schema, bytes, schema.len());
}

/// Insufficient data: no strict prefix of a record's wire form reads under
/// the record's schema.
pub proof fn lemma_fields_prefix_needs_more(fields: Seq<Field>, n: int)
    requires
        0 <= n < encode_fields(fields).len(),
    ensures
        parse_fields(kinds_of(fields), encode_fields(fields).take(n)) is None,
{
    lemma_encode_len(fields);
}

/// What is read under a schema has the schema's kinds.
pub proof fn lemma_decoded_kinds(schema: Seq<FieldKind>, bytes: Seq<u8>)
    ensures
        kinds_of(decode_fields(schema, bytes)) == schema,
{
    assert(kinds_of(decode_fields(schema, bytes)) =~= schema);
}

/// A message that is an ordered list of fixed-width fields. The schema and
/// the two conversions are all that the engine needs to know of a type.
pub trait Record: Sized {
    /// The widths of the fields, in wire order.
    spec fn spec_schema() -> Seq<FieldKind>;

    /// The fields of a value, in wire order.
    spec fn spec_fields(self) -> Seq<Field>;

    /// The value made of the given fields.
    spec fn spec_from_fields(fields: Seq<Field>) -> Self;

    fn schema() -> (schema: Vec<FieldKind>)
        ensures
            schema@ == Self::spec_schema(),
            schema_fits(schema@),
    ;

    fn fields(&self) -> (fields: Vec<Field>)
        ensures
            fields@ == self.spec_fields(),
    ;

    fn from_fields(fields: &[Field]) -> (record: Self)
        requires
            kinds_of(fields@) == Self::spec_schema(),
        ensures
            record == Self::spec_from_fields(fields@),
    ;

    /// The size that the type declares for itself is the size of its schema.
    fn declared_size() -> (size: usize)
        ensures
            size == schema_size(Self::spec_schema()),
    ;

    /// The fields of a value follow the schema, and make the value again.
    proof fn lemma_fields_of_record(self)
        ensures
            kinds_of(self.spec_fields()) == Self::spec_schema(),
            Self::spec_from_fields(self.spec_fields()) == self,
    ;

    /// Fields that follow the schema are the fields of the value they make.
    proof fn lemma_record_of_fields(fields: Seq<Field>)
        requires
            kinds_of(fields) == Self::spec_schema(),
        ensures
            Self::spec_from_fields(fields).spec_fields() == fields,
    ;
}

/// The wire form of a record.
pub open spec fn record_wire<R: Record>(record: R) -> Seq<u8> {
    encode_fields(record.spec_fields())
}

/// How a buffer reads as a record of type `R`.
pub open spec fn record_parse<R: Record>(bytes: Seq<u8>) -> Option<(R, nat)> {
    match parse_fields(R::spec_schema(), bytes) {
        Some((fields, consumed)) => Some((R::spec_from_fields(fields), consumed)),
        None => None,
    }
}

/// Encodes a record through its fields.
pub fn encode_record<R: Record>(record: &R) -> (out: Vec<u8>)
    ensures
        out@ == record_wire(*record),
{
    let fields: Vec<Field> = record.fields();
    write_pdu(fields.as_slice())
}

/// Decodes a record through its schema.
pub fn decode_record<R: Record>(buffer: &[u8]) -> (parsed: Option<(R, usize)>)
    ensures
        match parsed {
            Some((record, consumed)) => record_parse::<R>(buffer@) == Some(
                (record, consumed as nat),
            ),
            None => record_parse::<R>(buffer@) is None,
        },
{
    let schema: Vec<FieldKind> = R::schema();
    match read_pdu(schema.as_slice(), buffer) {
        Some((fields, consumed)) => {
            proof {
                lemma_decoded_kinds(schema@, buffer@);
            }
            Some((R::from_fields(fields.as_slice()), consumed))
        },
        None => None,
    }
}

/// Size agreement for every record type: the wire form of any value is as
/// long as the schema's size.
pub proof fn lemma_record_size<R: Record>(record: R)
    ensures
        record_wire(record).len() == schema_size(R::spec_schema()),
{
    record.lemma_fields_of_record();
    lemma_encode_len(record.spec_fields());
}

/// Round trip for every record type: decoding the wire form of a value,
/// followed by anything, gives the value and the length of its wire form.
pub proof fn lemma_record_round_trip<R: Record>(record: R, rest: Seq<u8>)
    ensures
        record_parse::<R>(record_wire(record) + rest) == Some(
            (record, record_wire(record).len()),
        ),
{
    record.lemma_fields_of_record();
    lemma_fields_round_trip(record.spec_fields(), rest);
}

/// Insufficient data for every record type: no strict prefix of the wire
/// form of a value reads as a record.
pub proof fn lemma_record_prefix_needs_more<R: Record>(record: R, n: int)
    requires
        0 <= n < schema_size(R::spec_schema()),
    ensures
        record_parse::<R>(record_wire(record).take(n)) is None,
{
    record.lemma_fields_of_record();
    lemma_encode_len(record.spec_fields());
}

/// Re-encoding for every record type: a record read from a buffer is
/// written as exactly the bytes that it took.
pub proof fn lemma_record_reencode<R: Record>(bytes: Seq<u8>)
    requires
        record_parse::<R>(bytes) is Some,
    ensures
        ({
            let (record, consumed) = record_parse::<R>(bytes)->0;
            record_wire(record) == bytes.take(consumed as int)
        }),
{
    let schema = R::spec_schema();
    lemma_decoded_kinds(schema, bytes);
    R::lemma_record_of_fields(decode_fields(schema, bytes));
    lemma_fields_reencode(schema, bytes);
}

/// A buffer shorter than the schema's size never reads as a record, and a
/// buffer at least as long always does.
pub proof fn lemma_record_parse_iff<R: Record>(bytes: Seq<u8>)
    ensures
        record_parse::<R>(bytes) is Some <==> bytes.len() >= schema_size(R::spec_schema()),
        record_parse::<R>(bytes) is Some ==> (record_parse::<R>(bytes)->0).1 == schema_size(
            R::spec_schema(),
        ),
{
}

} // verus!
