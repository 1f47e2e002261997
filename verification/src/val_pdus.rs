//! The value-store messages: records keyed by a twelve-character identifier,
//! two of them with length-prefixed text fields.

use crate::pdu_io::{
    be_bytes_u16, be_bytes_u32, lemma_u16_bytes_of_value, lemma_u16_round_trip,
    lemma_u32_bytes_of_value, lemma_u32_round_trip, ParsePdu, ToBytes,
};
use crate::text::{
    bytes_to_chars, chars_to_bytes, extend_with_first_low_bytes, extend_with_low_bytes,
    first_chars, is_single_byte,
    lemma_bytes_text_round_trip, lemma_single_byte_text_round_trip, string_of_bytes,
};
use crate::util::{be_value_u16, be_value_u32, read_be_u16, read_be_u32, read_be_u8};
use vstd::prelude::*;
use vstd::std_specs::convert::FromSpecImpl;
use vstd::utf8::{encode_utf8, is_ascii_chars, is_ascii_chars_encode_utf8};

verus! {

pub const VAL_INSERT_ID: u8 = 100;

pub const VAL_REMOVE_ID: u8 = 101;

pub const VAL_LOOKUP_ID: u8 = 102;

pub const VAL_LOOKUP_RESPONSE_ID: u8 = 103;

/// The number of characters of a record identifier.
pub const SSN_LENGTH: usize = 12;

pub const VAL_REMOVE_SIZE: usize = 1 + SSN_LENGTH;

pub const VAL_LOOKUP_SIZE: usize = 1 + SSN_LENGTH + 4 + 2;

/// The bytes before the first text of a record: tag, identifier, name length.
pub const VAL_RECORD_HEADER_SIZE: usize = 1 + SSN_LENGTH + 1;

/// What a record message holds: the tag, the identifier and two texts, each
/// with the length octet that precedes it on the wire.
pub struct ValRecordView {
    pub pdu_type: u8,
    pub ssn: Seq<char>,
    pub name_length: u8,
    pub name: Seq<char>,
    pub email_length: u8,
    pub email: Seq<char>,
}

/// What a removal holds.
pub struct ValRemoveView {
    pub pdu_type: u8,
    pub ssn: Seq<char>,
}

/// What a lookup holds.
pub struct ValLookupView {
    pub pdu_type: u8,
    pub ssn: Seq<char>,
    pub sender_address: u32,
    pub sender_port: u16,
}

/// The octet that announces a text: its length in UTF-8 bytes, reduced to
/// eight bits. It counts the bytes that follow it only for ASCII text of at
/// most 255 characters: callers pass no other.
pub open spec fn length_octet(text: Seq<char>) -> u8 {
    (encode_utf8(text).len() % 0x100) as u8
}

/// The identifier as written: the low bytes of its first twelve characters,
/// fewer where the identifier is shorter. A short identifier is neither
/// padded nor refused, so its message is shorter than a reader expects and
/// the reader takes the bytes that follow for the rest of the identifier:
/// callers pass identifiers of exactly twelve characters.
pub open spec fn ssn_bytes(ssn: Seq<char>) -> Seq<u8> {
    chars_to_bytes(first_chars(ssn, SSN_LENGTH as nat))
}

/// The wire form of a record message.
pub open spec fn val_record_bytes(v: ValRecordView) -> Seq<u8> {
    seq![v.pdu_type] + ssn_bytes(v.ssn) + seq![v.name_length] + chars_to_bytes(v.name)
        + seq![v.email_length] + chars_to_bytes(v.email)
}

/// The wire form of a removal.
pub open spec fn remove_bytes(v: ValRemoveView) -> Seq<u8> {
    seq![v.pdu_type] + ssn_bytes(v.ssn)
}

/// The wire form of a lookup.
pub open spec fn lookup_bytes(v: ValLookupView) -> Seq<u8> {
    seq![v.pdu_type] + ssn_bytes(v.ssn) + be_bytes_u32(v.sender_address) + be_bytes_u16(
        v.sender_port,
    )
}

/// How a buffer reads as a record message. The record is incomplete while
/// the header, a length octet or a declared text is not wholly there.
pub open spec fn parse_val_record(b: Seq<u8>) -> Option<(ValRecordView, nat)> {
    if b.len() < 14 {
        None
    } else {
        let name_end = 14 + b[13] as int;
        if b.len() < name_end + 1 {
            None
        } else {
            let email_end = name_end + 1 + b[name_end] as int;
            if b.len() < email_end {
                None
            } else {
                Some(
                    (
                        ValRecordView {
                            pdu_type: b[0],
                            ssn: bytes_to_chars(b.subrange(1, 13)),
                            name_length: b[13],
                            name: bytes_to_chars(b.subrange(14, name_end)),
                            email_length: b[name_end],
                            email: bytes_to_chars(b.subrange(name_end + 1, email_end)),
                        },
                        email_end as nat,
                    ),
                )
            }
        }
    }
}

/// How a buffer reads as a removal.
pub open spec fn parse_remove(b: Seq<u8>) -> Option<(ValRemoveView, nat)> {
    if b.len() < 13 {
        None
    } else {
        Some((ValRemoveView { pdu_type: b[0], ssn: bytes_to_chars(b.subrange(1, 13)) }, 13))
    }
}

/// How a buffer reads as a lookup.
pub open spec fn parse_lookup(b: Seq<u8>) -> Option<(ValLookupView, nat)> {
    if b.len() < 19 {
        None
    } else {
        Some(
            (
                ValLookupView {
                    pdu_type: b[0],
                    ssn: bytes_to_chars(b.subrange(1, 13)),
                    sender_address: be_value_u32(b.skip(13)),
                    sender_port: be_value_u16(b.skip(17)),
                },
                19,
            ),
        )
    }
}

/// The length octet of `text`.
pub fn text_length_octet(text: &String) -> (octet: u8)
    ensures
        octet == length_octet(text@),
{
    let n: usize = text.as_str().as_bytes().len();
    (n % 0x100) as u8
}

/// Writes a record message.
pub fn write_val_record(
    pdu_type: u8,
    ssn: &String,
    name_length: u8,
    name: &String,
    email_length: u8,
    email: &String,
) -> (out: Vec<u8>)
    ensures
        out@ == val_record_bytes(
            ValRecordView {
                pdu_type,
                ssn: ssn@,
                name_length,
                name: name@,
                email_length,
                email: email@,
            },
        ),
{
    let mut v: Vec<u8> = Vec::new();
    v.push(pdu_type);
    extend_with_first_low_bytes(&mut v, ssn.as_str(), SSN_LENGTH);
    v.push(name_length);
    extend_with_low_bytes(&mut v, name.as_str());
    v.push(email_length);
    extend_with_low_bytes(&mut v, email.as_str());
    assert(v@ =~= seq![pdu_type] + ssn_bytes(ssn@) + seq![name_length] + chars_to_bytes(name@)
        + seq![email_length] + chars_to_bytes(email@));
    v
}

/// Stores a record under its identifier.
pub struct ValInsertPdu {
    pub pdu_type: u8,
    pub ssn: String,
    pub name_length: u8,
    pub name: String,
    pub email_length: u8,
    pub email: String,
}

impl View for ValInsertPdu {
    type V = ValRecordView;

    open spec fn view(&self) -> ValRecordView {
        ValRecordView {
            pdu_type: self.pdu_type,
            ssn: self.ssn@,
            name_length: self.name_length,
            name: self.name@,
            email_length: self.email_length,
            email: self.email@,
        }
    }
}

impl ValInsertPdu {
    pub fn new(ssn: String, name: String, email: String) -> (pdu: Self)
        ensures
            pdu@ == (ValRecordView {
                pdu_type: VAL_INSERT_ID,
                ssn: ssn@,
                name_length: length_octet(name@),
                name: name@,
                email_length: length_octet(email@),
                email: email@,
            }),
    {
        let name_length: u8 = text_length_octet(&name);
        let email_length: u8 = text_length_octet(&email);
        ValInsertPdu { pdu_type: VAL_INSERT_ID, name_length, email_length, ssn, name, email }
    }
}

impl From<ValInsertPdu> for Vec<u8> {
    fn from(pdu: ValInsertPdu) -> (out: Vec<u8>)
        ensures
            out@ == val_record_bytes(pdu@),
    {
        write_val_record(
            pdu.pdu_type,
            &pdu.ssn,
            pdu.name_length,
            &pdu.name,
            pdu.email_length,
            &pdu.email,
        )
    }
}

impl FromSpecImpl<ValInsertPdu> for Vec<u8> {
    open spec fn obeys_from_spec() -> bool {
        false
    }

    open spec fn from_spec(pdu: ValInsertPdu) -> Vec<u8> {
        arbitrary()
    }
}

impl ParsePdu for ValInsertPdu {
    open spec fn spec_parse(bytes: Seq<u8>) -> Option<(ValRecordView, nat)> {
        parse_val_record(bytes)
    }

    fn try_parse(buffer: &[u8]) -> (parsed: Option<(Self, usize)>) {
        if buffer.len() < VAL_RECORD_HEADER_SIZE {
            return None;
        }
        let mut cursor: &[u8] = buffer;
        let pdu_type: u8 = read_be_u8(&mut cursor);

        let (ssn_part, rest) = cursor.split_at(SSN_LENGTH);
        let mut cursor: &[u8] = rest;
        let ssn: String = string_of_bytes(ssn_part);
        let name_length: u8 = read_be_u8(&mut cursor);
        assert(cursor@ =~= buffer@.skip(14));

        // the name, and the octet that announces the second text
        if cursor.len() < name_length as usize + 1 {
            return None;
        }
        let (name_part, rest) = cursor.split_at(name_length as usize);
        let mut cursor: &[u8] = rest;
        let name: String = string_of_bytes(name_part);

        let email_length: u8 = read_be_u8(&mut cursor);
        assert(cursor@ =~= buffer@.skip(15 + name_length as int));

        if cursor.len() < email_length as usize {
            return None;
        }
        let (email_part, _) = cursor.split_at(email_length as usize);
        let email: String = string_of_bytes(email_part);

        let pdu = ValInsertPdu { pdu_type, ssn, name_length, name, email_length, email };
        let size: usize = 1 + SSN_LENGTH + 1 + name_length as usize + 1 + email_length as usize;
        proof {
            let name_end = 14 + name_length as int;
            assert(ssn_part@ =~= buffer@.subrange(1, 13));
            assert(name_part@ =~= buffer@.subrange(14, name_end));
            assert(email_part@ =~= buffer@.subrange(name_end + 1, size as int));
        }
        Some((pdu, size))
    }
}

/// Asks for the record of an identifier; the answer goes to the sender's
/// address.
pub struct ValLookupPdu {
    pub pdu_type: u8,
    pub ssn: String,
    pub sender_address: u32,
    pub sender_port: u16,
}

impl View for ValLookupPdu {
    type V = ValLookupView;

    open spec fn view(&self) -> ValLookupView {
        ValLookupView {
            pdu_type: self.pdu_type,
            ssn: self.ssn@,
            sender_address: self.sender_address,
            sender_port: self.sender_port,
        }
    }
}

impl ValLookupPdu {
    pub fn new(ssn: String, sender_address: u32, sender_port: u16) -> (pdu: Self)
        ensures
            pdu@ == (ValLookupView {
                pdu_type: VAL_LOOKUP_ID,
                ssn: ssn@,
                sender_address,
                sender_port,
            }),
    {
        ValLookupPdu { pdu_type: VAL_LOOKUP_ID, sender_address, sender_port, ssn }
    }
}

impl From<ValLookupPdu> for Vec<u8> {
    fn from(pdu: ValLookupPdu) -> (out: Vec<u8>)
        ensures
            out@ == lookup_bytes(pdu@),
    {
        let mut v: Vec<u8> = Vec::new();
        v.push(pdu.pdu_type);
        extend_with_first_low_bytes(&mut v, pdu.ssn.as_str(), SSN_LENGTH);
        let mut address: Vec<u8> = pdu.sender_address.to_bytes();
        v.append(&mut address);
        let mut port: Vec<u8> = pdu.sender_port.to_bytes();
        v.append(&mut port);
        assert(v@ =~= lookup_bytes(pdu@));
        v
    }
}

impl FromSpecImpl<ValLookupPdu> for Vec<u8> {
    open spec fn obeys_from_spec() -> bool {
        false
    }

    open spec fn from_spec(pdu: ValLookupPdu) -> Vec<u8> {
        arbitrary()
    }
}

impl ParsePdu for ValLookupPdu {
    open spec fn spec_parse(bytes: Seq<u8>) -> Option<(ValLookupView, nat)> {
        parse_lookup(bytes)
    }

    fn try_parse(buffer: &[u8]) -> (parsed: Option<(Self, usize)>) {
        let size: usize = VAL_LOOKUP_SIZE;
        if buffer.len() < size {
            return None;
        }
        let mut cursor: &[u8] = buffer;
        let pdu_type: u8 = read_be_u8(&mut cursor);
        let (ssn_part, rest) = cursor.split_at(SSN_LENGTH);
        let mut cursor: &[u8] = rest;
        assert(cursor@ =~= buffer@.skip(13));
        let ssn: String = string_of_bytes(ssn_part);
        let sender_address: u32 = read_be_u32(&mut cursor);
        assert(cursor@ =~= buffer@.skip(17));
        let sender_port: u16 = read_be_u16(&mut cursor);
        let pdu = ValLookupPdu { pdu_type, ssn, sender_address, sender_port };
        assert(ssn_part@ =~= buffer@.subrange(1, 13));
        Some((pdu, size))
    }
}

/// Answers a lookup with the record; on the wire it differs from an
/// insertion by its tag alone.
pub struct ValLookupResponsePdu {
    pub pdu_type: u8,
    pub ssn: String,
    pub name_length: u8,
    pub name: String,
    pub email_length: u8,
    pub email: String,
}

impl View for ValLookupResponsePdu {
    type V = ValRecordView;

    open spec fn view(&self) -> ValRecordView {
        ValRecordView {
            pdu_type: self.pdu_type,
            ssn: self.ssn@,
            name_length: self.name_length,
            name: self.name@,
            email_length: self.email_length,
            email: self.email@,
        }
    }
}

impl ValLookupResponsePdu {
    pub fn new(ssn: String, name: String, email: String) -> (pdu: Self)
        ensures
            pdu@ == (ValRecordView {
                pdu_type: VAL_LOOKUP_RESPONSE_ID,
                ssn: ssn@,
                name_length: length_octet(name@),
                name: name@,
                email_length: length_octet(email@),
                email: email@,
            }),
    {
        let name_length: u8 = text_length_octet(&name);
        let email_length: u8 = text_length_octet(&email);
        ValLookupResponsePdu {
            pdu_type: VAL_LOOKUP_RESPONSE_ID,
            name_length,
            email_length,
            ssn,
            name,
            email,
        }
    }
}

impl From<ValLookupResponsePdu> for Vec<u8> {
    fn from(pdu: ValLookupResponsePdu) -> (out: Vec<u8>)
        ensures
            out@ == val_record_bytes(pdu@),
    {
        write_val_record(
            pdu.pdu_type,
            &pdu.ssn,
            pdu.name_length,
            &pdu.name,
            pdu.email_length,
            &pdu.email,
        )
    }
}

impl FromSpecImpl<ValLookupResponsePdu> for Vec<u8> {
    open spec fn obeys_from_spec() -> bool {
        false
    }

    open spec fn from_spec(pdu: ValLookupResponsePdu) -> Vec<u8> {
        arbitrary()
    }
}

impl ParsePdu for ValLookupResponsePdu {
    open spec fn spec_parse(bytes: Seq<u8>) -> Option<(ValRecordView, nat)> {
        parse_val_record(bytes)
    }

    fn try_parse(buffer: &[u8]) -> (parsed: Option<(Self, usize)>) {
        match ValInsertPdu::try_parse(buffer) {
            Some((pdu, size)) => {
                let pdu = ValLookupResponsePdu {
                    pdu_type: pdu.pdu_type,
                    ssn: pdu.ssn,
                    name_length: pdu.name_length,
                    name: pdu.name,
                    email_length: pdu.email_length,
                    email: pdu.email,
                };
                Some((pdu, size))
            },
            None => None,
        }
    }
}

/// Deletes the record of an identifier.
pub struct ValRemovePdu {
    pub pdu_type: u8,
    pub ssn: String,
}

impl View for ValRemovePdu {
    type V = ValRemoveView;

    open spec fn view(&self) -> ValRemoveView {
        ValRemoveView { pdu_type: self.pdu_type, ssn: self.ssn@ }
    }
}

impl ValRemovePdu {
    pub fn new(ssn: String) -> (pdu: Self)
        ensures
            pdu@ == (ValRemoveView { pdu_type: VAL_REMOVE_ID, ssn: ssn@ }),
    {
        ValRemovePdu { pdu_type: VAL_REMOVE_ID, ssn }
    }
}

impl From<ValRemovePdu> for Vec<u8> {
    fn from(pdu: ValRemovePdu) -> (out: Vec<u8>)
        ensures
            out@ == remove_bytes(pdu@),
    {
        let mut v: Vec<u8> = Vec::new();
        v.push(pdu.pdu_type);
        extend_with_first_low_bytes(&mut v, pdu.ssn.as_str(), SSN_LENGTH);
        assert(v@ =~= remove_bytes(pdu@));
        v
    }
}

impl FromSpecImpl<ValRemovePdu> for Vec<u8> {
    open spec fn obeys_from_spec() -> bool {
        false
    }

    open spec fn from_spec(pdu: ValRemovePdu) -> Vec<u8> {
        arbitrary()
    }
}

impl ParsePdu for ValRemovePdu {
    open spec fn spec_parse(bytes: Seq<u8>) -> Option<(ValRemoveView, nat)> {
        parse_remove(bytes)
    }

    fn try_parse(buffer: &[u8]) -> (parsed: Option<(Self, usize)>) {
        let size: usize = VAL_REMOVE_SIZE;
        if buffer.len() < size {
            return None;
        }
        let mut cursor: &[u8] = buffer;
        let pdu_type: u8 = read_be_u8(&mut cursor);
        let (ssn_part, _) = cursor.split_at(SSN_LENGTH);
        let ssn: String = string_of_bytes(ssn_part);
        let pdu = ValRemovePdu { pdu_type, ssn };
        assert(ssn_part@ =~= buffer@.subrange(1, 13));
        Some((pdu, size))
    }
}

/// A record whose texts can be carried without loss: a twelve-character
/// identifier, single-byte characters throughout, and length octets that
/// count the characters of their texts.
pub open spec fn val_record_is_faithful(v: ValRecordView) -> bool {
    &&& v.ssn.len() == SSN_LENGTH
    &&& is_single_byte(v.ssn)
    &&& is_single_byte(v.name)
    &&& is_single_byte(v.email)
    &&& v.name_length == v.name.len()
    &&& v.email_length == v.email.len()
}

/// An identifier that fills its twelve bytes with single-byte characters.
pub open spec fn ssn_is_faithful(ssn: Seq<char>) -> bool {
    ssn.len() == SSN_LENGTH && is_single_byte(ssn)
}

/// ASCII text of at most 255 characters is announced by the number of its
/// characters, and loses nothing on the wire.
pub proof fn lemma_length_octet_of_ascii(text: Seq<char>)
    requires
        is_ascii_chars(text),
        text.len() <= 0xff,
    ensures
        length_octet(text) == text.len(),
        is_single_byte(text),
{
    is_ascii_chars_encode_utf8(text);
    assert forall|i: int| 0 <= i < text.len() implies (#[trigger] text[i]) as u32 <= 0xff by {
        assert('\0' <= text[i] <= '\u{7f}');
    }
}

/// A record made from a twelve-character ASCII identifier and two ASCII
/// texts of at most 255 characters, with the length octets that the
/// constructors compute, is faithful.
pub proof fn lemma_constructed_record_is_faithful(
    pdu_type: u8,
    ssn: Seq<char>,
    name: Seq<char>,
    email: Seq<char>,
)
    requires
        ssn.len() == SSN_LENGTH,
        is_ascii_chars(ssn),
        is_ascii_chars(name),
        name.len() <= 0xff,
        is_ascii_chars(email),
        email.len() <= 0xff,
    ensures
        val_record_is_faithful(
            ValRecordView {
                pdu_type,
                ssn,
                name_length: length_octet(name),
                name,
                email_length: length_octet(email),
                email,
            },
        ),
{
    lemma_length_octet_of_ascii(name);
    lemma_length_octet_of_ascii(email);
    assert forall|i: int| 0 <= i < ssn.len() implies (#[trigger] ssn[i]) as u32 <= 0xff by {
        assert('\0' <= ssn[i] <= '\u{7f}');
    }
}

/// An identifier takes as many bytes as it has characters, and never more
/// than twelve: a shorter identifier gives a shorter message.
pub proof fn lemma_ssn_bytes_len(ssn: Seq<char>)
    ensures
        ssn_bytes(ssn).len() == if ssn.len() <= SSN_LENGTH {
            ssn.len()
        } else {
            SSN_LENGTH as nat
        },
{
}

/// The length of a record message: fifteen bytes of framing and identifier
/// and one byte for each character of its two texts.
pub proof fn lemma_val_record_bytes_len(v: ValRecordView)
    requires
        v.ssn.len() >= SSN_LENGTH,
    ensures
        val_record_bytes(v).len() == 1 + 12 + 1 + v.name.len() + 1 + v.email.len(),
{
}

/// A faithful record message reads back as itself, and takes exactly the
/// bytes that were written for it, whatever follows in the buffer.
pub proof fn lemma_val_record_round_trip(v: ValRecordView, rest: Seq<u8>)
    requires
        val_record_is_faithful(v),
    ensures
        parse_val_record(val_record_bytes(v) + rest) == Some((v, val_record_bytes(v).len())),
{
    let w = val_record_bytes(v);
    let b = w + rest;
    let name_end = 14 + v.name.len() as int;
    let email_end = name_end + 1 + v.email.len() as int;
    lemma_single_byte_text_round_trip(v.ssn);
    lemma_single_byte_text_round_trip(v.name);
    lemma_single_byte_text_round_trip(v.email);
    assert(w.len() == email_end);
    assert(b[13] == v.name_length);
    assert(b[name_end] == v.email_length);
    assert(b.subrange(1, 13) =~= chars_to_bytes(v.ssn));
    assert(b.subrange(14, name_end) =~= chars_to_bytes(v.name));
    assert(b.subrange(name_end + 1, email_end) =~= chars_to_bytes(v.email));
    let (got, _) = parse_val_record(b)->0;
    assert(got.ssn == v.ssn);
    assert(got.name == v.name);
    assert(got.email == v.email);
}

/// Whatever parses as a record takes one tag byte, twelve identifier bytes
/// and, for each text, a length octet and as many bytes as it declares.
pub proof fn lemma_val_record_consumed(b: Seq<u8>)
    requires
        parse_val_record(b) is Some,
    ensures
        ({
            let (v, consumed) = parse_val_record(b)->0;
            &&& consumed == 1 + 12 + 1 + v.name_length + 1 + v.email_length
            &&& consumed <= b.len()
            &&& v.ssn.len() == 12
            &&& v.name.len() == v.name_length
            &&& v.email.len() == v.email_length
            &&& val_record_bytes(v) == b.take(consumed as int)
        }),
{
    let (v, consumed) = parse_val_record(b)->0;
    let name_end = 14 + b[13] as int;
    lemma_bytes_text_round_trip(b.subrange(1, 13));
    lemma_bytes_text_round_trip(b.subrange(14, name_end));
    lemma_bytes_text_round_trip(b.subrange(name_end + 1, consumed as int));
    assert(val_record_bytes(v) =~= b.take(consumed as int));
}

/// A record is incomplete exactly while its header, the second length octet
/// or a text that a length octet declares is not wholly in the buffer.
pub proof fn lemma_val_record_needs_more(b: Seq<u8>)
    ensures
        b.len() < 14 ==> parse_val_record(b) is None,
        b.len() >= 14 && b.len() - 14 <= b[13] ==> parse_val_record(b) is None,
        b.len() >= 14 && b.len() - 14 > b[13] && b.len() - 15 - b[13] < b[14 + b[13]]
            ==> parse_val_record(b) is None,
        b.len() >= 14 && b.len() - 14 > b[13] && b.len() - 15 - b[13] >= b[14 + b[13]]
            ==> parse_val_record(b) is Some,
{
}

/// No strict prefix of a faithful record message parses: the reader waits
/// for the rest.
pub proof fn lemma_val_record_prefix_needs_more(v: ValRecordView, n: int)
    requires
        val_record_is_faithful(v),
        0 <= n < val_record_bytes(v).len(),
    ensures
        parse_val_record(val_record_bytes(v).take(n)) is None,
{
    let w = val_record_bytes(v);
    let p = w.take(n);
    let name_end = 14 + v.name.len() as int;
    lemma_single_byte_text_round_trip(v.ssn);
    lemma_single_byte_text_round_trip(v.name);
    lemma_single_byte_text_round_trip(v.email);
    assert(w.len() == name_end + 1 + v.email.len());
    if n >= 14 {
        assert(p[13] == w[13]);
        assert(w[13] == v.name_length);
        if n >= name_end + 1 {
            assert(p[name_end] == w[name_end]);
            assert(w[name_end] == v.email_length);
        }
    }
}

/// A removal with a faithful identifier takes thirteen bytes and reads back
/// as itself, whatever follows.
pub proof fn lemma_remove_round_trip(v: ValRemoveView, rest: Seq<u8>)
    requires
        ssn_is_faithful(v.ssn),
    ensures
        remove_bytes(v).len() == VAL_REMOVE_SIZE,
        parse_remove(remove_bytes(v) + rest) == Some((v, VAL_REMOVE_SIZE as nat)),
{
    let b = remove_bytes(v) + rest;
    lemma_single_byte_text_round_trip(v.ssn);
    assert(b.subrange(1, 13) =~= chars_to_bytes(v.ssn));
    let (got, _) = parse_remove(b)->0;
    assert(got.ssn == v.ssn);
}

/// No strict prefix of a removal reads as a removal.
pub proof fn lemma_remove_prefix_needs_more(v: ValRemoveView, n: int)
    requires
        0 <= n < remove_bytes(v).len(),
    ensures
        parse_remove(remove_bytes(v).take(n)) is None,
{
}

/// A lookup with a faithful identifier takes nineteen bytes and reads back
/// as itself, whatever follows.
pub proof fn lemma_lookup_round_trip(v: ValLookupView, rest: Seq<u8>)
    requires
        ssn_is_faithful(v.ssn),
    ensures
        lookup_bytes(v).len() == VAL_LOOKUP_SIZE,
        parse_lookup(lookup_bytes(v) + rest) == Some((v, VAL_LOOKUP_SIZE as nat)),
{
    let b = lookup_bytes(v) + rest;
    lemma_single_byte_text_round_trip(v.ssn);
    assert(b.subrange(1, 13) =~= chars_to_bytes(v.ssn));
    assert(b.skip(13) =~= be_bytes_u32(v.sender_address) + (be_bytes_u16(v.sender_port) + rest));
    assert(b.skip(17) =~= be_bytes_u16(v.sender_port) + rest);
    lemma_u32_round_trip(v.sender_address, be_bytes_u16(v.sender_port) + rest);
    lemma_u16_round_trip(v.sender_port, rest);
    let (got, _) = parse_lookup(b)->0;
    assert(got.ssn == v.ssn);
}

/// No strict prefix of a lookup reads as a lookup.
pub proof fn lemma_lookup_prefix_needs_more(v: ValLookupView, n: int)
    requires
        0 <= n < lookup_bytes(v).len(),
    ensures
        parse_lookup(lookup_bytes(v).take(n)) is None,
{
}

/// A removal read from a buffer is written as the thirteen bytes it took.
pub proof fn lemma_remove_reencode(b: Seq<u8>)
    requires
        parse_remove(b) is Some,
    ensures
        ({
            let (v, consumed) = parse_remove(b)->0;
            remove_bytes(v) == b.take(consumed as int)
        }),
{
    let (v, consumed) = parse_remove(b)->0;
    lemma_bytes_text_round_trip(b.subrange(1, 13));
    assert(remove_bytes(v) =~= b.take(consumed as int));
}

/// A lookup read from a buffer is written as the nineteen bytes it took.
pub proof fn lemma_lookup_reencode(b: Seq<u8>)
    requires
        parse_lookup(b) is Some,
    ensures
        ({
            let (v, consumed) = parse_lookup(b)->0;
            lookup_bytes(v) == b.take(consumed as int)
        }),
{
    let (v, consumed) = parse_lookup(b)->0;
    lemma_bytes_text_round_trip(b.subrange(1, 13));
    lemma_u32_bytes_of_value(b.skip(13));
    lemma_u16_bytes_of_value(b.skip(17));
    assert(be_bytes_u32(v.sender_address) =~= b.subrange(13, 17));
    assert(be_bytes_u16(v.sender_port) =~= b.subrange(17, 19));
    assert(lookup_bytes(v) =~= b.take(consumed as int));
}

} // verus!
