//! The primitive field codec: exact-width big-endian forms of the unsigned
//! integers that every message is made of.

use crate::util::{be_value_u16, be_value_u32, be_value_u8, read_be_u16, read_be_u32, read_be_u8};
use vstd::prelude::*;

verus! {

/// The big-endian form of a 16-bit value: high byte first.
pub open spec fn be_bytes_u16(v: u16) -> Seq<u8> {
    seq![(v / 0x100) as u8, (v % 0x100) as u8]
}

/// The big-endian form of a 32-bit value: most significant byte first.
pub open spec fn be_bytes_u32(v: u32) -> Seq<u8> {
    seq![
        (v / 0x100_0000) as u8,
        (v / 0x1_0000 % 0x100) as u8,
        (v / 0x100 % 0x100) as u8,
        (v % 0x100) as u8,
    ]
}

/// A value that has a fixed-width form on the wire.
pub trait ToBytes: Sized {
    /// The bytes that stand for `self` on the wire.
    spec fn spec_to_bytes(self) -> Seq<u8>;

    fn to_bytes(self) -> (out: Vec<u8>)
        ensures
            out@ == self.spec_to_bytes(),
    ;
}

/// A value that can be read from the front of a byte cursor.
pub trait FromBytes: Sized {
    /// How many bytes one value takes.
    spec fn spec_width() -> nat;

    /// The value that the first `spec_width()` bytes stand for.
    spec fn spec_from_bytes(bytes: Seq<u8>) -> Self;

    fn from_bytes(input: &mut &[u8]) -> (value: Self)
        requires
            old(input)@.len() >= Self::spec_width(),
        ensures
            value == Self::spec_from_bytes(old(input)@),
            final(input)@ == old(input)@.skip(Self::spec_width() as int),
    ;
}

/// A record that can be read from the front of a buffer which may still be
/// incomplete.
pub trait ParsePdu: Sized + View {
    /// What a buffer holding `bytes` parses to: the record's view and the
    /// number of bytes it takes, or `None` while the record is incomplete.
    spec fn spec_parse(bytes: Seq<u8>) -> Option<(Self::V, nat)>;

    fn try_parse(buffer: &[u8]) -> (parsed: Option<(Self, usize)>)
        ensures
            match parsed {
                Some((pdu, consumed)) => Self::spec_parse(buffer@) == Some(
                    (pdu@, consumed as nat),
                ),
                None => Self::spec_parse(buffer@) is None,
            },
    ;
}

/// A value whose wire width is fixed by its type.
pub trait SizeOf {
    spec fn spec_size_of() -> nat;

    fn size_of() -> (size: usize)
        ensures
            size == Self::spec_size_of(),
    ;
}

impl ToBytes for u8 {
    open spec fn spec_to_bytes(self) -> Seq<u8> {
        seq![self]
    }

    fn to_bytes(self) -> (out: Vec<u8>) {
        let mut o: Vec<u8> = Vec::new();
        o.push(self);
        assert(o@ =~= self.spec_to_bytes());
        o
    }
}

impl FromBytes for u8 {
    open spec fn spec_width() -> nat {
        1
    }

    open spec fn spec_from_bytes(bytes: Seq<u8>) -> u8 {
        be_value_u8(bytes)
    }

    fn from_bytes(input: &mut &[u8]) -> (value: u8) {
        read_be_u8(input)
    }
}

impl ToBytes for u16 {
    open spec fn spec_to_bytes(self) -> Seq<u8> {
        be_bytes_u16(self)
    }

    fn to_bytes(self) -> (out: Vec<u8>) {
        let mut o: Vec<u8> = Vec::new();
        o.push((self / 0x100) as u8);
        o.push((self % 0x100) as u8);
        assert(o@ =~= self.spec_to_bytes());
        o
    }
}

impl FromBytes for u16 {
    open spec fn spec_width() -> nat {
        2
    }

    open spec fn spec_from_bytes(bytes: Seq<u8>) -> u16 {
        be_value_u16(bytes)
    }

    fn from_bytes(input: &mut &[u8]) -> (value: u16) {
        read_be_u16(input)
    }
}

impl ToBytes for u32 {
    open spec fn spec_to_bytes(self) -> Seq<u8> {
        be_bytes_u32(self)
    }

    fn to_bytes(self) -> (out: Vec<u8>) {
        let mut o: Vec<u8> = Vec::new();
        o.push((self / 0x100_0000) as u8);
        o.push((self / 0x1_0000 % 0x100) as u8);
        o.push((self / 0x100 % 0x100) as u8);
        o.push((self % 0x100) as u8);
        assert(o@ =~= self.spec_to_bytes());
        o
    }
}

impl FromBytes for u32 {
    open spec fn spec_width() -> nat {
        4
    }

    open spec fn spec_from_bytes(bytes: Seq<u8>) -> u32 {
        be_value_u32(bytes)
    }

    fn from_bytes(input: &mut &[u8]) -> (value: u32) {
        read_be_u32(input)
    }
}

impl SizeOf for u8 {
    open spec fn spec_size_of() -> nat {
        1
    }

    fn size_of() -> (size: usize) {
        1
    }
}

impl SizeOf for u16 {
    open spec fn spec_size_of() -> nat {
        2
    }

    fn size_of() -> (size: usize) {
        2
    }
}

impl SizeOf for u32 {
    open spec fn spec_size_of() -> nat {
        4
    }

    fn size_of() -> (size: usize) {
        4
    }
}

/// Reading back the big-endian form of a 16-bit value gives the value,
/// whatever follows it in the buffer.
pub proof fn lemma_u16_round_trip(v: u16, rest: Seq<u8>)
    ensures
        be_bytes_u16(v).len() == 2,
        be_value_u16(be_bytes_u16(v) + rest) == v,
{
}

/// Reading back the big-endian form of a 32-bit value gives the value,
/// whatever follows it in the buffer.
pub proof fn lemma_u32_round_trip(v: u32, rest: Seq<u8>)
    ensures
        be_bytes_u32(v).len() == 4,
        be_value_u32(be_bytes_u32(v) + rest) == v,
{
}

/// Two bytes are the big-endian form of the value they are read as.
pub proof fn lemma_u16_bytes_of_value(bytes: Seq<u8>)
    requires
        bytes.len() >= 2,
    ensures
        be_bytes_u16(be_value_u16(bytes)) == bytes.take(2),
{
    assert(be_bytes_u16(be_value_u16(bytes)) =~= bytes.take(2));
}

/// Four bytes are the big-endian form of the value they are read as.
pub proof fn lemma_u32_bytes_of_value(bytes: Seq<u8>)
    requires
        bytes.len() >= 4,
    ensures
        be_bytes_u32(be_value_u32(bytes)) == bytes.take(4),
{
    let b0 = bytes[0] as int;
    let b1 = bytes[1] as int;
    let b2 = bytes[2] as int;
    let b3 = bytes[3] as int;
    let low = b1 * 0x1_0000 + b2 * 0x100 + b3;
    let v = be_value_u32(bytes);
    assert(v == b0 * 0x100_0000 + low);
    assert(0 <= low < 0x100_0000);
    assert(v / 0x100_0000 == b0);
    assert(v / 0x1_0000 == b0 * 0x100 + b1);
    assert(v / 0x100 == b0 * 0x1_0000 + b1 * 0x100 + b2);
    assert(v % 0x100 == b3);
    assert(be_bytes_u32(v) =~= bytes.take(4));
}

} // verus!
