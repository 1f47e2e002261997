//! Single-byte text: how strings are carried as one byte per character.

use vstd::prelude::*;
use vstd::std_specs::iter::IteratorSpec;

verus! {

/// Trusted of std: after `String::push` the string is what it was before,
/// followed by the pushed character.
pub assume_specification[ String::push ](s: &mut String, ch: char)
    ensures
        final(s)@ == old(s)@.push(ch),
;

/// The low eight bits of a character's code point.
pub open spec fn low_byte(c: char) -> u8 {
    (c as u32 % 0x100) as u8
}

/// The character whose code point is the byte's value.
pub open spec fn byte_char(b: u8) -> char {
    b as char
}

/// One byte per character: each character's low eight bits.
pub open spec fn chars_to_bytes(s: Seq<char>) -> Seq<u8> {
    Seq::new(s.len(), |i: int| low_byte(s[i]))
}

/// One character per byte.
pub open spec fn bytes_to_chars(b: Seq<u8>) -> Seq<char> {
    Seq::new(b.len(), |i: int| byte_char(b[i]))
}

/// The first `limit` characters of `s`, or all of `s` where it has fewer.
pub open spec fn first_chars(s: Seq<char>, limit: nat) -> Seq<char> {
    if s.len() <= limit {
        s
    } else {
        s.take(limit as int)
    }
}

/// Every character fits in one byte, so that none loses bits on the wire.
pub open spec fn is_single_byte(s: Seq<char>) -> bool {
    forall|i: int| 0 <= i < s.len() ==> (#[trigger] s[i]) as u32 <= 0xff
}

/// The low eight bits of `c`.
pub fn char_low_byte(c: char) -> (b: u8)
    ensures
        b == low_byte(c),
{
    let code: u32 = c as u32;
    (code % 0x100) as u8
}

/// Appends the low byte of each character of `s`.
pub fn extend_with_low_bytes(out: &mut Vec<u8>, s: &str)
    ensures
        final(out)@ == old(out)@ + chars_to_bytes(s@),
{
    broadcast use vstd::string::group_string_axioms;

    let ghost before = out@;
    let ghost mut taken: int = 0;
    let mut chars = s.chars();
    let mut done: bool = false;
    while !done
        invariant
            0 <= taken <= s@.len(),
            chars.obeys_prophetic_iter_laws(),
            chars.remaining() == s@.skip(taken),
            done ==> taken == s@.len(),
            out@ == before + chars_to_bytes(s@.take(taken)),
        decreases s@.len() - taken + (if done { 0int } else { 1int }),
    {
        match chars.next() {
            Some(c) => {
                out.push(char_low_byte(c));
                proof {
                    taken = taken + 1;
                }
                assert(chars.remaining() =~= s@.skip(taken));
                assert(out@ =~= before + chars_to_bytes(s@.take(taken)));
            },
            None => {
                done = true;
            },
        }
    }
    assert(s@.take(taken) =~= s@);
}

/// Appends the low byte of each of the first `limit` characters of `s`, or
/// of all its characters where it has fewer.
pub fn extend_with_first_low_bytes(out: &mut Vec<u8>, s: &str, limit: usize)
    ensures
        final(out)@ == old(out)@ + chars_to_bytes(first_chars(s@, limit as nat)),
{
    broadcast use vstd::string::group_string_axioms;

    let ghost before = out@;
    let mut chars = s.chars();
    let mut taken: usize = 0;
    let mut done: bool = false;
    while taken < limit && !done
        invariant
            taken <= limit,
            taken <= s@.len(),
            chars.obeys_prophetic_iter_laws(),
            chars.remaining() == s@.skip(taken as int),
            done ==> taken == s@.len(),
            out@ == before + chars_to_bytes(s@.take(taken as int)),
        decreases limit - taken + (if done { 0int } else { 1int }),
    {
        match chars.next() {
            Some(c) => {
                out.push(char_low_byte(c));
                taken = taken + 1;
                assert(chars.remaining() =~= s@.skip(taken as int));
                assert(out@ =~= before + chars_to_bytes(s@.take(taken as int)));
            },
            None => {
                done = true;
            },
        }
    }
    assert(s@.take(taken as int) =~= first_chars(s@, limit as nat));
}

/// The text that `bytes` stand for, one character per byte.
pub fn string_of_bytes(bytes: &[u8]) -> (s: String)
    ensures
        s@ == bytes_to_chars(bytes@),
{
    let mut s: String = String::new();
    let mut i: usize = 0;
    while i < bytes.len()
        invariant
            i <= bytes.len(),
            s@ == bytes_to_chars(bytes@.take(i as int)),
        decreases bytes.len() - i,
    {
        s.push(bytes[i] as char);
        i = i + 1;
        assert(s@ =~= bytes_to_chars(bytes@.take(i as int)));
    }
    assert(bytes@.take(bytes.len() as int) =~= bytes@);
    s
}

/// A character that fits in one byte is the character of its low byte.
pub proof fn lemma_single_byte_char_round_trip(c: char)
    requires
        c as u32 <= 0xff,
    ensures
        byte_char(low_byte(c)) == c,
{
}

/// Single-byte text survives the wire: its bytes read back as the same text.
pub proof fn lemma_single_byte_text_round_trip(s: Seq<char>)
    requires
        is_single_byte(s),
    ensures
        chars_to_bytes(s).len() == s.len(),
        bytes_to_chars(chars_to_bytes(s)) == s,
{
    assert forall|i: int| 0 <= i < s.len() implies byte_char(low_byte(s[i])) == s[i] by {
        lemma_single_byte_char_round_trip(s[i]);
    }
    assert(bytes_to_chars(chars_to_bytes(s)) =~= s);
}

/// Text read from bytes is single-byte text, and is written as those bytes.
pub proof fn lemma_bytes_text_round_trip(b: Seq<u8>)
    ensures
        is_single_byte(bytes_to_chars(b)),
        chars_to_bytes(bytes_to_chars(b)) == b,
{
    assert(chars_to_bytes(bytes_to_chars(b)) =~= b);
}

} // verus!
