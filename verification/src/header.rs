//! Box headers and the streaming parser for them.
//!
//! A box header is 4 size bytes followed by a 4-byte type tag. A raw size
//! field of 1 announces an 8-byte extended size immediately after the tag,
//! so the header is 8 or 16 bytes long. Parsing a buffer yields one of
//! three outcomes: the header with the unconsumed remainder, a request for
//! more bytes, or a malformed-input verdict when the declared size is too
//! small to contain the header itself.

use crate::be::be32;
use crate::be::be32_bytes;
use crate::be::be64;
use crate::be::be64_bytes;
use crate::be::lemma_be32_roundtrip;
use crate::be::lemma_be64_roundtrip;
use crate::be::read_be32;
use crate::be::read_be64;
use crate::be::write_be32;
use crate::be::write_be64;
use vstd::prelude::*;

verus! {

/// A four-character code: the 4-byte type tag of a box, kept as raw bytes
/// (it need not be valid text).
#[derive(Debug, Clone, Copy, PartialEq, Eq)]
pub struct FourCc {
    pub bytes: [u8; 4],
}

impl View for FourCc {
    type V = Seq<u8>;

    open spec fn view(&self) -> Seq<u8> {
        self.bytes@
    }
}

/// One parsed box header: the resolved 64-bit total size of the box
/// (header included) and its type tag.
#[derive(Debug, Clone, Copy, PartialEq, Eq)]
pub struct MediaBox {
    pub size: u64,
    pub ty: FourCc,
}

/// The outcome of one parse call over a borrowed buffer.
#[derive(Debug, Clone, Copy, PartialEq, Eq)]
pub enum Outcome<'a> {
    /// A complete header was read; `consumed` is its length in bytes (8 or
    /// 16) and `remainder` is the rest of the buffer, shared, not copied.
    Parsed { header: MediaBox, consumed: usize, remainder: &'a [u8] },
    /// The buffer holds a valid prefix of a header; at least `needed` more
    /// bytes must arrive before a retry can finish the current field.
    Incomplete { needed: usize },
    /// The declared size is too small to contain the header itself; more
    /// bytes cannot fix this.
    Malformed,
}

/// The outcome of parsing, at the specification level: a function of the
/// buffer's bytes alone.
#[verifier::ext_equal]
pub enum SpecOutcome {
    Parsed { size: u64, tag: Seq<u8>, consumed: int },
    Incomplete { needed: int },
    Malformed,
}

/// What parsing the bytes `s` must yield.
///
/// The size field is read first, then the type tag, then, when the raw
/// size is the sentinel 1, the 8-byte extended size; running out of bytes
/// within the field being read gives `Incomplete` with the exact shortfall
/// of that field. A raw size of 2 to 7 cannot contain the 8-byte header it
/// heads and is `Malformed`; 0 ("extends to the end of the stream") is
/// handed to the caller unresolved.
pub open spec fn spec_parse(s: Seq<u8>) -> SpecOutcome {
    if s.len() < 4 {
        SpecOutcome::Incomplete { needed: 4 - s.len() }
    } else if s.len() < 8 {
        SpecOutcome::Incomplete { needed: 8 - s.len() }
    } else if be32(s.subrange(0, 4)) == 1 {
        if s.len() < 16 {
            SpecOutcome::Incomplete { needed: 16 - s.len() }
        } else {
            SpecOutcome::Parsed {
                size: be64(s.subrange(8, 16)),
                tag: s.subrange(4, 8),
                consumed: 16,
            }
        }
    } else if 2 <= be32(s.subrange(0, 4)) && be32(s.subrange(0, 4)) <= 7 {
        SpecOutcome::Malformed
    } else {
        SpecOutcome::Parsed {
            size: be32(s.subrange(0, 4)) as u64,
            tag: s.subrange(4, 8),
            consumed: 8,
        }
    }
}

/// `r` is exactly the outcome that `spec_parse` prescribes for the bytes
/// `s`, with the remainder being everything after the consumed header.
pub open spec fn outcome_matches<'a>(s: Seq<u8>, r: Outcome<'a>) -> bool {
    match r {
        Outcome::Parsed { header, consumed, remainder } => {
            &&& spec_parse(s) == (SpecOutcome::Parsed {
                size: header.size,
                tag: header.ty@,
                consumed: consumed as int,
            })
            &&& remainder@ == s.subrange(consumed as int, s.len() as int)
        },
        Outcome::Incomplete { needed } => spec_parse(s) == (SpecOutcome::Incomplete {
            needed: needed as int,
        }),
        Outcome::Malformed => spec_parse(s) == SpecOutcome::Malformed,
    }
}

impl MediaBox {
    /// Parses one box header from the front of `input`.
    ///
    /// Stateless and re-entrant: the outcome is a function of the bytes
    /// alone, so a caller may append newly arrived bytes and call again
    /// from the same position after an `Incomplete`.
    pub fn parse(input: &[u8]) -> (r: Outcome<'_>)
        ensures
            outcome_matches(input@, r),
    {
        let n = input.len();
        if n < 4 {
            return Outcome::Incomplete { needed: 4 - n };
        }
        if n < 8 {
            return Outcome::Incomplete { needed: 8 - n };
        }
        let raw = read_be32(input, 0);
        let ty = FourCc {
            bytes: [
                *vstd::slice::slice_index_get(input, 4),
                *vstd::slice::slice_index_get(input, 5),
                *vstd::slice::slice_index_get(input, 6),
                *vstd::slice::slice_index_get(input, 7),
            ],
        };
        proof {
            assert(ty@ =~= input@.subrange(4, 8));
        }
        if raw == 1 {
            if n < 16 {
                return Outcome::Incomplete { needed: 16 - n };
            }
            let size = read_be64(input, 8);
            let remainder = vstd::slice::slice_subrange(input, 16, n);
            Outcome::Parsed { header: MediaBox { size, ty }, consumed: 16, remainder }
        } else if raw >= 2 && raw <= 7 {
            Outcome::Malformed
        } else {
            let remainder = vstd::slice::slice_subrange(input, 8, n);
            Outcome::Parsed { header: MediaBox { size: raw as u64, ty }, consumed: 8, remainder }
        }
    }
}

/// Encodes an ordinary 8-byte header: the size field holds `size` itself.
pub fn encode_header(size: u32, ty: &FourCc) -> (r: Vec<u8>)
    ensures
        r@ == be32_bytes(size) + ty@,
        r@.len() == 8,
{
    let mut out: Vec<u8> = Vec::new();
    write_be32(&mut out, size);
    out.push(ty.bytes[0]);
    out.push(ty.bytes[1]);
    out.push(ty.bytes[2]);
    out.push(ty.bytes[3]);
    proof {
        assert(out@ =~= be32_bytes(size) + ty@);
    }
    out
}

/// Encodes a 16-byte extended-size header: the size field holds the
/// sentinel 1 and the true size follows the tag as 8 bytes.
pub fn encode_header_extended(size: u64, ty: &FourCc) -> (r: Vec<u8>)
    ensures
        r@ == be32_bytes(1) + ty@ + be64_bytes(size),
        r@.len() == 16,
{
    let mut out: Vec<u8> = Vec::new();
    write_be32(&mut out, 1);
    out.push(ty.bytes[0]);
    out.push(ty.bytes[1]);
    out.push(ty.bytes[2]);
    out.push(ty.bytes[3]);
    write_be64(&mut out, size);
    proof {
        assert(out@ =~= be32_bytes(1) + ty@ + be64_bytes(size));
    }
    out
}

/// A buffer of fewer than 8 bytes is always `Incomplete`, never `Parsed`
/// or `Malformed`, and asks exactly for the bytes the current field lacks.
pub proof fn lemma_short_input_incomplete(s: Seq<u8>)
    requires
        s.len() < 8,
    ensures
        spec_parse(s) is Incomplete,
        spec_parse(s)->needed == if s.len() < 4 {
            4 - s.len()
        } else {
            8 - s.len()
        },
{
}

/// A buffer that starts with 4 size bytes encoding the extended-size
/// sentinel 1 and holds fewer than 16 bytes in all is `Incomplete`.
pub proof fn lemma_extended_prefix_incomplete(s: Seq<u8>)
    requires
        s.len() >= 4,
        be32(s.subrange(0, 4)) == 1,
        s.len() < 16,
    ensures
        spec_parse(s) is Incomplete,
{
}

/// A complete 8-byte header whose raw size is 2 to 7 is `Malformed`: the
/// declared size cannot contain the header itself.
pub proof fn lemma_small_size_malformed(s: Seq<u8>)
    requires
        s.len() >= 8,
        2 <= be32(s.subrange(0, 4)),
        be32(s.subrange(0, 4)) <= 7,
    ensures
        spec_parse(s) is Malformed,
{
}

/// Round trip: an encoded ordinary header with size at least 8, followed
/// by any further bytes, parses back to that size and tag with 8 bytes
/// consumed.
pub proof fn lemma_round_trip(size: u32, tag: Seq<u8>, rest: Seq<u8>)
    requires
        8 <= size,
        tag.len() == 4,
    ensures
        spec_parse(be32_bytes(size) + tag + rest) == (SpecOutcome::Parsed {
            size: size as u64,
            tag: tag,
            consumed: 8,
        }),
{
    let s = be32_bytes(size) + tag + rest;
    lemma_be32_roundtrip(size);
    assert(s.subrange(0, 4) =~= be32_bytes(size));
    assert(s.subrange(4, 8) =~= tag);
}

/// Round trip with extended size: an encoded 16-byte header, followed by
/// any further bytes, parses back to the 64-bit size and the tag with 16
/// bytes consumed.
pub proof fn lemma_round_trip_extended(size: u64, tag: Seq<u8>, rest: Seq<u8>)
    requires
        tag.len() == 4,
    ensures
        spec_parse(be32_bytes(1) + tag + be64_bytes(size) + rest) == (SpecOutcome::Parsed {
            size: size,
            tag: tag,
            consumed: 16,
        }),
{
    let s = be32_bytes(1) + tag + be64_bytes(size) + rest;
    lemma_be32_roundtrip(1);
    lemma_be64_roundtrip(size);
    assert(s.subrange(0, 4) =~= be32_bytes(1));
    assert(s.subrange(4, 8) =~= tag);
    assert(s.subrange(8, 16) =~= be64_bytes(size));
}

/// Outcomes agree in everything observable: the variant, the header's
/// size and tag bytes, the consumed count, and the remaining bytes.
pub open spec fn outcome_eq<'a, 'b>(a: Outcome<'a>, b: Outcome<'b>) -> bool {
    match (a, b) {
        (
            Outcome::Parsed { header: h1, consumed: c1, remainder: m1 },
            Outcome::Parsed { header: h2, consumed: c2, remainder: m2 },
        ) => h1.size == h2.size && h1.ty@ == h2.ty@ && c1 == c2 && m1@ == m2@,
        (Outcome::Incomplete { needed: n1 }, Outcome::Incomplete { needed: n2 }) => n1 == n2,
        (Outcome::Malformed, Outcome::Malformed) => true,
        _ => false,
    }
}

/// Parsing is deterministic, so repeated calls on the same untouched
/// buffer agree: any two outcomes that the parser's contract allows for
/// the same bytes are equal in everything observable.
pub proof fn lemma_parse_deterministic<'a, 'b>(s: Seq<u8>, r1: Outcome<'a>, r2: Outcome<'b>)
    requires
        outcome_matches(s, r1),
        outcome_matches(s, r2),
    ensures
        outcome_eq(r1, r2),
{
}

} // verus!
