//! Twelve-byte document identifiers and their 24-character hex text.

use vstd::prelude::*;
use vstd::string::StrSliceExecFns;
use vstd::string::StringExecFns;

verus! {

pub open spec fn is_hex_char(c: char) -> bool {
    ('0' <= c && c <= '9') || ('a' <= c && c <= 'f') || ('A' <= c && c <= 'F')
}

pub open spec fn hex_value(c: char) -> int {
    if '0' <= c && c <= '9' {
        c as int - '0' as int
    } else if 'a' <= c && c <= 'f' {
        c as int - 'a' as int + 10
    } else {
        c as int - 'A' as int + 10
    }
}

/// Text that names an identifier: exactly 24 hex digits, either case.
pub open spec fn is_object_id_text(s: Seq<char>) -> bool {
    s.len() == 24 && forall|i: int| 0 <= i < 24 ==> is_hex_char(#[trigger] s[i])
}

/// The twelve bytes written by 24 hex digits, two digits per byte, high nibble first.
pub open spec fn object_id_bytes(s: Seq<char>) -> Seq<u8> {
    Seq::new(12, |i: int| (hex_value(s[2 * i]) * 16 + hex_value(s[2 * i + 1])) as u8)
}

/// Lower-case hex digit for a nibble.
pub open spec fn hex_lower(d: int) -> char {
    if d < 10 {
        ((('0' as int) + d) as char)
    } else {
        ((('a' as int) + d - 10) as char)
    }
}

/// Lower-case hex text of a byte string, two digits per byte, high nibble first.
pub open spec fn hex_text(b: Seq<u8>) -> Seq<char> {
    Seq::new(
        2 * b.len(),
        |i: int|
            if i % 2 == 0 {
                hex_lower(b[i / 2] as int / 16)
            } else {
                hex_lower(b[i / 2] as int % 16)
            },
    )
}

/// Identifier of a stored document.
#[derive(Debug, Clone, Copy, PartialEq, Eq, Hash)]
pub struct ObjectId {
    pub bytes: [u8; 12],
}

/// Calls `bson::oid::ObjectId::parse_str`, which hex-decodes the text (both
/// letter cases) and accepts it only when it yields exactly twelve bytes.
#[verifier::external_body]
fn bson_parse_object_id(s: &str) -> (r: Option<[u8; 12]>)
    ensures
        r is Some <==> is_object_id_text(s@),
        r matches Some(b) ==> b@ == object_id_bytes(s@),
{
    bson::oid::ObjectId::parse_str(s).ok().map(|o| o.bytes())
}

/// Calls `bson::oid::ObjectId::to_hex`, which hex-encodes the twelve bytes in lower case.
#[verifier::external_body]
fn bson_object_id_to_hex(b: [u8; 12]) -> (r: String)
    ensures
        r@ == hex_text(b@),
{
    bson::oid::ObjectId::from_bytes(b).to_hex()
}

impl ObjectId {
    /// The identifier written in `s`, when `s` is 24 hex digits.
    pub fn parse_str(s: &str) -> (r: Option<ObjectId>)
        ensures
            r is Some <==> is_object_id_text(s@),
            r matches Some(id) ==> id.bytes@ == object_id_bytes(s@),
    {
        match bson_parse_object_id(s) {
            Some(b) => Some(ObjectId { bytes: b }),
            None => None,
        }
    }

    /// The 24-character lower-case hex text of the identifier.
    pub fn to_hex(&self) -> (r: String)
        ensures
            r@ == hex_text(self.bytes@),
    {
        bson_object_id_to_hex(self.bytes)
    }

    /// Whether two identifiers are the same.
    pub fn same_as(&self, other: &ObjectId) -> (r: bool)
        ensures
            r == (self.bytes@ == other.bytes@),
    {
        let mut i: usize = 0;
        while i < 12
            invariant
                i <= 12,
                forall|j: int| 0 <= j < i ==> self.bytes@[j] == other.bytes@[j],
            decreases 12 - i,
        {
            if self.bytes[i] != other.bytes[i] {
                return false;
            }
            i = i + 1;
        }
        assert(self.bytes@ =~= other.bytes@);
        true
    }
}

proof fn lemma_hex_lower(d: int)
    requires
        0 <= d < 16,
    ensures
        is_hex_char(hex_lower(d)),
        hex_value(hex_lower(d)) == d,
{
}

/// Reading back the hex text of an identifier gives the same identifier.
pub proof fn lemma_object_id_hex_roundtrip(b: Seq<u8>)
    requires
        b.len() == 12,
    ensures
        is_object_id_text(hex_text(b)),
        object_id_bytes(hex_text(b)) == b,
{
    let t = hex_text(b);
    assert forall|i: int| 0 <= i < 24 implies is_hex_char(#[trigger] t[i]) by {
        if i % 2 == 0 {
            lemma_hex_lower(b[i / 2] as int / 16);
        } else {
            lemma_hex_lower(b[i / 2] as int % 16);
        }
    }
    assert forall|i: int| 0 <= i < 12 implies #[trigger] object_id_bytes(t)[i] == b[i] by {
        lemma_hex_lower(b[i] as int / 16);
        lemma_hex_lower(b[i] as int % 16);
        assert((2 * i) / 2 == i);
        assert((2 * i + 1) / 2 == i);
        assert((2 * i) % 2 == 0);
        assert((2 * i + 1) % 2 == 1);
        assert(t[2 * i] == hex_lower(b[i] as int / 16));
        assert(t[2 * i + 1] == hex_lower(b[i] as int % 16));
    }
    assert(object_id_bytes(t) =~= b);
}

/// Parsing a hex text that names an identifier and writing it back gives the
/// text in lower case: the hex of the parsed bytes is again a valid name.
pub proof fn lemma_object_id_parse_then_hex(s: Seq<char>)
    requires
        is_object_id_text(s),
    ensures
        is_object_id_text(hex_text(object_id_bytes(s))),
        object_id_bytes(hex_text(object_id_bytes(s))) == object_id_bytes(s),
{
    lemma_object_id_hex_roundtrip(object_id_bytes(s));
}

} // verus!
