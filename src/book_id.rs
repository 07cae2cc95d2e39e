//! Book identifiers: twelve bytes, written as twenty-four hexadecimal digits.

use vstd::prelude::*;

verus! {

/// The number of bytes in an identifier.
pub const ID_BYTES: usize = 12;

/// Whether `c` is a hexadecimal digit, in either case.
pub open spec fn is_hex_digit(c: char) -> bool {
    ('0' <= c && c <= '9') || ('a' <= c && c <= 'f') || ('A' <= c && c <= 'F')
}

/// The value of the hexadecimal digit `c`.
pub open spec fn hex_value(c: char) -> int {
    if '0' <= c && c <= '9' {
        c as int - '0' as int
    } else if 'a' <= c && c <= 'f' {
        c as int - 'a' as int + 10
    } else {
        c as int - 'A' as int + 10
    }
}

/// The lower-case hexadecimal digit of `v`, for `0 <= v < 16`.
pub open spec fn lower_hex_digit(v: int) -> char {
    if v < 10 {
        (v + '0' as int) as char
    } else {
        (v - 10 + 'a' as int) as char
    }
}

/// Whether `s` is the text of an identifier: exactly twenty-four hexadecimal digits.
pub open spec fn is_id_text(s: Seq<char>) -> bool {
    s.len() == 2 * ID_BYTES && forall|i: int| 0 <= i < s.len() ==> #[trigger] is_hex_digit(s[i])
}

/// The bytes that an identifier text stands for: each pair of digits, high digit first, is one byte.
pub open spec fn id_bytes_of_text(s: Seq<char>) -> Seq<u8> {
    Seq::new(
        (s.len() / 2) as nat,
        |i: int| (hex_value(s[2 * i]) * 16 + hex_value(s[2 * i + 1])) as u8,
    )
}

/// The text of the bytes `b`: two lower-case hexadecimal digits for each byte, high digit first.
pub open spec fn id_text_of_bytes(b: Seq<u8>) -> Seq<char> {
    Seq::new(
        2 * b.len(),
        |i: int|
            if i % 2 == 0 {
                lower_hex_digit(b[i / 2] as int / 16)
            } else {
                lower_hex_digit(b[i / 2] as int % 16)
            },
    )
}

/// Each digit written for a value below sixteen is a hexadecimal digit that reads back as that value.
proof fn lemma_lower_hex_digit(v: int)
    requires
        0 <= v < 16,
    ensures
        is_hex_digit(lower_hex_digit(v)),
        hex_value(lower_hex_digit(v)) == v,
{
}

/// The text of any identifier is well-formed identifier text, and reading it
/// gives back the same bytes: the key a book is stored under is the key it is
/// found by.
pub proof fn lemma_id_text_round_trip(b: Seq<u8>)
    requires
        b.len() == ID_BYTES,
    ensures
        is_id_text(id_text_of_bytes(b)),
        id_bytes_of_text(id_text_of_bytes(b)) == b,
{
    let t = id_text_of_bytes(b);
    assert forall|i: int| 0 <= i < t.len() implies #[trigger] is_hex_digit(t[i]) by {
        lemma_lower_hex_digit(b[i / 2] as int / 16);
        lemma_lower_hex_digit(b[i / 2] as int % 16);
    }
    assert forall|i: int| 0 <= i < b.len() implies #[trigger] id_bytes_of_text(t)[i] == b[i] by {
        let hi = b[i] as int / 16;
        let lo = b[i] as int % 16;
        lemma_lower_hex_digit(hi);
        lemma_lower_hex_digit(lo);
        assert(t[2 * i] == lower_hex_digit(hi));
        assert(t[2 * i + 1] == lower_hex_digit(lo));
    }
    assert(id_bytes_of_text(t) =~= b);
}

/// Relies on bson's `ObjectId::parse_str`, which hands the text to `hex::decode`
/// (digits of either case, an even count) and accepts exactly twelve decoded bytes.
#[verifier::external_body]
fn parse_object_id(s: &str) -> (r: Option<[u8; 12]>)
    ensures
        r.is_some() <==> is_id_text(s@),
        r matches Some(b) ==> b@ == id_bytes_of_text(s@),
{
    match mongodb::bson::oid::ObjectId::parse_str(s) {
        Ok(oid) => Some(oid.bytes()),
        Err(_) => None,
    }
}

/// Relies on bson's `ObjectId::to_hex`, which is `hex::encode` of the twelve bytes:
/// two lower-case digits per byte.
#[verifier::external_body]
fn object_id_hex(b: [u8; 12]) -> (r: String)
    ensures
        r@ == id_text_of_bytes(b@),
{
    mongodb::bson::oid::ObjectId::from_bytes(b).to_hex()
}

/// Relies on bson's `ObjectId::new`, which draws on the clock, a per-process
/// random value and a counter: nothing is promised of the bytes it gives.
#[verifier::external_body]
fn new_object_id() -> (r: [u8; 12]) {
    mongodb::bson::oid::ObjectId::new().bytes()
}

/// The identifier of a stored book.
#[derive(Clone, Copy, Debug)]
pub struct BookId {
    pub bytes: [u8; 12],
}

impl View for BookId {
    type V = Seq<u8>;

    open spec fn view(&self) -> Seq<u8> {
        self.bytes@
    }
}

impl BookId {
    /// Reads an identifier from its text; `None` where the text is not
    /// twenty-four hexadecimal digits.
    pub fn parse(s: &str) -> (r: Option<BookId>)
        ensures
            r.is_some() <==> is_id_text(s@),
            r matches Some(id) ==> id@ == id_bytes_of_text(s@),
    {
        match parse_object_id(s) {
            Some(bytes) => Some(BookId { bytes }),
            None => None,
        }
    }

    /// The text of this identifier, in lower-case hexadecimal digits.
    pub fn to_text(&self) -> (r: String)
        ensures
            r@ == id_text_of_bytes(self@),
    {
        object_id_hex(self.bytes)
    }

    /// A new identifier from the store's identifier generator.
    pub fn generate() -> (r: BookId) {
        BookId { bytes: new_object_id() }
    }

    /// Whether the two identifiers hold the same bytes.
    pub fn same_as(&self, other: &BookId) -> (r: bool)
        ensures
            r == (self@ == other@),
    {
        let mut i: usize = 0;
        while i < ID_BYTES
            invariant
                0 <= i <= ID_BYTES,
                self@.len() == ID_BYTES,
                other@.len() == ID_BYTES,
                forall|j: int| 0 <= j < i ==> self@[j] == other@[j],
            decreases ID_BYTES - i,
        {
            if self.bytes[i] != other.bytes[i] {
                return false;
            }
            i = i + 1;
        }
        assert(self@ =~= other@);
        true
    }
}

} // verus!
