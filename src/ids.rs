//! Record identifiers: 128-bit values written in the canonical hyphenated,
//! lowercase hexadecimal text form.

use vstd::prelude::*;

verus! {

/// The lowercase hexadecimal digit for a value below sixteen.
pub open spec fn hex_digit(d: int) -> char {
    if d == 0 { '0' } else if d == 1 { '1' } else if d == 2 { '2' } else if d == 3 { '3' }
    else if d == 4 { '4' } else if d == 5 { '5' } else if d == 6 { '6' } else if d == 7 { '7' }
    else if d == 8 { '8' } else if d == 9 { '9' } else if d == 10 { 'a' } else if d == 11 { 'b' }
    else if d == 12 { 'c' } else if d == 13 { 'd' } else if d == 14 { 'e' } else { 'f' }
}

/// The `i`-th four-bit group of `v`, counted from the most significant end.
pub open spec fn nibble(v: u128, i: int) -> int {
    ((v >> ((124 - 4 * i) as u128)) & 15u128) as int
}

/// Which digit of the value stands at position `j` of the 36-character text.
pub open spec fn digit_at(j: int) -> int {
    if j < 8 { j } else if j < 13 { j - 1 } else if j < 18 { j - 2 } else if j < 23 { j - 3 } else { j - 4 }
}

pub open spec fn is_hyphen_position(j: int) -> bool {
    j == 8 || j == 13 || j == 18 || j == 23
}

/// The canonical text of an identifier: 32 lowercase hexadecimal digits, most
/// significant first, in groups of 8-4-4-4-12 separated by hyphens.
pub open spec fn uuid_text(v: u128) -> Seq<char> {
    Seq::new(36, |j: int| if is_hyphen_position(j) { '-' } else { hex_digit(nibble(v, digit_at(j))) })
}

/// What the identifier parser gives for a text that is not in canonical form.
pub uninterp spec fn parsed_uuid(s: Seq<char>) -> Option<u128>;

/// What reading a text as an identifier gives: a canonical text gives back the
/// value it was written from; any other text is left to the parser.
pub open spec fn uuid_of_text(s: Seq<char>) -> Option<u128> {
    if exists|v: u128| uuid_text(v) == s {
        Some(choose|v: u128| uuid_text(v) == s)
    } else {
        parsed_uuid(s)
    }
}

/// Relies on uuid::Uuid::parse_str, which reads the hyphenated form (among
/// others) and fails on malformed text; the error's message is handed on.
#[verifier::external_body]
fn parse_uuid_text(s: &str) -> (r: Result<u128, String>)
    ensures
        (exists|w: u128| uuid_text(w) == s@) ==> (r is Ok && uuid_text(r->Ok_0) == s@),
        !(exists|w: u128| uuid_text(w) == s@) ==> match r {
            Ok(v) => parsed_uuid(s@) == Some(v),
            Err(_) => parsed_uuid(s@) is None,
        },
{
    match uuid::Uuid::parse_str(s) {
        Ok(u) => Ok(u.as_u128()),
        Err(e) => Err(e.to_string()),
    }
}

/// Relies on uuid::Uuid's `Display`, which writes the hyphenated lowercase form
/// of the value's big-endian bytes.
#[verifier::external_body]
fn uuid_to_text(v: u128) -> (r: String)
    ensures
        r@ == uuid_text(v),
{
    uuid::Uuid::from_u128(v).to_string()
}

/// Whether a value carries the version-4 bits (0100) and the RFC 4122 variant
/// bits (10) of a random identifier.
pub open spec fn is_random_v4(v: u128) -> bool {
    (v >> 76u128) & 0xfu128 == 4 && (v >> 62u128) & 3u128 == 2
}

/// Relies on uuid::Uuid::new_v4 for a random version-4 identifier: whatever
/// the random bits, it sets the version and variant bits.
#[verifier::external_body]
fn random_uuid() -> (r: u128)
    ensures
        (r >> 76u128) & 0xfu128 == 4,
        (r >> 62u128) & 3u128 == 2,
{
    uuid::Uuid::new_v4().as_u128()
}

proof fn lemma_hex_digit_injective(a: int, b: int)
    requires
        0 <= a < 16,
        0 <= b < 16,
        hex_digit(a) == hex_digit(b),
    ensures
        a == b,
{
}

proof fn lemma_nibble_range(v: u128, i: int)
    requires
        0 <= i < 32,
    ensures
        0 <= nibble(v, i) < 16,
{
    let k = (124 - 4 * i) as u128;
    assert((v >> k) & 15u128 <= 15u128) by (bit_vector);
}

proof fn lemma_nibbles_determine_value(v: u128, w: u128)
    requires
        forall|i: int| 0 <= i < 32 ==> nibble(v, i) == nibble(w, i),
    ensures
        v == w,
{
    assert(nibble(v, 0) == nibble(w, 0));
    assert(nibble(v, 1) == nibble(w, 1));
    assert(nibble(v, 2) == nibble(w, 2));
    assert(nibble(v, 3) == nibble(w, 3));
    assert(nibble(v, 4) == nibble(w, 4));
    assert(nibble(v, 5) == nibble(w, 5));
    assert(nibble(v, 6) == nibble(w, 6));
    assert(nibble(v, 7) == nibble(w, 7));
    assert(nibble(v, 8) == nibble(w, 8));
    assert(nibble(v, 9) == nibble(w, 9));
    assert(nibble(v, 10) == nibble(w, 10));
    assert(nibble(v, 11) == nibble(w, 11));
    assert(nibble(v, 12) == nibble(w, 12));
    assert(nibble(v, 13) == nibble(w, 13));
    assert(nibble(v, 14) == nibble(w, 14));
    assert(nibble(v, 15) == nibble(w, 15));
    assert(nibble(v, 16) == nibble(w, 16));
    assert(nibble(v, 17) == nibble(w, 17));
    assert(nibble(v, 18) == nibble(w, 18));
    assert(nibble(v, 19) == nibble(w, 19));
    assert(nibble(v, 20) == nibble(w, 20));
    assert(nibble(v, 21) == nibble(w, 21));
    assert(nibble(v, 22) == nibble(w, 22));
    assert(nibble(v, 23) == nibble(w, 23));
    assert(nibble(v, 24) == nibble(w, 24));
    assert(nibble(v, 25) == nibble(w, 25));
    assert(nibble(v, 26) == nibble(w, 26));
    assert(nibble(v, 27) == nibble(w, 27));
    assert(nibble(v, 28) == nibble(w, 28));
    assert(nibble(v, 29) == nibble(w, 29));
    assert(nibble(v, 30) == nibble(w, 30));
    assert(nibble(v, 31) == nibble(w, 31));
    assert(v == w) by (bit_vector)
        requires
            (v >> 124u128) & 15u128 == (w >> 124u128) & 15u128,
            (v >> 120u128) & 15u128 == (w >> 120u128) & 15u128,
            (v >> 116u128) & 15u128 == (w >> 116u128) & 15u128,
            (v >> 112u128) & 15u128 == (w >> 112u128) & 15u128,
            (v >> 108u128) & 15u128 == (w >> 108u128) & 15u128,
            (v >> 104u128) & 15u128 == (w >> 104u128) & 15u128,
            (v >> 100u128) & 15u128 == (w >> 100u128) & 15u128,
            (v >> 96u128) & 15u128 == (w >> 96u128) & 15u128,
            (v >> 92u128) & 15u128 == (w >> 92u128) & 15u128,
            (v >> 88u128) & 15u128 == (w >> 88u128) & 15u128,
            (v >> 84u128) & 15u128 == (w >> 84u128) & 15u128,
            (v >> 80u128) & 15u128 == (w >> 80u128) & 15u128,
            (v >> 76u128) & 15u128 == (w >> 76u128) & 15u128,
            (v >> 72u128) & 15u128 == (w >> 72u128) & 15u128,
            (v >> 68u128) & 15u128 == (w >> 68u128) & 15u128,
            (v >> 64u128) & 15u128 == (w >> 64u128) & 15u128,
            (v >> 60u128) & 15u128 == (w >> 60u128) & 15u128,
            (v >> 56u128) & 15u128 == (w >> 56u128) & 15u128,
            (v >> 52u128) & 15u128 == (w >> 52u128) & 15u128,
            (v >> 48u128) & 15u128 == (w >> 48u128) & 15u128,
            (v >> 44u128) & 15u128 == (w >> 44u128) & 15u128,
            (v >> 40u128) & 15u128 == (w >> 40u128) & 15u128,
            (v >> 36u128) & 15u128 == (w >> 36u128) & 15u128,
            (v >> 32u128) & 15u128 == (w >> 32u128) & 15u128,
            (v >> 28u128) & 15u128 == (w >> 28u128) & 15u128,
            (v >> 24u128) & 15u128 == (w >> 24u128) & 15u128,
            (v >> 20u128) & 15u128 == (w >> 20u128) & 15u128,
            (v >> 16u128) & 15u128 == (w >> 16u128) & 15u128,
            (v >> 12u128) & 15u128 == (w >> 12u128) & 15u128,
            (v >> 8u128) & 15u128 == (w >> 8u128) & 15u128,
            (v >> 4u128) & 15u128 == (w >> 4u128) & 15u128,
            (v >> 0u128) & 15u128 == (w >> 0u128) & 15u128,
    ;
}

/// Distinct identifiers have distinct canonical texts.
pub proof fn lemma_uuid_text_injective(v: u128, w: u128)
    requires
        uuid_text(v) == uuid_text(w),
    ensures
        v == w,
{
    assert forall|i: int| 0 <= i < 32 implies nibble(v, i) == nibble(w, i) by {
        let j = if i < 8 { i } else if i < 12 { i + 1 } else if i < 16 { i + 2 } else if i < 20 { i + 3 } else { i + 4 };
        assert(digit_at(j) == i && !is_hyphen_position(j));
        assert(uuid_text(v)[j] == hex_digit(nibble(v, i)));
        assert(uuid_text(w)[j] == hex_digit(nibble(w, i)));
        lemma_nibble_range(v, i);
        lemma_nibble_range(w, i);
        lemma_hex_digit_injective(nibble(v, i), nibble(w, i));
    }
    lemma_nibbles_determine_value(v, w);
}

/// Reading the canonical text of an identifier gives back that identifier.
pub proof fn lemma_uuid_text_round_trip(v: u128)
    ensures
        uuid_of_text(uuid_text(v)) == Some(v),
{
    assert(exists|w: u128| uuid_text(w) == uuid_text(v));
    let c = choose|w: u128| uuid_text(w) == uuid_text(v);
    lemma_uuid_text_injective(c, v);
}

/// A 128-bit record identifier.
#[derive(Clone, Copy, Debug, PartialEq, Eq, Hash, Structural)]
pub struct Uuid {
    pub value: u128,
}

impl Uuid {
    /// A fresh random (version 4) identifier; never the nil identifier.
    pub fn new_v4() -> (r: Uuid)
        ensures
            is_random_v4(r.value),
            r.value != 0,
    {
        let v = random_uuid();
        assert(v != 0) by (bit_vector)
            requires
                (v >> 76u128) & 0xfu128 == 4,
        ;
        Uuid { value: v }
    }

    /// The identifier whose bits are all zero.
    pub fn nil() -> (r: Uuid)
        ensures
            r.value == 0,
    {
        Uuid { value: 0 }
    }

    pub fn from_u128(value: u128) -> (r: Uuid)
        ensures
            r.value == value,
    {
        Uuid { value }
    }

    pub fn as_u128(&self) -> (r: u128)
        ensures
            r == self.value,
    {
        self.value
    }

    /// The canonical hyphenated lowercase text of the identifier.
    pub fn to_text(&self) -> (r: String)
        ensures
            r@ == uuid_text(self.value),
    {
        uuid_to_text(self.value)
    }

    /// Reads an identifier from text; the error carries the parser's message.
    pub fn parse_str(s: &str) -> (r: Result<Uuid, String>)
        ensures
            match r {
                Ok(u) => uuid_of_text(s@) == Some(u.value),
                Err(_) => uuid_of_text(s@).is_none(),
            },
    {
        let r = parse_uuid_text(s);
        proof {
            if let Ok(v) = r {
                if exists|w: u128| uuid_text(w) == s@ {
                    lemma_uuid_text_round_trip(v);
                }
            }
        }
        match r {
            Ok(v) => Ok(Uuid { value: v }),
            Err(e) => Err(e),
        }
    }
}

} // verus!
