//! Random (version 4) UUID generation.

use core::marker::PhantomData;

use vstd::prelude::*;

use super::UidGenerator;

verus! {

#[verifier::external_type_specification]
#[verifier::external_body]
pub struct ExUuid(uuid::Uuid);

/// `c` is a lowercase hexadecimal digit.
pub open spec fn is_lower_hex_digit(c: char) -> bool {
    ('0' <= c && c <= '9') || ('a' <= c && c <= 'f')
}

/// The lowercase hexadecimal digit of a value below sixteen.
pub open spec fn hex_digit(n: u128) -> char {
    if n < 10 {
        (('0' as int) + n) as char
    } else {
        (('a' as int) + n - 10) as char
    }
}

/// `p` is one of the positions 8, 13, 18 and 23 that hold the hyphens of a UUID's text.
pub open spec fn is_hyphen_position(p: int) -> bool {
    p == 8 || p == 13 || p == 18 || p == 23
}

/// Which of the 32 hexadecimal digits stands at position `p` of a UUID's text.
pub open spec fn digit_at(p: int) -> int {
    if p < 8 {
        p
    } else if p < 13 {
        p - 1
    } else if p < 18 {
        p - 2
    } else if p < 23 {
        p - 3
    } else {
        p - 4
    }
}

/// The hyphenated lowercase text of the UUID whose 128 bits, read big-endian, are `bits`:
/// 36 characters, hyphens at positions 8, 13, 18 and 23, and the 32 hexadecimal digits of
/// `bits`, most significant first, elsewhere.
pub open spec fn hyphenated_uuid_text(bits: u128) -> Seq<char> {
    Seq::new(
        36,
        |p: int|
            if is_hyphen_position(p) {
                '-'
            } else {
                hex_digit((bits >> ((124 - 4 * digit_at(p)) as u128)) & 0xF)
            },
    )
}

/// The bits carry the marks of a random (version 4, RFC 4122 variant) UUID: version nibble
/// four and variant bits `10`.
pub open spec fn is_v4_bits(bits: u128) -> bool {
    &&& (bits >> 76u128) & 0xF == 4
    &&& (bits >> 62u128) & 0x3 == 2
}

/// The text of a random UUID: hyphens at positions 8, 13, 18 and 23, lowercase hexadecimal
/// digits elsewhere, `4` at position 14 and one of `8`, `9`, `a`, `b` at position 19.
pub open spec fn is_v4_uuid_text(s: Seq<char>) -> bool {
    &&& s.len() == 36
    &&& forall|p: int|
        0 <= p < 36 ==> if is_hyphen_position(p) {
            s[p] == '-'
        } else {
            is_lower_hex_digit(#[trigger] s[p])
        }
    &&& s[14] == '4'
    &&& (s[19] == '8' || s[19] == '9' || s[19] == 'a' || s[19] == 'b')
}

/// Law: the text of a random UUID has the hyphenated form, and shows its version and variant.
pub proof fn lemma_v4_text(bits: u128)
    requires
        is_v4_bits(bits),
    ensures
        is_v4_uuid_text(hyphenated_uuid_text(bits)),
{
    let s = hyphenated_uuid_text(bits);
    assert forall|p: int| 0 <= p < 36 && !is_hyphen_position(p) implies is_lower_hex_digit(
        #[trigger] s[p],
    ) by {
        let k = (124 - 4 * digit_at(p)) as u128;
        let n = (bits >> k) & 0xF;
        assert(n < 16) by (bit_vector)
            requires n == (bits >> k) & 0xF;
    }
    let v = (bits >> 76u128) & 0xF;
    assert(s[14] == hex_digit(v));
    let w = (bits >> 60u128) & 0xF;
    assert(8 <= w < 12) by (bit_vector)
        requires
            w == (bits >> 60u128) & 0xF,
            (bits >> 62u128) & 0x3 == 2,
    ;
    assert(s[19] == hex_digit(w));
}

/// `uuid::Uuid::new_v4` read as its 128 bits (`Uuid::as_u128`, big-endian): a random UUID whose
/// version and variant bits are set as for version 4. Apart from those marks the bits are
/// random, so nothing more is stated.
#[verifier::external_body]
pub(crate) fn new_uuid_v4_bits() -> (r: u128)
    ensures
        is_v4_bits(r),
{
    uuid::Uuid::new_v4().as_u128()
}

/// The UUID whose bits, read big-endian, are `bits`, as `uuid::Uuid::from_u128` builds it: a
/// function of the bits alone.
pub uninterp spec fn uuid_of_bits(bits: u128) -> uuid::Uuid;

/// `uuid::Uuid::from_u128`: the UUID whose bits, read big-endian, are `bits`.
#[verifier::external_body]
pub(crate) fn uuid_from_bits(bits: u128) -> (r: uuid::Uuid)
    ensures
        r == uuid_of_bits(bits),
{
    uuid::Uuid::from_u128(bits)
}

/// `uuid::Uuid::to_string` (its `Display`) of the UUID with the given bits: the hyphenated
/// lowercase hexadecimal text.
#[verifier::external_body]
pub(crate) fn uuid_text(bits: u128) -> (r: String)
    ensures
        r@ == hyphenated_uuid_text(bits),
{
    uuid::Uuid::from_u128(bits).to_string()
}

/// A fresh random UUID as text.
pub fn new_uuid_v4_text() -> (r: String)
    ensures
        exists|bits: u128| is_v4_bits(bits) && r@ == hyphenated_uuid_text(bits),
        is_v4_uuid_text(r@),
{
    let bits = new_uuid_v4_bits();
    proof {
        lemma_v4_text(bits);
    }
    uuid_text(bits)
}

/// UUID V4 generator.
#[derive(Debug)]
pub struct UuidGenerator {
    _guard: PhantomData<i32>,
}

impl UuidGenerator {
    pub fn new() -> (r: Self) {
        UuidGenerator::default()
    }
}

impl Default for UuidGenerator {
    fn default() -> (r: Self) {
        Self { _guard: PhantomData }
    }
}

impl Clone for UuidGenerator {
    fn clone(&self) -> (r: Self) {
        Self { _guard: PhantomData }
    }
}

impl UidGenerator for UuidGenerator {
    type Item = uuid::Uuid;

    type Error = ();

    /// Generates a random version 4 UUID; it never fails.
    fn next(&mut self) -> (r: Result<uuid::Uuid, ()>)
        ensures
            exists|bits: u128| is_v4_bits(bits) && r == Ok::<uuid::Uuid, ()>(uuid_of_bits(bits)),
    {
        let bits = new_uuid_v4_bits();
        let u = uuid_from_bits(bits);
        Ok(u)
    }
}

} // verus!
