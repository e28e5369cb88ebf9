//! Transaction identifiers: 128-bit UUIDs, held as the number they are and
//! written in the hyphenated lower-case form.

use vstd::prelude::*;

verus! {

/// The sixteen hexadecimal digits, lower case, each at the index of its value.
pub open spec fn hex_digits() -> Seq<char> {
    "0123456789abcdef"@
}

/// The `k`-th of the 32 hexadecimal digits of `id`, the most significant
/// being digit 0.
pub open spec fn uuid_digit(id: u128, k: int) -> char
    recommends
        0 <= k < 32,
{
    hex_digits()[((id >> ((4 * (31 - k)) as u128)) & 0xf) as int]
}

/// The four places of the 36 that hold a hyphen.
pub open spec fn is_hyphen_position(i: int) -> bool {
    i == 8 || i == 13 || i == 18 || i == 23
}

/// How many hyphens stand before place `i`.
pub open spec fn hyphens_before(i: int) -> int {
    if i < 8 {
        0
    } else if i < 13 {
        1
    } else if i < 18 {
        2
    } else if i < 23 {
        3
    } else {
        4
    }
}

/// The hyphenated text of a UUID: its 32 hexadecimal digits, lower case and
/// most significant first, in groups of 8, 4, 4, 4 and 12 with a hyphen
/// between groups.
pub open spec fn uuid_text(id: u128) -> Seq<char> {
    Seq::new(
        36,
        |i: int|
            if is_hyphen_position(i) {
                '-'
            } else {
                uuid_digit(id, i - hyphens_before(i))
            },
    )
}

/// A hexadecimal digit, lower case.
pub open spec fn is_hex_digit(c: char) -> bool {
    ('0' <= c && c <= '9') || ('a' <= c && c <= 'f')
}

/// The shape of a UUID's text: 36 characters, hyphens at places 8, 13, 18 and
/// 23, hexadecimal digits everywhere else.
pub open spec fn is_uuid_text(text: Seq<char>) -> bool {
    &&& text.len() == 36
    &&& forall|i: int|
        0 <= i < 36 ==> if is_hyphen_position(i) {
            #[trigger] text[i] == '-'
        } else {
            is_hex_digit(text[i])
        }
}

/// The bits that say which kind of UUID a value is.
pub const KIND_BITS: u128 = 0x0000_0000_0000_f000_c000_0000_0000_0000;

/// The kind bits of a random UUID: version 4, RFC variant.
pub const RANDOM_KIND: u128 = 0x0000_0000_0000_4000_8000_0000_0000_0000;

/// The value is marked as a random (version 4) UUID.
pub open spec fn is_random_uuid(id: u128) -> bool {
    id & KIND_BITS == RANDOM_KIND
}

/// A new random identifier, from `uuid::Uuid::new_v4` and `Uuid::as_u128`.
/// The claim is the one thing true of every outcome: the version and variant
/// bits are those of a version 4 UUID. The other 122 bits come from the
/// operating system's random source, and `new_v4` panics if that source
/// cannot be read.
#[verifier::external_body]
pub(crate) fn fresh_uuid() -> (id: u128)
    ensures
        is_random_uuid(id),
{
    uuid::Uuid::new_v4().as_u128()
}

/// The text of an identifier, from `uuid::Uuid::from_u128` and the `Display`
/// of `Uuid`. The claim is that `Display` writes the hyphenated lower-case
/// form of the sixteen bytes, most significant first.
#[verifier::external_body]
pub(crate) fn format_uuid(id: u128) -> (text: String)
    ensures
        text@ == uuid_text(id),
{
    uuid::Uuid::from_u128(id).to_string()
}

/// Every value below sixteen has a hexadecimal digit.
proof fn lemma_hex_digits(n: int)
    requires
        0 <= n < 16,
    ensures
        is_hex_digit(hex_digits()[n]),
{
    reveal_strlit("0123456789abcdef");
}

/// The text of every identifier has the shape of a UUID.
pub proof fn lemma_uuid_text_is_well_formed(id: u128)
    ensures
        is_uuid_text(uuid_text(id)),
{
    let text = uuid_text(id);
    assert forall|i: int| 0 <= i < 36 implies if is_hyphen_position(i) {
        #[trigger] text[i] == '-'
    } else {
        is_hex_digit(text[i])
    } by {
        if !is_hyphen_position(i) {
            let k: int = i - hyphens_before(i);
            let shift: u128 = (4 * (31 - k)) as u128;
            let digit: u128 = (id >> shift) & 0xf;
            assert(digit < 16) by (bit_vector)
                requires
                    digit == (id >> shift) & 0xf,
            ;
            lemma_hex_digits(digit as int);
        }
    }
}

} // verus!
