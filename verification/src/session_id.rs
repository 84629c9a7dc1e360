//! Session identifiers: UUIDs as 128-bit numbers, and their text form.

use vstd::prelude::*;

verus! {

/// The lower-case hexadecimal digit of a value below 16.
pub open spec fn hex_digit(n: int) -> char {
    if n < 10 {
        ('0' as int + n) as char
    } else {
        ('a' as int + n - 10) as char
    }
}

/// The `k`-th of the 32 hexadecimal digits of `id`, the most significant first.
pub open spec fn id_digit(id: u128, k: int) -> char {
    hex_digit(((id >> ((4 * (31 - k)) as u128)) & 0xf) as int)
}

/// The hyphenated text of an identifier: its digits in groups of 8, 4, 4, 4
/// and 12.
pub open spec fn id_text(id: u128) -> Seq<char> {
    Seq::new(
        36,
        |i: int|
            if i < 8 {
                id_digit(id, i)
            } else if i == 8 || i == 13 || i == 18 || i == 23 {
                '-'
            } else if i < 13 {
                id_digit(id, i - 1)
            } else if i < 18 {
                id_digit(id, i - 2)
            } else if i < 23 {
                id_digit(id, i - 3)
            } else {
                id_digit(id, i - 4)
            },
    )
}

/// Whether `id` has the version and variant bits of a random UUID.
pub open spec fn random_id(id: u128) -> bool {
    id & 0xf000_c000_0000_0000_0000u128 == 0x4000_8000_0000_0000_0000u128
}

/// What `Uuid::parse_str` of `uuid` reads from a text, as a number, or the words of the
/// error that it reports.
pub uninterp spec fn named_id(text: Seq<char>) -> Result<u128, Seq<char>>;

/// `Uuid::new_v4` of `uuid`: a number with the version and variant bits of a
/// random UUID. Nothing is said of the other bits, which are random.
#[verifier::external_body]
fn new_uuid_v4() -> (r: u128)
    ensures
        random_id(r),
{
    uuid::Uuid::new_v4().as_u128()
}

/// `Uuid`'s `Display` of `uuid`: the lower-case hyphenated text, which
/// `Uuid::parse_str` reads back as the same UUID.
#[verifier::external_body]
fn format_uuid(id: u128) -> (r: String)
    ensures
        r@ == id_text(id),
        (named_id(r@) == Ok::<_, Seq<char>>(id)),
{
    uuid::Uuid::from_u128(id).to_string()
}

/// `Uuid::parse_str` of `uuid`, an error taken as its words: the result is a function
/// of the text.
#[verifier::external_body]
fn parse_uuid_text(value: &str) -> (r: Result<u128, String>)
    ensures
        match r {
            Ok(id) => named_id(value@) == Ok::<_, Seq<char>>(id),
            Err(reason) => named_id(value@) == Err::<u128, _>(reason@),
        },
{
    match uuid::Uuid::parse_str(value) {
        Ok(id) => Ok(id.as_u128()),
        Err(e) => Err(e.to_string()),
    }
}

/// A fresh random identifier.
pub fn new_session_id() -> (r: u128)
    ensures
        random_id(r),
{
    new_uuid_v4()
}

/// The hyphenated text of an identifier, which names the identifier.
pub fn session_id_text(id: u128) -> (r: String)
    ensures
        r@ == id_text(id),
        (named_id(r@) == Ok::<_, Seq<char>>(id)),
{
    format_uuid(id)
}

/// The identifier that a text names, or why it names none.
pub fn session_id_from(value: &str) -> (r: Result<u128, String>)
    ensures
        match r {
            Ok(id) => named_id(value@) == Ok::<_, Seq<char>>(id),
            Err(reason) => named_id(value@) == Err::<u128, _>(reason@),
        },
{
    parse_uuid_text(value)
}

/// Where the `k`-th digit stands in the text.
spec fn digit_place(k: int) -> int {
    if k < 8 {
        k
    } else if k < 12 {
        k + 1
    } else if k < 16 {
        k + 2
    } else if k < 20 {
        k + 3
    } else {
        k + 4
    }
}

proof fn lemma_digit(a: u128, b: u128, k: int, shift: u128)
    requires
        id_text(a) == id_text(b),
        0 <= k < 32,
        shift == 4 * (31 - k),
    ensures
        (a >> shift) & 0xf == (b >> shift) & 0xf,
{
    assert(id_text(a)[digit_place(k)] == id_digit(a, k));
    assert(id_text(b)[digit_place(k)] == id_digit(b, k));
    assert((a >> shift) & 0xf < 16) by (bit_vector);
    assert((b >> shift) & 0xf < 16) by (bit_vector);
}

/// Law: no two identifiers have the same text.
pub proof fn lemma_id_texts_differ(a: u128, b: u128)
    requires
        id_text(a) == id_text(b),
    ensures
        a == b,
{
    lemma_digit(a, b, 0, 124u128);
    lemma_digit(a, b, 1, 120u128);
    lemma_digit(a, b, 2, 116u128);
    lemma_digit(a, b, 3, 112u128);
    lemma_digit(a, b, 4, 108u128);
    lemma_digit(a, b, 5, 104u128);
    lemma_digit(a, b, 6, 100u128);
    lemma_digit(a, b, 7, 96u128);
    lemma_digit(a, b, 8, 92u128);
    lemma_digit(a, b, 9, 88u128);
    lemma_digit(a, b, 10, 84u128);
    lemma_digit(a, b, 11, 80u128);
    lemma_digit(a, b, 12, 76u128);
    lemma_digit(a, b, 13, 72u128);
    lemma_digit(a, b, 14, 68u128);
    lemma_digit(a, b, 15, 64u128);
    lemma_digit(a, b, 16, 60u128);
    lemma_digit(a, b, 17, 56u128);
    lemma_digit(a, b, 18, 52u128);
    lemma_digit(a, b, 19, 48u128);
    lemma_digit(a, b, 20, 44u128);
    lemma_digit(a, b, 21, 40u128);
    lemma_digit(a, b, 22, 36u128);
    lemma_digit(a, b, 23, 32u128);
    lemma_digit(a, b, 24, 28u128);
    lemma_digit(a, b, 25, 24u128);
    lemma_digit(a, b, 26, 20u128);
    lemma_digit(a, b, 27, 16u128);
    lemma_digit(a, b, 28, 12u128);
    lemma_digit(a, b, 29, 8u128);
    lemma_digit(a, b, 30, 4u128);
    lemma_digit(a, b, 31, 0u128);
    assert(a == b) by (bit_vector)
        requires
            (a >> 124u128) & 0xf == (b >> 124u128) & 0xf,
            (a >> 120u128) & 0xf == (b >> 120u128) & 0xf,
            (a >> 116u128) & 0xf == (b >> 116u128) & 0xf,
            (a >> 112u128) & 0xf == (b >> 112u128) & 0xf,
            (a >> 108u128) & 0xf == (b >> 108u128) & 0xf,
            (a >> 104u128) & 0xf == (b >> 104u128) & 0xf,
            (a >> 100u128) & 0xf == (b >> 100u128) & 0xf,
            (a >> 96u128) & 0xf == (b >> 96u128) & 0xf,
            (a >> 92u128) & 0xf == (b >> 92u128) & 0xf,
            (a >> 88u128) & 0xf == (b >> 88u128) & 0xf,
            (a >> 84u128) & 0xf == (b >> 84u128) & 0xf,
            (a >> 80u128) & 0xf == (b >> 80u128) & 0xf,
            (a >> 76u128) & 0xf == (b >> 76u128) & 0xf,
            (a >> 72u128) & 0xf == (b >> 72u128) & 0xf,
            (a >> 68u128) & 0xf == (b >> 68u128) & 0xf,
            (a >> 64u128) & 0xf == (b >> 64u128) & 0xf,
            (a >> 60u128) & 0xf == (b >> 60u128) & 0xf,
            (a >> 56u128) & 0xf == (b >> 56u128) & 0xf,
            (a >> 52u128) & 0xf == (b >> 52u128) & 0xf,
            (a >> 48u128) & 0xf == (b >> 48u128) & 0xf,
            (a >> 44u128) & 0xf == (b >> 44u128) & 0xf,
            (a >> 40u128) & 0xf == (b >> 40u128) & 0xf,
            (a >> 36u128) & 0xf == (b >> 36u128) & 0xf,
            (a >> 32u128) & 0xf == (b >> 32u128) & 0xf,
            (a >> 28u128) & 0xf == (b >> 28u128) & 0xf,
            (a >> 24u128) & 0xf == (b >> 24u128) & 0xf,
            (a >> 20u128) & 0xf == (b >> 20u128) & 0xf,
            (a >> 16u128) & 0xf == (b >> 16u128) & 0xf,
            (a >> 12u128) & 0xf == (b >> 12u128) & 0xf,
            (a >> 8u128) & 0xf == (b >> 8u128) & 0xf,
            (a >> 4u128) & 0xf == (b >> 4u128) & 0xf,
            (a >> 0u128) & 0xf == (b >> 0u128) & 0xf,
    ;
}

} // verus!
