//! Reading a host UUID object's string form as 128 bits, through the
//! uuid crate.

use vstd::prelude::*;
use vstd::arithmetic::div_mod::{lemma_mod_breakdown, lemma_small_mod};
use crate::text::{hex_digit, hex_of, hex_val, uuid_simple};

verus! {

/// What the uuid crate's parser answers for a given character sequence:
/// the 128 bits it reads, or nothing where it rejects the text.
pub uninterp spec fn uuid_parse(s: Seq<char>) -> Option<u128>;

/// Whether every character is a hexadecimal digit.
pub open spec fn is_hex_seq(s: Seq<char>) -> bool {
    forall|i: int| 0 <= i < s.len() ==> hex_val(#[trigger] s[i]) >= 0
}

/// The value of a sequence of hexadecimal digits, most significant
/// first.
pub open spec fn hex_seq_val(s: Seq<char>) -> int
    decreases s.len(),
{
    if s.len() == 0 {
        0
    } else {
        hex_seq_val(s.drop_last()) * 16 + hex_val(s.last())
    }
}

/// The 32 digits of a hyphenated UUID rendering, hyphens removed.
pub open spec fn strip_uuid_hyphens(s: Seq<char>) -> Seq<char> {
    s.subrange(0, 8) + s.subrange(9, 13) + s.subrange(14, 18) + s.subrange(19, 23) + s.subrange(
        24,
        36,
    )
}

/// The 128 bits a canonical UUID rendering denotes: 32 hexadecimal
/// digits, bare (the simple form) or in the hyphenated 8-4-4-4-12
/// grouping, case-insensitively. Other renderings denote nothing here.
pub open spec fn uuid_text_val(s: Seq<char>) -> Option<u128> {
    if s.len() == 32 && is_hex_seq(s) {
        Some(hex_seq_val(s) as u128)
    } else if s.len() == 36 && s[8] == '-' && s[13] == '-' && s[18] == '-' && s[23] == '-'
        && is_hex_seq(strip_uuid_hyphens(s)) {
        Some(hex_seq_val(strip_uuid_hyphens(s)) as u128)
    } else {
        None
    }
}

/// The error type of the uuid crate's parser, carried through as the
/// cause of a malformed-value failure.
#[verifier::external_type_specification]
#[verifier::external_body]
pub struct ExUuidError(uuid::Error);

/// Relies on uuid::Uuid::parse_str and uuid::Uuid::as_u128: what the
/// parser accepts depends on the characters alone, and a canonical
/// rendering (simple or hyphenated, either case) is read as the 128
/// bits its digits spell, most significant first.
#[verifier::external_body]
pub fn parse_uuid_text(s: &str) -> (r: Result<u128, uuid::Error>)
    ensures
        (r is Ok) == (uuid_parse(s@) is Some),
        r is Ok ==> r->Ok_0 == uuid_parse(s@)->0,
        r is Err ==> uuid_text_val(s@) is None,
        r is Ok ==> (uuid_text_val(s@) is Some ==> r->Ok_0 == uuid_text_val(s@)->0),

{
    match uuid::Uuid::parse_str(s) {
        Ok(u) => Ok(u.as_u128()),
        Err(e) => Err(e),
    }
}

/// Powers of sixteen.
pub open spec fn pow16(e: int) -> int
    decreases e,
{
    if e <= 0 {
        1
    } else {
        16 * pow16(e - 1)
    }
}

/// A hexadecimal digit character's value is the number it was chosen
/// for.
proof fn lemma_hex_digit_val(m: int)
    requires
        0 <= m < 16,
    ensures
        hex_val(hex_digit(m)) == m,
{
}

/// A hexadecimal rendering spells the low digits of the number it was
/// made from: `d` digits render `n` modulo the `d`-th power of sixteen.
proof fn lemma_hex_of_val(n: int, d: int)
    requires
        n >= 0,
        d >= 0,
    ensures
        hex_of(n, d).len() == d,
        is_hex_seq(hex_of(n, d)),
        hex_seq_val(hex_of(n, d)) == n % pow16(d),
        pow16(d) > 0,
    decreases d,
{
    if d == 0 {
        assert(n % 1 == 0) by (nonlinear_arith);
    } else {
        lemma_hex_of_val(n / 16, d - 1);
        let s = hex_of(n, d);
        let prefix = hex_of(n / 16, d - 1);
        assert(s == prefix.push(hex_digit(n % 16)));
        assert(s.drop_last() =~= prefix);
        lemma_hex_digit_val(n % 16);
        assert(is_hex_seq(s)) by {
            assert(forall|i: int|
                0 <= i < s.len() - 1 ==> #[trigger] s[i] == prefix[i]);
        }
        lemma_mod_breakdown(n, 16, pow16(d - 1));
        assert(hex_seq_val(s) == ((n / 16) % pow16(d - 1)) * 16 + n % 16);
        assert(((n / 16) % pow16(d - 1)) * 16 == 16 * ((n / 16) % pow16(d - 1)))
            by (nonlinear_arith);
    }
}

/// The simple rendering of 128 bits denotes exactly those bits: what
/// the decoder prints, the parser reads back.
pub proof fn lemma_uuid_simple_round_trip(u: u128)
    ensures
        uuid_text_val(uuid_simple(u)) == Some(u),
{
    lemma_hex_of_val(u as int, 32);
    assert(pow16(32) == 0x100000000000000000000000000000000) by {
        reveal_with_fuel(pow16, 33);
    }
    lemma_small_mod(u as nat, pow16(32) as nat);
    assert(hex_seq_val(uuid_simple(u)) == u as int);
}

} // verus!
