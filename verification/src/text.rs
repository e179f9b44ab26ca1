//! Verified text rendering: lowercase hexadecimal for UUIDs and
//! zero-padded decimal for ISO calendar dates.

use vstd::prelude::*;
use crate::cql::DateYmd;

verus! {

/// The sixteen lowercase hexadecimal digit characters; the first ten are
/// also the decimal digit characters.
pub open spec fn hex_digit(n: int) -> char {
    if n == 0 {
        '0'
    } else if n == 1 {
        '1'
    } else if n == 2 {
        '2'
    } else if n == 3 {
        '3'
    } else if n == 4 {
        '4'
    } else if n == 5 {
        '5'
    } else if n == 6 {
        '6'
    } else if n == 7 {
        '7'
    } else if n == 8 {
        '8'
    } else if n == 9 {
        '9'
    } else if n == 10 {
        'a'
    } else if n == 11 {
        'b'
    } else if n == 12 {
        'c'
    } else if n == 13 {
        'd'
    } else if n == 14 {
        'e'
    } else {
        'f'
    }
}

/// The value of a hexadecimal digit character, upper or lower case, or
/// `-1` for any other character.
pub open spec fn hex_val(c: char) -> int {
    if c == '0' {
        0
    } else if c == '1' {
        1
    } else if c == '2' {
        2
    } else if c == '3' {
        3
    } else if c == '4' {
        4
    } else if c == '5' {
        5
    } else if c == '6' {
        6
    } else if c == '7' {
        7
    } else if c == '8' {
        8
    } else if c == '9' {
        9
    } else if c == 'a' || c == 'A' {
        10
    } else if c == 'b' || c == 'B' {
        11
    } else if c == 'c' || c == 'C' {
        12
    } else if c == 'd' || c == 'D' {
        13
    } else if c == 'e' || c == 'E' {
        14
    } else if c == 'f' || c == 'F' {
        15
    } else {
        -1
    }
}

/// The last `d` lowercase hexadecimal digits of `n`, most significant
/// first.
pub open spec fn hex_of(n: int, d: int) -> Seq<char>
    decreases d,
{
    if d <= 0 {
        Seq::empty()
    } else {
        hex_of(n / 16, d - 1).push(hex_digit(n % 16))
    }
}

/// The 32-digit lowercase hexadecimal rendering of 128 bits: the simple
/// form of a UUID.
pub open spec fn uuid_simple(u: u128) -> Seq<char> {
    hex_of(u as int, 32)
}

/// The decimal rendering of `n`, zero-padded to at least `w` digits,
/// with as many more digits as `n` needs.
pub open spec fn dec_of(n: int, w: int) -> Seq<char>
    decreases n, w,
        when n >= 0
{
    if n <= 0 && w <= 0 {
        Seq::empty()
    } else {
        proof {
            assert(n >= 1 ==> n / 10 < n) by (nonlinear_arith);
        }
        dec_of(n / 10, w - 1).push(hex_digit(n % 10))
    }
}

/// The ISO `YYYY-MM-DD` rendering of a calendar date, with the year
/// zero-padded to four digits and month and day to two.
pub open spec fn iso_date(d: DateYmd) -> Seq<char> {
    dec_of(d.year as int, 4) + seq!['-'] + dec_of(d.month as int, 2) + seq!['-'] + dec_of(
        d.day as int,
        2,
    )
}

/// One lowercase hexadecimal digit, as a one-character string slice.
fn hex_digit_str(n: u8) -> (r: &'static str)
    requires
        n < 16,
    ensures
        r@ =~= seq![hex_digit(n as int)],
{
    proof {
        reveal_strlit("0");
        reveal_strlit("1");
        reveal_strlit("2");
        reveal_strlit("3");
        reveal_strlit("4");
        reveal_strlit("5");
        reveal_strlit("6");
        reveal_strlit("7");
        reveal_strlit("8");
        reveal_strlit("9");
        reveal_strlit("a");
        reveal_strlit("b");
        reveal_strlit("c");
        reveal_strlit("d");
        reveal_strlit("e");
        reveal_strlit("f");
    }
    match n {
        0 => "0",
        1 => "1",
        2 => "2",
        3 => "3",
        4 => "4",
        5 => "5",
        6 => "6",
        7 => "7",
        8 => "8",
        9 => "9",
        10 => "a",
        11 => "b",
        12 => "c",
        13 => "d",
        14 => "e",
        _ => "f",
    }
}

/// The simple (hyphen-free) lowercase string form of a UUID's 128 bits.
pub fn uuid_simple_string(u: u128) -> (r: String)
    ensures
        r@ == uuid_simple(u),
{
    let mut nibbles: Vec<u8> = Vec::new();
    let mut rem: u128 = u;
    let mut k: usize = 0;
    while k < 32
        invariant
            k <= 32,
            nibbles@.len() == k,
            forall|i: int| 0 <= i < k ==> nibbles@[i] < 16,
            uuid_simple(u) =~= hex_of(rem as int, 32 - k) + Seq::new(
                k as nat,
                |i: int| hex_digit(nibbles@[k - 1 - i] as int),
            ),
        decreases 32 - k,
    {
        let d: u8 = (rem % 16) as u8;
        proof {
            let pre = Seq::new(k as nat, |i: int| hex_digit(nibbles@[k - 1 - i] as int));
            let post = Seq::new(
                (k + 1) as nat,
                |i: int| hex_digit(nibbles@.push(d)[k + 1 - 1 - i] as int),
            );
            assert(hex_of(rem as int, 32 - k) == hex_of(rem as int / 16, 32 - k - 1).push(
                hex_digit(rem as int % 16),
            ));
            assert(post =~= seq![hex_digit(d as int)] + pre);
            assert(hex_of(rem as int, 32 - k) + pre =~= hex_of(rem as int / 16, 32 - k - 1)
                + post);
        }
        nibbles.push(d);
        rem = rem / 16;
        k = k + 1;
    }
    let mut s = String::new();
    let mut j: usize = 0;
    while j < 32
        invariant
            j <= 32,
            nibbles@.len() == 32,
            forall|i: int| 0 <= i < 32 ==> nibbles@[i] < 16,
            uuid_simple(u) =~= Seq::new(32, |i: int| hex_digit(nibbles@[31 - i] as int)),
            s@ =~= Seq::new(j as nat, |i: int| hex_digit(nibbles@[31 - i] as int)),
        decreases 32 - j,
    {
        let d = nibbles[31 - j];
        s.append(hex_digit_str(d));
        j = j + 1;
    }
    proof {
        assert(s@ =~= uuid_simple(u));
    }
    s
}

/// Powers of ten.
pub open spec fn pow10(e: int) -> int
    decreases e,
{
    if e <= 0 {
        1
    } else {
        10 * pow10(e - 1)
    }
}

/// Appends the decimal rendering of `n`, zero-padded to at least `w`
/// digits.
fn append_dec(s: &mut String, n: u32, w: usize)
    ensures
        final(s)@ == old(s)@ + dec_of(n as int, w as int),
{
    proof {
        reveal_with_fuel(pow10, 11);
        assert(n < pow10(10));
    }
    let mut digits: Vec<u8> = Vec::new();
    let mut rem: u32 = n;
    let mut k: usize = 0;
    while rem > 0 || k < w
        invariant
            digits@.len() == k,
            k <= w + 10,
            k <= 10 ==> (rem as int) < pow10(10 - k),
            k > 10 ==> rem == 0,
            forall|i: int| 0 <= i < k ==> digits@[i] < 10,
            dec_of(n as int, w as int) =~= dec_of(rem as int, w - k) + Seq::new(
                k as nat,
                |i: int| hex_digit(digits@[k - 1 - i] as int),
            ),
        decreases rem, (if k < w { (w - k) as int } else { 0int }),
    {
        let d: u8 = (rem % 10) as u8;
        proof {
            assert(rem >= 1 ==> rem as int / 10 < rem as int) by (nonlinear_arith);
            if k <= 9 {
                assert(pow10(10 - k) == 10 * pow10(10 - (k + 1)));
                assert((rem as int) < 10 * pow10(9 - k) ==> (rem as int) / 10 < pow10(9 - k))
                    by (nonlinear_arith);
            }
            let pre = Seq::new(k as nat, |i: int| hex_digit(digits@[k - 1 - i] as int));
            let post = Seq::new(
                (k + 1) as nat,
                |i: int| hex_digit(digits@.push(d)[k + 1 - 1 - i] as int),
            );
            assert(dec_of(rem as int, w - k) == dec_of(rem as int / 10, w - k - 1).push(
                hex_digit(rem as int % 10),
            ));
            assert(post =~= seq![hex_digit(d as int)] + pre);
            assert(dec_of(rem as int, w - k) + pre =~= dec_of(rem as int / 10, w - k - 1)
                + post);
        }
        digits.push(d);
        rem = rem / 10;
        k = k + 1;
    }
    proof {
        assert(dec_of(n as int, w as int) =~= Seq::new(
            k as nat,
            |i: int| hex_digit(digits@[k - 1 - i] as int),
        ));
    }
    let count = digits.len();
    let mut j: usize = 0;
    while j < count
        invariant
            j <= count,
            count == digits@.len(),
            count == k,
            forall|i: int| 0 <= i < count ==> digits@[i] < 10,
            dec_of(n as int, w as int) =~= Seq::new(
                k as nat,
                |i: int| hex_digit(digits@[k - 1 - i] as int),
            ),
            s@ =~= old(s)@ + Seq::new(j as nat, |i: int| hex_digit(digits@[k - 1 - i] as int)),
        decreases count - j,
    {
        let d = digits[count - 1 - j];
        s.append(hex_digit_str(d));
        j = j + 1;
    }
    proof {
        assert(s@ =~= old(s)@ + dec_of(n as int, w as int));
    }
}

/// The ISO `YYYY-MM-DD` string of a calendar date.
pub fn format_iso_date(d: DateYmd) -> (r: String)
    ensures
        r@ == iso_date(d),
{
    proof {
        reveal_strlit("-");
    }
    let mut s = String::new();
    append_dec(&mut s, d.year as u32, 4);
    s.append("-");
    append_dec(&mut s, d.month as u32, 2);
    s.append("-");
    append_dec(&mut s, d.day as u32, 2);
    proof {
        assert(s@ =~= iso_date(d));
    }
    s
}

} // verus!
