//! Numbers of one byte as decimal text: how they are written and read.

use vstd::prelude::*;
use vstd::string::StringExecFns;

verus! {

/// The byte `+`, which may stand before a number.
pub const PLUS: u8 = 0x2B;

/// The byte `0`; the other digits follow it.
pub const ZERO: u8 = 0x30;

/// The decimal digits of a number, without leading zeros.
pub open spec fn decimal(n: u8) -> Seq<u8> {
    if n < 10 {
        seq![(48 + n) as u8]
    } else if n < 100 {
        seq![(48 + n / 10) as u8, (48 + n % 10) as u8]
    } else {
        seq![(48 + n / 100) as u8, (48 + (n / 10) % 10) as u8, (48 + n % 10) as u8]
    }
}

/// Whether a byte is a decimal digit.
pub open spec fn is_digit(b: u8) -> bool {
    48 <= b <= 57
}

/// Whether every byte is a decimal digit.
pub open spec fn all_digits(d: Seq<u8>) -> bool {
    forall|i: int| 0 <= i < d.len() ==> is_digit(#[trigger] d[i])
}

/// The number that a sequence of decimal digits spells.
pub open spec fn digits_value(d: Seq<u8>) -> nat
    decreases d.len(),
{
    if d.len() == 0 {
        0
    } else {
        digits_value(d.drop_last()) * 10 + (d.last() - 48) as nat
    }
}

/// A number's text without the `+` that may stand before it.
pub open spec fn unsigned_part(s: Seq<u8>) -> Seq<u8> {
    if s.len() > 0 && s[0] == PLUS {
        s.skip(1)
    } else {
        s
    }
}

/// The number that a text spells: an optional `+`, then one or more decimal
/// digits whose value is at most 255. Leading zeros are accepted. Any other
/// text spells no number.
pub open spec fn parse_u8(s: Seq<u8>) -> Option<u8> {
    let d = unsigned_part(s);
    if d.len() > 0 && all_digits(d) && digits_value(d) <= 255 {
        Some(digits_value(d) as u8)
    } else {
        None
    }
}

/// The characters that a sequence of ASCII bytes stands for.
pub open spec fn chars_of(bytes: Seq<u8>) -> Seq<char> {
    bytes.map_values(|b: u8| b as char)
}

/// The decimal text of a number holds one to three digits and nothing
/// else, and spells the number.
pub proof fn lemma_decimal_parses(n: u8)
    ensures
        1 <= decimal(n).len() <= 3,
        all_digits(decimal(n)),
        parse_u8(decimal(n)) == Some(n),
{
    reveal_with_fuel(digits_value, 4);
}

/// Reads a number in decimal: an optional `+`, then digits, at most 255.
pub fn parse_decimal(s: &[u8]) -> (r: Option<u8>)
    ensures
        r == parse_u8(s@),
{
    let start: usize = if s.len() > 0 && s[0] == PLUS {
        1
    } else {
        0
    };
    let ghost d = unsigned_part(s@);
    if start == s.len() {
        return None;
    }
    let mut acc: u32 = 0;
    let mut i: usize = start;
    while i < s.len()
        invariant
            start <= i <= s@.len(),
            d == s@.subrange(start as int, s@.len() as int),
            d == unsigned_part(s@),
            all_digits(d.take(i - start)),
            digits_value(d.take(i - start)) <= 255 ==> acc == digits_value(d.take(i - start)),
            digits_value(d.take(i - start)) > 255 ==> acc == 256,
            acc <= 256,
        decreases s@.len() - i,
    {
        let b: u8 = s[i];
        let ghost before = d.take(i - start);
        let ghost after = d.take(i - start + 1);
        if b < ZERO || b > ZERO + 9 {
            assert(!is_digit(d[i - start]));
            return None;
        }
        proof {
            assert(after.drop_last() =~= before);
            assert(all_digits(after));
        }
        if acc <= 255 {
            acc = acc * 10 + (b - ZERO) as u32;
            if acc > 255 {
                acc = 256;
            }
        }
        i = i + 1;
    }
    assert(d.take(i - start) =~= d);
    if acc <= 255 {
        Some(acc as u8)
    } else {
        None
    }
}

/// The literal that spells one decimal digit.
fn digit_str(d: u8) -> (s: &'static str)
    requires
        d < 10,
    ensures
        s@ == chars_of(seq![(48 + d) as u8]),
{
    proof {
        reveal_strlit("0");
        reveal_strlit("1");
        reveal_strlit("2");
        reveal_strlit("3");
        reveal_strlit("4");
        reveal_strlit("5");
        reveal_strlit("6");
        reveal_strlit("7");
        reveal_strlit("8");
        reveal_strlit("9");
    }
    let s: &'static str = match d {
        0 => "0",
        1 => "1",
        2 => "2",
        3 => "3",
        4 => "4",
        5 => "5",
        6 => "6",
        7 => "7",
        8 => "8",
        _ => "9",
    };
    s
}

/// Appends a number in decimal to a string.
pub fn push_decimal(out: &mut String, n: u8)
    ensures
        final(out)@ == old(out)@ + chars_of(decimal(n)),
{
    if n >= 100 {
        out.append(digit_str(n / 100));
    }
    if n >= 10 {
        out.append(digit_str((n / 10) % 10));
    }
    out.append(digit_str(n % 10));
}

} // verus!
