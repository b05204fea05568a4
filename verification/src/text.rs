//! Writing numbers as text: decimal, and hexadecimal in either case.
use vstd::prelude::*;

verus! {

/// The character of a digit below sixteen; `upper` picks the case of the
/// letters.
pub open spec fn digit(d: int, upper: bool) -> Seq<char> {
    if d == 0 {
        "0"@
    } else if d == 1 {
        "1"@
    } else if d == 2 {
        "2"@
    } else if d == 3 {
        "3"@
    } else if d == 4 {
        "4"@
    } else if d == 5 {
        "5"@
    } else if d == 6 {
        "6"@
    } else if d == 7 {
        "7"@
    } else if d == 8 {
        "8"@
    } else if d == 9 {
        "9"@
    } else if d == 10 {
        if upper { "A"@ } else { "a"@ }
    } else if d == 11 {
        if upper { "B"@ } else { "b"@ }
    } else if d == 12 {
        if upper { "C"@ } else { "c"@ }
    } else if d == 13 {
        if upper { "D"@ } else { "d"@ }
    } else if d == 14 {
        if upper { "E"@ } else { "e"@ }
    } else {
        if upper { "F"@ } else { "f"@ }
    }
}

/// A number in hexadecimal, without leading zeros.
pub open spec fn hex_text(n: nat, upper: bool) -> Seq<char>
    decreases n,
{
    if n < 16 {
        digit(n as int, upper)
    } else {
        hex_text(n / 16, upper) + digit((n % 16) as int, upper)
    }
}

/// A number in decimal, without leading zeros.
pub open spec fn dec_text(n: nat) -> Seq<char>
    decreases n,
{
    if n < 10 {
        digit(n as int, false)
    } else {
        dec_text(n / 10) + digit((n % 10) as int, false)
    }
}

/// A signed number in decimal; `plus` writes a sign before a number that is
/// not negative too.
pub open spec fn signed_text(x: int, plus: bool) -> Seq<char> {
    if x < 0 {
        "-"@ + dec_text((-x) as nat)
    } else if plus {
        "+"@ + dec_text(x as nat)
    } else {
        dec_text(x as nat)
    }
}

/// Appends a digit below sixteen.
fn push_digit(f: &mut String, d: u32, upper: bool)
    requires
        d < 16,
    ensures
        final(f)@ == old(f)@ + digit(d as int, upper),
{
    match d {
        0 => f.append("0"),
        1 => f.append("1"),
        2 => f.append("2"),
        3 => f.append("3"),
        4 => f.append("4"),
        5 => f.append("5"),
        6 => f.append("6"),
        7 => f.append("7"),
        8 => f.append("8"),
        9 => f.append("9"),
        10 => if upper {
            f.append("A")
        } else {
            f.append("a")
        },
        11 => if upper {
            f.append("B")
        } else {
            f.append("b")
        },
        12 => if upper {
            f.append("C")
        } else {
            f.append("c")
        },
        13 => if upper {
            f.append("D")
        } else {
            f.append("d")
        },
        14 => if upper {
            f.append("E")
        } else {
            f.append("e")
        },
        _ => if upper {
            f.append("F")
        } else {
            f.append("f")
        },
    }
}

/// Appends a number in hexadecimal.
pub fn push_hex(f: &mut String, n: u32, upper: bool)
    ensures
        final(f)@ == old(f)@ + hex_text(n as nat, upper),
    decreases n,
{
    if n < 16 {
        push_digit(f, n, upper);
    } else {
        push_hex(f, n / 16, upper);
        push_digit(f, n % 16, upper);
    }
}

/// Appends a number in decimal.
pub fn push_dec(f: &mut String, n: u32)
    ensures
        final(f)@ == old(f)@ + dec_text(n as nat),
    decreases n,
{
    if n < 10 {
        push_digit(f, n, false);
    } else {
        push_dec(f, n / 10);
        push_digit(f, n % 10, false);
    }
}

/// Appends a signed number in decimal, with a plus sign before a number that
/// is not negative if `plus` is set.
pub fn push_signed(f: &mut String, x: i32, plus: bool)
    ensures
        final(f)@ == old(f)@ + signed_text(x as int, plus),
{
    if x < 0 {
        f.append("-");
        let m: u32 = (0i64 - (x as i64)) as u32;
        push_dec(f, m);
    } else {
        if plus {
            f.append("+");
        }
        push_dec(f, x as u32);
    }
}

/// A general-purpose register as written in assembly: `V` and its number in
/// hexadecimal.
pub open spec fn vreg(r: u8) -> Seq<char> {
    "V"@ + hex_text(r as nat, true)
}

/// Appends a general-purpose register as written in assembly.
pub fn push_vreg(f: &mut String, r: u8)
    ensures
        final(f)@ == old(f)@ + vreg(r),
{
    f.append("V");
    push_hex(f, r as u32, true);
}

} // verus!
