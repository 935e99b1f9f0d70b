use vstd::prelude::*;

verus! {

/// The character of a decimal digit.
pub open spec fn digit_char(d: nat) -> char {
    if d == 0 {
        '0'
    } else if d == 1 {
        '1'
    } else if d == 2 {
        '2'
    } else if d == 3 {
        '3'
    } else if d == 4 {
        '4'
    } else if d == 5 {
        '5'
    } else if d == 6 {
        '6'
    } else if d == 7 {
        '7'
    } else if d == 8 {
        '8'
    } else {
        '9'
    }
}

/// The decimal digits of `n`, most significant first, with no leading zeros.
pub open spec fn decimal_digits(n: nat) -> Seq<char>
    decreases n,
{
    if n < 10 {
        seq![digit_char(n)]
    } else {
        decimal_digits(n / 10).push(digit_char(n % 10))
    }
}

pub open spec fn abs(v: int) -> nat {
    if v < 0 {
        (-v) as nat
    } else {
        v as nat
    }
}

/// An amount of cents written in units with two decimals: `-1000` is
/// `-10.00`, `5` is `0.05`.
pub open spec fn cents_text_view(v: int) -> Seq<char> {
    let a = abs(v);
    (if v < 0 {
        "-"@
    } else {
        ""@
    }) + decimal_digits(a / 100) + "."@ + seq![digit_char((a % 100) / 10), digit_char(a % 10)]
}

fn digit_text(d: u8) -> (s: &'static str)
    requires
        d < 10,
    ensures
        s@ == seq![digit_char(d as nat)],
{
    proof {
        reveal_strlit("0");
        reveal_strlit("1");
        reveal_strlit("2");
        reveal_strlit("3");
        reveal_strlit("4");
        reveal_strlit("5");
        reveal_strlit("6");
        reveal_strlit("7");
        reveal_strlit("8");
        reveal_strlit("9");
    }
    match d {
        0 => "0",
        1 => "1",
        2 => "2",
        3 => "3",
        4 => "4",
        5 => "5",
        6 => "6",
        7 => "7",
        8 => "8",
        _ => "9",
    }
}

fn push_decimal(s: &mut String, n: u128)
    ensures
        final(s)@ == old(s)@ + decimal_digits(n as nat),
    decreases n,
{
    if n >= 10 {
        push_decimal(s, n / 10);
    }
    s.append(digit_text((n % 10) as u8));
    assert(s@ =~= old(s)@ + decimal_digits(n as nat));
}

/// Writes an amount of cents with a sign where it is negative and two
/// decimals.
pub fn cents_text(v: i128) -> (s: String)
    ensures
        s@ == cents_text_view(v as int),
{
    let a: u128 = if v < 0 {
        (-(v + 1)) as u128 + 1
    } else {
        v as u128
    };
    let mut s = String::new();
    if v < 0 {
        s.append("-");
    } else {
        s.append("");
    }
    push_decimal(&mut s, a / 100);
    s.append(".");
    s.append(digit_text(((a % 100) / 10) as u8));
    s.append(digit_text((a % 10) as u8));
    assert(s@ =~= cents_text_view(v as int));
    s
}

} // verus!
