//! Text: decimal numbers, line positions and ranges in a buffer.
use vstd::prelude::*;

verus! {

/// Whether two texts are the same.
pub fn same_text(a: &str, b: &str) -> (same: bool)
    ensures
        same == (a@ == b@),
{
    let a = a.to_string();
    let b = b.to_string();
    a == b
}

/// The decimal digit `d` as a character.
pub open spec fn digit(d: nat) -> char {
    (('0' as u32 + d) as u32) as char
}

/// `n` in decimal, without leading zeros.
pub open spec fn decimal_text(n: nat) -> Seq<char>
    decreases n,
{
    if n < 10 {
        seq![digit(n)]
    } else {
        decimal_text(n / 10).push(digit(n % 10))
    }
}

/// The text of a decimal digit.
fn digit_text(d: u64) -> (text: &'static str)
    requires
        d < 10,
    ensures
        text@ == seq![digit(d as nat)],
{
    proof {
        reveal_strlit("0");
        reveal_strlit("1");
        reveal_strlit("2");
        reveal_strlit("3");
        reveal_strlit("4");
        reveal_strlit("5");
        reveal_strlit("6");
        reveal_strlit("7");
        reveal_strlit("8");
        reveal_strlit("9");
    }
    let text = if d == 0 {
        "0"
    } else if d == 1 {
        "1"
    } else if d == 2 {
        "2"
    } else if d == 3 {
        "3"
    } else if d == 4 {
        "4"
    } else if d == 5 {
        "5"
    } else if d == 6 {
        "6"
    } else if d == 7 {
        "7"
    } else if d == 8 {
        "8"
    } else {
        "9"
    };
    proof {
        assert(text@ =~= seq![digit(d as nat)]);
    }
    text
}

/// `n` in decimal.
pub fn decimal(n: u64) -> (text: String)
    ensures
        text@ == decimal_text(n as nat),
    decreases n,
{
    if n < 10 {
        let text = digit_text(n).to_string();
        text
    } else {
        let mut text = decimal(n / 10);
        text.append(digit_text(n % 10));
        proof {
            assert(text@ =~= decimal_text(n as nat / 10).push(digit(n as nat % 10)));
        }
        text
    }
}

/// The number after `n` in decimal.
pub fn decimal_after(n: u64) -> (text: String)
    ensures
        text@ == decimal_text(n as nat + 1),
{
    if n < u64::MAX {
        decimal(n + 1)
    } else {
        let mut text = decimal(n / 10);
        text.append(digit_text(n % 10 + 1));
        proof {
            assert((n as nat + 1) / 10 == n as nat / 10);
            assert((n as nat + 1) % 10 == n as nat % 10 + 1);
            assert(text@ =~= decimal_text((n as nat + 1) / 10).push(digit((n as nat + 1) % 10)));
        }
        text
    }
}

} // verus!
