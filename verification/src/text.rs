//! Text of the greeting rows: decimal rendering and the row format.

use vstd::prelude::*;
use vstd::string::*;

verus! {

/// The character of a single decimal digit.
pub open spec fn digit_char(d: nat) -> char
    recommends
        d < 10,
{
    if d == 0 {
        '0'
    } else if d == 1 {
        '1'
    } else if d == 2 {
        '2'
    } else if d == 3 {
        '3'
    } else if d == 4 {
        '4'
    } else if d == 5 {
        '5'
    } else if d == 6 {
        '6'
    } else if d == 7 {
        '7'
    } else if d == 8 {
        '8'
    } else {
        '9'
    }
}

/// The decimal numeral of `n`, most significant digit first, without
/// leading zeros (`0` is rendered as the single digit `0`).
pub open spec fn decimal_text(n: nat) -> Seq<char>
    decreases n,
{
    if n < 10 {
        seq![digit_char(n)]
    } else {
        decimal_text(n / 10).push(digit_char(n % 10))
    }
}

/// The fixed word that starts every row, with its trailing space.
pub open spec fn greeting_prefix() -> Seq<char> {
    seq!['H', 'e', 'l', 'l', 'o', ' ']
}

/// The row for `name` when `k` rows are still to come, this one included:
/// `Hello `, the name, a space, and `k` in decimal.
pub open spec fn greeting(name: Seq<char>, k: nat) -> Seq<char> {
    greeting_prefix() + name + seq![' '] + decimal_text(k)
}

/// The one-character string of a decimal digit.
pub fn digit_str(d: u32) -> (s: &'static str)
    requires
        d < 10,
    ensures
        s@ == seq![digit_char(d as nat)],
{
    proof {
        reveal_strlit("0");
        reveal_strlit("1");
        reveal_strlit("2");
        reveal_strlit("3");
        reveal_strlit("4");
        reveal_strlit("5");
        reveal_strlit("6");
        reveal_strlit("7");
        reveal_strlit("8");
        reveal_strlit("9");
    }
    let s = if d == 0 {
        "0"
    } else if d == 1 {
        "1"
    } else if d == 2 {
        "2"
    } else if d == 3 {
        "3"
    } else if d == 4 {
        "4"
    } else if d == 5 {
        "5"
    } else if d == 6 {
        "6"
    } else if d == 7 {
        "7"
    } else if d == 8 {
        "8"
    } else {
        "9"
    };
    assert(s@ =~= seq![digit_char(d as nat)]);
    s
}

/// Renders `n` in decimal.
pub fn render_decimal(n: u32) -> (s: String)
    ensures
        s@ == decimal_text(n as nat),
    decreases n,
{
    if n < 10 {
        String::from_str(digit_str(n))
    } else {
        let mut s = render_decimal(n / 10);
        s.append(digit_str(n % 10));
        assert(s@ =~= decimal_text(n as nat));
        s
    }
}

/// Whether the text holds a NUL character, which no C text buffer can carry.
pub fn has_nul(text: &str) -> (found: bool)
    ensures
        found == text@.contains('\0'),
{
    let mut found = false;
    for c in it: text.chars()
        invariant
            it.seq() == text@,
            found == text@.take(it.index() as int).contains('\0'),
    {
        proof {
            let before = text@.take(it.index() as int);
            let after = text@.take(it.index() + 1);
            assert(after =~= before.push(c));
            assert(after.contains('\0') == (before.contains('\0') || c == '\0')) by {
                if before.contains('\0') {
                    let j = choose|j: int| 0 <= j < before.len() && before[j] == '\0';
                    assert(after[j] == '\0');
                }
                if c == '\0' {
                    assert(after[after.len() - 1] == '\0');
                }
            }
        }
        if c == '\0' {
            found = true;
        }
    }
    assert(text@.take(text@.len() as int) =~= text@);
    found
}

/// Formats the row for `name` and the counter `k`.
pub fn render_greeting(name: &str, k: u32) -> (row: String)
    ensures
        row@ == greeting(name@, k as nat),
{
    proof {
        reveal_strlit("Hello ");
        reveal_strlit(" ");
    }
    let mut row = String::from_str("Hello ");
    assert(row@ =~= greeting_prefix());
    row.append(name);
    row.append(" ");
    let digits = render_decimal(k);
    row.append(digits.as_str());
    assert(row@ =~= greeting(name@, k as nat));
    row
}

} // verus!
