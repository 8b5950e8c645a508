//! Rendering integers as decimal text, verified against a digit-by-digit
//! specification.

use vstd::prelude::*;
use vstd::string::StringExecFns;

verus! {

/// The character of one decimal digit.
pub open spec fn digit_char(d: int) -> char
    recommends
        0 <= d < 10,
{
    if d == 0 {
        '0'
    } else if d == 1 {
        '1'
    } else if d == 2 {
        '2'
    } else if d == 3 {
        '3'
    } else if d == 4 {
        '4'
    } else if d == 5 {
        '5'
    } else if d == 6 {
        '6'
    } else if d == 7 {
        '7'
    } else if d == 8 {
        '8'
    } else {
        '9'
    }
}

/// The decimal digits of `n`, most significant first, with no leading zero
/// except for zero itself.
pub open spec fn dec_digits(n: nat) -> Seq<char>
    decreases n,
{
    if n < 10 {
        seq![digit_char(n as int)]
    } else {
        dec_digits(n / 10) + seq![digit_char((n % 10) as int)]
    }
}

/// The decimal text of `v`, with a leading minus sign when negative.
pub open spec fn int_text(v: int) -> Seq<char> {
    if v < 0 {
        seq!['-'] + dec_digits((-v) as nat)
    } else {
        dec_digits(v as nat)
    }
}

/// The character sequence of collected digits, read back most significant
/// first (the digits were collected least significant first).
pub open spec fn rev_chars(ds: Seq<u64>) -> Seq<char> {
    Seq::new(ds.len(), |i: int| digit_char(ds[ds.len() - 1 - i] as int))
}

/// The one-character text of a digit.
fn digit_str(d: u64) -> (r: &'static str)
    requires
        d < 10,
    ensures
        r@ == seq![digit_char(d as int)],
{
    let r: &'static str = match d {
        0 => "0",
        1 => "1",
        2 => "2",
        3 => "3",
        4 => "4",
        5 => "5",
        6 => "6",
        7 => "7",
        8 => "8",
        _ => "9",
    };
    proof {
        reveal_strlit("0");
        reveal_strlit("1");
        reveal_strlit("2");
        reveal_strlit("3");
        reveal_strlit("4");
        reveal_strlit("5");
        reveal_strlit("6");
        reveal_strlit("7");
        reveal_strlit("8");
        reveal_strlit("9");
    }
    r
}

/// Render an unsigned value as decimal text.
pub fn format_u64(n: u64) -> (r: String)
    ensures
        r@ == dec_digits(n as nat),
{
    let ghost n0 = n as nat;
    let mut m: u64 = n;
    let mut rev: Vec<u64> = Vec::new();
    while m >= 10
        invariant
            n0 == n as nat,
            forall|i: int| 0 <= i < rev@.len() ==> (#[trigger] rev@[i]) < 10,
            dec_digits(n0) == dec_digits(m as nat) + rev_chars(rev@),
        decreases m,
    {
        let d = m % 10;
        let ghost prev = rev@;
        rev.push(d);
        proof {
            assert(rev_chars(rev@) =~= seq![digit_char(d as int)] + rev_chars(prev));
            assert(dec_digits(m as nat) == dec_digits((m / 10) as nat) + seq![
                digit_char((m % 10) as int),
            ]);
            assert(dec_digits((m / 10) as nat) + seq![digit_char(d as int)] + rev_chars(prev)
                =~= dec_digits((m / 10) as nat) + rev_chars(rev@));
            assert(dec_digits(n0) =~= dec_digits((m / 10) as nat) + rev_chars(rev@));
        }
        m = m / 10;
    }
    let mut s = String::new();
    s.append(digit_str(m));
    let ghost whole = dec_digits(n0);
    proof {
        assert(s@ =~= seq![digit_char(m as int)]);
        assert(whole == seq![digit_char(m as int)] + rev_chars(rev@));
        assert(rev_chars(rev@).take(0) =~= Seq::<char>::empty());
        assert(s@ =~= seq![digit_char(m as int)] + rev_chars(rev@).take(0));
    }
    let mut idx = rev.len();
    while idx > 0
        invariant
            idx <= rev@.len(),
            forall|i: int| 0 <= i < rev@.len() ==> (#[trigger] rev@[i]) < 10,
            whole == seq![digit_char(m as int)] + rev_chars(rev@),
            s@ == seq![digit_char(m as int)] + rev_chars(rev@).take(rev@.len() - idx),
        decreases idx,
    {
        idx -= 1;
        let ghost before = s@;
        s.append(digit_str(rev[idx]));
        proof {
            let k = rev@.len() - (idx + 1);
            assert(rev_chars(rev@)[k] == digit_char(rev@[idx as int] as int));
            assert(rev_chars(rev@).take(k + 1) =~= rev_chars(rev@).take(k) + seq![
                digit_char(rev@[idx as int] as int),
            ]);
            assert(s@ =~= seq![digit_char(m as int)] + rev_chars(rev@).take(k + 1));
        }
    }
    proof {
        assert(rev_chars(rev@).take(rev@.len() as int) =~= rev_chars(rev@));
        assert(s@ =~= whole);
    }
    s
}

/// Render a signed value as decimal text.
pub fn format_i64(v: i64) -> (r: String)
    ensures
        r@ == int_text(v as int),
{
    if v < 0 {
        let magnitude: u64 = if v == i64::MIN {
            9223372036854775808u64
        } else {
            (-v) as u64
        };
        let digits = format_u64(magnitude);
        let mut s = String::from_str("-");
        proof {
            reveal_strlit("-");
        }
        s.append(digits.as_str());
        proof {
            assert(s@ =~= seq!['-'] + dec_digits(magnitude as nat));
        }
        s
    } else {
        format_u64(v as u64)
    }
}

} // verus!
