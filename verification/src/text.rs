//! Building blocks for visible text: runs of one character and decimal numerals.

use vstd::prelude::*;
use vstd::string::*;

verus! {

/// The visible texts of a sequence of strings.
pub open spec fn texts(rows: Seq<String>) -> Seq<Seq<char>> {
    rows.map_values(|row: String| row@)
}

/// The character `c`, `n` times.
pub open spec fn repeated(c: char, n: nat) -> Seq<char> {
    Seq::new(n, |i: int| c)
}

/// The character that writes the digit `d`, for `d` below ten.
pub open spec fn digit(d: nat) -> char {
    "0123456789"@[d as int]
}

/// The decimal numeral of `n`: no sign, no leading zero, `"0"` for zero.
pub open spec fn decimal(n: nat) -> Seq<char>
    decreases n,
{
    if n < 10 {
        seq![digit(n)]
    } else {
        decimal(n / 10).push(digit(n % 10))
    }
}

/// The decimal numeral of `n`, with a zero in front where it has one digit only.
pub open spec fn decimal_two_wide(n: nat) -> Seq<char> {
    if n < 10 {
        seq!['0'] + decimal(n)
    } else {
        decimal(n)
    }
}

/// The decimal numeral of `v`, with a minus sign in front of a negative one.
pub open spec fn signed_decimal(v: int) -> Seq<char> {
    if v < 0 {
        seq!['-'] + decimal((-v) as nat)
    } else {
        decimal(v as nat)
    }
}

/// A numeral holds digits and nothing else.
pub proof fn lemma_decimal_holds_digits(n: nat)
    ensures
        decimal(n).len() >= 1,
        forall|i: int|
            0 <= i < decimal(n).len() ==> "0123456789"@.contains(#[trigger] decimal(n)[i]),
    decreases n,
{
    reveal_strlit("0123456789");
    if n >= 10 {
        lemma_decimal_holds_digits(n / 10);
    }
    assert("0123456789"@[(n % 10) as int] == digit(n % 10));
}

/// A text put together from two texts holds `c` only where one of the two does.
pub proof fn lemma_concat_lacks(a: Seq<char>, b: Seq<char>, c: char)
    requires
        !a.contains(c),
        !b.contains(c),
    ensures
        !(a + b).contains(c),
{
    if (a + b).contains(c) {
        let i = choose|i: int| 0 <= i < (a + b).len() && (a + b)[i] == c;
        if i < a.len() {
            assert(a[i] == c);
        } else {
            assert(b[i - a.len()] == c);
        }
    }
}

/// A run of `n` copies of the one-character text `unit`.
fn run_of(unit: &str, n: usize) -> (out: String)
    requires
        unit@.len() == 1,
    ensures
        out@ == repeated(unit@[0], n as nat),
{
    let mut out = String::new();
    let mut i: usize = 0;
    while i < n
        invariant
            i <= n,
            unit@.len() == 1,
            out@ == repeated(unit@[0], i as nat),
        decreases n - i,
    {
        out.append(unit);
        i = i + 1;
        assert(out@ =~= repeated(unit@[0], i as nat));
    }
    out
}

/// A run of `n` dash characters.
pub fn dashes(n: usize) -> (out: String)
    ensures
        out@ == repeated('-', n as nat),
{
    proof {
        reveal_strlit("-");
    }
    run_of("-", n)
}

/// A run of `n` space characters.
pub fn spaces(n: usize) -> (out: String)
    ensures
        out@ == repeated(' ', n as nat),
{
    proof {
        reveal_strlit(" ");
    }
    run_of(" ", n)
}

/// The one-character text of the digit `d`.
fn digit_text(d: u64) -> (out: &'static str)
    requires
        d < 10,
    ensures
        out@ == seq![digit(d as nat)],
{
    proof {
        reveal_strlit("0123456789");
        reveal_strlit("0");
        reveal_strlit("1");
        reveal_strlit("2");
        reveal_strlit("3");
        reveal_strlit("4");
        reveal_strlit("5");
        reveal_strlit("6");
        reveal_strlit("7");
        reveal_strlit("8");
        reveal_strlit("9");
    }
    let out = if d == 0 {
        "0"
    } else if d == 1 {
        "1"
    } else if d == 2 {
        "2"
    } else if d == 3 {
        "3"
    } else if d == 4 {
        "4"
    } else if d == 5 {
        "5"
    } else if d == 6 {
        "6"
    } else if d == 7 {
        "7"
    } else if d == 8 {
        "8"
    } else {
        "9"
    };
    assert(out@ =~= seq![digit(d as nat)]);
    out
}

/// Writes the decimal numeral of `n` at the end of `out`.
pub fn push_decimal(out: &mut String, n: u64)
    ensures
        final(out)@ == old(out)@ + decimal(n as nat),
    decreases n,
{
    if n >= 10 {
        push_decimal(out, n / 10);
    }
    out.append(digit_text(n % 10));
    assert(out@ =~= old(out)@ + decimal(n as nat));
}

/// Writes the decimal numeral of `n` at the end of `out`, at least two digits wide.
pub fn push_decimal_two_wide(out: &mut String, n: u64)
    ensures
        final(out)@ == old(out)@ + decimal_two_wide(n as nat),
{
    if n < 10 {
        proof {
            reveal_strlit("0");
        }
        out.append("0");
    }
    push_decimal(out, n);
    assert(out@ =~= old(out)@ + decimal_two_wide(n as nat));
}

/// Writes the decimal numeral of `v` at the end of `out`, signed where `v` is negative.
pub fn push_signed_decimal(out: &mut String, v: i32)
    ensures
        final(out)@ == old(out)@ + signed_decimal(v as int),
{
    if v < 0 {
        proof {
            reveal_strlit("-");
        }
        out.append("-");
        push_decimal(out, (-(v as i64)) as u64);
    } else {
        push_decimal(out, v as u64);
    }
    assert(out@ =~= old(out)@ + signed_decimal(v as int));
}

} // verus!
