//! Decimal text for the numbers that go into headers and messages.

use vstd::prelude::*;
use vstd::string::*;

verus! {

/// The character that writes the digit `d`.
pub open spec fn digit_char(d: int) -> char
    recommends
        0 <= d < 10,
{
    (48 + d) as char
}

/// The decimal notation of `n`: no sign, no leading zero, `"0"` for zero.
pub open spec fn decimal_digits(n: nat) -> Seq<char>
    decreases n,
{
    if n < 10 {
        seq![digit_char(n as int)]
    } else {
        decimal_digits(n / 10) + seq![digit_char((n % 10) as int)]
    }
}

/// True when `c` is one of `'0'` to `'9'`.
pub open spec fn is_digit(c: char) -> bool {
    '0' <= c <= '9'
}

/// A decimal notation is never empty and holds digits only.
pub proof fn lemma_decimal_digits_shape(n: nat)
    ensures
        decimal_digits(n).len() >= 1,
        forall|i: int| 0 <= i < decimal_digits(n).len() ==> is_digit(#[trigger] decimal_digits(n)[i]),
    decreases n,
{
    if n >= 10 {
        lemma_decimal_digits_shape(n / 10);
    }
}

fn digit_str(d: u64) -> (s: &'static str)
    requires
        d < 10,
    ensures
        s@ == seq![digit_char(d as int)],
{
    proof {
        reveal_strlit("0");
        reveal_strlit("1");
        reveal_strlit("2");
        reveal_strlit("3");
        reveal_strlit("4");
        reveal_strlit("5");
        reveal_strlit("6");
        reveal_strlit("7");
        reveal_strlit("8");
        reveal_strlit("9");
    }
    let s = if d == 0 {
        "0"
    } else if d == 1 {
        "1"
    } else if d == 2 {
        "2"
    } else if d == 3 {
        "3"
    } else if d == 4 {
        "4"
    } else if d == 5 {
        "5"
    } else if d == 6 {
        "6"
    } else if d == 7 {
        "7"
    } else if d == 8 {
        "8"
    } else {
        "9"
    };
    assert(s@ =~= seq![digit_char(d as int)]);
    s
}

/// Writes `n` in decimal.
pub fn decimal(n: u64) -> (s: String)
    ensures
        s@ == decimal_digits(n as nat),
{
    let mut low: Vec<u64> = Vec::new();
    let mut rest: u64 = n;
    let ghost mut tail: Seq<char> = Seq::empty();
    while rest >= 10
        invariant
            decimal_digits(n as nat) == decimal_digits(rest as nat) + tail,
            tail.len() == low.len(),
            forall|j: int| 0 <= j < low.len() ==> low[j] < 10,
            forall|j: int|
                0 <= j < low.len() ==> #[trigger] tail[j] == digit_char(low[low.len() - 1 - j] as int),
        decreases rest,
    {
        let d: u64 = rest % 10;
        proof {
            let grown = seq![digit_char(d as int)] + tail;
            assert(decimal_digits(rest as nat) == decimal_digits((rest / 10) as nat) + seq![
                digit_char(d as int),
            ]);
            assert(decimal_digits((rest / 10) as nat) + seq![digit_char(d as int)] + tail
                =~= decimal_digits((rest / 10) as nat) + grown);
            tail = grown;
        }
        low.push(d);
        rest = rest / 10;
    }
    let mut s = String::from_str(digit_str(rest));
    let mut i: usize = low.len();
    while i > 0
        invariant
            i <= low.len(),
            tail.len() == low.len(),
            forall|j: int| 0 <= j < low.len() ==> low[j] < 10,
            forall|j: int|
                0 <= j < low.len() ==> #[trigger] tail[j] == digit_char(low[low.len() - 1 - j] as int),
            s@ == decimal_digits(rest as nat) + tail.take(low.len() - i),
        decreases i,
    {
        i = i - 1;
        s.append(digit_str(low[i]));
        proof {
            let k = low.len() - 1 - i;
            assert(tail[k] == digit_char(low[i as int] as int));
            assert(tail.take(k + 1) =~= tail.take(k) + seq![tail[k]]);
            assert(s@ =~= decimal_digits(rest as nat) + tail.take(k + 1));
        }
    }
    assert(tail.take(low.len() as int) =~= tail);
    s
}

} // verus!
