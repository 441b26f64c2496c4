//! Text helpers shared by the other modules.

use vstd::prelude::*;

verus! {

/// Compares two string slices character by character.
pub fn same_text(a: &str, b: &str) -> (r: bool)
    ensures
        r == (a@ == b@),
{
    let n = a.unicode_len();
    if n != b.unicode_len() {
        return false;
    }
    let mut i: usize = 0;
    while i < n
        invariant
            n == a@.len(),
            n == b@.len(),
            i <= n,
            forall|j: int| 0 <= j < i ==> a@[j] == b@[j],
        decreases n - i,
    {
        if a.get_char(i) != b.get_char(i) {
            return false;
        }
        i = i + 1;
    }
    assert(a@ =~= b@);
    true
}


/// A decimal digit, `0` to `9`.
pub open spec fn is_decimal_digit(c: char) -> bool {
    '0' <= c && c <= '9'
}

/// The value of a run of decimal digits, most significant first.
pub open spec fn decimal_value(s: Seq<char>) -> nat
    decreases s.len(),
{
    if s.len() == 0 {
        0
    } else {
        decimal_value(s.drop_last()) * 10 + ((s.last() as int) - ('0' as int)) as nat
    }
}

/// The digits of an unsigned literal: the text without one leading `+`.
pub open spec fn unsigned_digits(s: Seq<char>) -> Seq<char> {
    if s.len() > 0 && s[0] == '+' {
        s.drop_first()
    } else {
        s
    }
}

/// What std's `FromStr` for an unsigned integer type whose largest value is
/// `max` gives for `s`: an optional `+` followed by at least one decimal
/// digit and nothing else, whose value does not exceed `max`.
pub open spec fn parsed_unsigned(s: Seq<char>, max: nat) -> Option<nat> {
    let d = unsigned_digits(s);
    if d.len() > 0 && (forall|i: int| 0 <= i < d.len() ==> #[trigger] is_decimal_digit(d[i]))
        && decimal_value(d) <= max {
        Some(decimal_value(d))
    } else {
        None
    }
}

/// Parses a `u64` with std's `str::parse::<u64>`. As std documents it, the
/// text must be an optional `+` and decimal digits only, and the value must
/// fit: this is what the contract claims of the call.
#[verifier::external_body]
pub(crate) fn parse_u64(s: &str) -> (r: Option<u64>)
    ensures
        match r {
            Some(v) => parsed_unsigned(s@, u64::MAX as nat) == Some(v as nat),
            None => parsed_unsigned(s@, u64::MAX as nat) is None,
        },
{
    s.parse::<u64>().ok()
}

/// Parses a `usize` with std's `str::parse::<usize>`, under the same
/// documented grammar as [`parse_u64`], bounded by `usize::MAX`.
#[verifier::external_body]
pub(crate) fn parse_usize(s: &str) -> (r: Option<usize>)
    ensures
        match r {
            Some(v) => parsed_unsigned(s@, usize::MAX as nat) == Some(v as nat),
            None => parsed_unsigned(s@, usize::MAX as nat) is None,
        },
{
    s.parse::<usize>().ok()
}


/// The character of a decimal digit `d` (`d < 10`).
pub open spec fn digit_char(d: nat) -> char {
    if d == 0 {
        '0'
    } else if d == 1 {
        '1'
    } else if d == 2 {
        '2'
    } else if d == 3 {
        '3'
    } else if d == 4 {
        '4'
    } else if d == 5 {
        '5'
    } else if d == 6 {
        '6'
    } else if d == 7 {
        '7'
    } else if d == 8 {
        '8'
    } else {
        '9'
    }
}

/// The decimal notation of `n`: its digits, most significant first, with no
/// leading zero (as `Display` writes an unsigned integer).
pub open spec fn decimal_text(n: nat) -> Seq<char>
    decreases n,
{
    if n < 10 {
        seq![digit_char(n)]
    } else {
        decimal_text(n / 10).push(digit_char(n % 10))
    }
}

fn digit_str(d: u64) -> (r: &'static str)
    requires
        d < 10,
    ensures
        r@ == seq![digit_char(d as nat)],
{
    if d == 0 {
        let s = "0";
        proof { reveal_strlit("0"); }
        s
    } else if d == 1 {
        let s = "1";
        proof { reveal_strlit("1"); }
        s
    } else if d == 2 {
        let s = "2";
        proof { reveal_strlit("2"); }
        s
    } else if d == 3 {
        let s = "3";
        proof { reveal_strlit("3"); }
        s
    } else if d == 4 {
        let s = "4";
        proof { reveal_strlit("4"); }
        s
    } else if d == 5 {
        let s = "5";
        proof { reveal_strlit("5"); }
        s
    } else if d == 6 {
        let s = "6";
        proof { reveal_strlit("6"); }
        s
    } else if d == 7 {
        let s = "7";
        proof { reveal_strlit("7"); }
        s
    } else if d == 8 {
        let s = "8";
        proof { reveal_strlit("8"); }
        s
    } else {
        let s = "9";
        proof { reveal_strlit("9"); }
        s
    }
}

/// Writes `n` in decimal.
pub fn decimal_string(n: u64) -> (r: String)
    ensures
        r@ == decimal_text(n as nat),
    decreases n,
{
    if n < 10 {
        String::from_str(digit_str(n))
    } else {
        let mut s = decimal_string(n / 10);
        s.append(digit_str(n % 10));
        s
    }
}

/// Joins two texts into a new string.
pub fn joined(a: &str, b: &str) -> (r: String)
    ensures
        r@ == a@ + b@,
{
    let mut s = String::from_str(a);
    s.append(b);
    s
}


proof fn lemma_digit_char_value(d: nat)
    requires
        d < 10,
    ensures
        (digit_char(d) as int) - ('0' as int) == d,
        is_decimal_digit(digit_char(d)),
{
}

proof fn lemma_decimal_text_digits(n: nat)
    ensures
        decimal_text(n).len() > 0,
        is_decimal_digit(decimal_text(n)[0]),
        forall|i: int| 0 <= i < decimal_text(n).len() ==> #[trigger] is_decimal_digit(decimal_text(n)[i]),
        decimal_value(decimal_text(n)) == n,
    decreases n,
{
    lemma_digit_char_value(n % 10);
    let t = decimal_text(n);
    if n < 10 {
        assert(n % 10 == n);
        assert(t.drop_last() =~= Seq::<char>::empty());
        assert(decimal_value(t.drop_last()) == 0);
        assert(t.last() == digit_char(n));
    } else {
        lemma_decimal_text_digits(n / 10);
        assert(n == (n / 10) * 10 + n % 10);
        assert(t.last() == digit_char(n % 10));
        assert(t.drop_last() =~= decimal_text(n / 10));
        assert(t[0] == decimal_text(n / 10)[0]);
    }
}

/// The decimal text of any number within the bound parses back to that
/// number.
pub proof fn lemma_decimal_text_parses(n: nat, max: nat)
    requires
        n <= max,
    ensures
        parsed_unsigned(decimal_text(n), max) == Some(n),
{
    lemma_decimal_text_digits(n);
}

} // verus!
