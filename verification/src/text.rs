//! Decimal text of integers, as it appears in rendered statements.

use vstd::prelude::*;

verus! {

/// The one-character text of a decimal digit.
pub open spec fn digit_text(d: int) -> Seq<char> {
    if d == 0 {
        "0"@
    } else if d == 1 {
        "1"@
    } else if d == 2 {
        "2"@
    } else if d == 3 {
        "3"@
    } else if d == 4 {
        "4"@
    } else if d == 5 {
        "5"@
    } else if d == 6 {
        "6"@
    } else if d == 7 {
        "7"@
    } else if d == 8 {
        "8"@
    } else {
        "9"@
    }
}

/// The decimal text of a natural number, without leading zeros.
pub open spec fn nat_text(n: nat) -> Seq<char>
    decreases n,
{
    if n < 10 {
        digit_text(n as int)
    } else {
        nat_text(n / 10) + digit_text((n % 10) as int)
    }
}

/// The decimal text of an integer: a minus sign in front of negative numbers.
pub open spec fn int_text(i: int) -> Seq<char> {
    if i < 0 {
        "-"@ + nat_text((-i) as nat)
    } else {
        nat_text(i as nat)
    }
}

/// Whether a character is one of the ten decimal digits.
pub open spec fn is_digit(c: char) -> bool {
    c == '0' || c == '1' || c == '2' || c == '3' || c == '4' || c == '5' || c == '6' || c == '7'
        || c == '8' || c == '9'
}

fn digit_str(d: u64) -> (s: &'static str)
    requires
        d < 10,
    ensures
        s@ == digit_text(d as int),
{
    if d == 0 {
        "0"
    } else if d == 1 {
        "1"
    } else if d == 2 {
        "2"
    } else if d == 3 {
        "3"
    } else if d == 4 {
        "4"
    } else if d == 5 {
        "5"
    } else if d == 6 {
        "6"
    } else if d == 7 {
        "7"
    } else if d == 8 {
        "8"
    } else {
        "9"
    }
}

/// Writes an unsigned number in decimal.
pub fn u64_to_string(n: u64) -> (s: String)
    ensures
        s@ == nat_text(n as nat),
    decreases n,
{
    if n < 10 {
        String::from_str(digit_str(n))
    } else {
        let head: String = u64_to_string(n / 10);
        head.concat(digit_str(n % 10))
    }
}

/// Writes a signed number in decimal.
pub fn i64_to_string(i: i64) -> (s: String)
    ensures
        s@ == int_text(i as int),
{
    if i < 0 {
        let magnitude: u64 = ((-(i + 1)) as u64) + 1;
        let digits: String = u64_to_string(magnitude);
        String::from_str("-").concat(digits.as_str())
    } else {
        u64_to_string(i as u64)
    }
}

/// A digit's text is a single digit character, and tells the digit.
pub proof fn lemma_digit_text(d: int)
    requires
        0 <= d < 10,
    ensures
        digit_text(d).len() == 1,
        is_digit(digit_text(d)[0]),
        forall|e: int| 0 <= e < 10 && digit_text(e)[0] == digit_text(d)[0] ==> e == d,
{
    reveal_strlit("0");
    reveal_strlit("1");
    reveal_strlit("2");
    reveal_strlit("3");
    reveal_strlit("4");
    reveal_strlit("5");
    reveal_strlit("6");
    reveal_strlit("7");
    reveal_strlit("8");
    reveal_strlit("9");
}

/// The decimal text of a number is never empty and holds digits only.
pub proof fn lemma_nat_text_digits(n: nat)
    ensures
        nat_text(n).len() >= 1,
        forall|i: int| 0 <= i < nat_text(n).len() ==> is_digit(#[trigger] nat_text(n)[i]),
    decreases n,
{
    if n < 10 {
        lemma_digit_text(n as int);
    } else {
        lemma_nat_text_digits(n / 10);
        lemma_digit_text((n % 10) as int);
    }
}

/// Different numbers have different decimal texts.
pub proof fn lemma_nat_text_injective(a: nat, b: nat)
    requires
        nat_text(a) == nat_text(b),
    ensures
        a == b,
    decreases a,
{
    lemma_nat_text_digits(a);
    lemma_nat_text_digits(b);
    lemma_nat_text_digits(a / 10);
    lemma_nat_text_digits(b / 10);
    lemma_digit_text((a % 10) as int);
    lemma_digit_text((b % 10) as int);
    let ta = nat_text(a);
    let tb = nat_text(b);
    if a < 10 && b < 10 {
        assert(ta[0] == tb[0]);
    } else if a < 10 {
        assert(tb.len() >= 2);
    } else if b < 10 {
        assert(ta.len() >= 2);
    } else {
        let ha = nat_text(a / 10);
        let hb = nat_text(b / 10);
        let da = digit_text((a % 10) as int);
        let db = digit_text((b % 10) as int);
        assert(ta == ha + da);
        assert(tb == hb + db);
        assert(ta.last() == da[0]);
        assert(tb.last() == db[0]);
        assert(a % 10 == b % 10);
        assert(ta.drop_last() =~= ha);
        assert(tb.drop_last() =~= hb);
        lemma_nat_text_injective(a / 10, b / 10);
    }
}

} // verus!
