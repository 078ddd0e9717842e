use vstd::prelude::*;

verus! {

/// The decimal digit character for `d` (`0 <= d < 10`).
pub open spec fn digit_char(d: int) -> char {
    if d == 0 { '0' }
    else if d == 1 { '1' }
    else if d == 2 { '2' }
    else if d == 3 { '3' }
    else if d == 4 { '4' }
    else if d == 5 { '5' }
    else if d == 6 { '6' }
    else if d == 7 { '7' }
    else if d == 8 { '8' }
    else { '9' }
}

/// Decimal notation of a natural number, without leading zeros.
pub open spec fn decimal_text(n: nat) -> Seq<char>
    decreases n,
{
    if n < 10 {
        seq![digit_char(n as int)]
    } else {
        decimal_text(n / 10) + seq![digit_char((n % 10) as int)]
    }
}

/// Two-digit, zero-padded decimal notation of `n` (`0 <= n < 100`).
pub open spec fn two_digits(n: int) -> Seq<char> {
    seq![digit_char(n / 10), digit_char((n % 10) as int)]
}

/// The value of a decimal digit character; -1 for any other character.
pub open spec fn digit_value(c: char) -> int {
    if c == '0' { 0 }
    else if c == '1' { 1 }
    else if c == '2' { 2 }
    else if c == '3' { 3 }
    else if c == '4' { 4 }
    else if c == '5' { 5 }
    else if c == '6' { 6 }
    else if c == '7' { 7 }
    else if c == '8' { 8 }
    else if c == '9' { 9 }
    else { -1 }
}

/// A non-empty run of decimal digit characters.
pub open spec fn is_numeral(s: Seq<char>) -> bool {
    s.len() > 0 && forall|i: int| 0 <= i < s.len() ==> digit_value(#[trigger] s[i]) >= 0
}

/// The number that a run of decimal digits reads as.
pub open spec fn numeral_value(s: Seq<char>) -> int
    decreases s.len(),
{
    if s.len() == 0 {
        0
    } else {
        numeral_value(s.drop_last()) * 10 + digit_value(s.last())
    }
}

proof fn lemma_digit_char_value(d: int)
    requires
        0 <= d < 10,
    ensures
        digit_value(digit_char(d)) == d,
{
}

/// The decimal text of `n` is a run of digits that reads as `n`.
pub proof fn lemma_decimal_text_reads_back(n: nat)
    ensures
        is_numeral(decimal_text(n)),
        numeral_value(decimal_text(n)) == n,
    decreases n,
{
    if n < 10 {
        lemma_digit_char_value(n as int);
        let s = decimal_text(n);
        assert(s.drop_last() =~= Seq::<char>::empty());
        assert(numeral_value(s.drop_last()) == 0);
        assert(s.last() == digit_char(n as int));
        assert(numeral_value(s) == numeral_value(s.drop_last()) * 10 + digit_value(s.last()));
    } else {
        lemma_decimal_text_reads_back(n / 10);
        lemma_digit_char_value((n % 10) as int);
        let s = decimal_text(n);
        assert(s.drop_last() =~= decimal_text(n / 10));
        assert(s.last() == digit_char((n % 10) as int));
        assert(numeral_value(s) == numeral_value(s.drop_last()) * 10 + digit_value(s.last()));
        assert((n / 10) * 10 + n % 10 == n);
        assert forall|i: int| 0 <= i < s.len() implies digit_value(#[trigger] s[i]) >= 0 by {
            if i < s.len() - 1 {
                assert(s[i] == decimal_text(n / 10)[i]);
            }
        }
    }
}

/// The two-digit text of `n` (`0 <= n < 100`) is a run of digits that reads as `n`.
pub proof fn lemma_two_digits_reads_back(n: int)
    requires
        0 <= n < 100,
    ensures
        is_numeral(two_digits(n)),
        two_digits(n).len() == 2,
        numeral_value(two_digits(n)) == n,
{
    lemma_digit_char_value(n / 10);
    lemma_digit_char_value(n % 10);
    let s = two_digits(n);
    assert(s.drop_last() =~= seq![digit_char(n / 10)]);
    assert(s.drop_last().drop_last() =~= Seq::<char>::empty());
    assert(numeral_value(s.drop_last().drop_last()) == 0);
    assert(numeral_value(s.drop_last()) == digit_value(digit_char(n / 10)));
    assert(numeral_value(s) == numeral_value(s.drop_last()) * 10 + digit_value(s.last()));
    assert((n / 10) * 10 + n % 10 == n);
}

/// A one-character string holding the digit `d`.
fn digit_str(d: u64) -> (s: &'static str)
    requires
        d < 10,
    ensures
        s@ == seq![digit_char(d as int)],
{
    proof {
        reveal_strlit("0");
        reveal_strlit("1");
        reveal_strlit("2");
        reveal_strlit("3");
        reveal_strlit("4");
        reveal_strlit("5");
        reveal_strlit("6");
        reveal_strlit("7");
        reveal_strlit("8");
        reveal_strlit("9");
    }
    if d == 0 { "0" }
    else if d == 1 { "1" }
    else if d == 2 { "2" }
    else if d == 3 { "3" }
    else if d == 4 { "4" }
    else if d == 5 { "5" }
    else if d == 6 { "6" }
    else if d == 7 { "7" }
    else if d == 8 { "8" }
    else { "9" }
}

/// Writes `n` in decimal, as `{}` formats an unsigned integer.
pub fn decimal_string(n: u64) -> (s: String)
    ensures
        s@ == decimal_text(n as nat),
    decreases n,
{
    if n < 10 {
        String::from_str(digit_str(n))
    } else {
        let mut s = decimal_string(n / 10);
        s.append(digit_str(n % 10));
        s
    }
}

} // verus!
