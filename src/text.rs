//! Text: trailing whitespace, plurals and decimal numbers.

use vstd::prelude::*;

verus! {

/// What `str::trim_end` leaves of a string.
pub uninterp spec fn trim_end_of(s: Seq<char>) -> Seq<char>;

/// Relies on `str::trim_end`: the string without its trailing whitespace, which is
/// a prefix of it.
#[verifier::external_body]
pub(crate) fn trim_end_str(s: &str) -> (r: &str)
    ensures
        r@ == trim_end_of(s@),
        r@.len() <= s@.len(),
        r@ == s@.subrange(0, r@.len() as int),
{
    s.trim_end()
}

/// `s` without the letters `s` at its end.
pub open spec fn without_trailing_s(s: Seq<char>) -> Seq<char>
    decreases s.len(),
{
    if s.len() > 0 && s.last() == 's' {
        without_trailing_s(s.drop_last())
    } else {
        s
    }
}

/// The word for `length` things: `word` without its trailing `s` for one thing,
/// `word` itself otherwise.
pub fn plural_str(length: usize, word: &str) -> (r: &str)
    ensures
        r@ == (if length == 1 { without_trailing_s(word@) } else { word@ }),
{
    if length != 1 {
        return word;
    }
    let mut end = word.unicode_len();
    assert(word@.subrange(0, end as int) =~= word@);
    while end > 0 && word.get_char(end - 1) == 's'
        invariant
            end <= word@.len(),
            without_trailing_s(word@) == without_trailing_s(word@.subrange(0, end as int)),
        decreases end,
    {
        assert(word@.subrange(0, end as int).drop_last() =~= word@.subrange(0, end - 1));
        end = end - 1;
    }
    word.substring_char(0, end)
}

/// The character of a decimal digit.
pub open spec fn digit_char(d: nat) -> char {
    if d == 0 { '0' }
    else if d == 1 { '1' }
    else if d == 2 { '2' }
    else if d == 3 { '3' }
    else if d == 4 { '4' }
    else if d == 5 { '5' }
    else if d == 6 { '6' }
    else if d == 7 { '7' }
    else if d == 8 { '8' }
    else { '9' }
}

/// The decimal digits of `n`, without leading zeros.
pub open spec fn decimal_text(n: nat) -> Seq<char>
    decreases n,
{
    if n < 10 {
        seq![digit_char(n)]
    } else {
        decimal_text(n / 10).push(digit_char(n % 10))
    }
}

/// The decimal text of `n`, with a leading `-` where it is negative.
pub open spec fn int_text(n: int) -> Seq<char> {
    if n < 0 {
        seq!['-'] + decimal_text((-n) as nat)
    } else {
        decimal_text(n as nat)
    }
}

fn digit_str(d: u64) -> (r: &'static str)
    requires
        d < 10,
    ensures
        r@ == seq![digit_char(d as nat)],
{
    proof {
        reveal_strlit("0");
        reveal_strlit("1");
        reveal_strlit("2");
        reveal_strlit("3");
        reveal_strlit("4");
        reveal_strlit("5");
        reveal_strlit("6");
        reveal_strlit("7");
        reveal_strlit("8");
        reveal_strlit("9");
    }
    let r = if d == 0 { "0" }
    else if d == 1 { "1" }
    else if d == 2 { "2" }
    else if d == 3 { "3" }
    else if d == 4 { "4" }
    else if d == 5 { "5" }
    else if d == 6 { "6" }
    else if d == 7 { "7" }
    else if d == 8 { "8" }
    else { "9" };
    assert(r@ =~= seq![digit_char(d as nat)]);
    r
}

/// The decimal text of `n`.
pub fn u64_text(n: u64) -> (r: String)
    ensures
        r@ == decimal_text(n as nat),
{
    let mut m: u64 = n;
    let mut acc = String::new();
    while m >= 10
        invariant
            decimal_text(n as nat) == decimal_text(m as nat) + acc@,
        decreases m,
    {
        let d = digit_str(m % 10);
        let ghost before = acc@;
        acc = String::from_str(d).concat(acc.as_str());
        assert(decimal_text(m as nat) == decimal_text((m / 10) as nat).push(digit_char((m % 10) as nat)));
        assert(decimal_text((m / 10) as nat).push(digit_char((m % 10) as nat)) + before =~= decimal_text((m / 10) as nat) + acc@);
        m = m / 10;
    }
    let r = String::from_str(digit_str(m)).concat(acc.as_str());
    assert(decimal_text(m as nat) =~= seq![digit_char(m as nat)]);
    r
}

/// The decimal text of `n`, with a leading `-` where it is negative.
pub fn i64_text(n: i64) -> (r: String)
    ensures
        r@ == int_text(n as int),
{
    if n < 0 {
        let magnitude: u64 = ((-(n + 1)) as u64) + 1;
        let digits = u64_text(magnitude);
        proof {
            reveal_strlit("-");
        }
        let r = String::from_str("-").concat(digits.as_str());
        assert(r@ =~= seq!['-'] + decimal_text((-n) as nat));
        r
    } else {
        u64_text(n as u64)
    }
}

} // verus!
