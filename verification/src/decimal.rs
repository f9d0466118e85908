//! Decimal digits: the numbers that the fetcher reads from its ignore list and the
//! counts that it writes into its status lines.

use vstd::prelude::*;
use vstd::string::*;

verus! {

/// `c` is one of `0` to `9`.
pub open spec fn is_digit(c: char) -> bool {
    '0' <= c && c <= '9'
}

/// The number that the digit `c` stands for.
pub open spec fn digit_value(c: char) -> nat
    recommends
        is_digit(c),
{
    (c as int - '0' as int) as nat
}

/// The character that writes the digit `d`.
pub open spec fn digit_char(d: nat) -> char
    recommends
        d < 10,
{
    ('0' as int + d) as char
}

/// Every character of `text` is a digit.
pub open spec fn all_digits(text: Seq<char>) -> bool {
    forall|i: int| 0 <= i < text.len() ==> is_digit(#[trigger] text[i])
}

/// The number that a run of digits writes in base ten, the most significant digit
/// first. The empty run writes zero.
pub open spec fn decimal_value(digits: Seq<char>) -> nat
    decreases digits.len(),
{
    if digits.len() == 0 {
        0
    } else {
        10 * decimal_value(digits.drop_last()) + digit_value(digits.last())
    }
}

/// The digits of `n` without leading zeros; zero has none.
pub open spec fn significant_digits(n: nat) -> Seq<char>
    decreases n,
{
    if n == 0 {
        Seq::empty()
    } else {
        significant_digits(n / 10).push(digit_char(n % 10))
    }
}

/// How `n` is written in base ten: `0` for zero, else its digits without leading
/// zeros.
pub open spec fn decimal_text(n: nat) -> Seq<char> {
    if n == 0 {
        seq!['0']
    } else {
        significant_digits(n)
    }
}

/// The digits in `low_first`, which holds the least significant first, in the
/// order of writing.
spec fn written(low_first: Seq<u8>) -> Seq<char> {
    Seq::new(low_first.len(), |i: int| digit_char(low_first[low_first.len() - 1 - i] as nat))
}

/// The text of one digit.
fn digit_str(d: u8) -> (s: &'static str)
    requires
        d < 10,
    ensures
        s@ == seq![digit_char(d as nat)],
{
    proof {
        reveal_strlit("0");
        reveal_strlit("1");
        reveal_strlit("2");
        reveal_strlit("3");
        reveal_strlit("4");
        reveal_strlit("5");
        reveal_strlit("6");
        reveal_strlit("7");
        reveal_strlit("8");
        reveal_strlit("9");
    }
    let s = match d {
        0 => "0",
        1 => "1",
        2 => "2",
        3 => "3",
        4 => "4",
        5 => "5",
        6 => "6",
        7 => "7",
        8 => "8",
        _ => "9",
    };
    s
}

/// Writes `n` in base ten.
pub fn decimal(n: u64) -> (text: String)
    ensures
        text@ == decimal_text(n as nat),
{
    if n == 0 {
        proof {
            reveal_strlit("0");
        }
        return String::from_str("0");
    }
    let mut low_first: Vec<u8> = Vec::new();
    let mut rest: u64 = n;
    while rest > 0
        invariant
            significant_digits(n as nat) == significant_digits(rest as nat) + written(low_first@),
            forall|i: int| 0 <= i < low_first@.len() ==> low_first@[i] < 10,
        decreases rest,
    {
        let d: u8 = (rest % 10) as u8;
        proof {
            let shorter = significant_digits((rest / 10) as nat);
            let longer = low_first@.push(d);
            assert(shorter.push(digit_char(d as nat)) + written(low_first@) =~= shorter + written(
                longer,
            ));
        }
        low_first.push(d);
        rest = rest / 10;
    }
    let mut text = String::new();
    let mut left: usize = low_first.len();
    while left > 0
        invariant
            left <= low_first@.len(),
            text@ == written(low_first@).take(low_first@.len() - left),
            forall|i: int| 0 <= i < low_first@.len() ==> low_first@[i] < 10,
        decreases left,
    {
        left = left - 1;
        let d: u8 = low_first[left];
        text.append(digit_str(d));
    }
    text
}

/// The digits of a number without leading zeros are digits, and their value is
/// the number; a number above zero has at least one.
proof fn lemma_significant_digits(n: nat)
    ensures
        all_digits(significant_digits(n)),
        decimal_value(significant_digits(n)) == n,
        n > 0 ==> significant_digits(n).len() > 0,
    decreases n,
{
    if n > 0 {
        lemma_significant_digits(n / 10);
        assert(significant_digits(n).drop_last() =~= significant_digits(n / 10));
    }
}

/// What is written is read back: the text of a number holds digits only, at least
/// one, and its value is the number.
pub proof fn law_decimal_reads_back(n: nat)
    ensures
        decimal_text(n).len() > 0,
        all_digits(decimal_text(n)),
        decimal_value(decimal_text(n)) == n,
{
    if n == 0 {
        assert(decimal_value(decimal_text(n).drop_last()) == 0);
    } else {
        lemma_significant_digits(n);
    }
}

} // verus!
