//! The ignore list: the status codes whose responses the fetcher drops, written as
//! one text with a comma between entries.

use crate::decimal::{all_digits, decimal_text, decimal_value, is_digit, law_decimal_reads_back};
use vstd::prelude::*;

verus! {

/// An entry without the one `+` that may stand before its digits.
pub open spec fn unsigned_part(entry: Seq<char>) -> Seq<char> {
    if entry.len() > 0 && entry[0] == '+' {
        entry.drop_first()
    } else {
        entry
    }
}

/// The status code that an entry writes: an optional `+`, then one digit or more,
/// nothing else, and a value that fits sixteen bits. Any other entry writes none.
pub open spec fn status_code(entry: Seq<char>) -> Option<u16> {
    let digits = unsigned_part(entry);
    if digits.len() > 0 && all_digits(digits) && decimal_value(digits) <= u16::MAX {
        Some(decimal_value(digits) as u16)
    } else {
        None
    }
}

/// The entries of a list: the runs of characters between its commas. A text with
/// `n` commas has `n + 1` entries, some of them possibly empty.
pub open spec fn entries(text: Seq<char>) -> Seq<Seq<char>>
    decreases text.len(),
{
    if text.len() == 0 {
        seq![Seq::empty()]
    } else {
        let before = entries(text.drop_last());
        if text.last() == ',' {
            before.push(Seq::empty())
        } else {
            before.drop_last().push(before.last().push(text.last()))
        }
    }
}

/// The codes that the entries write, in their order; an entry that writes none is
/// passed over.
pub open spec fn codes_of(entries: Seq<Seq<char>>) -> Seq<u16>
    decreases entries.len(),
{
    if entries.len() == 0 {
        Seq::empty()
    } else {
        let before = codes_of(entries.drop_last());
        match status_code(entries.last()) {
            Some(code) => before.push(code),
            None => before,
        }
    }
}

/// The status codes that an ignore list names.
pub open spec fn ignore_codes(text: Seq<char>) -> Seq<u16> {
    codes_of(entries(text))
}

/// The entries written as one text, with a comma between them.
pub open spec fn joined(entries: Seq<Seq<char>>) -> Seq<char>
    decreases entries.len(),
{
    if entries.len() == 0 {
        Seq::empty()
    } else if entries.len() == 1 {
        entries[0]
    } else {
        joined(entries.drop_last()) + seq![','] + entries.last()
    }
}

/// Reads an ignore list: the codes of the entries that write one, in the order of
/// the text. Entries that write none are dropped, so every text is accepted.
pub fn parse_ignore_codes(text: &str) -> (codes: Vec<u16>)
    ensures
        codes@ == ignore_codes(text@),
{
    let mut codes: Vec<u16> = Vec::new();
    let mut entry: Vec<char> = Vec::new();
    for c in it: text.chars()
        invariant
            it.seq() == text@,
            entries(text@.take(it.index() as int)).len() > 0,
            entry@ == entries(text@.take(it.index() as int)).last(),
            codes@ == codes_of(entries(text@.take(it.index() as int)).drop_last()),
    {
        let ghost seen = text@.take(it.index() as int);
        let ghost next = text@.take(it.index() + 1);
        assert(next.drop_last() =~= seen);
        if c == ',' {
            if let Some(code) = code_of_entry(&entry) {
                codes.push(code);
            }
            entry.clear();
            assert(entries(next).drop_last() =~= entries(seen));
        } else {
            entry.push(c);
            assert(entries(next).drop_last() =~= entries(seen).drop_last());
        }
    }
    assert(text@.take(text@.len() as int) =~= text@);
    if let Some(code) = code_of_entry(&entry) {
        codes.push(code);
    }
    codes
}

/// Reads one entry.
fn code_of_entry(entry: &Vec<char>) -> (code: Option<u16>)
    ensures
        code == status_code(entry@),
{
    let n = entry.len();
    let start: usize = if n > 0 && entry[0] == '+' {
        1
    } else {
        0
    };
    let ghost digits = unsigned_part(entry@);
    if start == n {
        return None;
    }
    let mut value: u32 = 0;
    let mut i: usize = start;
    while i < n
        invariant
            start <= i <= n,
            n == entry@.len(),
            digits == entry@.skip(start as int),
            digits == unsigned_part(entry@),
            all_digits(digits.take(i - start)),
            value == decimal_value(digits.take(i - start)),
            value <= u16::MAX,
        decreases n - i,
    {
        let c = entry[i];
        if c < '0' || c > '9' {
            assert(!is_digit(digits[i - start]));
            return None;
        }
        let d: u32 = c as u32 - '0' as u32;
        proof {
            let longer = digits.take(i - start + 1);
            assert(longer.drop_last() =~= digits.take(i - start));
            assert(all_digits(longer));
        }
        value = value * 10 + d;
        if value > 65535 {
            proof {
                lemma_value_grows(digits, i - start + 1);
            }
            return None;
        }
        i = i + 1;
    }
    assert(digits.take(i - start) =~= digits);
    Some(value as u16)
}

/// The value of a run of digits is at least the value of each of its beginnings.
proof fn lemma_value_grows(digits: Seq<char>, k: int)
    requires
        0 <= k <= digits.len(),
    ensures
        decimal_value(digits.take(k)) <= decimal_value(digits),
    decreases digits.len() - k,
{
    if k < digits.len() {
        lemma_value_grows(digits, k + 1);
        assert(digits.take(k + 1).drop_last() =~= digits.take(k));
    } else {
        assert(digits.take(k) =~= digits);
    }
}

/// The entries of a text are what stands between its commas: no entry holds a
/// comma, and the entries with a comma between them are the text again.
pub proof fn law_entries_split_at_commas(text: Seq<char>)
    ensures
        entries(text).len() > 0,
        forall|i: int|
            0 <= i < entries(text).len() ==> !(#[trigger] entries(text)[i]).contains(','),
        joined(entries(text)) == text,
    decreases text.len(),
{
    if text.len() > 0 {
        let shorter = text.drop_last();
        law_entries_split_at_commas(shorter);
        let before = entries(shorter);
        let now = entries(text);
        if text.last() == ',' {
            assert(now.drop_last() =~= before);
        } else {
            let grown = before.last().push(text.last());
            assert(now.drop_last() =~= before.drop_last());
            if before.len() > 1 {
                assert(joined(now) =~= joined(before).push(text.last()));
            }
            assert(!grown.contains(',')) by {
                assert(!before.last().contains(','));
            }
        }
        assert forall|i: int| 0 <= i < now.len() implies !(#[trigger] now[i]).contains(',') by {
            if i < now.len() - 1 {
                assert(now[i] == before[i]);
            }
        }
    }
}

/// A status code that is written in base ten is read back as it was.
pub proof fn law_written_code_reads_back(code: u16)
    ensures
        status_code(decimal_text(code as nat)) == Some(code),
{
    law_decimal_reads_back(code as nat);
}

} // verus!
