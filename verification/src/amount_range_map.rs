//! The text form of an amount-probability table: one entry per row, keyed by
//! the range written as `min-max` in decimal digits. Reading is lenient: an
//! entry whose key is not of that form, or whose row a table cannot hold, is
//! passed over.

use crate::sampler::{
    overlaps_any, position_of, rows_after_insert, valid_rows, AmountProbabilities, AmountRange,
    WeightedRange,
};
use crate::text::joined;
use vstd::prelude::*;

verus! {

/// Whether a character is a decimal digit.
pub open spec fn is_digit(c: char) -> bool {
    48 <= c as u32 <= 57
}

/// The value of a decimal digit.
pub open spec fn digit_of(c: char) -> nat {
    (c as u32 - 48) as nat
}

/// The character of a decimal digit.
pub open spec fn digit_char(d: nat) -> char {
    if d == 0 {
        '0'
    } else if d == 1 {
        '1'
    } else if d == 2 {
        '2'
    } else if d == 3 {
        '3'
    } else if d == 4 {
        '4'
    } else if d == 5 {
        '5'
    } else if d == 6 {
        '6'
    } else if d == 7 {
        '7'
    } else if d == 8 {
        '8'
    } else {
        '9'
    }
}

/// The decimal digits of a number, without leading zeros.
pub open spec fn decimal_of(n: nat) -> Seq<char>
    decreases n,
{
    if n < 10 {
        seq![digit_char(n)]
    } else {
        decimal_of(n / 10).push(digit_char(n % 10))
    }
}

/// The number that a sequence of decimal digits stands for.
pub open spec fn number_of(digits: Seq<char>) -> nat
    decreases digits.len(),
{
    if digits.len() == 0 {
        0
    } else {
        number_of(digits.drop_last()) * 10 + digit_of(digits.last())
    }
}

/// Whether every character is a decimal digit.
pub open spec fn all_digits(text: Seq<char>) -> bool {
    forall|i: int| 0 <= i < text.len() ==> is_digit(#[trigger] text[i])
}

/// A text without the plus sign that may stand in front of a number.
pub open spec fn unsigned_part(text: Seq<char>) -> Seq<char> {
    if text.len() > 0 && text[0] == '+' {
        text.subrange(1, text.len() as int)
    } else {
        text
    }
}

/// The number that a text stands for: decimal digits, at least one, with an
/// optional plus sign in front, and a value that a `u64` holds.
pub open spec fn parsed_number(text: Seq<char>) -> Option<u64> {
    let body = unsigned_part(text);
    if body.len() > 0 && all_digits(body) && number_of(body) <= u64::MAX {
        Some(number_of(body) as u64)
    } else {
        None
    }
}

/// Whether a text holds a hyphen.
pub open spec fn has_hyphen(text: Seq<char>) -> bool {
    exists|i: int| 0 <= i < text.len() && #[trigger] text[i] == '-'
}

/// `at` is the position of the first hyphen of `text`.
pub open spec fn first_hyphen_at(text: Seq<char>, at: int) -> bool {
    &&& 0 <= at < text.len()
    &&& text[at] == '-'
    &&& forall|j: int| 0 <= j < at ==> #[trigger] text[j] != '-'
}

/// The range that a key stands for: two numbers with one hyphen between them.
pub open spec fn parsed_key(key: Seq<char>) -> Option<AmountRange> {
    if exists|at: int| first_hyphen_at(key, at) {
        let at = choose|at: int| first_hyphen_at(key, at);
        match (
            parsed_number(key.subrange(0, at)),
            parsed_number(key.subrange(at + 1, key.len() as int)),
        ) {
            (Some(min), Some(max)) => Some(AmountRange { min, max }),
            _ => None,
        }
    } else {
        None
    }
}

/// The key of a range.
pub open spec fn key_of(range: AmountRange) -> Seq<char> {
    decimal_of(range.min as nat) + seq!['-'] + decimal_of(range.max as nat)
}

/// The rows read from a list of entries, in their order.
pub open spec fn rows_from(entries: Seq<(Seq<char>, u64)>) -> Seq<WeightedRange>
    decreases entries.len(),
{
    if entries.len() == 0 {
        Seq::empty()
    } else {
        let before = rows_from(entries.drop_last());
        match parsed_key(entries.last().0) {
            Some(range) => rows_after_insert(before, range, entries.last().1),
            None => before,
        }
    }
}

/// The entries that rows are written as.
pub open spec fn entries_of(rows: Seq<WeightedRange>) -> Seq<(Seq<char>, u64)> {
    Seq::new(rows.len(), |i: int| (key_of(rows[i].range), rows[i].probability))
}

/// The view of a list of entries.
pub open spec fn entries_view(entries: Seq<(String, u64)>) -> Seq<(Seq<char>, u64)> {
    Seq::new(entries.len(), |i: int| (entries[i].0@, entries[i].1))
}

proof fn lemma_digit_chars(d: nat)
    requires
        d < 10,
    ensures
        is_digit(digit_char(d)),
        digit_of(digit_char(d)) == d,
        digit_char(d) != '-',
        digit_char(d) != '+',
{
}

/// The decimal digits of a number are digits, at least one, and stand for
/// that number.
pub proof fn lemma_decimal_round_trip(n: nat)
    ensures
        decimal_of(n).len() > 0,
        all_digits(decimal_of(n)),
        number_of(decimal_of(n)) == n,
        !has_hyphen(decimal_of(n)),
        decimal_of(n)[0] != '+',
        n <= u64::MAX ==> parsed_number(decimal_of(n)) == Some(n as u64),
    decreases n,
{
    let text = decimal_of(n);
    if n < 10 {
        lemma_digit_chars(n);
        assert(text.drop_last() =~= Seq::<char>::empty());
        assert(number_of(text.drop_last()) == 0);
        assert(text.last() == digit_char(n));
    } else {
        lemma_decimal_round_trip(n / 10);
        lemma_digit_chars(n % 10);
        let front = decimal_of(n / 10);
        assert(text.drop_last() =~= front);
        assert(text.last() == digit_char(n % 10));
        assert(text[0] == front[0]);
        assert forall|i: int| 0 <= i < text.len() implies is_digit(#[trigger] text[i]) by {
            if i < front.len() {
                assert(text[i] == front[i]);
            }
        }
        if has_hyphen(text) {
            let i = choose|i: int| 0 <= i < text.len() && #[trigger] text[i] == '-';
            if i < front.len() {
                assert(front[i] == '-');
            }
        }
    }
    assert(unsigned_part(text) == text);
}

/// A key written for a range reads back as that range.
pub proof fn lemma_key_round_trip(range: AmountRange)
    ensures
        parsed_key(key_of(range)) == Some(range),
{
    let left = decimal_of(range.min as nat);
    let right = decimal_of(range.max as nat);
    let key = key_of(range);
    lemma_decimal_round_trip(range.min as nat);
    lemma_decimal_round_trip(range.max as nat);
    let at = left.len() as int;
    assert(first_hyphen_at(key, at)) by {
        assert(key[at] == '-');
        assert forall|j: int| 0 <= j < at implies #[trigger] key[j] != '-' by {
            assert(key[j] == left[j]);
        }
    }
    let found = choose|found: int| first_hyphen_at(key, found);
    if found < at {
        assert(key[found] == left[found]);
    }
    assert(found == at);
    assert(key.subrange(0, at) =~= left);
    assert(key.subrange(at + 1, key.len() as int) =~= right);
}

/// Writing a table and reading it back gives the same rows.
pub proof fn lemma_table_round_trip(rows: Seq<WeightedRange>)
    requires
        valid_rows(rows),
    ensures
        rows_from(entries_of(rows)) == rows,
    decreases rows.len(),
{
    let entries = entries_of(rows);
    if rows.len() == 0 {
        assert(rows =~= Seq::<WeightedRange>::empty());
    } else {
        let shorter = rows.drop_last();
        assert(valid_rows(shorter)) by {
            assert forall|i: int| 0 <= i < shorter.len() implies (#[trigger] shorter[i]).range.wf()
                && shorter[i].probability <= crate::sampler::MAX_PROBABILITY by {
                assert(shorter[i] == rows[i]);
            }
            assert forall|i: int, j: int|
                0 <= i < shorter.len() && 0 <= j < shorter.len() && i != j implies !(
            #[trigger] shorter[i]).range.overlaps((#[trigger] shorter[j]).range) by {
                assert(shorter[i] == rows[i]);
                assert(shorter[j] == rows[j]);
            }
        }
        lemma_table_round_trip(shorter);
        assert(entries.drop_last() =~= entries_of(shorter));
        let last = rows.last();
        let n = rows.len() - 1;
        assert(rows[n] == last);
        assert(entries.last() == (key_of(last.range), last.probability));
        lemma_key_round_trip(last.range);
        assert(last.range.wf());
        if exists|i: int| 0 <= i < shorter.len() && (#[trigger] shorter[i]).range == last.range {
            let i = choose|i: int| 0 <= i < shorter.len() && (#[trigger] shorter[i]).range == last.range;
            assert(shorter[i] == rows[i]);
            assert(rows[i].range.overlaps(rows[n].range));
        }
        assert(position_of(shorter, last.range) is None);
        if overlaps_any(shorter, last.range) {
            let i = choose|i: int| 0 <= i < shorter.len() && (#[trigger] shorter[i]).range.overlaps(
                last.range,
            );
            assert(shorter[i] == rows[i]);
            assert(rows[i].range.overlaps(rows[n].range));
        }
        assert(rows_after_insert(shorter, last.range, last.probability) == shorter.push(last));
        assert(shorter.push(last) =~= rows);
    }
}

proof fn lemma_prefix_is_smaller(digits: Seq<char>, k: int)
    requires
        0 <= k <= digits.len(),
    ensures
        number_of(digits.subrange(0, k)) <= number_of(digits),
    decreases digits.len() - k,
{
    if k < digits.len() {
        lemma_prefix_is_smaller(digits, k + 1);
        let longer = digits.subrange(0, k + 1);
        assert(longer.drop_last() =~= digits.subrange(0, k));
    } else {
        assert(digits.subrange(0, k) =~= digits);
    }
}

fn chars_of(text: &str) -> (chars: Vec<char>)
    ensures
        chars@ == text@,
{
    let n = text.unicode_len();
    let mut chars: Vec<char> = Vec::new();
    let mut i: usize = 0;
    while i < n
        invariant
            i <= n,
            n == text@.len(),
            chars@ == text@.subrange(0, i as int),
        decreases n - i,
    {
        chars.push(text.get_char(i));
        assert(chars@ =~= text@.subrange(0, i + 1));
        i += 1;
    }
    assert(text@.subrange(0, n as int) =~= text@);
    chars
}

fn parse_between(chars: &Vec<char>, from: usize, to: usize) -> (number: Option<u64>)
    requires
        from <= to <= chars@.len(),
    ensures
        number == parsed_number(chars@.subrange(from as int, to as int)),
{
    let ghost text = chars@.subrange(from as int, to as int);
    let mut start = from;
    if start < to && chars[start] == '+' {
        assert(text[0] == '+');
        start = start + 1;
    }
    let ghost body = unsigned_part(text);
    assert(body =~= chars@.subrange(start as int, to as int)) by {
        if from < to {
            assert(text[0] == chars@[from as int]);
        }
    }
    if start == to {
        return None;
    }
    let mut value: u64 = 0;
    let mut i: usize = start;
    assert(body.subrange(0, 0) =~= Seq::<char>::empty());
    while i < to
        invariant
            from <= start <= i <= to <= chars@.len(),
            start < to,
            text == chars@.subrange(from as int, to as int),
            body == unsigned_part(text),
            body == chars@.subrange(start as int, to as int),
            value == number_of(body.subrange(0, i - start)),
            forall|k: int| 0 <= k < i - start ==> is_digit(#[trigger] body[k]),
        decreases to - i,
    {
        let c = chars[i];
        let code = c as u32;
        assert(body[i - start] == c);
        if code < 48 || code > 57 {
            assert(!is_digit(body[i - start]));
            return None;
        }
        let digit = (code - 48) as u64;
        proof {
            let longer = body.subrange(0, i - start + 1);
            assert(longer.drop_last() =~= body.subrange(0, i - start));
            assert(longer.last() == c);
            assert(number_of(longer) == value * 10 + digit);
            lemma_prefix_is_smaller(body, i - start + 1);
        }
        if value > (u64::MAX - digit) / 10 {
            assert(value * 10 + digit > u64::MAX) by (nonlinear_arith)
                requires
                    value > (u64::MAX - digit) / 10,
                    digit <= 9,
            ;
            return None;
        }
        assert(value * 10 + digit <= u64::MAX) by (nonlinear_arith)
            requires
                value <= (u64::MAX - digit) / 10,
                digit <= 9,
        ;
        value = value * 10 + digit;
        i += 1;
    }
    assert(body.subrange(0, to - start) =~= body);
    Some(value)
}

/// Reads a number: decimal digits with an optional plus sign in front.
pub fn parse_number(text: &str) -> (number: Option<u64>)
    ensures
        number == parsed_number(text@),
{
    let chars = chars_of(text);
    let n = chars.len();
    assert(chars@.subrange(0, n as int) =~= text@);
    parse_between(&chars, 0, n)
}

/// Reads the key of a range.
pub fn parse_key(key: &str) -> (range: Option<AmountRange>)
    ensures
        range == parsed_key(key@),
{
    let chars = chars_of(key);
    let n = chars.len();
    let mut at: usize = 0;
    while at < n && chars[at] != '-'
        invariant
            at <= n,
            n == chars@.len(),
            forall|j: int| 0 <= j < at ==> #[trigger] chars@[j] != '-',
        decreases n - at,
    {
        at += 1;
    }
    if at == n {
        proof {
            if exists|found: int| first_hyphen_at(key@, found) {
                let found = choose|found: int| first_hyphen_at(key@, found);
                assert(chars@[found] == '-');
            }
        }
        return None;
    }
    proof {
        assert(first_hyphen_at(key@, at as int));
        let found = choose|found: int| first_hyphen_at(key@, found);
        if found < at {
            assert(chars@[found] != '-');
        }
        if at < found {
            assert(key@[at as int] != '-');
        }
    }
    let min = parse_between(&chars, 0, at);
    let max = parse_between(&chars, at + 1, n);
    match (min, max) {
        (Some(min), Some(max)) => Some(AmountRange { min, max }),
        _ => None,
    }
}

fn digit_text(d: u64) -> (text: &'static str)
    requires
        d < 10,
    ensures
        text@ == seq![digit_char(d as nat)],
{
    proof {
        reveal_strlit("0");
        reveal_strlit("1");
        reveal_strlit("2");
        reveal_strlit("3");
        reveal_strlit("4");
        reveal_strlit("5");
        reveal_strlit("6");
        reveal_strlit("7");
        reveal_strlit("8");
        reveal_strlit("9");
    }
    let text = if d == 0 {
        "0"
    } else if d == 1 {
        "1"
    } else if d == 2 {
        "2"
    } else if d == 3 {
        "3"
    } else if d == 4 {
        "4"
    } else if d == 5 {
        "5"
    } else if d == 6 {
        "6"
    } else if d == 7 {
        "7"
    } else if d == 8 {
        "8"
    } else {
        "9"
    };
    assert(text@ =~= seq![digit_char(d as nat)]);
    text
}

/// Writes a number in decimal digits.
pub fn decimal_text(n: u64) -> (text: String)
    ensures
        text@ == decimal_of(n as nat),
{
    let mut text = digit_text(n % 10).to_owned();
    let mut rest = n / 10;
    assert(decimal_of(n as nat) =~= (if rest > 0 {
        decimal_of(rest as nat)
    } else {
        Seq::<char>::empty()
    }) + text@);
    while rest > 0
        invariant
            decimal_of(n as nat) == (if rest > 0 {
                decimal_of(rest as nat)
            } else {
                Seq::<char>::empty()
            }) + text@,
        decreases rest,
    {
        let ghost tail = text@;
        let ghost front = decimal_of(rest as nat);
        text = joined(digit_text(rest % 10), text.as_str());
        let ghost digit = digit_char((rest % 10) as nat);
        assert(front =~= (if rest / 10 > 0 {
            decimal_of((rest / 10) as nat)
        } else {
            Seq::<char>::empty()
        }) + seq![digit]);
        rest = rest / 10;
        assert(decimal_of(n as nat) =~= (if rest > 0 {
            decimal_of(rest as nat)
        } else {
            Seq::<char>::empty()
        }) + text@);
    }
    assert(decimal_of(n as nat) =~= text@);
    text
}

/// Writes the key of a range.
pub fn key_text(range: &AmountRange) -> (key: String)
    ensures
        key@ == key_of(*range),
        parsed_key(key@) == Some(*range),
{
    proof {
        reveal_strlit("-");
        lemma_key_round_trip(*range);
    }
    let min = decimal_text(range.min);
    let head = joined(min.as_str(), "-");
    let max = decimal_text(range.max);
    let key = joined(head.as_str(), max.as_str());
    assert(key@ =~= key_of(*range));
    key
}

/// Writes a table as entries, one per row and in the rows' order.
pub fn serialize(table: &AmountProbabilities) -> (entries: Vec<(String, u64)>)
    ensures
        entries_view(entries@) == entries_of(table@),
        rows_from(entries_view(entries@)) == table@,
{
    let rows = table.rows();
    let mut entries: Vec<(String, u64)> = Vec::new();
    let mut i: usize = 0;
    while i < rows.len()
        invariant
            i <= rows.len(),
            entries@.len() == i,
            forall|k: int|
                0 <= k < i ==> (#[trigger] entries@[k]).0@ == key_of(rows@[k].range) && entries@[k].1
                    == rows@[k].probability,
        decreases rows.len() - i,
    {
        entries.push((key_text(&rows[i].range), rows[i].probability));
        i += 1;
    }
    proof {
        assert(entries_view(entries@) =~= entries_of(rows@));
        lemma_table_round_trip(rows@);
    }
    entries
}

/// Reads a table from entries. An entry whose key does not read as a range,
/// or whose row the table cannot hold, is passed over; of two entries for one
/// range the later one counts.
pub fn deserialize(entries: &Vec<(String, u64)>) -> (table: AmountProbabilities)
    ensures
        table@ == rows_from(entries_view(entries@)),
        table.wf(),
{
    let mut table = AmountProbabilities::new();
    let mut i: usize = 0;
    let ghost all = entries_view(entries@);
    assert(all.subrange(0, 0) =~= Seq::<(Seq<char>, u64)>::empty());
    while i < entries.len()
        invariant
            i <= entries.len(),
            all == entries_view(entries@),
            table@ == rows_from(all.subrange(0, i as int)),
            table.wf(),
        decreases entries.len() - i,
    {
        proof {
            let upto = all.subrange(0, i + 1);
            assert(upto.drop_last() =~= all.subrange(0, i as int));
            assert(upto.last() == (entries@[i as int].0@, entries@[i as int].1));
        }
        match parse_key(entries[i].0.as_str()) {
            Some(range) => {
                let _ = table.insert(range, entries[i].1);
            },
            None => {},
        }
        i += 1;
    }
    assert(all.subrange(0, all.len() as int) =~= all);
    table
}

} // verus!
