//! Reading what the user typed: a line of input as a value or a cancellation, and an
//! amount as a number.
//!
//! A line is trimmed of white space at both ends. What is left is the input, and an
//! empty rest means that the user cancels. An amount is a decimal number with an
//! optional sign that fits in an `i32`.

use vstd::prelude::*;

verus! {

/// White space is what Unicode gives the property `White_Space`: the controls from tab
/// to carriage return, the space, next line, the no-break space, the Ogham space mark,
/// the spaces from en quad to hair space, the line and the paragraph separator, the
/// narrow no-break space, the medium mathematical space and the ideographic space.
pub open spec fn white_space(c: char) -> bool {
    let code = c as u32;
    ||| 0x09 <= code <= 0x0D
    ||| code == 0x20
    ||| code == 0x85
    ||| code == 0xA0
    ||| code == 0x1680
    ||| 0x2000 <= code <= 0x200A
    ||| code == 0x2028
    ||| code == 0x2029
    ||| code == 0x202F
    ||| code == 0x205F
    ||| code == 0x3000
}

/// `text` without the white space it begins with.
pub open spec fn trim_start(text: Seq<char>) -> Seq<char>
    decreases text.len(),
{
    if text.len() > 0 && white_space(text.first()) {
        trim_start(text.drop_first())
    } else {
        text
    }
}

/// `text` without the white space it ends with.
pub open spec fn trim_end(text: Seq<char>) -> Seq<char>
    decreases text.len(),
{
    if text.len() > 0 && white_space(text.last()) {
        trim_end(text.drop_last())
    } else {
        text
    }
}

/// `text` without the white space at either end.
pub open spec fn trimmed(text: Seq<char>) -> Seq<char> {
    trim_end(trim_start(text))
}

/// What a line of input stands for: nothing where only white space was typed, which
/// cancels, and else the text between the white space at its ends.
pub open spec fn input_of(line: Seq<char>) -> Option<Seq<char>> {
    if trimmed(line).len() == 0 {
        None
    } else {
        Some(trimmed(line))
    }
}

/// Every character of `text` from `from` up to `to` is white space.
pub open spec fn blank_between(text: Seq<char>, from: int, to: int) -> bool {
    forall|k: int| from <= k < to ==> white_space(#[trigger] text[k])
}

/// Where white space runs from the start up to `k`, and no further, trimming the start
/// leaves the text from `k` on.
pub proof fn lemma_trim_start(text: Seq<char>, k: int)
    requires
        0 <= k <= text.len(),
        blank_between(text, 0, k),
        k < text.len() ==> !white_space(text[k]),
    ensures
        trim_start(text) == text.subrange(k, text.len() as int),
    decreases k,
{
    if k == 0 {
        assert(text.subrange(0, text.len() as int) =~= text);
    } else {
        let rest = text.drop_first();
        assert(white_space(text[0]));
        assert forall|j: int| 0 <= j < k - 1 implies white_space(#[trigger] rest[j]) by {
            assert(rest[j] == text[j + 1]);
        }
        lemma_trim_start(rest, k - 1);
        assert(rest.subrange(k - 1, rest.len() as int) =~= text.subrange(k, text.len() as int));
    }
}

/// Where white space runs from `k` to the end, and starts no earlier, trimming the end
/// leaves the text up to `k`.
pub proof fn lemma_trim_end(text: Seq<char>, k: int)
    requires
        0 <= k <= text.len(),
        blank_between(text, k, text.len() as int),
        k > 0 ==> !white_space(text[k - 1]),
    ensures
        trim_end(text) == text.subrange(0, k),
    decreases text.len() - k,
{
    if k == text.len() {
        assert(text.subrange(0, k) =~= text);
    } else {
        let rest = text.drop_last();
        assert(white_space(text[text.len() - 1]));
        assert forall|j: int| k <= j < rest.len() implies white_space(#[trigger] rest[j]) by {
            assert(rest[j] == text[j]);
        }
        lemma_trim_end(rest, k);
        assert(rest.subrange(0, k) =~= text.subrange(0, k));
    }
}

/// Whether `c` is white space.
pub fn is_whitespace(c: char) -> (white: bool)
    ensures
        white == white_space(c),
{
    let code: u32 = c as u32;
    (0x09 <= code && code <= 0x0D) || code == 0x20 || code == 0x85 || code == 0xA0 || code
        == 0x1680 || (0x2000 <= code && code <= 0x200A) || code == 0x2028 || code == 0x2029
        || code == 0x202F || code == 0x205F || code == 0x3000
}

/// Takes a line as it was typed and gives the input that it stands for: `None` where
/// the line holds nothing but white space, and else the line without the white space
/// at its ends.
pub fn get_user_input(line: &str) -> (input: Option<String>)
    ensures
        input.deep_view() == input_of(line@),
{
    let total = line.unicode_len();
    let mut first: usize = 0;
    let mut end: usize = 0;
    let mut i: usize = 0;
    for c in it: line.chars()
        invariant
            i == it.index(),
            it.seq() == line@,
            total == line@.len(),
            first <= end <= i,
            first == end ==> first == 0 && blank_between(line@, 0, i as int),
            first < end ==> {
                &&& blank_between(line@, 0, first as int)
                &&& !white_space(line@[first as int])
                &&& !white_space(line@[end - 1])
                &&& blank_between(line@, end as int, i as int)
            },
    {
        if !is_whitespace(c) {
            if first == end {
                first = i;
            }
            end = i + 1;
        }
        i += 1;
    }
    if first == end {
        proof {
            lemma_trim_start(line@, total as int);
            assert(trim_start(line@).len() == 0);
        }
        None
    } else {
        proof {
            let head = line@.subrange(first as int, total as int);
            lemma_trim_start(line@, first as int);
            lemma_trim_end(head, end - first);
            assert(head.subrange(0, end - first) =~= line@.subrange(first as int, end as int));
        }
        Some(line.substring_char(first, end).to_owned())
    }
}

/// A decimal digit.
pub open spec fn is_digit(c: char) -> bool {
    '0' <= c <= '9'
}

/// The number that a decimal digit stands for.
pub open spec fn digit_value(c: char) -> int {
    c as u32 - '0' as u32
}

/// Every character of `text` is a decimal digit.
pub open spec fn digits_only(text: Seq<char>) -> bool {
    forall|i: int| 0 <= i < text.len() ==> is_digit(#[trigger] text[i])
}

/// The number that a run of decimal digits stands for, the empty run for 0.
pub open spec fn decimal(digits: Seq<char>) -> int
    decreases digits.len(),
{
    if digits.len() == 0 {
        0
    } else {
        decimal(digits.drop_last()) * 10 + digit_value(digits.last())
    }
}

/// `text` begins with a sign.
pub open spec fn has_sign(text: Seq<char>) -> bool {
    text.len() > 0 && (text[0] == '+' || text[0] == '-')
}

/// The digits of a number: the text after its sign, where it has one.
pub open spec fn digits_of(text: Seq<char>) -> Seq<char> {
    if has_sign(text) {
        text.drop_first()
    } else {
        text
    }
}

/// The number that `text` writes: an optional `+` or `-`, then one decimal digit or
/// more, and nothing else. Any other text writes no number.
pub open spec fn number_of(text: Seq<char>) -> Option<int> {
    let digits = digits_of(text);
    if digits.len() == 0 || !digits_only(digits) {
        None
    } else if text[0] == '-' {
        Some(-decimal(digits))
    } else {
        Some(decimal(digits))
    }
}

/// The amount that `text` writes: its number, where it writes one that an `i32` holds.
pub open spec fn amount_of(text: Seq<char>) -> Option<i32> {
    match number_of(text) {
        Some(number) => if i32::MIN <= number <= i32::MAX {
            Some(number as i32)
        } else {
            None
        },
        None => None,
    }
}

/// A run of digits stands for no less than any run it begins with.
pub proof fn lemma_decimal_grows(digits: Seq<char>, k: int)
    requires
        digits_only(digits),
        0 <= k <= digits.len(),
    ensures
        0 <= decimal(digits.subrange(0, k)) <= decimal(digits),
    decreases digits.len() - k,
{
    lemma_decimal_nonnegative(digits.subrange(0, k));
    if k == digits.len() {
        assert(digits.subrange(0, k) =~= digits);
    } else {
        let front = digits.drop_last();
        lemma_decimal_grows(front, k);
        assert(front.subrange(0, k) =~= digits.subrange(0, k));
        assert(is_digit(digits[digits.len() - 1]));
    }
}

/// A run of digits stands for no negative number.
pub proof fn lemma_decimal_nonnegative(digits: Seq<char>)
    requires
        digits_only(digits),
    ensures
        0 <= decimal(digits),
    decreases digits.len(),
{
    if digits.len() > 0 {
        lemma_decimal_nonnegative(digits.drop_last());
        assert(is_digit(digits[digits.len() - 1]));
    }
}

/// Reads `text` as an amount: `Some` of the number where `text` is an optional sign
/// and then decimal digits that write a number within `i32`, and `None` for any other
/// text.
pub fn parse_amount(text: &str) -> (amount: Option<i32>)
    ensures
        amount == amount_of(text@),
{
    let total = text.unicode_len();
    let mut signed = false;
    let mut negative = false;
    let mut magnitude: i64 = 0;
    let mut i: usize = 0;
    for c in it: text.chars()
        invariant
            i == it.index(),
            it.seq() == text@,
            total == text@.len(),
            signed == (i > 0 && has_sign(text@)),
            negative == (i > 0 && text@[0] == '-'),
            digits_only(text@.subrange(if signed { 1int } else { 0int }, i as int)),
            magnitude == decimal(text@.subrange(if signed { 1int } else { 0int }, i as int)),
            0 <= magnitude <= 0x8000_0000,
    {
        let ghost start = if signed { 1int } else { 0int };
        let ghost seen = text@.subrange(start, i as int);
        if i == 0 && (c == '+' || c == '-') {
            signed = true;
            negative = c == '-';
            assert(text@.subrange(1, 1) =~= Seq::<char>::empty());
        } else if '0' <= c && c <= '9' {
            let value: i64 = (c as u32 - '0' as u32) as i64;
            magnitude = magnitude * 10 + value;
            proof {
                let more = text@.subrange(start, i + 1);
                assert(more.drop_last() =~= seen);
                assert(more.last() == c);
                assert(digits_only(more));
            }
            if magnitude > 0x8000_0000 {
                proof {
                    let digits = digits_of(text@);
                    assert(digits.subrange(0, i + 1 - start) =~= text@.subrange(start, i + 1));
                    if digits_only(digits) {
                        lemma_decimal_grows(digits, i + 1 - start);
                    }
                }
                return None;
            }
        } else {
            proof {
                let digits = digits_of(text@);
                assert(digits[i - start] == c);
                assert(!is_digit(digits[i - start]));
            }
            return None;
        }
        i += 1;
    }
    proof {
        let start = if signed { 1int } else { 0int };
        assert(text@.subrange(start, total as int) =~= digits_of(text@));
    }
    if (signed && total == 1) || total == 0 {
        None
    } else if negative {
        Some((0 - magnitude) as i32)
    } else if magnitude <= 0x7FFF_FFFF {
        Some(magnitude as i32)
    } else {
        None
    }
}

/// What the user answered when asked for an amount.
#[derive(Debug, Clone, Copy, PartialEq, Eq, Structural)]
pub enum AmountEntry {
    /// The user changed their mind.
    Cancelled,
    /// The answer writes no amount; the question stands.
    NotANumber,
    /// The amount that was given.
    Amount(i32),
}

/// What an answer to the question for an amount stands for. No input cancels, and so
/// does an empty text.
pub open spec fn entry_of(input: Option<Seq<char>>) -> AmountEntry {
    match input {
        None => AmountEntry::Cancelled,
        Some(text) => if text.len() == 0 {
            AmountEntry::Cancelled
        } else {
            match amount_of(text) {
                Some(amount) => AmountEntry::Amount(amount),
                None => AmountEntry::NotANumber,
            }
        },
    }
}

/// Reads the answer to the question for an amount: a cancellation where there is no
/// input or an empty one, the amount where the input writes one, and else a sign that
/// the user is to be asked again.
pub fn get_bill_amount(input: &Option<String>) -> (entry: AmountEntry)
    ensures
        entry == entry_of(input.deep_view()),
{
    match input {
        None => AmountEntry::Cancelled,
        Some(text) => {
            if text.as_str().is_empty() {
                return AmountEntry::Cancelled;
            }
            match parse_amount(text.as_str()) {
                Some(amount) => AmountEntry::Amount(amount),
                None => AmountEntry::NotANumber,
            }
        },
    }
}

} // verus!
