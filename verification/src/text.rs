//! Character-level helpers shared by the statement builders.

use vstd::prelude::*;

verus! {

/// The number of `?` placeholders in a piece of SQL text.
pub open spec fn placeholder_count(text: Seq<char>) -> nat
    decreases text.len(),
{
    if text.len() == 0 {
        0
    } else {
        placeholder_count(text.drop_last()) + if text.last() == '?' {
            1nat
        } else {
            0nat
        }
    }
}

/// Placeholders of a concatenation are those of its two halves.
pub proof fn lemma_placeholder_count_concat(a: Seq<char>, b: Seq<char>)
    ensures
        placeholder_count(a + b) == placeholder_count(a) + placeholder_count(b),
    decreases b.len(),
{
    if b.len() > 0 {
        assert((a + b).drop_last() =~= a + b.drop_last());
        lemma_placeholder_count_concat(a, b.drop_last());
    }
}

/// The placeholders of a prefix are those of a shorter prefix and of the
/// stretch between the two.
pub proof fn lemma_placeholder_count_step(text: Seq<char>, from: int, to: int)
    requires
        0 <= from <= to <= text.len(),
    ensures
        placeholder_count(text.take(to)) == placeholder_count(text.take(from)) + placeholder_count(
            text.subrange(from, to),
        ),
{
    assert(text.take(to) =~= text.take(from) + text.subrange(from, to));
    lemma_placeholder_count_concat(text.take(from), text.subrange(from, to));
}

/// A text holds no more placeholders than characters.
pub proof fn lemma_placeholder_count_bound(text: Seq<char>)
    ensures
        placeholder_count(text) <= text.len(),
    decreases text.len(),
{
    if text.len() > 0 {
        lemma_placeholder_count_bound(text.drop_last());
    }
}

/// Counts the `?` placeholders of the text.
pub fn count_placeholders(text: &str) -> (count: usize)
    ensures
        count == placeholder_count(text@),
{
    // The placeholders are no more than the characters, so the count fits.
    let total = text.unicode_len();
    let mut count: usize = 0;
    for c in it: text.chars()
        invariant
            it.seq() == text@,
            total == text@.len(),
            count == placeholder_count(text@.take(it.index())),
    {
        proof {
            let next = text@.take(it.index() + 1);
            assert(next.drop_last() =~= text@.take(it.index()));
            lemma_placeholder_count_bound(text@.take(it.index()));
        }
        if c == '?' {
            count += 1;
        }
    }
    assert(text@.take(text@.len() as int) =~= text@);
    count
}

/// The search term wrapped in `%` wildcards, ready to be bound to a `LIKE`
/// predicate for a "contains" match.
pub open spec fn contains_pattern(term: Seq<char>) -> Seq<char> {
    "%"@ + term + "%"@
}

/// Wraps `term` in `%` wildcards.
pub fn wrap_in_wildcards(term: &str) -> (pattern: String)
    ensures
        pattern@ == contains_pattern(term@),
{
    let mut pattern = String::new();
    pattern.append("%");
    pattern.append(term);
    pattern.append("%");
    pattern
}

/// The character that stands for a decimal digit.
pub open spec fn digit(value: nat) -> char {
    if value == 0 {
        '0'
    } else if value == 1 {
        '1'
    } else if value == 2 {
        '2'
    } else if value == 3 {
        '3'
    } else if value == 4 {
        '4'
    } else if value == 5 {
        '5'
    } else if value == 6 {
        '6'
    } else if value == 7 {
        '7'
    } else if value == 8 {
        '8'
    } else {
        '9'
    }
}

/// A number in decimal notation, without a sign or leading zeros.
pub open spec fn decimal(number: nat) -> Seq<char>
    decreases number,
{
    if number < 10 {
        seq![digit(number)]
    } else {
        decimal(number / 10).push(digit(number % 10))
    }
}

/// The text of one decimal digit.
fn digit_text(value: u64) -> (text: &'static str)
    requires
        value < 10,
    ensures
        text@ == seq![digit(value as nat)],
{
    proof {
        reveal_strlit("0");
        reveal_strlit("1");
        reveal_strlit("2");
        reveal_strlit("3");
        reveal_strlit("4");
        reveal_strlit("5");
        reveal_strlit("6");
        reveal_strlit("7");
        reveal_strlit("8");
        reveal_strlit("9");
    }
    if value == 0 {
        "0"
    } else if value == 1 {
        "1"
    } else if value == 2 {
        "2"
    } else if value == 3 {
        "3"
    } else if value == 4 {
        "4"
    } else if value == 5 {
        "5"
    } else if value == 6 {
        "6"
    } else if value == 7 {
        "7"
    } else if value == 8 {
        "8"
    } else {
        "9"
    }
}

/// Appends `number` in decimal notation to `text`.
pub fn append_decimal(text: &mut String, number: u64)
    ensures
        final(text)@ == old(text)@ + decimal(number as nat),
    decreases number,
{
    if number >= 10 {
        append_decimal(text, number / 10);
    }
    text.append(digit_text(number % 10));
}

/// `number` in decimal notation.
pub fn to_decimal(number: u64) -> (text: String)
    ensures
        text@ == decimal(number as nat),
{
    let mut text = String::new();
    append_decimal(&mut text, number);
    text
}

/// Calls `String::push`, which appends the character to the end of the
/// string.
#[verifier::external_body]
fn push_char(text: &mut String, c: char)
    ensures
        final(text)@ == old(text)@.push(c),
{
    text.push(c)
}

/// The text with each `?` replaced by `$` and the number of the
/// placeholder, counted from one: the form in which stores with numbered
/// parameters take a statement.
pub open spec fn positional(text: Seq<char>) -> Seq<char>
    decreases text.len(),
{
    if text.len() == 0 {
        Seq::empty()
    } else if text.last() == '?' {
        positional(text.drop_last()).push('$') + decimal(placeholder_count(text))
    } else {
        positional(text.drop_last()).push(text.last())
    }
}

/// A number in decimal notation holds no placeholder.
pub proof fn lemma_decimal_holds_no_placeholder(number: nat)
    ensures
        placeholder_count(decimal(number)) == 0,
    decreases number,
{
    reveal_with_fuel(placeholder_count, 2);
    if number >= 10 {
        lemma_decimal_holds_no_placeholder(number / 10);
        assert(decimal(number).drop_last() =~= decimal(number / 10));
    }
}

/// Once the placeholders are numbered, no `?` is left in the text.
pub proof fn lemma_positional_holds_no_placeholder(text: Seq<char>)
    ensures
        placeholder_count(positional(text)) == 0,
    decreases text.len(),
{
    if text.len() > 0 {
        let before = positional(text.drop_last());
        lemma_positional_holds_no_placeholder(text.drop_last());
        if text.last() == '?' {
            assert(before.push('$').drop_last() =~= before);
            lemma_decimal_holds_no_placeholder(placeholder_count(text));
            lemma_placeholder_count_concat(before.push('$'), decimal(placeholder_count(text)));
        } else {
            assert(before.push(text.last()).drop_last() =~= before);
        }
    }
}

/// Numbering leaves a text without placeholders as it is.
pub proof fn lemma_positional_keeps_plain_text(text: Seq<char>)
    requires
        placeholder_count(text) == 0,
    ensures
        positional(text) == text,
    decreases text.len(),
{
    if text.len() > 0 {
        lemma_positional_keeps_plain_text(text.drop_last());
    }
}

/// Numbers the placeholders of the text.
pub fn to_positional(text: &str) -> (numbered: String)
    ensures
        numbered@ == positional(text@),
{
    // The placeholders are no more than the characters, so the count fits.
    let total = text.unicode_len();
    let mut numbered = String::new();
    let mut count: u64 = 0;
    for c in it: text.chars()
        invariant
            it.seq() == text@,
            total == text@.len(),
            count == placeholder_count(text@.take(it.index())),
            numbered@ == positional(text@.take(it.index())),
    {
        proof {
            let next = text@.take(it.index() + 1);
            assert(next.drop_last() =~= text@.take(it.index()));
            lemma_placeholder_count_bound(text@.take(it.index()));
        }
        if c == '?' {
            count += 1;
            push_char(&mut numbered, '$');
            append_decimal(&mut numbered, count);
        } else {
            push_char(&mut numbered, c);
        }
    }
    assert(text@.take(text@.len() as int) =~= text@);
    numbered
}

/// What `str::to_lowercase` returns for a string with these characters.
pub uninterp spec fn lowercased(text: Seq<char>) -> Seq<char>;

/// Calls `str::to_lowercase`. The contract only names the result; the
/// standard library documents it as the lowercase equivalent of the string,
/// in the terms of the Unicode derived core property `Lowercase`.
#[verifier::external_body]
pub(crate) fn to_lowercase(text: &str) -> (lower: String)
    ensures
        lower@ == lowercased(text@),
{
    text.to_lowercase()
}

} // verus!
