//! Text cut at a separator, and small decimal numbers.

use vstd::prelude::*;

verus! {

/// The place of the first `mark` in `text`, or the length of `text` where it
/// holds none.
pub open spec fn first_index(text: Seq<char>, mark: char) -> int
    decreases text.len(),
{
    if text.len() == 0 || text[0] == mark {
        0
    } else {
        1 + first_index(text.skip(1), mark)
    }
}

/// The pieces that `text` falls into when it is cut at every `mark`: one more
/// than it holds marks, each piece without a mark, empty pieces included.
pub open spec fn pieces(text: Seq<char>, mark: char) -> Seq<Seq<char>>
    decreases text.len(),
{
    let i = first_index(text, mark);
    if 0 <= i < text.len() {
        seq![text.take(i)] + pieces(text.skip(i + 1), mark)
    } else {
        seq![text]
    }
}

/// Whether `c` is a decimal digit.
pub open spec fn is_digit(c: char) -> bool {
    '0' <= c && c <= '9'
}

/// The number that the decimal digit `c` stands for, and 0 for any other
/// character.
pub open spec fn digit_value(c: char) -> nat {
    if is_digit(c) {
        (c as int - 48) as nat
    } else {
        0
    }
}

/// The number that the decimal digits of `text` spell.
pub open spec fn decimal_value(text: Seq<char>) -> nat
    decreases text.len(),
{
    if text.len() == 0 {
        0
    } else {
        decimal_value(text.drop_last()) * 10 + digit_value(text.last())
    }
}

/// Whether `text` is one decimal digit or more, and nothing else.
pub open spec fn is_numeral(text: Seq<char>) -> bool {
    &&& text.len() > 0
    &&& forall|i: int| 0 <= i < text.len() ==> is_digit(#[trigger] text[i])
}

/// The number that `text` spells, where `text` is a numeral of a number that
/// fits in a byte.
pub open spec fn small_number(text: Seq<char>) -> Option<u8> {
    if is_numeral(text) && decimal_value(text) <= 255 {
        Some(decimal_value(text) as u8)
    } else {
        None
    }
}

/// Where no `mark` stands before place `n` of `text`, and one stands at `n`
/// or `text` ends there, the first `mark` of `text` is at `n`.
pub proof fn lemma_first_index(text: Seq<char>, mark: char, n: int)
    requires
        0 <= n <= text.len(),
        forall|k: int| 0 <= k < n ==> text[k] != mark,
        n == text.len() || text[n] == mark,
    ensures
        first_index(text, mark) == n,
    decreases n,
{
    if n > 0 {
        let rest = text.skip(1);
        assert forall|k: int| 0 <= k < n - 1 implies rest[k] != mark by {
            assert(rest[k] == text[k + 1]);
        }
        lemma_first_index(rest, mark, n - 1);
    }
}

/// A numeral spells at least what any of its beginnings spells.
pub proof fn lemma_decimal_value_grows(text: Seq<char>, k: int)
    requires
        0 <= k <= text.len(),
    ensures
        decimal_value(text.take(k)) <= decimal_value(text),
    decreases text.len(),
{
    if k == text.len() {
        assert(text.take(k) =~= text);
    } else {
        assert(text.drop_last().take(k) =~= text.take(k));
        lemma_decimal_value_grows(text.drop_last(), k);
    }
}

/// The characters of `text`, in order.
pub fn chars_of(text: &str) -> (out: Vec<char>)
    ensures
        out@ == text@,
{
    let mut out: Vec<char> = Vec::new();
    for c in it: text.chars()
        invariant
            it.seq() == text@,
            out@ == text@.take(it.index() as int),
    {
        out.push(c);
    }
    out
}

/// The ranges of the pieces of `chars[from..to]` when it is cut at every
/// `mark`, each as the places in `chars` where the piece begins and ends.
pub fn piece_ranges(chars: &Vec<char>, from: usize, to: usize, mark: char) -> (ranges: Vec<
    (usize, usize),
>)
    requires
        from <= to <= chars.len(),
    ensures
        ranges@.len() == pieces(chars@.subrange(from as int, to as int), mark).len(),
        forall|k: int|
            0 <= k < ranges@.len() ==> from <= (#[trigger] ranges@[k]).0 <= ranges@[k].1 <= to,
        forall|k: int|
            0 <= k < ranges@.len() ==> chars@.subrange(
                (#[trigger] ranges@[k]).0 as int,
                ranges@[k].1 as int,
            ) == pieces(chars@.subrange(from as int, to as int), mark)[k],
{
    let ghost whole = chars@.subrange(from as int, to as int);
    let mut ranges: Vec<(usize, usize)> = Vec::new();
    let mut start: usize = from;
    let mut i: usize = from;
    while i < to
        invariant
            from <= start <= i <= to <= chars.len(),
            whole == chars@.subrange(from as int, to as int),
            forall|k: int| start <= k < i ==> chars@[k] != mark,
            forall|k: int|
                0 <= k < ranges@.len() ==> from <= (#[trigger] ranges@[k]).0 <= ranges@[k].1 <= to,
            pieces(whole, mark) =~= Seq::new(
                ranges@.len(),
                |k: int| chars@.subrange(ranges@[k].0 as int, ranges@[k].1 as int),
            ) + pieces(chars@.subrange(start as int, to as int), mark),
        decreases to - i,
    {
        if chars[i] == mark {
            proof {
                let rest = chars@.subrange(start as int, to as int);
                lemma_first_index(rest, mark, i - start);
                assert(rest.take(i - start) =~= chars@.subrange(start as int, i as int));
                assert(rest.skip(i - start + 1) =~= chars@.subrange(i + 1, to as int));
            }
            ranges.push((start, i));
            start = i + 1;
        }
        i += 1;
    }
    proof {
        let rest = chars@.subrange(start as int, to as int);
        lemma_first_index(rest, mark, to - start);
    }
    ranges.push((start, to));
    ranges
}

/// Reads `chars[from..to]` as the numeral of a number that fits in a byte.
pub fn read_small_number(chars: &Vec<char>, from: usize, to: usize) -> (number: Option<u8>)
    requires
        from <= to <= chars.len(),
    ensures
        number == small_number(chars@.subrange(from as int, to as int)),
{
    let ghost whole = chars@.subrange(from as int, to as int);
    if from == to {
        return None;
    }
    let mut value: u32 = 0;
    let mut i: usize = from;
    while i < to
        invariant
            from <= i <= to <= chars.len(),
            whole == chars@.subrange(from as int, to as int),
            forall|k: int| from <= k < i ==> is_digit(chars@[k]),
            value == decimal_value(chars@.subrange(from as int, i as int)),
            value <= 255,
        decreases to - i,
    {
        let c = chars[i];
        if !('0' <= c && c <= '9') {
            assert(whole[i - from] == c);
            return None;
        }
        let digit: u32 = c as u32 - 48;
        proof {
            let next = chars@.subrange(from as int, i + 1);
            assert(next.drop_last() =~= chars@.subrange(from as int, i as int));
            assert(next.last() == c);
            assert(whole.take(i + 1 - from) =~= next);
            lemma_decimal_value_grows(whole, i + 1 - from);
        }
        if value * 10 + digit > 255 {
            return None;
        }
        value = value * 10 + digit;
        i += 1;
    }
    assert forall|k: int| 0 <= k < whole.len() implies is_digit(#[trigger] whole[k]) by {
        assert(whole[k] == chars@[from + k]);
    }
    Some(value as u8)
}

} // verus!
