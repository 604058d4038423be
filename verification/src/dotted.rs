//! Dotted decimal, the notation in which object identifiers are written:
//! the arcs of the identifier as decimal numerals, joined by dots.
//!
//! Reading and writing are given as functions on sequences of characters,
//! and writing followed by reading is proved to give the arcs back.

use vstd::prelude::*;

verus! {

/// Whether `c` is one of the ten decimal digits.
pub open spec fn is_digit(c: char) -> bool {
    '0' <= c <= '9'
}

/// The number that the decimal digit `c` stands for.
pub open spec fn digit_value(c: char) -> nat
    recommends
        is_digit(c),
{
    (c as u32 - '0' as u32) as nat
}

/// The decimal digit that stands for `d`.
pub open spec fn digit_char(d: nat) -> char
    recommends
        d < 10,
{
    if d == 0 {
        '0'
    } else if d == 1 {
        '1'
    } else if d == 2 {
        '2'
    } else if d == 3 {
        '3'
    } else if d == 4 {
        '4'
    } else if d == 5 {
        '5'
    } else if d == 6 {
        '6'
    } else if d == 7 {
        '7'
    } else if d == 8 {
        '8'
    } else {
        '9'
    }
}

/// The arcs read from the first `n` characters of `text`: a dot opens a new
/// arc, a digit extends the arc that is open.
pub open spec fn arcs_of_prefix(text: Seq<char>, n: nat) -> Seq<nat>
    recommends
        n <= text.len(),
    decreases n,
{
    if n == 0 {
        seq![0nat]
    } else {
        let before = arcs_of_prefix(text, (n - 1) as nat);
        let c = text[n - 1];
        if c == '.' {
            before.push(0nat)
        } else {
            before.update(before.len() - 1, before.last() * 10 + digit_value(c))
        }
    }
}

/// The arcs that dotted-decimal `text` denotes.
pub open spec fn dotted_arcs(text: Seq<char>) -> Seq<nat> {
    arcs_of_prefix(text, text.len())
}

/// The decimal numeral of `n`, without leading zeros.
pub open spec fn decimal_digits(n: nat) -> Seq<char>
    decreases n,
{
    if n < 10 {
        seq![digit_char(n)]
    } else {
        decimal_digits(n / 10).push(digit_char(n % 10))
    }
}

/// The dotted-decimal text of `arcs`: their numerals, joined by dots.
pub open spec fn dotted_text(arcs: Seq<nat>) -> Seq<char>
    decreases arcs.len(),
{
    if arcs.len() == 0 {
        Seq::<char>::empty()
    } else if arcs.len() == 1 {
        decimal_digits(arcs[0])
    } else {
        dotted_text(arcs.drop_last()).push('.') + decimal_digits(arcs.last())
    }
}

/// Whether `text` is well-formed dotted decimal: digits and dots only, a
/// digit at either end, and no two dots in a row.
pub open spec fn is_dotted_decimal(text: Seq<char>) -> bool {
    &&& text.len() > 0
    &&& forall|i: int| 0 <= i < text.len() ==> is_digit(#[trigger] text[i]) || text[i] == '.'
    &&& is_digit(text.first())
    &&& is_digit(text.last())
    &&& forall|i: int| 0 < i < text.len() && #[trigger] text[i] == '.' ==> text[i - 1] != '.'
}

/// A numeral is never empty and holds digits only.
pub proof fn lemma_numeral_holds_digits(n: nat)
    ensures
        decimal_digits(n).len() >= 1,
        forall|i: int|
            0 <= i < decimal_digits(n).len() ==> is_digit(#[trigger] decimal_digits(n)[i]),
    decreases n,
{
    if n >= 10 {
        lemma_numeral_holds_digits(n / 10);
    }
}

/// What is read from the first `n` characters does not depend on the
/// characters after them.
proof fn lemma_prefix_ignores_rest(text: Seq<char>, rest: Seq<char>, n: nat)
    requires
        n <= text.len(),
    ensures
        arcs_of_prefix(text + rest, n) == arcs_of_prefix(text, n),
        arcs_of_prefix(text, n).len() >= 1,
    decreases n,
{
    if n > 0 {
        lemma_prefix_ignores_rest(text, rest, (n - 1) as nat);
    }
}

/// Reading one more character: a dot opens a new arc, a digit extends the
/// open one.
proof fn lemma_reading_one_more(text: Seq<char>, c: char)
    ensures
        dotted_arcs(text).len() >= 1,
        c == '.' ==> dotted_arcs(text.push(c)) == dotted_arcs(text).push(0nat),
        c != '.' ==> dotted_arcs(text.push(c)) == dotted_arcs(text).update(
            dotted_arcs(text).len() - 1,
            dotted_arcs(text).last() * 10 + digit_value(c),
        ),
{
    assert(text.push(c) =~= text + seq![c]);
    lemma_prefix_ignores_rest(text, seq![c], text.len());
}

/// Reading a numeral after text whose open arc is still zero sets that arc
/// to the numeral's value.
proof fn lemma_reading_a_numeral(text: Seq<char>, value: nat)
    requires
        dotted_arcs(text).last() == 0,
    ensures
        dotted_arcs(text).len() >= 1,
        dotted_arcs(text + decimal_digits(value)) == dotted_arcs(text).update(
            dotted_arcs(text).len() - 1,
            value,
        ),
    decreases value,
{
    lemma_prefix_ignores_rest(text, Seq::<char>::empty(), text.len());
    if value < 10 {
        lemma_reading_one_more(text, digit_char(value));
    } else {
        lemma_reading_a_numeral(text, value / 10);
        lemma_reading_one_more(text + decimal_digits(value / 10), digit_char(value % 10));
    }
}

/// The dotted-decimal text of one arc or more is well-formed.
pub proof fn lemma_dotted_text_is_well_formed(arcs: Seq<nat>)
    requires
        arcs.len() >= 1,
    ensures
        is_dotted_decimal(dotted_text(arcs)),
    decreases arcs.len(),
{
    lemma_numeral_holds_digits(arcs.last());
    if arcs.len() > 1 {
        lemma_dotted_text_is_well_formed(arcs.drop_last());
    }
}

/// Writing arcs in dotted decimal and reading the text gives the arcs back.
pub proof fn lemma_dotted_round_trip(arcs: Seq<nat>)
    requires
        arcs.len() >= 1,
    ensures
        dotted_arcs(dotted_text(arcs)) == arcs,
    decreases arcs.len(),
{
    if arcs.len() == 1 {
        lemma_reading_a_numeral(Seq::<char>::empty(), arcs[0]);
    } else {
        let before = dotted_text(arcs.drop_last());
        lemma_dotted_round_trip(arcs.drop_last());
        lemma_reading_one_more(before, '.');
        lemma_reading_a_numeral(before.push('.'), arcs.last());
    }
}

} // verus!
