//! Text building blocks shared by the modules that produce strings:
//! decimal digits, joining with a separator, and what it means for one text
//! to occur inside another.
use vstd::prelude::*;

verus! {

/// `String::push` of the standard library appends the given character to the end of
/// the string and leaves the rest of it as it was.
pub assume_specification[ String::push ](s: &mut String, c: char)
    ensures
        final(s)@ == old(s)@.push(c),
;

/// The character that stands for the decimal digit `d`.
pub open spec fn digit(d: int) -> char {
    ((48 + d) as u8) as char
}

/// The decimal numeral of `n`, without leading zeros.
pub open spec fn decimal(n: nat) -> Seq<char>
    decreases n,
{
    if n < 10 {
        seq![digit(n as int)]
    } else {
        decimal(n / 10).push(digit((n % 10) as int))
    }
}

/// The texts of `parts` in order, with `sep` between neighbours.
pub open spec fn join(parts: Seq<Seq<char>>, sep: Seq<char>) -> Seq<char>
    decreases parts.len(),
{
    if parts.len() == 0 {
        Seq::empty()
    } else if parts.len() == 1 {
        parts[0]
    } else {
        join(parts.drop_last(), sep) + sep + parts.last()
    }
}

/// `part` occurs in `text` as a contiguous run of characters.
pub open spec fn has_substring(text: Seq<char>, part: Seq<char>) -> bool {
    exists|at: int|
        0 <= at && at + part.len() <= text.len() && #[trigger] text.subrange(
            at,
            at + part.len(),
        ) == part
}

/// Every text occurs in itself.
pub proof fn lemma_substring_self(text: Seq<char>)
    ensures
        has_substring(text, text),
{
    assert(text.subrange(0, 0 + text.len() as int) == text);
}

/// What occurs in a text still occurs in it when more text is put before and after.
pub proof fn lemma_substring_framed(
    before: Seq<char>,
    text: Seq<char>,
    after: Seq<char>,
    part: Seq<char>,
)
    requires
        has_substring(text, part),
    ensures
        has_substring(before + text + after, part),
{
    let at = choose|at: int|
        0 <= at && at + part.len() <= text.len() && #[trigger] text.subrange(at, at + part.len())
            == part;
    let whole = before + text + after;
    let shifted = before.len() + at;
    assert(whole.subrange(shifted, shifted + part.len()) == part);
}

/// Occurring in a text is transitive.
pub proof fn lemma_substring_trans(text: Seq<char>, middle: Seq<char>, part: Seq<char>)
    requires
        has_substring(text, middle),
        has_substring(middle, part),
    ensures
        has_substring(text, part),
{
    let outer = choose|at: int|
        0 <= at && at + middle.len() <= text.len() && #[trigger] text.subrange(
            at,
            at + middle.len(),
        ) == middle;
    let inner = choose|at: int|
        0 <= at && at + part.len() <= middle.len() && #[trigger] middle.subrange(
            at,
            at + part.len(),
        ) == part;
    let at = outer + inner;
    assert(text.subrange(at, at + part.len()) == part);
}

/// Each of the joined parts occurs in the joined text.
pub proof fn lemma_join_has_part(parts: Seq<Seq<char>>, sep: Seq<char>, i: int)
    requires
        0 <= i < parts.len(),
    ensures
        has_substring(join(parts, sep), parts[i]),
    decreases parts.len(),
{
    let empty = Seq::<char>::empty();
    if parts.len() == 1 {
        lemma_substring_self(parts[0]);
    } else if i == parts.len() - 1 {
        lemma_substring_self(parts.last());
        lemma_substring_framed(join(parts.drop_last(), sep) + sep, parts.last(), empty, parts[i]);
    } else {
        lemma_join_has_part(parts.drop_last(), sep, i);
        lemma_substring_framed(
            empty,
            join(parts.drop_last(), sep),
            sep + parts.last(),
            parts[i],
        );
        assert(empty + join(parts.drop_last(), sep) + (sep + parts.last()) == join(parts, sep));
    }
}

/// Joining one more part appends the separator and the part, unless it is the first.
pub proof fn lemma_join_push(parts: Seq<Seq<char>>, sep: Seq<char>, last: Seq<char>)
    ensures
        join(parts.push(last), sep) == if parts.len() == 0 {
            last
        } else {
            join(parts, sep) + sep + last
        },
{
    assert(parts.push(last).drop_last() == parts);
}

/// The character of a single decimal digit.
pub fn digit_char(d: u8) -> (c: char)
    requires
        d <= 9,
    ensures
        c == digit(d as int),
{
    let code: u8 = 48 + d;
    code as char
}

/// Appends the decimal numeral of `n` to `out`.
pub fn push_decimal(out: &mut String, n: u64)
    ensures
        final(out)@ == old(out)@ + decimal(n as nat),
    decreases n,
{
    if n >= 10 {
        push_decimal(out, n / 10);
    }
    out.push(digit_char((n % 10) as u8));
}

} // verus!
