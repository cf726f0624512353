//! Texts and numbers.
use vstd::prelude::*;

#[allow(unused_imports)]
use crate::text::{
    ascii_lower, ascii_lowercase, before, cut_once, decimal, digit_char, digits_value, first_index,
    found_at, is_digits, is_space, joined, number_in, occurs, padded, signed_decimal, spaces,
    stripped_end, trimmed, trimmed_end, trimmed_start, unsigned_part,
};

verus! {

/// The first place of a character that no earlier one is equal to.
proof fn lemma_first(s: Seq<char>, c: char, n: int)
    requires
        0 <= n <= s.len(),
        n < s.len() ==> s[n] == c,
        forall|i: int| 0 <= i < n ==> s[i] != c,
    ensures
        first_index(s, c) == n,
    decreases n,
{
    if n > 0 {
        assert(s[0] != c);
        let rest = s.drop_first();
        assert forall|i: int| 0 <= i < n - 1 implies rest[i] != c by {
            assert(s[i + 1] != c);
        }
        lemma_first(rest, c, n - 1);
    }
}

/// A text is cut at the first separator: what is before it and what is behind it,
/// separators among that.
pub proof fn cut_finds_the_first(a: Seq<char>, c: char, b: Seq<char>)
    requires
        !a.contains(c),
    ensures
        cut_once(a.push(c) + b, c) == Some((a, b)),
{
    let s = a.push(c) + b;
    assert forall|i: int| 0 <= i < a.len() implies s[i] != c by {
        assert(a.contains(a[i]));
        assert(s[i] == a[i]);
    }
    lemma_first(s, c, a.len() as int);
    assert(s.take(a.len() as int) =~= a);
    assert(s.skip(a.len() as int + 1) =~= b);
}

/// A text without a separator is not cut.
pub proof fn nothing_to_cut(a: Seq<char>, c: char)
    requires
        !a.contains(c),
    ensures
        cut_once(a, c) is None,
{
    assert forall|i: int| 0 <= i < a.len() implies a[i] != c by {
        assert(a.contains(a[i]));
    }
    lemma_first(a, c, a.len() as int);
}

/// White space is cut off both ends and nothing else: what is left starts and ends
/// with something that is none, and around it there was nothing but white space.
pub proof fn trimming_cuts_white_space_only(s: Seq<char>)
    ensures
        ({
            let t = trimmed(s);
            &&& t.len() > 0 ==> !is_space(t[0]) && !is_space(t[t.len() - 1])
            &&& exists|i: int, j: int| #[trigger] cuts(s, t, i, j)
            &&& s.len() > 0 && !is_space(s[0]) && !is_space(s[s.len() - 1]) ==> t == s
        }),
{
    lemma_trim_start(s);
    let m = trimmed_start(s);
    lemma_trim_end(m);
    let t = trimmed(s);
    let i = s.len() - m.len();
    let j = i + t.len();
    assert(t =~= s.subrange(i, j));
    assert forall|k: int| j <= k < s.len() implies is_space(#[trigger] s[k]) by {
        assert(m[k - i] == s[k]);
    }
    assert(cuts(s, t, i, j));
    if t.len() > 0 {
        assert(t[0] == m[0]);
    }
}

/// Whether a text is another from place `i` to place `j`, with nothing but white
/// space around it.
pub open spec fn cuts(s: Seq<char>, t: Seq<char>, i: int, j: int) -> bool {
    &&& 0 <= i <= j <= s.len()
    &&& t == s.subrange(i, j)
    &&& forall|k: int| 0 <= k < i ==> is_space(#[trigger] s[k])
    &&& forall|k: int| j <= k < s.len() ==> is_space(#[trigger] s[k])
}

/// The front of a trimmed text.
proof fn lemma_trim_start(s: Seq<char>)
    ensures
        trimmed_start(s).len() <= s.len(),
        trimmed_start(s) == s.skip(s.len() - trimmed_start(s).len()),
        forall|k: int| 0 <= k < s.len() - trimmed_start(s).len() ==> is_space(#[trigger] s[k]),
        trimmed_start(s).len() > 0 ==> !is_space(trimmed_start(s)[0]),
    decreases s.len(),
{
    if s.len() > 0 && is_space(s[0]) {
        let rest = s.drop_first();
        lemma_trim_start(rest);
        assert(trimmed_start(s) =~= s.skip(s.len() - trimmed_start(s).len()));
        assert forall|k: int| 0 <= k < s.len() - trimmed_start(s).len() implies is_space(
            #[trigger] s[k],
        ) by {
            if k > 0 {
                assert(rest[k - 1] == s[k]);
            }
        }
    } else {
        assert(s.skip(0) =~= s);
    }
}

/// The back of a trimmed text.
proof fn lemma_trim_end(s: Seq<char>)
    ensures
        trimmed_end(s).len() <= s.len(),
        trimmed_end(s) == s.take(trimmed_end(s).len() as int),
        forall|k: int| trimmed_end(s).len() <= k < s.len() ==> is_space(#[trigger] s[k]),
        trimmed_end(s).len() > 0 ==> !is_space(trimmed_end(s)[trimmed_end(s).len() - 1]),
    decreases s.len(),
{
    if s.len() > 0 && is_space(s.last()) {
        let front = s.drop_last();
        lemma_trim_end(front);
        assert(trimmed_end(s) =~= s.take(trimmed_end(s).len() as int));
        assert forall|k: int| trimmed_end(s).len() <= k < s.len() implies is_space(
            #[trigger] s[k],
        ) by {
            if k < s.len() - 1 {
                assert(front[k] == s[k]);
            }
        }
    } else {
        assert(s.take(s.len() as int) =~= s);
    }
}

/// Spaces, tabs and line ends are white space; letters, digits and punctuation are
/// not.
pub proof fn white_space_is_what_it_is(c: char)
    ensures
        is_space(' ') && is_space('\t') && is_space('\n') && is_space('\r'),
        '!' <= c <= '~' ==> !is_space(c),
{
}

/// A number that is written is read as that number.
pub proof fn numbers_are_read_as_written(n: nat)
    requires
        n <= u32::MAX,
    ensures
        number_in(decimal(n)) == Some(n as u32),
        number_in(seq!['+'] + decimal(n)) == Some(n as u32),
{
    lemma_decimal(n);
    let d = decimal(n);
    assert(d[0] != '+');
    assert(unsigned_part(d) == d);
    assert((seq!['+'] + d).drop_first() =~= d);
}

/// The digits of a number, and what they stand for.
proof fn lemma_decimal(n: nat)
    ensures
        decimal(n).len() > 0,
        is_digits(decimal(n)),
        digits_value(decimal(n)) == n,
    decreases n,
{
    if n < 10 {
        let d = decimal(n);
        assert(d.len() == 1 && d[0] == digit_char(n));
        assert(d.last() == digit_char(n));
        assert(d.drop_last() =~= Seq::<char>::empty());
        assert(digits_value(d.drop_last()) == 0);
    } else {
        lemma_decimal(n / 10);
        let d = decimal(n);
        assert(d.drop_last() =~= decimal(n / 10));
        assert forall|i: int| 0 <= i < d.len() implies '0' <= #[trigger] d[i] <= '9' by {
            if i < d.len() - 1 {
                assert(d[i] == decimal(n / 10)[i]);
            }
        }
    }
}

/// What is no number is not read as one: nothing, a letter in it, or too many
/// digits.
pub proof fn only_numbers_are_numbers(s: Seq<char>, i: int)
    requires
        0 < i < s.len(),
        !('0' <= s[i] <= '9'),
    ensures
        number_in(s) is None,
        number_in(Seq::<char>::empty()) is None,
{
    let d = unsigned_part(s);
    if s[0] == '+' {
        assert(d[i - 1] == s[i]);
    } else {
        assert(d[i] == s[i]);
    }
}

/// A number below zero has a minus sign, and its digits are those of the number
/// without it.
pub proof fn negative_numbers_have_a_sign(n: int)
    ensures
        n >= 0 ==> signed_decimal(n) == decimal(n as nat),
        n < 0 ==> signed_decimal(n).len() > 0 && signed_decimal(n)[0] == '-' && signed_decimal(
            n,
        ).skip(1) == decimal((-n) as nat),
{
    reveal_strlit("-");
    if n < 0 {
        assert(signed_decimal(n).skip(1) =~= decimal((-n) as nat));
    }
}

/// A text that is filled up is as wide as it should be, starts with the text, and
/// has nothing but spaces behind it; one that is wide enough stays as it is.
pub proof fn padding_fills_up(s: Seq<char>, width: int)
    requires
        width >= 0,
    ensures
        padded(s, width).take(s.len() as int) == s,
        s.len() <= width ==> padded(s, width).len() == width,
        s.len() >= width ==> padded(s, width) == s,
        forall|i: int| s.len() <= i < padded(s, width).len() ==> padded(s, width)[i] == ' ',
{
    assert(padded(s, width).take(s.len() as int) =~= s);
    if s.len() >= width {
        assert(padded(s, width) =~= s);
    }
}

/// Joined texts hold every one of them: the last at the end, and before it the
/// separator and the others.
pub proof fn joining_puts_a_separator_between(parts: Seq<Seq<char>>, last: Seq<char>, sep: Seq<char>)
    ensures
        joined(Seq::<Seq<char>>::empty(), sep) == Seq::<char>::empty(),
        joined(seq![last], sep) == last,
        parts.len() > 0 ==> joined(parts.push(last), sep) == joined(parts, sep) + sep + last,
{
    if parts.len() > 0 {
        assert(parts.push(last).drop_last() =~= parts);
    }
}

/// Lower-casing touches capital letters only, and twice is the same as once.
pub proof fn lower_casing_touches_capitals_only(s: Seq<char>, i: int)
    requires
        0 <= i < s.len(),
    ensures
        ascii_lowercase(s).len() == s.len(),
        !('A' <= s[i] <= 'Z') ==> ascii_lowercase(s)[i] == s[i],
        'A' <= s[i] <= 'Z' ==> ascii_lowercase(s)[i] as u32 == s[i] as u32 + 32,
        ascii_lowercase(ascii_lowercase(s)) == ascii_lowercase(s),
{
    assert(ascii_lowercase(ascii_lowercase(s)) =~= ascii_lowercase(s));
}

/// A slash at the end of an address does not matter, however many there are, and
/// nothing else is cut off.
pub proof fn ends_are_stripped(s: Seq<char>, c: char)
    ensures
        stripped_end(s.push(c), c) == stripped_end(s, c),
        s.len() > 0 && s[s.len() - 1] != c ==> stripped_end(s, c) == s,
{
    assert(s.push(c).drop_last() =~= s);
}

/// A text occurs in every text around it.
pub proof fn texts_occur_in_what_is_around_them(a: Seq<char>, b: Seq<char>, c: Seq<char>)
    ensures
        occurs(a + b + c, b),
{
    assert((a + b + c).subrange(a.len() as int, a.len() as int + b.len() as int) =~= b);
    assert(found_at(a + b + c, b, a.len() as int));
}

/// The order of texts: a text comes before every longer one that starts with it,
/// and otherwise the first difference decides, the smaller character first.
pub proof fn the_first_difference_decides(
    head: Seq<char>,
    a: char,
    b: char,
    x: Seq<char>,
    y: Seq<char>,
)
    requires
        a < b,
    ensures
        before(head + seq![a] + x, head + seq![b] + y),
        before(head, head + seq![a] + x),
        !before(head + seq![b] + y, head + seq![a] + x),
        !before(head + seq![a] + x, head),
    decreases head.len(),
{
    let p = head + seq![a] + x;
    let q = head + seq![b] + y;
    if head.len() > 0 {
        let rest = head.drop_first();
        the_first_difference_decides(rest, a, b, x, y);
        assert(p.drop_first() =~= rest + seq![a] + x);
        assert(q.drop_first() =~= rest + seq![b] + y);
    } else {
        assert(p[0] == a && q[0] == b);
    }
}

} // verus!
