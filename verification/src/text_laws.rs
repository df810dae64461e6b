//! What holds of searching, cutting and reading text.

use crate::text::{
    after_first, after_last, before_first, decimal, digit, digits, fields, first_at, first_index,
    last_at, last_index, lemma_first_index, lemma_last_index, number, occurs, occurs_at, starts,
    trimmed, white_space,
};
use vstd::prelude::*;

verus! {

/// What is put between two texts stands at the end of the first.
pub proof fn lemma_between(a: Seq<char>, pat: Seq<char>, b: Seq<char>)
    ensures
        occurs_at(a + pat + b, pat, a.len() as int),
        (a + pat + b).take(a.len() as int) == a,
        (a + pat + b).skip((a.len() + pat.len()) as int) == b,
{
    let s = a + pat + b;
    assert(s.subrange(a.len() as int, (a.len() + pat.len()) as int) =~= pat);
    assert(s.take(a.len() as int) =~= a);
    assert(s.skip((a.len() + pat.len()) as int) =~= b);
}

/// A text is cut in two by what stands in it.
pub proof fn lemma_cut(s: Seq<char>, pat: Seq<char>, i: int)
    requires
        occurs_at(s, pat, i),
    ensures
        s == s.take(i) + pat + s.skip(i + pat.len()),
{
    assert(s =~= s.take(i) + s.subrange(i, i + pat.len()) + s.skip(i + pat.len()));
}

/// One text occurs in another exactly if the other is something, then the text,
/// then something.
pub proof fn law_what_occurs_stands_between(s: Seq<char>, pat: Seq<char>)
    ensures
        occurs(s, pat) <==> exists|a: Seq<char>, b: Seq<char>| s == #[trigger] (a + pat + b),
{
    if occurs(s, pat) {
        let i = choose|i: int| occurs_at(s, pat, i);
        lemma_cut(s, pat, i);
    }
    if exists|a: Seq<char>, b: Seq<char>| s == #[trigger] (a + pat + b) {
        let (a, b) = choose|a: Seq<char>, b: Seq<char>| s == #[trigger] (a + pat + b);
        lemma_between(a, pat, b);
    }
}

/// A text starts with another exactly if it is the other and then something.
pub proof fn law_what_starts_goes_on(s: Seq<char>, prefix: Seq<char>)
    ensures
        starts(s, prefix) <==> exists|rest: Seq<char>| s == #[trigger] (prefix + rest),
        starts(s, prefix) ==> s == prefix + s.skip(prefix.len() as int),
{
    if starts(s, prefix) {
        lemma_cut(s, prefix, 0);
        assert(s.take(0) + prefix =~= prefix);
    }
    if exists|rest: Seq<char>| s == #[trigger] (prefix + rest) {
        let rest = choose|rest: Seq<char>| s == #[trigger] (prefix + rest);
        assert(s.subrange(0, prefix.len() as int) =~= prefix);
    }
}

/// The first occurrence cuts a text into what stands before it and what stands
/// after it.
pub proof fn law_cut_at_the_first(a: Seq<char>, pat: Seq<char>, b: Seq<char>)
    requires
        forall|x: Seq<char>, y: Seq<char>|
            a + pat + b == #[trigger] (x + pat + y) ==> a.len() <= x.len(),
    ensures
        first_index(a + pat + b, pat) == Some(a.len() as int),
        before_first(a + pat + b, pat) == a,
        after_first(a + pat + b, pat) == Some(b),
{
    let s = a + pat + b;
    lemma_between(a, pat, b);
    assert forall|j: int| occurs_at(s, pat, j) implies a.len() <= j by {
        lemma_cut(s, pat, j);
    }
    assert(first_at(s, pat, a.len() as int));
    lemma_first_index(s, pat, a.len() as int);
}

/// The last occurrence cuts off what stands after it.
pub proof fn law_cut_at_the_last(a: Seq<char>, pat: Seq<char>, b: Seq<char>)
    requires
        forall|x: Seq<char>, y: Seq<char>|
            a + pat + b == #[trigger] (x + pat + y) ==> x.len() <= a.len(),
    ensures
        last_index(a + pat + b, pat) == Some(a.len() as int),
        after_last(a + pat + b, pat) == b,
{
    let s = a + pat + b;
    lemma_between(a, pat, b);
    assert forall|j: int| occurs_at(s, pat, j) implies j <= a.len() by {
        lemma_cut(s, pat, j);
    }
    assert(last_at(s, pat, a.len() as int));
    lemma_last_index(s, pat, a.len() as int);
}

/// Where there is nothing to cut at, a text stays whole.
pub proof fn law_nothing_to_cut_at(s: Seq<char>, pat: Seq<char>)
    requires
        forall|x: Seq<char>, y: Seq<char>| s != #[trigger] (x + pat + y),
    ensures
        first_index(s, pat) is None,
        last_index(s, pat) is None,
        before_first(s, pat) == s,
        after_first(s, pat) is None,
        after_last(s, pat) == s,
{
    law_what_occurs_stands_between(s, pat);
}

/// A text without separator is one field.
pub proof fn law_one_field(s: Seq<char>, sep: char)
    requires
        forall|i: int| 0 <= i < s.len() ==> s[i] != sep,
    ensures
        fields(s, sep) == seq![s],
{
}

/// A separator parts the fields before it from the fields after it: none is
/// lost, none is added, and the order stays.
pub proof fn law_fields_add_up(a: Seq<char>, b: Seq<char>, sep: char)
    ensures
        fields(a.push(sep) + b, sep) == fields(a, sep) + fields(b, sep),
    decreases a.len(),
{
    let s = a.push(sep) + b;
    assert(s[a.len() as int] == sep);
    s.index_of_first_ensures(sep);
    let i = s.index_of_first(sep).unwrap();
    if a.contains(sep) {
        a.index_of_first_ensures(sep);
        let k = a.index_of_first(sep).unwrap();
        assert(s[k] == a[k]);
        assert(s[i] == a[i]);
        assert(i == k);
        let rest = a.skip(k + 1);
        assert(s.take(i) =~= a.take(k));
        assert(s.skip(i + 1) =~= rest.push(sep) + b);
        law_fields_add_up(rest, b, sep);
        assert(seq![a.take(k)] + (fields(rest, sep) + fields(b, sep)) =~= (seq![a.take(k)]
            + fields(rest, sep)) + fields(b, sep));
    } else {
        if i < a.len() {
            assert(s[i] == a[i]);
        }
        assert(i == a.len());
        assert(s.take(i) =~= a);
        assert(s.skip(i + 1) =~= b);
    }
}

/// The characters that count as white space, by their code points.
pub proof fn law_white_space_is_unicode(c: char)
    ensures
        white_space(c) <==> {
            let n = c as int;
            ||| 9 <= n <= 13
            ||| n == 0x20
            ||| n == 0x85
            ||| n == 0xa0
            ||| n == 0x1680
            ||| 0x2000 <= n <= 0x200a
            ||| n == 0x2028
            ||| n == 0x2029
            ||| n == 0x202f
            ||| n == 0x205f
            ||| n == 0x3000
        },
{
}

/// Nothing but white space is left of white space.
proof fn lemma_white_space_is_trimmed(s: Seq<char>)
    requires
        forall|i: int| 0 <= i < s.len() ==> white_space(#[trigger] s[i]),
    ensures
        trimmed(s) == Seq::<char>::empty(),
    decreases s.len(),
{
    if s.len() > 0 {
        lemma_white_space_is_trimmed(s.drop_first());
    } else {
        assert(s =~= Seq::<char>::empty());
    }
}

/// White space at the two ends is taken off, however much there is, and nothing
/// else is.
pub proof fn law_trimmed_between_white_space(left: Seq<char>, mid: Seq<char>, right: Seq<char>)
    requires
        forall|i: int| 0 <= i < left.len() ==> white_space(#[trigger] left[i]),
        forall|i: int| 0 <= i < right.len() ==> white_space(#[trigger] right[i]),
        mid.len() > 0 ==> !white_space(mid.first()) && !white_space(mid.last()),
    ensures
        trimmed(left + mid + right) == mid,
    decreases left.len() + right.len(),
{
    let s = left + mid + right;
    if mid.len() == 0 {
        lemma_white_space_is_trimmed(s);
        assert(mid =~= Seq::<char>::empty());
    } else if left.len() > 0 {
        assert(s.first() == left[0]);
        assert(s.drop_first() =~= left.drop_first() + mid + right);
        law_trimmed_between_white_space(left.drop_first(), mid, right);
    } else if right.len() > 0 {
        assert(s.first() == mid.first());
        assert(s.last() == right[right.len() - 1]);
        assert(s.drop_last() =~= left + mid + right.drop_last());
        law_trimmed_between_white_space(left, mid, right.drop_last());
    } else {
        assert(s =~= mid);
    }
}

/// The decimal digits are ten.
pub proof fn law_digits_are_ten(s: Seq<char>)
    ensures
        digits(s) <==> forall|i: int| 0 <= i < s.len() ==> 48 <= (#[trigger] s[i]) as int <= 57,
{
    if forall|i: int| 0 <= i < s.len() ==> 48 <= (#[trigger] s[i]) as int <= 57 {
        assert forall|i: int| 0 <= i < s.len() implies digit(#[trigger] s[i]) by {}
    }
}

/// A row of digits is read in the decimal system: each further digit makes the
/// number ten times as large and adds itself.
pub proof fn law_decimal_system(s: Seq<char>, c: char)
    requires
        48 <= c as int <= 57,
    ensures
        decimal(Seq::<char>::empty()) == 0,
        decimal(s.push(c)) == 10 * decimal(s) + (c as int - 48),
{
    assert(s.push(c).drop_last() =~= s);
}

/// A row of digits is read as the number that it writes, with or without a plus
/// sign before it, if the number fits.
pub proof fn law_row_of_digits_is_a_number(row: Seq<char>)
    requires
        row.len() > 0,
        forall|i: int| 0 <= i < row.len() ==> 48 <= (#[trigger] row[i]) as int <= 57,
    ensures
        decimal(row) <= usize::MAX ==> number(row) == Some(decimal(row)) && number(seq!['+'] + row)
            == Some(decimal(row)),
        decimal(row) > usize::MAX ==> number(row) is None && number(seq!['+'] + row) is None,
{
    law_digits_are_ten(row);
    assert(digit(row[0]));
    assert((seq!['+'] + row).drop_first() =~= row);
}

/// Nothing but a row of digits, with or without a plus sign, is a number.
pub proof fn law_nothing_else_is_a_number(s: Seq<char>)
    requires
        number(s) is Some,
    ensures
        s.len() > 0,
        s[0] == '+' ==> s.len() > 1,
        forall|i: int|
            0 <= i < s.len() ==> 48 <= (#[trigger] s[i]) as int <= 57 || (i == 0 && s[i] == '+'),
{
    if s[0] == '+' {
        let row = s.drop_first();
        assert forall|i: int| 0 <= i < s.len() implies 48 <= (#[trigger] s[i]) as int <= 57 || (i
            == 0 && s[i] == '+') by {
            if i > 0 {
                assert(row[i - 1] == s[i]);
            }
        }
    }
}

} // verus!
