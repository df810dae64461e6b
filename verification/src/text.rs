//! Searching, cutting and reading text, stated over sequences of characters.

use vstd::prelude::*;

verus! {

/// `pat` stands in `s` at position `i`.
pub open spec fn occurs_at(s: Seq<char>, pat: Seq<char>, i: int) -> bool {
    &&& 0 <= i
    &&& i + pat.len() <= s.len()
    &&& s.subrange(i, i + pat.len()) == pat
}

/// `pat` stands somewhere in `s`.
pub open spec fn occurs(s: Seq<char>, pat: Seq<char>) -> bool {
    exists|i: int| occurs_at(s, pat, i)
}

/// `i` is the position of the first occurrence of `pat` in `s`.
pub open spec fn first_at(s: Seq<char>, pat: Seq<char>, i: int) -> bool {
    &&& occurs_at(s, pat, i)
    &&& forall|j: int| occurs_at(s, pat, j) ==> i <= j
}

/// `i` is the position of the last occurrence of `pat` in `s`.
pub open spec fn last_at(s: Seq<char>, pat: Seq<char>, i: int) -> bool {
    &&& occurs_at(s, pat, i)
    &&& forall|j: int| occurs_at(s, pat, j) ==> j <= i
}

/// The position of the first occurrence of `pat` in `s`.
pub open spec fn first_index(s: Seq<char>, pat: Seq<char>) -> Option<int> {
    if occurs(s, pat) {
        Some(choose|i: int| first_at(s, pat, i))
    } else {
        None
    }
}

/// The position of the last occurrence of `pat` in `s`.
pub open spec fn last_index(s: Seq<char>, pat: Seq<char>) -> Option<int> {
    if occurs(s, pat) {
        Some(choose|i: int| last_at(s, pat, i))
    } else {
        None
    }
}

/// `s` starts with `prefix`.
pub open spec fn starts(s: Seq<char>, prefix: Seq<char>) -> bool {
    occurs_at(s, prefix, 0)
}

/// What stands in `s` before the first `pat`; all of `s` where there is none.
pub open spec fn before_first(s: Seq<char>, pat: Seq<char>) -> Seq<char> {
    match first_index(s, pat) {
        Some(i) => s.take(i),
        None => s,
    }
}

/// What stands in `s` after the first `pat`, where there is one.
pub open spec fn after_first(s: Seq<char>, pat: Seq<char>) -> Option<Seq<char>> {
    match first_index(s, pat) {
        Some(i) => Some(s.skip(i + pat.len())),
        None => None,
    }
}

/// What stands in `s` after the last `pat`; all of `s` where there is none.
pub open spec fn after_last(s: Seq<char>, pat: Seq<char>) -> Seq<char> {
    match last_index(s, pat) {
        Some(i) => s.skip(i + pat.len()),
        None => s,
    }
}

/// A position that is first is the one that `first_index` gives.
pub proof fn lemma_first_index(s: Seq<char>, pat: Seq<char>, i: int)
    requires
        first_at(s, pat, i),
    ensures
        first_index(s, pat) == Some(i),
{
    let k = choose|k: int| first_at(s, pat, k);
    assert(first_at(s, pat, k));
}

/// A position that is last is the one that `last_index` gives.
pub proof fn lemma_last_index(s: Seq<char>, pat: Seq<char>, i: int)
    requires
        last_at(s, pat, i),
    ensures
        last_index(s, pat) == Some(i),
{
    let k = choose|k: int| last_at(s, pat, k);
    assert(last_at(s, pat, k));
}

/// What occurs has a first occurrence, and `first_index` gives it.
pub proof fn lemma_first_occurs(s: Seq<char>, pat: Seq<char>)
    requires
        occurs(s, pat),
    ensures
        first_index(s, pat) matches Some(i) && first_at(s, pat, i),
{
    let i = choose|i: int| occurs_at(s, pat, i);
    lemma_first_upto(s, pat, i);
}

/// Up to one occurrence there is a first one.
proof fn lemma_first_upto(s: Seq<char>, pat: Seq<char>, i: int)
    requires
        occurs_at(s, pat, i),
    ensures
        exists|k: int| first_at(s, pat, k),
    decreases i,
{
    if exists|j: int| occurs_at(s, pat, j) && j < i {
        let j = choose|j: int| occurs_at(s, pat, j) && j < i;
        lemma_first_upto(s, pat, j);
    } else {
        assert(first_at(s, pat, i));
    }
}

/// What occurs has a last occurrence, and `last_index` gives it.
pub proof fn lemma_last_occurs(s: Seq<char>, pat: Seq<char>)
    requires
        occurs(s, pat),
    ensures
        last_index(s, pat) matches Some(i) && last_at(s, pat, i),
{
    let i = choose|i: int| occurs_at(s, pat, i);
    lemma_last_from(s, pat, i);
}

/// From one occurrence on there is a last one.
proof fn lemma_last_from(s: Seq<char>, pat: Seq<char>, i: int)
    requires
        occurs_at(s, pat, i),
    ensures
        exists|k: int| last_at(s, pat, k),
    decreases s.len() - i,
{
    if exists|j: int| occurs_at(s, pat, j) && j > i {
        let j = choose|j: int| occurs_at(s, pat, j) && j > i;
        lemma_last_from(s, pat, j);
    } else {
        assert(last_at(s, pat, i));
    }
}

/// Where a character of `pat` is missing from `s`, so is `pat`.
pub proof fn lemma_absent(s: Seq<char>, pat: Seq<char>, k: int)
    requires
        0 <= k < pat.len(),
        !s.contains(pat[k]),
    ensures
        !occurs(s, pat),
{
    assert forall|i: int| occurs_at(s, pat, i) implies false by {
        assert(s.subrange(i, i + pat.len())[k] == s[i + k]);
    }
}

/// `pat`, put after `left`, is the first of its kind there.
pub open spec fn first_after(left: Seq<char>, pat: Seq<char>) -> bool {
    !occurs(left + pat.drop_last(), pat)
}

/// What is first after `left` stays first, whatever follows.
pub proof fn lemma_first_after(left: Seq<char>, pat: Seq<char>, right: Seq<char>)
    requires
        pat.len() > 0,
        first_after(left, pat),
    ensures
        first_index(left + pat + right, pat) == Some(left.len() as int),
        before_first(left + pat + right, pat) == left,
        after_first(left + pat + right, pat) == Some(right),
{
    let s = left + pat + right;
    let i = left.len() as int;
    assert(s.subrange(i, i + pat.len()) =~= pat);
    assert forall|j: int| occurs_at(s, pat, j) implies i <= j by {
        if j < i {
            let start = left + pat.drop_last();
            assert(start.subrange(j, j + pat.len()) =~= s.subrange(j, j + pat.len()));
            assert(occurs_at(start, pat, j));
        }
    }
    lemma_first_index(s, pat, i);
    assert(s.take(i) =~= left);
    assert(s.skip(i + pat.len()) =~= right);
}

/// A text is first after what lacks one of its characters, if it holds that
/// character once.
pub proof fn lemma_first_after_by(left: Seq<char>, pat: Seq<char>, k: int)
    requires
        0 <= k < pat.len(),
        !left.contains(pat[k]),
        forall|j: int| 0 <= j < pat.len() && j != k ==> pat[j] != pat[k],
    ensures
        first_after(left, pat),
{
    let start = left + pat.drop_last();
    assert forall|i: int| occurs_at(start, pat, i) implies false by {
        assert(start.subrange(i, i + pat.len())[k] == start[i + k]);
        if i + k < left.len() {
            assert(left[i + k] == pat[k]);
        } else {
            assert(pat[i + k - left.len()] == pat[k]);
        }
    }
}

/// A text is last before what lacks one of its characters, if it holds that
/// character once.
pub proof fn lemma_last_before_by(left: Seq<char>, pat: Seq<char>, right: Seq<char>, k: int)
    requires
        0 <= k < pat.len(),
        !right.contains(pat[k]),
        forall|j: int| 0 <= j < pat.len() && j != k ==> pat[j] != pat[k],
    ensures
        last_index(left + pat + right, pat) == Some(left.len() as int),
        after_last(left + pat + right, pat) == right,
{
    let s = left + pat + right;
    let i = left.len() as int;
    assert(s.subrange(i, i + pat.len()) =~= pat);
    assert forall|j: int| occurs_at(s, pat, j) implies j <= i by {
        assert(s.subrange(j, j + pat.len())[k] == s[j + k]);
        if j > i {
            if j + k < i + pat.len() {
                assert(s[j + k] == pat[j + k - i]);
            } else {
                assert(s[j + k] == right[j + k - i - pat.len()]);
            }
        }
    }
    lemma_last_index(s, pat, i);
    assert(s.skip(i + pat.len()) =~= right);
}

/// The characters of `s`.
pub fn to_chars(s: &str) -> (chars: Vec<char>)
    ensures
        chars@ == s@,
{
    let mut chars: Vec<char> = Vec::new();
    for c in it: s.chars()
        invariant
            it.seq() == s@,
            chars@ == it.seq().take(it.index() as int),
    {
        chars.push(c);
        assert(it.seq().take(it.index() + 1) == it.seq().take(it.index() as int).push(
            it.seq()[it.index() as int],
        ));
    }
    assert(s@.take(s@.len() as int) == s@);
    chars
}

/// Whether `pat` stands in `s` at position `i`.
pub fn matches_at(s: &Vec<char>, pat: &Vec<char>, i: usize) -> (res: bool)
    requires
        i + pat@.len() <= s@.len(),
    ensures
        res == occurs_at(s@, pat@, i as int),
{
    let size: usize = s.len();
    let mut k: usize = 0;
    while k < pat.len()
        invariant
            k <= pat@.len(),
            i + pat@.len() <= s@.len() == size,
            forall|j: int| 0 <= j < k ==> s@[i + j] == pat@[j],
        decreases pat@.len() - k,
    {
        if s[i + k] != pat[k] {
            assert(s@.subrange(i as int, i + pat@.len())[k as int] != pat@[k as int]);
            return false;
        }
        k += 1;
    }
    assert(s@.subrange(i as int, i + pat@.len()) =~= pat@);
    true
}

/// The position, counted in characters, of the first `pat` in `s`.
pub fn find(s: &str, pat: &str) -> (res: Option<usize>)
    ensures
        match res {
            Some(i) => first_index(s@, pat@) == Some(i as int) && occurs_at(s@, pat@, i as int),
            None => first_index(s@, pat@) is None,
        },
{
    let hay = to_chars(s);
    let needle = to_chars(pat);
    if needle.len() > hay.len() {
        return None;
    }
    let last: usize = hay.len() - needle.len();
    let mut i: usize = 0;
    loop
        invariant
            hay@ == s@,
            needle@ == pat@,
            last == hay@.len() - needle@.len(),
            i <= last,
            forall|j: int| occurs_at(s@, pat@, j) ==> i <= j,
        decreases last - i,
    {
        if matches_at(&hay, &needle, i) {
            proof {
                lemma_first_index(s@, pat@, i as int);
            }
            return Some(i);
        }
        if i == last {
            return None;
        }
        i += 1;
    }
}

/// The position, counted in characters, of the last `pat` in `s`.
pub fn rfind(s: &str, pat: &str) -> (res: Option<usize>)
    ensures
        match res {
            Some(i) => last_index(s@, pat@) == Some(i as int) && occurs_at(s@, pat@, i as int),
            None => last_index(s@, pat@) is None,
        },
{
    let hay = to_chars(s);
    let needle = to_chars(pat);
    if needle.len() > hay.len() {
        return None;
    }
    let mut i: usize = hay.len() - needle.len();
    loop
        invariant
            hay@ == s@,
            needle@ == pat@,
            i + needle@.len() <= hay@.len(),
            forall|j: int| occurs_at(s@, pat@, j) ==> j <= i,
        decreases i,
    {
        if matches_at(&hay, &needle, i) {
            proof {
                lemma_last_index(s@, pat@, i as int);
            }
            return Some(i);
        }
        if i == 0 {
            return None;
        }
        i -= 1;
    }
}

/// Whether `pat` stands somewhere in `s`.
pub fn contains(s: &str, pat: &str) -> (res: bool)
    ensures
        res == occurs(s@, pat@),
{
    match find(s, pat) {
        Some(_) => true,
        None => false,
    }
}

/// Whether `s` starts with `prefix`.
pub fn starts_with(s: &str, prefix: &str) -> (res: bool)
    ensures
        res == starts(s@, prefix@),
{
    let hay = to_chars(s);
    let needle = to_chars(prefix);
    needle.len() <= hay.len() && matches_at(&hay, &needle, 0)
}

/// Whether two texts are the same.
pub fn same(a: &str, b: &str) -> (res: bool)
    ensures
        res == (a@ == b@),
{
    let left = to_chars(a);
    let right = to_chars(b);
    let res = left.len() == right.len() && matches_at(&left, &right, 0);
    assert(left@.len() == right@.len() ==> left@.subrange(0, right@.len() as int) =~= left@);
    res
}

/// What follows `prefix` in a text that starts with it.
pub fn strip_prefix<'a>(s: &'a str, prefix: &str) -> (res: Option<&'a str>)
    ensures
        match res {
            Some(rest) => starts(s@, prefix@) && rest@ == s@.skip(prefix@.len() as int),
            None => !starts(s@, prefix@),
        },
{
    if starts_with(s, prefix) {
        Some(s.substring_char(prefix.unicode_len(), s.unicode_len()))
    } else {
        None
    }
}

/// The two sides of the first `sep` in `s`.
pub fn split_once<'a>(s: &'a str, sep: &str) -> (res: Option<(&'a str, &'a str)>)
    ensures
        match res {
            Some((left, right)) => left@ == before_first(s@, sep@) && after_first(s@, sep@)
                == Some(right@),
            None => !occurs(s@, sep@),
        },
{
    match find(s, sep) {
        Some(i) => {
            let end: usize = s.unicode_len();
            Some((s.substring_char(0, i), s.substring_char(i + sep.unicode_len(), end)))
        },
        None => None,
    }
}

/// What stands in `s` before the first `sep`; all of `s` where there is none.
pub fn head<'a>(s: &'a str, sep: &str) -> (res: &'a str)
    ensures
        res@ == before_first(s@, sep@),
{
    match find(s, sep) {
        Some(i) => s.substring_char(0, i),
        None => s,
    }
}

/// What stands in `s` after the last `sep`; all of `s` where there is none.
pub fn tail<'a>(s: &'a str, sep: &str) -> (res: &'a str)
    ensures
        res@ == after_last(s@, sep@),
{
    match rfind(s, sep) {
        Some(i) => {
            let end: usize = s.unicode_len();
            s.substring_char(i + sep.unicode_len(), end)
        },
        None => s,
    }
}

/// The fields of `s` between the separators `sep`, in order.
pub open spec fn fields(s: Seq<char>, sep: char) -> Seq<Seq<char>>
    decreases s.len(),
{
    if s.contains(sep) {
        proof {
            s.index_of_first_ensures(sep);
        }
        let i = s.index_of_first(sep).unwrap();
        seq![s.take(i)] + fields(s.skip(i + 1), sep)
    } else {
        seq![s]
    }
}

/// The texts that a list of string slices stands for.
pub open spec fn views(list: Seq<&str>) -> Seq<Seq<char>> {
    Seq::new(list.len(), |i: int| list[i]@)
}

/// The fields of `s` between the separators `sep`, in order.
pub fn split<'a>(s: &'a str, sep: char) -> (res: Vec<&'a str>)
    ensures
        views(res@) == fields(s@, sep),
{
    let chars = to_chars(s);
    let size: usize = chars.len();
    let mut res: Vec<&'a str> = Vec::new();
    let mut start: usize = 0;
    let mut i: usize = 0;
    assert(s@.skip(0) =~= s@);
    while i < size
        invariant
            chars@ == s@,
            size == s@.len(),
            start <= i <= size,
            forall|j: int| start <= j < i ==> s@[j] != sep,
            views(res@) + fields(s@.skip(start as int), sep) == fields(s@, sep),
        decreases size - i,
    {
        if chars[i] == sep {
            let field = s.substring_char(start, i);
            proof {
                let rest = s@.skip(start as int);
                assert(rest[i - start] == sep);
                rest.index_of_first_ensures(sep);
                let k = rest.index_of_first(sep).unwrap();
                assert(s@[start + k] == sep);
                assert(k == i - start);
                assert(rest.take(k) =~= field@);
                assert(rest.skip(k + 1) =~= s@.skip(i + 1));
                assert(views(res@.push(field)) =~= views(res@).push(field@));
                assert(views(res@).push(field@) + fields(s@.skip(i + 1), sep) =~= views(res@) + (seq![
                    field@,
                ] + fields(s@.skip(i + 1), sep)));
            }
            res.push(field);
            start = i + 1;
        }
        i += 1;
    }
    let field = s.substring_char(start, size);
    proof {
        let rest = s@.skip(start as int);
        assert forall|j: int| 0 <= j < rest.len() implies rest[j] != sep by {
            assert(s@[start + j] != sep);
        }
        assert(rest =~= field@);
        assert(views(res@.push(field)) =~= views(res@) + seq![field@]);
    }
    res.push(field);
    res
}

/// `c` has the Unicode property `White_Space`.
pub open spec fn white_space(c: char) -> bool {
    ||| '\t' <= c <= '\r'
    ||| c == ' '
    ||| c == '\u{85}'
    ||| c == '\u{a0}'
    ||| c == '\u{1680}'
    ||| '\u{2000}' <= c <= '\u{200a}'
    ||| c == '\u{2028}'
    ||| c == '\u{2029}'
    ||| c == '\u{202f}'
    ||| c == '\u{205f}'
    ||| c == '\u{3000}'
}

/// `s` without the white space at its two ends.
pub open spec fn trimmed(s: Seq<char>) -> Seq<char>
    decreases s.len(),
{
    if s.len() > 0 && white_space(s.first()) {
        trimmed(s.drop_first())
    } else if s.len() > 0 && white_space(s.last()) {
        trimmed(s.drop_last())
    } else {
        s
    }
}

/// Whether `c` has the Unicode property `White_Space`.
pub fn is_white_space(c: char) -> (res: bool)
    ensures
        res == white_space(c),
{
    ('\t' <= c && c <= '\r') || c == ' ' || c == '\u{85}' || c == '\u{a0}' || c == '\u{1680}' || (
    '\u{2000}' <= c && c <= '\u{200a}') || c == '\u{2028}' || c == '\u{2029}' || c == '\u{202f}'
        || c == '\u{205f}' || c == '\u{3000}'
}

/// `s` without the white space at its two ends.
pub fn trim<'a>(s: &'a str) -> (res: &'a str)
    ensures
        res@ == trimmed(s@),
{
    let chars = to_chars(s);
    let mut lo: usize = 0;
    let mut hi: usize = chars.len();
    assert(s@.subrange(0, s@.len() as int) =~= s@);
    while lo < hi && is_white_space(chars[lo])
        invariant
            chars@ == s@,
            lo <= hi == s@.len(),
            trimmed(s@.subrange(lo as int, hi as int)) == trimmed(s@),
        decreases hi - lo,
    {
        proof {
            let rest = s@.subrange(lo as int, hi as int);
            assert(rest.first() == s@[lo as int]);
            assert(rest.drop_first() =~= s@.subrange(lo + 1, hi as int));
        }
        lo += 1;
    }
    while lo < hi && is_white_space(chars[hi - 1])
        invariant
            chars@ == s@,
            lo <= hi <= s@.len(),
            lo < hi ==> !white_space(s@[lo as int]),
            trimmed(s@.subrange(lo as int, hi as int)) == trimmed(s@),
        decreases hi - lo,
    {
        proof {
            let rest = s@.subrange(lo as int, hi as int);
            assert(rest.first() == s@[lo as int]);
            assert(rest.last() == s@[hi - 1]);
            assert(rest.drop_last() =~= s@.subrange(lo as int, hi - 1));
        }
        hi -= 1;
    }
    let res = s.substring_char(lo, hi);
    assert(lo < hi ==> res@.first() == s@[lo as int] && res@.last() == s@[hi - 1]);
    res
}

/// `c` is a decimal digit.
pub open spec fn digit(c: char) -> bool {
    '0' <= c <= '9'
}

/// `s` consists of decimal digits.
pub open spec fn digits(s: Seq<char>) -> bool {
    forall|i: int| 0 <= i < s.len() ==> digit(#[trigger] s[i])
}

/// Whether `s` consists of decimal digits.
pub fn all_digits(s: &str) -> (res: bool)
    ensures
        res == digits(s@),
{
    let chars = to_chars(s);
    let mut i: usize = 0;
    while i < chars.len()
        invariant
            chars@ == s@,
            i <= s@.len(),
            forall|j: int| 0 <= j < i ==> digit(#[trigger] s@[j]),
        decreases s@.len() - i,
    {
        let c: char = chars[i];
        if !('0' <= c && c <= '9') {
            assert(!digit(s@[i as int]));
            return false;
        }
        i += 1;
    }
    true
}

/// The number that a row of decimal digits writes.
pub open spec fn decimal(s: Seq<char>) -> nat
    decreases s.len(),
{
    if s.len() == 0 {
        0
    } else {
        10 * decimal(s.drop_last()) + (s.last() as nat - '0' as nat) as nat
    }
}

/// The number that `s` writes: at least one digit, after at most one `+`, and
/// no more than a `usize` holds.
pub open spec fn number(s: Seq<char>) -> Option<nat> {
    let row = if s.len() > 0 && s[0] == '+' {
        s.drop_first()
    } else {
        s
    };
    if row.len() > 0 && digits(row) && decimal(row) <= usize::MAX {
        Some(decimal(row))
    } else {
        None
    }
}

/// A row of digits writes no less than its first digits do.
proof fn lemma_decimal_grows(s: Seq<char>, k: int)
    requires
        digits(s),
        0 <= k <= s.len(),
    ensures
        decimal(s.take(k)) <= decimal(s),
    decreases s.len() - k,
{
    if k == s.len() {
        assert(s.take(k) =~= s);
    } else {
        lemma_decimal_grows(s, k + 1);
        assert(s.take(k + 1).drop_last() =~= s.take(k));
    }
}

/// Reads a number as `usize::from_str` does.
pub fn parse_usize(s: &str) -> (res: Option<usize>)
    ensures
        match res {
            Some(n) => number(s@) == Some(n as nat),
            None => number(s@) is None,
        },
{
    let chars = to_chars(s);
    let size: usize = chars.len();
    let start: usize = if size > 0 && chars[0] == '+' {
        1
    } else {
        0
    };
    let ghost row = s@.skip(start as int);
    assert(start == 1 ==> row =~= s@.drop_first());
    assert(start == 0 ==> row =~= s@);
    if start == size {
        return None;
    }
    let mut value: usize = 0;
    let mut i: usize = start;
    while i < size
        invariant
            chars@ == s@,
            size == s@.len(),
            start <= i <= size,
            row == s@.skip(start as int),
            number(s@) == if row.len() > 0 && digits(row) && decimal(row) <= usize::MAX {
                Some(decimal(row))
            } else {
                None
            },
            digits(row.take(i - start)),
            value == decimal(row.take(i - start)),
        decreases size - i,
    {
        let c: char = chars[i];
        let ghost k = i - start;
        assert(row[k] == c);
        if !('0' <= c && c <= '9') {
            return None;
        }
        let d: usize = (c as u32 - '0' as u32) as usize;
        proof {
            assert(row.take(k + 1).drop_last() =~= row.take(k));
            assert(decimal(row.take(k + 1)) == 10 * value + d);
            assert forall|j: int| 0 <= j < k + 1 implies digit(#[trigger] row.take(k + 1)[j]) by {
                if j < k {
                    assert(row.take(k)[j] == row.take(k + 1)[j]);
                }
            }
            if digits(row) {
                lemma_decimal_grows(row, k + 1);
            }
        }
        if value > usize::MAX / 10 || value * 10 > usize::MAX - d {
            return None;
        }
        value = value * 10 + d;
        i += 1;
    }
    assert(row.take(row.len() as int) =~= row);
    Some(value)
}

} // verus!
