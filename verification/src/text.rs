//! Text: white space, case-insensitive comparison and joining.

use vstd::prelude::*;

verus! {

/// The Unicode property `White_Space`.
pub open spec fn white_space(c: char) -> bool {
    let n = c as u32;
    ||| 0x9 <= n <= 0xd
    ||| n == 0x20
    ||| n == 0x85
    ||| n == 0xa0
    ||| n == 0x1680
    ||| 0x2000 <= n <= 0x200a
    ||| n == 0x2028
    ||| n == 0x2029
    ||| n == 0x202f
    ||| n == 0x205f
    ||| n == 0x3000
}

/// A text is blank when it holds nothing but white space.
pub open spec fn blank(s: Seq<char>) -> bool {
    forall|i: int| 0 <= i < s.len() ==> white_space(#[trigger] s[i])
}

/// A text without the white space that it begins with.
pub open spec fn without_leading_space(s: Seq<char>) -> Seq<char>
    decreases s.len(),
{
    if s.len() > 0 && white_space(s.first()) {
        without_leading_space(s.drop_first())
    } else {
        s
    }
}

/// A text without the white space that it ends with.
pub open spec fn without_trailing_space(s: Seq<char>) -> Seq<char>
    decreases s.len(),
{
    if s.len() > 0 && white_space(s.last()) {
        without_trailing_space(s.drop_last())
    } else {
        s
    }
}

/// A text without the white space at its two ends.
pub open spec fn trimmed(s: Seq<char>) -> Seq<char> {
    without_trailing_space(without_leading_space(s))
}

/// An ASCII upper-case letter becomes its lower-case letter; every other character stays.
pub open spec fn ascii_folded(c: char) -> char {
    if 'A' <= c && c <= 'Z' {
        ((c as u32) + 32) as char
    } else {
        c
    }
}

/// Two texts are the same but for the case of ASCII letters.
pub open spec fn same_but_for_ascii_case(a: Seq<char>, b: Seq<char>) -> bool {
    a.map_values(|c: char| ascii_folded(c)) == b.map_values(|c: char| ascii_folded(c))
}

/// The texts of a list of strings.
pub open spec fn texts(strings: Seq<String>) -> Seq<Seq<char>> {
    strings.map_values(|s: String| s@)
}

/// The text of a string that may be missing.
pub open spec fn optional_text(s: Option<String>) -> Option<Seq<char>> {
    match s {
        Some(s) => Some(s@),
        None => None,
    }
}

/// The parts one after another, with the separator between each two of them.
pub open spec fn joined(parts: Seq<Seq<char>>, separator: Seq<char>) -> Seq<char>
    decreases parts.len(),
{
    if parts.len() == 0 {
        Seq::empty()
    } else if parts.len() == 1 {
        parts[0]
    } else {
        joined(parts.drop_last(), separator) + separator + parts.last()
    }
}

/// `part` stands somewhere in `whole`.
pub open spec fn occurs_in(part: Seq<char>, whole: Seq<char>) -> bool {
    exists|before: Seq<char>, after: Seq<char>| whole == #[trigger] (before + part + after)
}

/// A text that occurs in a part of a longer text occurs in the longer text.
proof fn occurrence_is_kept(part: Seq<char>, inner: Seq<char>, before: Seq<char>, after: Seq<char>)
    requires
        occurs_in(part, inner),
    ensures
        occurs_in(part, before + inner + after),
{
    let (b, a) = choose|b: Seq<char>, a: Seq<char>| inner == #[trigger] (b + part + a);
    assert(before + inner + after =~= (before + b) + part + (a + after));
}

/// Every part of a joined text occurs in it.
pub proof fn joined_holds_each_part(parts: Seq<Seq<char>>, separator: Seq<char>, k: int)
    requires
        0 <= k < parts.len(),
    ensures
        occurs_in(parts[k], joined(parts, separator)),
    decreases parts.len(),
{
    let e = Seq::<char>::empty();
    if parts.len() == 1 {
        assert(parts[k] =~= e + parts[k] + e);
    } else if k == parts.len() - 1 {
        let head = joined(parts.drop_last(), separator) + separator;
        assert(joined(parts, separator) =~= head + parts[k] + e);
    } else {
        let inner = joined(parts.drop_last(), separator);
        joined_holds_each_part(parts.drop_last(), separator, k);
        occurrence_is_kept(parts[k], inner, e, separator + parts.last());
        assert(joined(parts, separator) =~= e + inner + (separator + parts.last()));
    }
}

/// A text is blank exactly when nothing is left of it once it is trimmed.
pub proof fn blank_texts_trim_to_nothing(s: Seq<char>)
    ensures
        blank(s) <==> trimmed(s).len() == 0,
{
    leading_space_is_all_that_goes(s);
    let t = without_leading_space(s);
    trailing_space_is_all_that_goes(t);
    if t.len() > 0 {
        // The first character of `t` is not white space, so it survives.
        if trimmed(s).len() == 0 {
            assert(white_space(t[0]));
        }
    }
}

proof fn leading_space_is_all_that_goes(s: Seq<char>)
    ensures
        without_leading_space(s).len() > 0 ==> !white_space(without_leading_space(s)[0]),
        blank(s) <==> without_leading_space(s).len() == 0,
        s.len() == 0 ==> without_leading_space(s) == s,
    decreases s.len(),
{
    if s.len() > 0 && white_space(s.first()) {
        leading_space_is_all_that_goes(s.drop_first());
        assert(blank(s) <==> blank(s.drop_first())) by {
            if blank(s.drop_first()) {
                assert forall|i: int| 0 <= i < s.len() implies white_space(#[trigger] s[i]) by {
                    if i > 0 {
                        assert(s[i] == s.drop_first()[i - 1]);
                    }
                }
            }
            if blank(s) {
                assert forall|i: int| 0 <= i < s.drop_first().len() implies white_space(
                    #[trigger] s.drop_first()[i],
                ) by {
                    assert(s.drop_first()[i] == s[i + 1]);
                }
            }
        }
    }
}

proof fn trailing_space_is_all_that_goes(s: Seq<char>)
    ensures
        without_trailing_space(s).len() == 0 ==> blank(s),
    decreases s.len(),
{
    if s.len() > 0 && white_space(s.last()) {
        trailing_space_is_all_that_goes(s.drop_last());
        if blank(s.drop_last()) {
            assert forall|i: int| 0 <= i < s.len() implies white_space(#[trigger] s[i]) by {
                if i < s.len() - 1 {
                    assert(s[i] == s.drop_last()[i]);
                }
            }
        }
    }
}

/// Whether a character is white space.
pub fn is_white_space(c: char) -> (r: bool)
    ensures
        r == white_space(c),
{
    let n = c as u32;
    (0x9 <= n && n <= 0xd) || n == 0x20 || n == 0x85 || n == 0xa0 || n == 0x1680 || (0x2000 <= n
        && n <= 0x200a) || n == 0x2028 || n == 0x2029 || n == 0x202f || n == 0x205f || n == 0x3000
}

/// The characters of a text.
pub fn characters(s: &str) -> (r: Vec<char>)
    ensures
        r@ == s@,
{
    let mut out: Vec<char> = Vec::new();
    for c in it: s.chars()
        invariant
            it.seq() == s@,
            out@ == s@.take(it.index()),
    {
        out.push(c);
    }
    assert(s@.take(s@.len() as int) =~= s@);
    out
}

/// Whether a text is blank.
pub fn is_blank(s: &str) -> (r: bool)
    ensures
        r == blank(s@),
{
    let chars = characters(s);
    let mut i: usize = 0;
    while i < chars.len()
        invariant
            i <= chars.len(),
            chars@ == s@,
            forall|j: int| 0 <= j < i ==> white_space(#[trigger] s@[j]),
        decreases chars.len() - i,
    {
        if !is_white_space(chars[i]) {
            return false;
        }
        i = i + 1;
    }
    true
}

/// A text without the white space at its two ends.
pub fn trim(s: &str) -> (r: &str)
    ensures
        r@ == trimmed(s@),
{
    let chars = characters(s);
    let mut from: usize = 0;
    assert(s@.skip(0) =~= s@);
    while from < chars.len() && is_white_space(chars[from])
        invariant
            from <= chars.len(),
            chars@ == s@,
            without_leading_space(s@) == without_leading_space(s@.skip(from as int)),
        decreases chars.len() - from,
    {
        assert(s@.skip(from as int).drop_first() =~= s@.skip(from + 1));
        from = from + 1;
    }
    let ghost rest = s@.skip(from as int);
    assert(without_leading_space(s@) == rest);
    let mut to: usize = chars.len();
    assert(s@.subrange(from as int, to as int) =~= rest);
    while from < to && is_white_space(chars[to - 1])
        invariant
            from <= to <= chars.len(),
            chars@ == s@,
            without_trailing_space(rest) == without_trailing_space(
                s@.subrange(from as int, to as int),
            ),
        decreases to - from,
    {
        assert(s@.subrange(from as int, to as int).drop_last() =~= s@.subrange(
            from as int,
            to - 1,
        ));
        to = to - 1;
    }
    s.substring_char(from, to)
}

/// Whether two texts are equal.
pub fn same_text(a: &str, b: &str) -> (r: bool)
    ensures
        r == (a@ == b@),
{
    let left = characters(a);
    let right = characters(b);
    if left.len() != right.len() {
        return false;
    }
    let mut i: usize = 0;
    while i < left.len()
        invariant
            i <= left.len(),
            left.len() == right.len(),
            left@ == a@,
            right@ == b@,
            a@.take(i as int) == b@.take(i as int),
        decreases left.len() - i,
    {
        if left[i] != right[i] {
            return false;
        }
        assert(a@.take(i + 1) =~= a@.take(i as int).push(left[i as int]));
        assert(b@.take(i + 1) =~= b@.take(i as int).push(right[i as int]));
        i = i + 1;
    }
    assert(a@.take(i as int) =~= a@);
    assert(b@.take(i as int) =~= b@);
    true
}

fn fold_ascii(c: char) -> (r: char)
    ensures
        r == ascii_folded(c),
{
    if 'A' <= c && c <= 'Z' {
        ((c as u8) + 32) as char
    } else {
        c
    }
}

/// Whether two texts are equal once the case of ASCII letters is set aside.
pub fn same_text_ignoring_ascii_case(a: &str, b: &str) -> (r: bool)
    ensures
        r == same_but_for_ascii_case(a@, b@),
{
    let left = characters(a);
    let right = characters(b);
    let ghost x = a@.map_values(|c: char| ascii_folded(c));
    let ghost y = b@.map_values(|c: char| ascii_folded(c));
    if left.len() != right.len() {
        assert(x.len() != y.len());
        return false;
    }
    let mut i: usize = 0;
    while i < left.len()
        invariant
            i <= left.len(),
            left.len() == right.len(),
            left@ == a@,
            right@ == b@,
            x == a@.map_values(|c: char| ascii_folded(c)),
            y == b@.map_values(|c: char| ascii_folded(c)),
            forall|j: int| 0 <= j < i ==> x[j] == y[j],
        decreases left.len() - i,
    {
        if fold_ascii(left[i]) != fold_ascii(right[i]) {
            assert(x[i as int] != y[i as int]);
            return false;
        }
        i = i + 1;
    }
    assert(x =~= y);
    true
}

/// The parts one after another, with the separator between each two of them.
pub fn join(parts: &Vec<String>, separator: &str) -> (r: String)
    ensures
        r@ == joined(texts(parts@), separator@),
{
    let mut out = String::new();
    let mut i: usize = 0;
    assert(texts(parts@).take(0) =~= Seq::empty());
    while i < parts.len()
        invariant
            i <= parts.len(),
            out@ == joined(texts(parts@).take(i as int), separator@),
        decreases parts.len() - i,
    {
        assert(texts(parts@).take(i + 1).drop_last() =~= texts(parts@).take(i as int));
        if i > 0 {
            out.append(separator);
        }
        out.append(parts[i].as_str());
        i = i + 1;
    }
    assert(texts(parts@).take(i as int) =~= texts(parts@));
    out
}

/// A text is blank exactly when both halves of it are, wherever it is cut; the empty text is, and
/// a single character is when it is white space.
pub proof fn blank_texts_hold_white_space_only(a: Seq<char>, b: Seq<char>, c: char)
    ensures
        blank(Seq::empty()),
        blank(a + b) <==> blank(a) && blank(b),
        blank(seq![c]) <==> white_space(c),
{
    if blank(a + b) {
        assert forall|i: int| 0 <= i < a.len() implies white_space(#[trigger] a[i]) by {
            assert((a + b)[i] == a[i]);
        }
        assert forall|i: int| 0 <= i < b.len() implies white_space(#[trigger] b[i]) by {
            assert((a + b)[a.len() + i] == b[i]);
        }
    }
    assert(seq![c][0] == c);
}

proof fn leading_space_is_blank(s: Seq<char>) -> (before: Seq<char>)
    ensures
        blank(before),
        s == before + without_leading_space(s),
    decreases s.len(),
{
    if s.len() > 0 && white_space(s.first()) {
        let rest = leading_space_is_blank(s.drop_first());
        let before = seq![s.first()] + rest;
        blank_texts_hold_white_space_only(seq![s.first()], rest, s.first());
        assert(s =~= seq![s.first()] + s.drop_first());
        assert(s =~= before + without_leading_space(s.drop_first()));
        before
    } else {
        assert(s =~= Seq::empty() + s);
        Seq::empty()
    }
}

proof fn trailing_space_is_blank(s: Seq<char>) -> (after: Seq<char>)
    ensures
        blank(after),
        s == without_trailing_space(s) + after,
        without_trailing_space(s).len() > 0 ==> !white_space(without_trailing_space(s).last()),
    decreases s.len(),
{
    if s.len() > 0 && white_space(s.last()) {
        let rest = trailing_space_is_blank(s.drop_last());
        let after = rest + seq![s.last()];
        blank_texts_hold_white_space_only(rest, seq![s.last()], s.last());
        assert(s =~= s.drop_last() + seq![s.last()]);
        assert(s =~= without_trailing_space(s.drop_last()) + after);
        after
    } else {
        assert(s =~= s + Seq::empty());
        Seq::empty()
    }
}

/// Trimming takes white space off the two ends and nothing else, and leaves none there.
pub proof fn trimming_takes_off_white_space_only(s: Seq<char>)
    ensures
        exists|before: Seq<char>, after: Seq<char>|
            blank(before) && blank(after) && s == #[trigger] (before + trimmed(s) + after),
        trimmed(s).len() > 0 ==> !white_space(trimmed(s).first()) && !white_space(
            trimmed(s).last(),
        ),
{
    let before = leading_space_is_blank(s);
    leading_space_is_all_that_goes(s);
    let rest = without_leading_space(s);
    let after = trailing_space_is_blank(rest);
    assert(s =~= before + trimmed(s) + after);
    if trimmed(s).len() > 0 {
        assert(rest[0] == trimmed(s)[0]);
    }
}

/// Two texts are the same but for ASCII case exactly when they are as long as each other and
/// differ, where they differ, by an ASCII letter and its other case.
pub proof fn ascii_case_is_all_that_may_differ(a: Seq<char>, b: Seq<char>)
    ensures
        same_but_for_ascii_case(a, b) <==> a.len() == b.len() && forall|i: int|
            0 <= i < a.len() ==> {
                ||| #[trigger] a[i] == #[trigger] b[i]
                ||| 'A' <= a[i] <= 'Z' && b[i] as u32 == a[i] as u32 + 32
                ||| 'A' <= b[i] <= 'Z' && a[i] as u32 == b[i] as u32 + 32
            },
{
    let x = a.map_values(|c: char| ascii_folded(c));
    let y = b.map_values(|c: char| ascii_folded(c));
    if same_but_for_ascii_case(a, b) {
        assert(x.len() == y.len());
        assert forall|i: int| 0 <= i < a.len() implies {
            ||| #[trigger] a[i] == #[trigger] b[i]
            ||| 'A' <= a[i] <= 'Z' && b[i] as u32 == a[i] as u32 + 32
            ||| 'A' <= b[i] <= 'Z' && a[i] as u32 == b[i] as u32 + 32
        } by {
            assert(x[i] == y[i]);
        }
    } else if a.len() == b.len() {
        if forall|i: int|
            0 <= i < a.len() ==> {
                ||| #[trigger] a[i] == #[trigger] b[i]
                ||| 'A' <= a[i] <= 'Z' && b[i] as u32 == a[i] as u32 + 32
                ||| 'A' <= b[i] <= 'Z' && a[i] as u32 == b[i] as u32 + 32
            } {
            assert forall|i: int| 0 <= i < a.len() implies x[i] == y[i] by {
                assert(a[i] == a[i] && b[i] == b[i]);
            }
            assert(x =~= y);
        }
    }
}

/// A joined text begins with its first part, and goes on with the separator and the other parts
/// joined, where there are any.
pub proof fn joined_begins_with_its_first_part(
    first: Seq<char>,
    rest: Seq<Seq<char>>,
    separator: Seq<char>,
)
    ensures
        joined(Seq::empty(), separator).len() == 0,
        rest.len() == 0 ==> joined(seq![first] + rest, separator) == first,
        rest.len() > 0 ==> joined(seq![first] + rest, separator) == first + separator + joined(
            rest,
            separator,
        ),
    decreases rest.len(),
{
    let parts = seq![first] + rest;
    if rest.len() > 0 {
        joined_begins_with_its_first_part(first, rest.drop_last(), separator);
        assert(parts.drop_last() =~= seq![first] + rest.drop_last());
        assert(parts.last() == rest.last());
        if rest.len() == 1 {
            assert(rest.drop_last() =~= Seq::empty());
        }
        assert(joined(parts, separator) =~= first + separator + joined(rest, separator));
    }
}

/// The texts of a list of strings: one for each string, in order.
pub proof fn each_string_has_its_text(strings: Seq<String>, i: int)
    requires
        0 <= i < strings.len(),
    ensures
        texts(strings).len() == strings.len(),
        texts(strings)[i] == strings[i]@,
        optional_text(Some(strings[i])) == Some(strings[i]@),
        optional_text(None) is None,
{
}

} // verus!
