//! Character-level helpers on strings: equality, the first space, trimming and joining.

use vstd::prelude::*;

verus! {

/// Whitespace as Unicode's White_Space property lists it.
pub open spec fn is_blank(c: char) -> bool {
    let u = c as u32;
    (0x09 <= u && u <= 0x0D) || u == 0x20 || u == 0x85 || u == 0xA0 || u == 0x1680 || (0x2000
        <= u && u <= 0x200A) || u == 0x2028 || u == 0x2029 || u == 0x202F || u == 0x205F || u
        == 0x3000
}

/// The index of the first space in `s`, or `s.len()` where there is none.
pub open spec fn space_index(s: Seq<char>) -> int
    decreases s.len(),
{
    if s.len() == 0 || s[0] == ' ' {
        0
    } else {
        1 + space_index(s.drop_first())
    }
}

/// `s` without its leading blanks.
pub open spec fn trim_start(s: Seq<char>) -> Seq<char>
    decreases s.len(),
{
    if s.len() > 0 && is_blank(s[0]) {
        trim_start(s.drop_first())
    } else {
        s
    }
}

/// `s` without its trailing blanks.
pub open spec fn trim_end(s: Seq<char>) -> Seq<char>
    decreases s.len(),
{
    if s.len() > 0 && is_blank(s.last()) {
        trim_end(s.drop_last())
    } else {
        s
    }
}

/// `s` without blanks at either end.
pub open spec fn trim(s: Seq<char>) -> Seq<char> {
    trim_end(trim_start(s))
}

/// The parts in order, with `sep` between each two neighbours.
pub open spec fn join(parts: Seq<Seq<char>>, sep: Seq<char>) -> Seq<char>
    decreases parts.len(),
{
    if parts.len() == 0 {
        Seq::empty()
    } else if parts.len() == 1 {
        parts[0]
    } else {
        join(parts.drop_last(), sep) + sep + parts.last()
    }
}

/// The character sequences of a sequence of strings.
pub open spec fn views(v: Seq<String>) -> Seq<Seq<char>> {
    v.map_values(|s: String| s@)
}

/// A word without spaces, followed by text that starts with a space: the first
/// space is the one right after the word.
pub proof fn lemma_space_index_after_word(word: Seq<char>, rest: Seq<char>)
    requires
        forall|j: int| 0 <= j < word.len() ==> word[j] != ' ',
        rest.len() > 0,
        rest[0] == ' ',
    ensures
        space_index(word + rest) == word.len(),
    decreases word.len(),
{
    if word.len() == 0 {
        assert(word + rest =~= rest);
    } else {
        assert((word + rest).drop_first() =~= word.drop_first() + rest);
        lemma_space_index_after_word(word.drop_first(), rest);
    }
}

/// Whether two strings hold the same characters.
pub fn str_eq(a: &str, b: &str) -> (r: bool)
    ensures
        r == (a@ == b@),
{
    let n = a.unicode_len();
    if n != b.unicode_len() {
        return false;
    }
    let mut i: usize = 0;
    while i < n
        invariant
            n == a@.len(),
            n == b@.len(),
            i <= n,
            forall|j: int| 0 <= j < i ==> a@[j] == b@[j],
        decreases n - i,
    {
        if a.get_char(i) != b.get_char(i) {
            return false;
        }
        i = i + 1;
    }
    assert(a@ =~= b@);
    true
}

/// The index of the first space in `s`, or its length where there is none.
pub fn first_space(s: &str) -> (r: usize)
    ensures
        r as int == space_index(s@),
        r <= s@.len(),
{
    let n = s.unicode_len();
    let mut i: usize = 0;
    assert(s@.subrange(0, n as int) =~= s@);
    while i < n
        invariant
            n == s@.len(),
            i <= n,
            space_index(s@) == i + space_index(s@.subrange(i as int, n as int)),
        decreases n - i,
    {
        if s.get_char(i) == ' ' {
            return i;
        }
        assert(s@.subrange(i as int, n as int).drop_first() =~= s@.subrange(i + 1, n as int));
        i = i + 1;
    }
    i
}

/// `s` without blanks at either end.
pub fn trim_blanks(s: &str) -> (r: &str)
    ensures
        r@ == trim(s@),
{
    let n = s.unicode_len();
    let mut a: usize = 0;
    assert(s@.subrange(0, n as int) =~= s@);
    while a < n && is_blank_char(s.get_char(a))
        invariant
            n == s@.len(),
            a <= n,
            trim_start(s@) == trim_start(s@.subrange(a as int, n as int)),
        decreases n - a,
    {
        assert(s@.subrange(a as int, n as int).drop_first() =~= s@.subrange(a + 1, n as int));
        a = a + 1;
    }
    let u = s.substring_char(a, n);
    assert(trim_start(s@) == u@);
    let mut b: usize = n - a;
    assert(u@.subrange(0, b as int) =~= u@);
    while b > 0 && is_blank_char(u.get_char(b - 1))
        invariant
            u@.len() == n - a,
            b <= u@.len(),
            trim_end(u@) == trim_end(u@.subrange(0, b as int)),
        decreases b,
    {
        assert(u@.subrange(0, b as int).drop_last() =~= u@.subrange(0, b - 1));
        b = b - 1;
    }
    let r = u.substring_char(0, b);
    r
}

/// Whether `c` is a blank.
pub fn is_blank_char(c: char) -> (r: bool)
    ensures
        r == is_blank(c),
{
    let u = c as u32;
    (0x09 <= u && u <= 0x0D) || u == 0x20 || u == 0x85 || u == 0xA0 || u == 0x1680 || (0x2000
        <= u && u <= 0x200A) || u == 0x2028 || u == 0x2029 || u == 0x202F || u == 0x205F || u
        == 0x3000
}

/// The strings in order, with `sep` between each two neighbours.
pub fn join_strings(parts: &Vec<String>, sep: &str) -> (r: String)
    ensures
        r@ == join(views(parts@), sep@),
{
    let n = parts.len();
    if n == 0 {
        return String::new();
    }
    let mut acc = parts[0].clone();
    assert(views(parts@).subrange(0, 1) =~= seq![parts@[0]@]);
    let mut i: usize = 1;
    while i < n
        invariant
            n == parts@.len(),
            1 <= i <= n,
            acc@ == join(views(parts@).subrange(0, i as int), sep@),
        decreases n - i,
    {
        acc.append(sep);
        acc.append(parts[i].as_str());
        assert(views(parts@).subrange(0, i + 1).drop_last() =~= views(parts@).subrange(0, i as int));
        i = i + 1;
    }
    assert(views(parts@).subrange(0, n as int) =~= views(parts@));
    acc
}

} // verus!
