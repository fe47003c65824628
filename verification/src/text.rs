//! Characters, strings and byte strings: what the option parser and the
//! printers are built from.
use vstd::prelude::*;
use vstd::std_specs::iter::IteratorSpec;
use vstd::string::*;
use vstd::utf8::{decode_utf8, valid_utf8};

verus! {

/// `std::str::from_utf8`: the text that the bytes encode, where they are
/// well-formed UTF-8, and nothing where they are not.
#[verifier::external_body]
pub(crate) fn from_utf8(bytes: &[u8]) -> (r: Option<&str>)
    ensures
        r is Some == valid_utf8(bytes@),
        r matches Some(s) ==> s@ == decode_utf8(bytes@),
{
    match std::str::from_utf8(bytes) {
        Ok(s) => Some(s),
        Err(_) => None,
    }
}

/// A truth value as it is printed.
pub open spec fn bool_text(b: bool) -> Seq<char> {
    if b {
        "true"@
    } else {
        "false"@
    }
}

/// A truth value as it is printed.
pub fn bool_str(b: bool) -> (s: &'static str)
    ensures
        s@ == bool_text(b),
{
    if b {
        "true"
    } else {
        "false"
    }
}

/// The byte strings in a list of vectors.
pub open spec fn views(list: Seq<Vec<u8>>) -> Seq<Seq<u8>> {
    list.map_values(|bytes: Vec<u8>| bytes@)
}

/// Whether a character is white space, as Unicode's `White_Space` has it.
pub open spec fn is_whitespace(c: char) -> bool {
    let u = c as u32;
    0x09 <= u <= 0x0d || u == 0x20 || u == 0x85 || u == 0xa0 || u == 0x1680 || 0x2000 <= u
        <= 0x200a || u == 0x2028 || u == 0x2029 || u == 0x202f || u == 0x205f || u == 0x3000
}

/// Whether a character is white space.
pub fn whitespace(c: char) -> (b: bool)
    ensures
        b == is_whitespace(c),
{
    let u: u32 = c as u32;
    (0x09 <= u && u <= 0x0d) || u == 0x20 || u == 0x85 || u == 0xa0 || u == 0x1680 || (0x2000 <= u
        && u <= 0x200a) || u == 0x2028 || u == 0x2029 || u == 0x202f || u == 0x205f || u == 0x3000
}

/// The text without the white space at its start.
pub open spec fn trim_start(s: Seq<char>) -> Seq<char>
    decreases s.len(),
{
    if s.len() > 0 && is_whitespace(s[0]) {
        trim_start(s.drop_first())
    } else {
        s
    }
}

/// The text without the white space at its end.
pub open spec fn trim_end(s: Seq<char>) -> Seq<char>
    decreases s.len(),
{
    if s.len() > 0 && is_whitespace(s.last()) {
        trim_end(s.drop_last())
    } else {
        s
    }
}

/// The text without the white space at its two ends.
pub open spec fn trim(s: Seq<char>) -> Seq<char> {
    trim_end(trim_start(s))
}

/// Where `c` stands first in `s`; the length of `s` where it stands
/// nowhere.
pub open spec fn index_of(s: Seq<char>, c: char) -> int
    decreases s.len(),
{
    if s.len() == 0 || s[0] == c {
        0
    } else {
        1 + index_of(s.drop_first(), c)
    }
}

/// The pieces of `s` between the occurrences of `sep`. There is always a
/// first piece; a separator at the end is followed by an empty one.
pub open spec fn split(s: Seq<char>, sep: char) -> Seq<Seq<char>>
    decreases s.len(),
{
    let k = index_of(s, sep);
    if 0 <= k < s.len() {
        seq![s.take(k)] + split(s.skip(k + 1), sep)
    } else {
        seq![s]
    }
}

/// `index_of` gives the first place: nothing before it is `c`, and it is
/// `c` unless it is the end.
pub proof fn lemma_index_of(s: Seq<char>, c: char)
    ensures
        0 <= index_of(s, c) <= s.len(),
        forall|j: int| 0 <= j < index_of(s, c) ==> s[j] != c,
        index_of(s, c) < s.len() ==> s[index_of(s, c)] == c,
    decreases s.len(),
{
    if s.len() > 0 && s[0] != c {
        let rest = s.drop_first();
        lemma_index_of(rest, c);
        assert forall|j: int| 0 <= j < index_of(s, c) implies s[j] != c by {
            if j > 0 {
                assert(s[j] == rest[j - 1]);
            }
        }
    }
}

/// A place with nothing equal to `c` before it, and `c` at it unless it is
/// the end, is the one that `index_of` gives.
pub proof fn lemma_index_of_is(s: Seq<char>, c: char, k: int)
    requires
        0 <= k <= s.len(),
        forall|j: int| 0 <= j < k ==> s[j] != c,
        k < s.len() ==> s[k] == c,
    ensures
        index_of(s, c) == k,
{
    lemma_index_of(s, c);
    let i = index_of(s, c);
    if i < k {
        assert(s[i] == c);
    } else if k < i {
        assert(s[k] != c);
    }
}

/// The characters of a string.
pub fn chars_of(s: &str) -> (chars: Vec<char>)
    ensures
        chars@ == s@,
{
    let mut it = s.chars();
    let mut chars: Vec<char> = Vec::new();
    assert(chars@ + it.remaining() =~= s@);
    loop
        invariant
            chars@ + it.remaining() == s@,
        ensures
            chars@ == s@,
        decreases s@.len() - chars@.len(),
    {
        let ghost before = it.remaining();
        match it.next() {
            Some(c) => {
                chars.push(c);
                assert(chars@ + it.remaining() =~= s@);
            },
            None => {
                assert(chars@ + it.remaining() =~= chars@);
                break ;
            },
        }
    }
    chars
}

/// The first place from `from` on, before `to`, where `c` stands; `to`
/// where it stands nowhere.
pub fn find(chars: &Vec<char>, from: usize, to: usize, c: char) -> (k: usize)
    requires
        from <= to <= chars.len(),
    ensures
        from <= k <= to,
        k - from == index_of(chars@.subrange(from as int, to as int), c),
{
    let mut k: usize = from;
    while k < to && chars[k] != c
        invariant
            from <= k <= to <= chars.len(),
            forall|j: int| from <= j < k ==> chars@[j] != c,
        decreases to - k,
    {
        k += 1;
    }
    proof {
        lemma_index_of_is(chars@.subrange(from as int, to as int), c, k - from);
    }
    k
}

/// The bounds of the text between `from` and `to` without the white space
/// at its two ends.
pub fn trim_range(chars: &Vec<char>, from: usize, to: usize) -> (r: (usize, usize))
    requires
        from <= to <= chars.len(),
    ensures
        from <= r.0 <= r.1 <= to,
        chars@.subrange(r.0 as int, r.1 as int) == trim(chars@.subrange(from as int, to as int)),
{
    let mut a: usize = from;
    while a < to && whitespace(chars[a])
        invariant
            from <= a <= to <= chars.len(),
            trim_start(chars@.subrange(from as int, to as int)) == trim_start(
                chars@.subrange(a as int, to as int),
            ),
        decreases to - a,
    {
        assert(chars@.subrange(a as int, to as int).drop_first() =~= chars@.subrange(
            a + 1,
            to as int,
        ));
        a += 1;
    }
    let mut b: usize = to;
    while b > a && whitespace(chars[b - 1])
        invariant
            a <= b <= to <= chars.len(),
            trim_end(chars@.subrange(a as int, to as int)) == trim_end(
                chars@.subrange(a as int, b as int),
            ),
        decreases b - a,
    {
        assert(chars@.subrange(a as int, b as int).drop_last() =~= chars@.subrange(
            a as int,
            b - 1,
        ));
        b -= 1;
    }
    (a, b)
}

/// The texts between the given bounds.
pub open spec fn slices(chars: Seq<char>, ranges: Seq<(usize, usize)>) -> Seq<Seq<char>> {
    ranges.map_values(|r: (usize, usize)| chars.subrange(r.0 as int, r.1 as int))
}

/// Whether all the bounds lie in the text, each start before its end.
pub open spec fn in_bounds(chars: Seq<char>, ranges: Seq<(usize, usize)>) -> bool {
    forall|i: int| 0 <= i < ranges.len() ==> (#[trigger] ranges[i]).0 <= ranges[i].1 <= chars.len()
}

/// The bounds of the pieces between the occurrences of `sep`, from `from`
/// on and before `to`.
pub fn split_ranges(chars: &Vec<char>, from: usize, to: usize, sep: char) -> (pieces: Vec<
    (usize, usize),
>)
    requires
        from <= to <= chars.len(),
    ensures
        in_bounds(chars@, pieces@),
        slices(chars@, pieces@) == split(chars@.subrange(from as int, to as int), sep),
{
    let mut pieces: Vec<(usize, usize)> = Vec::new();
    let mut start: usize = from;
    assert(slices(chars@, pieces@) + split(chars@.subrange(start as int, to as int), sep) =~= split(
        chars@.subrange(from as int, to as int),
        sep,
    ));
    loop
        invariant_except_break
            slices(chars@, pieces@) + split(chars@.subrange(start as int, to as int), sep) == split(
                chars@.subrange(from as int, to as int),
                sep,
            ),
        invariant
            from <= start <= to <= chars.len(),
            in_bounds(chars@, pieces@),
        ensures
            in_bounds(chars@, pieces@),
            slices(chars@, pieces@) == split(chars@.subrange(from as int, to as int), sep),
        decreases to - start,
    {
        let k = find(chars, start, to, sep);
        let ghost rest = chars@.subrange(start as int, to as int);
        let ghost done = slices(chars@, pieces@);
        pieces.push((start, k));
        assert(slices(chars@, pieces@) =~= done.push(chars@.subrange(start as int, k as int)));
        if k == to {
            assert(split(rest, sep) =~= seq![rest]);
            assert(done.push(rest) =~= done + seq![rest]);
            break ;
        }
        assert(rest.take(k - start) =~= chars@.subrange(start as int, k as int));
        assert(rest.skip(k - start + 1) =~= chars@.subrange(k + 1, to as int));
        let ghost piece = rest.take(k - start);
        let ghost after = split(rest.skip(k - start + 1), sep);
        assert(done + (seq![piece] + after) =~= done.push(piece) + after);
        start = k + 1;
    }
    pieces
}

/// Whether the text between `from` and `to` starts with `name`.
pub fn starts_with(chars: &Vec<char>, from: usize, to: usize, name: &Vec<char>) -> (r: bool)
    requires
        from <= to <= chars.len(),
    ensures
        r == name@.is_prefix_of(chars@.subrange(from as int, to as int)),
{
    if name.len() > to - from {
        return false;
    }
    let mut i: usize = 0;
    while i < name.len()
        invariant
            from <= to <= chars.len(),
            i <= name.len() <= to - from,
            forall|j: int| 0 <= j < i ==> name@[j] == chars@[from + j],
        decreases name.len() - i,
    {
        if name[i] != chars[from + i] {
            assert(chars@.subrange(from as int, to as int)[i as int] != name@[i as int]);
            return false;
        }
        i += 1;
    }
    assert(name@ =~= chars@.subrange(from as int, to as int).subrange(0, name@.len() as int));
    true
}

/// Whether the text between `from` and `to` is `name`.
pub fn equals(chars: &Vec<char>, from: usize, to: usize, name: &Vec<char>) -> (r: bool)
    requires
        from <= to <= chars.len(),
    ensures
        r == (chars@.subrange(from as int, to as int) == name@),
{
    if name.len() != to - from {
        return false;
    }
    let r = starts_with(chars, from, to, name);
    assert(r ==> chars@.subrange(from as int, to as int) =~= name@);
    r
}

} // verus!
