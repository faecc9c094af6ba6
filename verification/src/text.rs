//! Scanning, splitting and trimming text, character by character.

use vstd::prelude::*;

verus! {

/// Whether `c` has the Unicode `White_Space` property.
pub open spec fn is_white_space(c: char) -> bool {
    let code = c as u32;
    ||| 0x9 <= code <= 0xd
    ||| code == 0x20
    ||| code == 0x85
    ||| code == 0xa0
    ||| code == 0x1680
    ||| 0x2000 <= code <= 0x200a
    ||| code == 0x2028
    ||| code == 0x2029
    ||| code == 0x202f
    ||| code == 0x205f
    ||| code == 0x3000
}

/// `char::is_whitespace` of std tells whether a character has the Unicode `White_Space` property.
pub assume_specification[ char::is_whitespace ](c: char) -> (r: bool)
    ensures
        r == is_white_space(c),
;

/// The index of the first `c` in `s`, or the length of `s` if there is none.
pub open spec fn position(s: Seq<char>, c: char) -> int
    decreases s.len(),
{
    if s.len() == 0 || s[0] == c {
        0
    } else {
        1 + position(s.drop_first(), c)
    }
}

/// `s` without the run of `c` that it starts with.
pub open spec fn without_leading(s: Seq<char>, c: char) -> Seq<char>
    decreases s.len(),
{
    if s.len() > 0 && s[0] == c {
        without_leading(s.drop_first(), c)
    } else {
        s
    }
}

/// The stretches of `s` between one `sep` and the next, empty ones included.
pub open spec fn split_on(s: Seq<char>, sep: char) -> Seq<Seq<char>>
    decreases s.len(),
{
    proof {
        lemma_position(s, sep);
    }
    let i = position(s, sep);
    if i < s.len() {
        seq![s.take(i)] + split_on(s.skip(i + 1), sep)
    } else {
        seq![s]
    }
}

/// The pieces one after the other, with `sep` between each and the next.
pub open spec fn join(pieces: Seq<Seq<char>>, sep: char) -> Seq<char>
    decreases pieces.len(),
{
    if pieces.len() == 0 {
        Seq::empty()
    } else if pieces.len() == 1 {
        pieces[0]
    } else {
        pieces[0].push(sep) + join(pieces.drop_first(), sep)
    }
}

/// Whether `s` holds white space alone, or nothing.
pub open spec fn is_blank(s: Seq<char>) -> bool {
    forall|i: int| 0 <= i < s.len() ==> is_white_space(#[trigger] s[i])
}

/// `s` without the white space that it starts with.
pub open spec fn trim_front(s: Seq<char>) -> Seq<char>
    decreases s.len(),
{
    if s.len() > 0 && is_white_space(s[0]) {
        trim_front(s.drop_first())
    } else {
        s
    }
}

/// `s` without the white space that it ends with.
pub open spec fn trim_back(s: Seq<char>) -> Seq<char>
    decreases s.len(),
{
    if s.len() > 0 && is_white_space(s.last()) {
        trim_back(s.drop_last())
    } else {
        s
    }
}

/// `s` without the white space at its two ends.
pub open spec fn trimmed(s: Seq<char>) -> Seq<char> {
    trim_back(trim_front(s))
}

/// The first occurrence of a character is the position before which it does not occur.
pub proof fn lemma_position(s: Seq<char>, c: char)
    ensures
        0 <= position(s, c) <= s.len(),
        forall|j: int| 0 <= j < position(s, c) ==> s[j] != c,
        position(s, c) < s.len() ==> s[position(s, c)] == c,
    decreases s.len(),
{
    if s.len() > 0 && s[0] != c {
        let rest = s.drop_first();
        lemma_position(rest, c);
        assert forall|j: int| 0 <= j < position(s, c) implies s[j] != c by {
            if j > 0 {
                assert(s[j] == rest[j - 1]);
            }
        }
    }
}

/// A position with the character at it and none of them before it is the first occurrence.
pub proof fn lemma_position_is(s: Seq<char>, c: char, i: int)
    requires
        0 <= i <= s.len(),
        forall|j: int| 0 <= j < i ==> s[j] != c,
        i < s.len() ==> s[i] == c,
    ensures
        position(s, c) == i,
{
    lemma_position(s, c);
}

/// Splitting loses nothing: joining the pieces again gives the text that was split.
pub proof fn law_join_undoes_split(s: Seq<char>, sep: char)
    ensures
        join(split_on(s, sep), sep) == s,
        split_on(s, sep).len() >= 1,
    decreases s.len(),
{
    lemma_position(s, sep);
    let i = position(s, sep);
    if i < s.len() {
        let rest = s.skip(i + 1);
        law_join_undoes_split(rest, sep);
        let pieces = split_on(s, sep);
        assert(pieces.drop_first() =~= split_on(rest, sep));
        assert(pieces[0] == s.take(i));
        assert(s.take(i).push(sep) + rest =~= s);
    }
}

/// Joining pieces that do not hold the separator and splitting the result gives the pieces back.
pub proof fn lemma_split_of_join(pieces: Seq<Seq<char>>, sep: char)
    requires
        pieces.len() >= 1,
        forall|k: int| 0 <= k < pieces.len() ==> !(#[trigger] pieces[k]).contains(sep),
    ensures
        split_on(join(pieces, sep), sep) == pieces,
    decreases pieces.len(),
{
    let whole = join(pieces, sep);
    let first = pieces[0];
    assert forall|j: int| 0 <= j < first.len() implies first[j] != sep by {
        assert(first.contains(first[j]));
    }
    if pieces.len() == 1 {
        lemma_position_is(whole, sep, first.len() as int);
        assert(seq![first] =~= pieces);
    } else {
        let rest = pieces.drop_first();
        assert forall|k: int| 0 <= k < rest.len() implies !(#[trigger] rest[k]).contains(sep) by {
            assert(rest[k] == pieces[k + 1]);
        }
        lemma_split_of_join(rest, sep);
        lemma_position_is(whole, sep, first.len() as int);
        assert(whole.take(first.len() as int) =~= first);
        assert(whole.skip(first.len() as int + 1) =~= join(rest, sep));
        assert(seq![first] + rest =~= pieces);
    }
}

/// The characters of `text`.
pub(crate) fn chars_of(text: &str) -> (r: Vec<char>)
    ensures
        r@ == text@,
{
    let mut chars: Vec<char> = Vec::new();
    for c in it: text.chars()
        invariant
            it.seq() == text@,
            chars@ == it.seq().take(it.index()),
    {
        chars.push(c);
    }
    chars
}

/// Where the first `c` of `chars[from..to]` is, or `to` if there is none.
pub(crate) fn find_char(chars: &Vec<char>, from: usize, to: usize, c: char) -> (r: usize)
    requires
        from <= to <= chars@.len(),
    ensures
        r == from + position(chars@.subrange(from as int, to as int), c),
        from <= r <= to,
{
    let mut i: usize = from;
    let ghost whole = chars@.subrange(from as int, to as int);
    while i < to && chars[i] != c
        invariant
            from <= i <= to <= chars@.len(),
            whole == chars@.subrange(from as int, to as int),
            position(whole, c) == i - from + position(chars@.subrange(i as int, to as int), c),
        decreases to - i,
    {
        proof {
            assert(chars@.subrange(i as int, to as int).drop_first() =~= chars@.subrange(
                i + 1,
                to as int,
            ));
        }
        i += 1;
    }
    i
}

/// Where `chars` continues after the run of `c` that it starts with.
pub(crate) fn skip_leading(chars: &Vec<char>, c: char) -> (r: usize)
    ensures
        r <= chars@.len(),
        chars@.skip(r as int) == without_leading(chars@, c),
{
    let mut i: usize = 0;
    assert(chars@.skip(0) =~= chars@);
    while i < chars.len() && chars[i] == c
        invariant
            i <= chars@.len(),
            without_leading(chars@, c) == without_leading(chars@.skip(i as int), c),
        decreases chars@.len() - i,
    {
        assert(chars@.skip(i as int).drop_first() =~= chars@.skip(i + 1));
        i += 1;
    }
    i
}

/// Whether `chars[from..to]` holds white space alone, or nothing.
pub(crate) fn blank(chars: &Vec<char>, from: usize, to: usize) -> (r: bool)
    requires
        from <= to <= chars@.len(),
    ensures
        r == is_blank(chars@.subrange(from as int, to as int)),
{
    let ghost piece = chars@.subrange(from as int, to as int);
    let mut i: usize = from;
    while i < to
        invariant
            from <= i <= to <= chars@.len(),
            piece == chars@.subrange(from as int, to as int),
            forall|j: int| 0 <= j < i - from ==> is_white_space(#[trigger] piece[j]),
        decreases to - i,
    {
        assert(piece[i - from] == chars@[i as int]);
        if !chars[i].is_whitespace() {
            return false;
        }
        i += 1;
    }
    true
}

/// Where `chars[from..to]` starts and ends once the white space at its two ends is left out.
pub(crate) fn trim(chars: &Vec<char>, from: usize, to: usize) -> (r: (usize, usize))
    requires
        from <= to <= chars@.len(),
    ensures
        from <= r.0 <= r.1 <= to,
        chars@.subrange(r.0 as int, r.1 as int) == trimmed(
            chars@.subrange(from as int, to as int),
        ),
{
    let ghost piece = chars@.subrange(from as int, to as int);
    let mut start: usize = from;
    while start < to && chars[start].is_whitespace()
        invariant
            from <= start <= to <= chars@.len(),
            piece == chars@.subrange(from as int, to as int),
            trim_front(piece) == trim_front(chars@.subrange(start as int, to as int)),
        decreases to - start,
    {
        assert(chars@.subrange(start as int, to as int).drop_first() =~= chars@.subrange(
            start + 1,
            to as int,
        ));
        start += 1;
    }
    let ghost front = chars@.subrange(start as int, to as int);
    let mut end: usize = to;
    while start < end && chars[end - 1].is_whitespace()
        invariant
            from <= start <= end <= to <= chars@.len(),
            front == chars@.subrange(start as int, to as int),
            trim_back(front) == trim_back(chars@.subrange(start as int, end as int)),
        decreases end - start,
    {
        assert(chars@.subrange(start as int, end as int).drop_last() =~= chars@.subrange(
            start as int,
            end - 1,
        ));
        end -= 1;
    }
    (start, end)
}

} // verus!
