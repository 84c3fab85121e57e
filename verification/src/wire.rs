//! Text primitives of the line protocol: cutting a line at a delimiter and
//! gluing pieces back together.

use vstd::prelude::*;
use vstd::string::*;

verus! {

/// The position of the first `sep` in `s`, or `s.len()` where there is none.
pub open spec fn first_index(s: Seq<char>, sep: char) -> int
    decreases s.len(),
{
    if s.len() == 0 {
        0
    } else if s[0] == sep {
        0
    } else {
        1 + first_index(s.drop_first(), sep)
    }
}

/// The pieces of `s` between occurrences of `sep`, in order. There is always
/// at least one piece; a leading, trailing or doubled `sep` gives an empty one.
pub open spec fn split(s: Seq<char>, sep: char) -> Seq<Seq<char>>
    decreases s.len(),
{
    let cut = first_index(s, sep);
    if 0 <= cut < s.len() {
        seq![s.subrange(0, cut)] + split(s.subrange(cut + 1, s.len() as int), sep)
    } else {
        seq![s]
    }
}

/// What each string of a list holds, in order.
pub open spec fn texts(items: Seq<String>) -> Seq<Seq<char>> {
    items.map_values(|item: String| item@)
}

/// `first_index` is the one position that holds `sep` with no `sep` before it.
pub proof fn lemma_first_index_is(s: Seq<char>, sep: char, at: int)
    requires
        0 <= at <= s.len(),
        forall|j: int| 0 <= j < at ==> s[j] != sep,
        at < s.len() ==> s[at] == sep,
    ensures
        first_index(s, sep) == at,
    decreases s.len(),
{
    if s.len() > 0 && s[0] != sep {
        let rest = s.drop_first();
        assert forall|j: int| 0 <= j < at - 1 implies rest[j] != sep by {
            assert(rest[j] == s[j + 1]);
        }
        lemma_first_index_is(rest, sep, at - 1);
    }
}

/// `first_index` lies within the text, nothing before it is `sep`, and what
/// stands at it is.
pub proof fn lemma_first_index_bounds(s: Seq<char>, sep: char)
    ensures
        0 <= first_index(s, sep) <= s.len(),
        forall|j: int| 0 <= j < first_index(s, sep) ==> s[j] != sep,
        first_index(s, sep) < s.len() ==> s[first_index(s, sep)] == sep,
    decreases s.len(),
{
    if s.len() > 0 && s[0] != sep {
        let rest = s.drop_first();
        lemma_first_index_bounds(rest, sep);
        assert forall|j: int| 0 <= j < first_index(s, sep) implies s[j] != sep by {
            if j > 0 {
                assert(rest[j - 1] == s[j]);
            }
        }
    }
}

/// The pieces written one after another with `sep` between each two.
pub open spec fn join(pieces: Seq<Seq<char>>, sep: char) -> Seq<char>
    decreases pieces.len(),
{
    if pieces.len() == 0 {
        Seq::empty()
    } else if pieces.len() == 1 {
        pieces[0]
    } else {
        pieces[0] + seq![sep] + join(pieces.drop_first(), sep)
    }
}

/// No piece of a split holds the delimiter.
pub proof fn law_split_pieces_hold_no_delimiter(s: Seq<char>, sep: char)
    ensures
        forall|k: int, j: int|
            0 <= k < split(s, sep).len() && 0 <= j < split(s, sep)[k].len() ==> split(
                s,
                sep,
            )[k][j] != sep,
    decreases s.len(),
{
    lemma_first_index_bounds(s, sep);
    let cut = first_index(s, sep);
    if cut < s.len() {
        let rest = s.subrange(cut + 1, s.len() as int);
        law_split_pieces_hold_no_delimiter(rest, sep);
        assert forall|k: int, j: int|
            0 <= k < split(s, sep).len() && 0 <= j < split(s, sep)[k].len() implies split(
            s,
            sep,
        )[k][j] != sep by {
            if k > 0 {
                assert(split(s, sep)[k] == split(rest, sep)[k - 1]);
            }
        }
    }
}

/// Joining the pieces of a split with the delimiter gives the text back.
pub proof fn law_join_restores_split(s: Seq<char>, sep: char)
    ensures
        join(split(s, sep), sep) == s,
        split(s, sep).len() >= 1,
    decreases s.len(),
{
    lemma_first_index_bounds(s, sep);
    let cut = first_index(s, sep);
    if cut < s.len() {
        let rest = s.subrange(cut + 1, s.len() as int);
        law_join_restores_split(rest, sep);
        let pieces = split(s, sep);
        assert(pieces.drop_first() == split(rest, sep));
        assert(s == s.subrange(0, cut) + seq![sep] + rest);
    }
}

/// The text with every `c` taken out.
pub open spec fn without(s: Seq<char>, c: char) -> Seq<char>
    decreases s.len(),
{
    if s.len() == 0 {
        Seq::empty()
    } else if s[0] == c {
        without(s.drop_first(), c)
    } else {
        seq![s[0]] + without(s.drop_first(), c)
    }
}

/// Taking `c` out of two texts in a row is taking it out of each.
pub proof fn lemma_without_concat(a: Seq<char>, b: Seq<char>, c: char)
    ensures
        without(a + b, c) == without(a, c) + without(b, c),
    decreases a.len(),
{
    if a.len() == 0 {
        assert(a + b == b);
    } else {
        assert((a + b).drop_first() == a.drop_first() + b);
        lemma_without_concat(a.drop_first(), b, c);
    }
}

/// Taking `c` out of a text that holds none leaves the text.
pub proof fn lemma_without_absent(s: Seq<char>, c: char)
    requires
        forall|j: int| 0 <= j < s.len() ==> s[j] != c,
    ensures
        without(s, c) == s,
    decreases s.len(),
{
    if s.len() > 0 {
        let rest = s.drop_first();
        assert forall|j: int| 0 <= j < rest.len() implies rest[j] != c by {
            assert(rest[j] == s[j + 1]);
        }
        lemma_without_absent(rest, c);
        assert(s == seq![s[0]] + rest);
    }
}

/// The pieces of a split, written one after another with nothing between
/// them, are the text without the delimiter.
pub proof fn law_split_flattened_drops_delimiter(s: Seq<char>, sep: char)
    ensures
        split(s, sep).flatten() == without(s, sep),
    decreases s.len(),
{
    lemma_first_index_bounds(s, sep);
    let cut = first_index(s, sep);
    if cut < s.len() {
        let head = s.subrange(0, cut);
        let rest = s.subrange(cut + 1, s.len() as int);
        law_split_flattened_drops_delimiter(rest, sep);
        let pieces = split(s, sep);
        assert(pieces.drop_first() == split(rest, sep));
        assert(pieces.flatten() == head + split(rest, sep).flatten());
        assert(s == head + (seq![sep] + rest));
        lemma_without_concat(head, seq![sep] + rest, sep);
        lemma_without_concat(seq![sep], rest, sep);
        lemma_without_absent(head, sep);
        assert(without(seq![sep], sep) == Seq::<char>::empty()) by {
            assert(seq![sep].drop_first() == Seq::<char>::empty());
            assert(without(Seq::<char>::empty(), sep) == Seq::<char>::empty());
            assert(without(seq![sep], sep) == without(seq![sep].drop_first(), sep));
        }
    } else {
        lemma_without_absent(s, sep);
        seq![s].lemma_flatten_one_element();
    }
}

/// Cuts `s` at every `sep`.
pub fn split_text(s: &str, sep: char) -> (parts: Vec<String>)
    ensures
        texts(parts@) == split(s@, sep),
        parts@.len() >= 1,
{
    let n = s.unicode_len();
    let mut parts: Vec<String> = Vec::new();
    let mut start: usize = 0;
    let mut i: usize = 0;
    proof {
        assert(s@.subrange(0, n as int) == s@);
        assert(texts(parts@) + split(s@, sep) == split(s@, sep));
    }
    while i < n
        invariant
            start <= i <= n,
            n == s@.len(),
            forall|j: int| start <= j < i ==> s@[j] != sep,
            split(s@, sep) == texts(parts@) + split(s@.subrange(start as int, n as int), sep),
        decreases n - i,
    {
        if s.get_char(i) == sep {
            let piece = String::from_str(s.substring_char(start, i));
            proof {
                let rest = s@.subrange(start as int, n as int);
                lemma_first_index_is(rest, sep, i - start);
                assert(rest.subrange(0, i - start) == s@.subrange(start as int, i as int));
                assert(rest.subrange(i - start + 1, rest.len() as int) == s@.subrange(
                    i + 1,
                    n as int,
                ));
                assert(texts(parts@.push(piece)) == texts(parts@).push(piece@));
            }
            parts.push(piece);
            start = i + 1;
        }
        i += 1;
    }
    let piece = String::from_str(s.substring_char(start, n));
    proof {
        let rest = s@.subrange(start as int, n as int);
        lemma_first_index_is(rest, sep, n - start);
        assert(texts(parts@.push(piece)) == texts(parts@).push(piece@));
    }
    parts.push(piece);
    parts
}

/// The first `count` strings of `items`, written one after another with
/// nothing between them.
pub fn concat_texts(items: &Vec<String>, count: usize) -> (joined: String)
    requires
        count <= items@.len(),
    ensures
        joined@ == texts(items@).take(count as int).flatten(),
{
    let mut joined = String::new();
    let mut i: usize = 0;
    assert(texts(items@).take(0) == Seq::<Seq<char>>::empty());
    while i < count
        invariant
            i <= count <= items@.len(),
            joined@ == texts(items@).take(i as int).flatten(),
        decreases count - i,
    {
        proof {
            let all = texts(items@);
            assert(all.take(i + 1) == all.take(i as int).push(items@[i as int]@));
            all.take(i as int).lemma_flatten_push(items@[i as int]@);
        }
        joined.append(items[i].as_str());
        i += 1;
    }
    joined
}

/// Whether two strings hold the same text.
pub fn same_text(a: &str, b: &str) -> (same: bool)
    ensures
        same == (a@ == b@),
{
    let n = a.unicode_len();
    if b.unicode_len() != n {
        return false;
    }
    let mut i: usize = 0;
    while i < n
        invariant
            i <= n,
            n == a@.len(),
            n == b@.len(),
            forall|j: int| 0 <= j < i ==> a@[j] == b@[j],
        decreases n - i,
    {
        if a.get_char(i) != b.get_char(i) {
            return false;
        }
        i += 1;
    }
    assert(a@ =~= b@);
    true
}

} // verus!
