//! The few operations on text that topics need.

use vstd::prelude::*;

verus! {

/// The lower case of an ASCII letter; any other character as it is.
pub open spec fn lower(c: char) -> char {
    if 'A' <= c <= 'Z' {
        (c as u32 + 32) as char
    } else {
        c
    }
}

pub open spec fn lowered(s: Seq<char>) -> Seq<char> {
    Seq::new(s.len(), |i: int| lower(s[i]))
}

/// The pieces between separators: each separator ends one piece and begins the next.
pub open spec fn split(s: Seq<char>, sep: char) -> Seq<Seq<char>>
    decreases s.len(),
{
    if s.len() == 0 {
        seq![Seq::empty()]
    } else {
        let before = split(s.drop_last(), sep);
        if s.last() == sep {
            before.push(Seq::empty())
        } else {
            before.update(before.len() - 1, before.last().push(s.last()))
        }
    }
}

/// Pieces with a separator between each and the next.
pub open spec fn joined(pieces: Seq<Seq<char>>, sep: char) -> Seq<char>
    decreases pieces.len(),
{
    if pieces.len() == 0 {
        Seq::empty()
    } else if pieces.len() == 1 {
        pieces[0]
    } else {
        joined(pieces.drop_last(), sep).push(sep) + pieces.last()
    }
}

pub open spec fn starts_with_text(s: Seq<char>, prefix: Seq<char>) -> bool {
    prefix.len() <= s.len() && s.take(prefix.len() as int) == prefix
}

fn to_lower(c: char) -> (r: char)
    ensures
        r == lower(c),
{
    if 'A' <= c && c <= 'Z' {
        (c as u8 + 32) as char
    } else {
        c
    }
}

pub(crate) fn same_text(a: &str, b: &str) -> (r: bool)
    ensures
        r == (a@ == b@),
{
    a.to_string() == b.to_string()
}

pub(crate) fn starts_with(s: &str, prefix: &str) -> (r: bool)
    ensures
        r == starts_with_text(s@, prefix@),
{
    let n = prefix.unicode_len();
    n <= s.unicode_len() && same_text(s.substring_char(0, n), prefix)
}

/// The pieces of `s` between separators.
pub(crate) fn split_text(s: &str, sep: char) -> (pieces: Vec<Vec<char>>)
    ensures
        pieces@.map_values(|piece: Vec<char>| piece@) == split(s@, sep),
        pieces@.len() == split(s@, sep).len(),
        forall|i: int| 0 <= i < pieces@.len() ==> #[trigger] pieces@[i]@ == split(s@, sep)[i],
{
    let mut done: Vec<Vec<char>> = Vec::new();
    let mut piece: Vec<char> = Vec::new();
    let n = s.unicode_len();
    let mut i: usize = 0;
    assert(done@.map_values(|piece: Vec<char>| piece@).push(piece@) =~= split(s@.take(0), sep));
    while i < n
        invariant
            i <= n == s@.len(),
            done@.map_values(|piece: Vec<char>| piece@).push(piece@) == split(
                s@.take(i as int),
                sep,
            ),
        decreases n - i,
    {
        let c = s.get_char(i);
        let ghost before = done@.map_values(|piece: Vec<char>| piece@);
        let ghost here = piece@;
        assert(s@.take(i + 1).drop_last() =~= s@.take(i as int));
        if c == sep {
            done.push(piece);
            piece = Vec::new();
            assert(done@.map_values(|piece: Vec<char>| piece@) =~= before.push(here));
        } else {
            piece.push(c);
            assert(before.push(here).update(before.len() as int, here.push(c)) =~= before.push(
                piece@,
            ));
        }
        i = i + 1;
    }
    assert(s@.take(n as int) =~= s@);
    let ghost before = done@.map_values(|piece: Vec<char>| piece@);
    let ghost here = piece@;
    done.push(piece);
    assert(done@.map_values(|piece: Vec<char>| piece@) =~= before.push(here));
    assert forall|i: int| 0 <= i < done@.len() implies #[trigger] done@[i]@ == split(
        s@,
        sep,
    )[i] by {
        assert(done@.map_values(|piece: Vec<char>| piece@)[i] == done@[i]@);
    }
    done
}

/// Whether a piece is `name`, which is in lower case, up to the case of its letters.
pub(crate) fn lower_is(piece: &Vec<char>, name: &str) -> (r: bool)
    ensures
        r == (lowered(piece@) == name@),
{
    if piece.len() != name.unicode_len() {
        return false;
    }
    let mut i: usize = 0;
    while i < piece.len()
        invariant
            i <= piece@.len() == name@.len(),
            forall|j: int| 0 <= j < i ==> lower(piece@[j]) == name@[j],
        decreases piece@.len() - i,
    {
        if to_lower(piece[i]) != name.get_char(i) {
            assert(lowered(piece@)[i as int] != name@[i as int]);
            return false;
        }
        i = i + 1;
    }
    assert(lowered(piece@) =~= name@);
    true
}

/// Splitting loses nothing: the pieces hold no separator, and joined with separators they are the
/// text again.
pub proof fn law_split_joins(s: Seq<char>, sep: char)
    ensures
        split(s, sep).len() > 0,
        joined(split(s, sep), sep) == s,
        forall|i: int|
            0 <= i < split(s, sep).len() ==> !(#[trigger] split(s, sep)[i]).contains(sep),
    decreases s.len(),
{
    let pieces = split(s, sep);
    if s.len() > 0 {
        let c = s.last();
        let before = split(s.drop_last(), sep);
        law_split_joins(s.drop_last(), sep);
        assert(s =~= s.drop_last().push(c));
        if c == sep {
            assert(pieces.drop_last() =~= before);
            assert(joined(pieces, sep) =~= s.drop_last().push(c) + Seq::<char>::empty());
        } else {
            let end = before.last();
            assert(pieces.drop_last() =~= before.drop_last());
            if before.len() == 1 {
                assert(joined(before, sep) == end);
                assert(joined(pieces, sep) =~= end.push(c));
            } else {
                let head = joined(before.drop_last(), sep).push(sep);
                assert(joined(before, sep) == head + end);
                assert(joined(pieces, sep) == head + end.push(c));
                assert(head + end.push(c) =~= (head + end).push(c));
            }
            assert forall|i: int| 0 <= i < pieces.len() implies !(#[trigger] pieces[i]).contains(
                sep,
            ) by {
                assert(!before[i].contains(sep));
                if i == before.len() - 1 && pieces[i].contains(sep) {
                    let j = choose|j: int| 0 <= j < pieces[i].len() && pieces[i][j] == sep;
                    assert(end[j] == sep);
                }
            }
        }
    }
}

/// A text without separators is one piece.
pub proof fn law_split_plain(s: Seq<char>, sep: char)
    requires
        !s.contains(sep),
    ensures
        split(s, sep) == seq![s],
    decreases s.len(),
{
    if s.len() > 0 {
        let before = s.drop_last();
        if before.contains(sep) {
            let i = choose|i: int| 0 <= i < before.len() && before[i] == sep;
            assert(s[i] == sep);
        }
        assert(s[s.len() - 1] != sep);
        law_split_plain(before, sep);
        assert(before.push(s.last()) =~= s);
        assert(split(s, sep) =~= seq![s]);
    } else {
        assert(s =~= Seq::empty());
    }
}

/// A separator between two texts keeps their pieces apart.
pub proof fn law_split_at_separator(a: Seq<char>, b: Seq<char>, sep: char)
    ensures
        split(a.push(sep) + b, sep) == split(a, sep) + split(b, sep),
    decreases b.len(),
{
    let whole = a.push(sep) + b;
    if b.len() == 0 {
        assert(whole =~= a.push(sep));
        assert(whole.drop_last() =~= a);
        assert(split(whole, sep) =~= split(a, sep) + split(b, sep));
    } else {
        law_split_at_separator(a, b.drop_last(), sep);
        law_split_joins(b.drop_last(), sep);
        assert(whole.drop_last() =~= a.push(sep) + b.drop_last());
        assert(whole.last() == b.last());
        assert(split(whole, sep) =~= split(a, sep) + split(b, sep));
    }
}

/// Joining loses nothing either: pieces that hold no separator come back from the joined text.
pub proof fn law_join_splits(pieces: Seq<Seq<char>>, sep: char)
    requires
        pieces.len() > 0,
        forall|i: int| 0 <= i < pieces.len() ==> !(#[trigger] pieces[i]).contains(sep),
    ensures
        split(joined(pieces, sep), sep) == pieces,
    decreases pieces.len(),
{
    assert(!pieces.last().contains(sep));
    law_split_plain(pieces.last(), sep);
    if pieces.len() == 1 {
        assert(pieces =~= seq![pieces[0]]);
    } else {
        let before = pieces.drop_last();
        assert forall|i: int| 0 <= i < before.len() implies !(#[trigger] before[i]).contains(
            sep,
        ) by {
            assert(before[i] == pieces[i]);
        }
        law_join_splits(before, sep);
        law_split_at_separator(joined(before, sep), pieces.last(), sep);
        assert(before + seq![pieces.last()] =~= pieces);
    }
}

/// Lower case moves the capital letters of ASCII to the small ones and leaves all else alone.
pub proof fn law_lower_case(c: char)
    ensures
        'A' <= c <= 'Z' ==> 'a' <= lower(c) <= 'z' && lower(c) as int - 'a' as int == c as int
            - 'A' as int,
        !('A' <= c <= 'Z') ==> lower(c) == c,
        lower(lower(c)) == lower(c),
{
}

} // verus!
