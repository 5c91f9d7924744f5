//! Splitting text at a separator character.

use vstd::prelude::*;

verus! {

/// The pieces of `text` between occurrences of `sep`, in order.
///
/// Text without `sep` is one piece, the empty text too; `n` occurrences give
/// `n + 1` pieces, some of which may be empty.
pub open spec fn split(text: Seq<char>, sep: char) -> Seq<Seq<char>>
    decreases text.len(),
{
    if text.len() == 0 {
        seq![Seq::<char>::empty()]
    } else {
        let before = split(text.drop_last(), sep);
        if text.last() == sep {
            before.push(Seq::<char>::empty())
        } else {
            before.drop_last().push(before.last().push(text.last()))
        }
    }
}

/// A stretch `chars[start..end]` of a vector of characters.
#[derive(Clone, Copy, Debug)]
pub struct Span {
    pub start: usize,
    pub end: usize,
}

impl Span {
    /// The stretch lies inside `chars[from..to]`.
    pub open spec fn within(self, from: int, to: int) -> bool {
        from <= self.start <= self.end <= to
    }

    /// The characters of the stretch.
    pub open spec fn of(self, chars: Seq<char>) -> Seq<char> {
        chars.subrange(self.start as int, self.end as int)
    }
}

/// The texts that `spans` cut out of `chars`.
pub open spec fn texts_of(spans: Seq<Span>, chars: Seq<char>) -> Seq<Seq<char>> {
    Seq::new(spans.len(), |k: int| spans[k].of(chars))
}

/// Splits `chars[from..to]` at `sep` and returns where each piece lies.
pub fn split_spans(chars: &Vec<char>, from: usize, to: usize, sep: char) -> (spans: Vec<Span>)
    requires
        from <= to <= chars@.len(),
    ensures
        texts_of(spans@, chars@) == split(chars@.subrange(from as int, to as int), sep),
        forall|k: int|
            0 <= k < spans@.len() ==> (#[trigger] spans@[k]).within(from as int, to as int),
{
    let mut done: Vec<Span> = Vec::new();
    let mut start: usize = from;
    let mut i: usize = from;
    proof {
        assert(chars@.subrange(from as int, from as int) =~= Seq::<char>::empty());
        assert(texts_of(done@, chars@).push(chars@.subrange(start as int, i as int)) =~= seq![
            Seq::<char>::empty(),
        ]);
    }
    while i < to
        invariant
            from <= start <= i <= to <= chars@.len(),
            forall|k: int|
                0 <= k < done@.len() ==> (#[trigger] done@[k]).within(from as int, to as int),
            texts_of(done@, chars@).push(chars@.subrange(start as int, i as int)) == split(
                chars@.subrange(from as int, i as int),
                sep,
            ),
        decreases to - i,
    {
        let ghost text = chars@.subrange(from as int, i + 1);
        let ghost old_done = done@;
        let ghost old_start = start;
        proof {
            assert(text.drop_last() =~= chars@.subrange(from as int, i as int));
            assert(text.last() == chars@[i as int]);
        }
        if chars[i] == sep {
            done.push(Span { start, end: i });
            start = i + 1;
            proof {
                assert(chars@.subrange(start as int, i + 1) =~= Seq::<char>::empty());
                assert(texts_of(done@, chars@) =~= texts_of(old_done, chars@).push(
                    chars@.subrange(old_start as int, i as int),
                ));
            }
        } else {
            proof {
                let prev = texts_of(done@, chars@).push(chars@.subrange(start as int, i as int));
                assert(prev.drop_last() =~= texts_of(done@, chars@));
                assert(prev.last().push(chars@[i as int]) =~= chars@.subrange(
                    start as int,
                    i + 1,
                ));
            }
        }
        i += 1;
    }
    done.push(Span { start, end: to });
    proof {
        assert(texts_of(done@, chars@) =~= split(chars@.subrange(from as int, to as int), sep));
    }
    done
}

/// `pieces` put together again, with `sep` between each two neighbours.
pub open spec fn join(pieces: Seq<Seq<char>>, sep: char) -> Seq<char>
    decreases pieces.len(),
{
    if pieces.len() == 0 {
        Seq::<char>::empty()
    } else if pieces.len() == 1 {
        pieces[0]
    } else {
        join(pieces.drop_last(), sep).push(sep) + pieces.last()
    }
}

/// Splitting always gives at least one piece.
pub proof fn lemma_split_nonempty(text: Seq<char>, sep: char)
    ensures
        split(text, sep).len() >= 1,
    decreases text.len(),
{
    if text.len() > 0 {
        lemma_split_nonempty(text.drop_last(), sep);
    }
}

/// No piece holds the separator.
pub proof fn lemma_split_pieces_lack_separator(text: Seq<char>, sep: char)
    ensures
        forall|k: int, i: int|
            0 <= k < split(text, sep).len() && 0 <= i < split(text, sep)[k].len() ==> (
            #[trigger] split(text, sep)[k][i]) != sep,
    decreases text.len(),
{
    if text.len() > 0 {
        lemma_split_pieces_lack_separator(text.drop_last(), sep);
        lemma_split_nonempty(text.drop_last(), sep);
    }
}

/// Splitting loses nothing: the pieces, joined by the separator, are the
/// text.
pub proof fn lemma_split_join(text: Seq<char>, sep: char)
    ensures
        join(split(text, sep), sep) == text,
    decreases text.len(),
{
    if text.len() == 0 {
        assert(join(split(text, sep), sep) =~= text);
    } else {
        let before = split(text.drop_last(), sep);
        lemma_split_join(text.drop_last(), sep);
        lemma_split_nonempty(text.drop_last(), sep);
        if text.last() == sep {
            let pieces = before.push(Seq::<char>::empty());
            assert(pieces.drop_last() =~= before);
            assert(join(pieces, sep) =~= text);
        } else {
            let grown = before.last().push(text.last());
            let pieces = before.drop_last().push(grown);
            assert(pieces.drop_last() =~= before.drop_last());
            if before.len() == 1 {
                assert(join(pieces, sep) =~= text);
            } else {
                assert(join(pieces, sep) =~= join(before, sep).push(text.last()));
                assert(join(pieces, sep) =~= text);
            }
        }
    }
}

} // verus!
