use vstd::prelude::*;

verus! {

/// The pieces of `s` between occurrences of `sep`, in order; the text before the
/// first separator, between two separators, and after the last one each make a
/// piece, so `n` separators give `n + 1` pieces (an empty text gives one empty piece).
pub open spec fn split_spec(s: Seq<char>, sep: char) -> Seq<Seq<char>>
    decreases s.len(),
{
    if s.len() == 0 {
        seq![Seq::<char>::empty()]
    } else {
        let pieces = split_spec(s.drop_last(), sep);
        if s.last() == sep {
            pieces.push(Seq::<char>::empty())
        } else {
            pieces.update(pieces.len() - 1, pieces.last().push(s.last()))
        }
    }
}

pub proof fn lemma_split_nonempty(s: Seq<char>, sep: char)
    ensures
        split_spec(s, sep).len() >= 1,
    decreases s.len(),
{
    if s.len() > 0 {
        lemma_split_nonempty(s.drop_last(), sep);
    }
}

/// The pieces joined back together, with `sep` between two neighbours.
pub open spec fn join_spec(pieces: Seq<Seq<char>>, sep: char) -> Seq<char>
    decreases pieces.len(),
{
    if pieces.len() == 0 {
        Seq::<char>::empty()
    } else if pieces.len() == 1 {
        pieces[0]
    } else {
        join_spec(pieces.drop_last(), sep).push(sep) + pieces.last()
    }
}

proof fn lemma_join_extend_last(pieces: Seq<Seq<char>>, sep: char, c: char)
    requires
        pieces.len() >= 1,
    ensures
        join_spec(pieces.update(pieces.len() - 1, pieces.last().push(c)), sep)
            == join_spec(pieces, sep).push(c),
{
    let q = pieces.update(pieces.len() - 1, pieces.last().push(c));
    if pieces.len() > 1 {
        assert(q.drop_last() =~= pieces.drop_last());
        assert(join_spec(pieces, sep).push(c) =~= join_spec(pieces.drop_last(), sep).push(sep)
            + pieces.last().push(c));
    }
}

/// Splitting loses nothing: joining the pieces with the separator gives back the
/// text, and no piece holds the separator.
pub proof fn lemma_split_join(s: Seq<char>, sep: char)
    ensures
        join_spec(split_spec(s, sep), sep) == s,
        forall|i: int|
            0 <= i < split_spec(s, sep).len() ==> !(#[trigger] split_spec(s, sep)[i]).contains(sep),
    decreases s.len(),
{
    if s.len() == 0 {
        assert(split_spec(s, sep)[0] =~= Seq::<char>::empty());
        assert(s =~= Seq::<char>::empty());
    } else {
        let prefix = s.drop_last();
        let pieces = split_spec(prefix, sep);
        lemma_split_join(prefix, sep);
        lemma_split_nonempty(prefix, sep);
        if s.last() == sep {
            let q = pieces.push(Seq::<char>::empty());
            assert(q.drop_last() =~= pieces);
            assert(s =~= prefix.push(sep) + Seq::<char>::empty());
            assert forall|i: int| 0 <= i < q.len() implies !(#[trigger] q[i]).contains(sep) by {
                if i < pieces.len() {
                    assert(q[i] == pieces[i]);
                }
            }
        } else {
            lemma_join_extend_last(pieces, sep, s.last());
            assert(s =~= prefix.push(s.last()));
            let q = pieces.update(pieces.len() - 1, pieces.last().push(s.last()));
            assert forall|i: int| 0 <= i < q.len() implies !(#[trigger] q[i]).contains(sep) by {
                if i < pieces.len() - 1 {
                    assert(q[i] == pieces[i]);
                } else {
                    let p = pieces.last();
                    assert(!p.contains(sep));
                    if q[i].contains(sep) {
                        let k: int = choose|k: int| 0 <= k < q[i].len() && q[i][k] == sep;
                        if k < p.len() {
                            assert(p[k] == sep);
                        }
                    }
                }
            }
        }
    }
}

#[verifier::external_body]
fn string_from_chars(chars: &Vec<char>) -> (res: String)
    ensures
        res@ == chars@,
{
    String::from_iter(chars.iter())
}

pub fn split_by(s: &str, sep: char) -> (res: Vec<String>)
    ensures
        res@.len() == split_spec(s@, sep).len(),
        forall|i: int| 0 <= i < res@.len() ==> #[trigger] res@[i]@ == split_spec(s@, sep)[i],
{
    let mut pieces: Vec<String> = Vec::new();
    let mut cur: Vec<char> = Vec::new();
    let ghost mut seen: Seq<char> = Seq::empty();
    for c in it: s.chars()
        invariant
            it.seq() == s@,
            seen == s@.take(it.index() as int),
            split_spec(seen, sep).len() == pieces@.len() + 1,
            forall|i: int| 0 <= i < pieces@.len() ==> #[trigger] pieces@[i]@ == split_spec(seen, sep)[i],
            cur@ == split_spec(seen, sep).last(),
    {
        proof {
            lemma_split_nonempty(seen, sep);
            assert(s@.take(it.index() + 1).drop_last() =~= seen);
            seen = s@.take(it.index() + 1);
        }
        if c == sep {
            let piece = string_from_chars(&cur);
            pieces.push(piece);
            cur = Vec::new();
        } else {
            cur.push(c);
        }
    }
    proof { assert(seen =~= s@); lemma_split_nonempty(seen, sep); }
    let piece = string_from_chars(&cur);
    pieces.push(piece);
    pieces
}

} // verus!
