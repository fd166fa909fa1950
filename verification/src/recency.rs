//! Ordering board summaries newest first.
use vstd::prelude::*;
use vstd::seq_lib::{to_multiset_build, to_multiset_insert};
use crate::domain::BoardSummary;

verus! {

/// Holds of the summaries last saved at time `t`.
pub open spec fn saved_at(t: u64) -> spec_fn(BoardSummary) -> bool {
    |b: BoardSummary| b.updated_at == t
}

/// No summary comes before one saved later than it.
pub open spec fn is_newest_first(s: Seq<BoardSummary>) -> bool {
    forall|i: int, j: int| 0 <= i < j < s.len() ==> s[i].updated_at >= s[j].updated_at
}

/// `sorted` holds the summaries of `input` newest first, and summaries saved
/// at the same time keep the order they had in `input`.
pub open spec fn is_recency_order_of(sorted: Seq<BoardSummary>, input: Seq<BoardSummary>) -> bool {
    &&& is_newest_first(sorted)
    &&& forall|t: u64| #[trigger] sorted.filter(saved_at(t)) == input.filter(saved_at(t))
}

/// Inserting `b` where the summaries saved no earlier than it end puts it
/// last among those saved at its own time, and moves no other.
proof fn lemma_insert_by_time(out: Seq<BoardSummary>, p: int, b: BoardSummary, t: u64)
    requires
        0 <= p <= out.len(),
        forall|j: int| 0 <= j < p ==> out[j].updated_at >= b.updated_at,
        forall|j: int| p <= j < out.len() ==> out[j].updated_at < b.updated_at,
    ensures
        out.insert(p, b).filter(saved_at(t)) == (if b.updated_at == t {
            out.filter(saved_at(t)).push(b)
        } else {
            out.filter(saved_at(t))
        }),
{
    broadcast use Seq::filter_distributes_over_add;

    let pred = saved_at(t);
    let front = out.subrange(0, p);
    let back = out.subrange(p, out.len() as int);
    assert(out =~= front + back);
    assert(out.insert(p, b) =~= (front + seq![b]) + back);
    assert(seq![b] =~= Seq::<BoardSummary>::empty().push(b));
    Seq::<BoardSummary>::empty().lemma_filter_push(b, pred);
    assert(Seq::<BoardSummary>::empty().filter(pred) =~= Seq::<BoardSummary>::empty()) by {
        reveal(Seq::filter);
    }
    if b.updated_at == t {
        assert(back.all(|x: BoardSummary| !pred(x)));
        back.lemma_all_neg_filter_empty(pred);
        assert(back.filter(pred) =~= Seq::<BoardSummary>::empty());
        assert(out.filter(pred) =~= front.filter(pred));
        assert(out.insert(p, b).filter(pred) =~= front.filter(pred).push(b));
    } else {
        assert(out.insert(p, b).filter(pred) =~= front.filter(pred) + back.filter(pred));
    }
}

/// The summaries newest first; summaries saved at the same time keep their
/// order.
pub fn sort_newest_first(boards: Vec<BoardSummary>) -> (r: Vec<BoardSummary>)
    ensures
        is_recency_order_of(r@, boards@),
        r@.to_multiset() == boards@.to_multiset(),
{
    let ghost input = boards@;
    let mut out: Vec<BoardSummary> = Vec::new();
    assert(input.take(0) =~= Seq::<BoardSummary>::empty());
    for b in it: boards.into_iter()
        invariant
            it.seq() == input,
            is_newest_first(out@),
            forall|t: u64|
                #[trigger] out@.filter(saved_at(t)) == input.take(it.index() as int).filter(
                    saved_at(t),
                ),
            out@.to_multiset() == input.take(it.index() as int).to_multiset(),
    {
        let ghost before = out@;
        let ghost k = it.index() as int;
        let mut p: usize = 0;
        while p < out.len() && out[p].updated_at >= b.updated_at
            invariant
                out@ == before,
                p <= out.len(),
                forall|j: int| 0 <= j < p ==> out@[j].updated_at >= b.updated_at,
            decreases out.len() - p,
        {
            p = p + 1;
        }
        proof {
            assert forall|j: int| p <= j < before.len() implies before[j].updated_at
                < b.updated_at by {
                assert(before[p as int].updated_at < b.updated_at);
            }
            assert(input.take(k + 1) =~= input.take(k).push(b));
            assert forall|t: u64|
                #[trigger] before.insert(p as int, b).filter(saved_at(t)) == input.take(
                    k + 1,
                ).filter(saved_at(t)) by {
                lemma_insert_by_time(before, p as int, b, t);
                input.take(k).lemma_filter_push(b, saved_at(t));
            }
            to_multiset_insert(before, p as int, b);
            to_multiset_build(input.take(k), b);
        }
        out.insert(p, b);
    }
    assert(input.take(input.len() as int) =~= input);
    out
}

} // verus!
