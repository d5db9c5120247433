//! Dropping elements from a list in place, and what is left.

use vstd::prelude::*;

verus! {

/// Where a walk through a list stands that drops in place what `keep`
/// refuses. The list was `orig` at the start and is `cur` now; `done`
/// elements of `orig` have been looked at. The first `i` elements of `cur`
/// are those of them that `keep` accepts, and the rest of `cur` is the
/// rest of `orig`.
pub open spec fn retaining<A>(
    orig: Seq<A>,
    cur: Seq<A>,
    i: int,
    done: int,
    keep: spec_fn(A) -> bool,
) -> bool {
    &&& 0 <= done <= orig.len()
    &&& 0 <= i <= cur.len()
    &&& cur.len() - i == orig.len() - done
    &&& cur.take(i) == orig.take(done).filter(keep)
    &&& cur.skip(i) == orig.skip(done)
}

/// The walk starts with nothing looked at.
pub proof fn lemma_retaining_start<A>(orig: Seq<A>, keep: spec_fn(A) -> bool)
    ensures
        retaining(orig, orig, 0, 0, keep),
{
    reveal(Seq::filter);
    assert(orig.take(0).filter(keep) =~= Seq::<A>::empty());
    assert(orig.take(0) =~= Seq::<A>::empty());
    assert(orig.skip(0) =~= orig);
}

/// One step of the walk: an element that `keep` accepts is stepped over,
/// one that it refuses is taken out.
pub proof fn lemma_retaining_step<A>(
    orig: Seq<A>,
    cur: Seq<A>,
    i: int,
    done: int,
    keep: spec_fn(A) -> bool,
)
    requires
        retaining(orig, cur, i, done, keep),
        i < cur.len(),
    ensures
        cur[i] == orig[done],
        keep(cur[i]) ==> retaining(orig, cur, i + 1, done + 1, keep),
        !keep(cur[i]) ==> retaining(orig, cur.remove(i), i, done + 1, keep),
{
    reveal(Seq::filter);
    assert(cur[i] == cur.skip(i)[0]);
    assert(orig[done] == orig.skip(done)[0]);
    assert(orig.take(done + 1).drop_last() =~= orig.take(done));
    assert(orig.take(done + 1).last() == orig[done]);
    assert(orig.skip(done + 1) =~= orig.skip(done).skip(1));
    if keep(cur[i]) {
        assert(cur.take(i + 1) =~= cur.take(i).push(cur[i]));
        assert(cur.skip(i + 1) =~= cur.skip(i).skip(1));
    } else {
        assert(cur.remove(i).take(i) =~= cur.take(i));
        assert(cur.remove(i).skip(i) =~= cur.skip(i).skip(1));
    }
}

/// At the end of the walk the list holds what `keep` accepts of the list
/// at the start, in its order.
pub proof fn lemma_retaining_end<A>(
    orig: Seq<A>,
    cur: Seq<A>,
    i: int,
    done: int,
    keep: spec_fn(A) -> bool,
)
    requires
        retaining(orig, cur, i, done, keep),
        i == cur.len(),
    ensures
        cur == orig.filter(keep),
{
    assert(cur.take(i) =~= cur);
    assert(orig.take(done) =~= orig);
}

} // verus!
