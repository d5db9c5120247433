//! Views of optional values and of lists.

use vstd::prelude::*;

verus! {

/// The view of an optional value.
pub open spec fn opt_view<T: View>(o: Option<T>) -> Option<T::V> {
    match o {
        Some(t) => Some(t@),
        None => None,
    }
}

/// The view of each element of a sequence, in order.
pub open spec fn each_view<T: View>(s: Seq<T>) -> Seq<T::V> {
    s.map_values(|t: T| t@)
}

/// Whether every clone of a `T` has the view of what it was cloned from.
pub open spec fn clone_keeps_view<T: Clone + View>() -> bool {
    forall|a: T, b: T| #[trigger] cloned(a, b) ==> b@ == a@
}

/// A copy of a list, element by element.
pub fn copy_each<T: Clone + View>(v: &Vec<T>) -> (r: Vec<T>)
    requires
        clone_keeps_view::<T>(),
    ensures
        each_view(r@) == each_view(v@),
{
    let mut r: Vec<T> = Vec::new();
    let mut i: usize = 0;
    while i < v.len()
        invariant
            i <= v.len(),
            clone_keeps_view::<T>(),
            each_view(r@) == each_view(v@).take(i as int),
        decreases v.len() - i,
    {
        let ghost before = r@;
        let copy = v[i].clone();
        r.push(copy);
        proof {
            assert(cloned(v@[i as int], copy));
            assert(each_view(r@) =~= each_view(before).push(copy@));
            assert(each_view(r@) =~= each_view(v@).take(i + 1));
        }
        i += 1;
    }
    proof {
        assert(each_view(v@).take(i as int) =~= each_view(v@));
    }
    r
}

} // verus!
