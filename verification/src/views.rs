//! Small lemmas about element-wise views of vectors.

use vstd::prelude::*;

verus! {

/// Pushing onto a vector pushes the element's view onto the vector's view.
pub proof fn lemma_deep_view_push<T: DeepView>(pre: Vec<T>, post: Vec<T>, x: T)
    requires
        post@ == pre@.push(x),
    ensures
        post.deep_view() == pre.deep_view().push(x.deep_view()),
{
    assert forall|j: int| 0 <= j < post@.len() implies post.deep_view()[j] == pre.deep_view().push(
        x.deep_view(),
    )[j] by {
        if j < pre@.len() {
            assert(post@[j] == pre@[j]);
        } else {
            assert(post@[j] == x);
        }
    }
    assert(post.deep_view() =~= pre.deep_view().push(x.deep_view()));
}

/// Concatenating vectors concatenates their views.
pub proof fn lemma_deep_view_concat<T: DeepView>(a: Vec<T>, b: Vec<T>, c: Vec<T>)
    requires
        c@ == a@ + b@,
    ensures
        c.deep_view() == a.deep_view() + b.deep_view(),
{
    assert forall|j: int| 0 <= j < c@.len() implies c.deep_view()[j] == (a.deep_view()
        + b.deep_view())[j] by {
        if j < a@.len() {
            assert(c@[j] == a@[j]);
        } else {
            assert(c@[j] == b@[j - a@.len()]);
        }
    }
    assert(c.deep_view() =~= a.deep_view() + b.deep_view());
}

} // verus!
