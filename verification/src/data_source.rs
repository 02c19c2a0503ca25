//! Support for physical column-batch providers. A provider reads the source
//! behind a scan and applies a projection given as column names; turning
//! those names into column indices against the declared schema is the part
//! of that work that belongs to the plan model, and it is done here. The
//! reading itself is an input/output concern and lives with the caller.

use vstd::prelude::*;

use crate::schema::{FieldV, Schema};

verus! {

/// Whether `name` is one of `names`.
pub open spec fn name_among(names: Seq<Seq<char>>, name: Seq<char>) -> bool {
    exists|j: int| 0 <= j < names.len() && names[j] == name
}

/// The positions of the schema's fields whose names occur in `names`, in
/// increasing order.
pub open spec fn projected_indices(s: Seq<FieldV>, names: Seq<Seq<char>>) -> Seq<int>
    decreases s.len(),
{
    if s.len() == 0 {
        Seq::empty()
    } else {
        let pre = projected_indices(s.drop_last(), names);
        if name_among(names, s.last().name) {
            pre.push(s.len() - 1)
        } else {
            pre
        }
    }
}

/// Whether `name` is one of `names`.
fn name_among_exec(names: &Vec<String>, name: &String) -> (r: bool)
    ensures
        r == name_among(names.deep_view(), name@),
{
    let n = names.len();
    let mut i: usize = 0;
    while i < n
        invariant
            n == names@.len(),
            i <= n,
            forall|j: int| 0 <= j < i ==> names.deep_view()[j] != name@,
        decreases n - i,
    {
        if names[i] == *name {
            proof {
                assert(names.deep_view()[i as int] == names@[i as int]@);
            }
            return true;
        }
        proof {
            assert(names.deep_view()[i as int] == names@[i as int]@);
        }
        i = i + 1;
    }
    false
}

/// Turns a projection given as column names into the positions of the named
/// columns in the schema, in increasing order. A name that matches no column
/// selects nothing; a column whose name occurs in the projection is selected
/// once, whatever the order of the names.
pub fn projection_indices(schema: &Schema, projection: &Vec<String>) -> (r: Vec<usize>)
    ensures
        ({
            let idx = projected_indices(schema@, projection.deep_view());
            r@.len() == idx.len() && forall|k: int| 0 <= k < idx.len() ==> r@[k] == idx[k]
        }),
{
    let ghost s = schema@;
    let ghost names = projection.deep_view();
    let mut out: Vec<usize> = Vec::new();
    let n = schema.len();
    let mut i: usize = 0;
    while i < n
        invariant
            n == s.len(),
            s == schema@,
            names == projection.deep_view(),
            i <= n,
            out@.len() == projected_indices(s.take(i as int), names).len(),
            forall|k: int|
                0 <= k < out@.len() ==> out@[k] == projected_indices(s.take(i as int), names)[k],
        decreases n - i,
    {
        proof {
            assert(s.take(i + 1).drop_last() =~= s.take(i as int));
            assert(s.take(i + 1).last() == s[i as int]);
        }
        if name_among_exec(projection, &schema.field_at(i).name) {
            out.push(i);
        }
        i = i + 1;
    }
    proof {
        assert(s.take(n as int) =~= s);
    }
    out
}

} // verus!
