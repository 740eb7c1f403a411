use crate::model::Greeting;
use vstd::prelude::*;
use vstd::multiset::group_multiset_axioms;
use vstd::seq_lib::{group_to_multiset_ensures, to_multiset_build, to_multiset_insert};

verus! {

/// The ids of `rows` never decrease from one row to a later one.
pub open spec fn ascending_ids(rows: Seq<Greeting>) -> bool {
    forall|i: int, j: int| 0 <= i < j < rows.len() ==> #[trigger] rows[i].id <= #[trigger] rows[j].id
}

/// The first position of the ascending `sorted` whose id is above `id`.
fn insertion_point(sorted: &Vec<Greeting>, id: i32) -> (p: usize)
    requires
        ascending_ids(sorted@),
    ensures
        p <= sorted@.len(),
        forall|i: int| 0 <= i < p ==> #[trigger] sorted@[i].id <= id,
        forall|i: int| p <= i < sorted@.len() ==> #[trigger] sorted@[i].id > id,
{
    let mut p: usize = 0;
    while p < sorted.len() && sorted[p].id <= id
        invariant
            p <= sorted@.len(),
            ascending_ids(sorted@),
            forall|i: int| 0 <= i < p ==> #[trigger] sorted@[i].id <= id,
        decreases sorted@.len() - p,
    {
        p = p + 1;
    }
    p
}

/// The same rows, arranged by ascending id.
pub fn order_by_id(rows: Vec<Greeting>) -> (r: Vec<Greeting>)
    ensures
        ascending_ids(r@),
        r@.to_multiset() == rows@.to_multiset(),
        r@.len() == rows@.len(),
{
    broadcast use group_to_multiset_ensures, group_multiset_axioms;

    let ghost all = rows@;
    let mut rest = rows;
    let mut sorted: Vec<Greeting> = Vec::new();
    while rest.len() > 0
        invariant
            ascending_ids(sorted@),
            sorted@.to_multiset().add(rest@.to_multiset()) == all.to_multiset(),
            sorted@.len() + rest@.len() == all.len(),
        decreases rest@.len(),
    {
        let ghost before = rest@;
        let g = match rest.pop() {
            Some(g) => g,
            None => {
                return sorted;
            },
        };
        assert(before =~= rest@.push(g));
        let p = insertion_point(&sorted, g.id);
        let ghost prev = sorted@;
        sorted.insert(p, g);
        proof {
            to_multiset_insert(prev, p as int, g);
            to_multiset_build(rest@, g);
        }
        assert(sorted@.to_multiset().add(rest@.to_multiset()) =~= prev.to_multiset().add(
            before.to_multiset(),
        ));
        assert(ascending_ids(sorted@)) by {
            assert forall|i: int, j: int| 0 <= i < j < sorted@.len() implies #[trigger] sorted@[i].id
                <= #[trigger] sorted@[j].id by {
                if i < p && j == p {
                } else if i == p && j > p {
                    assert(sorted@[j] == prev[j - 1]);
                } else if i < p {
                    assert(sorted@[i] == prev[i]);
                } else {
                    assert(sorted@[i] == prev[i - 1]);
                }
            }
        }
    }
    sorted
}

} // verus!
