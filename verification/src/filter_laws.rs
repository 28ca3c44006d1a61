//! What picking items from a sequence by a test gives.

use vstd::prelude::*;

verus! {

/// Whether exactly one item passes a test: that at `k`.
pub open spec fn only_at<A>(items: Seq<A>, test: spec_fn(A) -> bool, k: int) -> bool {
    &&& 0 <= k < items.len()
    &&& test(items[k])
    &&& forall|j: int| 0 <= j < items.len() && j != k ==> !test(#[trigger] items[j])
}

/// Nothing is picked exactly if no item passes the test.
pub proof fn nothing_is_picked<A>(items: Seq<A>, test: spec_fn(A) -> bool)
    ensures
        items.filter(test).len() == 0 <==> forall|j: int|
            0 <= j < items.len() ==> !test(#[trigger] items[j]),
    decreases items.len(),
{
    reveal(Seq::filter);
    if items.len() > 0 {
        let front = items.drop_last();
        nothing_is_picked(front, test);
        if forall|j: int| 0 <= j < items.len() ==> !test(#[trigger] items[j]) {
            assert forall|j: int| 0 <= j < front.len() implies !test(#[trigger] front[j]) by {
                assert(!test(items[j]));
            }
            assert(!test(items[items.len() - 1]));
        }
        if items.filter(test).len() == 0 {
            assert forall|j: int| 0 <= j < items.len() implies !test(#[trigger] items[j]) by {
                if j < front.len() {
                    assert(!test(front[j]));
                }
            }
        }
    }
}

/// The only item that passes the test is all that is picked.
pub proof fn only_item_is_picked<A>(items: Seq<A>, test: spec_fn(A) -> bool, k: int)
    requires
        only_at(items, test, k),
    ensures
        items.filter(test) == seq![items[k]],
    decreases items.len(),
{
    reveal(Seq::filter);
    let front = items.drop_last();
    if k == items.len() - 1 {
        assert forall|j: int| 0 <= j < front.len() implies !test(#[trigger] front[j]) by {
            assert(!test(items[j]));
        }
        nothing_is_picked(front, test);
        assert(front.filter(test) =~= Seq::<A>::empty());
        assert(items.filter(test) =~= seq![items[k]]);
    } else {
        assert forall|j: int| 0 <= j < front.len() && j != k implies !test(#[trigger] front[j]) by {
            assert(!test(items[j]));
        }
        only_item_is_picked(front, test, k);
        assert(!test(items[items.len() - 1]));
    }
}

/// Where one item is picked, it is the only one that passes the test.
pub proof fn picked_item_is_the_only_one<A>(items: Seq<A>, test: spec_fn(A) -> bool) -> (k: int)
    requires
        items.filter(test).len() == 1,
    ensures
        only_at(items, test, k),
        items.filter(test)[0] == items[k],
    decreases items.len(),
{
    reveal(Seq::filter);
    let front = items.drop_last();
    if test(items.last()) {
        nothing_is_picked(front, test);
        let k = items.len() - 1;
        assert forall|j: int| 0 <= j < items.len() && j != k implies !test(#[trigger] items[j]) by {
            assert(!test(front[j]));
        }
        k
    } else {
        let k = picked_item_is_the_only_one(front, test);
        assert forall|j: int| 0 <= j < items.len() && j != k implies !test(#[trigger] items[j]) by {
            if j < front.len() {
                assert(!test(front[j]));
            }
        }
        k
    }
}

} // verus!
