//! The order in which validators are tried, drawn at random for each call.

use vstd::prelude::*;
use rand::seq::SliceRandom;

verus! {

/// The indices `0, 1, .., count - 1` in rising order.
pub open spec fn rising(count: nat) -> Seq<usize> {
    Seq::new(count, |i: int| i as usize)
}

/// Whether `order` holds each index below `count` exactly once.
pub open spec fn is_order_of(order: Seq<usize>, count: nat) -> bool {
    order.to_multiset() == rising(count).to_multiset()
}

/// Calls `shuffle` of rand's `SliceRandom` on the vector, with the generator
/// that `rand::thread_rng` gives. The call only swaps elements in place, so
/// whatever the generator draws, the vector holds afterwards the elements it
/// held before, each as often. In which order, nothing says. (The generator
/// of a thread is seeded from the operating system when the thread first
/// asks for it, and seeded anew from time to time as it is drawn from; rand
/// panics at either place if the system has no entropy to give.)
#[verifier::external_body]
fn shuffle_indices(order: &mut Vec<usize>)
    ensures
        final(order)@.to_multiset() == old(order)@.to_multiset(),
{
    order.shuffle(&mut rand::thread_rng());
}

/// An order that holds each index below `count` once holds no other index,
/// and is `count` long.
pub proof fn order_stays_in_range(order: Seq<usize>, count: nat)
    requires
        is_order_of(order, count),
    ensures
        order.len() == count,
        forall|i: int| 0 <= i < order.len() ==> (#[trigger] order[i]) < count,
{
    order.to_multiset_ensures();
    rising(count).to_multiset_ensures();
    assert forall|i: int| 0 <= i < order.len() implies (#[trigger] order[i]) < count by {
        assert(order.contains(order[i]));
        assert(order.to_multiset().count(order[i]) > 0);
        assert(rising(count).to_multiset().count(order[i]) > 0);
        assert(rising(count).contains(order[i]));
    }
}

/// Whether `order` has no index twice, no index from `count` on, and every
/// index below `count`.
pub open spec fn covers_once(order: Seq<usize>, count: nat) -> bool {
    &&& order.no_duplicates()
    &&& forall|i: int| 0 <= i < order.len() ==> (#[trigger] order[i]) < count
    &&& forall|v: usize| v < count ==> #[trigger] order.contains(v)
}

/// An order holds each index below `count` exactly once if and only if it
/// has none twice, none from `count` on, and each below `count`.
pub proof fn order_means_covers_once(order: Seq<usize>, count: nat)
    requires
        count <= usize::MAX,
    ensures
        is_order_of(order, count) <==> covers_once(order, count),
{
    let rising = rising(count);
    order.to_multiset_ensures();
    rising.to_multiset_ensures();
    assert(rising.no_duplicates());
    rising.lemma_multiset_has_no_duplicates();
    assert forall|v: usize| v < count implies #[trigger] rising.contains(v) by {
        assert(rising[v as int] == v);
    }
    if is_order_of(order, count) {
        order_stays_in_range(order, count);
        order.lemma_multiset_has_no_duplicates_conv();
        assert forall|v: usize| v < count implies #[trigger] order.contains(v) by {
            assert(rising.contains(v));
            assert(rising.to_multiset().count(v) > 0);
            assert(order.to_multiset().count(v) > 0);
        }
    }
    if covers_once(order, count) {
        order.lemma_multiset_has_no_duplicates();
        assert forall|v: usize| order.to_multiset().count(v) == rising.to_multiset().count(
            v,
        ) by {
            if v < count {
                assert(order.contains(v));
                assert(rising.contains(v));
                assert(order.to_multiset().contains(v));
                assert(rising.to_multiset().contains(v));
            } else {
                assert(!order.contains(v));
                assert(!rising.contains(v));
            }
        }
        assert(order.to_multiset() =~= rising.to_multiset());
    }
}

/// The validators of one call, by index, in the order in which they are
/// tried, and how many of them were tried already.
#[derive(Debug)]
pub struct ValidatorTrial {
    pub order: Vec<usize>,
    pub count: usize,
    /// The number of validators handed out so far.
    pub position: usize,
}

impl ValidatorTrial {
    /// The order holds the index of each of the `count` validators exactly
    /// once.
    pub open spec fn wf(self) -> bool {
        &&& self.position <= self.order@.len()
        &&& self.order@.len() == self.count
        &&& is_order_of(self.order@, self.count as nat)
        &&& forall|i: int| 0 <= i < self.order@.len() ==> (#[trigger] self.order@[i]) < self.count
    }

    /// Whether every validator of the order was handed out.
    pub open spec fn exhausted(self) -> bool {
        self.position >= self.order@.len()
    }

    /// A fresh random order of `count` validators: each of them occurs in it
    /// exactly once.
    pub fn shuffled(count: usize) -> (trial: Self)
        ensures
            trial.wf(),
            trial.count == count,
            trial.position == 0,
            is_order_of(trial.order@, count as nat),
            trial.order@.len() == count,
    {
        let mut order: Vec<usize> = Vec::new();
        let mut next: usize = 0;
        while next < count
            invariant
                next <= count,
                order@ == rising(next as nat),
            decreases count - next,
        {
            order.push(next);
            next = next + 1;
            assert(order@ =~= rising(next as nat));
        }
        shuffle_indices(&mut order);
        proof {
            order_stays_in_range(order@, count as nat);
        }
        ValidatorTrial { order, count, position: 0 }
    }

    /// The validators in the order given, if it holds the index of each of
    /// the `count` validators exactly once.
    pub fn in_order(order: Vec<usize>, count: usize) -> (trial: Option<Self>)
        ensures
            trial is Some <==> is_order_of(order@, count as nat),
            trial is Some ==> trial->0.wf() && trial->0.order == order && trial->0.count == count
                && trial->0.position == 0,
    {
        if order.len() != count {
            proof {
                if is_order_of(order@, count as nat) {
                    order_stays_in_range(order@, count as nat);
                }
            }
            return None;
        }
        let mut seen: Vec<bool> = vec![false; count];
        let mut checked: usize = 0;
        while checked < order.len()
            invariant
                checked <= order@.len(),
                seen@.len() == count,
                forall|i: int| 0 <= i < checked ==> (#[trigger] order@[i]) < count,
                forall|i: int| 0 <= i < checked ==> seen@[(#[trigger] order@[i]) as int],
                forall|v: int|
                    0 <= v < count && #[trigger] seen@[v] ==> exists|i: int|
                        0 <= i < checked && order@[i] == v,
                forall|i: int, j: int|
                    0 <= i < j < checked ==> order@[i] != order@[j],
            decreases order@.len() - checked,
        {
            let index = order[checked];
            if index >= count {
                proof {
                    if is_order_of(order@, count as nat) {
                        order_stays_in_range(order@, count as nat);
                    }
                }
                return None;
            }
            if seen[index] {
                proof {
                    let earlier = choose|i: int| 0 <= i < checked && order@[i] == index;
                    assert(order@[earlier] == order@[checked as int]);
                    order_means_covers_once(order@, count as nat);
                }
                return None;
            }
            seen.set(index, true);
            checked = checked + 1;
        }
        let mut index: usize = 0;
        while index < count
            invariant
                index <= count,
                seen@.len() == count,
                checked == order@.len(),
                forall|i: int| 0 <= i < checked ==> (#[trigger] order@[i]) < count,
                forall|i: int| 0 <= i < checked ==> seen@[(#[trigger] order@[i]) as int],
                forall|v: int|
                    0 <= v < count && #[trigger] seen@[v] ==> exists|i: int|
                        0 <= i < checked && order@[i] == v,
                forall|v: usize| v < index ==> #[trigger] order@.contains(v),
            decreases count - index,
        {
            if !seen[index] {
                proof {
                    assert(!order@.contains(index));
                    order_means_covers_once(order@, count as nat);
                }
                return None;
            }
            proof {
                let at = choose|i: int| 0 <= i < checked && order@[i] == index;
                assert(order@[at] == index);
            }
            index = index + 1;
        }
        proof {
            order_means_covers_once(order@, count as nat);
        }
        Some(ValidatorTrial { order, count, position: 0 })
    }

    /// Hands out the next validator of the order, if one is left.
    pub fn next(&mut self) -> (validator: Option<usize>)
        requires
            old(self).wf(),
        ensures
            final(self).wf(),
            final(self).order == old(self).order,
            final(self).count == old(self).count,
            old(self).exhausted() ==> validator is None && final(self).position == old(
                self,
            ).position,
            !old(self).exhausted() ==> validator == Some(old(self).order@[old(self).position as int])
                && final(self).position == old(self).position + 1 && validator->0 < old(self).count,
    {
        if self.position < self.order.len() {
            let validator = self.order[self.position];
            self.position = self.position + 1;
            Some(validator)
        } else {
            None
        }
    }
}

} // verus!
