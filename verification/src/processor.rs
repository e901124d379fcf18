//! The passes of the pipeline and the order they run in.

use crate::errors::Error;
use vstd::prelude::*;
use vstd::string::*;

verus! {

/// A pass as the pipeline sees it: its name and the names of the passes that
/// have to be done before it starts.
#[derive(Debug, Clone, PartialEq, Eq)]
pub struct ProcessingStep {
    pub name: String,
    pub dependencies: Vec<String>,
}

impl ProcessingStep {
    /// The pass `name` that comes after `dependencies`.
    pub fn new(name: &str, dependencies: Vec<String>) -> (r: ProcessingStep)
        ensures
            r.name@ == name@,
            r.dependencies == dependencies,
    {
        ProcessingStep { name: name.to_owned(), dependencies }
    }
}

/// Whether the pass `name` is one of the passes of `steps` that `done` marks.
pub open spec fn is_done(steps: Seq<ProcessingStep>, done: Seq<bool>, name: Seq<char>) -> bool {
    exists|j: int| 0 <= j < steps.len() && 0 <= j < done.len() && done[j] && (#[trigger] steps[j]).name@ == name
}

/// Whether every pass that the pass at `i` depends on is marked by `done`.
pub open spec fn is_ready(steps: Seq<ProcessingStep>, done: Seq<bool>, i: int) -> bool {
    forall|d: int|
        0 <= d < steps[i].dependencies.len() ==> is_done(steps, done, (#[trigger] steps[i].dependencies[d])@)
}

/// Whether the pass at position `i` has a place in `order`.
pub open spec fn is_placed(order: Seq<int>, i: int) -> bool {
    exists|k: int| 0 <= k < order.len() && #[trigger] order[k] == i
}

/// Whether a pass named `name` has a place in `order` before position `k`.
pub open spec fn is_placed_before(steps: Seq<ProcessingStep>, order: Seq<int>, k: int, name: Seq<char>) -> bool {
    exists|j: int| 0 <= j < k && j < order.len() && steps[#[trigger] order[j]].name@ == name
}

/// Whether no pass has two places in `order`.
pub open spec fn is_without_repetition(order: Seq<int>) -> bool {
    forall|k: int, l: int| 0 <= k < l < order.len() ==> (#[trigger] order[k]) != (#[trigger] order[l])
}

/// Whether `order` is an order in which the passes of `steps` can run: it
/// names every pass once, and every pass comes after a pass of each name it
/// depends on.
pub open spec fn is_valid_order(steps: Seq<ProcessingStep>, order: Seq<int>) -> bool {
    &&& order.len() == steps.len()
    &&& forall|k: int| 0 <= k < order.len() ==> 0 <= (#[trigger] order[k]) < steps.len()
    &&& is_without_repetition(order)
    &&& forall|i: int| 0 <= i < steps.len() ==> #[trigger] is_placed(order, i)
    &&& forall|k: int, d: int|
        0 <= k < order.len() && 0 <= d < steps[order[k]].dependencies.len() ==> #[trigger] is_placed_before(
            steps,
            order,
            k,
            steps[order[k]].dependencies[d]@,
        )
}

/// The positions of a list of positions as numbers.
pub open spec fn order_view(order: Seq<usize>) -> Seq<int> {
    Seq::new(order.len(), |k: int| order[k] as int)
}

/// Where some pass is left and none of those left is ready, no order exists
/// in which the passes can run: `order`, whose first `k` passes are done, is
/// none.
pub proof fn lemma_stuck_means_no_order(steps: Seq<ProcessingStep>, done: Seq<bool>, order: Seq<int>, k: int)
    requires
        done.len() == steps.len(),
        exists|i: int| 0 <= i < steps.len() && !#[trigger] done[i],
        forall|i: int| 0 <= i < steps.len() && !#[trigger] done[i] ==> !is_ready(steps, done, i),
        0 <= k <= order.len(),
        forall|j: int| 0 <= j < k ==> done[#[trigger] order[j]],
    ensures
        !is_valid_order(steps, order),
    decreases order.len() - k,
{
    if is_valid_order(steps, order) {
        if k == order.len() {
            let i = choose|i: int| 0 <= i < steps.len() && !#[trigger] done[i];
            assert(is_placed(order, i));
            let at = choose|at: int| 0 <= at < order.len() && #[trigger] order[at] == i;
            assert(done[order[at]]);
        } else if done[order[k]] {
            lemma_stuck_means_no_order(steps, done, order, k + 1);
        } else {
            let i = order[k];
            assert forall|d: int| 0 <= d < steps[i].dependencies.len() implies is_done(
                steps,
                done,
                (#[trigger] steps[i].dependencies[d])@,
            ) by {
                let name = steps[i].dependencies[d]@;
                assert(is_placed_before(steps, order, k, name));
                let j = choose|j: int| 0 <= j < k && j < order.len() && steps[#[trigger] order[j]].name@ == name;
                assert(done[order[j]]);
            }
            assert(is_ready(steps, done, i));
        }
    }
}

/// Whether the pass `name` is one of the passes that `done` marks.
pub fn has_done(steps: &Vec<ProcessingStep>, done: &Vec<bool>, name: &String) -> (r: bool)
    requires
        done.len() == steps.len(),
    ensures
        r == is_done(steps@, done@, name@),
{
    let mut j: usize = 0;
    while j < steps.len()
        invariant
            j <= steps.len(),
            done.len() == steps.len(),
            forall|l: int| 0 <= l < j ==> !(done[l] && (#[trigger] steps[l]).name@ == name@),
        decreases steps.len() - j,
    {
        if done[j] && steps[j].name == *name {
            return true;
        }
        j += 1;
    }
    false
}

/// Whether every pass that the pass at `i` depends on is marked by `done`.
pub fn can_start(steps: &Vec<ProcessingStep>, done: &Vec<bool>, i: usize) -> (r: bool)
    requires
        done.len() == steps.len(),
        i < steps.len(),
    ensures
        r == is_ready(steps@, done@, i as int),
{
    let step = &steps[i];
    let mut d: usize = 0;
    while d < step.dependencies.len()
        invariant
            d <= step.dependencies.len(),
            done.len() == steps.len(),
            i < steps.len(),
            *step == steps[i as int],
            forall|e: int| 0 <= e < d ==> is_done(steps@, done@, (#[trigger] step.dependencies[e])@),
        decreases step.dependencies.len() - d,
    {
        if !has_done(steps, done, &step.dependencies[d]) {
            return false;
        }
        d += 1;
    }
    true
}

/// Finds an order in which the passes can run: every pass once, each after
/// the passes it depends on. Where the passes allow no such order, because
/// one depends on a pass that is not there or because they depend on each
/// other in a circle, the result is `PipelineOrderingError`.
pub fn execution_order(steps: &Vec<ProcessingStep>) -> (r: Result<Vec<usize>, Error>)
    ensures
        match r {
            Ok(order) => is_valid_order(steps@, order_view(order@)),
            Err(e) => e == Error::PipelineOrderingError && forall|order: Seq<int>| !is_valid_order(steps@, order),
        },
{
    let n = steps.len();
    let mut done: Vec<bool> = Vec::new();
    let mut i: usize = 0;
    while i < n
        invariant
            i <= n,
            done.len() == i,
            forall|j: int| 0 <= j < i ==> !done[j],
        decreases n - i,
    {
        done.push(false);
        i += 1;
    }
    let mut order: Vec<usize> = Vec::new();
    while order.len() < n
        invariant
            n == steps.len(),
            done.len() == n,
            order.len() <= n,
            forall|k: int|
                0 <= k < order.len() ==> 0 <= (#[trigger] order_view(order@)[k]) < n && done[order_view(
                    order@,
                )[k]],
            is_without_repetition(order_view(order@)),
            forall|i: int| 0 <= i < n && #[trigger] done[i] ==> is_placed(order_view(order@), i),
            forall|k: int, d: int|
                0 <= k < order.len() && 0 <= d < steps[order_view(order@)[k]].dependencies.len()
                    ==> #[trigger] is_placed_before(
                    steps@,
                    order_view(order@),
                    k,
                    steps[order_view(order@)[k]].dependencies[d]@,
                ),
            forall|name: Seq<char>|
                #![trigger is_done(steps@, done@, name)]
                is_done(steps@, done@, name) ==> is_placed_before(
                    steps@,
                    order_view(order@),
                    order.len() as int,
                    name,
                ),
        decreases n - order.len(),
    {
        let mut found: Option<usize> = None;
        let mut c: usize = 0;
        while c < n && found.is_none()
            invariant
                c <= n,
                n == steps.len(),
                done.len() == n,
                match found {
                    Some(f) => f < n && !done[f as int] && is_ready(steps@, done@, f as int),
                    None => forall|i: int| 0 <= i < c && !#[trigger] done[i] ==> !is_ready(steps@, done@, i),
                },
            decreases n - c + (if found is None {
                1int
            } else {
                0int
            }),
        {
            if !done[c] && can_start(steps, &done, c) {
                found = Some(c);
            } else {
                c += 1;
            }
        }
        let ghost placed = order_view(order@);
        match found {
            None => {
                proof {
                    if forall|i: int| 0 <= i < n ==> #[trigger] done[i] {
                        lemma_all_done_fills_order(done@, placed);
                    }
                    assert forall|candidate: Seq<int>| !is_valid_order(steps@, candidate) by {
                        lemma_stuck_means_no_order(steps@, done@, candidate, 0);
                    }
                }
                return Err(Error::PipelineOrderingError);
            },
            Some(f) => {
                let ghost before = done@;
                done.set(f, true);
                order.push(f);
                proof {
                    let o = order_view(order@);
                    let last = placed.len() as int;
                    assert(o =~= placed.push(f as int));
                    assert forall|k: int| 0 <= k < o.len() implies 0 <= (#[trigger] o[k]) < n && done[o[k]] by {
                        if k < last {
                            assert(o[k] == placed[k]);
                        }
                    }
                    assert(is_without_repetition(o)) by {
                        assert forall|k: int, l: int| 0 <= k < l < o.len() implies (#[trigger] o[k]) != (
                        #[trigger] o[l]) by {
                            assert(o[k] == placed[k]);
                            if l == last {
                                assert(before[placed[k]]);
                            } else {
                                assert(o[l] == placed[l]);
                            }
                        }
                    }
                    assert forall|i: int| 0 <= i < n && #[trigger] done[i] implies is_placed(o, i) by {
                        if i == f {
                            assert(o[last] == i);
                        } else {
                            assert(before[i]);
                            assert(is_placed(placed, i));
                            let k = choose|k: int| 0 <= k < placed.len() && #[trigger] placed[k] == i;
                            assert(o[k] == i);
                        }
                    }
                    assert forall|name: Seq<char>|
                        #![trigger is_done(steps@, done@, name)]
                        is_done(steps@, done@, name) implies is_placed_before(steps@, o, o.len() as int, name) by {
                        let w = choose|w: int|
                            0 <= w < steps.len() && 0 <= w < done.len() && done[w] && (#[trigger] steps[w]).name@
                                == name;
                        if w == f {
                            assert(o[last] == f);
                        } else {
                            assert(before[w]);
                            assert(is_done(steps@, before, name));
                            assert(is_placed_before(steps@, placed, last, name));
                            let j = choose|j: int|
                                0 <= j < last && j < placed.len() && steps[#[trigger] placed[j]].name@ == name;
                            assert(o[j] == placed[j]);
                        }
                    }
                    assert forall|k: int, d: int|
                        0 <= k < o.len() && 0 <= d < steps[o[k]].dependencies.len() implies #[trigger] is_placed_before(
                        steps@,
                        o,
                        k,
                        steps[o[k]].dependencies[d]@,
                    ) by {
                        let name = steps[o[k]].dependencies[d]@;
                        if k == last {
                            assert(is_done(steps@, before, steps[f as int].dependencies[d]@));
                            assert(is_placed_before(steps@, placed, last, name));
                            let j = choose|j: int|
                                0 <= j < last && j < placed.len() && steps[#[trigger] placed[j]].name@ == name;
                            assert(o[j] == placed[j]);
                        } else {
                            assert(o[k] == placed[k]);
                            assert(is_placed_before(steps@, placed, k, steps[placed[k]].dependencies[d]@));
                            let j = choose|j: int|
                                0 <= j < k && j < placed.len() && steps[#[trigger] placed[j]].name@ == name;
                            assert(o[j] == placed[j]);
                        }
                    }
                }
            },
        }
    }
    proof {
        let o = order_view(order@);
        assert forall|i: int| 0 <= i < steps.len() implies #[trigger] is_placed(o, i) by {
            if !done[i] {
                lemma_full_order_marks_all(done@, o, i);
            }
        }
    }
    Ok(order)
}

/// The number of marks among the first `count` of `done`.
pub open spec fn marked(done: Seq<bool>, count: nat) -> nat
    decreases count,
{
    if count == 0 || count > done.len() {
        0
    } else {
        marked(done, (count - 1) as nat) + if done[count - 1] {
            1nat
        } else {
            0nat
        }
    }
}

/// Positions below `count` that are all marked and all different are no
/// more than there are marks among the first `count`.
pub proof fn lemma_distinct_positions_fit(done: Seq<bool>, order: Seq<int>, count: nat)
    requires
        count <= done.len(),
        forall|k: int| 0 <= k < order.len() ==> 0 <= (#[trigger] order[k]) < count && done[order[k]],
        is_without_repetition(order),
    ensures
        order.len() <= marked(done, count),
    decreases count,
{
    if count == 0 {
        if order.len() > 0 {
            let first = order[0];
            assert(done[first]);
        }
    } else {
        let top = count - 1;
        if exists|k: int| 0 <= k < order.len() && #[trigger] order[k] == top {
            let at = choose|k: int| 0 <= k < order.len() && #[trigger] order[k] == top;
            let rest = order.remove(at);
            assert forall|k: int| 0 <= k < rest.len() implies 0 <= (#[trigger] rest[k]) < top && done[rest[k]] by {
                if k < at {
                    assert(rest[k] == order[k]);
                } else {
                    assert(rest[k] == order[k + 1]);
                }
            }
            assert forall|k: int, l: int| 0 <= k < l < rest.len() implies (#[trigger] rest[k]) != (
            #[trigger] rest[l]) by {
                let k2 = if k < at {
                    k
                } else {
                    k + 1
                };
                let l2 = if l < at {
                    l
                } else {
                    l + 1
                };
                assert(rest[k] == order[k2] && rest[l] == order[l2]);
            }
            lemma_distinct_positions_fit(done, rest, top as nat);
        } else {
            assert forall|k: int| 0 <= k < order.len() implies 0 <= (#[trigger] order[k]) < top && done[order[k]] by {}
            lemma_distinct_positions_fit(done, order, top as nat);
        }
    }
}

/// There are no more marks than places.
pub proof fn lemma_marks_fit(done: Seq<bool>, count: nat)
    requires
        count <= done.len(),
    ensures
        marked(done, count) <= count,
        marked(done, count) == count ==> forall|i: int| 0 <= i < count ==> #[trigger] done[i],
    decreases count,
{
    if count > 0 {
        lemma_marks_fit(done, (count - 1) as nat);
    }
}

/// Where every mark among the first `count` has its place in an order
/// without repetition, the order has at least as many places as there are
/// marks.
pub proof fn lemma_marked_positions_fit(done: Seq<bool>, order: Seq<int>, count: nat)
    requires
        count <= done.len(),
        is_without_repetition(order),
        forall|i: int| 0 <= i < count && #[trigger] done[i] ==> is_placed(order, i),
    ensures
        marked(done, count) <= order.len(),
    decreases count,
{
    if count > 0 {
        let top = count - 1;
        if done[top] {
            assert(is_placed(order, top));
            let at = choose|k: int| 0 <= k < order.len() && #[trigger] order[k] == top;
            let rest = order.remove(at);
            assert forall|k: int, l: int| 0 <= k < l < rest.len() implies (#[trigger] rest[k]) != (
            #[trigger] rest[l]) by {
                let k2 = if k < at {
                    k
                } else {
                    k + 1
                };
                let l2 = if l < at {
                    l
                } else {
                    l + 1
                };
                assert(rest[k] == order[k2] && rest[l] == order[l2]);
            }
            assert forall|i: int| 0 <= i < top && #[trigger] done[i] implies is_placed(rest, i) by {
                assert(is_placed(order, i));
                let k = choose|k: int| 0 <= k < order.len() && #[trigger] order[k] == i;
                if k < at {
                    assert(rest[k] == i);
                } else {
                    assert(rest[k - 1] == order[k]);
                }
            }
            lemma_marked_positions_fit(done, rest, top as nat);
        } else {
            lemma_marked_positions_fit(done, order, top as nat);
        }
    }
}

/// Where every pass is done, the order holds them all.
pub proof fn lemma_all_done_fills_order(done: Seq<bool>, order: Seq<int>)
    requires
        forall|i: int| 0 <= i < done.len() ==> #[trigger] done[i],
        is_without_repetition(order),
        forall|i: int| 0 <= i < done.len() && #[trigger] done[i] ==> is_placed(order, i),
    ensures
        order.len() >= done.len(),
{
    lemma_marked_positions_fit(done, order, done.len());
    lemma_all_marked(done, done.len());
}

/// Where every place is marked there are as many marks as places.
pub proof fn lemma_all_marked(done: Seq<bool>, count: nat)
    requires
        count <= done.len(),
        forall|i: int| 0 <= i < done.len() ==> #[trigger] done[i],
    ensures
        marked(done, count) == count,
    decreases count,
{
    if count > 0 {
        lemma_all_marked(done, (count - 1) as nat);
    }
}

/// Numbers below `count` that are all different are no more than `count`.
pub proof fn lemma_different_numbers_are_few(numbers: Seq<int>, count: nat)
    requires
        forall|k: int| 0 <= k < numbers.len() ==> 0 <= (#[trigger] numbers[k]) < count,
        is_without_repetition(numbers),
    ensures
        numbers.len() <= count,
{
    let all = Seq::new(count, |i: int| true);
    lemma_distinct_positions_fit(all, numbers, count);
    lemma_marks_fit(all, count);
}

/// An order without repetition that fills every place leaves no pass
/// unmarked.
pub proof fn lemma_full_order_marks_all(done: Seq<bool>, order: Seq<int>, i: int)
    requires
        order.len() == done.len(),
        0 <= i < done.len(),
        forall|k: int| 0 <= k < order.len() ==> 0 <= (#[trigger] order[k]) < done.len() && done[order[k]],
        is_without_repetition(order),
    ensures
        done[i],
{
    lemma_distinct_positions_fit(done, order, done.len());
    lemma_marks_fit(done, done.len());
}

} // verus!
