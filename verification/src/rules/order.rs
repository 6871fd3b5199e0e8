//! The order in which rules are evaluated.

use vstd::prelude::*;
use crate::rules::schema::Rule;

verus! {

/// The priority of each rule.
pub open spec fn priorities(rules: Seq<Rule>) -> Seq<i32> {
    rules.map_values(|r: Rule| r.priority)
}

/// Whether the rule at `a` is evaluated before the rule at `b`: it has the
/// lower priority, or the same priority and the earlier place in the listing.
pub open spec fn precedes(priorities: Seq<i32>, a: int, b: int) -> bool {
    priorities[a] < priorities[b] || (priorities[a] == priorities[b] && a < b)
}

/// Whether `order` lists the place of every rule, each one before all those
/// that it precedes.
pub open spec fn is_evaluation_order(priorities: Seq<i32>, order: Seq<int>) -> bool {
    &&& order.len() == priorities.len()
    &&& forall|k: int| 0 <= k < order.len() ==> 0 <= #[trigger] order[k] < priorities.len()
    &&& forall|i: int| 0 <= i < priorities.len() ==> #[trigger] order.contains(i)
    &&& forall|k: int, l: int|
        0 <= k < l < order.len() ==> precedes(priorities, #[trigger] order[k], #[trigger] order[l])
}

/// The order in which rules of the given priorities are evaluated, as places
/// in the listing: by ascending priority, rules of one priority in listing
/// order.
pub open spec fn evaluation_order(priorities: Seq<i32>) -> Seq<int> {
    choose|order: Seq<int>| is_evaluation_order(priorities, order)
}

/// The places as integers.
pub open spec fn places(order: Seq<usize>) -> Seq<int> {
    order.map_values(|i: usize| i as int)
}

/// Two evaluation orders of the same priorities agree on their first `upto`
/// places.
proof fn lemma_orders_agree(priorities: Seq<i32>, a: Seq<int>, b: Seq<int>, upto: int)
    requires
        is_evaluation_order(priorities, a),
        is_evaluation_order(priorities, b),
        0 <= upto <= priorities.len(),
    ensures
        forall|k: int| 0 <= k < upto ==> a[k] == b[k],
    decreases upto,
{
    if upto > 0 {
        lemma_orders_agree(priorities, a, b, upto - 1);
        // The rule at the last of these places in one order stands in the
        // other order too: not before that place, where the two agree, and
        // not behind it in both, since neither rule would then precede the
        // other.
        assert(b.contains(a[upto - 1]));
        assert(a.contains(b[upto - 1]));
    }
}

/// There is only one evaluation order.
pub proof fn lemma_evaluation_order_unique(priorities: Seq<i32>, a: Seq<int>, b: Seq<int>)
    requires
        is_evaluation_order(priorities, a),
        is_evaluation_order(priorities, b),
    ensures
        a == b,
{
    lemma_orders_agree(priorities, a, b, priorities.len() as int);
}

/// Putting the last rule behind those that are not of higher priority gives
/// the order of all rules from the order of all but the last.
proof fn lemma_insert_last(priorities: Seq<i32>, order: Seq<int>, at: int)
    requires
        priorities.len() > 0,
        is_evaluation_order(priorities.drop_last(), order),
        0 <= at <= order.len(),
        forall|k: int| 0 <= k < at ==> priorities[#[trigger] order[k]] <= priorities.last(),
        forall|k: int|
            at <= k < order.len() ==> priorities[#[trigger] order[k]] > priorities.last(),
    ensures
        is_evaluation_order(priorities, order.insert(at, priorities.len() - 1)),
{
    let last = priorities.len() - 1;
    let longer = order.insert(at, last);
    assert forall|i: int| 0 <= i < priorities.len() implies #[trigger] longer.contains(i) by {
        if i == last {
            assert(longer[at] == i);
        } else {
            assert(order.contains(i));
            let k = choose|k: int| 0 <= k < order.len() && order[k] == i;
            if k < at {
                assert(longer[k] == i);
            } else {
                assert(longer[k + 1] == i);
            }
        }
    }
}

/// The first place in `order`, from `from` on, of a rule whose priority is
/// above `bound`; the length of `order` where there is none.
spec fn first_above(priorities: Seq<i32>, order: Seq<int>, bound: i32, from: int) -> int
    decreases order.len() - from,
{
    if from < 0 || from >= order.len() {
        order.len() as int
    } else if priorities[order[from]] > bound {
        from
    } else {
        first_above(priorities, order, bound, from + 1)
    }
}

/// No rule between `from` and `first_above` has a priority above `bound`, and
/// the rule at `first_above` has one.
proof fn lemma_first_above(priorities: Seq<i32>, order: Seq<int>, bound: i32, from: int)
    requires
        0 <= from <= order.len(),
    ensures
        from <= first_above(priorities, order, bound, from) <= order.len(),
        forall|k: int|
            from <= k < first_above(priorities, order, bound, from) ==> priorities[#[trigger] order[k]]
                <= bound,
        first_above(priorities, order, bound, from) < order.len() ==> priorities[order[first_above(
            priorities,
            order,
            bound,
            from,
        )]] > bound,
    decreases order.len() - from,
{
    if from < order.len() && priorities[order[from]] <= bound {
        lemma_first_above(priorities, order, bound, from + 1);
    }
}

/// Rules of any priorities have an evaluation order, and `evaluation_order`
/// is it.
pub proof fn lemma_evaluation_order_exists(priorities: Seq<i32>)
    ensures
        is_evaluation_order(priorities, evaluation_order(priorities)),
    decreases priorities.len(),
{
    if priorities.len() == 0 {
        assert(is_evaluation_order(priorities, Seq::<int>::empty()));
    } else {
        let rest = priorities.drop_last();
        lemma_evaluation_order_exists(rest);
        let order = evaluation_order(rest);
        let at = first_above(priorities, order, priorities.last(), 0);
        lemma_first_above(priorities, order, priorities.last(), 0);
        lemma_insert_last(priorities, order, at);
    }
}

/// The order in which the rules are evaluated, as places in the listing: by
/// ascending priority, rules of one priority in listing order.
pub fn sorted_order(rules: &Vec<Rule>) -> (r: Vec<usize>)
    ensures
        is_evaluation_order(priorities(rules@), places(r@)),
        places(r@) == evaluation_order(priorities(rules@)),
{
    let ghost all = priorities(rules@);
    let mut order: Vec<usize> = Vec::new();
    let mut i: usize = 0;
    while i < rules.len()
        invariant
            i <= rules.len(),
            all == priorities(rules@),
            is_evaluation_order(all.take(i as int), places(order@)),
        decreases rules.len() - i,
    {
        let ghost so_far = places(order@);
        let priority: i32 = rules[i].priority;
        let mut at: usize = order.len();
        while at > 0 && rules[order[at - 1]].priority > priority
            invariant
                at <= order.len(),
                order.len() == i,
                i < rules.len(),
                all == priorities(rules@),
                priority == all[i as int],
                so_far == places(order@),
                is_evaluation_order(all.take(i as int), so_far),
                forall|k: int| 0 <= k < order.len() ==> #[trigger] order[k] == so_far[k] < i,
                forall|k: int| at <= k < order.len() ==> all[#[trigger] so_far[k]] > priority,
            decreases at,
        {
            at -= 1;
        }
        proof {
            let upto = all.take(i + 1);
            lemma_insert_last(upto, so_far, at as int);
            assert(places(order@.insert(at as int, i)) =~= so_far.insert(at as int, i as int));
        }
        order.insert(at, i);
        i += 1;
    }
    proof {
        assert(all.take(i as int) =~= all);
        lemma_evaluation_order_unique(all, places(order@), evaluation_order(all));
    }
    order
}

} // verus!
