//! An order of items in which each item comes after the items that it
//! needs defined. Among the items that could come next, the one that comes
//! first in the given order of preference is taken, so that the result is
//! the same on every run and stays close to the order of the source.

use vstd::prelude::*;
use crate::prereqs::IdSet;

verus! {

/// Whether an item may come next: each of the items that it needs, as far
/// as it is among the nodes at all, is done.
pub open spec fn is_ready(nodes: Seq<usize>, needs: Set<usize>, done: Seq<usize>) -> bool {
    forall|id: usize| needs.contains(id) && nodes.contains(id) ==> done.contains(id)
}

/// The first position at or after `from` of a node that is not done and
/// may come next.
pub open spec fn next_ready(
    nodes: Seq<usize>,
    needs: Seq<Set<usize>>,
    done: Seq<usize>,
    from: int,
) -> Option<int>
    decreases nodes.len() - from,
{
    if from < 0 || from >= nodes.len() || from >= needs.len() {
        None
    } else if !done.contains(nodes[from]) && is_ready(nodes, needs[from], done) {
        Some(from)
    } else {
        next_ready(nodes, needs, done, from + 1)
    }
}

/// The order after the given number of steps: each step appends the first
/// node, in the order of `nodes`, that is not done and may come next.
pub open spec fn topo_steps(nodes: Seq<usize>, needs: Seq<Set<usize>>, steps: int) -> Seq<usize>
    decreases steps,
{
    if steps <= 0 {
        Seq::empty()
    } else {
        let before = topo_steps(nodes, needs, steps - 1);
        match next_ready(nodes, needs, before, 0) {
            Some(p) => before.push(nodes[p]),
            None => before,
        }
    }
}

/// The order of the nodes: `nodes` lists them in the order of preference,
/// and `needs[i]` is what `nodes[i]` needs to come before it.
pub open spec fn topo_order(nodes: Seq<usize>, needs: Seq<Set<usize>>) -> Seq<usize> {
    topo_steps(nodes, needs, nodes.len() as int)
}

/// The first `n` nodes that have no place in an order.
pub open spec fn left_out(nodes: Seq<usize>, order: Seq<usize>, n: int) -> Seq<usize>
    decreases n,
{
    if n <= 0 || n > nodes.len() {
        Seq::empty()
    } else if order.contains(nodes[n - 1]) {
        left_out(nodes, order, n - 1)
    } else {
        left_out(nodes, order, n - 1).push(nodes[n - 1])
    }
}

/// The nodes that have no place in the order, as each of them needs,
/// directly or through others, a node that needs it.
pub open spec fn topo_failed(nodes: Seq<usize>, needs: Seq<Set<usize>>) -> Seq<usize> {
    left_out(nodes, topo_order(nodes, needs), nodes.len() as int)
}

/// The sets of a list of sets.
pub open spec fn id_sets(v: Seq<IdSet>) -> Seq<Set<usize>> {
    v.map_values(|s: IdSet| s@)
}

/// What sorting gives: the nodes in order, and the nodes that are part of
/// a cycle or need one that is.
#[derive(Debug)]
pub struct TopoSortResult {
    pub ordered: Vec<usize>,
    pub failed: Vec<usize>,
}

/// Whether a list holds a value.
pub fn list_contains(v: &Vec<usize>, x: usize) -> (r: bool)
    ensures
        r == v@.contains(x),
{
    let mut i: usize = 0;
    while i < v.len()
        invariant
            i <= v.len(),
            forall|j: int| 0 <= j < i ==> v@[j] != x,
        decreases v.len() - i,
    {
        if v[i] == x {
            return true;
        }
        i += 1;
    }
    false
}

/// Whether an item may come next.
pub fn check_ready(nodes: &Vec<usize>, needs: &IdSet, done: &Vec<usize>) -> (r: bool)
    ensures
        r == is_ready(nodes@, needs@, done@),
{
    let ids = needs.to_vec();
    proof {
        use_type_invariant(needs);
        needs.lemma_ordered();
    }
    let mut i: usize = 0;
    while i < ids.len()
        invariant
            i <= ids.len(),
            forall|x: usize| ids@.contains(x) == needs@.contains(x),
            forall|j: int|
                0 <= j < i ==> (nodes@.contains(#[trigger] ids@[j]) ==> done@.contains(ids@[j])),
        decreases ids.len() - i,
    {
        let id = ids[i];
        if list_contains(nodes, id) && !list_contains(done, id) {
            assert(ids@.contains(id));
            return false;
        }
        i += 1;
    }
    assert forall|id: usize| needs@.contains(id) && nodes@.contains(id) implies done@.contains(
        id,
    ) by {
        assert(ids@.contains(id));
        let j = choose|j: int| 0 <= j < ids@.len() && ids@[j] == id;
        assert(nodes@.contains(ids@[j]));
    }
    true
}

/// Once no node may come next, the order stays as it is.
pub proof fn lemma_topo_stuck(nodes: Seq<usize>, needs: Seq<Set<usize>>, k: int, m: int)
    requires
        0 <= k <= m,
        next_ready(nodes, needs, topo_steps(nodes, needs, k), 0) is None,
    ensures
        topo_steps(nodes, needs, m) == topo_steps(nodes, needs, k),
    decreases m - k,
{
    if k < m {
        lemma_topo_stuck(nodes, needs, k, m - 1);
    }
}

/// Orders the nodes so that each comes after what it needs.
pub fn toposort(nodes: &Vec<usize>, needs: &Vec<IdSet>) -> (r: TopoSortResult)
    requires
        nodes@.len() == needs@.len(),
    ensures
        r.ordered@ == topo_order(nodes@, id_sets(needs@)),
        r.failed@ == topo_failed(nodes@, id_sets(needs@)),
{
    let n = nodes.len();
    let ghost sets = id_sets(needs@);
    let mut ordered: Vec<usize> = Vec::new();
    let mut step: usize = 0;
    let mut stuck = false;
    while step < n && !stuck
        invariant
            step <= n,
            n == nodes@.len(),
            n == needs@.len(),
            sets == id_sets(needs@),
            ordered@ == topo_steps(nodes@, sets, step as int),
            stuck ==> next_ready(nodes@, sets, ordered@, 0) is None,
        decreases n - step + (if stuck { 0int } else { 1int }),
    {
        let mut p: usize = 0;
        let mut found = false;
        while p < n && !found
            invariant
                p <= n,
                n == nodes@.len(),
                n == needs@.len(),
                sets == id_sets(needs@),
                next_ready(nodes@, sets, ordered@, 0) == next_ready(
                    nodes@,
                    sets,
                    ordered@,
                    p as int,
                ),
                found ==> p < n && next_ready(nodes@, sets, ordered@, 0) == Some(p as int),
            decreases n - p + (if found { 0int } else { 1int }),
        {
            assert(sets[p as int] == needs@[p as int]@);
            if !list_contains(&ordered, nodes[p]) && check_ready(nodes, &needs[p], &ordered) {
                found = true;
            } else {
                p += 1;
            }
        }
        if found {
            ordered.push(nodes[p]);
            step += 1;
        } else {
            stuck = true;
        }
    }
    proof {
        if stuck {
            lemma_topo_stuck(nodes@, sets, step as int, n as int);
        }
    }
    let mut failed: Vec<usize> = Vec::new();
    let mut i: usize = 0;
    while i < n
        invariant
            i <= n,
            n == nodes@.len(),
            failed@ == left_out(nodes@, ordered@, i as int),
        decreases n - i,
    {
        if !list_contains(&ordered, nodes[i]) {
            failed.push(nodes[i]);
        }
        i += 1;
    }
    TopoSortResult { ordered, failed }
}

/// The order holds nodes only, each at most once, and each node in it may
/// come where it stands: what it needs, as far as it is among the nodes,
/// stands before it.
pub proof fn lemma_topo_order(nodes: Seq<usize>, needs: Seq<Set<usize>>, steps: int)
    requires
        nodes.len() == needs.len(),
        0 <= steps,
    ensures
        topo_steps(nodes, needs, steps).no_duplicates(),
        topo_steps(nodes, needs, steps).len() <= steps,
        forall|k: int|
            0 <= k < topo_steps(nodes, needs, steps).len() ==> nodes.contains(
                #[trigger] topo_steps(nodes, needs, steps)[k],
            ),
        forall|k: int, p: int|
            0 <= k < topo_steps(nodes, needs, steps).len() && 0 <= p < nodes.len() && nodes[p]
                == topo_steps(nodes, needs, steps)[k] ==> exists|q: int|
                0 <= q < nodes.len() && nodes[q] == topo_steps(nodes, needs, steps)[k] && is_ready(
                    nodes,
                    #[trigger] needs[q],
                    topo_steps(nodes, needs, steps).take(k),
                ),
    decreases steps,
{
    if steps > 0 {
        lemma_topo_order(nodes, needs, steps - 1);
        let before = topo_steps(nodes, needs, steps - 1);
        let after = topo_steps(nodes, needs, steps);
        match next_ready(nodes, needs, before, 0) {
            Some(p) => {
                lemma_next_ready(nodes, needs, before, 0);
                assert(after == before.push(nodes[p]));
                assert(after.take(before.len() as int) =~= before);
                assert forall|k: int| 0 <= k < after.len() implies nodes.contains(
                    #[trigger] after[k],
                ) by {
                    if k < before.len() {
                        assert(after[k] == before[k]);
                    }
                }
                assert forall|k: int, q0: int|
                    0 <= k < after.len() && 0 <= q0 < nodes.len() && nodes[q0]
                        == after[k] implies exists|q: int|
                    0 <= q < nodes.len() && nodes[q] == after[k] && is_ready(
                        nodes,
                        #[trigger] needs[q],
                        after.take(k),
                    ) by {
                    if k < before.len() {
                        assert(after[k] == before[k]);
                        assert(after.take(k) =~= before.take(k));
                        let q = choose|q: int|
                            0 <= q < nodes.len() && nodes[q] == before[k] && is_ready(
                                nodes,
                                #[trigger] needs[q],
                                before.take(k),
                            );
                        assert(is_ready(nodes, needs[q], after.take(k)));
                    } else {
                        assert(is_ready(nodes, needs[p], after.take(k)));
                    }
                }
            },
            None => {},
        }
    }
}

/// `next_ready` finds a node that is not done and may come next, and no
/// node before it is one.
pub proof fn lemma_next_ready(nodes: Seq<usize>, needs: Seq<Set<usize>>, done: Seq<usize>, from: int)
    requires
        nodes.len() == needs.len(),
        0 <= from <= nodes.len(),
    ensures
        match next_ready(nodes, needs, done, from) {
            Some(p) => from <= p < nodes.len() && !done.contains(nodes[p]) && is_ready(
                nodes,
                needs[p],
                done,
            ) && forall|q: int|
                from <= q < p ==> done.contains(nodes[q]) || !is_ready(
                    nodes,
                    #[trigger] needs[q],
                    done,
                ),
            None => forall|q: int|
                from <= q < nodes.len() ==> done.contains(nodes[q]) || !is_ready(
                    nodes,
                    #[trigger] needs[q],
                    done,
                ),
        },
    decreases nodes.len() - from,
{
    if from < nodes.len() && !(!done.contains(nodes[from]) && is_ready(nodes, needs[from], done)) {
        lemma_next_ready(nodes, needs, done, from + 1);
    }
}

/// Where no node needs another that is among the nodes, the order is the
/// order in which the nodes were given.
pub proof fn lemma_topo_keeps_order(nodes: Seq<usize>, needs: Seq<Set<usize>>, steps: int)
    requires
        nodes.len() == needs.len(),
        nodes.no_duplicates(),
        0 <= steps <= nodes.len(),
        forall|q: int, x: usize|
            0 <= q < needs.len() && (#[trigger] needs[q]).contains(x) ==> !#[trigger] nodes.contains(
                x,
            ),
    ensures
        topo_steps(nodes, needs, steps) == nodes.take(steps),
    decreases steps,
{
    if steps > 0 {
        lemma_topo_keeps_order(nodes, needs, steps - 1);
        let done = nodes.take(steps - 1);
        lemma_next_ready(nodes, needs, done, 0);
        assert forall|q: int| 0 <= q < nodes.len() implies is_ready(nodes, #[trigger] needs[q], done) by {
            assert forall|x: usize| needs[q].contains(x) && nodes.contains(x) implies done.contains(
                x,
            ) by {}
        }
        assert(!done.contains(nodes[steps - 1])) by {
            if done.contains(nodes[steps - 1]) {
                let j = choose|j: int| 0 <= j < done.len() && done[j] == nodes[steps - 1];
                assert(nodes[j] == nodes[steps - 1]);
            }
        }
        assert forall|q: int| 0 <= q < steps - 1 implies done.contains(#[trigger] nodes[q]) by {
            assert(done[q] == nodes[q]);
        }
        match next_ready(nodes, needs, done, 0) {
            Some(p) => {
                if p < steps - 1 {
                    assert(done.contains(nodes[p]));
                }
                if p > steps - 1 {
                    assert(is_ready(nodes, needs[steps - 1], done));
                }
                assert(p == steps - 1);
                assert(done.push(nodes[p]) =~= nodes.take(steps));
            },
            None => {
                assert(is_ready(nodes, needs[steps - 1], done));
            },
        }
    }
}

} // verus!
