//! Acyclicity of a decomposed task graph.

use vstd::prelude::*;
use crate::session::{dependencies_resolve, ids_unique, TaskDraft};

verus! {

/// Draft `i` depends on draft `j`.
pub open spec fn depends_on(d: Seq<TaskDraft>, i: int, j: int) -> bool {
    0 <= i < d.len() && 0 <= j < d.len() && d[i].dependencies@.map_values(|s: String| s@).contains(d[j].id@)
}

/// `rank` orders the drafts so that each comes after everything it depends on.
pub open spec fn is_topological_rank(d: Seq<TaskDraft>, rank: spec_fn(int) -> nat) -> bool {
    forall|i: int, j: int| #[trigger] depends_on(d, i, j) ==> rank(j) < rank(i)
}

/// The dependency graph of the drafts has no cycle: some ranking puts every
/// draft after all of its dependencies.
pub open spec fn is_acyclic(d: Seq<TaskDraft>) -> bool {
    exists|rank: spec_fn(int) -> nat| is_topological_rank(d, rank)
}

/// Index of the first draft with id `id`, if any.
fn draft_index(drafts: &Vec<TaskDraft>, id: &String) -> (r: Option<usize>)
    ensures
        match r {
            Some(j) => j < drafts@.len() && drafts@[j as int].id@ == id@,
            None => forall|j: int| 0 <= j < drafts@.len() ==> #[trigger] drafts@[j].id@ != id@,
        },
{
    let mut j: usize = 0;
    while j < drafts.len()
        invariant
            0 <= j <= drafts@.len(),
            forall|m: int| 0 <= m < j ==> #[trigger] drafts@[m].id@ != id@,
        decreases drafts@.len() - j,
    {
        if drafts[j].id == *id {
            return Some(j);
        }
        j = j + 1;
    }
    None
}

/// Whether every draft that draft `i` depends on is marked.
fn dependencies_marked(drafts: &Vec<TaskDraft>, i: usize, marked: &Vec<bool>) -> (r: bool)
    requires
        i < drafts@.len(),
        marked@.len() == drafts@.len(),
        ids_unique(drafts@),
        dependencies_resolve(drafts@),
    ensures
        r == forall|j: int| #[trigger] depends_on(drafts@, i as int, j) ==> marked@[j],
{
    let deps = &drafts[i].dependencies;
    let ghost dv = deps@.map_values(|s: String| s@);
    let mut k: usize = 0;
    while k < deps.len()
        invariant
            i < drafts@.len(),
            deps == drafts@[i as int].dependencies,
            dv == deps@.map_values(|s: String| s@),
            marked@.len() == drafts@.len(),
            ids_unique(drafts@),
            dependencies_resolve(drafts@),
            0 <= k <= deps@.len(),
            forall|j: int| 0 <= j < drafts@.len() && dv.take(k as int).contains(drafts@[j].id@) ==> marked@[j],
        decreases deps@.len() - k,
    {
        let found = draft_index(drafts, &deps[k]);
        match found {
            Some(j) => {
                if !marked[j] {
                    assert(dv[k as int] == drafts@[j as int].id@);
                    assert(depends_on(drafts@, i as int, j as int));
                    return false;
                }
                proof {
                    assert forall|m: int|
                        0 <= m < drafts@.len() && dv.take(k as int + 1).contains(drafts@[m].id@) implies marked@[m] by {
                        let p = choose|p: int| 0 <= p < k + 1 && #[trigger] dv.take(k as int + 1)[p] == drafts@[m].id@;
                        if p < k {
                            assert(dv.take(k as int)[p] == drafts@[m].id@);
                        } else {
                            if m != j {
                                assert(drafts@[m].id@ == drafts@[j as int].id@);
                                if m < j {
                                    assert(drafts@[m].id@ != drafts@[j as int].id@);
                                } else {
                                    assert(drafts@[j as int].id@ != drafts@[m].id@);
                                }
                            }
                        }
                    }
                }
            },
            None => {
                proof {
                    assert(dependencies_resolve(drafts@));
                    let x = deps@[k as int]@;
                    assert(crate::session::has_draft_id(drafts@, x));
                }
            },
        }
        k = k + 1;
    }
    proof {
        assert(dv.take(deps@.len() as int) =~= dv);
    }
    true
}

/// No draft that is not marked can have all of its dependencies marked.
pub open spec fn is_stuck(d: Seq<TaskDraft>, marked: Seq<bool>) -> bool {
    forall|i: int|
        0 <= i < d.len() && !marked[i] ==> exists|j: int| #[trigger] depends_on(d, i, j) && !marked[j]
}

/// Marked drafts come after their dependencies in `rank`, and only marked ones depend on marked ones.
pub open spec fn marking_ranked(d: Seq<TaskDraft>, marked: Seq<bool>, rank: Seq<nat>) -> bool {
    &&& marked.len() == d.len()
    &&& rank.len() == d.len()
    &&& forall|i: int, j: int| #[trigger] depends_on(d, i, j) && marked[i] ==> marked[j] && rank[j] < rank[i]
}

/// How many entries are marked.
pub open spec fn count_marked(s: Seq<bool>) -> nat
    decreases s.len(),
{
    if s.len() == 0 {
        0
    } else {
        count_marked(s.drop_last()) + if s.last() {
            1nat
        } else {
            0nat
        }
    }
}

/// At most every entry is marked.
proof fn lemma_count_bound(s: Seq<bool>)
    ensures
        count_marked(s) <= s.len(),
    decreases s.len(),
{
    if s.len() > 0 {
        lemma_count_bound(s.drop_last());
    }
}

/// Marking an unmarked entry adds one.
proof fn lemma_count_mark(s: Seq<bool>, i: int)
    requires
        0 <= i < s.len(),
        !s[i],
    ensures
        count_marked(s.update(i, true)) == count_marked(s) + 1,
    decreases s.len(),
{
    let u = s.update(i, true);
    if i == s.len() - 1 {
        assert(u.drop_last() =~= s.drop_last());
    } else {
        assert(u.drop_last() =~= s.drop_last().update(i, true));
        lemma_count_mark(s.drop_last(), i);
    }
}

/// Nothing is marked yet.
proof fn lemma_count_none(s: Seq<bool>)
    requires
        forall|m: int| 0 <= m < s.len() ==> !#[trigger] s[m],
    ensures
        count_marked(s) == 0,
    decreases s.len(),
{
    if s.len() > 0 {
        lemma_count_none(s.drop_last());
    }
}

/// In a stuck marking, every draft of a topologically ranked graph is marked.
proof fn lemma_stuck_marks_all(d: Seq<TaskDraft>, marked: Seq<bool>, rank: spec_fn(int) -> nat, v: nat)
    requires
        marked.len() == d.len(),
        is_stuck(d, marked),
        is_topological_rank(d, rank),
    ensures
        forall|i: int| 0 <= i < d.len() && rank(i) <= v ==> marked[i],
    decreases v,
{
    if v > 0 {
        lemma_stuck_marks_all(d, marked, rank, (v - 1) as nat);
    }
    assert forall|i: int| 0 <= i < d.len() && rank(i) <= v implies marked[i] by {
        if !marked[i] {
            let j = choose|j: int| #[trigger] depends_on(d, i, j) && !marked[j];
            assert(rank(j) < rank(i));
        }
    }
}

/// Draft `i` belongs to a set of drafts each of which depends on another
/// member of the set: its dependencies can be followed without end, so in a
/// finite batch it depends, directly or through others, on a cycle.
pub open spec fn leads_to_cycle(d: Seq<TaskDraft>, i: int) -> bool {
    exists|s: Seq<bool>| s.len() == d.len() && s[i] && #[trigger] closed_under_dependency(d, s)
}

/// Every draft that `s` marks depends on some draft that `s` marks.
pub open spec fn closed_under_dependency(d: Seq<TaskDraft>, s: Seq<bool>) -> bool {
    forall|m: int| 0 <= m < d.len() && s[m] ==> #[trigger] depends_on_member(d, s, m)
}

/// Draft `m` depends on some draft that `s` marks.
pub open spec fn depends_on_member(d: Seq<TaskDraft>, s: Seq<bool>, m: int) -> bool {
    exists|j: int| #[trigger] depends_on(d, m, j) && s[j]
}

/// In a stuck marking, every unmarked draft leads into a cycle.
proof fn lemma_stuck_leads_to_cycle(d: Seq<TaskDraft>, marked: Seq<bool>, i: int)
    requires
        marked.len() == d.len(),
        is_stuck(d, marked),
        0 <= i < d.len(),
        !marked[i],
    ensures
        leads_to_cycle(d, i),
{
    let open = Seq::new(d.len(), |m: int| !marked[m]);
    assert forall|m: int| 0 <= m < d.len() && open[m] implies #[trigger] depends_on_member(d, open, m) by {
        let j = choose|j: int| #[trigger] depends_on(d, m, j) && !marked[j];
        assert(open[j]);
    }
    assert(closed_under_dependency(d, open));
    assert(open[i]);
}

/// The first draft that lies on or behind a dependency cycle, or `None`
/// when the graph is acyclic.
pub fn find_cycle(drafts: &Vec<TaskDraft>) -> (r: Option<usize>)
    requires
        ids_unique(drafts@),
        dependencies_resolve(drafts@),
    ensures
        r is None <==> is_acyclic(drafts@),
        r matches Some(i) ==> i < drafts@.len() && leads_to_cycle(drafts@, i as int),
{
    let n = drafts.len();
    let mut marked: Vec<bool> = Vec::new();
    let mut k: usize = 0;
    while k < n
        invariant
            n == drafts@.len(),
            0 <= k <= n,
            marked@.len() == k,
            forall|m: int| 0 <= m < k ==> !#[trigger] marked@[m],
        decreases n - k,
    {
        marked.push(false);
        k = k + 1;
    }
    let ghost mut rank: Seq<nat> = Seq::new(n as nat, |m: int| 0nat);
    let mut count: usize = 0;
    let ghost mut pass: nat = 1;
    proof {
        lemma_count_none(marked@);
    }
    loop
        invariant
            n == drafts@.len(),
            ids_unique(drafts@),
            dependencies_resolve(drafts@),
            marking_ranked(drafts@, marked@, rank),
            count <= n,
            count == count_marked(marked@),
            pass >= 1,
            pass <= count + 1,
            forall|m: int| 0 <= m < n && marked@[m] ==> rank[m] < pass,
        ensures
            marking_ranked(drafts@, marked@, rank),
            is_stuck(drafts@, marked@),
        decreases n - count,
    {
        let snapshot = marked.clone();
        assert(snapshot@ =~= marked@);
        let mut changed = false;
        let ghost start_count = count;
        let mut i: usize = 0;
        while i < n
            invariant
                n == drafts@.len(),
                ids_unique(drafts@),
                dependencies_resolve(drafts@),
                snapshot@.len() == n,
                marking_ranked(drafts@, marked@, rank),
                marking_ranked(drafts@, snapshot@, rank),
                forall|m: int| 0 <= m < n && snapshot@[m] ==> marked@[m],
                forall|m: int| 0 <= m < n && snapshot@[m] ==> rank[m] < pass,
                forall|m: int| 0 <= m < n && marked@[m] ==> rank[m] <= pass,
                forall|m: int| 0 <= m < n && marked@[m] && !snapshot@[m] ==> rank[m] == pass,
                count <= n,
                count == count_marked(marked@),
                marked@.len() == n,
                changed ==> count > start_count,
                !changed ==> marked@ == snapshot@ && count == start_count,
                0 <= i <= n,
                forall|m: int| 0 <= m < i && !snapshot@[m] && marked@[m] == false ==> exists|j: int| #[trigger] depends_on(drafts@, m, j) && !snapshot@[j],
                pass <= start_count + 1,
                start_count <= count,
            decreases n - i,
        {
            if !marked[i] && dependencies_marked(drafts, i, &snapshot) {
                proof {
                    lemma_count_mark(marked@, i as int);
                    lemma_count_bound(marked@.update(i as int, true));
                }
                marked.set(i, true);
                proof {
                    rank = rank.update(i as int, pass);
                    assert forall|a: int, b: int| #[trigger] depends_on(drafts@, a, b) && marked@[a] implies marked@[b] && rank[b] < rank[a] by {
                        if a == i {
                            assert(snapshot@[b]);
                        }
                    }
                }
                count = count + 1;
                changed = true;
            }
            i = i + 1;
        }
        if !changed {
            break;
        }
        proof {
            pass = pass + 1;
        }
    }
    let mut i: usize = 0;
    while i < n
        invariant
            n == drafts@.len(),
            0 <= i <= n,
            marked@.len() == n,
            is_stuck(drafts@, marked@),
            marking_ranked(drafts@, marked@, rank),
            forall|m: int| 0 <= m < i ==> #[trigger] marked@[m],
        decreases n - i,
    {
        if !marked[i] {
            proof {
                if is_acyclic(drafts@) {
                    let r = choose|r: spec_fn(int) -> nat| is_topological_rank(drafts@, r);
                    lemma_stuck_marks_all(drafts@, marked@, r, r(i as int));
                }
                lemma_stuck_leads_to_cycle(drafts@, marked@, i as int);
            }
            return Some(i);
        }
        i = i + 1;
    }
    proof {
        let r = |m: int| rank[m];
        assert forall|a: int, b: int| #[trigger] depends_on(drafts@, a, b) implies r(b) < r(a) by {
            assert(marked@[a]);
        }
        assert(is_topological_rank(drafts@, r));
    }
    None
}

} // verus!
