//! Collecting the results of concurrent resolutions back into input order,
//! and what the selection of entities guarantees.

use vstd::prelude::*;

use crate::teams::{Team, selected, team_selected};

verus! {

/// The slots after placing each completion `(index, result)` in turn;
/// completions whose index is out of range are ignored, and a slot that no
/// completion reaches holds `None`.
pub open spec fn placed<R>(completions: Seq<(usize, Option<R>)>, n: nat) -> Seq<Option<R>>
    decreases completions.len(),
{
    if completions.len() == 0 {
        Seq::new(n, |i: int| None)
    } else {
        let front = placed(completions.drop_last(), n);
        let last = completions.last();
        if (last.0 as nat) < n {
            front.update(last.0 as int, last.1)
        } else {
            front
        }
    }
}

/// No two completions carry the same index.
pub open spec fn distinct_indices<R>(completions: Seq<(usize, Option<R>)>) -> bool {
    forall|j: int, k: int|
        0 <= j < completions.len() && 0 <= k < completions.len() && j != k
            ==> #[trigger] completions[j].0 != #[trigger] completions[k].0
}

/// Whether some completion carries index `i`.
pub open spec fn has_index<R>(completions: Seq<(usize, Option<R>)>, i: int) -> bool {
    exists|j: int| 0 <= j < completions.len() && completions[j].0 == i
}

/// A position of a completion that carries index `i`.
pub open spec fn position_of<R>(completions: Seq<(usize, Option<R>)>, i: int) -> int {
    choose|j: int| 0 <= j < completions.len() && completions[j].0 == i
}

/// The result that the completions give for index `i`, or `None`.
pub open spec fn result_for<R>(completions: Seq<(usize, Option<R>)>, i: int) -> Option<R> {
    if has_index(completions, i) {
        completions[position_of(completions, i)].1
    } else {
        None
    }
}

/// Puts the results of `n` resolutions, received in completion order as
/// `(input index, result)`, back in input order.
pub fn sequence_results<R>(n: usize, completions: Vec<(usize, Option<R>)>) -> (r: Vec<Option<R>>)
    ensures
        r@ == placed(completions@, n as nat),
{
    let ghost all = completions@;
    let total = completions.len();
    let mut slots: Vec<Option<R>> = Vec::new();
    let mut i: usize = 0;
    while i < n
        invariant
            i <= n,
            slots@ == Seq::new(i as nat, |j: int| None::<R>),
        decreases n - i,
    {
        slots.push(None);
        proof {
            assert(slots@ =~= Seq::new((i + 1) as nat, |j: int| None::<R>));
        }
        i = i + 1;
    }
    proof {
        assert(all.take(0) =~= Seq::<(usize, Option<R>)>::empty());
    }
    let mut rest = completions;
    let mut k: usize = 0;
    while rest.len() > 0
        invariant
            k <= all.len(),
            total == all.len(),
            rest@ == all.skip(k as int),
            slots@ == placed(all.take(k as int), n as nat),
            slots@.len() == n,
        decreases rest@.len(),
    {
        let (index, result) = rest.remove(0);
        proof {
            assert(all.take(k + 1).drop_last() =~= all.take(k as int));
            assert(rest@ =~= all.skip(k + 1));
        }
        if index < n {
            slots.set(index, result);
        }
        k = k + 1;
    }
    proof {
        assert(all.take(k as int) =~= all);
    }
    slots
}

proof fn lemma_placed_len<R>(completions: Seq<(usize, Option<R>)>, n: nat)
    ensures
        placed(completions, n).len() == n,
    decreases completions.len(),
{
    if completions.len() > 0 {
        lemma_placed_len(completions.drop_last(), n);
    }
}

proof fn lemma_placed_at<R>(completions: Seq<(usize, Option<R>)>, n: nat, i: int)
    requires
        distinct_indices(completions),
        0 <= i < n,
    ensures
        placed(completions, n)[i] == result_for(completions, i),
    decreases completions.len(),
{
    if completions.len() > 0 {
        let front = completions.drop_last();
        let last = completions.last();
        let m = completions.len() - 1;
        lemma_placed_len(front, n);
        assert(distinct_indices(front)) by {
            assert forall|j: int, k: int|
                0 <= j < front.len() && 0 <= k < front.len() && j != k implies
                #[trigger] front[j].0 != #[trigger] front[k].0 by {
                assert(front[j] == completions[j] && front[k] == completions[k]);
            }
        }
        lemma_placed_at(front, n, i);
        if last.0 as int == i {
            assert(completions[m].0 == i);
            let c = position_of(completions, i);
            assert(c == m) by {
                if c != m {
                    assert(completions[c].0 != completions[m].0);
                }
            }
        } else {
            if has_index(completions, i) {
                let c = position_of(completions, i);
                assert(c != m);
                assert(front[c].0 == i);
                let d = position_of(front, i);
                assert(d == c) by {
                    if d != c {
                        assert(completions[d].0 != completions[c].0);
                    }
                }
            } else {
                assert forall|j: int| 0 <= j < front.len() implies front[j].0 != i by {
                    assert(front[j] == completions[j]);
                }
            }
        }
    }
}

/// The order in which resolutions complete does not change what is shown:
/// two completion lists that hold the same completions, each with distinct
/// indices, are put back into the same slots.
pub proof fn completion_order_irrelevant<R>(
    a: Seq<(usize, Option<R>)>,
    b: Seq<(usize, Option<R>)>,
    n: nat,
)
    requires
        distinct_indices(a),
        distinct_indices(b),
        a.to_multiset() == b.to_multiset(),
    ensures
        placed(a, n) == placed(b, n),
{
    lemma_placed_len(a, n);
    lemma_placed_len(b, n);
    a.to_multiset_ensures();
    b.to_multiset_ensures();
    assert forall|x: (usize, Option<R>)| a.contains(x) implies b.contains(x) by {
        assert(a.to_multiset().count(x) > 0);
    }
    assert forall|x: (usize, Option<R>)| b.contains(x) implies a.contains(x) by {
        assert(b.to_multiset().count(x) > 0);
    }
    assert forall|i: int| 0 <= i < n implies placed(a, n)[i] == placed(b, n)[i] by {
        lemma_placed_at(a, n, i);
        lemma_placed_at(b, n, i);
        lemma_same_result(a, b, i);
        lemma_same_result(b, a, i);
    }
    assert(placed(a, n) =~= placed(b, n));
}

proof fn lemma_same_result<R>(a: Seq<(usize, Option<R>)>, b: Seq<(usize, Option<R>)>, i: int)
    requires
        distinct_indices(b),
        forall|x: (usize, Option<R>)| a.contains(x) ==> b.contains(x),
    ensures
        has_index(a, i) ==> result_for(a, i) == result_for(b, i),
{
    if has_index(a, i) {
        let c = position_of(a, i);
        let x = a[c];
        assert(a.contains(x));
        assert(b.contains(x));
        let e = choose|k: int| 0 <= k < b.len() && b[k] == x;
        assert(b[e].0 == i);
        let d = position_of(b, i);
        assert(d == e) by {
            if d != e {
                assert(b[d].0 != b[e].0);
            }
        }
        assert(result_for(a, i) == x.1);
        assert(result_for(b, i) == b[d].1);
    }
}

/// Selection drops exactly the entities that fail the predicate: everything
/// kept is selected, everything selected is kept, and the kept entities come
/// in input order, so only selected entities are ever resolved.
pub proof fn selection_keeps_exactly_selected(teams: Seq<Team>, wanted: Option<Seq<char>>)
    ensures
        forall|i: int|
            0 <= i < selected(teams, wanted).len() ==> team_selected(
                #[trigger] selected(teams, wanted)[i],
                wanted,
            ),
        forall|j: int|
            0 <= j < teams.len() && team_selected(teams[j], wanted) ==> selected(
                teams,
                wanted,
            ).contains(#[trigger] teams[j]),
        selected(teams, wanted).len() <= teams.len(),
    decreases teams.len(),
{
    if teams.len() > 0 {
        let front = teams.drop_last();
        selection_keeps_exactly_selected(front, wanted);
        let s = selected(teams, wanted);
        let f = selected(front, wanted);
        assert forall|j: int| 0 <= j < teams.len() && team_selected(teams[j], wanted) implies s.contains(
            #[trigger] teams[j],
        ) by {
            if j < teams.len() - 1 {
                assert(front[j] == teams[j]);
                assert(f.contains(front[j]));
                let k = choose|k: int| 0 <= k < f.len() && f[k] == front[j];
                assert(s[k] == f[k]);
            } else {
                assert(s[s.len() - 1] == teams[j]);
            }
        }
    }
}

}
