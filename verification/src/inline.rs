use vstd::prelude::*;

use crate::ir::{BlockModel, Body, BodyModel, Terminator};
use crate::queries::{CrateInput, CrateModel};

verus! {

// ---------------------------------------------------------------------------
// The call graph
// ---------------------------------------------------------------------------

/// The statically known callees named by a sequence of blocks, in order.
pub open spec fn callees_of_blocks(blocks: Seq<BlockModel>) -> Seq<usize>
    decreases blocks.len(),
{
    if blocks.len() == 0 {
        Seq::empty()
    } else {
        callees_of_blocks(blocks.drop_last()) + (match blocks.last().terminator {
            Terminator::Call { callee: Some(g), .. } => seq![g],
            _ => Seq::empty(),
        })
    }
}

/// The statically known callees of a body.
pub open spec fn callees_of(b: BodyModel) -> Seq<usize> {
    callees_of_blocks(b.blocks)
}

/// Collect the statically known callees of a body.
pub fn collect_callees(b: &Body) -> (r: Vec<usize>)
    ensures
        r@ == callees_of(b@),
{
    let n = b.blocks.len();
    let mut r: Vec<usize> = Vec::new();
    let mut i: usize = 0;
    while i < n
        invariant
            n == b.blocks@.len(),
            i <= n,
            r@ == callees_of_blocks(b@.blocks.take(i as int)),
        decreases n - i,
    {
        proof {
            assert(b@.blocks.take(i + 1 as int).drop_last() =~= b@.blocks.take(i as int));
            assert(b@.blocks.take(i + 1 as int).last() == b@.blocks[i as int]);
        }
        match b.blocks[i].terminator {
            Terminator::Call { callee: Some(g), .. } => {
                r.push(g);
                assert(r@ =~= callees_of_blocks(b@.blocks.take(i + 1 as int)));
            },
            _ => {
                assert(r@ =~= callees_of_blocks(b@.blocks.take(i + 1 as int)));
            },
        }
        i = i + 1;
    }
    assert(b@.blocks.take(n as int) =~= b@.blocks);
    r
}

// ---------------------------------------------------------------------------
// The in-progress marker set
// ---------------------------------------------------------------------------

/// How many keys are not yet marked as in progress.
pub open spec fn count_false(s: Seq<bool>) -> nat
    decreases s.len(),
{
    if s.len() == 0 {
        0
    } else {
        count_false(s.drop_last()) + (if s.last() {
            0nat
        } else {
            1nat
        })
    }
}

pub proof fn lemma_count_false_update(s: Seq<bool>, i: int)
    requires
        0 <= i < s.len(),
        !s[i],
    ensures
        count_false(s.update(i, true)) + 1 == count_false(s),
    decreases s.len(),
{
    if i == s.len() - 1 {
        assert(s.update(i, true).drop_last() =~= s.drop_last());
    } else {
        assert(s.update(i, true).drop_last() =~= s.drop_last().update(i, true));
        lemma_count_false_update(s.drop_last(), i);
    }
}

/// A marker set with nothing in progress.
pub open spec fn all_false_markers(n: nat) -> Seq<bool> {
    Seq::new(n, |i: int| false)
}

pub proof fn lemma_count_all_false(n: nat)
    ensures
        count_false(all_false_markers(n)) == n,
    decreases n,
{
    if n > 0 {
        assert(all_false_markers(n).drop_last() =~= all_false_markers((n - 1) as nat));
        lemma_count_all_false((n - 1) as nat);
    }
}

/// Build a fresh marker set for `n` keys.
pub fn make_markers(n: usize) -> (r: Vec<bool>)
    ensures
        r@ == all_false_markers(n as nat),
{
    let mut r: Vec<bool> = Vec::new();
    let mut i: usize = 0;
    while i < n
        invariant
            i <= n,
            r@ =~= all_false_markers(i as nat),
        decreases n - i,
    {
        r.push(false);
        assert(r@ =~= all_false_markers((i + 1) as nat));
        i = i + 1;
    }
    r
}

// ---------------------------------------------------------------------------
// Inlining legality
// ---------------------------------------------------------------------------

/// The inlining-legality fact of one function, computed against a set of
/// in-progress markers.
///
/// A function's legality demands the legality of each of its statically
/// known callees. On re-entry into a key already being computed — a cyclic
/// cross-function demand — the sub-computation fails locally and
/// conservatively: the function counts as not inlinable, rather than the
/// demand deadlocking.
pub open spec fn inline_legal_spec(cr: CrateModel, f: int, marked: Seq<bool>) -> bool
    decreases count_false(marked), 0int,
    via inline_legal_spec_dec
{
    if !(0 <= f < marked.len()) {
        false
    } else if marked[f] {
        false
    } else if !(marked.len() == cr.fns.len()) {
        false
    } else if !cr.fns[f].inline_candidate {
        false
    } else {
        all_callees_legal(cr, callees_of(cr.fns[f].body), marked.update(f, true))
    }
}

/// Every callee in the list is legal to inline, against the given markers.
pub open spec fn all_callees_legal(cr: CrateModel, cs: Seq<usize>, marked: Seq<bool>) -> bool
    decreases count_false(marked), cs.len() + 1int,
{
    if cs.len() == 0 {
        true
    } else {
        inline_legal_spec(cr, cs.last() as int, marked) && all_callees_legal(
            cr,
            cs.drop_last(),
            marked,
        )
    }
}

#[via_fn]
proof fn inline_legal_spec_dec(cr: CrateModel, f: int, marked: Seq<bool>) {
    if 0 <= f < marked.len() && !marked[f] {
        lemma_count_false_update(marked, f);
    }
}

/// The list form and the pointwise form of callee legality agree.
pub proof fn lemma_all_callees_pointwise(cr: CrateModel, cs: Seq<usize>, marked: Seq<bool>)
    ensures
        all_callees_legal(cr, cs, marked) == (forall|i: int|
            0 <= i < cs.len() ==> inline_legal_spec(cr, (#[trigger] cs[i]) as int, marked)),
    decreases cs.len(),
{
    if cs.len() > 0 {
        lemma_all_callees_pointwise(cr, cs.drop_last(), marked);
        if all_callees_legal(cr, cs, marked) {
            assert forall|i: int| 0 <= i < cs.len() implies inline_legal_spec(
                cr,
                (#[trigger] cs[i]) as int,
                marked,
            ) by {
                if i < cs.len() - 1 {
                    assert(cs.drop_last()[i] == cs[i]);
                    assert(inline_legal_spec(cr, cs.drop_last()[i] as int, marked));
                }
            }
        } else {
            if inline_legal_spec(cr, cs.last() as int, marked) {
                let j = choose|j: int|
                    0 <= j < cs.drop_last().len() && !inline_legal_spec(
                        cr,
                        (#[trigger] cs.drop_last()[j]) as int,
                        marked,
                    );
                assert(cs[j] == cs.drop_last()[j]);
            }
        }
    }
}

/// Two functions whose inlining-legality facts mutually depend — each one's
/// body statically calls the other — both resolve to "not inlinable": the
/// cyclic demand fails conservatively instead of hanging, and the run as a
/// whole completes.
pub proof fn lemma_mutual_dependence_not_inlinable(
    cr: CrateModel,
    f: usize,
    g: usize,
    marked: Seq<bool>,
)
    requires
        marked.len() == cr.fns.len(),
        f < marked.len(),
        g < marked.len(),
        f != g,
        !marked[f as int],
        !marked[g as int],
        callees_of(cr.fns[f as int].body).contains(g),
        callees_of(cr.fns[g as int].body).contains(f),
    ensures
        !inline_legal_spec(cr, f as int, marked),
        !inline_legal_spec(cr, g as int, marked),
{
    lemma_mutual_dependence_one_side(cr, f, g, marked);
    lemma_mutual_dependence_one_side(cr, g, f, marked);
}

proof fn lemma_mutual_dependence_one_side(cr: CrateModel, f: usize, g: usize, marked: Seq<bool>)
    requires
        marked.len() == cr.fns.len(),
        f < marked.len(),
        g < marked.len(),
        f != g,
        !marked[f as int],
        !marked[g as int],
        callees_of(cr.fns[f as int].body).contains(g),
        callees_of(cr.fns[g as int].body).contains(f),
    ensures
        !inline_legal_spec(cr, f as int, marked),
{
    if inline_legal_spec(cr, f as int, marked) {
        let cs_f = callees_of(cr.fns[f as int].body);
        let m1 = marked.update(f as int, true);
        lemma_all_callees_pointwise(cr, cs_f, m1);
        let i = choose|i: int| 0 <= i < cs_f.len() && cs_f[i] == g;
        assert(inline_legal_spec(cr, cs_f[i] as int, m1));
        assert(inline_legal_spec(cr, g as int, m1));
        let cs_g = callees_of(cr.fns[g as int].body);
        let m2 = m1.update(g as int, true);
        lemma_all_callees_pointwise(cr, cs_g, m2);
        let j = choose|j: int| 0 <= j < cs_g.len() && cs_g[j] == f;
        assert(inline_legal_spec(cr, cs_g[j] as int, m2));
        assert(m2[f as int]);
        assert(!inline_legal_spec(cr, f as int, m2));
        assert(false);
    }
}

/// Compute the inlining-legality fact of `f`, marking `f` as in progress
/// while its callees' facts are demanded and restoring the markers before
/// returning. `fuel` bounds the depth of the demand chain; the number of
/// unmarked keys always suffices.
pub fn compute_inline_legal(cr: &CrateInput, f: usize, marked: &mut Vec<bool>, fuel: usize) -> (r:
    bool)
    requires
        old(marked)@.len() == cr@.fns.len(),
        count_false(old(marked)@) <= fuel,
    ensures
        final(marked)@ == old(marked)@,
        r == inline_legal_spec(cr@, f as int, old(marked)@),
    decreases fuel,
{
    let n = marked.len();
    if f >= n {
        return false;
    }
    if marked[f] {
        return false;
    }
    if !cr.fns[f].inline_candidate {
        return false;
    }
    proof {
        lemma_count_false_update(marked@, f as int);
    }
    assert(fuel >= 1);
    marked[f] = true;
    let ghost m1 = marked@;
    let callees = collect_callees(&cr.fns[f].body);
    let ghost cs = callees@;
    proof {
        lemma_all_callees_pointwise(cr@, cs, m1);
    }
    let k = callees.len();
    let mut i: usize = 0;
    while i < k
        invariant
            k == cs.len(),
            cs == callees@,
            cs == callees_of(cr@.fns[f as int].body),
            marked@ == m1,
            m1 == old(marked)@.update(f as int, true),
            old(marked)@.len() == cr@.fns.len(),
            f < old(marked)@.len(),
            !old(marked)@[f as int],
            cr@.fns[f as int].inline_candidate,
            count_false(m1) + 1 <= fuel,
            i <= k,
            forall|p: int|
                0 <= p < i ==> inline_legal_spec(cr@, (#[trigger] cs[p]) as int, m1),
        decreases k - i,
    {
        let callee = callees[i];
        let legal = compute_inline_legal(cr, callee, marked, fuel - 1);
        if !legal {
            assert(!inline_legal_spec(cr@, cs[i as int] as int, m1));
            marked[f] = false;
            assert(marked@ =~= old(marked)@);
            proof {
                lemma_all_callees_pointwise(cr@, cs, m1);
            }
            return false;
        }
        i = i + 1;
    }
    marked[f] = false;
    assert(marked@ =~= old(marked)@);
    proof {
        lemma_all_callees_pointwise(cr@, cs, m1);
    }
    true
}

// ---------------------------------------------------------------------------
// Call-graph reachability
// ---------------------------------------------------------------------------

/// The cycle-safe call-graph query behind inlining decisions: can a call
/// chain starting at `cur`'s callees reach `target`? On re-entry into a
/// function already being explored, the sub-search answers "unreachable from
/// here" conservatively instead of looping.
pub open spec fn reachable_spec(cr: CrateModel, cur: int, target: usize, marked: Seq<bool>) -> bool
    decreases count_false(marked), 0int,
    via reachable_spec_dec
{
    if !(0 <= cur < marked.len()) {
        false
    } else if marked[cur] {
        false
    } else if !(marked.len() == cr.fns.len()) {
        false
    } else {
        let cs = callees_of(cr.fns[cur].body);
        cs.contains(target) || any_callee_reaches(cr, cs, target, marked.update(cur, true))
    }
}

/// Some callee in the list reaches `target`, against the given markers.
pub open spec fn any_callee_reaches(
    cr: CrateModel,
    cs: Seq<usize>,
    target: usize,
    marked: Seq<bool>,
) -> bool
    decreases count_false(marked), cs.len() + 1int,
{
    if cs.len() == 0 {
        false
    } else {
        reachable_spec(cr, cs.last() as int, target, marked) || any_callee_reaches(
            cr,
            cs.drop_last(),
            target,
            marked,
        )
    }
}

#[via_fn]
proof fn reachable_spec_dec(cr: CrateModel, cur: int, target: usize, marked: Seq<bool>) {
    if 0 <= cur < marked.len() && !marked[cur] {
        lemma_count_false_update(marked, cur);
    }
}

/// The list form and the pointwise form of callee reachability agree.
pub proof fn lemma_any_callee_pointwise(
    cr: CrateModel,
    cs: Seq<usize>,
    target: usize,
    marked: Seq<bool>,
)
    ensures
        any_callee_reaches(cr, cs, target, marked) == (exists|i: int|
            0 <= i < cs.len() && reachable_spec(cr, (#[trigger] cs[i]) as int, target, marked)),
    decreases cs.len(),
{
    if cs.len() > 0 {
        lemma_any_callee_pointwise(cr, cs.drop_last(), target, marked);
        if any_callee_reaches(cr, cs, target, marked) {
            if reachable_spec(cr, cs.last() as int, target, marked) {
                assert(reachable_spec(cr, (cs[cs.len() - 1]) as int, target, marked));
            } else {
                let j = choose|j: int|
                    0 <= j < cs.drop_last().len() && reachable_spec(
                        cr,
                        (#[trigger] cs.drop_last()[j]) as int,
                        target,
                        marked,
                    );
                assert(cs[j] == cs.drop_last()[j]);
                assert(reachable_spec(cr, (cs[j]) as int, target, marked));
            }
        } else {
            assert forall|i: int| 0 <= i < cs.len() implies !reachable_spec(
                cr,
                (#[trigger] cs[i]) as int,
                target,
                marked,
            ) by {
                if i < cs.len() - 1 {
                    assert(cs.drop_last()[i] == cs[i]);
                    assert(!reachable_spec(cr, cs.drop_last()[i] as int, target, marked));
                }
            }
        }
    }
}

/// Compute conservative call-graph reachability from `cur` to `target`,
/// marking functions along the current demand chain and restoring the
/// markers before returning.
pub fn compute_reachable(
    cr: &CrateInput,
    cur: usize,
    target: usize,
    marked: &mut Vec<bool>,
    fuel: usize,
) -> (r: bool)
    requires
        old(marked)@.len() == cr@.fns.len(),
        count_false(old(marked)@) <= fuel,
    ensures
        final(marked)@ == old(marked)@,
        r == reachable_spec(cr@, cur as int, target, old(marked)@),
    decreases fuel,
{
    let n = marked.len();
    if cur >= n {
        return false;
    }
    if marked[cur] {
        return false;
    }
    proof {
        lemma_count_false_update(marked@, cur as int);
    }
    assert(fuel >= 1);
    marked[cur] = true;
    let ghost m1 = marked@;
    let callees = collect_callees(&cr.fns[cur].body);
    let ghost cs = callees@;
    let k = callees.len();
    let mut i: usize = 0;
    while i < k
        invariant
            k == cs.len(),
            cs == callees@,
            cs == callees_of(cr@.fns[cur as int].body),
            marked@ == m1,
            m1 == old(marked)@.update(cur as int, true),
            old(marked)@.len() == cr@.fns.len(),
            cur < old(marked)@.len(),
            !old(marked)@[cur as int],
            count_false(m1) + 1 <= fuel,
            i <= k,
            forall|p: int| 0 <= p < i ==> cs[p] != target,
            forall|p: int|
                0 <= p < i ==> !reachable_spec(cr@, (#[trigger] cs[p]) as int, target, m1),
        decreases k - i,
    {
        let callee = callees[i];
        if callee == target {
            marked[cur] = false;
            assert(marked@ =~= old(marked)@);
            assert(cs.contains(target));
            return true;
        }
        let hit = compute_reachable(cr, callee, target, marked, fuel - 1);
        if hit {
            marked[cur] = false;
            assert(marked@ =~= old(marked)@);
            proof {
                lemma_any_callee_pointwise(cr@, cs, target, m1);
            }
            return true;
        }
        i = i + 1;
    }
    marked[cur] = false;
    assert(marked@ =~= old(marked)@);
    proof {
        lemma_any_callee_pointwise(cr@, cs, target, m1);
        if cs.contains(target) {
            let j = choose|j: int| 0 <= j < cs.len() && cs[j] == target;
            assert(false);
        }
    }
    false
}

} // verus!
