//! Properties of memo tables that relate several operations.
use crate::table::{
    admits, flounder_model, model_wf, pop_model, push_model, push_strand_model,
    take_strands_model, AnswerModel, TableModel,
};
use vstd::prelude::*;

verus! {

/// The table after pushing each answer of `s` in turn, and how many of those
/// pushes added a new answer.
pub open spec fn push_all<S>(m: TableModel<S>, s: Seq<AnswerModel>) -> (TableModel<S>, nat)
    decreases s.len(),
{
    if s.len() == 0 {
        (m, 0)
    } else {
        let (m1, c) = push_all(m, s.drop_last());
        let (m2, added) = push_model(m1, s.last());
        (m2, c + if added { 1nat } else { 0nat })
    }
}

/// The table after enqueueing each strand of `ss` in turn.
pub open spec fn push_strands<S>(m: TableModel<S>, ss: Seq<S>) -> TableModel<S>
    decreases ss.len(),
{
    if ss.len() == 0 {
        m
    } else {
        push_strand_model(push_strands(m, ss.drop_last()), ss.last())
    }
}

/// After any sequence of pushes the next answer index has grown by exactly
/// the number of pushes that returned true.
pub proof fn lemma_index_counts_added<S>(m: TableModel<S>, s: Seq<AnswerModel>)
    ensures
        push_all(m, s).0.answers.len() == m.answers.len() + push_all(m, s).1,
    decreases s.len(),
{
    if s.len() > 0 {
        lemma_index_counts_added(m, s.drop_last());
    }
}

/// Indices are never renumbered: the answers present after the first `k`
/// pushes stand, at the same indices, after all of them.
pub proof fn lemma_answers_only_grow<S>(m: TableModel<S>, s: Seq<AnswerModel>, k: int)
    requires
        0 <= k <= s.len(),
    ensures
        push_all(m, s.subrange(0, k)).0.answers.len() <= push_all(m, s).0.answers.len(),
        push_all(m, s.subrange(0, k)).0.answers == push_all(m, s).0.answers.subrange(
            0,
            push_all(m, s.subrange(0, k)).0.answers.len() as int,
        ),
    decreases s.len(),
{
    let all = push_all(m, s).0.answers;
    if k == s.len() {
        assert(s.subrange(0, k) =~= s);
        assert(all.subrange(0, all.len() as int) =~= all);
    } else {
        lemma_answers_only_grow(m, s.drop_last(), k);
        assert(s.drop_last().subrange(0, k) =~= s.subrange(0, k));
        let prev = push_all(m, s.drop_last()).0.answers;
        let part = push_all(m, s.subrange(0, k)).0.answers;
        assert(all == prev || all == prev.push(s.last()));
        assert(part =~= all.subrange(0, part.len() as int));
    }
}

/// Pushing the same answer twice stores it once: the second push returns
/// false and changes nothing.
pub proof fn lemma_duplicate_suppressed<S>(m: TableModel<S>, a: AnswerModel, b: AnswerModel)
    requires
        model_wf(m),
        admits(m, a),
        b.subst == a.subst,
        b.ambiguous == a.ambiguous,
    ensures
        ({
            let (m1, _) = push_model(m, a);
            let (m2, r2) = push_model(m1, b);
            &&& admits(m1, b)
            &&& !r2
            &&& m2 == m1
            &&& exists|i: int|
                0 <= i < m2.answers.len() && m2.answers[i].subst == a.subst && forall|j: int|
                    0 <= j < m2.answers.len() && #[trigger] m2.answers[j].subst == a.subst
                        ==> j == i
        }),
{
    let m1 = push_model(m, a).0;
    crate::table::lemma_push_keeps_wf(m, a);
    assert(m1.recorded.contains_key(a.subst));
    let i = choose|i: int| 0 <= i < m1.answers.len() && #[trigger] m1.answers[i].subst == a.subst;
    assert forall|j: int|
        0 <= j < m1.answers.len() && #[trigger] m1.answers[j].subst == a.subst implies j == i by {
        if j < i {
            assert(m1.answers[j].subst != m1.answers[i].subst);
        } else if i < j {
            assert(m1.answers[i].subst != m1.answers[j].subst);
        }
    }
    assert(admits(m1, b));
    assert(push_model(m1, b) == (m1, false));
    assert(0 <= i < m1.answers.len() && m1.answers[i].subst == a.subst);
}

/// An unconditional answer whose substitution is already stored as
/// unconditional is neither appended again nor put in place of the stored one.
pub proof fn lemma_no_silent_upgrade<S>(m: TableModel<S>, i: int, a: AnswerModel)
    requires
        model_wf(m),
        0 <= i < m.answers.len(),
        !m.answers[i].ambiguous,
        m.answers[i].subst == a.subst,
        !a.ambiguous,
    ensures
        admits(m, a),
        push_model(m, a) == (m, false),
{
    assert(m.recorded.contains_key(m.answers[i].subst));
}

/// A floundered table holds no answers and no strands, so no strand can be
/// popped from it, whatever the predicate says.
pub proof fn lemma_floundering_clears<S>(m: TableModel<S>, take: bool)
    requires
        model_wf(m),
    ensures
        model_wf(flounder_model(m)),
        flounder_model(m).floundered,
        flounder_model(m).answers.len() == 0,
        pop_model(flounder_model(m), take).1 is None,
{
}

/// Popping looks at the front strand only: with strands a, b, c queued, a
/// test for c finds nothing and leaves the queue alone, and a test for a then
/// takes a and leaves b, c.
pub proof fn lemma_pop_inspects_front_only<S>(m: TableModel<S>, a: S, b: S, c: S)
    requires
        m.strands == seq![a, b, c],
        a != c,
    ensures
        ({
            let (m1, r1) = pop_model(m, m.strands[0] == c);
            let (m2, r2) = pop_model(m1, m1.strands[0] == a);
            &&& r1 is None
            &&& m1 == m
            &&& r2 == Some(a)
            &&& m2.strands == seq![b, c]
        }),
{
    assert(m.strands.drop_first() =~= seq![b, c]);
}

/// Enqueueing strands keeps everything but the queue, and appends them in order.
pub proof fn lemma_push_strands_appends<S>(m: TableModel<S>, ss: Seq<S>)
    ensures
        push_strands(m, ss) == (TableModel { strands: m.strands + ss, ..m }),
    decreases ss.len(),
{
    if ss.len() == 0 {
        assert(m.strands + ss =~= m.strands);
    } else {
        lemma_push_strands_appends(m, ss.drop_last());
        assert(m.strands + ss =~= (m.strands + ss.drop_last()).push(ss.last()));
    }
}

/// Taking the strands after pushing `ss` onto an empty queue returns exactly
/// `ss`, in order, and leaves the queue empty.
pub proof fn lemma_take_strands_drains<S>(m: TableModel<S>, ss: Seq<S>)
    requires
        m.strands.len() == 0,
    ensures
        take_strands_model(push_strands(m, ss)).1 == ss,
        take_strands_model(push_strands(m, ss)).0 == m,
{
    lemma_push_strands_appends(m, ss);
    assert(m.strands + ss =~= ss);
    assert(m.strands =~= Seq::<S>::empty());
}

} // verus!
