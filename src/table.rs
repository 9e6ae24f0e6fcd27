//! The memo table of one goal: its answers in discovery order, the record
//! used to suppress duplicate answers, and the queue of strands that may
//! still produce answers.
use rustc_hash::FxHashMap;
use std::collections::VecDeque;
use vstd::prelude::*;

verus! {

/// A canonical constrained substitution, given as the interned ids of the
/// values bound to the canonical variables, in order. Two substitutions are
/// the same answer exactly when these sequences are equal.
pub type Subst = Vec<u64>;

/// An answer found for a goal: a substitution, and whether it holds only
/// under conditions that are not yet resolved.
#[derive(Clone, Debug, PartialEq, Eq, Hash)]
pub struct Answer {
    pub subst: Subst,
    pub ambiguous: bool,
}

/// The mathematical value of an [`Answer`].
pub struct AnswerModel {
    pub subst: Seq<u64>,
    pub ambiguous: bool,
}

impl View for Answer {
    type V = AnswerModel;

    open spec fn view(&self) -> AnswerModel {
        AnswerModel { subst: self.subst@, ambiguous: self.ambiguous }
    }
}

impl Answer {
    /// An unconditional answer must be true: it carries no ambiguity.
    pub fn is_unconditional(&self) -> (r: bool)
        ensures
            r == !self.ambiguous,
    {
        !self.ambiguous
    }
}

/// The position of an answer in the discovery order of its table.
#[derive(Clone, Copy, Debug, PartialEq, Eq, Hash, PartialOrd, Ord)]
pub struct AnswerIndex {
    pub value: usize,
}

impl AnswerIndex {
    /// The index of the first answer of a table.
    pub fn zero() -> (r: AnswerIndex)
        ensures
            r.value == 0,
    {
        AnswerIndex { value: 0 }
    }
}

/// The duplicate-detection record: for each substitution seen, the ambiguity
/// flag under which it was first recorded.
#[verifier::external_body]
pub struct SubstMap {
    map: FxHashMap<Subst, bool>,
}

/// What a [`SubstMap`] holds.
pub uninterp spec fn subst_map_contents(m: SubstMap) -> Map<Seq<u64>, bool>;

impl SubstMap {
    /// Relies on `FxHashMap::default`: a map with no entries.
    #[verifier::external_body]
    fn new() -> (r: SubstMap)
        ensures
            subst_map_contents(r).dom() == Set::<Seq<u64>>::empty(),
    {
        SubstMap { map: FxHashMap::default() }
    }

    /// Relies on `HashMap::get` under rustc_hash's deterministic `FxHasher`:
    /// the value stored under a key equal to `k`, if any.
    #[verifier::external_body]
    fn get(&self, k: &Subst) -> (r: Option<bool>)
        ensures
            r == (if subst_map_contents(*self).contains_key(k@) {
                Some(subst_map_contents(*self)[k@])
            } else {
                None
            }),
    {
        self.map.get(k).copied()
    }

    /// Relies on `HashMap::insert` under rustc_hash's deterministic `FxHasher`:
    /// afterwards `k` maps to `v` and every other key is unchanged.
    #[verifier::external_body]
    fn insert(&mut self, k: Subst, v: bool)
        ensures
            subst_map_contents(*final(self)) == subst_map_contents(*old(self)).insert(k@, v),
    {
        self.map.insert(k, v);
    }
}

/// The mathematical value of a [`Table`].
pub struct TableModel<S> {
    pub floundered: bool,
    pub answers: Seq<AnswerModel>,
    /// Substitution to the ambiguity flag it was first recorded with.
    pub recorded: Map<Seq<u64>, bool>,
    pub strands: Seq<S>,
}

/// The state of a fresh table.
pub open spec fn empty_model<S>() -> TableModel<S> {
    TableModel {
        floundered: false,
        answers: Seq::empty(),
        recorded: Map::empty(),
        strands: Seq::empty(),
    }
}

/// The invariant of every table: a floundered table holds nothing; an active
/// one holds each recorded substitution exactly once among its answers, with
/// the flag it was recorded under.
pub open spec fn model_wf<S>(m: TableModel<S>) -> bool {
    &&& m.floundered ==> m.answers.len() == 0 && m.strands.len() == 0
    &&& !m.floundered ==> {
        &&& forall|i: int, j: int|
            0 <= i < j < m.answers.len() ==> #[trigger] m.answers[i].subst
                != #[trigger] m.answers[j].subst
        &&& forall|i: int|
            0 <= i < m.answers.len() ==> {
                &&& m.recorded.contains_key(#[trigger] m.answers[i].subst)
                &&& m.recorded[m.answers[i].subst] == m.answers[i].ambiguous
            }
        &&& forall|k: Seq<u64>|
            #[trigger] m.recorded.contains_key(k) ==> exists|i: int|
                0 <= i < m.answers.len() && #[trigger] m.answers[i].subst == k
    }
}

/// Whether `a` may be pushed: the table is active, and `a` does not claim to
/// be unconditional for a substitution first recorded as ambiguous.
pub open spec fn admits<S>(m: TableModel<S>, a: AnswerModel) -> bool {
    &&& !m.floundered
    &&& !(m.recorded.contains_key(a.subst) && m.recorded[a.subst] && !a.ambiguous)
}

/// Pushing an answer: a substitution not recorded yet is recorded and
/// appended; any other answer leaves the table as it is.
pub open spec fn push_model<S>(m: TableModel<S>, a: AnswerModel) -> (TableModel<S>, bool) {
    if m.recorded.contains_key(a.subst) {
        (m, false)
    } else {
        (
            TableModel {
                answers: m.answers.push(a),
                recorded: m.recorded.insert(a.subst, a.ambiguous),
                ..m
            },
            true,
        )
    }
}

/// Floundering: answers and strands are dropped, the record is kept.
pub open spec fn flounder_model<S>(m: TableModel<S>) -> TableModel<S> {
    TableModel { floundered: true, answers: Seq::empty(), strands: Seq::empty(), ..m }
}

/// Enqueueing a strand at the back.
pub open spec fn push_strand_model<S>(m: TableModel<S>, s: S) -> TableModel<S> {
    TableModel { strands: m.strands.push(s), ..m }
}

/// Detaching the whole queue.
pub open spec fn take_strands_model<S>(m: TableModel<S>) -> (TableModel<S>, Seq<S>) {
    (TableModel { strands: Seq::empty(), ..m }, m.strands)
}

/// Popping the front strand when `take` (the predicate's verdict on the front
/// strand) holds; otherwise nothing changes.
pub open spec fn pop_model<S>(m: TableModel<S>, take: bool) -> (TableModel<S>, Option<S>) {
    if m.strands.len() > 0 && take {
        (TableModel { strands: m.strands.drop_first(), ..m }, Some(m.strands[0]))
    } else {
        (m, None)
    }
}

/// The memo table of one goal.
pub struct Table<G, S> {
    table_goal: G,
    coinductive_goal: bool,
    floundered: bool,
    answers: Vec<Answer>,
    answers_hash: SubstMap,
    strands: VecDeque<S>,
}

impl<G, S> View for Table<G, S> {
    type V = TableModel<S>;

    closed spec fn view(&self) -> TableModel<S> {
        TableModel {
            floundered: self.floundered,
            answers: self.answers@.map_values(|a: Answer| a@),
            recorded: subst_map_contents(self.answers_hash),
            strands: self.strands@,
        }
    }
}

impl<G, S> Table<G, S> {
    /// The goal this table answers.
    pub closed spec fn spec_goal(&self) -> G {
        self.table_goal
    }

    /// Whether the goal may assume itself while it is being proved.
    pub closed spec fn spec_coinductive(&self) -> bool {
        self.coinductive_goal
    }

    /// The table invariant, stated over its model.
    pub open spec fn wf(&self) -> bool {
        model_wf(self@)
    }

    /// An empty, active table for `table_goal`.
    pub fn new(table_goal: G, coinductive_goal: bool) -> (r: Table<G, S>)
        ensures
            r.wf(),
            r@ == empty_model::<S>(),
            r.spec_goal() == table_goal,
            r.spec_coinductive() == coinductive_goal,
    {
        let r = Table {
            table_goal,
            coinductive_goal,
            answers: Vec::new(),
            floundered: false,
            answers_hash: SubstMap::new(),
            strands: VecDeque::new(),
        };
        assert(r@.answers =~= Seq::<AnswerModel>::empty());
        assert(r@.recorded =~= Map::<Seq<u64>, bool>::empty());
        assert(r@.strands =~= Seq::<S>::empty());
        r
    }

    pub fn goal(&self) -> (r: &G)
        ensures
            *r == self.spec_goal(),
    {
        &self.table_goal
    }

    pub fn is_coinductive(&self) -> (r: bool)
        ensures
            r == self.spec_coinductive(),
    {
        self.coinductive_goal
    }

    /// Enqueues `strand` at the back of the queue.
    pub fn push_strand(&mut self, strand: S)
        requires
            old(self).wf(),
            !old(self)@.floundered,
        ensures
            final(self).wf(),
            final(self)@ == push_strand_model(old(self)@, strand),
            final(self).spec_goal() == old(self).spec_goal(),
            final(self).spec_coinductive() == old(self).spec_coinductive(),
    {
        self.strands.push_back(strand);
        proof {
            lemma_strands_keep_wf(old(self)@, self@);
        }
    }

    /// Puts `strand` in place of the queued strand at position `i`, and hands
    /// back the one it replaces; the queue keeps its order.
    pub fn replace_strand(&mut self, i: usize, strand: S) -> (r: S)
        requires
            old(self).wf(),
            i < old(self)@.strands.len(),
        ensures
            final(self).wf(),
            r == old(self)@.strands[i as int],
            final(self)@ == (TableModel { strands: old(self)@.strands.update(i as int, strand), ..old(self)@ }),
            final(self).spec_goal() == old(self).spec_goal(),
            final(self).spec_coinductive() == old(self).spec_coinductive(),
    {
        let r = self.strands.remove(i).unwrap();
        self.strands.insert(i, strand);
        assert(self@.strands =~= old(self)@.strands.update(i as int, strand));
        proof {
            lemma_strands_keep_wf(old(self)@, self@);
        }
        r
    }

    /// Detaches the whole queue, leaving the table's queue empty.
    pub fn take_strands(&mut self) -> (r: VecDeque<S>)
        requires
            old(self).wf(),
        ensures
            final(self).wf(),
            (final(self)@, r@) == take_strands_model(old(self)@),
            final(self).spec_goal() == old(self).spec_goal(),
            final(self).spec_coinductive() == old(self).spec_coinductive(),
    {
        let mut r: VecDeque<S> = VecDeque::new();
        std::mem::swap(&mut r, &mut self.strands);
        assert(self@.strands =~= Seq::<S>::empty());
        proof {
            lemma_strands_keep_wf(old(self)@, self@);
        }
        r
    }

    /// Looks at the front strand only: removes and returns it when `test`
    /// holds of it, and otherwise leaves the queue as it was.
    pub fn pop_next_strand_if<F: Fn(&S) -> bool>(&mut self, test: F) -> (r: Option<S>)
        requires
            old(self).wf(),
            forall|s: &S| #[trigger] test.requires((s,)),
        ensures
            final(self).wf(),
            old(self)@.strands.len() == 0 ==> r is None && final(self)@ == old(self)@,
            old(self)@.strands.len() > 0 ==> {
                &&& (final(self)@, r) == pop_model(old(self)@, r is Some)
                &&& test.ensures((&old(self)@.strands[0],), r is Some)
            },
            final(self).spec_goal() == old(self).spec_goal(),
            final(self).spec_coinductive() == old(self).spec_coinductive(),
    {
        let front = self.strands.pop_front();
        match front {
            Some(strand) => {
                if test(&strand) {
                    proof {
                        lemma_strands_keep_wf(old(self)@, self@);
                    }
                    return Some(strand);
                }
                self.strands.push_front(strand);
                assert(self@.strands =~= old(self)@.strands);
                None
            },
            None => None,
        }
    }

    /// Enters the terminal floundered state, dropping every answer and strand.
    pub fn mark_floundered(&mut self)
        requires
            old(self).wf(),
        ensures
            final(self).wf(),
            final(self)@ == flounder_model(old(self)@),
            final(self).spec_goal() == old(self).spec_goal(),
            final(self).spec_coinductive() == old(self).spec_coinductive(),
    {
        self.floundered = true;
        self.strands = VecDeque::new();
        self.answers = Vec::new();
        assert(self@.answers =~= Seq::<AnswerModel>::empty());
        assert(self@.strands =~= Seq::<S>::empty());
    }

    pub fn is_floundered(&self) -> (r: bool)
        ensures
            r == self@.floundered,
    {
        self.floundered
    }

    /// Whether [`Table::push_answer`] accepts `answer` on this table.
    pub fn can_push_answer(&self, answer: &Answer) -> (r: bool)
        ensures
            r == admits(self@, answer@),
    {
        if self.floundered {
            return false;
        }
        match self.answers_hash.get(&answer.subst) {
            Some(was_ambiguous) => !(was_ambiguous && !answer.ambiguous),
            None => true,
        }
    }

    /// Records `answer` unless its substitution is already recorded; returns
    /// whether it was appended as a new answer.
    pub fn push_answer(&mut self, answer: Answer) -> (r: bool)
        requires
            old(self).wf(),
            admits(old(self)@, answer@),
        ensures
            final(self).wf(),
            (final(self)@, r) == push_model(old(self)@, answer@),
            final(self).spec_goal() == old(self).spec_goal(),
            final(self).spec_coinductive() == old(self).spec_coinductive(),
    {
        let ghost m = self@;
        match self.answers_hash.get(&answer.subst) {
            Some(_) => false,
            None => {
                let key = answer.subst.clone();
                assert(key@ =~= answer.subst@);
                self.answers_hash.insert(key, answer.ambiguous);
                let ghost a = answer@;
                self.answers.push(answer);
                assert(self@.answers =~= m.answers.push(a));
                proof {
                    lemma_push_keeps_wf(m, a);
                }
                true
            },
        }
    }

    /// The answer at `index`, if one has been found there.
    pub fn answer(&self, index: AnswerIndex) -> (r: Option<&Answer>)
        ensures
            r is Some <==> index.value < self@.answers.len(),
            r matches Some(a) ==> a@ == self@.answers[index.value as int],
    {
        if index.value < self.answers.len() {
            Some(&self.answers[index.value])
        } else {
            None
        }
    }

    pub fn num_cached_answers(&self) -> (r: usize)
        ensures
            r == self@.answers.len(),
    {
        self.answers.len()
    }

    /// The index that the next new answer will receive.
    pub fn next_answer_index(&self) -> (r: AnswerIndex)
        ensures
            r.value == self@.answers.len(),
    {
        AnswerIndex { value: self.answers.len() }
    }
}

/// The invariant does not depend on which strands an active table holds.
proof fn lemma_strands_keep_wf<S>(m: TableModel<S>, n: TableModel<S>)
    requires
        model_wf(m),
        n.floundered == m.floundered,
        n.answers == m.answers,
        n.recorded == m.recorded,
        n.floundered ==> n.strands.len() == 0,
    ensures
        model_wf(n),
{
}

/// Pushing an admitted answer keeps a table well formed.
pub proof fn lemma_push_keeps_wf<S>(m: TableModel<S>, a: AnswerModel)
    requires
        model_wf(m),
        admits(m, a),
    ensures
        model_wf(push_model(m, a).0),
{
    let n = push_model(m, a).0;
    if !m.recorded.contains_key(a.subst) {
        assert forall|k: Seq<u64>| #[trigger] n.recorded.contains_key(k) implies exists|i: int|
            0 <= i < n.answers.len() && #[trigger] n.answers[i].subst == k by {
            if k == a.subst {
                assert(n.answers[m.answers.len() as int].subst == k);
            } else {
                let i = choose|i: int| 0 <= i < m.answers.len() && #[trigger] m.answers[i].subst == k;
                assert(n.answers[i].subst == k);
            }
        }
        assert forall|i: int, j: int| 0 <= i < j < n.answers.len() implies #[trigger] n.answers[i].subst
            != #[trigger] n.answers[j].subst by {
            if j == m.answers.len() {
                assert(m.recorded.contains_key(m.answers[i].subst));
            } else {
                assert(m.answers[i].subst != m.answers[j].subst);
            }
        }
        assert forall|i: int| 0 <= i < n.answers.len() implies {
            &&& n.recorded.contains_key(#[trigger] n.answers[i].subst)
            &&& n.recorded[n.answers[i].subst] == n.answers[i].ambiguous
        } by {
            if i < m.answers.len() {
                assert(m.recorded.contains_key(m.answers[i].subst));
            }
        }
    }
}

} // verus!
