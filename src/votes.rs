//! The vote tally: a count per choice, kept in the order of each choice's
//! first vote.
use vstd::prelude::*;

verus! {

/// A tally as a sequence of (choice, count) pairs in order of first vote.
pub type TallyModel = Seq<(Seq<char>, nat)>;

/// Every choice occurs at most once and every listed choice has a vote.
pub open spec fn tally_wf(s: TallyModel) -> bool {
    &&& forall|i: int, j: int|
        0 <= i < s.len() && 0 <= j < s.len() && i != j ==> #[trigger] s[i].0 != #[trigger] s[j].0
    &&& forall|i: int| 0 <= i < s.len() ==> #[trigger] s[i].1 > 0
}

/// Whether `c` has been voted for.
pub open spec fn has_choice(s: TallyModel, c: Seq<char>) -> bool {
    exists|i: int| 0 <= i < s.len() && #[trigger] s[i].0 == c
}

/// The position of `c` in the tally (meaningful when `has_choice(s, c)`).
pub open spec fn position_of(s: TallyModel, c: Seq<char>) -> int {
    choose|i: int| 0 <= i < s.len() && #[trigger] s[i].0 == c
}

/// The number of votes for `c`: zero for a choice nobody voted for.
pub open spec fn count_of(s: TallyModel, c: Seq<char>) -> nat {
    if has_choice(s, c) {
        s[position_of(s, c)].1
    } else {
        0
    }
}

/// The tally after one more vote for `c`: its count grows by one, or it is
/// appended with one vote.
pub open spec fn after_vote(s: TallyModel, c: Seq<char>) -> TallyModel {
    if has_choice(s, c) {
        s.update(position_of(s, c), (c, s[position_of(s, c)].1 + 1))
    } else {
        s.push((c, 1))
    }
}

/// The tally after voting for each choice of `votes` in turn.
pub open spec fn after_votes(s: TallyModel, votes: Seq<Seq<char>>) -> TallyModel
    decreases votes.len(),
{
    if votes.len() == 0 {
        s
    } else {
        after_vote(after_votes(s, votes.drop_last()), votes.last())
    }
}

/// How many entries of `votes` are `c`.
pub open spec fn occurrences(votes: Seq<Seq<char>>, c: Seq<char>) -> nat
    decreases votes.len(),
{
    if votes.len() == 0 {
        0
    } else {
        occurrences(votes.drop_last(), c) + if votes.last() == c {
            1nat
        } else {
            0nat
        }
    }
}

/// One vote keeps the tally well formed, adds one to its own choice and
/// leaves every other count alone.
pub proof fn lemma_after_vote(s: TallyModel, c: Seq<char>, d: Seq<char>)
    requires
        tally_wf(s),
    ensures
        tally_wf(after_vote(s, c)),
        count_of(after_vote(s, c), d) == count_of(s, d) + if c == d {
            1nat
        } else {
            0nat
        },
{
    let t = after_vote(s, c);
    if has_choice(s, c) {
        let p = position_of(s, c);
        assert(0 <= p < s.len() && s[p].0 == c);
        if has_choice(t, d) {
            let q = position_of(t, d);
            assert(t[q].0 == d);
            if q == p {
                assert(c == d);
            } else {
                assert(s[q].0 == d);
                if c == d {
                    assert(false);
                }
                assert(has_choice(s, d));
                assert(position_of(s, d) == q);
            }
        } else {
            assert(c != d) by {
                if c == d {
                    assert(t[p].0 == d);
                }
            }
            if has_choice(s, d) {
                let q = position_of(s, d);
                assert(t[q].0 == d);
            }
        }
    } else {
        let n = s.len() as int;
        if has_choice(t, d) {
            let q = position_of(t, d);
            if q == n {
                assert(c == d);
                if has_choice(s, d) {
                    let r = position_of(s, d);
                    assert(s[r].0 == c);
                }
            } else {
                assert(s[q].0 == d);
                assert(has_choice(s, d));
                assert(c != d);
                assert(position_of(s, d) == q);
            }
        } else {
            assert(t[n].0 == c);
            assert(c != d);
            if has_choice(s, d) {
                let q = position_of(s, d);
                assert(t[q].0 == d);
            }
        }
    }
}

/// Counting law of the tally: starting from no votes, the count of any
/// choice after a sequence of votes is exactly the number of votes cast for
/// it, whatever votes for other choices came in between.
pub proof fn lemma_votes_counted(votes: Seq<Seq<char>>, c: Seq<char>)
    ensures
        tally_wf(after_votes(Seq::empty(), votes)),
        count_of(after_votes(Seq::empty(), votes), c) == occurrences(votes, c),
    decreases votes.len(),
{
    if votes.len() > 0 {
        lemma_votes_counted(votes.drop_last(), c);
        lemma_after_vote(after_votes(Seq::empty(), votes.drop_last()), votes.last(), c);
    } else {
        assert(!has_choice(Seq::<(Seq<char>, nat)>::empty(), c));
    }
}

/// The shared vote tally.
pub struct VoteTally {
    entries: Vec<(String, u32)>,
}

impl View for VoteTally {
    type V = TallyModel;

    closed spec fn view(&self) -> TallyModel {
        Seq::new(self.entries@.len(), |i: int| (self.entries@[i].0@, self.entries@[i].1 as nat))
    }
}

impl VoteTally {
    /// The tally is well formed.
    pub open spec fn wf(&self) -> bool {
        tally_wf(self@)
    }

    /// An empty tally.
    pub fn new() -> (r: Self)
        ensures
            r@ == Seq::<(Seq<char>, nat)>::empty(),
            r.wf(),
    {
        let r = VoteTally { entries: Vec::new() };
        assert(r@ =~= Seq::<(Seq<char>, nat)>::empty());
        r
    }

    /// Where `choice` stands in the tally, if anyone voted for it.
    fn find(&self, choice: &String) -> (r: Option<usize>)
        requires
            self.wf(),
        ensures
            r is None <==> !has_choice(self@, choice@),
            r matches Some(i) ==> i < self@.len() && i == position_of(self@, choice@),
    {
        let mut i: usize = 0;
        while i < self.entries.len()
            invariant
                self.wf(),
                i <= self.entries@.len(),
                forall|j: int| 0 <= j < i ==> #[trigger] self@[j].0 != choice@,
            decreases self.entries@.len() - i,
        {
            if self.entries[i].0 == *choice {
                assert(self@[i as int].0 == choice@);
                assert(has_choice(self@, choice@));
                let ghost p = position_of(self@, choice@);
                assert(self@[p].0 == choice@);
                return Some(i);
            }
            i = i + 1;
        }
        None
    }

    /// The number of votes for `choice` (zero if nobody voted for it).
    pub fn get(&self, choice: &String) -> (r: u32)
        requires
            self.wf(),
        ensures
            r as nat == count_of(self@, choice@),
    {
        match self.find(choice) {
            Some(i) => self.entries[i].1,
            None => 0,
        }
    }

    /// Counts one more vote for `choice` and returns its new count.
    pub fn increment(&mut self, choice: &String) -> (r: u32)
        requires
            old(self).wf(),
            count_of(old(self)@, choice@) < u32::MAX,
        ensures
            final(self).wf(),
            final(self)@ == after_vote(old(self)@, choice@),
            r as nat == count_of(final(self)@, choice@),
    {
        proof {
            lemma_after_vote(self@, choice@, choice@);
        }
        match self.find(choice) {
            Some(i) => {
                let n = self.entries[i].1 + 1;
                self.entries.set(i, (choice.clone(), n));
                assert(self@ =~= after_vote(old(self)@, choice@));
                n
            },
            None => {
                self.entries.push((choice.clone(), 1));
                assert(self@ =~= after_vote(old(self)@, choice@));
                1
            },
        }
    }

    /// Every choice with its count, in order of first vote.
    pub fn list_all(&self) -> (r: Vec<(String, u32)>)
        ensures
            r@.len() == self@.len(),
            forall|i: int|
                0 <= i < r@.len() ==> (#[trigger] r@[i]).0@ == self@[i].0 && r@[i].1 as nat
                    == self@[i].1,
    {
        let mut r: Vec<(String, u32)> = Vec::new();
        let mut i: usize = 0;
        while i < self.entries.len()
            invariant
                i <= self.entries@.len(),
                r@.len() == i,
                forall|j: int|
                    0 <= j < i ==> (#[trigger] r@[j]).0@ == self@[j].0 && r@[j].1 as nat
                        == self@[j].1,
            decreases self.entries@.len() - i,
        {
            let e = &self.entries[i];
            r.push((e.0.clone(), e.1));
            i = i + 1;
        }
        r
    }

    /// Whether nobody has voted yet.
    pub fn is_empty(&self) -> (r: bool)
        ensures
            r <==> self@.len() == 0,
    {
        self.entries.len() == 0
    }
}

} // verus!
