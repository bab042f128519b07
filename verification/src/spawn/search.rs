//! Trying candidates in order until one yields a position: the chunks around
//! the climate chunk, the columns of a chunk, and the respawn candidates.

use vstd::prelude::*;
use crate::math::BlockPos;

verus! {

/// No answer so far yielded a position.
pub open spec fn all_none(answers: Seq<Option<BlockPos>>) -> bool {
    forall|i: int| 0 <= i < answers.len() ==> #[trigger] answers[i] is None
}

/// The position found by a run of answers: the last answer, when it is the
/// first that yields one.
pub open spec fn first_found(answers: Seq<Option<BlockPos>>) -> Option<BlockPos> {
    if answers.len() > 0 && answers.last() is Some && all_none(answers.drop_last()) {
        answers.last()
    } else {
        None
    }
}

/// A search through candidates in order, stopping at the first one whose
/// answer is a position.
pub struct FirstFound<T> {
    candidates: Vec<T>,
    tried: usize,
    found: Option<BlockPos>,
    answers: Ghost<Seq<Option<BlockPos>>>,
}

impl<T: Copy> FirstFound<T> {
    /// The candidates, in the order they are tried.
    pub closed spec fn candidates(&self) -> Seq<T> {
        self.candidates@
    }

    /// The answers reported so far; answer `i` is that of candidate `i`.
    pub closed spec fn answers(&self) -> Seq<Option<BlockPos>> {
        self.answers@
    }

    /// The position found so far.
    pub closed spec fn found(&self) -> Option<BlockPos> {
        self.found
    }

    /// The search is consistent: as many answers as candidates tried, all
    /// empty but possibly the last, and the position found is that last one.
    pub closed spec fn wf(&self) -> bool {
        &&& self.answers@.len() == self.tried <= self.candidates@.len()
        &&& match self.found {
            None => all_none(self.answers@),
            Some(p) => self.tried > 0 && self.answers@.last() == Some(p) && all_none(
                self.answers@.drop_last(),
            ),
        }
    }

    /// The search is over: a position was found or every candidate tried.
    pub open spec fn done(&self) -> bool {
        self.found() is Some || self.answers().len() == self.candidates().len()
    }

    /// A search that has tried nothing yet.
    pub fn new(candidates: Vec<T>) -> (s: Self)
        ensures
            s.wf(),
            s.candidates() == candidates@,
            s.answers() == Seq::<Option<BlockPos>>::empty(),
            s.found() is None,
    {
        FirstFound { candidates, tried: 0, found: None, answers: Ghost(Seq::empty()) }
    }

    /// The candidate to try next, none once the search is over.
    pub fn next(&self) -> (c: Option<T>)
        requires
            self.wf(),
        ensures
            self.done() ==> c is None,
            !self.done() ==> c == Some(self.candidates()[self.answers().len() as int]),
    {
        if self.found.is_none() && self.tried < self.candidates.len() {
            Some(self.candidates[self.tried])
        } else {
            None
        }
    }

    /// Records the answer of the candidate just tried.
    pub fn report(&mut self, answer: Option<BlockPos>)
        requires
            old(self).wf(),
            !old(self).done(),
        ensures
            final(self).wf(),
            final(self).candidates() == old(self).candidates(),
            final(self).answers() == old(self).answers().push(answer),
            final(self).found() == answer,
    {
        let ghost old_answers = self.answers@;
        assert(self.tried < self.candidates.len());
        self.tried = self.tried + 1;
        self.found = answer;
        self.answers = Ghost(old_answers.push(answer));
        proof {
            assert(self.answers@.drop_last() =~= old_answers);
        }
    }

    /// The position found: that of the first candidate whose answer is one,
    /// none when no answer so far is.
    pub fn outcome(&self) -> (p: Option<BlockPos>)
        requires
            self.wf(),
        ensures
            p == self.found(),
            p == first_found(self.answers()),
            p is None ==> all_none(self.answers()),
    {
        self.found
    }
}

} // verus!
