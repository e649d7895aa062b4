//! State machines that ask for outside work one step at a time.

use vstd::prelude::*;

verus! {

/// Where a computation stands: waiting for an answer, or finished.
#[derive(Debug, PartialEq, Eq)]
pub enum Progress<M, O> {
    /// The machine waits for the answer to its question.
    Pending(M),
    /// The computation has ended.
    Done(O),
}

/// A computation that stops at each piece of outside work.
///
/// A value of the type always has one question open. Its owner does what
/// `ask` says and hands the answer to `resume`.
pub trait Machine: Sized {
    /// What the machine asks for.
    type Ask;
    /// What it is answered.
    type Answer;
    /// What the finished computation yields.
    type Out;

    /// The invariant of the states that can be reached.
    spec fn wf(self) -> bool;

    /// The open question.
    spec fn question(self) -> Self::Ask;

    /// Whether `answer` is of the kind that the open question calls for.
    spec fn accepts(self, answer: Self::Answer) -> bool;

    /// Where the computation stands once the open question is answered.
    spec fn after(self, answer: Self::Answer) -> Progress<Self, Self::Out>;

    /// Every reachable state leads to reachable states only.
    proof fn after_is_wf(self, answer: Self::Answer)
        requires
            self.wf(),
            self.accepts(answer),
        ensures
            self.after(answer) matches Progress::Pending(m) ==> m.wf(),
    ;

    /// Returns the open question.
    fn ask(&self) -> (asked: Self::Ask)
        requires
            self.wf(),
        ensures
            asked == self.question(),
    ;

    /// Goes on with the answer to the open question.
    fn resume(self, answer: Self::Answer) -> (next: Progress<Self, Self::Out>)
        requires
            self.wf(),
            self.accepts(answer),
        ensures
            next == self.after(answer),
    ;
}

/// Whether a computation can be resumed or has ended.
pub open spec fn progress_wf<M: Machine>(p: Progress<M, M::Out>) -> bool {
    p matches Progress::Pending(m) ==> m.wf()
}

/// Where the computation stands after the given answers, in order. Answers
/// that come after the end change nothing.
pub open spec fn run<M: Machine>(p: Progress<M, M::Out>, answers: Seq<M::Answer>) -> Progress<
    M,
    M::Out,
>
    decreases answers.len(),
{
    if answers.len() == 0 {
        p
    } else {
        match run(p, answers.drop_last()) {
            Progress::Pending(m) => m.after(answers.last()),
            Progress::Done(o) => Progress::Done(o),
        }
    }
}

/// Whether each answer was given to an open question of its kind.
pub open spec fn answered<M: Machine>(p: Progress<M, M::Out>, answers: Seq<M::Answer>) -> bool
    decreases answers.len(),
{
    answers.len() > 0 ==> {
        &&& answered(p, answers.drop_last())
        &&& run(p, answers.drop_last()) matches Progress::Pending(m)
        &&& m.accepts(answers.last())
    }
}

/// The questions that were asked, one for each answer.
pub open spec fn asked<M: Machine>(p: Progress<M, M::Out>, answers: Seq<M::Answer>) -> Seq<M::Ask>
    decreases answers.len(),
{
    if answers.len() == 0 {
        Seq::empty()
    } else {
        let before = asked(p, answers.drop_last());
        match run(p, answers.drop_last()) {
            Progress::Pending(m) => before.push(m.question()),
            Progress::Done(_) => before,
        }
    }
}

/// A computation that starts in a reachable state stays in reachable states,
/// and one question is asked for each answer given.
pub proof fn law_runs_stay_reachable<M: Machine>(
    p: Progress<M, M::Out>,
    answers: Seq<M::Answer>,
)
    requires
        progress_wf(p),
        answered(p, answers),
    ensures
        progress_wf(run(p, answers)),
        asked(p, answers).len() == answers.len(),
    decreases answers.len(),
{
    if answers.len() > 0 {
        law_runs_stay_reachable(p, answers.drop_last());
        if let Progress::Pending(m) = run(p, answers.drop_last()) {
            m.after_is_wf(answers.last());
        }
    }
}

/// The question with a number is the one that is open after as many answers,
/// and the answer with that number leads on from there.
pub proof fn law_runs_step_by_step<M: Machine>(
    p: Progress<M, M::Out>,
    answers: Seq<M::Answer>,
    i: int,
)
    requires
        answered(p, answers),
        0 <= i < answers.len(),
    ensures
        answered(p, answers.take(i)),
        asked(p, answers).len() == answers.len(),
        run(p, answers.take(i)) matches Progress::Pending(m) && {
            &&& m.accepts(answers[i])
            &&& asked(p, answers)[i] == m.question()
            &&& run(p, answers.take(i + 1)) == m.after(answers[i])
        },
        answers.take(answers.len() as int) == answers,
    decreases answers.len(),
{
    let before = answers.drop_last();
    assert(answers.take(answers.len() as int) =~= answers);
    if before.len() > 0 {
        law_runs_step_by_step(p, before, if i < before.len() { i } else { 0 });
    }
    let last = run(p, before)->Pending_0;
    assert(asked(p, answers) == asked(p, before).push(last.question()));
    if i < before.len() {
        assert(answers.take(i) =~= before.take(i));
        assert(answers.take(i + 1) =~= before.take(i + 1));
        assert(answers[i] == before[i]);
    } else {
        assert(answers.take(i) =~= before);
        assert(answers.take(i + 1) =~= answers);
    }
}

/// One more answer adds the open question to those that were asked, and leads
/// on from there.
pub proof fn law_one_more_answer<M: Machine>(
    p: Progress<M, M::Out>,
    answers: Seq<M::Answer>,
    answer: M::Answer,
)
    requires
        answered(p, answers),
        run(p, answers) matches Progress::Pending(m) && m.accepts(answer),
    ensures
        answered(p, answers.push(answer)),
        asked(p, answers.push(answer)) == asked(p, answers).push(
            run(p, answers)->Pending_0.question(),
        ),
        run(p, answers.push(answer)) == run(p, answers)->Pending_0.after(answer),
{
    assert(answers.push(answer).drop_last() =~= answers);
}

} // verus!
