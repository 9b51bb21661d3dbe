//! Running a script against the bus: which signal is due, and what follows from each answer.

use vstd::prelude::*;
use crate::signal::{stage_of, views, BusError, Signal, SignalView};

verus! {

/// A script under way: the signal at `next` is with the host, those before it are done.
#[derive(Debug)]
pub struct Run {
    script: Vec<Signal>,
    next: usize,
}

/// A [`Run`] as a plain value.
pub struct RunView {
    pub script: Seq<SignalView>,
    pub next: usize,
}

/// Where a script stands.
#[derive(Debug)]
pub enum Progress<E> {
    /// A signal is with the host, and the run waits for the answer.
    Pending(Run),
    /// Every signal went out.
    Done,
    /// The bus refused a signal. No signal follows it.
    Failed(BusError<E>),
}

/// A [`Progress`] as a plain value.
pub enum ProgressView<E> {
    Pending(RunView),
    Done,
    Failed(BusError<E>),
}

impl RunView {
    /// A signal of the script is due.
    pub open spec fn wf(self) -> bool {
        self.next < self.script.len()
    }

    /// The signal that is with the host.
    pub open spec fn pending(self) -> SignalView {
        self.script[self.next as int]
    }

    /// What follows from the host's answer to the pending signal. An error stops the run where
    /// the signal can fail. The answer to any other signal counts as success.
    pub open spec fn answered<E>(self, answer: Result<(), E>) -> ProgressView<E> {
        match (stage_of(self.pending()), answer) {
            (Some(stage), Err(cause)) => ProgressView::Failed(
                BusError { stage, at: self.next, cause },
            ),
            _ => if self.next + 1 < self.script.len() {
                ProgressView::Pending(RunView { script: self.script, next: (self.next + 1) as usize })
            } else {
                ProgressView::Done
            },
        }
    }
}

impl View for Run {
    type V = RunView;

    closed spec fn view(&self) -> RunView {
        RunView { script: views(self.script@), next: self.next }
    }
}

impl<E> View for Progress<E> {
    type V = ProgressView<E>;

    open spec fn view(&self) -> ProgressView<E> {
        match *self {
            Progress::Pending(run) => ProgressView::Pending(run@),
            Progress::Done => ProgressView::Done,
            Progress::Failed(error) => ProgressView::Failed(error),
        }
    }
}

/// Where a script stands before any answer: its first signal is due, or it is empty and done.
pub open spec fn start<E>(script: Seq<SignalView>) -> ProgressView<E> {
    if script.len() == 0 {
        ProgressView::Done
    } else {
        ProgressView::Pending(RunView { script, next: 0 })
    }
}

impl Run {
    #[verifier::type_invariant]
    closed spec fn inv(self) -> bool {
        self.next < self.script.len()
    }

    /// Begins a script.
    pub fn start<E>(script: Vec<Signal>) -> (progress: Progress<E>)
        ensures
            progress@ == start::<E>(views(script@)),
    {
        if script.len() == 0 {
            Progress::Done
        } else {
            Progress::Pending(Run { script, next: 0 })
        }
    }

    /// The signal that the host is to perform now.
    pub fn pending(&self) -> (signal: &Signal)
        ensures
            self@.wf(),
            signal@ == self@.pending(),
    {
        proof {
            use_type_invariant(self);
        }
        &self.script[self.next]
    }

    /// Takes the host's answer to the pending signal and says how the run goes on.
    pub fn answered<E>(self, answer: Result<(), E>) -> (progress: Progress<E>)
        ensures
            progress@ == self@.answered(answer),
    {
        proof {
            use_type_invariant(&self);
        }
        let at: usize = self.next;
        let stage = self.script[at].stage();
        match (stage, answer) {
            (Some(stage), Err(cause)) => Progress::Failed(BusError { stage, at, cause }),
            _ => {
                if at + 1 < self.script.len() {
                    Progress::Pending(Run { script: self.script, next: at + 1 })
                } else {
                    Progress::Done
                }
            },
        }
    }
}

/// Whether `answer` to `signal` is a failure of the bus.
pub open spec fn faulty<E>(signal: SignalView, answer: Result<(), E>) -> bool {
    stage_of(signal) is Some && answer is Err
}

/// Whether the bus fails at none of the signals that `answers` reach.
pub open spec fn fault_free<E>(script: Seq<SignalView>, answers: Seq<Result<(), E>>) -> bool {
    forall|i: int|
        0 <= i < script.len() && i < answers.len() ==> !faulty(script[i], #[trigger] answers[i])
}

/// Whether the bus fails at the signal `at`, and at none before it.
pub open spec fn first_fault<E>(
    script: Seq<SignalView>,
    answers: Seq<Result<(), E>>,
    at: int,
) -> bool {
    &&& 0 <= at < script.len()
    &&& at < answers.len()
    &&& faulty(script[at], answers[at])
    &&& forall|i: int| 0 <= i < at ==> !faulty(script[i], #[trigger] answers[i])
}

/// Where a script stands after the host has given `answers`, one for each signal in turn.
/// Answers that come after the end change nothing.
pub open spec fn play<E>(progress: ProgressView<E>, answers: Seq<Result<(), E>>) -> ProgressView<
    E,
>
    decreases answers.len(),
{
    if answers.len() == 0 {
        progress
    } else {
        match progress {
            ProgressView::Pending(run) => play(run.answered(answers[0]), answers.drop_first()),
            _ => progress,
        }
    }
}

impl<E> ProgressView<E> {
    /// The signals of `script` that the host has been handed so far, the pending or the
    /// refused one included.
    pub open spec fn emitted(self, script: Seq<SignalView>) -> Seq<SignalView> {
        match self {
            ProgressView::Pending(run) => script.take(run.next + 1),
            ProgressView::Done => script,
            ProgressView::Failed(error) => script.take(error.at + 1),
        }
    }
}

/// From the signal `k` on, a bus that does not fail lets the script go on to its end.
proof fn lemma_play_clean_from<E>(script: Seq<SignalView>, answers: Seq<Result<(), E>>, k: int)
    requires
        script.len() <= usize::MAX,
        0 <= k < script.len(),
        k <= answers.len(),
        fault_free(script, answers),
    ensures
        play(ProgressView::Pending(RunView { script, next: k as usize }), answers.skip(k))
            == if answers.len() < script.len() {
            ProgressView::<E>::Pending(RunView { script, next: answers.len() as usize })
        } else {
            ProgressView::<E>::Done
        },
    decreases answers.len() - k,
{
    let run = RunView { script, next: k as usize };
    let rest = answers.skip(k);
    if k < answers.len() {
        assert(rest[0] == answers[k]);
        assert(!faulty(script[k], answers[k]));
        assert(rest.drop_first() =~= answers.skip(k + 1));
        if k + 1 < script.len() {
            lemma_play_clean_from(script, answers, k + 1);
        } else {
            assert(run.answered(rest[0]) == ProgressView::<E>::Done);
            assert(play(ProgressView::<E>::Done, rest.drop_first()) == ProgressView::<E>::Done);
        }
    }
}

/// From a signal `k` up to the first failure on, the script runs into that failure.
proof fn lemma_play_fault_from<E>(
    script: Seq<SignalView>,
    answers: Seq<Result<(), E>>,
    at: int,
    k: int,
)
    requires
        script.len() <= usize::MAX,
        first_fault(script, answers, at),
        0 <= k <= at,
    ensures
        play(ProgressView::Pending(RunView { script, next: k as usize }), answers.skip(k))
            == ProgressView::Failed(
            BusError { stage: stage_of(script[at])->0, at: at as usize, cause: answers[at]->Err_0 },
        ),
    decreases at - k,
{
    let run = RunView { script, next: k as usize };
    let rest = answers.skip(k);
    assert(rest[0] == answers[k]);
    assert(rest.drop_first() =~= answers.skip(k + 1));
    if k < at {
        assert(!faulty(script[k], answers[k]));
        lemma_play_fault_from(script, answers, at, k + 1);
    } else {
        let failed = run.answered(rest[0]);
        assert(failed is Failed);
        assert(play(failed, rest.drop_first()) == failed);
    }
}

/// On a bus that fails at none of the signals, a script goes out whole and in order: after
/// `n` answers the signal `n` is due, and after the last answer the script is done.
pub proof fn lemma_play_fault_free<E>(script: Seq<SignalView>, answers: Seq<Result<(), E>>)
    requires
        script.len() <= usize::MAX,
        fault_free(script, answers),
    ensures
        play(start(script), answers) == if answers.len() < script.len() {
            ProgressView::<E>::Pending(RunView { script, next: answers.len() as usize })
        } else {
            ProgressView::<E>::Done
        },
{
    if script.len() > 0 {
        assert(answers.skip(0) =~= answers);
        lemma_play_clean_from(script, answers, 0);
    } else {
        assert(play(ProgressView::<E>::Done, answers) == ProgressView::<E>::Done);
    }
}

/// The first failure of the bus ends the script at once: the run fails with the bus's own
/// error, the stage and the index of the refused signal, and no signal after it goes out.
pub proof fn lemma_play_first_fault<E>(
    script: Seq<SignalView>,
    answers: Seq<Result<(), E>>,
    at: int,
)
    requires
        script.len() <= usize::MAX,
        first_fault(script, answers, at),
    ensures
        play(start(script), answers) == ProgressView::Failed(
            BusError { stage: stage_of(script[at])->0, at: at as usize, cause: answers[at]->Err_0 },
        ),
        play(start(script), answers).emitted(script) == script.take(at + 1),
{
    assert(answers.skip(0) =~= answers);
    lemma_play_fault_from(script, answers, at, 0);
}

} // verus!
