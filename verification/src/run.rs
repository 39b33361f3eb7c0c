//! Carrying out a plan: the caller performs the steps one by one and
//! reports how each went; the run keeps count, turns what went wrong into
//! a failure, and issues no step after one that failed.

use crate::error::{optional_view, ErrorView, PipelineError};
use crate::names::{ElementId, Pad};
use crate::plan::{well_formed, PadRef, Plan, Step};
use vstd::prelude::*;

verus! {

/// How a step went.
#[derive(Clone, Debug, PartialEq, Eq)]
pub enum Outcome {
    /// It was performed.
    Done,
    /// What it asked for is not there: the framework has no factory of the
    /// element's kind, or the session element no storage for the session.
    Missing,
    /// The pad at one end of a link is absent on its element, whose name
    /// the framework gave.
    NoPad { downstream: bool, element_name: String },
    /// The framework refused, with its own words.
    Refused(String),
}

/// What an `Outcome` says, with every text as a sequence of characters.
pub enum OutcomeView {
    Done,
    Missing,
    NoPad { downstream: bool, element_name: Seq<char> },
    Refused(Seq<char>),
}

impl View for Outcome {
    type V = OutcomeView;

    open spec fn view(&self) -> OutcomeView {
        match *self {
            Outcome::Done => OutcomeView::Done,
            Outcome::Missing => OutcomeView::Missing,
            Outcome::NoPad { downstream, element_name } => OutcomeView::NoPad {
                downstream,
                element_name: element_name@,
            },
            Outcome::Refused(text) => OutcomeView::Refused(text@),
        }
    }
}

/// The element that a step is about; for a link, the upstream one.
pub open spec fn principal(step: Step) -> ElementId {
    match step {
        Step::Make { element, .. } => element,
        Step::Add { element } => element,
        Step::Link { from, .. } => from,
        Step::LinkPads { from, .. } => from,
        Step::Unlink { from, .. } => from,
        Step::Connect { .. } => ElementId::Session,
        Step::SetProperty { element, .. } => element,
        Step::FetchStorage { .. } => ElementId::Session,
    }
}

/// The name of a pad, as far as it is known before the pad appears.
pub open spec fn pad_ref_text(pad: PadRef) -> Seq<char> {
    match pad {
        PadRef::Static(p) => p.name_text(),
        PadRef::Request(p) => p.name_text(),
        PadRef::Added => Seq::<char>::empty(),
    }
}

/// The name of the pad at one end of the link that a step makes or breaks.
pub open spec fn pad_text(step: Step, downstream: bool) -> Seq<char> {
    match step {
        Step::LinkPads { from_pad, to_pad, .. } => if downstream {
            pad_ref_text(to_pad)
        } else {
            pad_ref_text(from_pad)
        },
        _ => if downstream {
            Pad::Sink.name_text()
        } else {
            Pad::Src.name_text()
        },
    }
}

/// The failure that an outcome of a step amounts to; none if the step was
/// performed. A missing factory is reported under the factory's name, a
/// missing storage under the session's number, an absent pad under its
/// name and that of its element, and a refusal in the framework's words.
pub open spec fn failure_of(step: Step, outcome: OutcomeView) -> Option<ErrorView> {
    match outcome {
        OutcomeView::Done => None,
        OutcomeView::Missing => match step {
            Step::FetchStorage { session } => Some(ErrorView::NoStorage(session)),
            _ => Some(ErrorView::MissingElement(principal(step).factory_text())),
        },
        OutcomeView::NoPad { downstream, element_name } => Some(
            ErrorView::NoSuchPad(pad_text(step, downstream), element_name),
        ),
        OutcomeView::Refused(text) => Some(ErrorView::Framework(text)),
    }
}

/// The element that a step is about; for a link, the upstream one.
pub fn principal_of(step: Step) -> (element: ElementId)
    ensures
        element == principal(step),
{
    match step {
        Step::Make { element, .. } => element,
        Step::Add { element } => element,
        Step::Link { from, .. } => from,
        Step::LinkPads { from, .. } => from,
        Step::Unlink { from, .. } => from,
        Step::Connect { .. } => ElementId::Session,
        Step::SetProperty { element, .. } => element,
        Step::FetchStorage { .. } => ElementId::Session,
    }
}

/// The name of the pad at one end of the link that a step makes or breaks.
pub fn pad_name_of(step: Step, downstream: bool) -> (name: String)
    ensures
        name@ == pad_text(step, downstream),
{
    let pad = match step {
        Step::LinkPads { from_pad, to_pad, .. } => if downstream {
            to_pad
        } else {
            from_pad
        },
        _ => if downstream {
            PadRef::Static(Pad::Sink)
        } else {
            PadRef::Static(Pad::Src)
        },
    };
    match pad {
        PadRef::Static(p) => String::from_str(p.name()),
        PadRef::Request(p) => String::from_str(p.name()),
        PadRef::Added => String::new(),
    }
}

/// The failure that an outcome of a step amounts to; none if the step was
/// performed.
pub fn step_failure(step: Step, outcome: Outcome) -> (failure: Option<PipelineError>)
    ensures
        optional_view(failure) == failure_of(step, outcome@),
{
    match outcome {
        Outcome::Done => None,
        Outcome::Missing => match step {
            Step::FetchStorage { session } => Some(PipelineError::NoStorage(session)),
            _ => Some(
                PipelineError::MissingElement(String::from_str(principal_of(step).factory_name())),
            ),
        },
        Outcome::NoPad { downstream, element_name } => Some(
            PipelineError::NoSuchPad(pad_name_of(step, downstream), element_name),
        ),
        Outcome::Refused(text) => Some(PipelineError::Framework(text)),
    }
}

/// How far a plan has been carried out.
#[derive(Clone, Debug)]
pub struct Run {
    plan: Plan,
    done: usize,
    failure: Option<PipelineError>,
}

/// What a `Run` says: the steps, how many of them have been performed, and
/// the failure that stopped it, if one did.
pub struct RunView {
    pub steps: Seq<Step>,
    pub done: nat,
    pub failure: Option<ErrorView>,
}

impl RunView {
    /// The run of `steps` of which nothing has been performed yet.
    pub open spec fn fresh(steps: Seq<Step>) -> RunView {
        RunView { steps, done: 0, failure: None }
    }

    /// The step to perform next: the first that has not been performed,
    /// unless a step has failed or none is left.
    pub open spec fn pending(self) -> Option<Step> {
        if self.failure is None && self.done < self.steps.len() {
            Some(self.steps[self.done as int])
        } else {
            None
        }
    }

    /// Whether every step has been performed.
    pub open spec fn complete(self) -> bool {
        self.failure is None && self.done == self.steps.len()
    }

    /// The run once the outcome of the pending step is known. With no step
    /// pending the outcome tells nothing and the run stays as it is.
    pub open spec fn record(self, outcome: OutcomeView) -> RunView {
        match self.pending() {
            None => self,
            Some(step) => match failure_of(step, outcome) {
                None => RunView { done: self.done + 1, ..self },
                Some(failure) => RunView { failure: Some(failure), ..self },
            },
        }
    }

    /// The run once a series of outcomes is known, each of the step that
    /// was pending when it came.
    pub open spec fn after(self, outcomes: Seq<OutcomeView>) -> RunView
        decreases outcomes.len(),
    {
        if outcomes.len() == 0 {
            self
        } else {
            self.after(outcomes.drop_last()).record(outcomes.last())
        }
    }
}

impl View for Run {
    type V = RunView;

    closed spec fn view(&self) -> RunView {
        RunView { steps: self.plan@, done: self.done as nat, failure: optional_view(self.failure) }
    }
}

impl Run {
    /// Whether the run is in order: its plan is well formed, and it has not
    /// performed more steps than there are.
    pub open spec fn wf(&self) -> bool {
        &&& well_formed(self.given(), self@.steps)
        &&& self@.done <= self@.steps.len()
    }

    /// The elements that the plan takes to be in the pipeline already.
    pub closed spec fn given(&self) -> Set<ElementId> {
        self.plan.given()
    }

    /// Starts carrying out `plan`.
    pub fn start(plan: Plan) -> (run: Run)
        requires
            plan.wf(),
        ensures
            run.wf(),
            run@ == RunView::fresh(plan@),
            run.given() == plan.given(),
    {
        Run { plan, done: 0, failure: None }
    }

    /// The step to perform next, if there is one.
    pub fn pending(&self) -> (step: Option<Step>)
        ensures
            step == self@.pending(),
    {
        match &self.failure {
            Some(_) => None,
            None => self.plan.get(self.done),
        }
    }

    /// Takes note of how the pending step went.
    pub fn record(&mut self, outcome: Outcome)
        requires
            old(self).wf(),
        ensures
            final(self).wf(),
            final(self)@ == old(self)@.record(outcome@),
            final(self).given() == old(self).given(),
    {
        let total = self.plan.len();
        match self.pending() {
            None => {},
            Some(step) => {
                assert(self.done < total);
                match step_failure(step, outcome) {
                    None => {
                        self.done = self.done + 1;
                    },
                    Some(failure) => {
                        self.failure = Some(failure);
                    },
                }
            },
        }
    }

    /// Whether every step has been performed.
    pub fn is_complete(&self) -> (b: bool)
        ensures
            b == self@.complete(),
    {
        match &self.failure {
            Some(_) => false,
            None => self.done == self.plan.len(),
        }
    }

    /// Whether a step has failed.
    pub fn has_failed(&self) -> (b: bool)
        ensures
            b == (self@.failure is Some),
    {
        match &self.failure {
            Some(_) => true,
            None => false,
        }
    }

    /// How many steps have been performed.
    pub fn performed(&self) -> (n: usize)
        ensures
            n == self@.done,
    {
        self.done
    }

    /// Ends the run and hands out the failure that stopped it, if one did.
    pub fn into_failure(self) -> (failure: Option<PipelineError>)
        ensures
            optional_view(failure) == self@.failure,
    {
        self.failure
    }
}

/// A step counts as performed exactly when its outcome says so.
pub proof fn lemma_failure_iff_not_done(step: Step, outcome: OutcomeView)
    ensures
        failure_of(step, outcome) is None <==> outcome is Done,
{
}

/// However the outcomes come in, steps are performed in the order of the
/// plan and none after a failure: the outcomes counted as performed are
/// the leading ones and all say `Done`, and a failed run stopped at the
/// first outcome that does not, with the failure that this outcome gives
/// for the step it belongs to.
pub proof fn lemma_run_in_order(steps: Seq<Step>, outcomes: Seq<OutcomeView>)
    ensures
        ({
            let run = RunView::fresh(steps).after(outcomes);
            &&& run.steps == steps
            &&& run.done <= steps.len()
            &&& run.done <= outcomes.len()
            &&& forall|i: int| 0 <= i < run.done ==> #[trigger] outcomes[i] is Done
            &&& run.failure is Some ==> {
                &&& run.done < steps.len()
                &&& run.done < outcomes.len()
                &&& !(outcomes[run.done as int] is Done)
                &&& run.failure == failure_of(steps[run.done as int], outcomes[run.done as int])
            }
            &&& run.failure is None && run.done < steps.len() ==> run.done == outcomes.len()
        }),
    decreases outcomes.len(),
{
    if outcomes.len() > 0 {
        lemma_run_in_order(steps, outcomes.drop_last());
        let before = RunView::fresh(steps).after(outcomes.drop_last());
        let run = before.record(outcomes.last());
        assert(run == RunView::fresh(steps).after(outcomes));
        assert forall|i: int| 0 <= i < run.done implies #[trigger] outcomes[i] is Done by {
            if i < before.done {
                assert(outcomes.drop_last()[i] is Done);
            }
        }
        if before.failure is Some {
            assert(outcomes.drop_last()[before.done as int] == outcomes[before.done as int]);
        }
    }
}

/// A run is complete only when every step of its plan has been performed:
/// there is then an outcome for each step, in order, and each says `Done`.
pub proof fn lemma_complete_means_all_done(steps: Seq<Step>, outcomes: Seq<OutcomeView>)
    requires
        RunView::fresh(steps).after(outcomes).complete(),
    ensures
        outcomes.len() >= steps.len(),
        forall|i: int| 0 <= i < steps.len() ==> #[trigger] outcomes[i] is Done,
{
    lemma_run_in_order(steps, outcomes);
}

/// A run comes as far as its outcomes say `Done`: while the leading
/// outcomes all say so, as many steps have been performed as there are
/// outcomes, or all of them once there is an outcome for each.
pub proof fn lemma_done_outcomes_advance(steps: Seq<Step>, outcomes: Seq<OutcomeView>)
    requires
        forall|i: int|
            0 <= i < outcomes.len() && i < steps.len() ==> #[trigger] outcomes[i] is Done,
    ensures
        RunView::fresh(steps).after(outcomes).failure is None,
        RunView::fresh(steps).after(outcomes).done == if outcomes.len() <= steps.len() {
            outcomes.len()
        } else {
            steps.len()
        },
    decreases outcomes.len(),
{
    if outcomes.len() > 0 {
        let earlier = outcomes.drop_last();
        assert forall|i: int|
            0 <= i < earlier.len() && i < steps.len() implies #[trigger] earlier[i] is Done by {
            assert(earlier[i] == outcomes[i]);
        }
        lemma_done_outcomes_advance(steps, earlier);
        lemma_run_in_order(steps, earlier);
        if earlier.len() < steps.len() {
            assert(outcomes[earlier.len() as int] is Done);
        }
    }
}

/// Whether there is an outcome for every step, and the outcome of every
/// step says `Done`.
pub open spec fn all_done(steps: Seq<Step>, outcomes: Seq<OutcomeView>) -> bool {
    &&& outcomes.len() >= steps.len()
    &&& forall|i: int| 0 <= i < steps.len() ==> #[trigger] outcomes[i] is Done
}

/// A run is complete exactly when there is an outcome for every step of
/// its plan, in order, and each says `Done`.
pub proof fn lemma_complete_iff_all_done(steps: Seq<Step>, outcomes: Seq<OutcomeView>)
    ensures
        RunView::fresh(steps).after(outcomes).complete() <==> all_done(steps, outcomes),
{
    let run = RunView::fresh(steps).after(outcomes);
    if run.complete() {
        lemma_complete_means_all_done(steps, outcomes);
        assert(all_done(steps, outcomes));
    }
    if all_done(steps, outcomes) {
        lemma_done_outcomes_advance(steps, outcomes);
        lemma_run_in_order(steps, outcomes);
        assert(run.complete());
    }
}

} // verus!
