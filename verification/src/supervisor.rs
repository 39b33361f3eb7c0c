//! The supervisor: it takes a pipeline from nothing through assembly to
//! playing, follows the message bus until the stream ends or a fatal error
//! arrives, and takes the pipeline down again. It decides; the caller
//! performs its commands and reports back what happened.

use crate::error::{optional_view, ErrorView, PipelineError};
use crate::plan::{Plan, Step};
use crate::run::{lemma_complete_means_all_done, Outcome, OutcomeView, Run, RunView};
use vstd::prelude::*;

verus! {

/// The states of a pipeline's life.
#[derive(Clone, Copy, Debug, PartialEq, Eq, Structural)]
pub enum Lifecycle {
    Null,
    Ready,
    Paused,
    Playing,
}

/// Where the supervisor stands.
#[derive(Clone, Copy, Debug, PartialEq, Eq, Structural)]
pub enum Phase {
    /// The steps of the plan are being performed.
    Assembling,
    /// Playing has been asked for; the framework's answer is awaited.
    Starting,
    /// The message bus is being followed.
    Running,
    /// Null has been asked for; the framework's answer is awaited.
    Stopping,
    /// The statistics pollers have been told to end and are awaited.
    Joining,
    /// All is over, and the result can be taken.
    Finished,
    /// The framework refused a state change, which nothing can mend.
    Aborted,
}

/// What the supervisor asks the caller to do.
#[derive(Clone, Copy, Debug, PartialEq, Eq, Structural)]
pub enum Command {
    /// Perform this step of the plan and report its outcome.
    Perform(Step),
    /// Ask the framework to take the pipeline to this state and report
    /// whether it accepted.
    RequestState(Lifecycle),
    /// Start the statistics pollers.
    StartPollers,
    /// Wait for the next message on the bus and report it.
    NextMessage,
    /// The pipeline itself has reached Playing: say so, for once.
    AnnouncePlaying,
    /// Say that the stream has ended.
    LogEndOfStream,
    /// Tell the statistics pollers to end, wait for them and report.
    StopPollers,
    /// Return to the caller with the supervisor's result.
    Exit,
    /// Give up: the framework refused to take the pipeline to this state.
    Abort(Lifecycle),
}

/// A message from the bus, as far as the supervisor reads it.
#[derive(Clone, Debug, PartialEq, Eq)]
pub enum BusMessage {
    /// The stream has ended.
    Eos,
    /// An element failed for good. `src` is the path of the element, if the
    /// message names one.
    Error { src: Option<String>, error: String, debug: Option<String> },
    /// An element, or the pipeline itself, has changed its state.
    StateChanged { from_pipeline: bool, current: Lifecycle },
    /// Anything else.
    Other,
}

/// What happened since the last command.
#[derive(Clone, Debug, PartialEq, Eq)]
pub enum Event {
    /// The step that was to be performed went like this.
    Performed(Outcome),
    /// The framework answered a request for a state change.
    StateChange { accepted: bool },
    /// A message came from the bus.
    Message(BusMessage),
    /// The bus has no more messages to give.
    BusClosed,
    /// The statistics pollers have ended.
    PollersJoined,
}

/// What a `BusMessage` says, with every text as a sequence of characters.
pub enum BusMessageView {
    Eos,
    Error { src: Option<Seq<char>>, error: Seq<char>, debug: Option<Seq<char>> },
    StateChanged { from_pipeline: bool, current: Lifecycle },
    Other,
}

/// What an `Event` says, with every text as a sequence of characters.
pub enum EventView {
    Performed(OutcomeView),
    StateChange { accepted: bool },
    Message(BusMessageView),
    BusClosed,
    PollersJoined,
}

impl View for BusMessage {
    type V = BusMessageView;

    open spec fn view(&self) -> BusMessageView {
        match *self {
            BusMessage::Eos => BusMessageView::Eos,
            BusMessage::Error { src, error, debug } => BusMessageView::Error {
                src: src.deep_view(),
                error: error@,
                debug: debug.deep_view(),
            },
            BusMessage::StateChanged { from_pipeline, current } => BusMessageView::StateChanged {
                from_pipeline,
                current,
            },
            BusMessage::Other => BusMessageView::Other,
        }
    }
}

impl View for Event {
    type V = EventView;

    open spec fn view(&self) -> EventView {
        match *self {
            Event::Performed(outcome) => EventView::Performed(outcome@),
            Event::StateChange { accepted } => EventView::StateChange { accepted },
            Event::Message(message) => EventView::Message(message@),
            Event::BusClosed => EventView::BusClosed,
            Event::PollersJoined => EventView::PollersJoined,
        }
    }
}

/// The fatal error that an error message from the bus amounts to. A
/// message that names no element is reported as coming from `None`.
pub open spec fn bus_failure(
    src: Option<Seq<char>>,
    error: Seq<char>,
    debug: Option<Seq<char>>,
) -> ErrorView {
    ErrorView::ErrorMessage {
        src: match src {
            Some(path) => path,
            None => "None"@,
        },
        error,
        debug,
    }
}

/// The fatal error that an error message from the bus amounts to.
pub fn bus_error(src: Option<String>, error: String, debug: Option<String>) -> (failure:
    PipelineError)
    ensures
        failure@ == bus_failure(src.deep_view(), error@, debug.deep_view()),
{
    let src = match src {
        Some(path) => path,
        None => String::from_str("None"),
    };
    PipelineError::ErrorMessage { src, error, debug }
}

/// The supervisor of one pipeline.
#[derive(Clone, Debug)]
pub struct Supervisor {
    run: Run,
    phase: Phase,
    requested: Lifecycle,
    confirmed: Lifecycle,
    announced: bool,
    failure: Option<PipelineError>,
}

/// What a `Supervisor` says.
pub struct SupervisorView {
    /// How far the assembly has come.
    pub run: RunView,
    pub phase: Phase,
    /// The state last asked of the framework.
    pub requested: Lifecycle,
    /// The state that the bus last reported of the pipeline itself.
    pub confirmed: Lifecycle,
    /// Whether it has been said that the pipeline plays.
    pub announced: bool,
    /// The fatal error that came from the bus, if one did.
    pub failure: Option<ErrorView>,
}

impl SupervisorView {
    /// The supervisor of a pipeline of which nothing has been built.
    pub open spec fn initial(steps: Seq<Step>) -> SupervisorView {
        SupervisorView {
            run: RunView::fresh(steps),
            phase: Phase::Assembling,
            requested: Lifecycle::Null,
            confirmed: Lifecycle::Null,
            announced: false,
            failure: None,
        }
    }

    /// What to do when the assembly stands at `run`: report its failure,
    /// ask for Playing once every step has been performed, and else perform
    /// the next step.
    pub open spec fn proceed(self, run: RunView) -> (SupervisorView, Seq<Command>) {
        if run.failure is Some {
            (SupervisorView { run, phase: Phase::Finished, ..self }, seq![Command::Exit])
        } else if run.complete() {
            (
                SupervisorView {
                    run,
                    phase: Phase::Starting,
                    requested: Lifecycle::Playing,
                    ..self
                },
                seq![Command::RequestState(Lifecycle::Playing)],
            )
        } else {
            (SupervisorView { run, ..self }, seq![Command::Perform(run.pending().unwrap())])
        }
    }

    /// The supervisor at the start, and its first commands.
    pub open spec fn begin(steps: Seq<Step>) -> (SupervisorView, Seq<Command>) {
        Self::initial(steps).proceed(RunView::fresh(steps))
    }

    /// Leaving the bus: ask for Null, with the failure to report, if any.
    pub open spec fn wind_down(self, failure: Option<ErrorView>, commands: Seq<Command>) -> (
        SupervisorView,
        Seq<Command>,
    ) {
        (
            SupervisorView {
                phase: Phase::Stopping,
                requested: Lifecycle::Null,
                failure,
                ..self
            },
            commands.push(Command::RequestState(Lifecycle::Null)),
        )
    }

    /// What a message from the bus leads to while the pipeline runs.
    pub open spec fn on_message(self, message: BusMessageView) -> (SupervisorView, Seq<Command>) {
        match message {
            BusMessageView::Eos => self.wind_down(None, seq![Command::LogEndOfStream]),
            BusMessageView::Error { src, error, debug } => self.wind_down(
                Some(bus_failure(src, error, debug)),
                Seq::<Command>::empty(),
            ),
            BusMessageView::StateChanged { from_pipeline, current } => {
                if !from_pipeline {
                    (self, seq![Command::NextMessage])
                } else if current == Lifecycle::Playing && !self.announced {
                    (
                        SupervisorView { confirmed: current, announced: true, ..self },
                        seq![Command::AnnouncePlaying, Command::NextMessage],
                    )
                } else {
                    (SupervisorView { confirmed: current, ..self }, seq![Command::NextMessage])
                }
            },
            BusMessageView::Other => (self, seq![Command::NextMessage]),
        }
    }

    /// The supervisor after an event, and what it commands. An event that
    /// the current phase does not wait for changes nothing and commands
    /// nothing.
    pub open spec fn step(self, event: EventView) -> (SupervisorView, Seq<Command>) {
        match (self.phase, event) {
            (Phase::Assembling, EventView::Performed(outcome)) => self.proceed(
                self.run.record(outcome),
            ),
            (Phase::Starting, EventView::StateChange { accepted }) => if accepted {
                (
                    SupervisorView { phase: Phase::Running, ..self },
                    seq![Command::StartPollers, Command::NextMessage],
                )
            } else {
                (
                    SupervisorView { phase: Phase::Aborted, ..self },
                    seq![Command::Abort(Lifecycle::Playing)],
                )
            },
            (Phase::Running, EventView::Message(message)) => self.on_message(message),
            (Phase::Running, EventView::BusClosed) => self.wind_down(
                None,
                Seq::<Command>::empty(),
            ),
            (Phase::Stopping, EventView::StateChange { accepted }) => if accepted {
                (SupervisorView { phase: Phase::Joining, ..self }, seq![Command::StopPollers])
            } else {
                (
                    SupervisorView { phase: Phase::Aborted, ..self },
                    seq![Command::Abort(Lifecycle::Null)],
                )
            },
            (Phase::Joining, EventView::PollersJoined) => (
                SupervisorView { phase: Phase::Finished, ..self },
                seq![Command::Exit],
            ),
            _ => (self, Seq::<Command>::empty()),
        }
    }

    /// What holds of every supervisor, whatever has happened: the pipeline
    /// is only ever asked to play, only ever runs and is only ever taken to
    /// have left Null once every step of its plan has been performed; a
    /// failed assembly ends the run with nothing asked of the pipeline; and
    /// what was last asked of the pipeline goes with the phase.
    pub open spec fn inv(self) -> bool {
        &&& self.run.done <= self.run.steps.len()
        &&& (self.phase is Starting || self.phase is Running || self.phase is Stopping
            || self.phase is Joining || self.phase is Aborted || self.requested
            != Lifecycle::Null) ==> self.run.complete()
        &&& self.phase is Assembling ==> self.requested == Lifecycle::Null && self.failure is None
            && self.run.failure is None
        &&& (self.phase is Starting || self.phase is Running) ==> self.requested
            == Lifecycle::Playing && self.failure is None
        &&& (self.phase is Stopping || self.phase is Joining) ==> self.requested == Lifecycle::Null
        &&& (self.announced || self.confirmed != Lifecycle::Null) ==> self.run.complete()
        &&& self.run.failure is Some ==> self.phase is Finished && self.requested
            == Lifecycle::Null
        &&& self.phase is Finished ==> self.run.complete() || self.run.failure is Some
    }

    /// The supervisor after a series of events.
    pub open spec fn after(self, events: Seq<EventView>) -> SupervisorView
        decreases events.len(),
    {
        if events.len() == 0 {
            self
        } else {
            self.after(events.drop_last()).step(events.last()).0
        }
    }

    /// The result, once all is over: the failure that stopped the assembly
    /// or came from the bus, if there is one, else success.
    pub open spec fn result(self) -> Option<Result<(), ErrorView>> {
        if self.phase is Finished {
            match (self.run.failure, self.failure) {
                (Some(failure), _) => Some(Err(failure)),
                (None, Some(failure)) => Some(Err(failure)),
                (None, None) => Some(Ok(())),
            }
        } else {
            None
        }
    }
}

impl View for Supervisor {
    type V = SupervisorView;

    closed spec fn view(&self) -> SupervisorView {
        SupervisorView {
            run: self.run@,
            phase: self.phase,
            requested: self.requested,
            confirmed: self.confirmed,
            announced: self.announced,
            failure: optional_view(self.failure),
        }
    }
}

impl Supervisor {
    /// Whether the plan that the supervisor builds after is well formed.
    pub closed spec fn plan_wf(&self) -> bool {
        self.run.wf()
    }

    /// Whether the supervisor is in order: what holds of every supervisor
    /// holds of it.
    pub open spec fn wf(&self) -> bool {
        &&& self.plan_wf()
        &&& self@.inv()
    }

    /// What to do when the assembly stands where it stands.
    fn proceed(&mut self) -> (commands: Vec<Command>)
        requires
            old(self).plan_wf(),
        ensures
            final(self).plan_wf(),
            (final(self)@, commands@) == old(self)@.proceed(old(self)@.run),
    {
        let mut commands: Vec<Command> = Vec::new();
        if self.run.has_failed() {
            self.phase = Phase::Finished;
            commands.push(Command::Exit);
            proof {
                assert(commands@ =~= seq![Command::Exit]);
            }
            commands
        } else if self.run.is_complete() {
            self.phase = Phase::Starting;
            self.requested = Lifecycle::Playing;
            commands.push(Command::RequestState(Lifecycle::Playing));
            proof {
                assert(commands@ =~= seq![Command::RequestState(Lifecycle::Playing)]);
            }
            commands
        } else {
            match self.run.pending() {
                Some(step) => {
                    commands.push(Command::Perform(step));
                    proof {
                        assert(commands@ =~= seq![Command::Perform(step)]);
                    }
                },
                None => {},
            }
            commands
        }
    }

    /// Takes charge of a pipeline that is to be built after `plan`, and
    /// gives the first commands.
    pub fn new(plan: Plan) -> (started: (Supervisor, Vec<Command>))
        requires
            plan.wf(),
        ensures
            started.0.wf(),
            (started.0@, started.1@) == SupervisorView::begin(plan@),
    {
        let mut supervisor = Supervisor {
            run: Run::start(plan),
            phase: Phase::Assembling,
            requested: Lifecycle::Null,
            confirmed: Lifecycle::Null,
            announced: false,
            failure: None,
        };
        let commands = supervisor.proceed();
        proof {
            lemma_begin_inv(plan@);
        }
        (supervisor, commands)
    }

    /// Takes note of an event and says what to do next.
    pub fn step(&mut self, event: Event) -> (commands: Vec<Command>)
        requires
            old(self).wf(),
        ensures
            final(self).wf(),
            (final(self)@, commands@) == old(self)@.step(event@),
    {
        let mut commands: Vec<Command> = Vec::new();
        proof {
            lemma_step_preserves_inv(self@, event@);
        }
        match (self.phase, event) {
            (Phase::Assembling, Event::Performed(outcome)) => {
                self.run.record(outcome);
                self.proceed()
            },
            (Phase::Starting, Event::StateChange { accepted }) => {
                if accepted {
                    self.phase = Phase::Running;
                    commands.push(Command::StartPollers);
                    commands.push(Command::NextMessage);
                    proof {
                        assert(commands@ =~= seq![Command::StartPollers, Command::NextMessage]);
                    }
                } else {
                    self.phase = Phase::Aborted;
                    commands.push(Command::Abort(Lifecycle::Playing));
                    proof {
                        assert(commands@ =~= seq![Command::Abort(Lifecycle::Playing)]);
                    }
                }
                commands
            },
            (Phase::Running, Event::Message(message)) => {
                match message {
                    BusMessage::Eos => {
                        self.phase = Phase::Stopping;
                        self.requested = Lifecycle::Null;
                        self.failure = None;
                        commands.push(Command::LogEndOfStream);
                        commands.push(Command::RequestState(Lifecycle::Null));
                    },
                    BusMessage::Error { src, error, debug } => {
                        self.phase = Phase::Stopping;
                        self.requested = Lifecycle::Null;
                        self.failure = Some(bus_error(src, error, debug));
                        commands.push(Command::RequestState(Lifecycle::Null));
                    },
                    BusMessage::StateChanged { from_pipeline, current } => {
                        if from_pipeline {
                            self.confirmed = current;
                            if current == Lifecycle::Playing && !self.announced {
                                self.announced = true;
                                commands.push(Command::AnnouncePlaying);
                            }
                        }
                        commands.push(Command::NextMessage);
                    },
                    BusMessage::Other => {
                        commands.push(Command::NextMessage);
                    },
                }
                proof {
                    assert(commands@ =~= old(self)@.step(event@).1);
                }
                commands
            },
            (Phase::Running, Event::BusClosed) => {
                self.phase = Phase::Stopping;
                self.requested = Lifecycle::Null;
                self.failure = None;
                commands.push(Command::RequestState(Lifecycle::Null));
                proof {
                    assert(commands@ =~= seq![Command::RequestState(Lifecycle::Null)]);
                }
                commands
            },
            (Phase::Stopping, Event::StateChange { accepted }) => {
                if accepted {
                    self.phase = Phase::Joining;
                    commands.push(Command::StopPollers);
                    proof {
                        assert(commands@ =~= seq![Command::StopPollers]);
                    }
                } else {
                    self.phase = Phase::Aborted;
                    commands.push(Command::Abort(Lifecycle::Null));
                    proof {
                        assert(commands@ =~= seq![Command::Abort(Lifecycle::Null)]);
                    }
                }
                commands
            },
            (Phase::Joining, Event::PollersJoined) => {
                self.phase = Phase::Finished;
                commands.push(Command::Exit);
                proof {
                    assert(commands@ =~= seq![Command::Exit]);
                }
                commands
            },
            _ => commands,
        }
    }

    /// Where the supervisor stands.
    pub fn phase(&self) -> (phase: Phase)
        ensures
            phase == self@.phase,
    {
        self.phase
    }

    /// The state last asked of the framework.
    pub fn requested(&self) -> (state: Lifecycle)
        ensures
            state == self@.requested,
    {
        self.requested
    }

    /// The state that the bus last reported of the pipeline itself.
    pub fn confirmed(&self) -> (state: Lifecycle)
        ensures
            state == self@.confirmed,
    {
        self.confirmed
    }

    /// Ends the supervision and hands out its result: none unless all is
    /// over, else the failure if there is one, else success.
    pub fn into_result(self) -> (result: Option<Result<(), PipelineError>>)
        ensures
            match self@.result() {
                None => result is None,
                Some(Ok(_)) => result == Some(Ok::<(), PipelineError>(())),
                Some(Err(failure)) => result matches Some(Err(e)) && e@ == failure,
            },
    {
        match self.phase {
            Phase::Finished => match self.run.into_failure() {
                Some(failure) => Some(Err(failure)),
                None => match self.failure {
                    Some(failure) => Some(Err(failure)),
                    None => Some(Ok(())),
                },
            },
            _ => None,
        }
    }
}

/// What holds of every supervisor holds at the start.
pub proof fn lemma_begin_inv(steps: Seq<Step>)
    ensures
        SupervisorView::begin(steps).0.inv(),
{
}

/// What holds of every supervisor is kept by every event.
pub proof fn lemma_step_preserves_inv(supervisor: SupervisorView, event: EventView)
    requires
        supervisor.inv(),
    ensures
        supervisor.step(event).0.inv(),
{
}

/// What holds of every supervisor holds after any series of events,
/// whatever they are and in whatever order they come.
pub proof fn lemma_reachable_inv(steps: Seq<Step>, events: Seq<EventView>)
    ensures
        SupervisorView::begin(steps).0.after(events).inv(),
    decreases events.len(),
{
    lemma_begin_inv(steps);
    if events.len() > 0 {
        lemma_reachable_inv(steps, events.drop_last());
        lemma_step_preserves_inv(
            SupervisorView::begin(steps).0.after(events.drop_last()),
            events.last(),
        );
    }
}

impl Phase {
    /// How far along a phase is in the life of a supervisor.
    pub open spec fn rank(self) -> nat {
        match self {
            Phase::Assembling => 0,
            Phase::Starting => 1,
            Phase::Running => 2,
            Phase::Stopping => 3,
            Phase::Joining => 4,
            Phase::Finished => 5,
            Phase::Aborted => 5,
        }
    }
}

/// A supervisor only ever moves forward through its phases, so that it
/// assembles once, starts once and stops once; and once it has finished or
/// given up, no event changes it or makes it command anything.
pub proof fn lemma_phases_move_forward(supervisor: SupervisorView, event: EventView)
    ensures
        supervisor.step(event).0.phase.rank() >= supervisor.phase.rank(),
        supervisor.phase is Finished || supervisor.phase is Aborted ==> supervisor.step(event) == (
            supervisor,
            Seq::<Command>::empty(),
        ),
{
}

/// The outcomes of steps among a series of events, in order.
pub open spec fn performed(events: Seq<EventView>) -> Seq<OutcomeView>
    decreases events.len(),
{
    if events.len() == 0 {
        Seq::<OutcomeView>::empty()
    } else {
        match events.last() {
            EventView::Performed(outcome) => performed(events.drop_last()).push(outcome),
            _ => performed(events.drop_last()),
        }
    }
}

/// Whatever else happens, the assembly stands where the outcomes of its
/// steps have brought it: no other event moves it.
pub proof fn lemma_supervised_run(steps: Seq<Step>, events: Seq<EventView>)
    ensures
        SupervisorView::begin(steps).0.after(events).run == RunView::fresh(steps).after(
            performed(events),
        ),
    decreases events.len(),
{
    if events.len() > 0 {
        let earlier = events.drop_last();
        lemma_supervised_run(steps, earlier);
        lemma_reachable_inv(steps, earlier);
        let before = SupervisorView::begin(steps).0.after(earlier);
        match events.last() {
            EventView::Performed(outcome) => {
                assert(performed(events).drop_last() =~= performed(earlier));
                assert(performed(events).last() == outcome);
            },
            _ => {},
        }
    }
}

/// A pipeline is asked to play only when all of it has been built: once
/// Playing has been asked for, every step of the plan has been performed,
/// in the order of the plan, and none of them failed.
pub proof fn lemma_plays_only_fully_assembled(steps: Seq<Step>, events: Seq<EventView>)
    requires
        SupervisorView::begin(steps).0.after(events).requested == Lifecycle::Playing,
    ensures
        performed(events).len() >= steps.len(),
        forall|i: int| 0 <= i < steps.len() ==> #[trigger] performed(events)[i] is Done,
{
    lemma_reachable_inv(steps, events);
    lemma_supervised_run(steps, events);
    lemma_complete_means_all_done(steps, performed(events));
}

/// A startup in which a step fails ends with that failure and never asks
/// for Playing: the pipeline stays at Null, and no event afterwards
/// changes that.
pub proof fn lemma_failed_assembly_never_plays(steps: Seq<Step>, events: Seq<EventView>)
    requires
        SupervisorView::begin(steps).0.after(events).run.failure is Some,
    ensures
        ({
            let supervisor = SupervisorView::begin(steps).0.after(events);
            &&& supervisor.phase is Finished
            &&& supervisor.requested == Lifecycle::Null
            &&& supervisor.confirmed == Lifecycle::Null
            &&& supervisor.result() == Some(
                Err::<(), ErrorView>(supervisor.run.failure->Some_0),
            )
        }),
{
    lemma_reachable_inv(steps, events);
}

/// Playing is asked for at one moment only: when the outcome of the last
/// step of the plan comes in and every step has been performed. A failed
/// step ends the startup with that failure and without the request.
pub proof fn lemma_playing_only_when_assembled(supervisor: SupervisorView, event: EventView)
    requires
        supervisor.inv(),
        supervisor.step(event).1.contains(Command::RequestState(Lifecycle::Playing)),
    ensures
        supervisor.phase is Assembling,
        event is Performed,
        supervisor.step(event).0.run.complete(),
        supervisor.step(event).0.requested == Lifecycle::Playing,
{
    let commands = supervisor.step(event).1;
    let i = choose|i: int|
        0 <= i < commands.len() && commands[i] == Command::RequestState(Lifecycle::Playing);
    assert(commands[i] == Command::RequestState(Lifecycle::Playing));
}

/// At the start, Playing is asked for only if the plan has no steps.
pub proof fn lemma_begin_playing_only_when_empty(steps: Seq<Step>)
    requires
        SupervisorView::begin(steps).1.contains(Command::RequestState(Lifecycle::Playing)),
    ensures
        steps.len() == 0,
{
    let commands = SupervisorView::begin(steps).1;
    let i = choose|i: int|
        0 <= i < commands.len() && commands[i] == Command::RequestState(Lifecycle::Playing);
    assert(commands[i] == Command::RequestState(Lifecycle::Playing));
}

/// A state counts as reached only when the bus has said so of the pipeline
/// itself: nothing else changes what the supervisor takes as confirmed.
pub proof fn lemma_confirmed_by_bus_only(supervisor: SupervisorView, event: EventView)
    requires
        supervisor.step(event).0.confirmed != supervisor.confirmed,
    ensures
        supervisor.phase is Running,
        event matches EventView::Message(
            BusMessageView::StateChanged { from_pipeline, current },
        ) && from_pipeline && supervisor.step(event).0.confirmed == current,
{
}

/// A fatal error from the bus ends the run with that error as its result,
/// once the pipeline is back at Null and the pollers have ended.
pub proof fn lemma_bus_error_is_fatal(
    supervisor: SupervisorView,
    src: Option<Seq<char>>,
    error: Seq<char>,
    debug: Option<Seq<char>>,
)
    requires
        supervisor.inv(),
        supervisor.phase is Running,
    ensures
        ({
            let failed = supervisor.step(
                EventView::Message(BusMessageView::Error { src, error, debug }),
            );
            let stopped = failed.0.step(EventView::StateChange { accepted: true });
            let joined = stopped.0.step(EventView::PollersJoined);
            &&& failed.1 == seq![Command::RequestState(Lifecycle::Null)]
            &&& stopped.1 == seq![Command::StopPollers]
            &&& joined.1 == seq![Command::Exit]
            &&& joined.0.result() == Some(
                Err::<(), ErrorView>(bus_failure(src, error, debug)),
            )
        }),
{
    let failed = supervisor.step(EventView::Message(BusMessageView::Error { src, error, debug }));
    assert(failed.1 =~= seq![Command::RequestState(Lifecycle::Null)]);
}

/// The end of the stream ends the run with success, once the pipeline is
/// back at Null and the pollers have ended.
pub proof fn lemma_end_of_stream_is_success(supervisor: SupervisorView)
    requires
        supervisor.inv(),
        supervisor.phase is Running,
    ensures
        ({
            let ended = supervisor.step(EventView::Message(BusMessageView::Eos));
            let stopped = ended.0.step(EventView::StateChange { accepted: true });
            let joined = stopped.0.step(EventView::PollersJoined);
            &&& ended.1 == seq![Command::LogEndOfStream, Command::RequestState(Lifecycle::Null)]
            &&& joined.1 == seq![Command::Exit]
            &&& joined.0.result() == Some(Ok::<(), ErrorView>(()))
        }),
{
    let ended = supervisor.step(EventView::Message(BusMessageView::Eos));
    assert(ended.1 =~= seq![Command::LogEndOfStream, Command::RequestState(Lifecycle::Null)]);
}

} // verus!
