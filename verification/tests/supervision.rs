use rtp_fec_audio::assembly::receiver_plan;
use rtp_fec_audio::error::PipelineError;
use rtp_fec_audio::names::ElementId;
use rtp_fec_audio::plan::{Plan, Step};
use rtp_fec_audio::run::Outcome;
use rtp_fec_audio::supervisor::{bus_error, BusMessage, Command, Event, Lifecycle, Phase, Supervisor};

fn two_steps() -> Plan {
    let mut plan = Plan::new();
    plan.push(Step::Make { element: ElementId::Session, named: false });
    plan.push(Step::Add { element: ElementId::Session });
    plan
}

fn playing() -> Supervisor {
    let (mut supervisor, _) = Supervisor::new(two_steps());
    supervisor.step(Event::Performed(Outcome::Done));
    supervisor.step(Event::Performed(Outcome::Done));
    supervisor.step(Event::StateChange { accepted: true });
    supervisor
}

fn pipeline_now(current: Lifecycle) -> Event {
    Event::Message(BusMessage::StateChanged { from_pipeline: true, current })
}

#[test]
fn assembly_comes_first() {
    let (mut supervisor, commands) = Supervisor::new(two_steps());
    assert_eq!(commands, vec![Command::Perform(Step::Make { element: ElementId::Session, named: false })]);
    assert_eq!(supervisor.phase(), Phase::Assembling);
    assert_eq!(supervisor.requested(), Lifecycle::Null);
    let commands = supervisor.step(Event::Performed(Outcome::Done));
    assert_eq!(commands, vec![Command::Perform(Step::Add { element: ElementId::Session })]);
    assert_eq!(supervisor.phase(), Phase::Assembling);
}

#[test]
fn playing_is_asked_for_when_the_last_step_is_done() {
    let (mut supervisor, _) = Supervisor::new(two_steps());
    supervisor.step(Event::Performed(Outcome::Done));
    let commands = supervisor.step(Event::Performed(Outcome::Done));
    assert_eq!(commands, vec![Command::RequestState(Lifecycle::Playing)]);
    assert_eq!(supervisor.phase(), Phase::Starting);
    assert_eq!(supervisor.requested(), Lifecycle::Playing);
    assert_eq!(supervisor.confirmed(), Lifecycle::Null);
}

#[test]
fn an_empty_plan_plays_at_once() {
    let (supervisor, commands) = Supervisor::new(Plan::new());
    assert_eq!(commands, vec![Command::RequestState(Lifecycle::Playing)]);
    assert_eq!(supervisor.phase(), Phase::Starting);
}

#[test]
fn a_failed_step_ends_the_startup_before_playing() {
    let plan = receiver_plan(5000, 50);
    let total = plan.len();
    for failing in 0..total {
        let (mut supervisor, mut commands) = Supervisor::new(receiver_plan(5000, 50));
        let mut issued = Vec::new();
        issued.extend(commands.clone());
        for _ in 0..failing {
            commands = supervisor.step(Event::Performed(Outcome::Done));
            issued.extend(commands.clone());
        }
        commands = supervisor.step(Event::Performed(Outcome::Refused(String::from("no"))));
        issued.extend(commands.clone());
        assert_eq!(commands, vec![Command::Exit]);
        assert_eq!(supervisor.phase(), Phase::Finished);
        assert_eq!(supervisor.requested(), Lifecycle::Null);
        assert!(!issued.contains(&Command::RequestState(Lifecycle::Playing)));
        assert_eq!(issued.len(), failing + 2);
        assert_eq!(supervisor.step(Event::Performed(Outcome::Done)), Vec::<Command>::new());
        assert_eq!(supervisor.step(Event::StateChange { accepted: true }), Vec::<Command>::new());
        assert_eq!(supervisor.into_result(), Some(Err(PipelineError::Framework(String::from("no")))));
    }
}

#[test]
fn a_whole_receiver_is_assembled_before_it_plays() {
    let plan = receiver_plan(5000, 50);
    let steps = plan.steps();
    let (mut supervisor, mut commands) = Supervisor::new(plan);
    for (index, step) in steps.iter().enumerate() {
        assert_eq!(commands, vec![Command::Perform(*step)]);
        assert_eq!(supervisor.phase(), Phase::Assembling);
        commands = supervisor.step(Event::Performed(Outcome::Done));
        if index + 1 < steps.len() {
            assert_ne!(commands, vec![Command::RequestState(Lifecycle::Playing)]);
        }
    }
    assert_eq!(commands, vec![Command::RequestState(Lifecycle::Playing)]);
}

#[test]
fn a_missing_element_ends_the_startup_with_its_name() {
    let (mut supervisor, _) = Supervisor::new(two_steps());
    let commands = supervisor.step(Event::Performed(Outcome::Missing));
    assert_eq!(commands, vec![Command::Exit]);
    assert_eq!(supervisor.into_result(), Some(Err(PipelineError::MissingElement(String::from("rtpbin")))));
}

#[test]
fn when_playing_is_accepted_the_bus_is_followed() {
    let (mut supervisor, _) = Supervisor::new(two_steps());
    supervisor.step(Event::Performed(Outcome::Done));
    supervisor.step(Event::Performed(Outcome::Done));
    let commands = supervisor.step(Event::StateChange { accepted: true });
    assert_eq!(commands, vec![Command::StartPollers, Command::NextMessage]);
    assert_eq!(supervisor.phase(), Phase::Running);
    assert_eq!(supervisor.confirmed(), Lifecycle::Null);
}

#[test]
fn when_playing_is_refused_all_is_given_up() {
    let (mut supervisor, _) = Supervisor::new(two_steps());
    supervisor.step(Event::Performed(Outcome::Done));
    supervisor.step(Event::Performed(Outcome::Done));
    let commands = supervisor.step(Event::StateChange { accepted: false });
    assert_eq!(commands, vec![Command::Abort(Lifecycle::Playing)]);
    assert_eq!(supervisor.phase(), Phase::Aborted);
    assert_eq!(supervisor.step(Event::Message(BusMessage::Eos)), Vec::<Command>::new());
    assert_eq!(supervisor.into_result(), None);
}

#[test]
fn the_end_of_the_stream_ends_the_run_well() {
    let mut supervisor = playing();
    let commands = supervisor.step(Event::Message(BusMessage::Eos));
    assert_eq!(commands, vec![Command::LogEndOfStream, Command::RequestState(Lifecycle::Null)]);
    assert_eq!(supervisor.phase(), Phase::Stopping);
    assert_eq!(supervisor.requested(), Lifecycle::Null);
    assert_eq!(supervisor.step(Event::StateChange { accepted: true }), vec![Command::StopPollers]);
    assert_eq!(supervisor.phase(), Phase::Joining);
    assert_eq!(supervisor.step(Event::PollersJoined), vec![Command::Exit]);
    assert_eq!(supervisor.phase(), Phase::Finished);
    assert_eq!(supervisor.into_result(), Some(Ok(())));
}

#[test]
fn an_error_on_the_bus_is_fatal() {
    let mut supervisor = playing();
    let commands = supervisor.step(Event::Message(BusMessage::Error {
        src: Some(String::from("/GstPipeline:pipeline0/GstJackAudioSink:jackaudiosink0")),
        error: String::from("Jack server not found"),
        debug: Some(String::from("gstjackaudiosink.c(1)")),
    }));
    assert_eq!(commands, vec![Command::RequestState(Lifecycle::Null)]);
    assert_eq!(supervisor.step(Event::StateChange { accepted: true }), vec![Command::StopPollers]);
    assert_eq!(supervisor.step(Event::PollersJoined), vec![Command::Exit]);
    let error = supervisor.into_result().unwrap().unwrap_err();
    assert_eq!(
        error,
        PipelineError::ErrorMessage {
            src: String::from("/GstPipeline:pipeline0/GstJackAudioSink:jackaudiosink0"),
            error: String::from("Jack server not found"),
            debug: Some(String::from("gstjackaudiosink.c(1)")),
        }
    );
    assert_eq!(
        error.message(),
        "Received error from /GstPipeline:pipeline0/GstJackAudioSink:jackaudiosink0: Jack server not found (debug: Some(\"gstjackaudiosink.c(1)\"))"
    );
}

#[test]
fn an_error_without_source_comes_from_none() {
    let error = bus_error(None, String::from("failed"), None);
    assert_eq!(
        error,
        PipelineError::ErrorMessage { src: String::from("None"), error: String::from("failed"), debug: None }
    );
    assert_eq!(error.message(), "Received error from None: failed (debug: None)");
}

#[test]
fn playing_is_announced_once() {
    let mut supervisor = playing();
    assert_eq!(supervisor.step(pipeline_now(Lifecycle::Ready)), vec![Command::NextMessage]);
    assert_eq!(supervisor.confirmed(), Lifecycle::Ready);
    assert_eq!(supervisor.step(pipeline_now(Lifecycle::Paused)), vec![Command::NextMessage]);
    assert_eq!(supervisor.step(pipeline_now(Lifecycle::Playing)), vec![Command::AnnouncePlaying, Command::NextMessage]);
    assert_eq!(supervisor.confirmed(), Lifecycle::Playing);
    assert_eq!(supervisor.step(pipeline_now(Lifecycle::Paused)), vec![Command::NextMessage]);
    assert_eq!(supervisor.confirmed(), Lifecycle::Paused);
    assert_eq!(supervisor.step(pipeline_now(Lifecycle::Playing)), vec![Command::NextMessage]);
    assert_eq!(supervisor.phase(), Phase::Running);
}

#[test]
fn the_state_of_a_child_confirms_nothing() {
    let mut supervisor = playing();
    let child = Event::Message(BusMessage::StateChanged { from_pipeline: false, current: Lifecycle::Playing });
    assert_eq!(supervisor.step(child), vec![Command::NextMessage]);
    assert_eq!(supervisor.confirmed(), Lifecycle::Null);
    assert_eq!(supervisor.requested(), Lifecycle::Playing);
}

#[test]
fn other_messages_are_passed_over() {
    let mut supervisor = playing();
    for _ in 0..3 {
        assert_eq!(supervisor.step(Event::Message(BusMessage::Other)), vec![Command::NextMessage]);
        assert_eq!(supervisor.phase(), Phase::Running);
    }
}

#[test]
fn a_closed_bus_ends_the_run_well() {
    let mut supervisor = playing();
    assert_eq!(supervisor.step(Event::BusClosed), vec![Command::RequestState(Lifecycle::Null)]);
    supervisor.step(Event::StateChange { accepted: true });
    supervisor.step(Event::PollersJoined);
    assert_eq!(supervisor.into_result(), Some(Ok(())));
}

#[test]
fn when_null_is_refused_all_is_given_up() {
    let mut supervisor = playing();
    supervisor.step(Event::Message(BusMessage::Eos));
    assert_eq!(supervisor.step(Event::StateChange { accepted: false }), vec![Command::Abort(Lifecycle::Null)]);
    assert_eq!(supervisor.phase(), Phase::Aborted);
    assert_eq!(supervisor.step(Event::PollersJoined), Vec::<Command>::new());
}

#[test]
fn events_out_of_turn_change_nothing() {
    let (mut supervisor, _) = Supervisor::new(two_steps());
    for event in [
        Event::StateChange { accepted: true },
        Event::Message(BusMessage::Eos),
        Event::BusClosed,
        Event::PollersJoined,
    ] {
        assert_eq!(supervisor.step(event), Vec::<Command>::new());
        assert_eq!(supervisor.phase(), Phase::Assembling);
        assert_eq!(supervisor.requested(), Lifecycle::Null);
    }
    let mut supervisor = playing();
    for event in [Event::Performed(Outcome::Done), Event::StateChange { accepted: false }, Event::PollersJoined] {
        assert_eq!(supervisor.step(event), Vec::<Command>::new());
        assert_eq!(supervisor.phase(), Phase::Running);
    }
}

#[test]
fn there_is_no_result_before_the_end() {
    let (supervisor, _) = Supervisor::new(two_steps());
    assert_eq!(supervisor.into_result(), None);
    assert_eq!(playing().into_result(), None);
    let mut supervisor = playing();
    supervisor.step(Event::Message(BusMessage::Eos));
    assert_eq!(supervisor.clone().into_result(), None);
    supervisor.step(Event::StateChange { accepted: true });
    assert_eq!(supervisor.into_result(), None);
}
