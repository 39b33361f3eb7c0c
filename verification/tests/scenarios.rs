use rtp_fec_audio::args::{parse_args, Config, Role};
use rtp_fec_audio::assembly::assembly_plan;
use rtp_fec_audio::caps::{caps_for_payload_type, Caps};
use rtp_fec_audio::error::PipelineError;
use rtp_fec_audio::fec::{decoder_plan_for, storage_plan_for};
use rtp_fec_audio::launch::launch;
use rtp_fec_audio::request::{conclude, Reply, Request};
use rtp_fec_audio::names::{ElementId, Pad, Property, Signal};
use rtp_fec_audio::plan::{PadRef, Step, Value};
use rtp_fec_audio::router::Router;
use rtp_fec_audio::run::{Outcome, Run};
use rtp_fec_audio::supervisor::{BusMessage, Command, Event, Lifecycle, Supervisor};
use rtp_fec_audio::wiring::{Connection, Wiring};

fn argv(items: &[&str]) -> Vec<String> {
    items.iter().map(|s| String::from(*s)).collect()
}

fn makes_decoder(step: &Step) -> bool {
    matches!(step, Step::Make { element: ElementId::FecDecoder, .. } | Step::FetchStorage { .. })
}

#[test]
fn a_receiver_without_fec_links_the_media_and_makes_no_decoder() {
    let config = parse_args(Role::Receiver, &argv(&["receiver", "5000", "50", "200"])).unwrap();
    assert_eq!(config, Config::Receiver { port: 5000, latency: 50, storage_window_ns: 200_000_000 });
    let plan = assembly_plan(&config);
    assert_eq!(plan.setting(ElementId::UdpSource, Property::Port), Some(Value::Int(5000)));
    let mut wiring = Wiring::new();
    let mut performed: Vec<Step> = Vec::new();
    let (mut supervisor, mut commands) = Supervisor::new(plan);
    while let Some(Command::Perform(step)) = commands.first().copied() {
        performed.push(step);
        wiring.perform(step);
        commands = supervisor.step(Event::Performed(Outcome::Done));
    }
    assert_eq!(commands, vec![Command::RequestState(Lifecycle::Playing)]);
    assert_eq!(supervisor.step(Event::StateChange { accepted: true }), vec![Command::StartPollers, Command::NextMessage]);
    assert_eq!(
        supervisor.step(Event::Message(BusMessage::StateChanged { from_pipeline: true, current: Lifecycle::Playing })),
        vec![Command::AnnouncePlaying, Command::NextMessage]
    );

    assert_eq!(caps_for_payload_type(96), Some(Caps::Opus));
    let router = Router::for_role(config.role());
    let link = router.connect("recv_rtp_src_0_2890137205_96").ok().unwrap();
    let mut run = Run::start(link);
    while let Some(step) = run.pending() {
        performed.push(step);
        wiring.perform(step);
        run.record(Outcome::Done);
    }
    assert_eq!(conclude(Request::LinkPad, run), Reply { element: None, report: None });
    let media = Connection {
        from: ElementId::Session,
        from_pad: PadRef::Added,
        to: ElementId::OpusDepay,
        to_pad: PadRef::Static(Pad::Sink),
    };
    assert_eq!(wiring.between(ElementId::Session, ElementId::OpusDepay), vec![media]);
    assert!(performed.contains(&Step::Connect { signal: Signal::RequestFecDecoder }));
    assert!(!performed.iter().any(makes_decoder));

    assert_eq!(supervisor.step(Event::Message(BusMessage::Eos)), vec![Command::LogEndOfStream, Command::RequestState(Lifecycle::Null)]);
    assert_eq!(supervisor.step(Event::StateChange { accepted: true }), vec![Command::StopPollers]);
    assert_eq!(supervisor.step(Event::PollersJoined), vec![Command::Exit]);
    assert_eq!(supervisor.into_result(), Some(Ok(())));
}

#[test]
fn a_receiver_with_fec_upstream_hands_over_the_decoder_of_session_0() {
    let config = parse_args(Role::Receiver, &argv(&["receiver", "5000", "50", "200"])).unwrap();
    assert_eq!(caps_for_payload_type(100), Some(Caps::Fec));
    let storage = storage_plan_for(&config).unwrap();
    assert_eq!(storage.setting(ElementId::Storage, Property::SizeTime), Some(Value::ULong(200_000_000)));
    let plan = decoder_plan_for(config.role(), 0).unwrap();
    let mut run = Run::start(plan.clone());
    let mut fetched = Vec::new();
    while let Some(step) = run.pending() {
        if let Step::FetchStorage { session } = step {
            fetched.push(session);
        }
        run.record(Outcome::Done);
    }
    assert_eq!(fetched, vec![0]);
    assert_eq!(conclude(Request::FecDecoder, run), Reply { element: Some(ElementId::FecDecoder), report: None });
    assert_eq!(plan.setting(ElementId::FecDecoder, Property::Pt), Some(Value::UInt(100)));
    assert_eq!(plan.setting(ElementId::FecDecoder, Property::Storage), Some(Value::InternalStorage));
}

#[test]
fn a_malformed_command_line_builds_nothing() {
    for role in [Role::Receiver, Role::BasicReceiver, Role::BaselineTransmitter, Role::Transmitter, Role::TestTransmitter] {
        for line in [argv(&["prog"]), argv(&["prog", "1", "2", "3", "4", "5", "6", "7", "8", "9"])] {
            let mut issued: Vec<Command> = Vec::new();
            match launch(role, &line) {
                Ok(launched) => issued.extend(launched.commands),
                Err(error) => {
                    assert_eq!(error, PipelineError::UsageError { program: String::from("prog"), role });
                },
            }
            assert_eq!(issued, Vec::<Command>::new());
        }
    }
}

#[test]
fn a_transmitter_plays_only_when_all_of_it_is_built() {
    let config = parse_args(Role::Transmitter, &argv(&["tx", "127.0.0.1", "5000", "64000", "20", "20", "40"])).unwrap();
    let plan = assembly_plan(&config);
    let total = plan.len();
    let (mut supervisor, mut commands) = Supervisor::new(plan);
    let mut done = 0;
    while let Some(Command::Perform(_)) = commands.first().copied() {
        assert_eq!(supervisor.requested(), Lifecycle::Null);
        commands = supervisor.step(Event::Performed(Outcome::Done));
        done += 1;
    }
    assert_eq!(done, total);
    assert_eq!(commands, vec![Command::RequestState(Lifecycle::Playing)]);
    assert_eq!(supervisor.requested(), Lifecycle::Playing);
}

#[test]
fn a_command_line_in_order_starts_with_the_first_step() {
    let launched = launch(Role::Receiver, &argv(&["receiver", "5000", "50", "200"])).ok().unwrap();
    assert_eq!(launched.config, Config::Receiver { port: 5000, latency: 50, storage_window_ns: 200_000_000 });
    assert_eq!(
        launched.commands,
        vec![Command::Perform(Step::Make { element: ElementId::UdpSource, named: false })]
    );
    assert_eq!(launched.supervisor.requested(), Lifecycle::Null);
}

#[test]
fn an_argument_out_of_range_builds_nothing() {
    let error = launch(Role::Transmitter, &argv(&["tx", "h", "1", "2", "3", "101", "5"])).err().unwrap();
    assert_eq!(error.message(), "Invalid value 101 for PERCENTAGE");
}
