use rtp_fec_audio::args::{Config, FecParams, Role, Uplink};
use rtp_fec_audio::error::PipelineError;
use rtp_fec_audio::fec::{decoder_plan, decoder_plan_for, encoder_plan, encoder_plan_for, storage_plan, storage_plan_for};
use rtp_fec_audio::request::{conclude, Domain, Reply, Report, Request};
use rtp_fec_audio::names::{ElementId, Property};
use rtp_fec_audio::plan::{Plan, Step, Value};
use rtp_fec_audio::run::{Outcome, Run};

fn carry_out(plan: Plan, outcomes: Vec<Outcome>) -> Run {
    let mut run = Run::start(plan);
    for outcome in outcomes {
        run.record(outcome);
    }
    run
}

#[test]
fn the_encoder_protects_with_payload_type_100() {
    for (percentage, percentage_important) in [(0u32, 0u32), (20, 40), (100, 100), (150, 7), (4294967295, 4294967295)] {
        let plan = encoder_plan(FecParams { percentage, percentage_important }, false, true);
        assert_eq!(plan.setting(ElementId::FecEncoder, Property::Pt), Some(Value::UInt(100)));
    }
}

#[test]
fn the_encoder_gets_the_percentages_as_given() {
    for (percentage, percentage_important) in [(0u32, 0u32), (20, 40), (100, 100), (150, 7), (4294967295, 1)] {
        let plan = encoder_plan(FecParams { percentage, percentage_important }, true, false);
        assert_eq!(plan.setting(ElementId::FecEncoder, Property::Percentage), Some(Value::UInt(percentage)));
        assert_eq!(
            plan.setting(ElementId::FecEncoder, Property::PercentageImportant),
            Some(Value::UInt(percentage_important))
        );
    }
}

#[test]
fn the_encoder_is_made_and_configured_in_order() {
    let plan = encoder_plan(FecParams { percentage: 20, percentage_important: 40 }, false, true);
    let e = ElementId::FecEncoder;
    assert_eq!(
        plan.steps(),
        vec![
            Step::Make { element: e, named: true },
            Step::SetProperty { element: e, property: Property::Pt, value: Value::UInt(100) },
            Step::SetProperty { element: e, property: Property::Multipacket, value: Value::Flag(false) },
            Step::SetProperty { element: e, property: Property::Percentage, value: Value::UInt(20) },
            Step::SetProperty { element: e, property: Property::PercentageImportant, value: Value::UInt(40) },
        ]
    );
}

#[test]
fn multipacket_goes_with_the_role() {
    let uplink = Uplink { address: String::from("h"), port: 1, opus_bitrate: 2 };
    let fec = FecParams { percentage: 10, percentage_important: 30 };
    let live = Config::Transmitter { uplink: uplink.clone(), frame_size: 20, fec };
    let plan = encoder_plan_for(&live).unwrap();
    assert_eq!(plan.setting(ElementId::FecEncoder, Property::Multipacket), Some(Value::Flag(false)));
    assert_eq!(plan.get(0), Some(Step::Make { element: ElementId::FecEncoder, named: true }));
    let baseline = Config::BaselineTransmitter { uplink: uplink.clone(), fec };
    let plan = encoder_plan_for(&baseline).unwrap();
    assert_eq!(plan.setting(ElementId::FecEncoder, Property::Multipacket), Some(Value::Flag(false)));
    let tone = Config::TestTransmitter { uplink, frame_size: 20, fec, wave: 0, freq: String::from("440") };
    let plan = encoder_plan_for(&tone).unwrap();
    assert_eq!(plan.setting(ElementId::FecEncoder, Property::Multipacket), Some(Value::Flag(true)));
    assert_eq!(plan.get(0), Some(Step::Make { element: ElementId::FecEncoder, named: false }));
    assert_eq!(plan.setting(ElementId::FecEncoder, Property::Percentage), Some(Value::UInt(10)));
    assert_eq!(plan.setting(ElementId::FecEncoder, Property::PercentageImportant), Some(Value::UInt(30)));
}

#[test]
fn a_receiver_makes_no_encoder() {
    assert!(encoder_plan_for(&Config::Receiver { port: 1, latency: 2, storage_window_ns: 3 }).is_none());
    assert!(encoder_plan_for(&Config::BasicReceiver { port: 1 }).is_none());
}

#[test]
fn the_encoder_is_handed_over_when_it_is_ready() {
    let plan = encoder_plan(FecParams { percentage: 20, percentage_important: 40 }, false, true);
    let run = carry_out(plan, vec![Outcome::Done, Outcome::Done, Outcome::Done, Outcome::Done, Outcome::Done]);
    assert_eq!(conclude(Request::FecEncoder, run), Reply { element: Some(ElementId::FecEncoder), report: None });
}

#[test]
fn a_missing_encoder_factory_is_posted_and_nothing_handed_over() {
    let plan = encoder_plan(FecParams { percentage: 20, percentage_important: 40 }, false, true);
    let run = carry_out(plan, vec![Outcome::Missing]);
    assert_eq!(
        conclude(Request::FecEncoder, run),
        Reply {
            element: None,
            report: Some(Report { domain: Domain::Library, summary: String::from("Failed to make FEC encoder"),
                detail: String::from("Missing element rtpulpfecenc"),
            }),
        }
    );
}

#[test]
fn a_refused_percentage_is_posted_and_nothing_handed_over() {
    let plan = encoder_plan(FecParams { percentage: 150, percentage_important: 40 }, false, true);
    let run = carry_out(
        plan,
        vec![Outcome::Done, Outcome::Done, Outcome::Done, Outcome::Refused(String::from("out of range"))],
    );
    let reply = conclude(Request::FecEncoder, run);
    assert_eq!(reply.element, None);
    assert_eq!(
        reply.report,
        Some(Report { domain: Domain::Library, summary: String::from("Failed to make FEC encoder"), detail: String::from("out of range") })
    );
}

#[test]
fn the_decoder_is_bound_to_its_storage_before_it_is_handed_over() {
    let plan = decoder_plan(0, true);
    let d = ElementId::FecDecoder;
    assert_eq!(
        plan.steps(),
        vec![
            Step::Make { element: d, named: true },
            Step::FetchStorage { session: 0 },
            Step::SetProperty { element: d, property: Property::Storage, value: Value::InternalStorage },
            Step::SetProperty { element: d, property: Property::Pt, value: Value::UInt(100) },
        ]
    );
}

#[test]
fn the_decoder_of_session_0_is_handed_over_with_payload_type_100() {
    let plan = decoder_plan(0, true);
    assert_eq!(plan.get(1), Some(Step::FetchStorage { session: 0 }));
    assert_eq!(plan.setting(ElementId::FecDecoder, Property::Pt), Some(Value::UInt(100)));
    assert_eq!(plan.setting(ElementId::FecDecoder, Property::Storage), Some(Value::InternalStorage));
    let run = carry_out(plan, vec![Outcome::Done, Outcome::Done, Outcome::Done, Outcome::Done]);
    assert!(run.is_complete());
    assert_eq!(conclude(Request::FecDecoder, run), Reply { element: Some(ElementId::FecDecoder), report: None });
}

#[test]
fn a_session_without_storage_gets_no_decoder() {
    let run = carry_out(decoder_plan(5, true), vec![Outcome::Done, Outcome::Missing]);
    assert_eq!(run.pending(), None);
    let reply = conclude(Request::FecDecoder, run);
    assert_eq!(reply.element, None);
    assert_eq!(
        reply.report,
        Some(Report { domain: Domain::Library, summary: String::from("Failed to make FEC decoder"),
            detail: String::from("No internal storage for session 5"),
        })
    );
}

#[test]
fn a_session_without_storage_gets_no_decoder_whatever_is_reported_next() {
    let run = carry_out(
        decoder_plan(5, true),
        vec![Outcome::Done, Outcome::Missing, Outcome::Done, Outcome::Done, Outcome::Done],
    );
    assert_eq!(run.performed(), 1);
    assert_eq!(conclude(Request::FecDecoder, run).element, None);
}

#[test]
fn a_half_made_decoder_is_not_handed_over() {
    for done in 0..4usize {
        let mut outcomes = Vec::new();
        for _ in 0..done {
            outcomes.push(Outcome::Done);
        }
        let run = carry_out(decoder_plan(0, false), outcomes);
        assert_eq!(conclude(Request::FecDecoder, run), Reply { element: None, report: None });
    }
    let refused = carry_out(
        decoder_plan(0, false),
        vec![Outcome::Done, Outcome::Done, Outcome::Refused(String::from("no such property"))],
    );
    assert_eq!(conclude(Request::FecDecoder, refused).element, None);
    let missing = carry_out(decoder_plan(0, false), vec![Outcome::Missing]);
    let reply = conclude(Request::FecDecoder, missing);
    assert_eq!(reply.element, None);
    assert_eq!(reply.report.unwrap().detail, "Missing element rtpulpfecdec");
}

#[test]
fn only_receivers_make_decoders() {
    assert_eq!(decoder_plan_for(Role::Receiver, 2).unwrap().steps(), decoder_plan(2, true).steps());
    assert_eq!(decoder_plan_for(Role::BasicReceiver, 2).unwrap().steps(), decoder_plan(2, false).steps());
    assert!(decoder_plan_for(Role::Transmitter, 2).is_none());
    assert!(decoder_plan_for(Role::BaselineTransmitter, 2).is_none());
    assert!(decoder_plan_for(Role::TestTransmitter, 2).is_none());
}

#[test]
fn a_new_storage_gets_its_window() {
    let plan = storage_plan(200_000_000);
    assert_eq!(
        plan.steps(),
        vec![Step::SetProperty {
            element: ElementId::Storage,
            property: Property::SizeTime,
            value: Value::ULong(200_000_000),
        }]
    );
    let receiver = Config::Receiver { port: 5000, latency: 50, storage_window_ns: 200_000_000 };
    assert_eq!(storage_plan_for(&receiver).unwrap().steps(), plan.steps());
    let basic = Config::BasicReceiver { port: 5000 };
    assert_eq!(
        storage_plan_for(&basic).unwrap().setting(ElementId::Storage, Property::SizeTime),
        Some(Value::ULong(250_000_000))
    );
    let uplink = Uplink { address: String::from("h"), port: 1, opus_bitrate: 2 };
    let sender = Config::BaselineTransmitter { uplink, fec: FecParams { percentage: 0, percentage_important: 0 } };
    assert!(storage_plan_for(&sender).is_none());
}

#[test]
fn requests_that_hand_nothing_over_only_report() {
    let run = carry_out(storage_plan(1), vec![Outcome::Done]);
    assert_eq!(conclude(Request::NewStorage, run), Reply { element: None, report: None });
    let run = carry_out(storage_plan(1), vec![Outcome::Refused(String::from("no"))]);
    assert_eq!(
        conclude(Request::NewStorage, run),
        Reply {
            element: None,
            report: Some(Report { domain: Domain::Library, summary: String::from("Failed to configure storage"), detail: String::from("no") }),
        }
    );
    assert_eq!(Request::LinkPad.element(), None);
    assert_eq!(Request::NewStorage.element(), None);
    assert_eq!(Request::FecEncoder.element(), Some(ElementId::FecEncoder));
    assert_eq!(Request::FecDecoder.element(), Some(ElementId::FecDecoder));
    assert_eq!(Request::LinkPad.summary(), "Failed to link srcpad");
    let _ = PipelineError::NoStorage(0);
}
