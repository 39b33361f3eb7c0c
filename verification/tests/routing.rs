use rtp_fec_audio::args::Role;
use rtp_fec_audio::error::PipelineError;
use rtp_fec_audio::request::{conclude, report_of, Domain, Reply, Report, Request};
use rtp_fec_audio::names::{ElementId, Pad};
use rtp_fec_audio::plan::{PadRef, Step};
use rtp_fec_audio::router::{payload_type_of, Router, FIELD_DELIMITER, PAYLOAD_TYPE_FIELD};
use rtp_fec_audio::run::{Outcome, Run};
use rtp_fec_audio::wiring::{Connection, Wiring};

fn routed(consumer: ElementId) -> Connection {
    Connection { from: ElementId::Session, from_pad: PadRef::Added, to: consumer, to_pad: PadRef::Static(Pad::Sink) }
}

fn link_of(consumer: ElementId) -> Vec<Step> {
    vec![
        Step::Unlink { from: ElementId::Session, to: consumer },
        Step::LinkPads {
            from: ElementId::Session,
            from_pad: PadRef::Added,
            to: consumer,
            to_pad: PadRef::Static(Pad::Sink),
        },
    ]
}

#[test]
fn the_payload_type_is_the_sixth_field() {
    assert_eq!(FIELD_DELIMITER, '_');
    assert_eq!(PAYLOAD_TYPE_FIELD, 5);
    assert_eq!(payload_type_of("recv_rtp_src_0_305419896_96"), Ok(96));
    assert_eq!(payload_type_of("recv_rtp_src_0_305419896_100"), Ok(100));
    assert_eq!(payload_type_of("a_b_c_d_e_7_g_h"), Ok(7));
    assert_eq!(payload_type_of("_____0"), Ok(0));
    assert_eq!(payload_type_of("recv_rtp_src_0_1_4294967295"), Ok(4294967295));
}

#[test]
fn a_name_without_payload_type_is_malformed() {
    for name in ["", "src", "recv_rtp_src_0_305419896", "recv_rtp_src_0_1_", "recv_rtp_src_0_1_x", "recv_rtp_src_0_1_-96",
        "recv_rtp_src_0_1_9 6", "recv_rtp_src_0_1_4294967296", "recv_rtp_src_0_96"]
    {
        assert_eq!(payload_type_of(name), Err(PipelineError::MalformedPadName(String::from(name))));
    }
}

#[test]
fn opus_goes_to_the_depayloader() {
    let router = Router::opus();
    assert_eq!(router.consumer_for(96), Ok(ElementId::OpusDepay));
    assert_eq!(router.route("recv_rtp_src_0_305419896_96"), Ok(ElementId::OpusDepay));
    let plan = router.connect("recv_rtp_src_0_305419896_96").ok().unwrap();
    assert_eq!(plan.steps(), link_of(ElementId::OpusDepay));
}

#[test]
fn every_other_payload_type_is_unknown() {
    let router = Router::opus();
    for payload_type in [0u32, 1, 95, 97, 100, 127, 4294967295] {
        assert_eq!(router.consumer_for(payload_type), Err(PipelineError::UnknownPT(payload_type)));
        let name = format!("recv_rtp_src_0_1_{}", payload_type);
        assert_eq!(router.route(&name), Err(PipelineError::UnknownPT(payload_type)));
        assert_eq!(router.connect(&name).err(), Some(PipelineError::UnknownPT(payload_type)));
    }
}

#[test]
fn an_unknown_payload_type_leaves_the_links_alone() {
    let router = Router::opus();
    let mut wiring = Wiring::new();
    wiring.perform_all(&link_of(ElementId::OpusDepay));
    let before = wiring.between(ElementId::Session, ElementId::OpusDepay);
    match router.connect("recv_rtp_src_0_1_97") {
        Ok(plan) => wiring.perform_all(&plan.steps()),
        Err(error) => assert_eq!(error, PipelineError::UnknownPT(97)),
    }
    assert_eq!(wiring.between(ElementId::Session, ElementId::OpusDepay), before);
    assert!(wiring.holds(routed(ElementId::OpusDepay)));
}

#[test]
fn an_unknown_payload_type_is_posted_and_does_not_stop_anything() {
    let error = Router::opus().connect("recv_rtp_src_0_1_97").err().unwrap();
    assert_eq!(
        report_of(Request::LinkPad, &error),
        Report { domain: Domain::Library, summary: String::from("Failed to link srcpad"), detail: String::from("Unknown payload type 97") }
    );
}

#[test]
fn the_old_link_is_broken_before_the_new_one_is_made() {
    let plan = Router::opus().connect("recv_rtp_src_0_9_96").ok().unwrap();
    assert_eq!(plan.len(), 2);
    assert_eq!(plan.get(0), Some(Step::Unlink { from: ElementId::Session, to: ElementId::OpusDepay }));
    assert!(matches!(plan.get(1), Some(Step::LinkPads { to: ElementId::OpusDepay, to_pad: PadRef::Static(Pad::Sink), .. })));
    let links = plan.steps().iter().filter(|step| matches!(step, Step::LinkPads { .. } | Step::Link { .. })).count();
    assert_eq!(links, 1);
}

#[test]
fn routing_leaves_exactly_one_link_to_the_consumer() {
    let router = Router::opus();
    let mut wiring = Wiring::new();
    wiring.perform(Step::LinkPads {
        from: ElementId::Session,
        from_pad: PadRef::Static(Pad::SendRtpSrc),
        to: ElementId::OpusDepay,
        to_pad: PadRef::Static(Pad::Sink),
    });
    wiring.perform(Step::Link { from: ElementId::Session, to: ElementId::OpusDepay });
    wiring.perform(Step::Link { from: ElementId::OpusDepay, to: ElementId::OpusDecoder });
    assert_eq!(wiring.between(ElementId::Session, ElementId::OpusDepay).len(), 2);
    let plan = router.connect("recv_rtp_src_0_1_96").ok().unwrap();
    wiring.perform_all(&plan.steps());
    assert_eq!(wiring.between(ElementId::Session, ElementId::OpusDepay), vec![routed(ElementId::OpusDepay)]);
    assert_eq!(wiring.between(ElementId::OpusDepay, ElementId::OpusDecoder).len(), 1);
}

#[test]
fn routing_again_changes_nothing() {
    let router = Router::opus();
    let mut wiring = Wiring::new();
    wiring.perform(Step::Link { from: ElementId::OpusDepay, to: ElementId::OpusDecoder });
    let plan = router.connect("recv_rtp_src_0_1_96").ok().unwrap();
    wiring.perform_all(&plan.steps());
    let once = wiring.between(ElementId::Session, ElementId::OpusDepay);
    let rest = wiring.between(ElementId::OpusDepay, ElementId::OpusDecoder);
    let again = router.connect("recv_rtp_src_0_1_96").ok().unwrap();
    assert_eq!(again.steps(), plan.steps());
    wiring.perform_all(&again.steps());
    wiring.perform_all(&again.steps());
    assert_eq!(wiring.between(ElementId::Session, ElementId::OpusDepay), once);
    assert_eq!(wiring.between(ElementId::OpusDepay, ElementId::OpusDecoder), rest);
    assert_eq!(once.len(), 1);
}

#[test]
fn another_payload_type_takes_another_entry() {
    let mut router = Router::opus();
    assert!(router.add_route(97, ElementId::OutputQueue));
    assert_eq!(router.consumer_for(97), Ok(ElementId::OutputQueue));
    assert_eq!(router.consumer_for(96), Ok(ElementId::OpusDepay));
    assert_eq!(router.consumer_for(98), Err(PipelineError::UnknownPT(98)));
    assert_eq!(router.connect("recv_rtp_src_0_1_97").ok().unwrap().steps(), link_of(ElementId::OutputQueue));
    assert!(router.add_route(96, ElementId::DecodeQueue));
    assert_eq!(router.consumer_for(96), Ok(ElementId::DecodeQueue));
}

#[test]
fn nothing_is_routed_back_into_the_session_element() {
    let mut router = Router::new();
    assert!(!router.add_route(96, ElementId::Session));
    assert_eq!(router.consumer_for(96), Err(PipelineError::UnknownPT(96)));
}

#[test]
fn an_empty_router_knows_nothing() {
    let router = Router::new();
    assert_eq!(router.route("recv_rtp_src_0_1_96"), Err(PipelineError::UnknownPT(96)));
    assert_eq!(Router::for_role(Role::Transmitter).route("recv_rtp_src_0_1_96"), Err(PipelineError::UnknownPT(96)));
    assert_eq!(Router::for_role(Role::Receiver).route("recv_rtp_src_0_1_96"), Ok(ElementId::OpusDepay));
    assert_eq!(Router::for_role(Role::BasicReceiver).route("recv_rtp_src_0_1_96"), Ok(ElementId::OpusDepay));
}

#[test]
fn a_malformed_name_is_rejected_before_the_table_is_asked() {
    let router = Router::opus();
    assert_eq!(router.route("recv_rtp_src"), Err(PipelineError::MalformedPadName(String::from("recv_rtp_src"))));
    assert!(router.connect("recv_rtp_src_0_1_ninety").is_err());
}

#[test]
fn a_consumer_without_sink_pad_is_posted() {
    let plan = Router::opus().connect("recv_rtp_src_0_1_96").ok().unwrap();
    let mut run = Run::start(plan);
    run.record(Outcome::Done);
    run.record(Outcome::NoPad { downstream: true, element_name: String::from("depay") });
    assert_eq!(
        conclude(Request::LinkPad, run),
        Reply {
            element: None,
            report: Some(Report { domain: Domain::Library, summary: String::from("Failed to link srcpad"),
                detail: String::from("No such pad sink in depay"),
            }),
        }
    );
}

#[test]
fn the_record_of_links_follows_the_steps() {
    let mut wiring = Wiring::new();
    let link = Connection {
        from: ElementId::OpusDepay,
        from_pad: PadRef::Static(Pad::Src),
        to: ElementId::OpusDecoder,
        to_pad: PadRef::Static(Pad::Sink),
    };
    assert!(!wiring.holds(link));
    wiring.perform(Step::Link { from: ElementId::OpusDepay, to: ElementId::OpusDecoder });
    assert!(wiring.holds(link));
    wiring.perform(Step::Link { from: ElementId::OpusDepay, to: ElementId::OpusDecoder });
    assert_eq!(wiring.between(ElementId::OpusDepay, ElementId::OpusDecoder), vec![link]);
    wiring.perform(Step::Make { element: ElementId::UdpSink, named: false });
    wiring.perform(Step::Unlink { from: ElementId::OpusDecoder, to: ElementId::OpusDepay });
    assert!(wiring.holds(link));
    wiring.perform(Step::Unlink { from: ElementId::OpusDepay, to: ElementId::OpusDecoder });
    assert!(!wiring.holds(link));
    assert_eq!(wiring.between(ElementId::OpusDepay, ElementId::OpusDecoder), Vec::<Connection>::new());
}
