use rtp_fec_audio::error::PipelineError;
use rtp_fec_audio::names::{ElementId, Pad, Property};
use rtp_fec_audio::plan::{PadRef, Plan, Step, Value};
use rtp_fec_audio::run::{pad_name_of, principal_of, step_failure, Outcome, Run};

fn small_plan() -> Plan {
    let mut plan = Plan::new();
    plan.push(Step::Make { element: ElementId::UdpSource, named: false });
    plan.push(Step::Make { element: ElementId::Session, named: false });
    plan.push(Step::Add { element: ElementId::UdpSource });
    plan
}

#[test]
fn steps_are_issued_in_order() {
    let mut run = Run::start(small_plan());
    assert_eq!(run.pending(), Some(Step::Make { element: ElementId::UdpSource, named: false }));
    assert_eq!(run.performed(), 0);
    assert!(!run.is_complete());
    run.record(Outcome::Done);
    assert_eq!(run.pending(), Some(Step::Make { element: ElementId::Session, named: false }));
    run.record(Outcome::Done);
    assert_eq!(run.pending(), Some(Step::Add { element: ElementId::UdpSource }));
    run.record(Outcome::Done);
    assert_eq!(run.pending(), None);
    assert_eq!(run.performed(), 3);
    assert!(run.is_complete());
    assert!(!run.has_failed());
    assert_eq!(run.into_failure(), None);
}

#[test]
fn no_step_is_issued_after_a_failure() {
    let mut run = Run::start(small_plan());
    run.record(Outcome::Done);
    run.record(Outcome::Missing);
    assert_eq!(run.pending(), None);
    assert!(run.has_failed());
    assert!(!run.is_complete());
    assert_eq!(run.performed(), 1);
    run.record(Outcome::Done);
    run.record(Outcome::Done);
    assert_eq!(run.performed(), 1);
    assert!(!run.is_complete());
    assert_eq!(run.into_failure(), Some(PipelineError::MissingElement(String::from("rtpbin"))));
}

#[test]
fn the_first_failure_stays() {
    let mut run = Run::start(small_plan());
    run.record(Outcome::Refused(String::from("first")));
    run.record(Outcome::Refused(String::from("second")));
    assert_eq!(run.into_failure(), Some(PipelineError::Framework(String::from("first"))));
}

#[test]
fn outcomes_after_the_end_tell_nothing() {
    let mut run = Run::start(Plan::new());
    assert!(run.is_complete());
    assert_eq!(run.pending(), None);
    run.record(Outcome::Missing);
    assert!(run.is_complete());
    assert!(!run.has_failed());
}

#[test]
fn a_missing_factory_is_reported_by_its_name() {
    let step = Step::Make { element: ElementId::FecDecoder, named: true };
    assert_eq!(step_failure(step, Outcome::Missing), Some(PipelineError::MissingElement(String::from("rtpulpfecdec"))));
    let step = Step::Make { element: ElementId::AudioSink, named: false };
    assert_eq!(step_failure(step, Outcome::Missing), Some(PipelineError::MissingElement(String::from("jackaudiosink"))));
}

#[test]
fn a_missing_storage_is_reported_by_its_session() {
    let step = Step::FetchStorage { session: 7 };
    assert_eq!(step_failure(step, Outcome::Missing), Some(PipelineError::NoStorage(7)));
}

#[test]
fn an_absent_pad_is_reported_with_its_element() {
    let step = Step::LinkPads {
        from: ElementId::UdpSource,
        from_pad: PadRef::Static(Pad::Src),
        to: ElementId::Session,
        to_pad: PadRef::Request(Pad::RecvRtpSink),
    };
    assert_eq!(
        step_failure(step, Outcome::NoPad { downstream: false, element_name: String::from("udpsrc0") }),
        Some(PipelineError::NoSuchPad(String::from("src"), String::from("udpsrc0")))
    );
    assert_eq!(
        step_failure(step, Outcome::NoPad { downstream: true, element_name: String::from("rtpbin0") }),
        Some(PipelineError::NoSuchPad(String::from("recv_rtp_sink_0"), String::from("rtpbin0")))
    );
    let routed = Step::LinkPads {
        from: ElementId::Session,
        from_pad: PadRef::Added,
        to: ElementId::OpusDepay,
        to_pad: PadRef::Static(Pad::Sink),
    };
    assert_eq!(
        step_failure(routed, Outcome::NoPad { downstream: true, element_name: String::from("depay") }),
        Some(PipelineError::NoSuchPad(String::from("sink"), String::from("depay")))
    );
    assert_eq!(pad_name_of(routed, false), "");
    let plain = Step::Link { from: ElementId::OpusDepay, to: ElementId::OpusDecoder };
    assert_eq!(pad_name_of(plain, false), "src");
    assert_eq!(pad_name_of(plain, true), "sink");
}

#[test]
fn a_refusal_is_reported_in_the_frameworks_words() {
    let step = Step::SetProperty { element: ElementId::FecEncoder, property: Property::Percentage, value: Value::UInt(150) };
    assert_eq!(
        step_failure(step, Outcome::Refused(String::from("value out of range"))),
        Some(PipelineError::Framework(String::from("value out of range")))
    );
}

#[test]
fn a_step_that_was_performed_is_no_failure() {
    for step in [
        Step::Make { element: ElementId::Session, named: false },
        Step::Add { element: ElementId::Session },
        Step::FetchStorage { session: 0 },
    ] {
        assert_eq!(step_failure(step, Outcome::Done), None);
    }
}

#[test]
fn every_step_is_about_an_element() {
    assert_eq!(principal_of(Step::Make { element: ElementId::OpusPay, named: false }), ElementId::OpusPay);
    assert_eq!(principal_of(Step::Link { from: ElementId::OpusPay, to: ElementId::Session }), ElementId::OpusPay);
    assert_eq!(principal_of(Step::Unlink { from: ElementId::Session, to: ElementId::OpusDepay }), ElementId::Session);
    assert_eq!(principal_of(Step::FetchStorage { session: 1 }), ElementId::Session);
    assert_eq!(
        principal_of(Step::SetProperty { element: ElementId::UdpSink, property: Property::Sync, value: Value::Flag(true) }),
        ElementId::UdpSink
    );
}
