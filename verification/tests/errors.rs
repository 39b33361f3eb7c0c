use rtp_fec_audio::args::{Argument, Role};
use rtp_fec_audio::error::{bus_error_line, PipelineError};

#[test]
fn message_of_missing_element() {
    let error = PipelineError::MissingElement(String::from("rtpulpfecdec"));
    assert_eq!(error.message(), "Missing element rtpulpfecdec");
}

#[test]
fn message_of_no_such_pad() {
    let error = PipelineError::NoSuchPad(String::from("sink"), String::from("depay"));
    assert_eq!(error.message(), "No such pad sink in depay");
}

#[test]
fn message_of_unknown_payload_type() {
    assert_eq!(PipelineError::UnknownPT(97).message(), "Unknown payload type 97");
    assert_eq!(PipelineError::UnknownPT(0).message(), "Unknown payload type 0");
    assert_eq!(PipelineError::UnknownPT(u32::MAX).message(), "Unknown payload type 4294967295");
}

#[test]
fn message_of_usage_error_names_program_and_arguments() {
    let error = PipelineError::UsageError { program: String::from("./receiver"), role: Role::Receiver };
    assert_eq!(error.message(), "Usage: ./receiver PORT LATENCY SIZE-TIME(ms)");
    let error = PipelineError::UsageError { program: String::from("main"), role: Role::BasicReceiver };
    assert_eq!(error.message(), "Usage: main PORT");
    let error = PipelineError::UsageError { program: String::from("tx"), role: Role::BaselineTransmitter };
    assert_eq!(error.message(), "Usage: tx ADDRESS PORT OPUS_BITRATE PERCENTAGE PERCENTAGE_IMPORTANT");
    let error = PipelineError::UsageError { program: String::from("tx"), role: Role::Transmitter };
    assert_eq!(
        error.message(),
        "Usage: tx ADDRESS PORT OPUS_BITRATE OPUS_FRAME_SIZE PERCENTAGE PERCENTAGE_IMPORTANT"
    );
    let error = PipelineError::UsageError { program: String::from("tx"), role: Role::TestTransmitter };
    assert_eq!(
        error.message(),
        "Usage: tx ADDRESS PORT OPUS_BITRATE OPUS_FRAME_SIZE PERCENTAGE PERCENTAGE_IMPORTANT WAVE FREQ"
    );
}

#[test]
fn message_of_bus_error_with_debug_detail() {
    let error = PipelineError::ErrorMessage {
        src: String::from("/GstPipeline:pipeline0/GstUDPSrc:udpsrc0"),
        error: String::from("Could not open resource"),
        debug: Some(String::from("bind failed")),
    };
    assert_eq!(
        error.message(),
        "Received error from /GstPipeline:pipeline0/GstUDPSrc:udpsrc0: Could not open resource (debug: Some(\"bind failed\"))"
    );
}

#[test]
fn message_of_bus_error_without_debug_detail() {
    let error = PipelineError::ErrorMessage {
        src: String::from("None"),
        error: String::from("Internal data stream error."),
        debug: None,
    };
    assert_eq!(error.message(), "Received error from None: Internal data stream error. (debug: None)");
}

#[test]
fn message_of_bus_error_escapes_the_debug_detail() {
    let error = PipelineError::ErrorMessage {
        src: String::from("src"),
        error: String::from("failed"),
        debug: Some(String::from("line one\n\"quoted\"")),
    };
    assert_eq!(
        error.message(),
        "Received error from src: failed (debug: Some(\"line one\\n\\\"quoted\\\"\"))"
    );
}

#[test]
fn bus_error_line_puts_the_parts_together() {
    assert_eq!(bus_error_line("a", "b", "c"), "Received error from a: b (debug: c)");
    assert_eq!(bus_error_line("", "", ""), "Received error from :  (debug: )");
}

#[test]
fn message_of_invalid_argument() {
    let error = PipelineError::InvalidArgument { argument: Argument::Percentage, value: String::from("150") };
    assert_eq!(error.message(), "Invalid value 150 for PERCENTAGE");
    let error = PipelineError::InvalidArgument { argument: Argument::SizeTime, value: String::from("x") };
    assert_eq!(error.message(), "Invalid value x for SIZE-TIME(ms)");
}

#[test]
fn message_of_malformed_pad_name() {
    let error = PipelineError::MalformedPadName(String::from("recv_rtp_src"));
    assert_eq!(error.message(), "No payload type in pad name recv_rtp_src");
}

#[test]
fn message_of_no_storage() {
    assert_eq!(PipelineError::NoStorage(3).message(), "No internal storage for session 3");
}

#[test]
fn message_of_framework_refusal_is_the_frameworks() {
    let error = PipelineError::Framework(String::from("Failed to link pads"));
    assert_eq!(error.message(), "Failed to link pads");
    assert_eq!(PipelineError::Framework(String::new()).message(), "");
}
