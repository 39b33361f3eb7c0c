//! The pipelines of the programs: which elements each of them makes, how
//! it links them, which requests of the session element it answers and
//! what it configures, in the order in which this is done.

use crate::args::{Config, ConfigView};
use crate::caps::Caps;
use crate::names::{ElementId, Pad, Property, Signal};
use crate::plan::{configured, lemma_last_setting, PadRef, Plan, Step, Value};
use crate::wiring::{lemma_linked_without_unlinks, linked, runs_between, Connection};
use vstd::prelude::*;

verus! {

/// How much audio the output buffers, in microseconds.
pub const OUTPUT_BUFFER_TIME_US: i64 = 100000;

/// The steps that build a receiver: the datagrams enter the session element,
/// whose output the payload router links to the depayloader when it
/// appears; from there the audio runs through decoder and queues to the
/// output.
pub open spec fn receiver_steps(port: i32, latency: u32) -> Seq<Step> {
    seq![
        Step::Make { element: ElementId::UdpSource, named: false },
        Step::Make { element: ElementId::Session, named: false },
        Step::Make { element: ElementId::OpusDepay, named: true },
        Step::Make { element: ElementId::DecodeQueue, named: false },
        Step::Make { element: ElementId::OpusDecoder, named: false },
        Step::Make { element: ElementId::OutputQueue, named: false },
        Step::Make { element: ElementId::AudioConvert, named: false },
        Step::Make { element: ElementId::AudioSink, named: false },
        Step::Add { element: ElementId::UdpSource },
        Step::Add { element: ElementId::Session },
        Step::Add { element: ElementId::OpusDepay },
        Step::Add { element: ElementId::DecodeQueue },
        Step::Add { element: ElementId::OpusDecoder },
        Step::Add { element: ElementId::OutputQueue },
        Step::Add { element: ElementId::AudioConvert },
        Step::Add { element: ElementId::AudioSink },
        Step::Link { from: ElementId::OpusDepay, to: ElementId::DecodeQueue },
        Step::Link { from: ElementId::DecodeQueue, to: ElementId::OpusDecoder },
        Step::Link { from: ElementId::OpusDecoder, to: ElementId::OutputQueue },
        Step::Link { from: ElementId::OutputQueue, to: ElementId::AudioConvert },
        Step::Link { from: ElementId::AudioConvert, to: ElementId::AudioSink },
        Step::Connect { signal: Signal::NewStorage },
        Step::Connect { signal: Signal::RequestPtMap },
        Step::LinkPads {
            from: ElementId::UdpSource,
            from_pad: PadRef::Static(Pad::Src),
            to: ElementId::Session,
            to_pad: PadRef::Request(Pad::RecvRtpSink),
        },
        Step::Connect { signal: Signal::PadAdded },
        Step::Connect { signal: Signal::RequestFecDecoder },
        Step::SetProperty {
            element: ElementId::UdpSource,
            property: Property::Port,
            value: Value::Int(port),
        },
        Step::SetProperty {
            element: ElementId::UdpSource,
            property: Property::Caps,
            value: Value::Caps(Caps::Rtp),
        },
        Step::SetProperty {
            element: ElementId::Session,
            property: Property::DoLost,
            value: Value::Flag(true),
        },
        Step::SetProperty {
            element: ElementId::Session,
            property: Property::Latency,
            value: Value::UInt(latency),
        },
        Step::SetProperty {
            element: ElementId::OpusDecoder,
            property: Property::Plc,
            value: Value::Flag(true),
        },
        Step::SetProperty {
            element: ElementId::AudioSink,
            property: Property::BufferTime,
            value: Value::Long(OUTPUT_BUFFER_TIME_US),
        },
    ]
}

/// The steps that build a receiver that has nothing to choose but its port.
pub open spec fn basic_receiver_steps(port: i32) -> Seq<Step> {
    seq![
        Step::Make { element: ElementId::Session, named: false },
        Step::Make { element: ElementId::UdpSource, named: false },
        Step::Make { element: ElementId::OpusDepay, named: false },
        Step::Make { element: ElementId::OpusDecoder, named: false },
        Step::Make { element: ElementId::AudioConvert, named: false },
        Step::Make { element: ElementId::AudioSink, named: false },
        Step::Add { element: ElementId::UdpSource },
        Step::Add { element: ElementId::Session },
        Step::Add { element: ElementId::OpusDepay },
        Step::Add { element: ElementId::OpusDecoder },
        Step::Add { element: ElementId::AudioConvert },
        Step::Add { element: ElementId::AudioSink },
        Step::Link { from: ElementId::OpusDepay, to: ElementId::OpusDecoder },
        Step::Link { from: ElementId::OpusDecoder, to: ElementId::AudioConvert },
        Step::Link { from: ElementId::AudioConvert, to: ElementId::AudioSink },
        Step::Connect { signal: Signal::NewStorage },
        Step::Connect { signal: Signal::RequestPtMap },
        Step::Connect { signal: Signal::RequestFecDecoder },
        Step::LinkPads {
            from: ElementId::UdpSource,
            from_pad: PadRef::Static(Pad::Src),
            to: ElementId::Session,
            to_pad: PadRef::Request(Pad::RecvRtpSink),
        },
        Step::Connect { signal: Signal::PadAdded },
        Step::SetProperty {
            element: ElementId::UdpSource,
            property: Property::Port,
            value: Value::Int(port),
        },
        Step::SetProperty {
            element: ElementId::UdpSource,
            property: Property::Caps,
            value: Value::Caps(Caps::Rtp),
        },
        Step::SetProperty {
            element: ElementId::Session,
            property: Property::DoLost,
            value: Value::Flag(true),
        },
    ]
}

/// The steps that build a transmitter of live audio that leaves the frame
/// size to the encoder.
pub open spec fn baseline_transmitter_steps(port: i32, opus_bitrate: i32) -> Seq<Step> {
    seq![
        Step::Make { element: ElementId::Session, named: false },
        Step::Make { element: ElementId::AudioSource, named: false },
        Step::Make { element: ElementId::AudioConvert, named: false },
        Step::Make { element: ElementId::OpusEncoder, named: false },
        Step::Make { element: ElementId::OpusPay, named: false },
        Step::Make { element: ElementId::UdpSink, named: false },
        Step::Add { element: ElementId::AudioSource },
        Step::Add { element: ElementId::AudioConvert },
        Step::Add { element: ElementId::OpusEncoder },
        Step::Add { element: ElementId::OpusPay },
        Step::Add { element: ElementId::Session },
        Step::Add { element: ElementId::UdpSink },
        Step::Link { from: ElementId::AudioConvert, to: ElementId::OpusEncoder },
        Step::Link { from: ElementId::OpusEncoder, to: ElementId::OpusPay },
        Step::Connect { signal: Signal::RequestFecEncoder },
        Step::LinkPads {
            from: ElementId::OpusPay,
            from_pad: PadRef::Static(Pad::Src),
            to: ElementId::Session,
            to_pad: PadRef::Request(Pad::SendRtpSink),
        },
        Step::LinkPads {
            from: ElementId::Session,
            from_pad: PadRef::Static(Pad::SendRtpSrc),
            to: ElementId::UdpSink,
            to_pad: PadRef::Static(Pad::Sink),
        },
        Step::LinkPads {
            from: ElementId::AudioSource,
            from_pad: PadRef::Static(Pad::Src),
            to: ElementId::AudioConvert,
            to_pad: PadRef::Static(Pad::Sink),
        },
        Step::SetProperty {
            element: ElementId::OpusEncoder,
            property: Property::Bitrate,
            value: Value::Int(opus_bitrate),
        },
        Step::SetProperty {
            element: ElementId::UdpSink,
            property: Property::Host,
            value: Value::Address,
        },
        Step::SetProperty {
            element: ElementId::UdpSink,
            property: Property::Sync,
            value: Value::Flag(false),
        },
        Step::SetProperty {
            element: ElementId::UdpSink,
            property: Property::Port,
            value: Value::Int(port),
        },
    ]
}

/// The steps that build a transmitter of live audio: capture, conversion,
/// encoder and payloader feed the session element, whose output goes to the
/// network.
pub open spec fn transmitter_steps(port: i32, opus_bitrate: i32, frame_size: i32) -> Seq<Step> {
    seq![
        Step::Make { element: ElementId::Session, named: false },
        Step::Make { element: ElementId::AudioSource, named: false },
        Step::Make { element: ElementId::AudioConvert, named: false },
        Step::Make { element: ElementId::OpusEncoder, named: false },
        Step::Make { element: ElementId::OpusPay, named: false },
        Step::Make { element: ElementId::UdpSink, named: false },
        Step::Add { element: ElementId::AudioSource },
        Step::Add { element: ElementId::AudioConvert },
        Step::Add { element: ElementId::OpusEncoder },
        Step::Add { element: ElementId::OpusPay },
        Step::Add { element: ElementId::Session },
        Step::Add { element: ElementId::UdpSink },
        Step::Link { from: ElementId::AudioConvert, to: ElementId::OpusEncoder },
        Step::Link { from: ElementId::OpusEncoder, to: ElementId::OpusPay },
        Step::Connect { signal: Signal::RequestFecEncoder },
        Step::LinkPads {
            from: ElementId::OpusPay,
            from_pad: PadRef::Static(Pad::Src),
            to: ElementId::Session,
            to_pad: PadRef::Request(Pad::SendRtpSink),
        },
        Step::LinkPads {
            from: ElementId::Session,
            from_pad: PadRef::Static(Pad::SendRtpSrc),
            to: ElementId::UdpSink,
            to_pad: PadRef::Static(Pad::Sink),
        },
        Step::LinkPads {
            from: ElementId::AudioSource,
            from_pad: PadRef::Static(Pad::Src),
            to: ElementId::AudioConvert,
            to_pad: PadRef::Static(Pad::Sink),
        },
        Step::SetProperty {
            element: ElementId::OpusEncoder,
            property: Property::Bitrate,
            value: Value::Int(opus_bitrate),
        },
        Step::SetProperty {
            element: ElementId::OpusEncoder,
            property: Property::FrameSize,
            value: Value::Choice(frame_size),
        },
        Step::SetProperty {
            element: ElementId::UdpSink,
            property: Property::Host,
            value: Value::Address,
        },
        Step::SetProperty {
            element: ElementId::UdpSink,
            property: Property::Sync,
            value: Value::Flag(false),
        },
        Step::SetProperty {
            element: ElementId::UdpSink,
            property: Property::Port,
            value: Value::Int(port),
        },
    ]
}

/// The steps that build a transmitter of a synthetic tone.
pub open spec fn test_transmitter_steps(
    port: i32,
    opus_bitrate: i32,
    frame_size: i32,
    wave: i32,
) -> Seq<Step> {
    seq![
        Step::Make { element: ElementId::Session, named: false },
        Step::Make { element: ElementId::TestSource, named: false },
        Step::Make { element: ElementId::AudioConvert, named: false },
        Step::Make { element: ElementId::OpusEncoder, named: false },
        Step::Make { element: ElementId::OpusPay, named: false },
        Step::Make { element: ElementId::UdpSink, named: false },
        Step::Add { element: ElementId::TestSource },
        Step::Add { element: ElementId::AudioConvert },
        Step::Add { element: ElementId::OpusEncoder },
        Step::Add { element: ElementId::OpusPay },
        Step::Add { element: ElementId::Session },
        Step::Add { element: ElementId::UdpSink },
        Step::Link { from: ElementId::AudioConvert, to: ElementId::OpusEncoder },
        Step::Link { from: ElementId::OpusEncoder, to: ElementId::OpusPay },
        Step::Connect { signal: Signal::RequestFecEncoder },
        Step::LinkPads {
            from: ElementId::OpusPay,
            from_pad: PadRef::Static(Pad::Src),
            to: ElementId::Session,
            to_pad: PadRef::Request(Pad::SendRtpSink),
        },
        Step::LinkPads {
            from: ElementId::Session,
            from_pad: PadRef::Static(Pad::SendRtpSrc),
            to: ElementId::UdpSink,
            to_pad: PadRef::Static(Pad::Sink),
        },
        Step::Link { from: ElementId::TestSource, to: ElementId::AudioConvert },
        Step::SetProperty {
            element: ElementId::TestSource,
            property: Property::Wave,
            value: Value::Choice(wave),
        },
        Step::SetProperty {
            element: ElementId::TestSource,
            property: Property::Freq,
            value: Value::Frequency,
        },
        Step::SetProperty {
            element: ElementId::OpusEncoder,
            property: Property::Bitrate,
            value: Value::Int(opus_bitrate),
        },
        Step::SetProperty {
            element: ElementId::OpusEncoder,
            property: Property::FrameSize,
            value: Value::Choice(frame_size),
        },
        Step::SetProperty {
            element: ElementId::UdpSink,
            property: Property::Host,
            value: Value::Address,
        },
        Step::SetProperty {
            element: ElementId::UdpSink,
            property: Property::Sync,
            value: Value::Flag(true),
        },
        Step::SetProperty {
            element: ElementId::UdpSink,
            property: Property::Port,
            value: Value::Int(port),
        },
    ]
}

/// The plan that builds the pipeline of this role; see `receiver_steps`.
pub fn receiver_plan(port: i32, latency: u32) -> (plan: Plan)
    ensures
        plan.wf(),
        plan.given() == Set::<ElementId>::empty(),
        plan@ == receiver_steps(port, latency),
{
    let mut plan = Plan::new();
    plan.push(Step::Make { element: ElementId::UdpSource, named: false });
    plan.push(Step::Make { element: ElementId::Session, named: false });
    plan.push(Step::Make { element: ElementId::OpusDepay, named: true });
    plan.push(Step::Make { element: ElementId::DecodeQueue, named: false });
    plan.push(Step::Make { element: ElementId::OpusDecoder, named: false });
    plan.push(Step::Make { element: ElementId::OutputQueue, named: false });
    plan.push(Step::Make { element: ElementId::AudioConvert, named: false });
    plan.push(Step::Make { element: ElementId::AudioSink, named: false });
    plan.push(Step::Add { element: ElementId::UdpSource });
    plan.push(Step::Add { element: ElementId::Session });
    plan.push(Step::Add { element: ElementId::OpusDepay });
    plan.push(Step::Add { element: ElementId::DecodeQueue });
    plan.push(Step::Add { element: ElementId::OpusDecoder });
    plan.push(Step::Add { element: ElementId::OutputQueue });
    plan.push(Step::Add { element: ElementId::AudioConvert });
    plan.push(Step::Add { element: ElementId::AudioSink });
    plan.push(Step::Link { from: ElementId::OpusDepay, to: ElementId::DecodeQueue });
    plan.push(Step::Link { from: ElementId::DecodeQueue, to: ElementId::OpusDecoder });
    plan.push(Step::Link { from: ElementId::OpusDecoder, to: ElementId::OutputQueue });
    plan.push(Step::Link { from: ElementId::OutputQueue, to: ElementId::AudioConvert });
    plan.push(Step::Link { from: ElementId::AudioConvert, to: ElementId::AudioSink });
    plan.push(Step::Connect { signal: Signal::NewStorage });
    plan.push(Step::Connect { signal: Signal::RequestPtMap });
    plan.push(
        Step::LinkPads {
            from: ElementId::UdpSource,
            from_pad: PadRef::Static(Pad::Src),
            to: ElementId::Session,
            to_pad: PadRef::Request(Pad::RecvRtpSink),
        },
    );
    plan.push(Step::Connect { signal: Signal::PadAdded });
    plan.push(Step::Connect { signal: Signal::RequestFecDecoder });
    plan.push(
        Step::SetProperty {
            element: ElementId::UdpSource,
            property: Property::Port,
            value: Value::Int(port),
        },
    );
    plan.push(
        Step::SetProperty {
            element: ElementId::UdpSource,
            property: Property::Caps,
            value: Value::Caps(Caps::Rtp),
        },
    );
    plan.push(
        Step::SetProperty {
            element: ElementId::Session,
            property: Property::DoLost,
            value: Value::Flag(true),
        },
    );
    plan.push(
        Step::SetProperty {
            element: ElementId::Session,
            property: Property::Latency,
            value: Value::UInt(latency),
        },
    );
    plan.push(
        Step::SetProperty {
            element: ElementId::OpusDecoder,
            property: Property::Plc,
            value: Value::Flag(true),
        },
    );
    plan.push(
        Step::SetProperty {
            element: ElementId::AudioSink,
            property: Property::BufferTime,
            value: Value::Long(OUTPUT_BUFFER_TIME_US),
        },
    );
    plan
}

/// The plan that builds the pipeline of this role; see `basic_receiver_steps`.
pub fn basic_receiver_plan(port: i32) -> (plan: Plan)
    ensures
        plan.wf(),
        plan.given() == Set::<ElementId>::empty(),
        plan@ == basic_receiver_steps(port),
{
    let mut plan = Plan::new();
    plan.push(Step::Make { element: ElementId::Session, named: false });
    plan.push(Step::Make { element: ElementId::UdpSource, named: false });
    plan.push(Step::Make { element: ElementId::OpusDepay, named: false });
    plan.push(Step::Make { element: ElementId::OpusDecoder, named: false });
    plan.push(Step::Make { element: ElementId::AudioConvert, named: false });
    plan.push(Step::Make { element: ElementId::AudioSink, named: false });
    plan.push(Step::Add { element: ElementId::UdpSource });
    plan.push(Step::Add { element: ElementId::Session });
    plan.push(Step::Add { element: ElementId::OpusDepay });
    plan.push(Step::Add { element: ElementId::OpusDecoder });
    plan.push(Step::Add { element: ElementId::AudioConvert });
    plan.push(Step::Add { element: ElementId::AudioSink });
    plan.push(Step::Link { from: ElementId::OpusDepay, to: ElementId::OpusDecoder });
    plan.push(Step::Link { from: ElementId::OpusDecoder, to: ElementId::AudioConvert });
    plan.push(Step::Link { from: ElementId::AudioConvert, to: ElementId::AudioSink });
    plan.push(Step::Connect { signal: Signal::NewStorage });
    plan.push(Step::Connect { signal: Signal::RequestPtMap });
    plan.push(Step::Connect { signal: Signal::RequestFecDecoder });
    plan.push(
        Step::LinkPads {
            from: ElementId::UdpSource,
            from_pad: PadRef::Static(Pad::Src),
            to: ElementId::Session,
            to_pad: PadRef::Request(Pad::RecvRtpSink),
        },
    );
    plan.push(Step::Connect { signal: Signal::PadAdded });
    plan.push(
        Step::SetProperty {
            element: ElementId::UdpSource,
            property: Property::Port,
            value: Value::Int(port),
        },
    );
    plan.push(
        Step::SetProperty {
            element: ElementId::UdpSource,
            property: Property::Caps,
            value: Value::Caps(Caps::Rtp),
        },
    );
    plan.push(
        Step::SetProperty {
            element: ElementId::Session,
            property: Property::DoLost,
            value: Value::Flag(true),
        },
    );
    plan
}

/// The plan that builds the pipeline of this role; see `baseline_transmitter_steps`.
pub fn baseline_transmitter_plan(port: i32, opus_bitrate: i32) -> (plan: Plan)
    ensures
        plan.wf(),
        plan.given() == Set::<ElementId>::empty(),
        plan@ == baseline_transmitter_steps(port, opus_bitrate),
{
    let mut plan = Plan::new();
    plan.push(Step::Make { element: ElementId::Session, named: false });
    plan.push(Step::Make { element: ElementId::AudioSource, named: false });
    plan.push(Step::Make { element: ElementId::AudioConvert, named: false });
    plan.push(Step::Make { element: ElementId::OpusEncoder, named: false });
    plan.push(Step::Make { element: ElementId::OpusPay, named: false });
    plan.push(Step::Make { element: ElementId::UdpSink, named: false });
    plan.push(Step::Add { element: ElementId::AudioSource });
    plan.push(Step::Add { element: ElementId::AudioConvert });
    plan.push(Step::Add { element: ElementId::OpusEncoder });
    plan.push(Step::Add { element: ElementId::OpusPay });
    plan.push(Step::Add { element: ElementId::Session });
    plan.push(Step::Add { element: ElementId::UdpSink });
    plan.push(Step::Link { from: ElementId::AudioConvert, to: ElementId::OpusEncoder });
    plan.push(Step::Link { from: ElementId::OpusEncoder, to: ElementId::OpusPay });
    plan.push(Step::Connect { signal: Signal::RequestFecEncoder });
    plan.push(
        Step::LinkPads {
            from: ElementId::OpusPay,
            from_pad: PadRef::Static(Pad::Src),
            to: ElementId::Session,
            to_pad: PadRef::Request(Pad::SendRtpSink),
        },
    );
    plan.push(
        Step::LinkPads {
            from: ElementId::Session,
            from_pad: PadRef::Static(Pad::SendRtpSrc),
            to: ElementId::UdpSink,
            to_pad: PadRef::Static(Pad::Sink),
        },
    );
    plan.push(
        Step::LinkPads {
            from: ElementId::AudioSource,
            from_pad: PadRef::Static(Pad::Src),
            to: ElementId::AudioConvert,
            to_pad: PadRef::Static(Pad::Sink),
        },
    );
    plan.push(
        Step::SetProperty {
            element: ElementId::OpusEncoder,
            property: Property::Bitrate,
            value: Value::Int(opus_bitrate),
        },
    );
    plan.push(
        Step::SetProperty {
            element: ElementId::UdpSink,
            property: Property::Host,
            value: Value::Address,
        },
    );
    plan.push(
        Step::SetProperty {
            element: ElementId::UdpSink,
            property: Property::Sync,
            value: Value::Flag(false),
        },
    );
    plan.push(
        Step::SetProperty {
            element: ElementId::UdpSink,
            property: Property::Port,
            value: Value::Int(port),
        },
    );
    plan
}

/// The plan that builds the pipeline of this role; see `transmitter_steps`.
pub fn transmitter_plan(port: i32, opus_bitrate: i32, frame_size: i32) -> (plan: Plan)
    ensures
        plan.wf(),
        plan.given() == Set::<ElementId>::empty(),
        plan@ == transmitter_steps(port, opus_bitrate, frame_size),
{
    let mut plan = Plan::new();
    plan.push(Step::Make { element: ElementId::Session, named: false });
    plan.push(Step::Make { element: ElementId::AudioSource, named: false });
    plan.push(Step::Make { element: ElementId::AudioConvert, named: false });
    plan.push(Step::Make { element: ElementId::OpusEncoder, named: false });
    plan.push(Step::Make { element: ElementId::OpusPay, named: false });
    plan.push(Step::Make { element: ElementId::UdpSink, named: false });
    plan.push(Step::Add { element: ElementId::AudioSource });
    plan.push(Step::Add { element: ElementId::AudioConvert });
    plan.push(Step::Add { element: ElementId::OpusEncoder });
    plan.push(Step::Add { element: ElementId::OpusPay });
    plan.push(Step::Add { element: ElementId::Session });
    plan.push(Step::Add { element: ElementId::UdpSink });
    plan.push(Step::Link { from: ElementId::AudioConvert, to: ElementId::OpusEncoder });
    plan.push(Step::Link { from: ElementId::OpusEncoder, to: ElementId::OpusPay });
    plan.push(Step::Connect { signal: Signal::RequestFecEncoder });
    plan.push(
        Step::LinkPads {
            from: ElementId::OpusPay,
            from_pad: PadRef::Static(Pad::Src),
            to: ElementId::Session,
            to_pad: PadRef::Request(Pad::SendRtpSink),
        },
    );
    plan.push(
        Step::LinkPads {
            from: ElementId::Session,
            from_pad: PadRef::Static(Pad::SendRtpSrc),
            to: ElementId::UdpSink,
            to_pad: PadRef::Static(Pad::Sink),
        },
    );
    plan.push(
        Step::LinkPads {
            from: ElementId::AudioSource,
            from_pad: PadRef::Static(Pad::Src),
            to: ElementId::AudioConvert,
            to_pad: PadRef::Static(Pad::Sink),
        },
    );
    plan.push(
        Step::SetProperty {
            element: ElementId::OpusEncoder,
            property: Property::Bitrate,
            value: Value::Int(opus_bitrate),
        },
    );
    plan.push(
        Step::SetProperty {
            element: ElementId::OpusEncoder,
            property: Property::FrameSize,
            value: Value::Choice(frame_size),
        },
    );
    plan.push(
        Step::SetProperty {
            element: ElementId::UdpSink,
            property: Property::Host,
            value: Value::Address,
        },
    );
    plan.push(
        Step::SetProperty {
            element: ElementId::UdpSink,
            property: Property::Sync,
            value: Value::Flag(false),
        },
    );
    plan.push(
        Step::SetProperty {
            element: ElementId::UdpSink,
            property: Property::Port,
            value: Value::Int(port),
        },
    );
    plan
}

/// The plan that builds the pipeline of this role; see `test_transmitter_steps`.
pub fn test_transmitter_plan(port: i32, opus_bitrate: i32, frame_size: i32, wave: i32) -> (plan:
    Plan)
    ensures
        plan.wf(),
        plan.given() == Set::<ElementId>::empty(),
        plan@ == test_transmitter_steps(port, opus_bitrate, frame_size, wave),
{
    let mut plan = Plan::new();
    plan.push(Step::Make { element: ElementId::Session, named: false });
    plan.push(Step::Make { element: ElementId::TestSource, named: false });
    plan.push(Step::Make { element: ElementId::AudioConvert, named: false });
    plan.push(Step::Make { element: ElementId::OpusEncoder, named: false });
    plan.push(Step::Make { element: ElementId::OpusPay, named: false });
    plan.push(Step::Make { element: ElementId::UdpSink, named: false });
    plan.push(Step::Add { element: ElementId::TestSource });
    plan.push(Step::Add { element: ElementId::AudioConvert });
    plan.push(Step::Add { element: ElementId::OpusEncoder });
    plan.push(Step::Add { element: ElementId::OpusPay });
    plan.push(Step::Add { element: ElementId::Session });
    plan.push(Step::Add { element: ElementId::UdpSink });
    plan.push(Step::Link { from: ElementId::AudioConvert, to: ElementId::OpusEncoder });
    plan.push(Step::Link { from: ElementId::OpusEncoder, to: ElementId::OpusPay });
    plan.push(Step::Connect { signal: Signal::RequestFecEncoder });
    plan.push(
        Step::LinkPads {
            from: ElementId::OpusPay,
            from_pad: PadRef::Static(Pad::Src),
            to: ElementId::Session,
            to_pad: PadRef::Request(Pad::SendRtpSink),
        },
    );
    plan.push(
        Step::LinkPads {
            from: ElementId::Session,
            from_pad: PadRef::Static(Pad::SendRtpSrc),
            to: ElementId::UdpSink,
            to_pad: PadRef::Static(Pad::Sink),
        },
    );
    plan.push(Step::Link { from: ElementId::TestSource, to: ElementId::AudioConvert });
    plan.push(
        Step::SetProperty {
            element: ElementId::TestSource,
            property: Property::Wave,
            value: Value::Choice(wave),
        },
    );
    plan.push(
        Step::SetProperty {
            element: ElementId::TestSource,
            property: Property::Freq,
            value: Value::Frequency,
        },
    );
    plan.push(
        Step::SetProperty {
            element: ElementId::OpusEncoder,
            property: Property::Bitrate,
            value: Value::Int(opus_bitrate),
        },
    );
    plan.push(
        Step::SetProperty {
            element: ElementId::OpusEncoder,
            property: Property::FrameSize,
            value: Value::Choice(frame_size),
        },
    );
    plan.push(
        Step::SetProperty {
            element: ElementId::UdpSink,
            property: Property::Host,
            value: Value::Address,
        },
    );
    plan.push(
        Step::SetProperty {
            element: ElementId::UdpSink,
            property: Property::Sync,
            value: Value::Flag(true),
        },
    );
    plan.push(
        Step::SetProperty {
            element: ElementId::UdpSink,
            property: Property::Port,
            value: Value::Int(port),
        },
    );
    plan
}

/// The steps that build the pipeline of a configuration.
pub open spec fn assembly_steps(config: ConfigView) -> Seq<Step> {
    match config {
        ConfigView::Receiver { port, latency, .. } => receiver_steps(port, latency),
        ConfigView::BasicReceiver { port } => basic_receiver_steps(port),
        ConfigView::BaselineTransmitter { uplink, .. } => baseline_transmitter_steps(
            uplink.port,
            uplink.opus_bitrate,
        ),
        ConfigView::Transmitter { uplink, frame_size, .. } => transmitter_steps(
            uplink.port,
            uplink.opus_bitrate,
            frame_size,
        ),
        ConfigView::TestTransmitter { uplink, frame_size, wave, .. } => test_transmitter_steps(
            uplink.port,
            uplink.opus_bitrate,
            frame_size,
            wave,
        ),
    }
}

/// The plan that builds the pipeline of a configuration, starting from an
/// empty pipeline.
pub fn assembly_plan(config: &Config) -> (plan: Plan)
    ensures
        plan.wf(),
        plan.given() == Set::<ElementId>::empty(),
        plan@ == assembly_steps(config@),
{
    match config {
        Config::Receiver { port, latency, .. } => receiver_plan(*port, *latency),
        Config::BasicReceiver { port } => basic_receiver_plan(*port),
        Config::BaselineTransmitter { uplink, .. } => baseline_transmitter_plan(
            uplink.port,
            uplink.opus_bitrate,
        ),
        Config::Transmitter { uplink, frame_size, .. } => transmitter_plan(
            uplink.port,
            uplink.opus_bitrate,
            *frame_size,
        ),
        Config::TestTransmitter { uplink, frame_size, wave, .. } => test_transmitter_plan(
            uplink.port,
            uplink.opus_bitrate,
            *frame_size,
            *wave,
        ),
    }
}

/// What the steps of a receiver leave in the properties: the port to
/// listen on and the latency of the jitter buffer are those that were
/// given, lost packets are announced and concealed, and the stream is taken
/// as RTP.
pub proof fn lemma_receiver_settings(port: i32, latency: u32)
    ensures
        configured(
            receiver_steps(port, latency),
            ElementId::UdpSource,
            Property::Port,
        ) == Some(Value::Int(port)),
        configured(
            receiver_steps(port, latency),
            ElementId::UdpSource,
            Property::Caps,
        ) == Some(Value::Caps(Caps::Rtp)),
        configured(
            receiver_steps(port, latency),
            ElementId::Session,
            Property::DoLost,
        ) == Some(Value::Flag(true)),
        configured(
            receiver_steps(port, latency),
            ElementId::Session,
            Property::Latency,
        ) == Some(Value::UInt(latency)),
        configured(
            receiver_steps(port, latency),
            ElementId::OpusDecoder,
            Property::Plc,
        ) == Some(Value::Flag(true)),
        configured(
            receiver_steps(port, latency),
            ElementId::AudioSink,
            Property::BufferTime,
        ) == Some(Value::Long(OUTPUT_BUFFER_TIME_US)),
{
    let steps = receiver_steps(port, latency);
    lemma_last_setting(steps, 26, ElementId::UdpSource, Property::Port, Value::Int(port));
    lemma_last_setting(steps, 27, ElementId::UdpSource, Property::Caps, Value::Caps(Caps::Rtp));
    lemma_last_setting(steps, 28, ElementId::Session, Property::DoLost, Value::Flag(true));
    lemma_last_setting(steps, 29, ElementId::Session, Property::Latency, Value::UInt(latency));
    lemma_last_setting(steps, 30, ElementId::OpusDecoder, Property::Plc, Value::Flag(true));
    lemma_last_setting(
        steps,
        31,
        ElementId::AudioSink,
        Property::BufferTime,
        Value::Long(OUTPUT_BUFFER_TIME_US),
    );
}

/// What the steps of a basic receiver leave in the properties.
pub proof fn lemma_basic_receiver_settings(port: i32)
    ensures
        configured(
            basic_receiver_steps(port),
            ElementId::UdpSource,
            Property::Port,
        ) == Some(Value::Int(port)),
        configured(
            basic_receiver_steps(port),
            ElementId::UdpSource,
            Property::Caps,
        ) == Some(Value::Caps(Caps::Rtp)),
        configured(
            basic_receiver_steps(port),
            ElementId::Session,
            Property::DoLost,
        ) == Some(Value::Flag(true)),
{
    let steps = basic_receiver_steps(port);
    lemma_last_setting(steps, 20, ElementId::UdpSource, Property::Port, Value::Int(port));
    lemma_last_setting(steps, 21, ElementId::UdpSource, Property::Caps, Value::Caps(Caps::Rtp));
    lemma_last_setting(steps, 22, ElementId::Session, Property::DoLost, Value::Flag(true));
}

/// What the steps of a baseline transmitter leave in the properties: the
/// bitrate, the destination and its port are those that were given.
pub proof fn lemma_baseline_transmitter_settings(port: i32, opus_bitrate: i32)
    ensures
        configured(
            baseline_transmitter_steps(port, opus_bitrate),
            ElementId::OpusEncoder,
            Property::Bitrate,
        ) == Some(Value::Int(opus_bitrate)),
        configured(
            baseline_transmitter_steps(port, opus_bitrate),
            ElementId::UdpSink,
            Property::Host,
        ) == Some(Value::Address),
        configured(
            baseline_transmitter_steps(port, opus_bitrate),
            ElementId::UdpSink,
            Property::Sync,
        ) == Some(Value::Flag(false)),
        configured(
            baseline_transmitter_steps(port, opus_bitrate),
            ElementId::UdpSink,
            Property::Port,
        ) == Some(Value::Int(port)),
{
    let steps = baseline_transmitter_steps(port, opus_bitrate);
    lemma_last_setting(
        steps,
        18,
        ElementId::OpusEncoder,
        Property::Bitrate,
        Value::Int(opus_bitrate),
    );
    lemma_last_setting(steps, 19, ElementId::UdpSink, Property::Host, Value::Address);
    lemma_last_setting(steps, 20, ElementId::UdpSink, Property::Sync, Value::Flag(false));
    lemma_last_setting(steps, 21, ElementId::UdpSink, Property::Port, Value::Int(port));
}

/// What the steps of a transmitter leave in the properties: the bitrate,
/// the frame size, the destination and its port are those that were given.
pub proof fn lemma_transmitter_settings(port: i32, opus_bitrate: i32, frame_size: i32)
    ensures
        configured(
            transmitter_steps(port, opus_bitrate, frame_size),
            ElementId::OpusEncoder,
            Property::Bitrate,
        ) == Some(Value::Int(opus_bitrate)),
        configured(
            transmitter_steps(port, opus_bitrate, frame_size),
            ElementId::OpusEncoder,
            Property::FrameSize,
        ) == Some(Value::Choice(frame_size)),
        configured(
            transmitter_steps(port, opus_bitrate, frame_size),
            ElementId::UdpSink,
            Property::Host,
        ) == Some(Value::Address),
        configured(
            transmitter_steps(port, opus_bitrate, frame_size),
            ElementId::UdpSink,
            Property::Sync,
        ) == Some(Value::Flag(false)),
        configured(
            transmitter_steps(port, opus_bitrate, frame_size),
            ElementId::UdpSink,
            Property::Port,
        ) == Some(Value::Int(port)),
{
    let steps = transmitter_steps(port, opus_bitrate, frame_size);
    lemma_last_setting(
        steps,
        18,
        ElementId::OpusEncoder,
        Property::Bitrate,
        Value::Int(opus_bitrate),
    );
    lemma_last_setting(
        steps,
        19,
        ElementId::OpusEncoder,
        Property::FrameSize,
        Value::Choice(frame_size),
    );
    lemma_last_setting(steps, 20, ElementId::UdpSink, Property::Host, Value::Address);
    lemma_last_setting(steps, 21, ElementId::UdpSink, Property::Sync, Value::Flag(false));
    lemma_last_setting(steps, 22, ElementId::UdpSink, Property::Port, Value::Int(port));
}

/// What the steps of a test transmitter leave in the properties: waveform
/// and frequency of the tone, the bitrate, the frame size, the destination
/// and its port are those that were given.
pub proof fn lemma_test_transmitter_settings(
    port: i32,
    opus_bitrate: i32,
    frame_size: i32,
    wave: i32,
)
    ensures
        configured(
            test_transmitter_steps(port, opus_bitrate, frame_size, wave),
            ElementId::TestSource,
            Property::Wave,
        ) == Some(Value::Choice(wave)),
        configured(
            test_transmitter_steps(port, opus_bitrate, frame_size, wave),
            ElementId::TestSource,
            Property::Freq,
        ) == Some(Value::Frequency),
        configured(
            test_transmitter_steps(port, opus_bitrate, frame_size, wave),
            ElementId::OpusEncoder,
            Property::Bitrate,
        ) == Some(Value::Int(opus_bitrate)),
        configured(
            test_transmitter_steps(port, opus_bitrate, frame_size, wave),
            ElementId::OpusEncoder,
            Property::FrameSize,
        ) == Some(Value::Choice(frame_size)),
        configured(
            test_transmitter_steps(port, opus_bitrate, frame_size, wave),
            ElementId::UdpSink,
            Property::Host,
        ) == Some(Value::Address),
        configured(
            test_transmitter_steps(port, opus_bitrate, frame_size, wave),
            ElementId::UdpSink,
            Property::Sync,
        ) == Some(Value::Flag(true)),
        configured(
            test_transmitter_steps(port, opus_bitrate, frame_size, wave),
            ElementId::UdpSink,
            Property::Port,
        ) == Some(Value::Int(port)),
{
    let steps = test_transmitter_steps(port, opus_bitrate, frame_size, wave);
    lemma_last_setting(steps, 18, ElementId::TestSource, Property::Wave, Value::Choice(wave));
    lemma_last_setting(steps, 19, ElementId::TestSource, Property::Freq, Value::Frequency);
    lemma_last_setting(
        steps,
        20,
        ElementId::OpusEncoder,
        Property::Bitrate,
        Value::Int(opus_bitrate),
    );
    lemma_last_setting(
        steps,
        21,
        ElementId::OpusEncoder,
        Property::FrameSize,
        Value::Choice(frame_size),
    );
    lemma_last_setting(steps, 22, ElementId::UdpSink, Property::Host, Value::Address);
    lemma_last_setting(steps, 23, ElementId::UdpSink, Property::Sync, Value::Flag(true));
    lemma_last_setting(steps, 24, ElementId::UdpSink, Property::Port, Value::Int(port));
}

/// The assembly of a receiver leaves the depayloader without a link from
/// the session element: the media only reach it once the payload router
/// has linked the pad that the session element adds for them.
pub proof fn lemma_receiver_awaits_routing(port: i32, latency: u32, c: Connection)
    requires
        runs_between(c, ElementId::Session, ElementId::OpusDepay),
    ensures
        !linked(Set::<Connection>::empty(), receiver_steps(port, latency)).contains(c),
        !linked(Set::<Connection>::empty(), basic_receiver_steps(port)).contains(c),
{
    lemma_linked_without_unlinks(Set::<Connection>::empty(), receiver_steps(port, latency), c);
    lemma_linked_without_unlinks(Set::<Connection>::empty(), basic_receiver_steps(port), c);
}

} // verus!
