//! The vocabulary shared with the media framework: which elements a
//! pipeline is built from, and the names under which the framework knows
//! their factories, pads, properties and signals.

use vstd::prelude::*;

verus! {

/// An element of a transport pipeline, by the part it plays.
#[derive(Clone, Copy, Debug, PartialEq, Eq, Structural)]
pub enum ElementId {
    /// Receives the datagrams.
    UdpSource,
    /// The session element: multiplexes the RTP streams, holds the jitter
    /// buffers and asks for the FEC elements.
    Session,
    /// Takes the Opus frames out of their RTP packets.
    OpusDepay,
    /// Queue between depayloader and decoder.
    DecodeQueue,
    /// Decodes Opus.
    OpusDecoder,
    /// Queue between decoder and output.
    OutputQueue,
    /// Converts between raw audio formats.
    AudioConvert,
    /// Plays the audio.
    AudioSink,
    /// Captures live audio.
    AudioSource,
    /// Synthesises a test tone.
    TestSource,
    /// Encodes Opus.
    OpusEncoder,
    /// Puts the Opus frames into RTP packets.
    OpusPay,
    /// Sends the datagrams.
    UdpSink,
    /// Adds the protection packets.
    FecEncoder,
    /// Recovers lost packets from the protection packets.
    FecDecoder,
    /// The jitter buffer that the session element makes for a stream.
    JitterBuffer,
    /// The storage of received packets that the session element makes for
    /// a session, and from which the FEC decoder recovers.
    Storage,
}

impl ElementId {
    /// The name of the factory that makes this element.
    pub open spec fn factory_text(self) -> Seq<char> {
        match self {
            ElementId::UdpSource => "udpsrc"@,
            ElementId::Session => "rtpbin"@,
            ElementId::OpusDepay => "rtpopusdepay"@,
            ElementId::DecodeQueue => "queue"@,
            ElementId::OpusDecoder => "opusdec"@,
            ElementId::OutputQueue => "queue"@,
            ElementId::AudioConvert => "audioconvert"@,
            ElementId::AudioSink => "jackaudiosink"@,
            ElementId::AudioSource => "jackaudiosrc"@,
            ElementId::TestSource => "audiotestsrc"@,
            ElementId::OpusEncoder => "opusenc"@,
            ElementId::OpusPay => "rtpopuspay"@,
            ElementId::UdpSink => "udpsink"@,
            ElementId::FecEncoder => "rtpulpfecenc"@,
            ElementId::FecDecoder => "rtpulpfecdec"@,
            ElementId::JitterBuffer => "rtpjitterbuffer"@,
            ElementId::Storage => "rtpstorage"@,
        }
    }

    /// The instance name under which this element is looked up in a running
    /// pipeline, for the elements that are looked up at all.
    pub open spec fn instance_text(self) -> Option<Seq<char>> {
        match self {
            ElementId::OpusDepay => Some("depay"@),
            ElementId::FecEncoder => Some("fecenc"@),
            ElementId::FecDecoder => Some("fecdec"@),
            ElementId::JitterBuffer => Some("rtpjitterbuffer0"@),
            _ => None,
        }
    }

    /// The name of the factory that makes this element.
    pub fn factory_name(self) -> (name: &'static str)
        ensures
            name@ == self.factory_text(),
    {
        match self {
            ElementId::UdpSource => "udpsrc",
            ElementId::Session => "rtpbin",
            ElementId::OpusDepay => "rtpopusdepay",
            ElementId::DecodeQueue => "queue",
            ElementId::OpusDecoder => "opusdec",
            ElementId::OutputQueue => "queue",
            ElementId::AudioConvert => "audioconvert",
            ElementId::AudioSink => "jackaudiosink",
            ElementId::AudioSource => "jackaudiosrc",
            ElementId::TestSource => "audiotestsrc",
            ElementId::OpusEncoder => "opusenc",
            ElementId::OpusPay => "rtpopuspay",
            ElementId::UdpSink => "udpsink",
            ElementId::FecEncoder => "rtpulpfecenc",
            ElementId::FecDecoder => "rtpulpfecdec",
            ElementId::JitterBuffer => "rtpjitterbuffer",
            ElementId::Storage => "rtpstorage",
        }
    }

    /// The instance name under which this element is looked up, if it is
    /// one of those that are.
    pub fn instance_name(self) -> (name: Option<&'static str>)
        ensures
            name is Some <==> self.instance_text() is Some,
            name matches Some(n) ==> self.instance_text() == Some(n@),
    {
        match self {
            ElementId::OpusDepay => Some("depay"),
            ElementId::FecEncoder => Some("fecenc"),
            ElementId::FecDecoder => Some("fecdec"),
            ElementId::JitterBuffer => Some("rtpjitterbuffer0"),
            _ => None,
        }
    }
}

/// No two elements share an instance name, so that an element that is
/// looked up by its name is the one that was meant.
pub proof fn lemma_instance_names_differ(a: ElementId, b: ElementId)
    requires
        a != b,
        a.instance_text() is Some,
    ensures
        a.instance_text() != b.instance_text(),
{
    reveal_strlit("depay");
    reveal_strlit("fecenc");
    reveal_strlit("fecdec");
    reveal_strlit("rtpjitterbuffer0");
    if b.instance_text() is Some {
        let x = a.instance_text()->Some_0;
        let y = b.instance_text()->Some_0;
        if x.len() == y.len() {
            assert(x[3] != y[3]);
        }
    }
}

/// A pad that is known by its name.
#[derive(Clone, Copy, Debug, PartialEq, Eq, Structural)]
pub enum Pad {
    /// The output of an element with one output.
    Src,
    /// The input of an element with one input.
    Sink,
    /// Input of the session element for received RTP, first session.
    RecvRtpSink,
    /// Input of the session element for RTP to send, first session.
    SendRtpSink,
    /// Output of the session element for RTP to send, first session.
    SendRtpSrc,
}

impl Pad {
    /// The pad's name.
    pub open spec fn name_text(self) -> Seq<char> {
        match self {
            Pad::Src => "src"@,
            Pad::Sink => "sink"@,
            Pad::RecvRtpSink => "recv_rtp_sink_0"@,
            Pad::SendRtpSink => "send_rtp_sink_0"@,
            Pad::SendRtpSrc => "send_rtp_src_0"@,
        }
    }

    /// The pad's name.
    pub fn name(self) -> (name: &'static str)
        ensures
            name@ == self.name_text(),
    {
        match self {
            Pad::Src => "src",
            Pad::Sink => "sink",
            Pad::RecvRtpSink => "recv_rtp_sink_0",
            Pad::SendRtpSink => "send_rtp_sink_0",
            Pad::SendRtpSrc => "send_rtp_src_0",
        }
    }
}

/// A property of an element that this library sets or reads.
#[derive(Clone, Copy, Debug, PartialEq, Eq, Structural)]
pub enum Property {
    Port,
    Caps,
    DoLost,
    Latency,
    Plc,
    BufferTime,
    Bitrate,
    FrameSize,
    Host,
    Sync,
    Wave,
    Freq,
    Pt,
    Multipacket,
    Percentage,
    PercentageImportant,
    Storage,
    SizeTime,
    Recovered,
    Unrecovered,
    Protected,
    Stats,
}

impl Property {
    /// The property's name.
    pub open spec fn name_text(self) -> Seq<char> {
        match self {
            Property::Port => "port"@,
            Property::Caps => "caps"@,
            Property::DoLost => "do-lost"@,
            Property::Latency => "latency"@,
            Property::Plc => "plc"@,
            Property::BufferTime => "buffer-time"@,
            Property::Bitrate => "bitrate"@,
            Property::FrameSize => "frame-size"@,
            Property::Host => "host"@,
            Property::Sync => "sync"@,
            Property::Wave => "wave"@,
            Property::Freq => "freq"@,
            Property::Pt => "pt"@,
            Property::Multipacket => "multipacket"@,
            Property::Percentage => "percentage"@,
            Property::PercentageImportant => "percentage_important"@,
            Property::Storage => "storage"@,
            Property::SizeTime => "size-time"@,
            Property::Recovered => "recovered"@,
            Property::Unrecovered => "unrecovered"@,
            Property::Protected => "protected"@,
            Property::Stats => "stats"@,
        }
    }

    /// The property's name.
    pub fn name(self) -> (name: &'static str)
        ensures
            name@ == self.name_text(),
    {
        match self {
            Property::Port => "port",
            Property::Caps => "caps",
            Property::DoLost => "do-lost",
            Property::Latency => "latency",
            Property::Plc => "plc",
            Property::BufferTime => "buffer-time",
            Property::Bitrate => "bitrate",
            Property::FrameSize => "frame-size",
            Property::Host => "host",
            Property::Sync => "sync",
            Property::Wave => "wave",
            Property::Freq => "freq",
            Property::Pt => "pt",
            Property::Multipacket => "multipacket",
            Property::Percentage => "percentage",
            Property::PercentageImportant => "percentage_important",
            Property::Storage => "storage",
            Property::SizeTime => "size-time",
            Property::Recovered => "recovered",
            Property::Unrecovered => "unrecovered",
            Property::Protected => "protected",
            Property::Stats => "stats",
        }
    }
}

/// A request of the session element that this library answers.
#[derive(Clone, Copy, Debug, PartialEq, Eq, Structural)]
pub enum Signal {
    /// A storage for received packets was made and wants its window set.
    NewStorage,
    /// The session element asks what a payload type carries.
    RequestPtMap,
    /// The session element asks for a FEC decoder for one session.
    RequestFecDecoder,
    /// The session element asks for a FEC encoder.
    RequestFecEncoder,
    /// The session element has added an output pad for a received stream.
    PadAdded,
    /// Asks the session element for the storage of one session.
    GetInternalStorage,
}

impl Signal {
    /// The signal's name.
    pub open spec fn name_text(self) -> Seq<char> {
        match self {
            Signal::NewStorage => "new-storage"@,
            Signal::RequestPtMap => "request-pt-map"@,
            Signal::RequestFecDecoder => "request-fec-decoder"@,
            Signal::RequestFecEncoder => "request-fec-encoder"@,
            Signal::PadAdded => "pad-added"@,
            Signal::GetInternalStorage => "get-internal-storage"@,
        }
    }

    /// The signal's name.
    pub fn name(self) -> (name: &'static str)
        ensures
            name@ == self.name_text(),
    {
        match self {
            Signal::NewStorage => "new-storage",
            Signal::RequestPtMap => "request-pt-map",
            Signal::RequestFecDecoder => "request-fec-decoder",
            Signal::RequestFecEncoder => "request-fec-encoder",
            Signal::PadAdded => "pad-added",
            Signal::GetInternalStorage => "get-internal-storage",
        }
    }
}

} // verus!
