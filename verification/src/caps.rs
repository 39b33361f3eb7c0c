//! What the payload types of a session carry, as the session element is
//! told when it asks.

use vstd::prelude::*;

verus! {

/// The payload type of the Opus media packets.
pub const OPUS_PAYLOAD_TYPE: u32 = 96;

/// The payload type of the FEC protection packets.
pub const FEC_PAYLOAD_TYPE: u32 = 100;

/// The clock rate of both payload types, in Hz.
pub const RTP_CLOCK_RATE: i32 = 48000;

/// A description of what a stream carries.
#[derive(Clone, Copy, Debug, PartialEq, Eq, Structural)]
pub enum Caps {
    /// RTP at the common clock rate, nothing more said.
    Rtp,
    /// Opus audio in RTP.
    Opus,
    /// FEC protection data for audio in RTP.
    Fec,
}

impl Caps {
    /// The media field of the description, where it has one.
    pub open spec fn media_text(self) -> Option<Seq<char>> {
        match self {
            Caps::Rtp => None,
            _ => Some("audio"@),
        }
    }

    /// The encoding name of the description, where it has one.
    pub open spec fn encoding_text(self) -> Option<Seq<char>> {
        match self {
            Caps::Opus => Some("OPUS"@),
            _ => None,
        }
    }

    /// The media type of every description.
    pub fn media_type(self) -> (name: &'static str)
        ensures
            name@ == "application/x-rtp"@,
    {
        "application/x-rtp"
    }

    /// The clock rate of every description.
    pub fn clock_rate(self) -> (rate: i32)
        ensures
            rate == RTP_CLOCK_RATE,
    {
        RTP_CLOCK_RATE
    }

    /// The media field of the description, where it has one.
    pub fn media(self) -> (name: Option<&'static str>)
        ensures
            name is Some <==> self.media_text() is Some,
            name matches Some(n) ==> self.media_text() == Some(n@),
    {
        match self {
            Caps::Rtp => None,
            _ => Some("audio"),
        }
    }

    /// The encoding name of the description, where it has one.
    pub fn encoding_name(self) -> (name: Option<&'static str>)
        ensures
            name is Some <==> self.encoding_text() is Some,
            name matches Some(n) ==> self.encoding_text() == Some(n@),
    {
        match self {
            Caps::Opus => Some("OPUS"),
            _ => None,
        }
    }

    /// Whether the description marks the stream as FEC data.
    pub fn is_fec(self) -> (b: bool)
        ensures
            b == (self is Fec),
    {
        match self {
            Caps::Fec => true,
            _ => false,
        }
    }
}

/// What a payload type carries: Opus media, FEC protection data, or
/// nothing that this system knows.
pub open spec fn payload_caps(payload_type: u32) -> Option<Caps> {
    if payload_type == FEC_PAYLOAD_TYPE {
        Some(Caps::Fec)
    } else if payload_type == OPUS_PAYLOAD_TYPE {
        Some(Caps::Opus)
    } else {
        None
    }
}

/// Answers the session element's question what a payload type carries.
/// Only the two payload types of this system have an answer.
pub fn caps_for_payload_type(payload_type: u32) -> (caps: Option<Caps>)
    ensures
        caps == payload_caps(payload_type),
{
    if payload_type == FEC_PAYLOAD_TYPE {
        Some(Caps::Fec)
    } else if payload_type == OPUS_PAYLOAD_TYPE {
        Some(Caps::Opus)
    } else {
        None
    }
}

} // verus!
