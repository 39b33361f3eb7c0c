//! The statistics poller: at a fixed interval it looks for a few elements
//! by their instance names, reads what they count, and reports it. An
//! element that is not there is reported as absent; nothing here fails,
//! and nothing here changes the pipeline.

use crate::args::Role;
use crate::names::{ElementId, Property};
use vstd::prelude::*;

verus! {

/// The time between two rounds of the poller, in milliseconds.
pub const POLL_INTERVAL_MS: u64 = 500;

/// One thing that is read from an element.
#[derive(Clone, Copy, Debug, PartialEq, Eq, Structural)]
pub enum Reading {
    /// How many packets the FEC decoder recovered.
    Recovered,
    /// How many lost packets the FEC decoder could not recover.
    Unrecovered,
    /// How many packets the FEC encoder protected.
    Protected,
    /// The statistics of the jitter buffer.
    JitterStats,
    /// The state that the element is in.
    State,
}

impl Reading {
    /// The property that holds the reading; the state is no property.
    pub open spec fn source(self) -> Option<Property> {
        match self {
            Reading::Recovered => Some(Property::Recovered),
            Reading::Unrecovered => Some(Property::Unrecovered),
            Reading::Protected => Some(Property::Protected),
            Reading::JitterStats => Some(Property::Stats),
            Reading::State => None,
        }
    }

    /// What is written in front of the reading when it is reported.
    pub open spec fn label_text(self) -> Seq<char> {
        match self {
            Reading::Recovered => "Recovered packets: "@,
            Reading::Unrecovered => "Unrecovered packets: "@,
            Reading::Protected => "Protected packets: "@,
            Reading::JitterStats => ""@,
            Reading::State => ""@,
        }
    }

    /// The property that holds the reading; the state is no property.
    pub fn property(self) -> (property: Option<Property>)
        ensures
            property == self.source(),
    {
        match self {
            Reading::Recovered => Some(Property::Recovered),
            Reading::Unrecovered => Some(Property::Unrecovered),
            Reading::Protected => Some(Property::Protected),
            Reading::JitterStats => Some(Property::Stats),
            Reading::State => None,
        }
    }

    /// What is written in front of the reading when it is reported.
    pub fn label(self) -> (text: &'static str)
        ensures
            text@ == self.label_text(),
    {
        match self {
            Reading::Recovered => "Recovered packets: ",
            Reading::Unrecovered => "Unrecovered packets: ",
            Reading::Protected => "Protected packets: ",
            Reading::JitterStats => "",
            Reading::State => "",
        }
    }
}

/// An element that the poller looks for.
#[derive(Clone, Copy, Debug, PartialEq, Eq, Structural)]
pub enum Watch {
    FecDecoder,
    JitterBuffer,
    Depayloader,
    FecEncoder,
}

impl Watch {
    /// The element that is looked for, by its instance name.
    pub open spec fn target(self) -> ElementId {
        match self {
            Watch::FecDecoder => ElementId::FecDecoder,
            Watch::JitterBuffer => ElementId::JitterBuffer,
            Watch::Depayloader => ElementId::OpusDepay,
            Watch::FecEncoder => ElementId::FecEncoder,
        }
    }

    /// What is read from the element when it is there, in order.
    pub open spec fn readings_spec(self) -> Seq<Reading> {
        match self {
            Watch::FecDecoder => seq![Reading::Recovered, Reading::Unrecovered],
            Watch::JitterBuffer => seq![Reading::JitterStats],
            Watch::Depayloader => seq![Reading::State],
            Watch::FecEncoder => seq![Reading::Protected],
        }
    }

    /// What is reported when the element is not there.
    pub open spec fn absence_text(self) -> Seq<char> {
        match self {
            Watch::FecDecoder => "Was not Some"@,
            Watch::JitterBuffer => "Did not get jitterbuffer"@,
            Watch::Depayloader => "Did not get opusdepay"@,
            Watch::FecEncoder => "Was not Some"@,
        }
    }

    /// The element that is looked for, by its instance name.
    pub fn element(self) -> (element: ElementId)
        ensures
            element == self.target(),
    {
        match self {
            Watch::FecDecoder => ElementId::FecDecoder,
            Watch::JitterBuffer => ElementId::JitterBuffer,
            Watch::Depayloader => ElementId::OpusDepay,
            Watch::FecEncoder => ElementId::FecEncoder,
        }
    }

    /// What is read from the element when it is there, in order.
    pub fn readings(self) -> (list: Vec<Reading>)
        ensures
            list@ == self.readings_spec(),
    {
        let mut list: Vec<Reading> = Vec::new();
        match self {
            Watch::FecDecoder => {
                list.push(Reading::Recovered);
                list.push(Reading::Unrecovered);
            },
            Watch::JitterBuffer => {
                list.push(Reading::JitterStats);
            },
            Watch::Depayloader => {
                list.push(Reading::State);
            },
            Watch::FecEncoder => {
                list.push(Reading::Protected);
            },
        }
        assert(list@ =~= self.readings_spec());
        list
    }

    /// What is reported when the element is not there.
    pub fn absence(self) -> (text: &'static str)
        ensures
            text@ == self.absence_text(),
    {
        match self {
            Watch::FecDecoder => "Was not Some",
            Watch::JitterBuffer => "Did not get jitterbuffer",
            Watch::Depayloader => "Did not get opusdepay",
            Watch::FecEncoder => "Was not Some",
        }
    }
}

/// The lines that report one sample of a watched element. `sample` is
/// `None` when the element was not found, and else holds what was read,
/// each reading as the framework shows it, in the order of the watch's
/// readings. An absent element is reported in one line that says so. An
/// element that is there is reported with one line for each reading that
/// has a value, the label in front of the value.
pub open spec fn report_lines(watch: Watch, sample: Option<Seq<Seq<char>>>) -> Seq<Seq<char>> {
    match sample {
        None => seq![watch.absence_text()],
        Some(values) => Seq::new(
            if values.len() <= watch.readings_spec().len() {
                values.len()
            } else {
                watch.readings_spec().len()
            },
            |i: int| watch.readings_spec()[i].label_text() + values[i],
        ),
    }
}

/// Reports one sample of a watched element; see `report_lines`. There is
/// always a report and never a failure: a missing element gives the line
/// that says it is missing.
pub fn report(watch: Watch, sample: &Option<Vec<String>>) -> (lines: Vec<String>)
    ensures
        lines.deep_view() == report_lines(watch, sample.deep_view()),
        sample is None ==> lines.deep_view() == seq![watch.absence_text()],
{
    let mut lines: Vec<String> = Vec::new();
    match sample {
        None => {
            lines.push(String::from_str(watch.absence()));
            proof {
                assert(lines.deep_view() =~= seq![watch.absence_text()]);
            }
        },
        Some(values) => {
            let readings = watch.readings();
            let count = if values.len() <= readings.len() {
                values.len()
            } else {
                readings.len()
            };
            let ghost shown = values.deep_view();
            let mut i: usize = 0;
            while i < count
                invariant
                    i <= count,
                    count <= values@.len(),
                    count <= readings@.len(),
                    readings@ == watch.readings_spec(),
                    shown == values.deep_view(),
                    lines@.len() == i,
                    forall|k: int|
                        0 <= k < i ==> (#[trigger] lines@[k])@
                            == watch.readings_spec()[k].label_text() + shown[k],
                decreases count - i,
            {
                let mut line = String::from_str(readings[i].label());
                line.append(values[i].as_str());
                proof {
                    assert(shown[i as int] == values@[i as int]@);
                }
                lines.push(line);
                i = i + 1;
            }
            proof {
                assert(sample.deep_view() == Some(shown));
                assert(lines.deep_view() =~= report_lines(watch, Some(shown)));
            }
        },
    }
    lines
}

/// What the poller does in one round.
#[derive(Clone, Copy, Debug, PartialEq, Eq, Structural)]
pub enum PollCommand {
    /// Look for the element and read it, then report the sample.
    Sample(Watch),
    /// Wait this many milliseconds.
    Sleep(u64),
    /// End: the supervisor has said so.
    Finish,
}

/// The elements that the poller of a role looks for; a role with none has
/// no poller.
pub open spec fn watches_for(role: Role) -> Seq<Watch> {
    match role {
        Role::Receiver => seq![Watch::FecDecoder, Watch::JitterBuffer, Watch::Depayloader],
        Role::Transmitter => seq![Watch::FecEncoder],
        Role::BaselineTransmitter => seq![Watch::FecEncoder],
        _ => Seq::<Watch>::empty(),
    }
}

/// One round of the poller: when it has been told to stop it ends, and
/// else it samples every watched element in order and waits for the
/// interval.
pub open spec fn round(watches: Seq<Watch>, stop: bool) -> Seq<PollCommand> {
    if stop {
        seq![PollCommand::Finish]
    } else {
        watches.map_values(|w: Watch| PollCommand::Sample(w)).push(
            PollCommand::Sleep(POLL_INTERVAL_MS),
        )
    }
}

/// The elements that the poller of a role looks for.
pub fn watches(role: Role) -> (list: Vec<Watch>)
    ensures
        list@ == watches_for(role),
{
    let mut list: Vec<Watch> = Vec::new();
    match role {
        Role::Receiver => {
            list.push(Watch::FecDecoder);
            list.push(Watch::JitterBuffer);
            list.push(Watch::Depayloader);
        },
        Role::Transmitter => {
            list.push(Watch::FecEncoder);
        },
        Role::BaselineTransmitter => {
            list.push(Watch::FecEncoder);
        },
        _ => {},
    }
    assert(list@ =~= watches_for(role));
    list
}

/// What the poller does in its next round; see `round`.
pub fn poll_round(watches: &Vec<Watch>, stop_requested: bool) -> (commands: Vec<PollCommand>)
    ensures
        commands@ == round(watches@, stop_requested),
{
    let mut commands: Vec<PollCommand> = Vec::new();
    if stop_requested {
        commands.push(PollCommand::Finish);
        assert(commands@ =~= seq![PollCommand::Finish]);
        return commands;
    }
    let mut i: usize = 0;
    while i < watches.len()
        invariant
            i <= watches@.len(),
            commands@ == watches@.take(i as int).map_values(|w: Watch| PollCommand::Sample(w)),
        decreases watches@.len() - i,
    {
        commands.push(PollCommand::Sample(watches[i]));
        proof {
            assert(commands@ =~= watches@.take(i as int + 1).map_values(
                |w: Watch| PollCommand::Sample(w),
            ));
        }
        i = i + 1;
    }
    proof {
        assert(watches@.take(watches@.len() as int) =~= watches@);
    }
    commands.push(PollCommand::Sleep(POLL_INTERVAL_MS));
    commands
}

/// A round of the poller only ever samples, waits or ends, and it ends
/// exactly when it has been told to stop.
pub proof fn lemma_round_is_harmless(watches: Seq<Watch>, stop: bool)
    ensures
        forall|i: int|
            0 <= i < round(watches, stop).len() ==> (#[trigger] round(watches, stop)[i]
                is Finish) == stop,
        stop ==> round(watches, stop) == seq![PollCommand::Finish],
        !stop ==> round(watches, stop).len() == watches.len() + 1 && round(watches, stop).last()
            == PollCommand::Sleep(POLL_INTERVAL_MS),
{
}

} // verus!
