//! The positional command lines of the programs, and the typed
//! configuration that each of them is read into before anything is built.

use crate::error::PipelineError;
use crate::error::ErrorView;
use crate::text::{
    join_fields, lemma_split_nonempty, parse_i32, parse_unsigned, signed_literal, split,
    split_fields, unsigned_literal,
};
use vstd::prelude::*;

verus! {

/// The part that a program plays, which decides its command line and the
/// pipeline it builds.
#[derive(Clone, Copy, Debug, PartialEq, Eq, Structural)]
pub enum Role {
    /// Receives, with a jitter-buffer latency and a FEC storage window.
    Receiver,
    /// Receives, with nothing to choose but the port.
    BasicReceiver,
    /// Sends live audio at the encoder's own frame size.
    BaselineTransmitter,
    /// Sends live audio.
    Transmitter,
    /// Sends a synthetic tone.
    TestTransmitter,
}

/// One positional argument of a command line.
#[derive(Clone, Copy, Debug, PartialEq, Eq, Structural)]
pub enum Argument {
    Address,
    Port,
    Latency,
    SizeTime,
    OpusBitrate,
    OpusFrameSize,
    Percentage,
    PercentageImportant,
    Wave,
    Freq,
}

/// The highest redundancy that can be asked for, in percent.
pub const MAX_PERCENTAGE: u32 = 100;

/// Nanoseconds in a millisecond.
pub const NANOS_PER_MILLI: u64 = 1_000_000;

/// The storage window of a receiver that cannot choose it, in nanoseconds.
pub const DEFAULT_STORAGE_WINDOW_NS: u64 = 250_000_000;

impl Role {
    /// The positional arguments of this role, in the order in which they
    /// are written and read.
    pub open spec fn layout(self) -> Seq<Argument> {
        match self {
            Role::Receiver => seq![Argument::Port, Argument::Latency, Argument::SizeTime],
            Role::BasicReceiver => seq![Argument::Port],
            Role::BaselineTransmitter => seq![
                Argument::Address,
                Argument::Port,
                Argument::OpusBitrate,
                Argument::Percentage,
                Argument::PercentageImportant,
            ],
            Role::Transmitter => seq![
                Argument::Address,
                Argument::Port,
                Argument::OpusBitrate,
                Argument::OpusFrameSize,
                Argument::Percentage,
                Argument::PercentageImportant,
            ],
            Role::TestTransmitter => seq![
                Argument::Address,
                Argument::Port,
                Argument::OpusBitrate,
                Argument::OpusFrameSize,
                Argument::Percentage,
                Argument::PercentageImportant,
                Argument::Wave,
                Argument::Freq,
            ],
        }
    }

    /// What the usage message shows after the program's name: the names of
    /// the arguments in order, with a space between neighbours.
    pub open spec fn synopsis_text(self) -> Seq<char> {
        join_fields(self.layout().map_values(|a: Argument| a.name_text()), ' ')
    }

    /// The name of the program that plays this role.
    pub open spec fn program_text(self) -> Seq<char> {
        match self {
            Role::Receiver => "receiver"@,
            Role::BasicReceiver => "basic_receiver"@,
            Role::BaselineTransmitter => "baseline_transmitter"@,
            Role::Transmitter => "transmitter"@,
            Role::TestTransmitter => "transmitter_audiotestsrc"@,
        }
    }

    /// The role of the program that was called by the path `program`: the
    /// one whose program name the path ends with, and that of the basic
    /// receiver where it ends with none of them.
    pub open spec fn called_as(program: Seq<char>) -> Role {
        let name = split_fields(program, '/').last();
        if name == Role::Receiver.program_text() {
            Role::Receiver
        } else if name == Role::Transmitter.program_text() {
            Role::Transmitter
        } else if name == Role::TestTransmitter.program_text() {
            Role::TestTransmitter
        } else if name == Role::BaselineTransmitter.program_text() {
            Role::BaselineTransmitter
        } else {
            Role::BasicReceiver
        }
    }

    /// Whether the role sends; the others receive.
    pub open spec fn sends(self) -> bool {
        self is BaselineTransmitter || self is Transmitter || self is TestTransmitter
    }

    /// The positional arguments of this role, in order.
    pub fn arguments(self) -> (list: Vec<Argument>)
        ensures
            list@ == self.layout(),
    {
        let mut list: Vec<Argument> = Vec::new();
        match self {
            Role::Receiver => {
                list.push(Argument::Port);
                list.push(Argument::Latency);
                list.push(Argument::SizeTime);
            },
            Role::BasicReceiver => {
                list.push(Argument::Port);
            },
            Role::BaselineTransmitter => {
                list.push(Argument::Address);
                list.push(Argument::Port);
                list.push(Argument::OpusBitrate);
                list.push(Argument::Percentage);
                list.push(Argument::PercentageImportant);
            },
            Role::Transmitter => {
                list.push(Argument::Address);
                list.push(Argument::Port);
                list.push(Argument::OpusBitrate);
                list.push(Argument::OpusFrameSize);
                list.push(Argument::Percentage);
                list.push(Argument::PercentageImportant);
            },
            Role::TestTransmitter => {
                list.push(Argument::Address);
                list.push(Argument::Port);
                list.push(Argument::OpusBitrate);
                list.push(Argument::OpusFrameSize);
                list.push(Argument::Percentage);
                list.push(Argument::PercentageImportant);
                list.push(Argument::Wave);
                list.push(Argument::Freq);
            },
        }
        assert(list@ =~= self.layout());
        list
    }

    /// How many positional arguments the role takes.
    pub fn arity(self) -> (n: usize)
        ensures
            n == self.layout().len(),
    {
        match self {
            Role::Receiver => 3,
            Role::BasicReceiver => 1,
            Role::BaselineTransmitter => 5,
            Role::Transmitter => 6,
            Role::TestTransmitter => 8,
        }
    }

    /// What the usage message shows after the program's name.
    pub fn synopsis(self) -> (text: String)
        ensures
            text@ == self.synopsis_text(),
    {
        let list = self.arguments();
        let ghost names = self.layout().map_values(|a: Argument| a.name_text());
        let mut text = String::new();
        let mut i: usize = 0;
        while i < list.len()
            invariant
                list@ == self.layout(),
                names == self.layout().map_values(|a: Argument| a.name_text()),
                i <= list.len(),
                text@ == join_fields(names.take(i as int), ' '),
            decreases list.len() - i,
        {
            let ghost before = names.take(i as int);
            let ghost after = names.take(i as int + 1);
            proof {
                assert(after.drop_last() =~= before);
                assert(after.last() == list@[i as int].name_text());
            }
            if i > 0 {
                text.append(" ");
                proof {
                    reveal_strlit(" ");
                    assert(" "@ =~= seq![' ']);
                    assert(before.push(after.last()) =~= after);
                    assert(text@ =~= join_fields(before, ' ').push(' '));
                }
            } else {
                proof {
                    assert(after.len() == 1);
                    assert(text@ + after[0] =~= after[0]);
                }
            }
            text.append(list[i].name());
            i = i + 1;
        }
        proof {
            assert(names.take(list.len() as int) =~= names);
        }
        text
    }

    /// The name of the program that plays this role.
    pub fn program_name(self) -> (name: &'static str)
        ensures
            name@ == self.program_text(),
    {
        match self {
            Role::Receiver => "receiver",
            Role::BasicReceiver => "basic_receiver",
            Role::BaselineTransmitter => "baseline_transmitter",
            Role::Transmitter => "transmitter",
            Role::TestTransmitter => "transmitter_audiotestsrc",
        }
    }

    /// The role of the program that was called by the path `program`; see
    /// `called_as`.
    pub fn for_program(program: &str) -> (role: Role)
        ensures
            role == Role::called_as(program@),
    {
        let parts = split(program, '/');
        proof {
            lemma_split_nonempty(program@, '/');
        }
        let name = String::from_str(parts[parts.len() - 1]);
        if name == String::from_str(Role::Receiver.program_name()) {
            Role::Receiver
        } else if name == String::from_str(Role::Transmitter.program_name()) {
            Role::Transmitter
        } else if name == String::from_str(Role::TestTransmitter.program_name()) {
            Role::TestTransmitter
        } else if name == String::from_str(Role::BaselineTransmitter.program_name()) {
            Role::BaselineTransmitter
        } else {
            Role::BasicReceiver
        }
    }

    /// Whether the role sends; the others receive.
    pub fn is_transmitter(self) -> (b: bool)
        ensures
            b == self.sends(),
    {
        match self {
            Role::Receiver => false,
            Role::BasicReceiver => false,
            _ => true,
        }
    }
}

impl Argument {
    /// The argument's name, as usage messages write it.
    pub open spec fn name_text(self) -> Seq<char> {
        match self {
            Argument::Address => "ADDRESS"@,
            Argument::Port => "PORT"@,
            Argument::Latency => "LATENCY"@,
            Argument::SizeTime => "SIZE-TIME(ms)"@,
            Argument::OpusBitrate => "OPUS_BITRATE"@,
            Argument::OpusFrameSize => "OPUS_FRAME_SIZE"@,
            Argument::Percentage => "PERCENTAGE"@,
            Argument::PercentageImportant => "PERCENTAGE_IMPORTANT"@,
            Argument::Wave => "WAVE"@,
            Argument::Freq => "FREQ"@,
        }
    }

    /// The argument's name, as usage messages write it.
    pub fn name(self) -> (text: &'static str)
        ensures
            text@ == self.name_text(),
    {
        match self {
            Argument::Address => "ADDRESS",
            Argument::Port => "PORT",
            Argument::Latency => "LATENCY",
            Argument::SizeTime => "SIZE-TIME(ms)",
            Argument::OpusBitrate => "OPUS_BITRATE",
            Argument::OpusFrameSize => "OPUS_FRAME_SIZE",
            Argument::Percentage => "PERCENTAGE",
            Argument::PercentageImportant => "PERCENTAGE_IMPORTANT",
            Argument::Wave => "WAVE",
            Argument::Freq => "FREQ",
        }
    }
}

impl Argument {
    /// Whether the argument is handed on as it is written; the others are
    /// numbers.
    pub open spec fn is_text(self) -> bool {
        self is Address || self is Freq
    }

    /// Whether the argument is a number that may be negative.
    pub open spec fn is_signed(self) -> bool {
        self is Port || self is OpusBitrate || self is OpusFrameSize || self is Wave
    }

    /// The highest number that is accepted for an argument that may not be
    /// negative: a percentage is at most 100, and a storage window in
    /// milliseconds must still fit 64 bits once it is in nanoseconds.
    pub open spec fn highest(self) -> nat {
        match self {
            Argument::Latency => u32::MAX as nat,
            Argument::SizeTime => (u64::MAX / NANOS_PER_MILLI) as nat,
            Argument::Percentage => MAX_PERCENTAGE as nat,
            Argument::PercentageImportant => MAX_PERCENTAGE as nat,
            _ => 0,
        }
    }

    /// The number that `text` gives this argument, if the argument is a
    /// number and `text` writes one that it accepts.
    pub open spec fn number(self, text: Seq<char>) -> Option<int> {
        if self.is_text() {
            None
        } else if self.is_signed() {
            signed_literal(text, i32::MIN as int, i32::MAX as int)
        } else {
            match unsigned_literal(text, self.highest()) {
                Some(n) => Some(n as int),
                None => None,
            }
        }
    }

    /// Whether `text` is accepted for this argument.
    pub open spec fn accepts(self, text: Seq<char>) -> bool {
        self.is_text() || self.number(text) is Some
    }

    /// Reads `text` as this argument, which is one of the signed numbers.
    fn read_signed(self, text: &String) -> (r: Result<i32, PipelineError>)
        requires
            self.is_signed(),
        ensures
            r matches Ok(v) ==> self.number(text@) == Some(v as int),
            r matches Err(e) ==> self.number(text@) is None && e@ == (ErrorView::InvalidArgument {
                argument: self,
                value: text@,
            }),
    {
        match parse_i32(text.as_str()) {
            Some(v) => Ok(v),
            None => Err(PipelineError::InvalidArgument { argument: self, value: text.clone() }),
        }
    }

    /// Reads `text` as this argument, which is one of the unsigned numbers.
    fn read_unsigned(self, text: &String) -> (r: Result<u64, PipelineError>)
        requires
            !self.is_signed(),
            !self.is_text(),
        ensures
            r matches Ok(v) ==> self.number(text@) == Some(v as int) && v <= self.highest(),
            r matches Err(e) ==> self.number(text@) is None && e@ == (ErrorView::InvalidArgument {
                argument: self,
                value: text@,
            }),
    {
        let max: u64 = match self {
            Argument::Latency => 0xffff_ffff,
            Argument::SizeTime => u64::MAX / NANOS_PER_MILLI,
            Argument::Percentage => MAX_PERCENTAGE as u64,
            Argument::PercentageImportant => MAX_PERCENTAGE as u64,
            _ => 0,
        };
        match parse_unsigned(text.as_str(), max) {
            Some(v) => Ok(v),
            None => Err(PipelineError::InvalidArgument { argument: self, value: text.clone() }),
        }
    }
}

/// How much redundancy the FEC encoder adds, in percent: for all packets,
/// and for those marked important.
#[derive(Clone, Copy, Debug, PartialEq, Eq, Structural)]
pub struct FecParams {
    pub percentage: u32,
    pub percentage_important: u32,
}

/// Where a transmitter sends, and at which bitrate it encodes.
#[derive(Clone, Debug, PartialEq, Eq)]
pub struct Uplink {
    pub address: String,
    pub port: i32,
    pub opus_bitrate: i32,
}

/// What a program was started with, checked once and typed.
#[derive(Clone, Debug, PartialEq, Eq)]
pub enum Config {
    Receiver { port: i32, latency: u32, storage_window_ns: u64 },
    BasicReceiver { port: i32 },
    BaselineTransmitter { uplink: Uplink, fec: FecParams },
    Transmitter { uplink: Uplink, frame_size: i32, fec: FecParams },
    TestTransmitter { uplink: Uplink, frame_size: i32, fec: FecParams, wave: i32, freq: String },
}

/// What an `Uplink` says, with the address as a sequence of characters.
pub struct UplinkView {
    pub address: Seq<char>,
    pub port: i32,
    pub opus_bitrate: i32,
}

/// What a `Config` says, with every text as a sequence of characters.
pub enum ConfigView {
    Receiver { port: i32, latency: u32, storage_window_ns: u64 },
    BasicReceiver { port: i32 },
    BaselineTransmitter { uplink: UplinkView, fec: FecParams },
    Transmitter { uplink: UplinkView, frame_size: i32, fec: FecParams },
    TestTransmitter {
        uplink: UplinkView,
        frame_size: i32,
        fec: FecParams,
        wave: i32,
        freq: Seq<char>,
    },
}

impl View for Uplink {
    type V = UplinkView;

    open spec fn view(&self) -> UplinkView {
        UplinkView { address: self.address@, port: self.port, opus_bitrate: self.opus_bitrate }
    }
}

impl View for Config {
    type V = ConfigView;

    open spec fn view(&self) -> ConfigView {
        match *self {
            Config::Receiver { port, latency, storage_window_ns } => ConfigView::Receiver {
                port,
                latency,
                storage_window_ns,
            },
            Config::BasicReceiver { port } => ConfigView::BasicReceiver { port },
            Config::BaselineTransmitter { uplink, fec } => ConfigView::BaselineTransmitter {
                uplink: uplink@,
                fec,
            },
            Config::Transmitter { uplink, frame_size, fec } => ConfigView::Transmitter {
                uplink: uplink@,
                frame_size,
                fec,
            },
            Config::TestTransmitter {
                uplink,
                frame_size,
                fec,
                wave,
                freq,
            } => ConfigView::TestTransmitter {
                uplink: uplink@,
                frame_size,
                fec,
                wave,
                freq: freq@,
            },
        }
    }
}

impl ConfigView {
    /// The role that the configuration is for.
    pub open spec fn role(self) -> Role {
        match self {
            ConfigView::Receiver { .. } => Role::Receiver,
            ConfigView::BasicReceiver { .. } => Role::BasicReceiver,
            ConfigView::BaselineTransmitter { .. } => Role::BaselineTransmitter,
            ConfigView::Transmitter { .. } => Role::Transmitter,
            ConfigView::TestTransmitter { .. } => Role::TestTransmitter,
        }
    }

    /// The redundancy that a transmitter's FEC encoder is made with.
    pub open spec fn fec(self) -> Option<FecParams> {
        match self {
            ConfigView::BaselineTransmitter { fec, .. } => Some(fec),
            ConfigView::Transmitter { fec, .. } => Some(fec),
            ConfigView::TestTransmitter { fec, .. } => Some(fec),
            _ => None,
        }
    }

    /// The window of the FEC storage of a receiver, in nanoseconds.
    pub open spec fn storage_window_ns(self) -> Option<u64> {
        match self {
            ConfigView::Receiver { storage_window_ns, .. } => Some(storage_window_ns),
            ConfigView::BasicReceiver { .. } => Some(DEFAULT_STORAGE_WINDOW_NS),
            _ => None,
        }
    }
}

impl Config {
    /// The role that the configuration is for.
    pub fn role(&self) -> (role: Role)
        ensures
            role == self@.role(),
    {
        match self {
            Config::Receiver { .. } => Role::Receiver,
            Config::BasicReceiver { .. } => Role::BasicReceiver,
            Config::BaselineTransmitter { .. } => Role::BaselineTransmitter,
            Config::Transmitter { .. } => Role::Transmitter,
            Config::TestTransmitter { .. } => Role::TestTransmitter,
        }
    }

    /// The redundancy that a transmitter's FEC encoder is made with.
    pub fn fec(&self) -> (fec: Option<FecParams>)
        ensures
            fec == self@.fec(),
    {
        match self {
            Config::BaselineTransmitter { fec, .. } => Some(*fec),
            Config::Transmitter { fec, .. } => Some(*fec),
            Config::TestTransmitter { fec, .. } => Some(*fec),
            _ => None,
        }
    }

    /// The window of the FEC storage of a receiver, in nanoseconds.
    pub fn storage_window_ns(&self) -> (window: Option<u64>)
        ensures
            window == self@.storage_window_ns(),
    {
        match self {
            Config::Receiver { storage_window_ns, .. } => Some(*storage_window_ns),
            Config::BasicReceiver { .. } => Some(DEFAULT_STORAGE_WINDOW_NS),
            _ => None,
        }
    }
}

/// The first of `args`, from position `from` on, that its argument in
/// `layout` does not accept.
pub open spec fn first_rejected(layout: Seq<Argument>, args: Seq<Seq<char>>, from: int) -> Option<
    int,
>
    decreases layout.len() - from,
{
    if from < 0 || from >= layout.len() {
        None
    } else if !layout[from].accepts(args[from]) {
        Some(from)
    } else {
        first_rejected(layout, args, from + 1)
    }
}

/// The number that the argument at position `k` of the role's layout gets
/// from `args`.
pub open spec fn number_at(role: Role, args: Seq<Seq<char>>, k: int) -> int {
    role.layout()[k].number(args[k]).unwrap()
}

/// The destination and bitrate that open a transmitter's arguments.
pub open spec fn uplink_of(role: Role, args: Seq<Seq<char>>) -> UplinkView {
    UplinkView {
        address: args[0],
        port: number_at(role, args, 1) as i32,
        opus_bitrate: number_at(role, args, 2) as i32,
    }
}

/// The configuration that the accepted arguments `args` of `role` give.
pub open spec fn config_of(role: Role, args: Seq<Seq<char>>) -> ConfigView {
    match role {
        Role::Receiver => ConfigView::Receiver {
            port: number_at(role, args, 0) as i32,
            latency: number_at(role, args, 1) as u32,
            storage_window_ns: (number_at(role, args, 2) * NANOS_PER_MILLI) as u64,
        },
        Role::BasicReceiver => ConfigView::BasicReceiver { port: number_at(role, args, 0) as i32 },
        Role::BaselineTransmitter => ConfigView::BaselineTransmitter {
            uplink: uplink_of(role, args),
            fec: FecParams {
                percentage: number_at(role, args, 3) as u32,
                percentage_important: number_at(role, args, 4) as u32,
            },
        },
        Role::Transmitter => ConfigView::Transmitter {
            uplink: uplink_of(role, args),
            frame_size: number_at(role, args, 3) as i32,
            fec: FecParams {
                percentage: number_at(role, args, 4) as u32,
                percentage_important: number_at(role, args, 5) as u32,
            },
        },
        Role::TestTransmitter => ConfigView::TestTransmitter {
            uplink: uplink_of(role, args),
            frame_size: number_at(role, args, 3) as i32,
            fec: FecParams {
                percentage: number_at(role, args, 4) as u32,
                percentage_important: number_at(role, args, 5) as u32,
            },
            wave: number_at(role, args, 6) as i32,
            freq: args[7],
        },
    }
}

/// What a command line comes to. `argv` opens with the name by which the
/// program was called. With the wrong number of arguments it is a usage
/// error that names the program; else the first argument that is not
/// accepted is reported; else the configuration is read.
pub open spec fn parse_outcome(role: Role, argv: Seq<Seq<char>>) -> Result<ConfigView, ErrorView> {
    if argv.len() != role.layout().len() + 1 {
        Err(
            ErrorView::UsageError {
                program: if argv.len() > 0 {
                    argv[0]
                } else {
                    Seq::<char>::empty()
                },
                role,
            },
        )
    } else {
        let args = argv.skip(1);
        match first_rejected(role.layout(), args, 0) {
            Some(k) => Err(
                ErrorView::InvalidArgument { argument: role.layout()[k], value: args[k] },
            ),
            None => Ok(config_of(role, args)),
        }
    }
}

/// Reads the three arguments that open every transmitter's command line.
fn read_uplink(role: Role, argv: &Vec<String>) -> (r: Result<Uplink, PipelineError>)
    requires
        role.sends(),
        argv@.len() == role.layout().len() + 1,
    ensures
        r matches Ok(uplink) ==> first_rejected(role.layout(), argv.deep_view().skip(1), 0)
            == first_rejected(role.layout(), argv.deep_view().skip(1), 3) && uplink@ == uplink_of(
            role,
            argv.deep_view().skip(1),
        ),
        r matches Err(e) ==> parse_outcome(role, argv.deep_view()) == Err::<ConfigView, ErrorView>(
            e@,
        ),
{
    let ghost args = argv.deep_view().skip(1);
    proof {
        reveal_with_fuel(first_rejected, 4);
        assert(argv.deep_view().len() == argv@.len());
        assert(args[0] == argv@[1]@);
        assert(args[1] == argv@[2]@);
        assert(args[2] == argv@[3]@);
    }
    let port = match Argument::Port.read_signed(&argv[2]) {
        Ok(v) => v,
        Err(e) => {
            return Err(e);
        },
    };
    let opus_bitrate = match Argument::OpusBitrate.read_signed(&argv[3]) {
        Ok(v) => v,
        Err(e) => {
            return Err(e);
        },
    };
    Ok(Uplink { address: argv[1].clone(), port, opus_bitrate })
}

/// Reads a command line. `argv` opens with the name by which the program
/// was called; the arguments of `role` follow.
pub fn parse_args(role: Role, argv: &Vec<String>) -> (r: Result<Config, PipelineError>)
    ensures
        match parse_outcome(role, argv.deep_view()) {
            Ok(config) => r matches Ok(got) && got@ == config,
            Err(error) => r matches Err(got) && got@ == error,
        },
{
    let ghost args = argv.deep_view().skip(1);
    proof {
        assert(argv.deep_view().len() == argv@.len());
    }
    if argv.len() != role.arity() + 1 {
        let program = if argv.len() > 0 {
            argv[0].clone()
        } else {
            String::new()
        };
        return Err(PipelineError::UsageError { program, role });
    }
    proof {
        reveal_with_fuel(first_rejected, 10);
        assert forall|k: int| 0 <= k < args.len() implies args[k] == argv@[k + 1]@ by {}
    }
    match role {
        Role::Receiver => {
            let port = match Argument::Port.read_signed(&argv[1]) {
                Ok(v) => v,
                Err(e) => {
                    return Err(e);
                },
            };
            let latency = match Argument::Latency.read_unsigned(&argv[2]) {
                Ok(v) => v,
                Err(e) => {
                    return Err(e);
                },
            };
            let size_time_ms = match Argument::SizeTime.read_unsigned(&argv[3]) {
                Ok(v) => v,
                Err(e) => {
                    return Err(e);
                },
            };
            Ok(
                Config::Receiver {
                    port,
                    latency: latency as u32,
                    storage_window_ns: size_time_ms * NANOS_PER_MILLI,
                },
            )
        },
        Role::BasicReceiver => {
            let port = match Argument::Port.read_signed(&argv[1]) {
                Ok(v) => v,
                Err(e) => {
                    return Err(e);
                },
            };
            Ok(Config::BasicReceiver { port })
        },
        Role::BaselineTransmitter => {
            let uplink = match read_uplink(role, argv) {
                Ok(v) => v,
                Err(e) => {
                    return Err(e);
                },
            };
            let percentage = match Argument::Percentage.read_unsigned(&argv[4]) {
                Ok(v) => v,
                Err(e) => {
                    return Err(e);
                },
            };
            let percentage_important = match Argument::PercentageImportant.read_unsigned(&argv[5]) {
                Ok(v) => v,
                Err(e) => {
                    return Err(e);
                },
            };
            Ok(
                Config::BaselineTransmitter {
                    uplink,
                    fec: FecParams {
                        percentage: percentage as u32,
                        percentage_important: percentage_important as u32,
                    },
                },
            )
        },
        Role::Transmitter => {
            let uplink = match read_uplink(role, argv) {
                Ok(v) => v,
                Err(e) => {
                    return Err(e);
                },
            };
            let frame_size = match Argument::OpusFrameSize.read_signed(&argv[4]) {
                Ok(v) => v,
                Err(e) => {
                    return Err(e);
                },
            };
            let percentage = match Argument::Percentage.read_unsigned(&argv[5]) {
                Ok(v) => v,
                Err(e) => {
                    return Err(e);
                },
            };
            let percentage_important = match Argument::PercentageImportant.read_unsigned(&argv[6]) {
                Ok(v) => v,
                Err(e) => {
                    return Err(e);
                },
            };
            Ok(
                Config::Transmitter {
                    uplink,
                    frame_size,
                    fec: FecParams {
                        percentage: percentage as u32,
                        percentage_important: percentage_important as u32,
                    },
                },
            )
        },
        Role::TestTransmitter => {
            let uplink = match read_uplink(role, argv) {
                Ok(v) => v,
                Err(e) => {
                    return Err(e);
                },
            };
            let frame_size = match Argument::OpusFrameSize.read_signed(&argv[4]) {
                Ok(v) => v,
                Err(e) => {
                    return Err(e);
                },
            };
            let percentage = match Argument::Percentage.read_unsigned(&argv[5]) {
                Ok(v) => v,
                Err(e) => {
                    return Err(e);
                },
            };
            let percentage_important = match Argument::PercentageImportant.read_unsigned(&argv[6]) {
                Ok(v) => v,
                Err(e) => {
                    return Err(e);
                },
            };
            let wave = match Argument::Wave.read_signed(&argv[7]) {
                Ok(v) => v,
                Err(e) => {
                    return Err(e);
                },
            };
            Ok(
                Config::TestTransmitter {
                    uplink,
                    frame_size,
                    fec: FecParams {
                        percentage: percentage as u32,
                        percentage_important: percentage_important as u32,
                    },
                    wave,
                    freq: argv[8].clone(),
                },
            )
        },
    }
}

/// A command line with the wrong number of arguments is a usage error that
/// names the program, whatever role it is for and whatever the arguments
/// hold; and only then is it one.
pub proof fn lemma_wrong_count_is_usage_error(role: Role, argv: Seq<Seq<char>>)
    ensures
        argv.len() != role.layout().len() + 1 <==> parse_outcome(role, argv) matches Err(
            ErrorView::UsageError { .. },
        ),
        argv.len() != role.layout().len() + 1 && argv.len() > 0 ==> parse_outcome(role, argv)
            == Err::<ConfigView, ErrorView>(ErrorView::UsageError { program: argv[0], role }),
{
}

/// A configuration that was read keeps within its bounds: its role is the
/// one that was asked for, a redundancy is at most 100 percent, and the
/// storage window is the given number of milliseconds in nanoseconds.
pub proof fn lemma_accepted_config_in_range(role: Role, argv: Seq<Seq<char>>)
    requires
        parse_outcome(role, argv) is Ok,
    ensures
        ({
            let config = parse_outcome(role, argv)->Ok_0;
            &&& config.role() == role
            &&& config.fec() matches Some(fec) ==> fec.percentage <= MAX_PERCENTAGE
                && fec.percentage_important <= MAX_PERCENTAGE
            &&& config matches ConfigView::Receiver { storage_window_ns, .. } ==> unsigned_literal(
                argv[3],
                (u64::MAX / NANOS_PER_MILLI) as nat,
            ) == Some((storage_window_ns / NANOS_PER_MILLI) as nat) && storage_window_ns
                % NANOS_PER_MILLI == 0
        }),
{
    let args = argv.skip(1);
    let layout = role.layout();
    reveal_with_fuel(first_rejected, 10);
    assert forall|k: int| 0 <= k < layout.len() implies layout[k].accepts(args[k]) by {
        lemma_none_rejected(layout, args, 0, k);
    }
    match role {
        Role::Receiver => {
            assert(layout[2].accepts(args[2]));
            assert(args[2] == argv[3]);
        },
        Role::BasicReceiver => {},
        Role::BaselineTransmitter => {
            assert(layout[3].accepts(args[3]));
            assert(layout[4].accepts(args[4]));
        },
        Role::Transmitter => {
            assert(layout[4].accepts(args[4]));
            assert(layout[5].accepts(args[5]));
        },
        Role::TestTransmitter => {
            assert(layout[4].accepts(args[4]));
            assert(layout[5].accepts(args[5]));
        },
    }
}

/// Where no argument from `from` on is rejected, each of them is accepted.
proof fn lemma_none_rejected(layout: Seq<Argument>, args: Seq<Seq<char>>, from: int, k: int)
    requires
        0 <= from <= k < layout.len(),
        first_rejected(layout, args, from) is None,
    ensures
        layout[k].accepts(args[k]),
    decreases layout.len() - from,
{
    if from < k {
        lemma_none_rejected(layout, args, from + 1, k);
    }
}

} // verus!
