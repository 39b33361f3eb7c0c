//! The failures that the library reports, and the messages that are shown
//! for them.

use crate::args::{Argument, Role};
use crate::text::{decimal_digits, push_decimal};
use vstd::prelude::*;

verus! {

/// A failure of building, wiring or running a pipeline.
#[derive(Clone, Debug, PartialEq, Eq)]
pub enum PipelineError {
    /// The framework has no factory of this name.
    MissingElement(String),
    /// The pad named first is absent on the element named second.
    NoSuchPad(String, String),
    /// No consumer is known for this payload type.
    UnknownPT(u32),
    /// The command line has the wrong number of arguments.
    UsageError { program: String, role: Role },
    /// The framework reported a fatal error on the message bus.
    ErrorMessage { src: String, error: String, debug: Option<String> },
    /// An argument of the command line cannot be read, or is out of range.
    InvalidArgument { argument: Argument, value: String },
    /// The payload type field of this pad name is no number.
    MalformedPadName(String),
    /// The session element has no storage for this session.
    NoStorage(u32),
    /// The framework refused an operation, with its own words.
    Framework(String),
}

/// What a `PipelineError` says, with every text as a sequence of
/// characters.
pub enum ErrorView {
    MissingElement(Seq<char>),
    NoSuchPad(Seq<char>, Seq<char>),
    UnknownPT(u32),
    UsageError { program: Seq<char>, role: Role },
    ErrorMessage { src: Seq<char>, error: Seq<char>, debug: Option<Seq<char>> },
    InvalidArgument { argument: Argument, value: Seq<char> },
    MalformedPadName(Seq<char>),
    NoStorage(u32),
    Framework(Seq<char>),
}

impl View for PipelineError {
    type V = ErrorView;

    open spec fn view(&self) -> ErrorView {
        match *self {
            PipelineError::MissingElement(name) => ErrorView::MissingElement(name@),
            PipelineError::NoSuchPad(pad, element) => ErrorView::NoSuchPad(pad@, element@),
            PipelineError::UnknownPT(pt) => ErrorView::UnknownPT(pt),
            PipelineError::UsageError { program, role } => ErrorView::UsageError {
                program: program@,
                role,
            },
            PipelineError::ErrorMessage { src, error, debug } => ErrorView::ErrorMessage {
                src: src@,
                error: error@,
                debug: debug.deep_view(),
            },
            PipelineError::InvalidArgument { argument, value } => ErrorView::InvalidArgument {
                argument,
                value: value@,
            },
            PipelineError::MalformedPadName(name) => ErrorView::MalformedPadName(name@),
            PipelineError::NoStorage(session) => ErrorView::NoStorage(session),
            PipelineError::Framework(text) => ErrorView::Framework(text@),
        }
    }
}

/// What the standard debug formatting writes for an optional text: `None`,
/// or `Some(..)` around the text in double quotes with its special
/// characters escaped.
pub uninterp spec fn debug_rendering(text: Option<Seq<char>>) -> Seq<char>;

/// The line shown for a fatal error from the message bus, given the debug
/// detail as it is to be shown.
pub open spec fn bus_error_text(src: Seq<char>, error: Seq<char>, debug_shown: Seq<char>) -> Seq<
    char,
> {
    "Received error from "@ + src + ": "@ + error + " (debug: "@ + debug_shown + ")"@
}

impl ErrorView {
    /// The message shown for the failure.
    pub open spec fn text(self) -> Seq<char> {
        match self {
            ErrorView::MissingElement(name) => "Missing element "@ + name,
            ErrorView::NoSuchPad(pad, element) => "No such pad "@ + pad + " in "@ + element,
            ErrorView::UnknownPT(pt) => "Unknown payload type "@ + decimal_digits(pt as nat),
            ErrorView::UsageError { program, role } => "Usage: "@ + program + " "@
                + role.synopsis_text(),
            ErrorView::ErrorMessage { src, error, debug } => bus_error_text(
                src,
                error,
                debug_rendering(debug),
            ),
            ErrorView::InvalidArgument { argument, value } => "Invalid value "@ + value + " for "@
                + argument.name_text(),
            ErrorView::MalformedPadName(name) => "No payload type in pad name "@ + name,
            ErrorView::NoStorage(session) => "No internal storage for session "@ + decimal_digits(
                session as nat,
            ),
            ErrorView::Framework(text) => text,
        }
    }
}

/// Calls the `Debug` formatting of `Option<String>`, through `format!`. The
/// contract only gives the result its name: what is written depends on
/// nothing but the optional text.
#[verifier::external_body]
fn render_debug(text: &Option<String>) -> (shown: String)
    ensures
        shown@ == debug_rendering(text.deep_view()),
{
    format!("{:?}", text)
}

/// The line shown for a fatal error from the message bus: where it came
/// from, what it says, and the debug detail as it is to be shown.
pub fn bus_error_line(src: &str, error: &str, debug_shown: &str) -> (line: String)
    ensures
        line@ == bus_error_text(src@, error@, debug_shown@),
{
    let mut line = String::from_str("Received error from ");
    line.append(src);
    line.append(": ");
    line.append(error);
    line.append(" (debug: ");
    line.append(debug_shown);
    line.append(")");
    line
}

impl PipelineError {
    /// The message shown for the failure.
    pub fn message(&self) -> (text: String)
        ensures
            text@ == self@.text(),
    {
        match self {
            PipelineError::MissingElement(name) => {
                let mut text = String::from_str("Missing element ");
                text.append(name.as_str());
                text
            },
            PipelineError::NoSuchPad(pad, element) => {
                let mut text = String::from_str("No such pad ");
                text.append(pad.as_str());
                text.append(" in ");
                text.append(element.as_str());
                text
            },
            PipelineError::UnknownPT(pt) => {
                let mut text = String::from_str("Unknown payload type ");
                push_decimal(&mut text, *pt);
                text
            },
            PipelineError::UsageError { program, role } => {
                let mut text = String::from_str("Usage: ");
                text.append(program.as_str());
                text.append(" ");
                let synopsis = role.synopsis();
                text.append(synopsis.as_str());
                text
            },
            PipelineError::ErrorMessage { src, error, debug } => {
                let shown = render_debug(debug);
                bus_error_line(src.as_str(), error.as_str(), shown.as_str())
            },
            PipelineError::InvalidArgument { argument, value } => {
                let mut text = String::from_str("Invalid value ");
                text.append(value.as_str());
                text.append(" for ");
                text.append(argument.name());
                text
            },
            PipelineError::MalformedPadName(name) => {
                let mut text = String::from_str("No payload type in pad name ");
                text.append(name.as_str());
                text
            },
            PipelineError::NoStorage(session) => {
                let mut text = String::from_str("No internal storage for session ");
                push_decimal(&mut text, *session);
                text
            },
            PipelineError::Framework(detail) => {
                let mut text = String::new();
                text.append(detail.as_str());
                assert(text@ =~= detail@);
                text
            },
        }
    }
}

/// What an optional failure says.
pub open spec fn optional_view(error: Option<PipelineError>) -> Option<ErrorView> {
    match error {
        Some(e) => Some(e@),
        None => None,
    }
}

} // verus!
