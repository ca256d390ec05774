//! What can go wrong with one render request.

use vstd::prelude::*;
use vstd::string::StringExecFns;

verus! {

/// Why the measurement of the graphic gave no size.
#[derive(Clone, Debug, PartialEq, Eq)]
pub enum MeasureFailure {
    /// The document holds no graphic element.
    ElementNotFound,
    /// The probe could not be evaluated; the browser's words.
    Probe(String),
}

/// The failure of a render request, by the step that failed.
#[derive(Clone, Debug, PartialEq, Eq)]
pub enum RenderError {
    /// No rendering context could be opened; the browser's words.
    ContextUnavailable(String),
    /// The context refused to emulate the screen media type.
    EmulationFailed(String),
    /// The document could not be injected.
    InjectionFailed(String),
    /// The graphic could not be measured.
    MeasurementFailed(MeasureFailure),
    /// The print command was rejected.
    PrintFailed(String),
    /// The browser answered a command with a reply of another command.
    OutOfSequence,
}

/// The step of a request at which it failed.
#[derive(Clone, Copy, Debug, PartialEq, Eq, Structural)]
pub enum ErrorKind {
    ContextUnavailable,
    EmulationFailed,
    InjectionFailed,
    MeasurementFailed,
    PrintFailed,
    OutOfSequence,
}

/// `MeasureFailure` as a mathematical value.
pub enum MeasureFailureModel {
    ElementNotFound,
    Probe(Seq<char>),
}

/// `RenderError` as a mathematical value.
pub enum RenderErrorModel {
    ContextUnavailable(Seq<char>),
    EmulationFailed(Seq<char>),
    InjectionFailed(Seq<char>),
    MeasurementFailed(MeasureFailureModel),
    PrintFailed(Seq<char>),
    OutOfSequence,
}

impl View for MeasureFailure {
    type V = MeasureFailureModel;

    open spec fn view(&self) -> MeasureFailureModel {
        match self {
            MeasureFailure::ElementNotFound => MeasureFailureModel::ElementNotFound,
            MeasureFailure::Probe(words) => MeasureFailureModel::Probe(words@),
        }
    }
}

impl View for RenderError {
    type V = RenderErrorModel;

    open spec fn view(&self) -> RenderErrorModel {
        match self {
            RenderError::ContextUnavailable(words) => RenderErrorModel::ContextUnavailable(words@),
            RenderError::EmulationFailed(words) => RenderErrorModel::EmulationFailed(words@),
            RenderError::InjectionFailed(words) => RenderErrorModel::InjectionFailed(words@),
            RenderError::MeasurementFailed(why) => RenderErrorModel::MeasurementFailed(why@),
            RenderError::PrintFailed(words) => RenderErrorModel::PrintFailed(words@),
            RenderError::OutOfSequence => RenderErrorModel::OutOfSequence,
        }
    }
}

/// What is said of a graphic element that is not there.
pub const NO_GRAPHIC_ELEMENT: &'static str = "no graphic element found";

/// What is said of a reply that answers another command.
pub const UNEXPECTED_REPLY: &'static str = "unexpected reply from the browser";

/// What separates the name of the failed step from its cause.
pub const CAUSE_SEPARATOR: &'static str = ": ";

impl ErrorKind {
    /// The name of the failed step, as it opens an error's description.
    pub open spec fn spec_label(self) -> Seq<char> {
        match self {
            ErrorKind::ContextUnavailable => "context unavailable"@,
            ErrorKind::EmulationFailed => "media emulation failed"@,
            ErrorKind::InjectionFailed => "content injection failed"@,
            ErrorKind::MeasurementFailed => "measurement failed"@,
            ErrorKind::PrintFailed => "print failed"@,
            ErrorKind::OutOfSequence => "out of sequence"@,
        }
    }

    /// The name of the failed step.
    pub fn label(&self) -> (text: &'static str)
        ensures
            text@ == self.spec_label(),
    {
        match self {
            ErrorKind::ContextUnavailable => "context unavailable",
            ErrorKind::EmulationFailed => "media emulation failed",
            ErrorKind::InjectionFailed => "content injection failed",
            ErrorKind::MeasurementFailed => "measurement failed",
            ErrorKind::PrintFailed => "print failed",
            ErrorKind::OutOfSequence => "out of sequence",
        }
    }
}

impl RenderErrorModel {
    /// The step that failed.
    pub open spec fn kind(self) -> ErrorKind {
        match self {
            RenderErrorModel::ContextUnavailable(_) => ErrorKind::ContextUnavailable,
            RenderErrorModel::EmulationFailed(_) => ErrorKind::EmulationFailed,
            RenderErrorModel::InjectionFailed(_) => ErrorKind::InjectionFailed,
            RenderErrorModel::MeasurementFailed(_) => ErrorKind::MeasurementFailed,
            RenderErrorModel::PrintFailed(_) => ErrorKind::PrintFailed,
            RenderErrorModel::OutOfSequence => ErrorKind::OutOfSequence,
        }
    }

    /// The underlying cause, in words.
    pub open spec fn cause(self) -> Seq<char> {
        match self {
            RenderErrorModel::ContextUnavailable(words) => words,
            RenderErrorModel::EmulationFailed(words) => words,
            RenderErrorModel::InjectionFailed(words) => words,
            RenderErrorModel::MeasurementFailed(MeasureFailureModel::ElementNotFound) =>
                NO_GRAPHIC_ELEMENT@,
            RenderErrorModel::MeasurementFailed(MeasureFailureModel::Probe(words)) => words,
            RenderErrorModel::PrintFailed(words) => words,
            RenderErrorModel::OutOfSequence => UNEXPECTED_REPLY@,
        }
    }

    /// The description: the failed step, a separator, the cause.
    pub open spec fn message(self) -> Seq<char> {
        self.kind().spec_label() + CAUSE_SEPARATOR@ + self.cause()
    }

    /// The failure is that the document holds no graphic element.
    pub open spec fn is_element_not_found(self) -> bool {
        self == RenderErrorModel::MeasurementFailed(MeasureFailureModel::ElementNotFound)
    }
}

impl RenderError {
    /// The step that failed.
    pub fn kind(&self) -> (kind: ErrorKind)
        ensures
            kind == self@.kind(),
    {
        match self {
            RenderError::ContextUnavailable(_) => ErrorKind::ContextUnavailable,
            RenderError::EmulationFailed(_) => ErrorKind::EmulationFailed,
            RenderError::InjectionFailed(_) => ErrorKind::InjectionFailed,
            RenderError::MeasurementFailed(_) => ErrorKind::MeasurementFailed,
            RenderError::PrintFailed(_) => ErrorKind::PrintFailed,
            RenderError::OutOfSequence => ErrorKind::OutOfSequence,
        }
    }

    /// Whether the request failed because the document holds no graphic
    /// element.
    pub fn is_element_not_found(&self) -> (found_none: bool)
        ensures
            found_none == self@.is_element_not_found(),
    {
        match self {
            RenderError::MeasurementFailed(MeasureFailure::ElementNotFound) => true,
            _ => false,
        }
    }

    /// The description of the failure: the failed step, then the cause as
    /// the browser gave it. Diagnostic text, not a format to rely on.
    pub fn message(&self) -> (text: String)
        ensures
            text@ == self@.message(),
    {
        let mut text = String::from_str(self.kind().label());
        text.append(CAUSE_SEPARATOR);
        match self {
            RenderError::ContextUnavailable(words) => text.append(words.as_str()),
            RenderError::EmulationFailed(words) => text.append(words.as_str()),
            RenderError::InjectionFailed(words) => text.append(words.as_str()),
            RenderError::MeasurementFailed(MeasureFailure::ElementNotFound) => text.append(
                NO_GRAPHIC_ELEMENT,
            ),
            RenderError::MeasurementFailed(MeasureFailure::Probe(words)) => text.append(
                words.as_str(),
            ),
            RenderError::PrintFailed(words) => text.append(words.as_str()),
            RenderError::OutOfSequence => text.append(UNEXPECTED_REPLY),
        }
        text
    }
}

} // verus!
