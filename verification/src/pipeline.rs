//! The command sequence of one render request, as a state machine.
//!
//! The caller performs each `Action` against the browser and hands back what
//! came of it as an `Event`; `RenderState::step` decides what happens next.
//! A request opens one rendering context, emulates the screen media type,
//! injects the document, measures the graphic, prints, and closes the context
//! whatever happened in between. No step is tried twice.

use vstd::prelude::*;
use vstd::string::StringExecFns;
use crate::document::{document_of, wrap_markup, MEASURE_PROBE, SCREEN_MEDIA};
use crate::error::{MeasureFailure, MeasureFailureModel, RenderError, RenderErrorModel};
use crate::paper::{settings_for, settings_of, MeasuredSize, PrintSettings, PrintSettingsModel};

verus! {

/// Where a request stands: which reply it waits for.
#[derive(Debug, PartialEq, Eq)]
pub enum RenderState {
    /// A rendering context was asked for.
    Opening { markup: String },
    /// The context is open and was told to emulate the screen media type.
    Emulating { markup: String },
    /// The document is being injected.
    Injecting,
    /// The probe is measuring the graphic.
    Measuring,
    /// The print command was issued.
    Printing,
    /// The context was told to close; `outcome` waits to be delivered.
    Closing { outcome: Result<Vec<u8>, RenderError> },
    /// The outcome was delivered. Nothing more happens.
    Done,
}

/// What came of the last command.
#[derive(Debug, PartialEq, Eq)]
pub enum Event {
    /// A rendering context is open.
    Opened,
    /// The context emulates the media type.
    MediaSet,
    /// The document is in place.
    ContentSet,
    /// The probe found a graphic element of this size.
    Measured(MeasuredSize),
    /// The probe found no graphic element.
    ElementMissing,
    /// The print succeeded with these bytes.
    Printed(Vec<u8>),
    /// The context is closed.
    Closed,
    /// The command failed; the browser's words.
    Failed(String),
}

/// What the caller is to do next.
#[derive(Debug, PartialEq, Eq)]
pub enum Action {
    /// Open a fresh rendering context.
    OpenContext,
    /// Make the context emulate this media type.
    EmulateMedia(String),
    /// Replace the context's content by this document.
    SetContent(String),
    /// Evaluate this measurement probe in the context.
    Measure(String),
    /// Print the document to PDF with these settings.
    Print(PrintSettings),
    /// Close the context.
    CloseContext,
    /// Hand the outcome to whoever asked: the request is over.
    Deliver(Result<Vec<u8>, RenderError>),
    /// Nothing: the request was over before.
    Nothing,
}

/// The outcome of a request as a mathematical value.
pub type OutcomeModel = Result<Seq<u8>, RenderErrorModel>;

/// `RenderState` as a mathematical value.
pub enum StateModel {
    Opening { markup: Seq<char> },
    Emulating { markup: Seq<char> },
    Injecting,
    Measuring,
    Printing,
    Closing { outcome: OutcomeModel },
    Done,
}

/// `Event` as a mathematical value.
pub enum EventModel {
    Opened,
    MediaSet,
    ContentSet,
    Measured(MeasuredSize),
    ElementMissing,
    Printed(Seq<u8>),
    Closed,
    Failed(Seq<char>),
}

/// `Action` as a mathematical value.
pub enum ActionModel {
    OpenContext,
    EmulateMedia(Seq<char>),
    SetContent(Seq<char>),
    Measure(Seq<char>),
    Print(PrintSettingsModel),
    CloseContext,
    Deliver(OutcomeModel),
    Nothing,
}

/// An outcome as a mathematical value.
pub open spec fn outcome_view(outcome: Result<Vec<u8>, RenderError>) -> OutcomeModel {
    match outcome {
        Ok(bytes) => Ok(bytes@),
        Err(error) => Err(error@),
    }
}

impl View for RenderState {
    type V = StateModel;

    open spec fn view(&self) -> StateModel {
        match self {
            RenderState::Opening { markup } => StateModel::Opening { markup: markup@ },
            RenderState::Emulating { markup } => StateModel::Emulating { markup: markup@ },
            RenderState::Injecting => StateModel::Injecting,
            RenderState::Measuring => StateModel::Measuring,
            RenderState::Printing => StateModel::Printing,
            RenderState::Closing { outcome } => StateModel::Closing {
                outcome: outcome_view(*outcome),
            },
            RenderState::Done => StateModel::Done,
        }
    }
}

impl View for Event {
    type V = EventModel;

    open spec fn view(&self) -> EventModel {
        match self {
            Event::Opened => EventModel::Opened,
            Event::MediaSet => EventModel::MediaSet,
            Event::ContentSet => EventModel::ContentSet,
            Event::Measured(size) => EventModel::Measured(*size),
            Event::ElementMissing => EventModel::ElementMissing,
            Event::Printed(bytes) => EventModel::Printed(bytes@),
            Event::Closed => EventModel::Closed,
            Event::Failed(words) => EventModel::Failed(words@),
        }
    }
}

impl View for Action {
    type V = ActionModel;

    open spec fn view(&self) -> ActionModel {
        match self {
            Action::OpenContext => ActionModel::OpenContext,
            Action::EmulateMedia(media) => ActionModel::EmulateMedia(media@),
            Action::SetContent(document) => ActionModel::SetContent(document@),
            Action::Measure(probe) => ActionModel::Measure(probe@),
            Action::Print(settings) => ActionModel::Print(settings@),
            Action::CloseContext => ActionModel::CloseContext,
            Action::Deliver(outcome) => ActionModel::Deliver(outcome_view(*outcome)),
            Action::Nothing => ActionModel::Nothing,
        }
    }
}

/// The state in which a request for `markup` begins.
pub open spec fn initial(markup: Seq<char>) -> StateModel {
    StateModel::Opening { markup }
}

/// The request gives up on its open context: the context is closed, and
/// `error` is delivered after that.
pub open spec fn abandon(error: RenderErrorModel) -> (StateModel, ActionModel) {
    (StateModel::Closing { outcome: Err(error) }, ActionModel::CloseContext)
}

/// The failure of the step that `state` waits for, when `event` is not the
/// reply that lets it go on: the browser's words where it reported a
/// failure, and else a reply out of sequence.
pub open spec fn failure_of(state: StateModel, event: EventModel) -> RenderErrorModel {
    match event {
        EventModel::Failed(words) => match state {
            StateModel::Opening { .. } => RenderErrorModel::ContextUnavailable(words),
            StateModel::Emulating { .. } => RenderErrorModel::EmulationFailed(words),
            StateModel::Injecting => RenderErrorModel::InjectionFailed(words),
            StateModel::Measuring => RenderErrorModel::MeasurementFailed(
                MeasureFailureModel::Probe(words),
            ),
            StateModel::Printing => RenderErrorModel::PrintFailed(words),
            _ => RenderErrorModel::OutOfSequence,
        },
        EventModel::ElementMissing => match state {
            StateModel::Measuring => RenderErrorModel::MeasurementFailed(
                MeasureFailureModel::ElementNotFound,
            ),
            _ => RenderErrorModel::OutOfSequence,
        },
        _ => RenderErrorModel::OutOfSequence,
    }
}

/// The transition function: the state after `event` and the action that it
/// calls for.
///
/// The reply that a state waits for moves the request one step on. Any other
/// event ends it with `failure_of`: at once where no context is open yet,
/// and else after closing the context. Whatever answers the close command,
/// the recorded outcome is then delivered. A request that is done stays so.
pub open spec fn next(state: StateModel, event: EventModel) -> (StateModel, ActionModel) {
    match (state, event) {
        (StateModel::Opening { markup }, EventModel::Opened) => (
            StateModel::Emulating { markup },
            ActionModel::EmulateMedia(SCREEN_MEDIA@),
        ),
        (StateModel::Opening { .. }, _) => (
            StateModel::Done,
            ActionModel::Deliver(Err(failure_of(state, event))),
        ),
        (StateModel::Emulating { markup }, EventModel::MediaSet) => (
            StateModel::Injecting,
            ActionModel::SetContent(document_of(markup)),
        ),
        (StateModel::Injecting, EventModel::ContentSet) => (
            StateModel::Measuring,
            ActionModel::Measure(MEASURE_PROBE@),
        ),
        (StateModel::Measuring, EventModel::Measured(size)) => (
            StateModel::Printing,
            ActionModel::Print(settings_of(size)),
        ),
        (StateModel::Printing, EventModel::Printed(bytes)) => (
            StateModel::Closing { outcome: Ok(bytes) },
            ActionModel::CloseContext,
        ),
        (StateModel::Closing { outcome }, _) => (StateModel::Done, ActionModel::Deliver(outcome)),
        (StateModel::Done, _) => (StateModel::Done, ActionModel::Nothing),
        _ => abandon(failure_of(state, event)),
    }
}

/// The failure of the step that is under way, in the state `waiting`, given
/// an event that does not let it go on.
fn failure(waiting: &RenderState, event: Event) -> (error: RenderError)
    ensures
        error@ == failure_of(waiting@, event@),
{
    match event {
        Event::Failed(words) => match waiting {
            RenderState::Opening { .. } => RenderError::ContextUnavailable(words),
            RenderState::Emulating { .. } => RenderError::EmulationFailed(words),
            RenderState::Injecting => RenderError::InjectionFailed(words),
            RenderState::Measuring => RenderError::MeasurementFailed(MeasureFailure::Probe(words)),
            RenderState::Printing => RenderError::PrintFailed(words),
            _ => RenderError::OutOfSequence,
        },
        Event::ElementMissing => match waiting {
            RenderState::Measuring => RenderError::MeasurementFailed(
                MeasureFailure::ElementNotFound,
            ),
            _ => RenderError::OutOfSequence,
        },
        _ => RenderError::OutOfSequence,
    }
}

impl RenderState {
    /// Begins a request for `markup`: the first thing to do is to open a
    /// rendering context.
    pub fn start(markup: &str) -> (begun: (RenderState, Action))
        ensures
            begun.0@ == initial(markup@),
            begun.1@ == ActionModel::OpenContext,
    {
        (RenderState::Opening { markup: String::from_str(markup) }, Action::OpenContext)
    }

    /// Whether the request is over: its outcome was delivered.
    pub fn is_done(&self) -> (done: bool)
        ensures
            done == (self@ is Done),
    {
        match self {
            RenderState::Done => true,
            _ => false,
        }
    }

    /// Whether the request holds a rendering context that was opened for it
    /// and not yet told to close.
    pub fn holds_context(&self) -> (held: bool)
        ensures
            held == holds_context(self@),
    {
        match self {
            RenderState::Emulating { .. } => true,
            RenderState::Injecting => true,
            RenderState::Measuring => true,
            RenderState::Printing => true,
            _ => false,
        }
    }

    /// Takes what came of the last command and decides what to do next.
    pub fn step(self, event: Event) -> (stepped: (RenderState, Action))
        ensures
            (stepped.0@, stepped.1@) == next(self@, event@),
    {
        match self {
            RenderState::Opening { markup } => match event {
                Event::Opened => (
                    RenderState::Emulating { markup },
                    Action::EmulateMedia(String::from_str(SCREEN_MEDIA)),
                ),
                other => {
                    let waiting = RenderState::Opening { markup };
                    let error = failure(&waiting, other);
                    (RenderState::Done, Action::Deliver(Err(error)))
                },
            },
            RenderState::Emulating { markup } => match event {
                Event::MediaSet => (
                    RenderState::Injecting,
                    Action::SetContent(wrap_markup(markup.as_str())),
                ),
                other => {
                    let waiting = RenderState::Emulating { markup };
                    let error = failure(&waiting, other);
                    (RenderState::Closing { outcome: Err(error) }, Action::CloseContext)
                },
            },
            RenderState::Injecting => match event {
                Event::ContentSet => (
                    RenderState::Measuring,
                    Action::Measure(String::from_str(MEASURE_PROBE)),
                ),
                other => {
                    let error = failure(&RenderState::Injecting, other);
                    (RenderState::Closing { outcome: Err(error) }, Action::CloseContext)
                },
            },
            RenderState::Measuring => match event {
                Event::Measured(size) => (RenderState::Printing, Action::Print(settings_for(size))),
                other => {
                    let error = failure(&RenderState::Measuring, other);
                    (RenderState::Closing { outcome: Err(error) }, Action::CloseContext)
                },
            },
            RenderState::Printing => match event {
                Event::Printed(bytes) => (
                    RenderState::Closing { outcome: Ok(bytes) },
                    Action::CloseContext,
                ),
                other => {
                    let error = failure(&RenderState::Printing, other);
                    (RenderState::Closing { outcome: Err(error) }, Action::CloseContext)
                },
            },
            RenderState::Closing { outcome } => (RenderState::Done, Action::Deliver(outcome)),
            RenderState::Done => (RenderState::Done, Action::Nothing),
        }
    }
}

/// Whether a request in this state holds a rendering context that was opened
/// for it and not yet told to close.
pub open spec fn holds_context(state: StateModel) -> bool {
    state is Emulating || state is Injecting || state is Measuring || state is Printing
}

} // verus!
