//! What holds of a request over every sequence of events that may reach it.
//!
//! A request is a run of `next` from `initial` over the events that the
//! caller reports, in order. The statements here speak of all such runs: of
//! the contexts a request opens and gives back, of the document it injects,
//! of the paper it prints on, and of when it succeeds.

use vstd::prelude::*;
use crate::document::document_of;
use crate::error::{MeasureFailureModel, RenderErrorModel};
use crate::paper::{paper_of, settings_of, MeasuredSize};
use crate::pipeline::{holds_context, initial, next, ActionModel, EventModel, StateModel};

verus! {

/// The state of a request for `markup` after `events`.
pub open spec fn run(markup: Seq<char>, events: Seq<EventModel>) -> StateModel
    decreases events.len(),
{
    if events.len() == 0 {
        initial(markup)
    } else {
        next(run(markup, events.drop_last()), events.last()).0
    }
}

/// The action that the last of `events` called for; before any event, the
/// opening of a context.
pub open spec fn issued(markup: Seq<char>, events: Seq<EventModel>) -> ActionModel {
    if events.len() == 0 {
        ActionModel::OpenContext
    } else {
        next(run(markup, events.drop_last()), events.last()).1
    }
}

/// How many rendering contexts were opened for the request: the times that
/// the browser answered its wish for one.
pub open spec fn contexts_opened(markup: Seq<char>, events: Seq<EventModel>) -> nat
    decreases events.len(),
{
    if events.len() == 0 {
        0
    } else {
        let before = events.drop_last();
        let opened: nat = if run(markup, before) is Opening && events.last() is Opened {
            1
        } else {
            0
        };
        contexts_opened(markup, before) + opened
    }
}

/// How many rendering contexts the request gave back: the times that its
/// close command was answered.
pub open spec fn contexts_released(markup: Seq<char>, events: Seq<EventModel>) -> nat
    decreases events.len(),
{
    if events.len() == 0 {
        0
    } else {
        let before = events.drop_last();
        let released: nat = if run(markup, before) is Closing {
            1
        } else {
            0
        };
        contexts_released(markup, before) + released
    }
}

/// The first `count` of `events` are the replies of a request in which
/// nothing fails: a context, the media type, the content, a measurement.
pub open spec fn on_course(events: Seq<EventModel>, count: int) -> bool {
    &&& count <= events.len()
    &&& count >= 1 ==> events[0] is Opened
    &&& count >= 2 ==> events[1] is MediaSet
    &&& count >= 3 ==> events[2] is ContentSet
    &&& count >= 4 ==> events[3] is Measured
}

/// What the state of a request tells of the events behind it.
pub open spec fn consistent(markup: Seq<char>, events: Seq<EventModel>) -> bool {
    let opened = contexts_opened(markup, events);
    let released = contexts_released(markup, events);
    match run(markup, events) {
        StateModel::Opening { markup: kept } => {
            &&& events.len() == 0
            &&& kept == markup
            &&& opened == 0
            &&& released == 0
        },
        StateModel::Emulating { markup: kept } => {
            &&& events.len() == 1
            &&& on_course(events, 1)
            &&& kept == markup
            &&& opened == 1
            &&& released == 0
        },
        StateModel::Injecting => {
            &&& events.len() == 2
            &&& on_course(events, 2)
            &&& opened == 1
            &&& released == 0
        },
        StateModel::Measuring => {
            &&& events.len() == 3
            &&& on_course(events, 3)
            &&& opened == 1
            &&& released == 0
        },
        StateModel::Printing => {
            &&& events.len() == 4
            &&& on_course(events, 4)
            &&& opened == 1
            &&& released == 0
        },
        StateModel::Closing { outcome } => {
            &&& 2 <= events.len() <= 5
            &&& events[0] is Opened
            &&& opened == 1
            &&& released == 0
            &&& outcome matches Ok(bytes) ==> {
                &&& events.len() == 5
                &&& on_course(events, 4)
                &&& events[4] == EventModel::Printed(bytes)
            }
        },
        StateModel::Done => {
            &&& 1 <= events.len()
            &&& opened == released
            &&& opened == 1 <==> events[0] is Opened
            &&& opened == 0 <==> !(events[0] is Opened)
        },
    }
}

/// Every run is consistent: the state of a request always tells the course
/// of events that led to it, and the contexts opened and given back on it.
pub proof fn every_run_is_consistent(markup: Seq<char>, events: Seq<EventModel>)
    ensures
        consistent(markup, events),
    decreases events.len(),
{
    if events.len() > 0 {
        let before = events.drop_last();
        every_run_is_consistent(markup, before);
        assert(forall|i: int| 0 <= i < before.len() ==> before[i] == events[i]);
    }
}

/// One more event moves the run by one transition.
pub proof fn run_extends(markup: Seq<char>, events: Seq<EventModel>, event: EventModel)
    ensures
        run(markup, events.push(event)) == next(run(markup, events), event).0,
        issued(markup, events.push(event)) == next(run(markup, events), event).1,
{
    assert(events.push(event).drop_last() =~= events);
}

/// Context accounting. A request opens one rendering context if the
/// browser grants its first wish, and none otherwise; it never opens a
/// second, and never gives back one that it did not open. While it holds its
/// context, one is opened and none given back. When its outcome is
/// delivered, and ever after, every context it opened has been given back:
/// none leaks, whether the request succeeded or failed.
pub proof fn contexts_are_released(markup: Seq<char>, events: Seq<EventModel>)
    ensures
        contexts_opened(markup, events) <= 1,
        contexts_opened(markup, events) == 1 <==> events.len() >= 1 && events[0] is Opened,
        contexts_released(markup, events) <= contexts_opened(markup, events),
        holds_context(run(markup, events)) ==> contexts_opened(markup, events) == 1
            && contexts_released(markup, events) == 0,
        issued(markup, events) is Deliver ==> contexts_opened(markup, events)
            == contexts_released(markup, events),
        run(markup, events) is Done ==> contexts_opened(markup, events) == contexts_released(
            markup,
            events,
        ),
{
    every_run_is_consistent(markup, events);
    if events.len() > 0 {
        every_run_is_consistent(markup, events.drop_last());
    }
}

/// The close command goes out once for every context that was opened, and
/// before the outcome is delivered: a request that waits for the answer to
/// its close command has one context open, and every delivery that follows
/// an opened context comes from that state.
pub proof fn close_precedes_delivery(markup: Seq<char>, events: Seq<EventModel>)
    requires
        issued(markup, events) is Deliver,
    ensures
        events.len() >= 1,
        run(markup, events) is Done,
        contexts_opened(markup, events) == 1 ==> run(markup, events.drop_last()) is Closing
            && issued(markup, events.drop_last()) is CloseContext,
        contexts_opened(markup, events) == 0 ==> events.len() == 1 && !(events[0] is Opened),
{
    every_run_is_consistent(markup, events);
    let before = events.drop_last();
    every_run_is_consistent(markup, before);
    if before.len() > 0 {
        every_run_is_consistent(markup, before.drop_last());
    }
}

/// A request injects its own document and no other: whatever the events,
/// the content it sets is the shell around the markup it was started with.
pub proof fn content_is_own_document(
    markup: Seq<char>,
    events: Seq<EventModel>,
    document: Seq<char>,
)
    requires
        issued(markup, events) == ActionModel::SetContent(document),
    ensures
        document == document_of(markup),
        events.len() == 2,
{
    every_run_is_consistent(markup, events);
    every_run_is_consistent(markup, events.drop_last());
}

/// A request's state and actions are a function of its own markup and its
/// own events: two requests that see the same events differ at most in the
/// markup they carry, and in the document that holds it.
pub proof fn requests_do_not_mix(
    markup: Seq<char>,
    other: Seq<char>,
    events: Seq<EventModel>,
)
    ensures
        issued(markup, events) is SetContent <==> issued(other, events) is SetContent,
        issued(markup, events) is SetContent ==> issued(markup, events)
            == ActionModel::SetContent(document_of(markup)) && issued(other, events)
            == ActionModel::SetContent(document_of(other)),
        !(issued(markup, events) is SetContent) ==> issued(markup, events) == issued(
            other,
            events,
        ),
    decreases events.len(),
{
    lemma_same_course(markup, other, events);
    if events.len() > 0 {
        lemma_same_course(markup, other, events.drop_last());
        every_run_is_consistent(markup, events.drop_last());
        every_run_is_consistent(other, events.drop_last());
    }
}

/// Two requests that see the same events are in the same state, but for the
/// markup they carry.
proof fn lemma_same_course(markup: Seq<char>, other: Seq<char>, events: Seq<EventModel>)
    ensures
        match run(markup, events) {
            StateModel::Opening { .. } => run(other, events) is Opening,
            StateModel::Emulating { .. } => run(other, events) is Emulating,
            state => run(other, events) == state,
        },
    decreases events.len(),
{
    if events.len() > 0 {
        lemma_same_course(markup, other, events.drop_last());
    }
}

/// The commands of a request come in one order, each at most once: a
/// context is asked for at the start and never again, the media type is set
/// once the context is open, the document is injected once the media type is
/// set, the graphic is measured once the document is in place, and the
/// context is closed after at least one and at most four commands against
/// it. No step is tried a second time.
pub proof fn commands_are_sequential(markup: Seq<char>, events: Seq<EventModel>)
    ensures
        issued(markup, events) is OpenContext <==> events.len() == 0,
        issued(markup, events) is EmulateMedia <==> events.len() == 1 && on_course(events, 1),
        issued(markup, events) is SetContent <==> events.len() == 2 && on_course(events, 2),
        issued(markup, events) is Measure <==> events.len() == 3 && on_course(events, 3),
        issued(markup, events) is Print <==> events.len() == 4 && on_course(events, 4),
        issued(markup, events) is CloseContext ==> 2 <= events.len() <= 5 && events[0] is Opened,
{
    every_run_is_consistent(markup, events);
    if events.len() > 0 {
        let before = events.drop_last();
        every_run_is_consistent(markup, before);
        assert(forall|i: int| 0 <= i < before.len() ==> before[i] == events[i]);
        if events.len() <= 4 && on_course(events, events.len() as int) {
            lemma_course(markup, events);
            assert(events.subrange(0, events.len() as int) =~= events);
            assert(events.subrange(0, events.len() - 1) =~= before);
        }
    }
}

/// The paper follows the measurement. A request prints only in answer to a
/// measurement, its fourth event, and then on paper whose width and height
/// are the measured width and height over the pixel density, to the edges,
/// the first page only, the document's own page size set aside.
pub proof fn print_follows_measurement(markup: Seq<char>, events: Seq<EventModel>)
    requires
        issued(markup, events) is Print,
    ensures
        events.len() == 4,
        on_course(events, 4),
        issued(markup, events) == ActionModel::Print(settings_of(events[3]->Measured_0)),
        issued(markup, events)->Print_0.paper == paper_of(events[3]->Measured_0),
        issued(markup, events)->Print_0.paper.width.pixels() == events[3]->Measured_0.width,
        issued(markup, events)->Print_0.paper.height.pixels() == events[3]->Measured_0.height,
{
    every_run_is_consistent(markup, events);
    every_run_is_consistent(markup, events.drop_last());
    assert(forall|i: int| 0 <= i < events.len() - 1 ==> events.drop_last()[i] == events[i]);
}

/// When success is owed. A request delivers PDF bytes if and only if its
/// six events are, in order: a context, the media type, the content, a
/// measurement, a print, and any answer to the close command. The bytes
/// delivered are those of the print.
pub proof fn success_needs_every_step(
    markup: Seq<char>,
    events: Seq<EventModel>,
    bytes: Seq<u8>,
)
    ensures
        issued(markup, events) == ActionModel::Deliver(Ok(bytes)) <==> {
            &&& events.len() == 6
            &&& on_course(events, 4)
            &&& events[4] == EventModel::Printed(bytes)
        },
{
    if issued(markup, events) == ActionModel::Deliver(Ok(bytes)) {
        every_run_is_consistent(markup, events);
        let before = events.drop_last();
        every_run_is_consistent(markup, before);
        assert(forall|i: int| 0 <= i < before.len() ==> before[i] == events[i]);
    }
    if events.len() == 6 && on_course(events, 4) && events[4] == EventModel::Printed(bytes) {
        lemma_course(markup, events);
        let five = events.subrange(0, 5);
        run_extends(markup, five, events[5]);
        assert(five.push(events[5]) =~= events);
    }
}

/// The states that a request passes through while nothing fails.
proof fn lemma_course(markup: Seq<char>, events: Seq<EventModel>)
    ensures
        run(markup, events.subrange(0, 0)) == initial(markup),
        on_course(events, 1) ==> run(markup, events.subrange(0, 1)) == (StateModel::Emulating {
            markup,
        }),
        on_course(events, 2) ==> run(markup, events.subrange(0, 2)) == StateModel::Injecting,
        on_course(events, 3) ==> run(markup, events.subrange(0, 3)) == StateModel::Measuring,
        on_course(events, 4) ==> run(markup, events.subrange(0, 4)) == StateModel::Printing,
        on_course(events, 4) && events.len() >= 5 && events[4] is Printed ==> run(
            markup,
            events.subrange(0, 5),
        ) == (StateModel::Closing { outcome: Ok(events[4]->Printed_0) }),
{
    let none = events.subrange(0, 0);
    if on_course(events, 1) {
        let one = events.subrange(0, 1);
        run_extends(markup, none, events[0]);
        assert(none.push(events[0]) =~= one);
        if on_course(events, 2) {
            let two = events.subrange(0, 2);
            run_extends(markup, one, events[1]);
            assert(one.push(events[1]) =~= two);
            if on_course(events, 3) {
                let three = events.subrange(0, 3);
                run_extends(markup, two, events[2]);
                assert(two.push(events[2]) =~= three);
                if on_course(events, 4) {
                    let four = events.subrange(0, 4);
                    run_extends(markup, three, events[3]);
                    assert(three.push(events[3]) =~= four);
                    if events.len() >= 5 {
                        let five = events.subrange(0, 5);
                        run_extends(markup, four, events[4]);
                        assert(four.push(events[4]) =~= five);
                    }
                }
            }
        }
    }
}

/// A document without a graphic element never yields a PDF. Once the probe
/// reports that the element is missing, the request prints nothing: it
/// closes its context and then delivers the failure of the measurement,
/// whatever answers the close command.
pub proof fn missing_element_fails(
    markup: Seq<char>,
    events: Seq<EventModel>,
    answer: EventModel,
)
    requires
        events.len() == 4,
        on_course(events, 3),
        events[3] is ElementMissing,
    ensures
        issued(markup, events) is CloseContext,
        run(markup, events) == (StateModel::Closing {
            outcome: Err(
                RenderErrorModel::MeasurementFailed(MeasureFailureModel::ElementNotFound),
            ),
        }),
        issued(markup, events.push(answer)) == ActionModel::Deliver(
            Err(RenderErrorModel::MeasurementFailed(MeasureFailureModel::ElementNotFound)),
        ),
        run(markup, events.push(answer)) is Done,
{
    lemma_course(markup, events);
    let three = events.subrange(0, 3);
    run_extends(markup, three, events[3]);
    assert(three.push(events[3]) =~= events);
    run_extends(markup, events, answer);
}

/// Every request ends: after six events at the latest its outcome has been
/// delivered, and from then on nothing is asked of the caller.
pub proof fn request_ends(markup: Seq<char>, events: Seq<EventModel>)
    ensures
        events.len() >= 6 ==> run(markup, events) is Done,
        events.len() >= 7 ==> issued(markup, events) is Nothing,
        run(markup, events) is Done ==> issued(markup, events) is Deliver || issued(
            markup,
            events,
        ) is Nothing,
{
    every_run_is_consistent(markup, events);
    if events.len() > 0 {
        every_run_is_consistent(markup, events.drop_last());
    }
}

} // verus!
