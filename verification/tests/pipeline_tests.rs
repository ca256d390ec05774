use svg_to_pdf::document::{wrap_markup, MEASURE_PROBE};
use svg_to_pdf::error::{ErrorKind, MeasureFailure, RenderError};
use svg_to_pdf::paper::{settings_for, Inches, MeasuredSize};
use svg_to_pdf::pipeline::{Action, Event, RenderState};

/// Counts of what a request asked of the browser.
struct Tally {
    opened: usize,
    closed: usize,
    delivered: Vec<Result<Vec<u8>, RenderError>>,
}

/// Runs a request over the events given, keeping account of its contexts.
fn run(markup: &str, events: Vec<Event>) -> (RenderState, Vec<Action>, Tally) {
    let (mut state, first) = RenderState::start(markup);
    let mut tally = Tally { opened: 0, closed: 0, delivered: Vec::new() };
    let mut actions = vec![first];
    for event in events {
        let was_opening = matches!(state, RenderState::Opening { .. });
        let was_closing = matches!(state, RenderState::Closing { .. });
        if was_opening && event == Event::Opened {
            tally.opened += 1;
        }
        if was_closing {
            tally.closed += 1;
        }
        let (after, action) = state.step(event);
        if let Action::Deliver(outcome) = &action {
            tally.delivered.push(outcome.clone());
        }
        state = after;
        actions.push(action);
    }
    (state, actions, tally)
}

fn all_goes_well(width: u32, height: u32, pdf: &[u8]) -> Vec<Event> {
    vec![
        Event::Opened,
        Event::MediaSet,
        Event::ContentSet,
        Event::Measured(MeasuredSize { width, height }),
        Event::Printed(pdf.to_vec()),
        Event::Closed,
    ]
}

#[test]
fn request_starts_by_opening_a_context() {
    let (state, action) = RenderState::start("<svg/>");
    assert_eq!(state, RenderState::Opening { markup: "<svg/>".to_string() });
    assert_eq!(action, Action::OpenContext);
    assert!(!state.is_done());
    assert!(!state.holds_context());
}

#[test]
fn commands_follow_in_order() {
    let markup = "<svg width=\"300\" height=\"150\"></svg>";
    let (state, actions, tally) = run(markup, all_goes_well(300, 150, b"%PDF"));
    assert_eq!(
        actions,
        vec![
            Action::OpenContext,
            Action::EmulateMedia("screen".to_string()),
            Action::SetContent(wrap_markup(markup)),
            Action::Measure(MEASURE_PROBE.to_string()),
            Action::Print(settings_for(MeasuredSize { width: 300, height: 150 })),
            Action::CloseContext,
            Action::Deliver(Ok(b"%PDF".to_vec())),
        ]
    );
    assert_eq!(state, RenderState::Done);
    assert!(state.is_done());
    assert_eq!(tally.opened, 1);
    assert_eq!(tally.closed, 1);
    assert_eq!(tally.delivered, vec![Ok(b"%PDF".to_vec())]);
}

#[test]
fn states_follow_in_order() {
    let (state, _) = RenderState::start("m");
    let (state, _) = state.step(Event::Opened);
    assert_eq!(state, RenderState::Emulating { markup: "m".to_string() });
    assert!(state.holds_context());
    let (state, _) = state.step(Event::MediaSet);
    assert_eq!(state, RenderState::Injecting);
    assert!(state.holds_context());
    let (state, _) = state.step(Event::ContentSet);
    assert_eq!(state, RenderState::Measuring);
    assert!(state.holds_context());
    let (state, _) = state.step(Event::Measured(MeasuredSize { width: 1, height: 2 }));
    assert_eq!(state, RenderState::Printing);
    assert!(state.holds_context());
    let (state, _) = state.step(Event::Printed(vec![1, 2, 3]));
    assert_eq!(state, RenderState::Closing { outcome: Ok(vec![1, 2, 3]) });
    assert!(!state.holds_context());
    assert!(!state.is_done());
    let (state, _) = state.step(Event::Closed);
    assert_eq!(state, RenderState::Done);
    assert!(state.is_done());
}

#[test]
fn page_is_sized_by_the_measurement() {
    let (_, actions, _) = run("<svg/>", all_goes_well(300, 150, b""));
    match &actions[4] {
        Action::Print(settings) => {
            assert_eq!(settings.paper.width, Inches { whole: 3, parts: 12 });
            assert_eq!(settings.paper.height, Inches { whole: 1, parts: 54 });
            assert_eq!(settings.paper.width.millionths(), 3_125_000);
            assert_eq!(settings.paper.height.millionths(), 1_562_500);
            assert_eq!(settings.page_ranges, "1");
            assert!(!settings.prefer_css_page_size);
        }
        other => panic!("expected a print, got {:?}", other),
    }
}

#[test]
fn page_is_sized_by_the_one_measurement_reported() {
    let outer = MeasuredSize { width: 400, height: 200 };
    let (_, actions, _) = run(
        "<svg width=\"400\" height=\"200\"><svg width=\"50\" height=\"60\"></svg></svg>",
        vec![Event::Opened, Event::MediaSet, Event::ContentSet, Event::Measured(outer)],
    );
    assert_eq!(actions[4], Action::Print(settings_for(outer)));
}

#[test]
fn zero_size_is_printed_as_it_is() {
    let (state, actions, _) = run("<svg/>", all_goes_well(0, 0, b"%PDF"));
    assert_eq!(actions[4], Action::Print(settings_for(MeasuredSize { width: 0, height: 0 })));
    assert_eq!(actions[6], Action::Deliver(Ok(b"%PDF".to_vec())));
    assert_eq!(state, RenderState::Done);
}

#[test]
fn missing_element_fails_the_measurement() {
    let events = vec![
        Event::Opened,
        Event::MediaSet,
        Event::ContentSet,
        Event::ElementMissing,
        Event::Closed,
    ];
    let (state, actions, tally) = run("", events);
    let expected = RenderError::MeasurementFailed(MeasureFailure::ElementNotFound);
    assert_eq!(
        actions,
        vec![
            Action::OpenContext,
            Action::EmulateMedia("screen".to_string()),
            Action::SetContent(wrap_markup("")),
            Action::Measure(MEASURE_PROBE.to_string()),
            Action::CloseContext,
            Action::Deliver(Err(expected.clone())),
        ]
    );
    assert_eq!(state, RenderState::Done);
    assert_eq!(tally.opened, 1);
    assert_eq!(tally.closed, 1);
    assert_eq!(tally.delivered.len(), 1);
    let error = tally.delivered[0].clone().unwrap_err();
    assert_eq!(error.kind(), ErrorKind::MeasurementFailed);
    assert!(error.is_element_not_found());
    assert_eq!(error.message(), "measurement failed: no graphic element found");
    assert!(!actions.iter().any(|action| matches!(action, Action::Print(_))));
}

#[test]
fn context_unavailable_ends_at_once() {
    let (state, actions, tally) = run("<svg/>", vec![Event::Failed("connection closed".to_string())]);
    assert_eq!(
        actions,
        vec![
            Action::OpenContext,
            Action::Deliver(Err(RenderError::ContextUnavailable("connection closed".to_string()))),
        ]
    );
    assert_eq!(state, RenderState::Done);
    assert_eq!(tally.opened, 0);
    assert_eq!(tally.closed, 0);
}

#[test]
fn each_step_fails_with_its_own_error() {
    let words = "it broke".to_string();
    let course = all_goes_well(10, 10, b"%PDF");
    let expected = vec![
        RenderError::EmulationFailed(words.clone()),
        RenderError::InjectionFailed(words.clone()),
        RenderError::MeasurementFailed(MeasureFailure::Probe(words.clone())),
        RenderError::PrintFailed(words.clone()),
    ];
    for (index, error) in expected.into_iter().enumerate() {
        let done = index + 1;
        let mut events: Vec<Event> = Vec::new();
        for position in 0..done {
            events.push(match &course[position] {
                Event::Measured(size) => Event::Measured(*size),
                Event::MediaSet => Event::MediaSet,
                Event::ContentSet => Event::ContentSet,
                _ => Event::Opened,
            });
        }
        events.push(Event::Failed(words.clone()));
        events.push(Event::Closed);
        let (state, actions, tally) = run("<svg/>", events);
        assert_eq!(actions[done + 1], Action::CloseContext);
        assert_eq!(actions[done + 2], Action::Deliver(Err(error)));
        assert_eq!(actions.len(), done + 3);
        assert_eq!(state, RenderState::Done);
        assert_eq!(tally.opened, 1);
        assert_eq!(tally.closed, 1);
    }
}

#[test]
fn reply_out_of_sequence_ends_the_request() {
    let (state, action) = RenderState::start("<svg/>").0.step(Event::Printed(vec![1]));
    assert_eq!(state, RenderState::Done);
    assert_eq!(action, Action::Deliver(Err(RenderError::OutOfSequence)));

    let (state, _) = RenderState::start("<svg/>").0.step(Event::Opened);
    let (state, action) = state.step(Event::ContentSet);
    assert_eq!(state, RenderState::Closing { outcome: Err(RenderError::OutOfSequence) });
    assert_eq!(action, Action::CloseContext);

    let (state, action) = RenderState::Injecting.step(Event::ElementMissing);
    assert_eq!(state, RenderState::Closing { outcome: Err(RenderError::OutOfSequence) });
    assert_eq!(action, Action::CloseContext);

    let (state, action) = RenderState::Measuring.step(Event::Closed);
    assert_eq!(state, RenderState::Closing { outcome: Err(RenderError::OutOfSequence) });
    assert_eq!(action, Action::CloseContext);

    let (state, action) = RenderState::Printing.step(Event::Measured(MeasuredSize { width: 1, height: 1 }));
    assert_eq!(state, RenderState::Closing { outcome: Err(RenderError::OutOfSequence) });
    assert_eq!(action, Action::CloseContext);
}

#[test]
fn outcome_is_delivered_whatever_answers_the_close() {
    let mut events = all_goes_well(10, 10, b"%PDF");
    events[5] = Event::Failed("already gone".to_string());
    let (state, actions, tally) = run("<svg/>", events);
    assert_eq!(actions[6], Action::Deliver(Ok(b"%PDF".to_vec())));
    assert_eq!(state, RenderState::Done);
    assert_eq!(tally.opened, tally.closed);

    let closing = RenderState::Closing { outcome: Err(RenderError::PrintFailed("no".to_string())) };
    let (state, action) = closing.step(Event::Opened);
    assert_eq!(state, RenderState::Done);
    assert_eq!(action, Action::Deliver(Err(RenderError::PrintFailed("no".to_string()))));
}

#[test]
fn finished_request_asks_for_nothing() {
    let mut events = all_goes_well(10, 10, b"%PDF");
    events.push(Event::Opened);
    events.push(Event::Printed(vec![9]));
    events.push(Event::Failed("late".to_string()));
    let (state, actions, tally) = run("<svg/>", events);
    assert_eq!(state, RenderState::Done);
    assert_eq!(actions[7], Action::Nothing);
    assert_eq!(actions[8], Action::Nothing);
    assert_eq!(actions[9], Action::Nothing);
    assert_eq!(tally.opened, 1);
    assert_eq!(tally.closed, 1);
    assert_eq!(tally.delivered.len(), 1);
}

#[test]
fn contexts_are_given_back_on_every_path() {
    let words = "x".to_string();
    let paths: Vec<Vec<Event>> = vec![
        all_goes_well(1, 1, b"a"),
        vec![Event::Failed(words.clone())],
        vec![Event::Closed],
        vec![Event::Opened, Event::Failed(words.clone()), Event::Closed],
        vec![Event::Opened, Event::MediaSet, Event::Failed(words.clone()), Event::Closed],
        vec![Event::Opened, Event::MediaSet, Event::ContentSet, Event::ElementMissing, Event::Closed],
        vec![Event::Opened, Event::MediaSet, Event::ContentSet, Event::Failed(words.clone()), Event::Failed(words.clone())],
        vec![
            Event::Opened,
            Event::MediaSet,
            Event::ContentSet,
            Event::Measured(MeasuredSize { width: 5, height: 5 }),
            Event::Failed(words.clone()),
            Event::Closed,
        ],
        vec![Event::Opened, Event::Opened, Event::Opened],
    ];
    for events in paths {
        let (state, actions, tally) = run("<svg/>", events);
        assert_eq!(state, RenderState::Done);
        assert!(tally.opened <= 1);
        assert_eq!(tally.opened, tally.closed);
        assert_eq!(tally.delivered.len(), 1);
        let closes = actions.iter().filter(|action| **action == Action::CloseContext).count();
        assert_eq!(closes, tally.opened);
        assert!(matches!(actions.last(), Some(Action::Deliver(_))));
    }
}

#[test]
fn sequential_requests_open_one_context_each() {
    let mut opened = 0;
    let mut closed = 0;
    let mut open_commands = 0;
    for number in 0..5u32 {
        let events = if number % 2 == 0 {
            all_goes_well(10 + number, 20, b"%PDF")
        } else {
            vec![Event::Opened, Event::MediaSet, Event::ContentSet, Event::ElementMissing, Event::Closed]
        };
        let (state, actions, tally) = run("<svg/>", events);
        assert_eq!(state, RenderState::Done);
        open_commands += actions.iter().filter(|action| **action == Action::OpenContext).count();
        opened += tally.opened;
        closed += tally.closed;
        assert_eq!(opened, number as usize + 1);
        assert_eq!(opened - closed, 0);
    }
    assert_eq!(open_commands, 5);
}

#[test]
fn interleaved_requests_keep_to_their_own_markup() {
    let first_markup = "<svg id=\"first\" width=\"10\" height=\"20\"></svg>";
    let second_markup = "<svg id=\"second\" width=\"30\" height=\"40\"></svg>";
    let (first, _) = RenderState::start(first_markup);
    let (second, _) = RenderState::start(second_markup);
    let (second, _) = second.step(Event::Opened);
    let (first, _) = first.step(Event::Opened);
    let (first, first_content) = first.step(Event::MediaSet);
    let (second, second_content) = second.step(Event::MediaSet);
    assert_eq!(first_content, Action::SetContent(wrap_markup(first_markup)));
    assert_eq!(second_content, Action::SetContent(wrap_markup(second_markup)));
    assert_ne!(first_content, second_content);
    let (second, _) = second.step(Event::ContentSet);
    let (second, second_print) = second.step(Event::Measured(MeasuredSize { width: 30, height: 40 }));
    let (first, _) = first.step(Event::ContentSet);
    let (first, first_print) = first.step(Event::Measured(MeasuredSize { width: 10, height: 20 }));
    assert_eq!(first_print, Action::Print(settings_for(MeasuredSize { width: 10, height: 20 })));
    assert_eq!(second_print, Action::Print(settings_for(MeasuredSize { width: 30, height: 40 })));
    let (first, _) = first.step(Event::Printed(b"first pdf".to_vec()));
    let (second, _) = second.step(Event::Printed(b"second pdf".to_vec()));
    let (_, second_outcome) = second.step(Event::Closed);
    let (_, first_outcome) = first.step(Event::Closed);
    assert_eq!(first_outcome, Action::Deliver(Ok(b"first pdf".to_vec())));
    assert_eq!(second_outcome, Action::Deliver(Ok(b"second pdf".to_vec())));
}

#[test]
fn success_needs_every_step() {
    let course = all_goes_well(7, 7, b"%PDF");
    let replacements = vec![
        Event::Failed("x".to_string()),
        Event::ElementMissing,
        Event::Closed,
    ];
    for position in 0..5 {
        for replacement in &replacements {
            let mut events = all_goes_well(7, 7, b"%PDF");
            events[position] = match replacement {
                Event::Failed(words) => Event::Failed(words.clone()),
                Event::ElementMissing => Event::ElementMissing,
                _ => Event::Closed,
            };
            let (_, _, tally) = run("<svg/>", events);
            assert_eq!(tally.delivered.len(), 1);
            assert!(tally.delivered[0].is_err());
        }
    }
    let (_, _, tally) = run("<svg/>", course);
    assert_eq!(tally.delivered, vec![Ok(b"%PDF".to_vec())]);
}
