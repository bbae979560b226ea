use peprunner::calibration::is_stable;
use peprunner::common::{filter_label, PepRun, StarData};
use peprunner::measurement::{
    Action, Event, Measurement, SspRequest, SspResponse, Stage, State,
};
use peprunner::ssp3::Error;

fn star(kind: &str, name: &str) -> StarData {
    StarData::new(&kind.to_string(), &name.to_string())
}

fn two_star_plan() -> PepRun {
    PepRun::new(vec![0, 2], vec![star("CMP", "Vega"), star("PGM", "Altair")])
}

fn counts(state: &mut State, value: u16, now: i64) -> Action {
    state.step_at(Event::Response(SspResponse::Counts(value)), now).unwrap()
}

fn proceed(state: &mut State, now: i64) -> Action {
    state.step_at(Event::Operator { proceed: true }, now).unwrap()
}

/// A state that waits for the operator before the first star.
fn started(run: PepRun) -> State {
    let mut state = State::new(run);
    assert_eq!(state.step_at(Event::Start, 0), Some(Action::Request(SspRequest::Init)));
    let action = state.step_at(Event::Response(SspResponse::Done), 0).unwrap();
    assert!(matches!(action, Action::Confirm(_)));
    state
}

/// Runs the plan with an operator who always goes on and an instrument that
/// answers each request by `answer`. Gives the readings, the requests and
/// the questions in order, and the last action.
fn drive(
    run: PepRun,
    answer: &mut dyn FnMut(u8, u16) -> u16,
) -> (Vec<Measurement>, Vec<SspRequest>, Vec<String>, Action, State) {
    let mut state = State::new(run);
    let mut readings = Vec::new();
    let mut requests = Vec::new();
    let mut questions = Vec::new();
    let mut now: i64 = 1_000_000;
    let mut action = state.step_at(Event::Start, now).unwrap();
    for _ in 0..100_000 {
        now += 1_000;
        let event = match &action {
            Action::Request(request) => {
                requests.push(*request);
                match request {
                    SspRequest::Init => Event::Response(SspResponse::Done),
                    SspRequest::Measure(filter, time) => {
                        Event::Response(SspResponse::Counts(answer(*filter, *time)))
                    }
                    SspRequest::Finish => panic!("the run never asks to finish by a request"),
                }
            }
            Action::Confirm(question) => {
                questions.push(question.clone());
                Event::Operator { proceed: true }
            }
            Action::Record(reading) => {
                readings.push(reading.clone());
                Event::Recorded
            }
            Action::Complete | Action::Abort { .. } => {
                return (readings, requests, questions, action, state);
            }
        };
        action = state.step_at(event, now).unwrap();
    }
    panic!("the run did not end");
}

#[test]
fn new_state_is_ready_at_the_first_star() {
    let state = State::new(two_star_plan());
    assert_eq!(state.stage, Stage::Ready);
    assert_eq!(state.star_index, 0);
    assert_eq!(state.filter_index, 0);
    assert!(!state.sky);
    assert!(state.i_time_by_star.is_empty());
    assert_eq!(state.run, two_star_plan());
}

#[test]
fn run_begins_with_the_setup() {
    let mut state = State::new(two_star_plan());
    assert_eq!(state.step_at(Event::Start, 5), Some(Action::Request(SspRequest::Init)));
    assert_eq!(state.stage, Stage::Initializing);
}

#[test]
fn after_the_setup_the_first_star_is_asked_for() {
    let mut state = State::new(two_star_plan());
    state.step_at(Event::Start, 5);
    assert_eq!(
        state.step_at(Event::Response(SspResponse::Done), 6),
        Some(Action::Confirm("Go to Vega".to_string()))
    );
    assert_eq!(state.stage, Stage::AwaitingGoAhead);
}

#[test]
fn events_out_of_turn_change_nothing() {
    let mut state = State::new(two_star_plan());
    assert_eq!(state.step_at(Event::Recorded, 1), None);
    assert_eq!(state.step_at(Event::Operator { proceed: true }, 1), None);
    assert_eq!(state.step_at(Event::Response(SspResponse::Done), 1), None);
    assert_eq!(state.step_at(Event::ChannelClosed { sending: true }, 1), None);
    assert_eq!(state.step_at(Event::SinkFailed("full".to_string()), 1), None);
    assert_eq!(state.stage, Stage::Ready);
    state.step_at(Event::Start, 1);
    assert_eq!(state.step_at(Event::Start, 1), None);
    assert_eq!(state.step_at(Event::Operator { proceed: false }, 1), None);
    assert_eq!(state.stage, Stage::Initializing);
    let mut state = started(two_star_plan());
    assert_eq!(state.step_at(Event::Response(SspResponse::Counts(1)), 1), None);
    assert_eq!(state.step_at(Event::Recorded, 1), None);
    assert_eq!(state.stage, Stage::AwaitingGoAhead);
    proceed(&mut state, 1);
    assert_eq!(state.step_at(Event::Operator { proceed: true }, 1), None);
    assert_eq!(state.step_at(Event::Recorded, 1), None);
    assert_eq!(state.stage, Stage::Calibrating);
}

#[test]
fn accepts_tells_what_the_run_waits_for() {
    let mut state = State::new(two_star_plan());
    assert!(state.accepts(&Event::Start));
    assert!(!state.accepts(&Event::Recorded));
    state.step_at(Event::Start, 0);
    assert!(state.accepts(&Event::Response(SspResponse::Counts(3))));
    assert!(state.accepts(&Event::ChannelClosed { sending: false }));
    assert!(!state.accepts(&Event::Start));
    state.step_at(Event::Response(SspResponse::Done), 0);
    assert!(state.accepts(&Event::Operator { proceed: false }));
    assert!(!state.accepts(&Event::Response(SspResponse::Done)));
}

#[test]
fn setup_error_aborts_with_finish() {
    let mut state = State::new(two_star_plan());
    state.step_at(Event::Start, 0);
    let error = Error::protocol("Received [0, 0, 0] in response to SSMODE".to_string());
    assert_eq!(
        state.step_at(Event::Response(SspResponse::Error(error)), 0),
        Some(Action::Abort {
            finish: true,
            title: "Error Initializing SSP3".to_string(),
            message: "SSP3: protocol error: Received [0, 0, 0] in response to SSMODE".to_string(),
        })
    );
    assert_eq!(state.stage, Stage::Aborted);
    assert_eq!(state.step_at(Event::Response(SspResponse::Done), 0), None);
}

#[test]
fn counts_in_answer_to_the_setup_abort() {
    let mut state = State::new(two_star_plan());
    state.step_at(Event::Start, 0);
    assert_eq!(
        state.step_at(Event::Response(SspResponse::Counts(12)), 0),
        Some(Action::Abort {
            finish: true,
            title: "Unexpected SSP3 Response".to_string(),
            message: "Received counts response on initialization.".to_string(),
        })
    );
    assert_eq!(state.stage, Stage::Aborted);
}

#[test]
fn closed_channel_at_the_setup_aborts_without_finish() {
    for sending in [true, false] {
        let mut state = State::new(two_star_plan());
        state.step_at(Event::Start, 0);
        assert_eq!(
            state.step_at(Event::ChannelClosed { sending }, 0),
            Some(Action::Abort {
                finish: false,
                title: "Channel Closed".to_string(),
                message: "Channel to SSP3 is closed".to_string(),
            })
        );
        assert_eq!(state.stage, Stage::Aborted);
    }
}

#[test]
fn plan_without_stars_is_over_after_the_setup() {
    let mut state = State::new(PepRun::new(vec![0, 1], vec![]));
    state.step_at(Event::Start, 0);
    assert_eq!(state.step_at(Event::Response(SspResponse::Done), 0), Some(Action::Complete));
    assert_eq!(state.stage, Stage::Finished);
    assert_eq!(state.step_at(Event::Operator { proceed: true }, 0), None);
}

#[test]
fn plan_without_filters_only_asks_the_operator() {
    let (readings, requests, questions, last, state) =
        drive(PepRun::new(vec![], vec![star("CMP", "Vega"), star("CHK", "Deneb")]), &mut |_, _| 1);
    assert!(readings.is_empty());
    assert_eq!(requests, vec![SspRequest::Init]);
    assert_eq!(questions, vec!["Go to Vega", "Go to sky", "Go to Deneb", "Go to sky"]);
    assert_eq!(last, Action::Complete);
    assert_eq!(state.stage, Stage::Finished);
    assert_eq!(state.star_index, 2);
}

#[test]
fn cancel_at_the_question_ends_the_run_with_finish() {
    let mut state = started(two_star_plan());
    assert_eq!(state.step_at(Event::Operator { proceed: false }, 9), Some(Action::Complete));
    assert_eq!(state.stage, Stage::Aborted);
    assert_eq!(state.step_at(Event::Operator { proceed: true }, 9), None);
}

#[test]
fn go_ahead_asks_for_the_first_filter_at_the_starting_guess() {
    let mut state = started(two_star_plan());
    assert_eq!(proceed(&mut state, 9), Action::Request(SspRequest::Measure(1, 2000)));
    assert_eq!(state.stage, Stage::Calibrating);
    assert_eq!(state.started, 9);
}

#[test]
fn filters_are_numbered_from_one_for_the_instrument() {
    for code in 0..6u8 {
        let mut state = started(PepRun::new(vec![code], vec![star("CMP", "Vega")]));
        let expected = if code < 2 { 2000 } else { 1000 };
        assert_eq!(
            proceed(&mut state, 1),
            Action::Request(SspRequest::Measure(code + 1, expected))
        );
    }
}

#[test]
fn first_count_above_target_is_the_first_sample() {
    let mut state = started(two_star_plan());
    proceed(&mut state, 1000);
    assert_eq!(counts(&mut state, 5200, 1100), Action::Request(SspRequest::Measure(1, 2000)));
    assert_eq!(state.stage, Stage::Stabilizing);
    assert_eq!(counts(&mut state, 5210, 1200), Action::Request(SspRequest::Measure(1, 2000)));
    let action = counts(&mut state, 5190, 1400);
    assert_eq!(
        action,
        Action::Record(Measurement {
            timestamp: 1200,
            index: 0,
            star_id: "Vega".to_string(),
            star_type: "CMP".to_string(),
            is_star: true,
            filter: 'U',
            integration_time: 2000,
            count1: 5200,
            count2: 5210,
            count3: 5190,
        })
    );
    assert_eq!(state.stage, Stage::Recording);
}

#[test]
fn search_refines_until_delta_is_zero() {
    let mut state = started(PepRun::new(vec![2], vec![star("PGM", "Altair")]));
    assert_eq!(proceed(&mut state, 0), Action::Request(SspRequest::Measure(3, 1000)));
    // first count short of the target: half a second more
    assert_eq!(counts(&mut state, 2000, 1), Action::Request(SspRequest::Measure(3, 1500)));
    assert_eq!(state.stage, Stage::Calibrating);
    // delta = 5 * 3000 / 1000 = 15
    assert_eq!(counts(&mut state, 3000, 2), Action::Request(SspRequest::Measure(3, 2500)));
    // the count fell below the reference
    assert_eq!(counts(&mut state, 1999, 3), Action::Request(SspRequest::Measure(3, 3000)));
    // delta = 5 * 3000 / 3000 = 5
    assert_eq!(counts(&mut state, 5000, 4), Action::Request(SspRequest::Measure(3, 1500)));
    // delta = 5 * 3000 / 15001 = 0: the search is over, at the time of this count
    assert_eq!(counts(&mut state, 17001, 5), Action::Request(SspRequest::Measure(3, 1500)));
    assert_eq!(state.stage, Stage::Stabilizing);
    assert_eq!(counts(&mut state, 17002, 6), Action::Request(SspRequest::Measure(3, 1500)));
    let action = counts(&mut state, 17003, 10);
    match action {
        Action::Record(reading) => {
            assert_eq!(reading.integration_time, 1500);
            assert_eq!((reading.count1, reading.count2, reading.count3), (17001, 17002, 17003));
            assert_eq!(reading.filter, 'V');
            assert_eq!(reading.timestamp, 5);
        }
        other => panic!("no reading: {:?}", other),
    }
}

#[test]
fn cache_is_shared_by_name_not_by_kind() {
    let run = PepRun::new(vec![1], vec![star("CMP", "Vega"), star("CHK", "Vega"), star("PGM", "Altair")]);
    let mut asked = Vec::new();
    let (readings, _, _, last, state) = drive(run, &mut |filter, time| {
        asked.push((filter, time));
        if time == 2000 {
            4999
        } else {
            // 2500 ms: delta = 5 * 1 / 5001 = 0
            10000
        }
    });
    assert_eq!(last, Action::Complete);
    assert_eq!(readings.len(), 6);
    // Vega: 2000 (reference), 2500 (ends the search, first sample), 2500, 2500
    assert_eq!(&asked[0..4], &[(2, 2000), (2, 2500), (2, 2500), (2, 2500)]);
    // sky of Vega, Vega again and its sky: three samples each at the time found
    assert_eq!(&asked[4..13], &[(2, 2500); 9]);
    // Altair searches for itself
    assert_eq!(&asked[13..17], &[(2, 2000), (2, 2500), (2, 2500), (2, 2500)]);
    assert_eq!(&asked[17..], &[(2, 2500); 3]);
    for reading in &readings {
        assert_eq!(reading.integration_time, 2500);
    }
    assert_eq!(state.i_time_by_star.len(), 2);
    assert_eq!(state.i_time_by_star[0].name, "Vega");
    assert_eq!(state.i_time_by_star[0].filter, 1);
    assert_eq!(state.i_time_by_star[0].time, 2500);
    assert_eq!(state.i_time_by_star[1].name, "Altair");
}

#[test]
fn unstable_star_reading_is_dropped_and_the_filter_passed_again() {
    let mut state = started(two_star_plan());
    proceed(&mut state, 10);
    counts(&mut state, 5200, 11);
    counts(&mut state, 5000, 12);
    // 5200, 5000, 4800: the mean is 5000, 4800 lies below 4950
    assert_eq!(
        counts(&mut state, 4800, 13),
        Action::Confirm("Deviation > 1%. Please re-center.".to_string())
    );
    assert_eq!(state.stage, Stage::AwaitingRecenter);
    assert_eq!(state.filter_index, 0);
    assert_eq!(state.star_index, 0);
    assert!(!state.sky);
    // nothing is kept of a dropped reading
    assert!(state.i_time_by_star.is_empty());
    // the same filter again, at the time found, with no search
    assert_eq!(proceed(&mut state, 20), Action::Request(SspRequest::Measure(1, 2000)));
    assert_eq!(state.stage, Stage::Stabilizing);
    assert!(state.i_time_by_star.is_empty());
    assert_eq!(counts(&mut state, 100, 21), Action::Request(SspRequest::Measure(1, 2000)));
    assert_eq!(counts(&mut state, 100, 22), Action::Request(SspRequest::Measure(1, 2000)));
    match counts(&mut state, 100, 30) {
        Action::Record(reading) => {
            assert_eq!((reading.count1, reading.count2, reading.count3), (100, 100, 100));
            assert_eq!(reading.integration_time, 2000);
            assert_eq!(reading.timestamp, 25);
            assert!(reading.is_star);
        }
        other => panic!("no reading: {:?}", other),
    }
    // the time goes on record with the reading that is logged
    assert_eq!(state.i_time_by_star.len(), 1);
    assert_eq!(state.i_time_by_star[0].name, "Vega");
    assert_eq!(state.i_time_by_star[0].filter, 0);
    assert_eq!(state.i_time_by_star[0].time, 2000);
}

#[test]
fn dropped_reading_leaves_no_time_on_record() {
    let mut state = started(PepRun::new(vec![2], vec![star("CMP", "Vega")]));
    assert_eq!(proceed(&mut state, 0), Action::Request(SspRequest::Measure(3, 1000)));
    counts(&mut state, 5200, 1);
    counts(&mut state, 5200, 2);
    assert_eq!(
        counts(&mut state, 6000, 3),
        Action::Confirm("Deviation > 1%. Please re-center.".to_string())
    );
    assert_eq!(state.stage, Stage::AwaitingRecenter);
    assert!(state.i_time_by_star.is_empty());
    assert_eq!((state.star_index, state.filter_index, state.sky), (0, 0, false));
    // dropped a second time: still nothing on record, still the same time
    assert_eq!(proceed(&mut state, 4), Action::Request(SspRequest::Measure(3, 1000)));
    counts(&mut state, 5200, 5);
    counts(&mut state, 5200, 6);
    assert!(matches!(counts(&mut state, 7000, 7), Action::Confirm(_)));
    assert!(state.i_time_by_star.is_empty());
    assert_eq!(proceed(&mut state, 8), Action::Request(SspRequest::Measure(3, 1000)));
    counts(&mut state, 5200, 9);
    counts(&mut state, 5200, 10);
    assert!(matches!(counts(&mut state, 5200, 11), Action::Record(_)));
    assert_eq!(state.i_time_by_star.len(), 1);
    assert_eq!(state.i_time_by_star[0].time, 1000);
    // the sky beside the star takes the time on record
    assert_eq!(
        state.step_at(Event::Recorded, 12),
        Some(Action::Confirm("Go to sky".to_string()))
    );
    assert_eq!(proceed(&mut state, 13), Action::Request(SspRequest::Measure(3, 1000)));
    assert_eq!(state.stage, Stage::Stabilizing);
}

#[test]
fn dropped_reading_after_a_search_is_retaken_at_the_time_found() {
    let mut state = started(PepRun::new(vec![0], vec![star("PGM", "Altair")]));
    proceed(&mut state, 0);
    // 2000 ms: 4000 counts; 2500 ms: delta = 5 * 1000 / 1000 = 5
    assert_eq!(counts(&mut state, 4000, 1), Action::Request(SspRequest::Measure(1, 2500)));
    assert_eq!(counts(&mut state, 5000, 2), Action::Request(SspRequest::Measure(1, 2500)));
    // delta = 5 * 1000 / 6000 = 0: the search ends at 2500 ms
    assert_eq!(counts(&mut state, 10000, 3), Action::Request(SspRequest::Measure(1, 2500)));
    counts(&mut state, 10000, 4);
    assert!(matches!(counts(&mut state, 9000, 5), Action::Confirm(_)));
    assert!(state.i_time_by_star.is_empty());
    assert_eq!(proceed(&mut state, 6), Action::Request(SspRequest::Measure(1, 2500)));
    assert_eq!(state.stage, Stage::Stabilizing);
    counts(&mut state, 10000, 7);
    counts(&mut state, 10000, 8);
    match counts(&mut state, 10000, 10) {
        Action::Record(reading) => {
            assert_eq!(reading.integration_time, 2500);
            assert_eq!(reading.timestamp, 8);
        }
        other => panic!("no reading: {:?}", other),
    }
    assert_eq!(state.i_time_by_star.len(), 1);
    assert_eq!(state.i_time_by_star[0].time, 2500);
}

#[test]
fn log_that_fails_after_a_search_ends_the_run() {
    let mut state = started(PepRun::new(vec![0], vec![star("PGM", "Altair")]));
    proceed(&mut state, 0);
    counts(&mut state, 5200, 1);
    counts(&mut state, 5200, 2);
    assert!(matches!(counts(&mut state, 5200, 3), Action::Record(_)));
    assert!(matches!(
        state.step_at(Event::SinkFailed("disk full".to_string()), 4),
        Some(Action::Abort { finish: true, .. })
    ));
    assert_eq!(state.stage, Stage::Aborted);
}

#[test]
fn cancel_after_an_unstable_reading_ends_the_run() {
    let mut state = started(two_star_plan());
    proceed(&mut state, 10);
    counts(&mut state, 5200, 11);
    counts(&mut state, 5000, 12);
    counts(&mut state, 4800, 13);
    assert_eq!(state.step_at(Event::Operator { proceed: false }, 14), Some(Action::Complete));
    assert_eq!(state.stage, Stage::Aborted);
}

#[test]
fn sky_reading_is_not_tested_for_spread() {
    let run = PepRun::new(vec![4], vec![star("CMP", "Vega")]);
    let mut n = 0;
    let (readings, _, questions, last, _) = drive(run, &mut |_, _| {
        n += 1;
        if n <= 3 {
            6000
        } else {
            // the sky: wildly apart
            [10, 400, 60000][n - 4]
        }
    });
    assert_eq!(last, Action::Complete);
    assert_eq!(questions, vec!["Go to Vega", "Go to sky"]);
    assert_eq!(readings.len(), 2);
    assert!(readings[0].is_star);
    assert!(!readings[1].is_star);
    assert_eq!((readings[1].count1, readings[1].count2, readings[1].count3), (10, 400, 60000));
    assert!(!is_stable(10, 400, 60000));
    assert_eq!(readings[1].filter, 'I');
    assert_eq!(readings[1].integration_time, 1000);
}

#[test]
fn error_while_measuring_aborts_with_finish() {
    let mut state = started(two_star_plan());
    proceed(&mut state, 10);
    let error = Error::serial("Operation timed out".to_string());
    assert_eq!(
        state.step_at(Event::Response(SspResponse::Error(error)), 11),
        Some(Action::Abort {
            finish: true,
            title: "Error".to_string(),
            message: "SSP3: serial error: Operation timed out".to_string(),
        })
    );
    assert_eq!(state.stage, Stage::Aborted);
    assert_eq!(state.step_at(Event::Response(SspResponse::Counts(1)), 12), None);
}

#[test]
fn answer_without_counts_while_measuring_aborts_with_finish() {
    let mut state = started(two_star_plan());
    proceed(&mut state, 10);
    counts(&mut state, 5200, 11);
    assert_eq!(
        state.step_at(Event::Response(SspResponse::Done), 12),
        Some(Action::Abort {
            finish: true,
            title: "Error".to_string(),
            message: "Unexpected SSP response".to_string(),
        })
    );
}

#[test]
fn closed_channel_while_measuring_aborts_without_finish() {
    let mut state = started(two_star_plan());
    proceed(&mut state, 10);
    assert_eq!(
        state.step_at(Event::ChannelClosed { sending: true }, 11),
        Some(Action::Abort {
            finish: false,
            title: "Error".to_string(),
            message: "Error sending to SSP".to_string(),
        })
    );
    let mut state = started(two_star_plan());
    proceed(&mut state, 10);
    assert_eq!(
        state.step_at(Event::ChannelClosed { sending: false }, 11),
        Some(Action::Abort {
            finish: false,
            title: "Error".to_string(),
            message: "Error receiving from SSP".to_string(),
        })
    );
    assert_eq!(state.stage, Stage::Aborted);
}

#[test]
fn log_that_fails_aborts_with_finish() {
    let mut state = started(two_star_plan());
    proceed(&mut state, 10);
    counts(&mut state, 5200, 11);
    counts(&mut state, 5200, 12);
    assert!(matches!(counts(&mut state, 5200, 13), Action::Record(_)));
    assert_eq!(
        state.step_at(Event::SinkFailed("disk full".to_string()), 14),
        Some(Action::Abort {
            finish: true,
            title: "Error".to_string(),
            message: "disk full".to_string(),
        })
    );
    assert_eq!(state.stage, Stage::Aborted);
    assert_eq!(state.step_at(Event::Recorded, 15), None);
}

#[test]
fn recorded_reading_leads_to_the_next_filter() {
    let mut state = started(two_star_plan());
    proceed(&mut state, 10);
    counts(&mut state, 5200, 11);
    counts(&mut state, 5200, 12);
    counts(&mut state, 5200, 13);
    assert_eq!(
        state.step_at(Event::Recorded, 50),
        Some(Action::Request(SspRequest::Measure(3, 1000)))
    );
    assert_eq!(state.filter_index, 1);
    assert_eq!(state.started, 50);
    assert_eq!(state.stage, Stage::Calibrating);
}

#[test]
fn constant_counts_give_eight_readings_at_the_starting_guess() {
    let (readings, requests, questions, last, state) = drive(two_star_plan(), &mut |_, _| 5200);
    assert_eq!(last, Action::Complete);
    assert_eq!(state.stage, Stage::Finished);
    assert_eq!(state.star_index, 2);
    assert_eq!(readings.len(), 8);
    let expected = [
        (0, "Vega", "CMP", true, 'U', 2000),
        (0, "Vega", "CMP", true, 'V', 1000),
        (0, "Vega", "CMP", false, 'U', 2000),
        (0, "Vega", "CMP", false, 'V', 1000),
        (1, "Altair", "PGM", true, 'U', 2000),
        (1, "Altair", "PGM", true, 'V', 1000),
        (1, "Altair", "PGM", false, 'U', 2000),
        (1, "Altair", "PGM", false, 'V', 1000),
    ];
    for (reading, (index, name, kind, is_star, filter, time)) in readings.iter().zip(expected) {
        assert_eq!(reading.index, index);
        assert_eq!(reading.star_id, name);
        assert_eq!(reading.star_type, kind);
        assert_eq!(reading.is_star, is_star);
        assert_eq!(reading.filter, filter);
        assert_eq!(reading.integration_time, time);
        assert_eq!((reading.count1, reading.count2, reading.count3), (5200, 5200, 5200));
    }
    assert_eq!(questions, vec!["Go to Vega", "Go to sky", "Go to Altair", "Go to sky"]);
    // the setup, and three counts for each reading
    assert_eq!(requests.len(), 1 + 8 * 3);
    assert_eq!(requests[0], SspRequest::Init);
    assert_eq!(&requests[1..4], &[SspRequest::Measure(1, 2000); 3]);
    assert_eq!(&requests[4..7], &[SspRequest::Measure(3, 1000); 3]);
}

#[test]
fn readings_are_twice_stars_times_filters() {
    for stars in 0..4usize {
        for filters in 0..4usize {
            let items = (0..stars).map(|i| star("PGM", &format!("S{}", i))).collect();
            let codes = (0..filters).map(|i| i as u8 + 2).collect();
            let (readings, _, _, last, _) = drive(PepRun::new(codes, items), &mut |_, _| 7000);
            assert_eq!(last, Action::Complete);
            assert_eq!(readings.len(), 2 * stars * filters);
        }
    }
}

#[test]
fn readings_are_counted_once_in_spite_of_retries() {
    // every second reading of a star spreads too far
    let mut n = 0usize;
    let (readings, _, questions, last, _) = drive(two_star_plan(), &mut |_, _| {
        n += 1;
        if (n / 3) % 2 == 0 && n % 3 == 0 {
            9000
        } else {
            5200
        }
    });
    assert_eq!(last, Action::Complete);
    assert_eq!(readings.len(), 8);
    assert!(questions.iter().any(|q| q == "Deviation > 1%. Please re-center."));
    for reading in &readings {
        if reading.is_star {
            assert!(is_stable(reading.count1, reading.count2, reading.count3));
        }
    }
}

#[test]
fn star_index_never_goes_back() {
    let mut state = State::new(two_star_plan());
    let mut action = state.step_at(Event::Start, 0).unwrap();
    let mut last_index = 0;
    let mut steps = 0;
    loop {
        steps += 1;
        assert!(steps < 1000);
        let event = match &action {
            Action::Request(SspRequest::Init) => Event::Response(SspResponse::Done),
            Action::Request(_) => Event::Response(SspResponse::Counts(5100)),
            Action::Confirm(_) => Event::Operator { proceed: true },
            Action::Record(_) => Event::Recorded,
            _ => break,
        };
        action = state.step_at(event, steps).unwrap();
        assert!(state.star_index >= last_index);
        last_index = state.star_index;
    }
    assert_eq!(last_index, 2);
}

#[test]
fn step_reads_the_clock() {
    let mut state = State::new(PepRun::new(vec![5], vec![star("CMP", "Vega")]));
    assert_eq!(state.step(Event::Start), Some(Action::Request(SspRequest::Init)));
    assert_eq!(
        state.step(Event::Response(SspResponse::Done)),
        Some(Action::Confirm("Go to Vega".to_string()))
    );
    assert_eq!(
        state.step(Event::Operator { proceed: true }),
        Some(Action::Request(SspRequest::Measure(6, 1000)))
    );
    // later than the first of January 2020, in microseconds
    assert!(state.started > 1_577_836_800_000_000);
    let begun = state.started;
    state.step(Event::Response(SspResponse::Counts(6000)));
    state.step(Event::Response(SspResponse::Counts(6000)));
    match state.step(Event::Response(SspResponse::Counts(6000))) {
        Some(Action::Record(reading)) => {
            assert!(reading.timestamp >= begun);
            assert_eq!(reading.filter, 'C');
            assert_eq!(reading.integration_time, 1000);
        }
        other => panic!("no reading: {:?}", other),
    }
    assert_eq!(state.step(Event::Start), None);
}

#[test]
fn labels_of_the_six_filters() {
    let labels: Vec<char> = (0..6).map(filter_label).collect();
    assert_eq!(labels, vec!['U', 'B', 'V', 'R', 'I', 'C']);
}
