use flagsmith_analytics::aggregate::Aggregate;
use flagsmith_analytics::channel::{Poll, SendOutcome};
use flagsmith_analytics::payload::{payload_from, Payload};
use flagsmith_analytics::processor::{send_result, Action, AnalyticsProcessor, FlushLoop, TrackError};
use flagsmith_analytics::window::{FlushWindow, DEFAULT_WINDOW_MILLIS};
use std::collections::HashMap;
use std::sync::mpsc::Receiver;

/// Ticks until the loop asks for a flush, and returns the body it asked to send.
fn tick_until_flush(state: &mut FlushLoop, rx: &Receiver<u32>) -> Payload {
    let mut rounds: u64 = 0;
    loop {
        match state.tick(rx) {
            Some(Action::Flush(body)) => return body,
            Some(Action::Idle) => {}
            other => panic!("the loop gave {:?}", other),
        }
        rounds += 1;
        assert!(rounds < 2_000_000_000, "no flush came");
    }
}

fn parsed(body: &str) -> HashMap<String, u32> {
    serde_json::from_str(body).unwrap()
}

#[test]
fn track_feature_updates_analytics_data() {
    let feature_1: u32 = 1;
    let (processor, rx, mut state) =
        AnalyticsProcessor::new("http://localhost".to_string(), Some(10000));
    processor.track_feature(feature_1).unwrap();
    processor.track_feature(feature_1).unwrap();
    assert!(matches!(state.tick(&rx), Some(Action::Idle)));
    assert!(matches!(state.tick(&rx), Some(Action::Idle)));
    assert!(matches!(state.tick(&rx), Some(Action::Idle)));
    assert_eq!(state.aggregate.count(feature_1), 2);
}

#[test]
fn test_analytics_processor() {
    let (_processor, rx, mut state) =
        AnalyticsProcessor::new("http://127.0.0.1:5000/api/v1/".to_string(), Some(10));
    assert_eq!(state.endpoint, "http://127.0.0.1:5000/api/v1/analytics/flags/");
    state.aggregate.set_count(1, 10);
    state.aggregate.set_count(2, 10);
    let body = match tick_until_flush(&mut state, &rx) {
        Payload::Body(body) => body,
        other => panic!("the flush gave {:?}", other),
    };
    let mut expected = HashMap::new();
    expected.insert(1.to_string(), 10);
    expected.insert(2.to_string(), 10);
    assert_eq!(parsed(&body), expected);
    assert!(body == "{\"1\":10,\"2\":10}" || body == "{\"2\":10,\"1\":10}");
    state.finish_flush();
    assert!(state.aggregate.is_empty())
}

#[test]
fn two_events_are_counted_or_flushed() {
    let (processor, rx, mut state) = AnalyticsProcessor::new("http://localhost/".to_string(), Some(10));
    processor.track_feature(1).unwrap();
    processor.track_feature(1).unwrap();
    let body = match tick_until_flush(&mut state, &rx) {
        Payload::Body(body) => body,
        other => panic!("the flush gave {:?}", other),
    };
    assert_eq!(state.aggregate.count(1), 2);
    assert_eq!(body, "{\"1\":2}");
    state.finish_flush();
    assert!(state.aggregate.is_empty());
}

#[test]
fn record_counts_each_identifier() {
    let mut agg = Aggregate::new();
    assert!(agg.is_empty());
    for _ in 0..7 {
        agg.record(4);
    }
    agg.record(9);
    assert_eq!(agg.count(4), 7);
    assert_eq!(agg.count(9), 1);
    assert_eq!(agg.count(5), 0);
    assert!(!agg.is_empty());
}

#[test]
fn polled_events_are_counted_in_turn() {
    let mut state = FlushLoop::starting_at("u/".to_string(), None, 1_000);
    for step in 0..5 {
        let action = state.on_poll(Poll::Received(3), 1_000 + step);
        assert!(matches!(action, Action::Idle));
    }
    assert!(matches!(state.on_poll(Poll::Empty, 1_010), Action::Idle));
    assert_eq!(state.aggregate.count(3), 5);
}

#[test]
fn set_count_of_zero_removes_the_entry() {
    let mut agg = Aggregate::new();
    agg.set_count(1, 10);
    agg.set_count(2, 3);
    assert_eq!(agg.count(1), 10);
    agg.set_count(1, 0);
    assert_eq!(agg.count(1), 0);
    assert_eq!(agg.count(2), 3);
    assert!(!agg.is_empty());
    agg.clear();
    assert!(agg.is_empty());
    assert_eq!(agg.count(2), 0);
}

#[test]
fn has_room_until_the_count_is_at_its_limit() {
    let mut agg = Aggregate::new();
    agg.set_count(1, u32::MAX - 1);
    assert!(agg.has_room(1));
    agg.record(1);
    assert_eq!(agg.count(1), u32::MAX);
    assert!(!agg.has_room(1));
    assert!(agg.has_room(2));
}

#[test]
fn payload_of_one_entry_is_exact() {
    let mut agg = Aggregate::new();
    assert_eq!(agg.payload(), Payload::Nothing);
    agg.set_count(1, 10);
    assert_eq!(agg.payload(), Payload::Body("{\"1\":10}".to_string()));
    let mut large = Aggregate::new();
    large.set_count(u32::MAX, u32::MAX);
    assert_eq!(
        large.payload(),
        Payload::Body("{\"4294967295\":4294967295}".to_string())
    );
    let mut zero = Aggregate::new();
    zero.set_count(0, 1);
    assert_eq!(zero.payload(), Payload::Body("{\"0\":1}".to_string()));
}

#[test]
fn payload_holds_every_entry_once() {
    let mut agg = Aggregate::new();
    let mut expected = HashMap::new();
    for id in 0..40u32 {
        agg.set_count(id * 101, id + 1);
        expected.insert((id * 101).to_string(), id + 1);
    }
    let body = match agg.payload() {
        Payload::Body(body) => body,
        other => panic!("the counts gave {:?}", other),
    };
    assert_eq!(parsed(&body), expected);
    assert_eq!(body.matches(':').count(), 40);
    assert_eq!(body.matches(',').count(), 39);
    assert!(body.starts_with('{') && body.ends_with('}'));
}

#[test]
fn payload_from_keeps_the_text_and_names_the_failure() {
    assert_eq!(
        payload_from(Ok("{\"5\":1}".to_string())),
        Payload::Body("{\"5\":1}".to_string())
    );
    let failure = serde_json::from_str::<u32>("x").unwrap_err();
    assert_eq!(payload_from(Err(failure)), Payload::Unencodable);
}

#[test]
fn window_defaults_to_ten_seconds() {
    assert_eq!(DEFAULT_WINDOW_MILLIS, 10_000);
    let window = FlushWindow::new(None, 5);
    assert_eq!(window.duration, 10_000);
    assert_eq!(window.last_flushed, 5);
    assert_eq!(FlushWindow::new(Some(10), 0).duration, 10);
    let state = FlushLoop::starting_at(String::new(), None, 77);
    assert_eq!(state.window.duration, 10_000);
    assert_eq!(state.window.last_flushed, 77);
    assert!(!state.terminated);
}

#[test]
fn window_is_due_only_after_more_than_its_duration() {
    let mut window = FlushWindow::new(Some(10), 1_000);
    assert!(!window.is_due(1_000));
    assert!(!window.is_due(1_010));
    assert!(window.is_due(1_011));
    assert!(!window.is_due(0));
    window.restart(1_011);
    assert_eq!(window.last_flushed, 1_011);
    assert_eq!(window.duration, 10);
    assert!(!window.is_due(1_011));
    assert!(window.is_due(1_022));
}

#[test]
fn window_compares_without_wrapping() {
    let widest = FlushWindow { last_flushed: i64::MIN, duration: u64::MAX };
    assert!(!widest.is_due(i64::MAX));
    let nearly = FlushWindow { last_flushed: i64::MIN, duration: u64::MAX - 1 };
    assert!(nearly.is_due(i64::MAX));
    let huge = FlushWindow { last_flushed: 0, duration: 1u64 << 63 };
    assert!(!huge.is_due(i64::MAX));
    let backwards = FlushWindow { last_flushed: i64::MAX, duration: 0 };
    assert!(!backwards.is_due(i64::MIN));
}

#[test]
fn endpoint_appends_the_analytics_path() {
    let state = FlushLoop::starting_at("http://localhost".to_string(), Some(1), 0);
    assert_eq!(state.endpoint, "http://localhostanalytics/flags/");
    let state = FlushLoop::starting_at("https://edge.example/api/v1/".to_string(), Some(1), 0);
    assert_eq!(state.endpoint, "https://edge.example/api/v1/analytics/flags/");
}

#[test]
fn flush_is_asked_for_when_the_window_is_over() {
    let mut state = FlushLoop::starting_at("u/".to_string(), Some(10), 100);
    assert!(matches!(state.on_poll(Poll::Received(7), 110), Action::Idle));
    match state.on_poll(Poll::Received(7), 111) {
        Action::Flush(Payload::Body(body)) => assert_eq!(body, "{\"7\":2}"),
        other => panic!("the loop gave {:?}", other),
    }
    assert_eq!(state.aggregate.count(7), 2);
    assert_eq!(state.window.last_flushed, 100);
}

#[test]
fn finish_flush_clears_and_restarts_window() {
    let mut state = FlushLoop::starting_at("u/".to_string(), Some(10), 100);
    state.aggregate.set_count(1, 10);
    state.aggregate.set_count(2, 10);
    assert!(matches!(state.on_poll(Poll::Empty, 150), Action::Flush(Payload::Body(_))));
    state.finish_flush_at(151);
    assert!(state.aggregate.is_empty());
    assert_eq!(state.window.last_flushed, 151);
    assert_eq!(state.window.duration, 10);
    assert_eq!(state.endpoint, "u/analytics/flags/");
    assert!(!state.terminated);
    assert!(matches!(state.on_poll(Poll::Empty, 161), Action::Idle));
}

#[test]
fn empty_window_sends_nothing() {
    let mut state = FlushLoop::starting_at("u/".to_string(), Some(10), 0);
    assert!(matches!(state.on_poll(Poll::Empty, 5), Action::Idle));
    assert!(matches!(state.on_poll(Poll::Empty, 11), Action::Flush(Payload::Nothing)));
    state.finish_flush_at(12);
    assert!(!state.terminated);
    assert_eq!(state.window.last_flushed, 12);
    assert!(matches!(state.on_poll(Poll::Empty, 22), Action::Idle));
    assert!(matches!(state.on_poll(Poll::Received(1), 23), Action::Flush(Payload::Body(_))));
}

#[test]
fn full_channel_drops_event_without_error() {
    let (processor, rx, mut state) = AnalyticsProcessor::new("u/".to_string(), None);
    for _ in 0..25 {
        assert_eq!(processor.track_feature(6), Ok(()));
    }
    for _ in 0..40 {
        assert!(matches!(state.tick(&rx), Some(Action::Idle)));
    }
    assert_eq!(state.aggregate.count(6), 10);
}

#[test]
fn track_after_loop_gone_is_error() {
    let (processor, rx, _state) = AnalyticsProcessor::new("u/".to_string(), None);
    drop(rx);
    assert_eq!(processor.track_feature(1), Err(TrackError::Disconnected));
    assert_eq!(processor.clone().track_feature(1), Err(TrackError::Disconnected));
}

#[test]
fn send_result_fails_only_on_disconnection() {
    assert_eq!(send_result(SendOutcome::Sent), Ok(()));
    assert_eq!(send_result(SendOutcome::Full), Ok(()));
    assert_eq!(send_result(SendOutcome::Disconnected), Err(TrackError::Disconnected));
}

#[test]
fn disconnection_stops_loop() {
    let (processor, rx, mut state) = AnalyticsProcessor::new("u/".to_string(), Some(0));
    let second = processor.clone();
    processor.track_feature(1).unwrap();
    drop(processor);
    assert!(!matches!(state.tick(&rx), Some(Action::Stop) | None));
    assert!(!state.terminated);
    drop(second);
    assert!(matches!(state.tick(&rx), Some(Action::Stop)));
    assert!(state.terminated);
    assert_eq!(state.aggregate.count(1), 1);
}

#[test]
fn stopped_loop_stays_stopped() {
    let mut state = FlushLoop::starting_at("u/".to_string(), Some(10), 0);
    state.aggregate.set_count(1, 4);
    assert!(matches!(state.on_poll(Poll::Disconnected, 1_000), Action::Stop));
    assert!(state.terminated);
    assert!(matches!(state.on_poll(Poll::Received(1), 2_000), Action::Stop));
    assert!(matches!(state.on_poll(Poll::Empty, 3_000), Action::Stop));
    assert_eq!(state.aggregate.count(1), 4);
    assert_eq!(state.window.last_flushed, 0);
}

#[test]
fn tick_refuses_an_event_that_would_pass_the_limit() {
    let (processor, rx, mut state) = AnalyticsProcessor::new("u/".to_string(), None);
    state.aggregate.set_count(8, u32::MAX);
    processor.track_feature(8).unwrap();
    assert!(state.tick(&rx).is_none());
    assert_eq!(state.aggregate.count(8), u32::MAX);
    assert!(!state.terminated);
    processor.track_feature(9).unwrap();
    assert!(matches!(state.tick(&rx), Some(Action::Idle)));
    assert_eq!(state.aggregate.count(9), 1);
}

#[test]
fn step_refuses_exactly_an_event_without_room() {
    let mut state = FlushLoop::starting_at("u/".to_string(), Some(10), 0);
    state.aggregate.set_count(8, u32::MAX);
    assert!(state.step(Poll::Received(8), 100).is_none());
    assert_eq!(state.aggregate.count(8), u32::MAX);
    assert_eq!(state.window.last_flushed, 0);
    assert!(!state.terminated);
    assert!(matches!(state.step(Poll::Received(9), 5), Some(Action::Idle)));
    assert_eq!(state.aggregate.count(9), 1);
    assert!(matches!(state.step(Poll::Empty, 11), Some(Action::Flush(Payload::Body(_)))));
    state.finish_flush_at(11);
    assert!(matches!(state.step(Poll::Empty, 22), Some(Action::Flush(Payload::Nothing))));
    assert!(matches!(state.step(Poll::Disconnected, 23), Some(Action::Stop)));
    state.aggregate.set_count(8, u32::MAX);
    assert!(matches!(state.step(Poll::Received(8), 24), Some(Action::Stop)));
    assert_eq!(state.aggregate.count(8), u32::MAX);
}

#[test]
fn counts_that_are_not_empty_always_give_a_body() {
    let mut agg = Aggregate::new();
    for id in [0u32, 1, 9, 10, 99, 100, 65_535, 4_294_967_295] {
        agg.set_count(id, id.max(1));
        assert!(matches!(agg.payload(), Payload::Body(_)));
    }
    let mut one = Aggregate::new();
    one.set_count(12, 345);
    assert_eq!(one.payload(), Payload::Body("{\"12\":345}".to_string()));
}
