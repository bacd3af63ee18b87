use esp_dash::layout::{requests_layout, sensor_layout, wrap_parameter, DrawOp, Font};
use esp_dash::request::handle_request;
use esp_dash::scheduler::{Scheduler, TickAction, DEFAULT_DWELL_MS};
use esp_dash::sensor::{RetryStep, SensorRetry, DEFAULT_RETRY_DELAY_MS};
use esp_dash::store::{DisplayMode, StateStore};

fn text(t: &str, y: i32, font: Font) -> DrawOp {
    DrawOp::Text { text: String::from(t), x: 8, y, font }
}

#[test]
fn short_parameter_is_one_line() {
    assert_eq!(wrap_parameter(""), vec![String::new()]);
    assert_eq!(wrap_parameter("abc"), vec![String::from("abc")]);
    let p = "a".repeat(18);
    assert_eq!(wrap_parameter(&p), vec![p.clone()]);
}

#[test]
fn medium_parameter_splits_at_eighteen() {
    let p = "abcdefghijklmnopqrs";
    assert_eq!(
        wrap_parameter(p),
        vec![String::from("abcdefghijklmnopqr"), String::from("s")]
    );
    let p36: String = ('a'..='z').chain('0'..='9').collect();
    assert_eq!(
        wrap_parameter(&p36),
        vec![String::from("abcdefghijklmnopqr"), String::from("stuvwxyz0123456789")]
    );
}

#[test]
fn long_parameter_drops_remainder() {
    let p: String = ('a'..='z').chain('0'..='9').chain('A'..='Z').collect();
    assert_eq!(
        wrap_parameter(&p),
        vec![String::from("abcdefghijklmnopqr"), String::from("stuvwxyz0123456789")]
    );
}

#[test]
fn wrapping_counts_characters_not_bytes() {
    let p = "çãõ".repeat(7);
    let lines = wrap_parameter(&p);
    assert_eq!(lines.len(), 2);
    assert_eq!(lines[0], "çãõ".repeat(6));
    assert_eq!(lines[1], "çãõ");
}

#[test]
fn sensor_view_layout() {
    assert_eq!(
        sensor_layout("23.5", "41"),
        vec![
            DrawOp::Clear,
            DrawOp::Border,
            DrawOp::Separator,
            text("DHT11 Sensor", 3, Font::Title),
            text("Temperature: 23.5C", 22, Font::Body),
            text("Humidity: 41%", 40, Font::Body),
            DrawOp::Flush,
        ]
    );
}

#[test]
fn request_view_layout_short() {
    assert_eq!(
        requests_layout(3, "Ana"),
        vec![
            DrawOp::Clear,
            DrawOp::Border,
            DrawOp::Separator,
            text("Requests: 3", 3, Font::Title),
            text("Ultimo params:", 22, Font::Body),
            text("Ana", 43, Font::Body),
            DrawOp::Flush,
        ]
    );
}

#[test]
fn request_view_layout_wrapped() {
    let p = "0123456789abcdefghXYZ";
    assert_eq!(
        requests_layout(120, p),
        vec![
            DrawOp::Clear,
            DrawOp::Border,
            DrawOp::Separator,
            text("Requests: 120", 3, Font::Title),
            text("Ultimo params:", 22, Font::Body),
            text("0123456789abcdefgh", 35, Font::Body),
            text("XYZ", 46, Font::Body),
            DrawOp::Flush,
        ]
    );
}

#[test]
fn sensor_failing_every_attempt_gives_up() {
    let mut retry = SensorRetry::with_defaults();
    assert!(retry.should_read());
    assert_eq!(retry.on_result(false), RetryStep::WaitThenRetry { delay_ms: DEFAULT_RETRY_DELAY_MS });
    assert_eq!(retry.on_result(false), RetryStep::WaitThenRetry { delay_ms: 2200 });
    assert_eq!(retry.on_result(false), RetryStep::GiveUp);
    assert!(!retry.should_read());
    assert_eq!(retry.attempts(), 3);
    assert_eq!(retry.on_result(true), RetryStep::GiveUp);
    assert_eq!(retry.attempts(), 3);
}

#[test]
fn sensor_success_stops_retrying() {
    let mut retry = SensorRetry::new(3, 500);
    assert_eq!(retry.on_result(false), RetryStep::WaitThenRetry { delay_ms: 500 });
    assert_eq!(retry.on_result(true), RetryStep::Render);
    assert_eq!(retry.attempts(), 2);
}

#[test]
fn sensor_with_no_attempts_reads_nothing() {
    let mut retry = SensorRetry::new(0, 500);
    assert!(!retry.should_read());
    assert_eq!(retry.on_result(true), RetryStep::GiveUp);
}

#[test]
fn no_requests_stays_in_sensor_view() {
    let mut store = StateStore::new();
    let mut sched = Scheduler::with_defaults();
    for now in [0u64, 100, 20_000, 1_000_000] {
        assert_eq!(sched.tick(&mut store, now), TickAction::PollSensor);
    }
    assert_eq!(store.read_mode(), DisplayMode::SensorView);
    assert_eq!(store.read_counters(), (0, String::from("Nenhum")));
}

#[test]
fn request_view_dwells_then_returns() {
    let mut store = StateStore::new();
    let mut sched = Scheduler::new(DEFAULT_DWELL_MS);
    assert_eq!(sched.tick(&mut store, 0), TickAction::PollSensor);
    handle_request(&mut store, "/?name=Ana");
    assert_eq!(
        sched.tick(&mut store, 1_000),
        TickAction::ShowRequests { count: 1, parameter: String::from("Ana") }
    );
    assert_eq!(sched.tick(&mut store, 1_100), TickAction::Hold);
    assert_eq!(sched.tick(&mut store, 10_999), TickAction::Hold);
    assert_eq!(store.read_mode(), DisplayMode::RequestView);
    assert_eq!(sched.tick(&mut store, 11_000), TickAction::PollSensor);
    assert_eq!(store.read_mode(), DisplayMode::SensorView);
}

#[test]
fn request_during_dwell_restarts_it() {
    let mut store = StateStore::new();
    let mut sched = Scheduler::new(10_000);
    handle_request(&mut store, "/?a=1");
    assert_eq!(
        sched.tick(&mut store, 0),
        TickAction::ShowRequests { count: 1, parameter: String::from("1") }
    );
    handle_request(&mut store, "/?b=");
    assert_eq!(
        sched.tick(&mut store, 5_000),
        TickAction::ShowRequests { count: 2, parameter: String::from("1") }
    );
    assert_eq!(sched.tick(&mut store, 10_000), TickAction::Hold);
    assert_eq!(store.read_mode(), DisplayMode::RequestView);
    assert_eq!(sched.tick(&mut store, 15_000), TickAction::PollSensor);
    assert_eq!(store.read_mode(), DisplayMode::SensorView);
}
