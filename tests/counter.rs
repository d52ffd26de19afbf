use learn_egui::counter::{CounterApp, CounterOp};

#[test]
fn counter_starts_at_zero() {
    assert_eq!(CounterApp::default().count(), 0);
    assert_eq!(CounterApp::new().count, 0);
}

#[test]
fn clicks_scenario() {
    let mut app = CounterApp::default();
    for _ in 0..3 {
        app.apply(CounterOp::Increment);
    }
    assert_eq!(app.count(), 3);
    app.apply(CounterOp::Decrement);
    assert_eq!(app.count(), 2);
    app.apply(CounterOp::Reset);
    assert_eq!(app.count(), 0);
}

#[test]
fn sequence_counts_net_since_last_reset() {
    let mut app = CounterApp { count: 7 };
    let ops = vec![
        CounterOp::Increment,
        CounterOp::Reset,
        CounterOp::Decrement,
        CounterOp::Increment,
        CounterOp::Increment,
        CounterOp::Increment,
        CounterOp::Decrement,
    ];
    app.apply_all(&ops);
    assert_eq!(app.count(), 1);
}

#[test]
fn sequence_without_reset_adds_to_start() {
    let mut app = CounterApp { count: 7 };
    let ops = vec![CounterOp::Decrement, CounterOp::Decrement, CounterOp::Increment];
    app.apply_all(&ops);
    assert_eq!(app.count(), 6);
    app.apply_all(&Vec::new());
    assert_eq!(app.count(), 6);
}

#[test]
fn counter_goes_negative() {
    let mut app = CounterApp::new();
    app.decrement();
    app.decrement();
    assert_eq!(app.count(), -2);
    app.increment();
    assert_eq!(app.count(), -1);
    app.reset();
    assert_eq!(app.count(), 0);
}

#[test]
fn can_apply_at_the_limits() {
    let top = CounterApp { count: i32::MAX };
    assert!(!top.can_apply(CounterOp::Increment));
    assert!(top.can_apply(CounterOp::Decrement));
    assert!(top.can_apply(CounterOp::Reset));
    let bottom = CounterApp { count: i32::MIN };
    assert!(!bottom.can_apply(CounterOp::Decrement));
    assert!(bottom.can_apply(CounterOp::Increment));
    let mut app = CounterApp { count: i32::MAX };
    app.apply(CounterOp::Reset);
    assert_eq!(app.count(), 0);
}

#[test]
fn count_text_is_decimal() {
    assert_eq!(CounterApp { count: 0 }.count_text(), "0");
    assert_eq!(CounterApp { count: 3 }.count_text(), "3");
    assert_eq!(CounterApp { count: 1205 }.count_text(), "1205");
    assert_eq!(CounterApp { count: -2 }.count_text(), "-2");
    assert_eq!(CounterApp { count: i32::MAX }.count_text(), "2147483647");
    assert_eq!(CounterApp { count: i32::MIN }.count_text(), "-2147483648");
}

#[test]
fn displayed_text_follows_clicks() {
    let mut app = CounterApp::default();
    app.apply_all(&vec![CounterOp::Decrement, CounterOp::Decrement, CounterOp::Decrement]);
    assert_eq!(app.count_text(), "-3");
}
