use onion_client::app::{App, CircuitInfo, INITIAL_STATUS_CODE};

#[test]
fn new_app_starts_running_and_empty() {
    let app = App::new();
    assert!(app.running);
    assert_eq!(app.counter, 0);
    assert!(app.tor_response_body.is_empty());
    assert_eq!(app.tor_response_status, INITIAL_STATUS_CODE);
    assert_eq!(app.tor_response_status, 226);
    assert!(app.tor_circuits_info.is_empty());
}

#[test]
fn quit_stops_the_application() {
    let mut app = App::new();
    app.quit();
    assert!(!app.running);
}

#[test]
fn counter_saturates_at_both_ends() {
    let mut app = App::new();
    app.decrement_counter();
    assert_eq!(app.counter, 0);
    app.increment_counter();
    app.increment_counter();
    assert_eq!(app.counter, 2);
    app.decrement_counter();
    assert_eq!(app.counter, 1);
    for _ in 0..300 {
        app.increment_counter();
    }
    assert_eq!(app.counter, u8::MAX);
}

#[test]
fn setters_replace_their_field() {
    let mut app = App::new();
    app.set_tor_response_body(b"hello".to_vec());
    assert_eq!(app.tor_response_body, b"hello".to_vec());
    app.set_tor_status_code(200);
    assert_eq!(app.tor_response_status, 200);
    app.set_tor_circuit_info(vec![CircuitInfo {
        ip_address: "1.2.3.4".to_string(),
        city: "X".to_string(),
        country: "Y".to_string(),
    }]);
    assert_eq!(app.tor_circuits_info.len(), 1);
    assert_eq!(app.tor_circuits_info[0].ip_address, "1.2.3.4");
}
