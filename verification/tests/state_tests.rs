use pi_monitor::state::{
    build_status, display_reply, greeting, high_temperature, led_failure_reply, led_next,
    led_success_reply, no_data_error_message, sensor_reply, simulate_humidity_reading,
    simulate_temperature_reading, AppState, SensorData, SensorReply,
};

#[test]
fn fresh_store_defaults() {
    let s = AppState::new(100);
    assert!(!s.read_led());
    assert!(s.read_sensor().is_none());
}

#[test]
fn sensor_endpoint_reports_no_data_before_first_sample() {
    let s = AppState::new(0);
    assert_eq!(s.get_sensor(), SensorReply::NoData);
    assert_eq!(no_data_error_message(), "No sensor data available");
}

#[test]
fn sensor_endpoint_reports_latest_reading() {
    let mut s = AppState::new(0);
    let d = s.sensor_tick(0, 999, 77);
    assert_eq!(d, SensorData { temperature_tenths: 200, humidity_tenths: 799, timestamp: 77 });
    assert_eq!(s.get_sensor(), SensorReply::Data(d));
    assert_eq!(s.read_sensor(), Some(d));
}

#[test]
fn led_control_roundtrip_until_next_toggle() {
    let mut s = AppState::new(50);
    let reply = s.control_led(true);
    assert!(reply.success);
    assert_eq!(reply.led_state, Some(true));
    assert!(reply.error.is_none());
    // A status read before the next autonomous toggle observes the write.
    let st = s.get_status(60);
    assert!(st.led_status);
    // The next blink tick overwrites the API value: last writer wins.
    let next = s.led_tick(false);
    assert!(next);
    assert!(!s.get_status(61).led_status);
}

#[test]
fn led_failure_reply_carries_error() {
    let r = led_failure_reply();
    assert!(!r.success);
    assert!(r.led_state.is_none());
    assert_eq!(r.error.as_deref(), Some("Failed to access GPIO"));
}

#[test]
fn led_toggle_alternates() {
    let mut s = AppState::new(0);
    let mut led_on = false;
    let mut seen = Vec::new();
    for _ in 0..4 {
        led_on = s.led_tick(led_on);
        seen.push(s.read_led());
    }
    assert_eq!(seen, vec![false, true, false, true]);
}

#[test]
fn status_snapshot_reflects_all_fields() {
    let mut s = AppState::new(100);
    let d = s.sensor_tick(500, 500, 123);
    s.write_led(true);
    let st = s.get_status(142);
    assert_eq!(st.uptime_seconds, 42);
    assert!(st.led_status);
    assert_eq!(st.last_sensor_reading, Some(d));
    let content = st.display_content.unwrap();
    assert!(!content.is_empty());
}

#[test]
fn display_endpoint_in_simulation_mode() {
    let mut s = AppState::new(0);
    s.display_tick(5);
    let r = s.get_display();
    assert_eq!(r.mode, "simulation");
    assert!(!r.display_content.is_empty());
    assert!(r.display_content.contains("No sensor data"));
}

#[test]
fn display_endpoint_in_hardware_mode() {
    let r = display_reply(None);
    assert_eq!(r.mode, "hardware");
    assert_eq!(r.display_content, "Hardware mode - content not available via API");
}

#[test]
fn display_tick_renders_current_state() {
    let mut s = AppState::new(10);
    s.sensor_tick(353, 0, 11);
    // raw 353 -> 200 + 353 * 150 / 1000 = 252 tenths
    s.display_tick(52);
    let r = s.get_display();
    assert!(r.display_content.contains("Temp: 25.2C"));
    assert!(r.display_content.contains("Uptime: 42s"));
}

#[test]
fn synthetic_temperature_range_and_values() {
    assert_eq!(simulate_temperature_reading(0), 200);
    assert_eq!(simulate_temperature_reading(999), 349);
    assert_eq!(simulate_temperature_reading(500), 275);
    assert_eq!(simulate_temperature_reading(1000), 200);
    for raw in [1u64, 37, 999, 4321, u64::MAX] {
        let t = simulate_temperature_reading(raw);
        assert!((200..=349).contains(&t));
    }
}

#[test]
fn synthetic_humidity_range_and_values() {
    assert_eq!(simulate_humidity_reading(0), 400);
    assert_eq!(simulate_humidity_reading(999), 799);
    assert_eq!(simulate_humidity_reading(500), 600);
    for raw in [1u64, 37, 999, 4321, u64::MAX] {
        let h = simulate_humidity_reading(raw);
        assert!((400..=799).contains(&h));
    }
}

#[test]
fn high_temperature_boundary() {
    let cool = SensorData { temperature_tenths: 300, humidity_tenths: 0, timestamp: 0 };
    let hot = SensorData { temperature_tenths: 301, humidity_tenths: 0, timestamp: 0 };
    assert!(!high_temperature(&cool));
    assert!(high_temperature(&hot));
}

#[test]
fn uptime_counts_from_start() {
    let s = AppState::new(100);
    assert_eq!(s.uptime(100), 0);
    assert_eq!(s.uptime(142), 42);
}

#[test]
fn free_builders_mirror_the_store_methods() {
    assert!(led_next(false));
    assert!(!led_next(true));
    let d = SensorData { temperature_tenths: 250, humidity_tenths: 500, timestamp: 1 };
    assert_eq!(sensor_reply(Some(d)), SensorReply::Data(d));
    assert_eq!(sensor_reply(None), SensorReply::NoData);
    let ok = led_success_reply(true);
    assert!(ok.success);
    assert_eq!(ok.led_state, Some(true));
    assert!(ok.error.is_none());
    let st = build_status(9, true, Some(d), Some(String::from("frame")));
    assert_eq!(st.uptime_seconds, 9);
    assert!(st.led_status);
    assert_eq!(st.last_sensor_reading, Some(d));
    assert_eq!(st.display_content.as_deref(), Some("frame"));
}

#[test]
fn greeting_text() {
    assert_eq!(greeting(), "Raspberry Pi Zero Rust Server is running!");
}
