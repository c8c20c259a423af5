use pi_monitor::display::{Color, SimulationDisplay};
use pi_monitor::render::{render_commands, update_display_content};
use pi_monitor::state::SensorData;

fn reading(temperature_tenths: i32, humidity_tenths: i32) -> SensorData {
    SensorData { temperature_tenths, humidity_tenths, timestamp: 7 }
}

#[test]
fn plan_without_reading() {
    let cmds = render_commands(&None, false, 0);
    let texts: Vec<&str> = cmds.iter().map(|c| c.text.as_str()).collect();
    assert_eq!(
        texts,
        vec!["Hello World!", "Pi Zero Monitor", "No sensor data", "Uptime: 0s", "LED"]
    );
    assert_eq!(cmds[4].color, Color::Red);
}

#[test]
fn plan_with_reading_formats_one_decimal_place() {
    let cmds = render_commands(&Some(reading(253, 471)), true, 42);
    let texts: Vec<&str> = cmds.iter().map(|c| c.text.as_str()).collect();
    assert_eq!(
        texts,
        vec![
            "Hello World!",
            "Pi Zero Monitor",
            "Temp: 25.3C",
            "Humidity: 47.1%",
            "Uptime: 42s",
            "LED"
        ]
    );
    assert_eq!(cmds[5].color, Color::Green);
}

#[test]
fn warning_present_above_threshold() {
    let cmds = render_commands(&Some(reading(301, 500)), false, 0);
    let warn: Vec<&pi_monitor::render::DrawCmd> =
        cmds.iter().filter(|c| c.text == "HIGH TEMP!").collect();
    assert_eq!(warn.len(), 1);
    assert_eq!(warn[0].x, 10);
    assert_eq!(warn[0].y, 150);
    assert_eq!(warn[0].color, Color::Red);
}

#[test]
fn warning_absent_at_and_below_threshold() {
    let at = render_commands(&Some(reading(300, 500)), false, 0);
    assert!(at.iter().all(|c| c.text != "HIGH TEMP!"));
    let below = render_commands(&Some(reading(180, 500)), false, 0);
    assert!(below.iter().all(|c| c.text != "HIGH TEMP!"));
}

#[test]
fn refresh_writes_readings_into_the_frame() {
    let mut d = SimulationDisplay::new(50, 15);
    update_display_content(&mut d, &Some(reading(253, 471)), true, 42);
    let content = d.get_display_content().unwrap();
    assert!(content.contains("Hello World!"));
    assert!(content.contains("Pi Zero Monitor"));
    assert!(content.contains("Temp: 25.3C"));
    assert!(content.contains("Humidity: 47.1%"));
    assert!(content.contains("Uptime: 42s"));
    assert!(content.contains("LED"));
    assert!(!content.contains("HIGH TEMP!"));
    assert!(!content.contains("No sensor data"));
}

#[test]
fn refresh_shows_warning_when_hot() {
    let mut d = SimulationDisplay::new(50, 15);
    update_display_content(&mut d, &Some(reading(321, 500)), false, 3);
    let content = d.get_display_content().unwrap();
    assert!(content.contains("Temp: 32.1C"));
    assert!(content.contains("HIGH TEMP!"));
}

#[test]
fn refresh_without_reading_shows_no_data_line() {
    let mut d = SimulationDisplay::new(50, 15);
    update_display_content(&mut d, &None, false, 0);
    let content = d.get_display_content().unwrap();
    assert!(content.contains("No sensor data"));
    assert!(!content.contains("Temp:"));
}

#[test]
fn refresh_overwrites_previous_frame() {
    let mut d = SimulationDisplay::new(50, 15);
    update_display_content(&mut d, &Some(reading(253, 471)), true, 1);
    update_display_content(&mut d, &None, false, 2);
    let content = d.get_display_content().unwrap();
    assert!(content.contains("No sensor data"));
    assert!(!content.contains("25.3"));
}
