use pi_monitor::display::{Color, MockDisplay, SimulationDisplay};

fn blank_frame(width: usize, height: usize) -> String {
    let mut s = String::new();
    s.push('╔');
    s.push_str(&"═".repeat(width - 2));
    s.push_str("╗\n");
    for _ in 0..height - 2 {
        s.push('║');
        s.push_str(&" ".repeat(width - 2));
        s.push_str("║\n");
    }
    s.push('╚');
    s.push_str(&"═".repeat(width - 2));
    s.push_str("╝\n");
    s
}

#[test]
fn new_display_shows_blank_frame() {
    let d = MockDisplay::new(50, 15);
    assert_eq!(d.get_content(), blank_frame(50, 15));
}

#[test]
fn clear_after_draws_restores_blank_frame() {
    let mut d = MockDisplay::new(50, 15);
    d.add_text("scribble", 3, 4);
    d.add_text("more text", 1, 7);
    d.clear();
    assert_eq!(d.get_content(), blank_frame(50, 15));
}

#[test]
fn clear_result_is_independent_of_history() {
    let mut a = MockDisplay::new(50, 15);
    let b = MockDisplay::new(50, 15);
    a.add_text("one thing", 2, 2);
    a.clear();
    assert_eq!(a.get_content(), b.get_content());
}

#[test]
fn add_text_places_characters_in_interior() {
    let mut d = MockDisplay::new(50, 15);
    d.add_text("Hi", 2, 3);
    let content = d.get_content();
    let lines: Vec<&str> = content.lines().collect();
    let row: Vec<char> = lines[3].chars().collect();
    assert_eq!(row[3], 'H');
    assert_eq!(row[4], 'i');
    assert_eq!(row[2], ' ');
    assert_eq!(row[5], ' ');
}

#[test]
fn add_text_beyond_interior_width_leaves_grid_unchanged() {
    let mut d = MockDisplay::new(50, 15);
    let before = d.get_content();
    d.add_text("out of range", 48, 3);
    assert_eq!(d.get_content(), before);
    d.add_text("far out of range", 4000, 3);
    assert_eq!(d.get_content(), before);
}

#[test]
fn add_text_outside_interior_rows_is_dropped() {
    let mut d = MockDisplay::new(50, 15);
    let before = d.get_content();
    d.add_text("top border", 2, 0);
    d.add_text("bottom border", 2, 14);
    d.add_text("below the grid", 2, 99);
    assert_eq!(d.get_content(), before);
}

#[test]
fn add_text_truncates_at_right_border() {
    let mut d = MockDisplay::new(50, 15);
    d.add_text("ABCDEFGHIJKLMNOP", 44, 5);
    let content = d.get_content();
    let lines: Vec<&str> = content.lines().collect();
    let row: Vec<char> = lines[5].chars().collect();
    // start column is 45; columns 45..=48 take A..D; the border column stays
    assert_eq!(row[45], 'A');
    assert_eq!(row[48], 'D');
    assert_eq!(row[49], '║');
}

#[test]
fn simulation_scales_pixel_coordinates_to_cells() {
    let mut d = SimulationDisplay::new(50, 15);
    d.draw_text("Hello", 10, 30, Color::White);
    let content = d.get_display_content().unwrap();
    let lines: Vec<&str> = content.lines().collect();
    // x = 10 -> cell 1 -> column 2; y = 30 -> row 1
    let row: Vec<char> = lines[1].chars().collect();
    assert_eq!(row[2], 'H');
    assert_eq!(row[6], 'o');
}

#[test]
fn simulation_clear_yields_blank_frame() {
    let mut d = SimulationDisplay::new(50, 15);
    d.draw_text("something", 10, 30, Color::Red);
    d.clear();
    assert_eq!(d.get_display_content().unwrap(), blank_frame(50, 15));
}

#[test]
fn simulation_ignores_color() {
    let mut a = SimulationDisplay::new(50, 15);
    let mut b = SimulationDisplay::new(50, 15);
    a.draw_text("same", 10, 40, Color::Red);
    b.draw_text("same", 10, 40, Color::Green);
    assert_eq!(a.get_display_content(), b.get_display_content());
}
