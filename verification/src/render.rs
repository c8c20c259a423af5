//! The status-screen renderer: a pure plan of draw calls computed from
//! a sensor snapshot, the LED state and the uptime, and its application
//! to the simulated display.
//!
//! Producing the plan separately from issuing the draws lets the same
//! verified sequence drive either backend: the simulated grid here, or
//! the physical panel outside the library.

use vstd::prelude::*;

use crate::display::{
    Color, SimulationDisplay, lemma_content_index, spec_add_text, spec_blank_grid, spec_content,
    spec_overwrite, GLYPH_WIDTH, GLYPH_HEIGHT,
};
use crate::numfmt::{
    format_tenths, lemma_format_tenths_len, spec_format_tenths, u64_to_string, spec_digits,
};
use crate::state::SensorData;

verus! {

/// One text draw call: what to write, the pixel coordinates, the color.
pub struct DrawCmd {
    pub text: String,
    pub x: u32,
    pub y: u32,
    pub color: Color,
}

/// Mathematical image of a [`DrawCmd`].
pub struct SpecCmd {
    pub text: Seq<char>,
    pub x: int,
    pub y: int,
    pub color: Color,
}

impl View for DrawCmd {
    type V = SpecCmd;

    open spec fn view(&self) -> SpecCmd {
        SpecCmd { text: self.text@, x: self.x as int, y: self.y as int, color: self.color }
    }
}

/// The high-temperature warning line, drawn in the warning color.
pub open spec fn spec_warning_cmd() -> SpecCmd {
    SpecCmd { text: "HIGH TEMP!"@, x: 10, y: 150, color: Color::Red }
}

/// The full draw plan for one refresh: title lines, then either the
/// formatted readings (with the warning line exactly when the
/// temperature is above 30.0 degrees) or the no-data line, then the
/// uptime line, then the LED indicator whose color follows the LED
/// state.
pub open spec fn spec_render_commands(sensor: Option<SensorData>, led: bool, up: u64) -> Seq<
    SpecCmd,
> {
    let title = seq![
        SpecCmd { text: "Hello World!"@, x: 10, y: 30, color: Color::White },
        SpecCmd { text: "Pi Zero Monitor"@, x: 10, y: 60, color: Color::White },
    ];
    let body = match sensor {
        Option::Some(d) => {
            let readings = seq![
                SpecCmd {
                    text: "Temp: "@ + spec_format_tenths(d.temperature_tenths as int) + "C"@,
                    x: 10,
                    y: 90,
                    color: Color::White,
                },
                SpecCmd {
                    text: "Humidity: "@ + spec_format_tenths(d.humidity_tenths as int) + "%"@,
                    x: 10,
                    y: 120,
                    color: Color::White,
                },
            ];
            if d.temperature_tenths > 300 {
                readings.push(spec_warning_cmd())
            } else {
                readings
            }
        },
        Option::None => seq![
            SpecCmd { text: "No sensor data"@, x: 10, y: 90, color: Color::White },
        ],
    };
    let tail = seq![
        SpecCmd {
            text: "Uptime: "@ + spec_digits(up as nat) + "s"@,
            x: 10,
            y: 180,
            color: Color::White,
        },
        SpecCmd {
            text: "LED"@,
            x: 10,
            y: 210,
            color: if led {
                Color::Green
            } else {
                Color::Red
            },
        },
    ];
    title + body + tail
}

/// Computes the draw plan for one refresh of the status screen.
pub fn render_commands(sensor: &Option<SensorData>, led_status: bool, uptime_seconds: u64) -> (cmds:
    Vec<DrawCmd>)
    ensures
        cmds@.map_values(|c: DrawCmd| c@) == spec_render_commands(
            *sensor,
            led_status,
            uptime_seconds,
        ),
{
    let mut cmds: Vec<DrawCmd> = Vec::new();
    cmds.push(
        DrawCmd { text: String::from_str("Hello World!"), x: 10, y: 30, color: Color::White },
    );
    cmds.push(
        DrawCmd { text: String::from_str("Pi Zero Monitor"), x: 10, y: 60, color: Color::White },
    );
    match sensor {
        Option::Some(d) => {
            let mut temp_text = String::from_str("Temp: ");
            let t = format_tenths(d.temperature_tenths);
            temp_text.append(t.as_str());
            temp_text.append("C");
            cmds.push(DrawCmd { text: temp_text, x: 10, y: 90, color: Color::White });
            let mut humidity_text = String::from_str("Humidity: ");
            let h = format_tenths(d.humidity_tenths);
            humidity_text.append(h.as_str());
            humidity_text.append("%");
            cmds.push(DrawCmd { text: humidity_text, x: 10, y: 120, color: Color::White });
            if d.temperature_tenths > 300 {
                cmds.push(
                    DrawCmd { text: String::from_str("HIGH TEMP!"), x: 10, y: 150, color: Color::Red },
                );
            }
        },
        Option::None => {
            cmds.push(
                DrawCmd { text: String::from_str("No sensor data"), x: 10, y: 90, color: Color::White },
            );
        },
    }
    let mut uptime_text = String::from_str("Uptime: ");
    let u = u64_to_string(uptime_seconds);
    uptime_text.append(u.as_str());
    uptime_text.append("s");
    cmds.push(DrawCmd { text: uptime_text, x: 10, y: 180, color: Color::White });
    let led_color = if led_status {
        Color::Green
    } else {
        Color::Red
    };
    cmds.push(DrawCmd { text: String::from_str("LED"), x: 10, y: 210, color: led_color });
    proof {
        assert(cmds@.map_values(|c: DrawCmd| c@) =~~= spec_render_commands(
            *sensor,
            led_status,
            uptime_seconds,
        ));
    }
    cmds
}

/// Effect of one draw call on the grid: pixel coordinates become the
/// character cell by integer division by the glyph size.
pub open spec fn spec_draw(g: Seq<Seq<char>>, c: SpecCmd, w: int, h: int) -> Seq<Seq<char>> {
    spec_add_text(g, c.text, c.x / GLYPH_WIDTH as int, c.y / GLYPH_HEIGHT as int, w, h)
}

/// The grid after the first `n` commands of the plan.
pub open spec fn spec_apply_prefix(
    g0: Seq<Seq<char>>,
    cmds: Seq<SpecCmd>,
    n: int,
    w: int,
    h: int,
) -> Seq<Seq<char>>
    decreases n,
{
    if n <= 0 {
        g0
    } else {
        spec_draw(spec_apply_prefix(g0, cmds, n - 1, w, h), cmds[n - 1], w, h)
    }
}

/// The grid after the whole plan.
pub open spec fn spec_apply(g0: Seq<Seq<char>>, cmds: Seq<SpecCmd>, w: int, h: int) -> Seq<
    Seq<char>,
> {
    spec_apply_prefix(g0, cmds, cmds.len() as int, w, h)
}

/// One full refresh of the simulated screen: clear to the blank frame,
/// then issue every draw of the plan in order. The resulting grid is
/// exactly the plan applied to the blank frame; on the simulated
/// backend no draw can fail, so no draw is skipped.
pub fn update_display_content(
    display: &mut SimulationDisplay,
    sensor_data: &Option<SensorData>,
    led_status: bool,
    uptime_seconds: u64,
)
    requires
        old(display).wf(),
    ensures
        final(display).wf(),
        final(display).spec_width() == old(display).spec_width(),
        final(display).spec_height() == old(display).spec_height(),
        final(display).grid() == spec_apply(
            spec_blank_grid(old(display).spec_width() as int, old(display).spec_height() as int),
            spec_render_commands(*sensor_data, led_status, uptime_seconds),
            old(display).spec_width() as int,
            old(display).spec_height() as int,
        ),
{
    let ghost w = old(display).spec_width() as int;
    let ghost h = old(display).spec_height() as int;
    display.clear();
    let cmds = render_commands(sensor_data, led_status, uptime_seconds);
    let ghost cs = spec_render_commands(*sensor_data, led_status, uptime_seconds);
    let mut i: usize = 0;
    while i < cmds.len()
        invariant
            display.wf(),
            display.spec_width() as int == w,
            display.spec_height() as int == h,
            cmds@.map_values(|c: DrawCmd| c@) == cs,
            0 <= i <= cmds@.len(),
            cmds@.len() == cs.len(),
            display.grid() == spec_apply_prefix(spec_blank_grid(w, h), cs, i as int, w, h),
        decreases cmds@.len() - i,
    {
        let cmd = &cmds[i];
        proof {
            assert(cmds@.map_values(|c: DrawCmd| c@)[i as int] == cs[i as int]);
        }
        display.draw_text(cmd.text.as_str(), cmd.x, cmd.y, cmd.color);
        i = i + 1;
    }
}

/// The renderer's output always carries the current readings, each
/// formatted with exactly one decimal place: whenever a reading is
/// present, the plan contains the temperature line and the humidity
/// line built from that reading.
pub proof fn lemma_output_contains_readings(d: SensorData, led: bool, up: u64)
    ensures
        spec_render_commands(Some(d), led, up).contains(
            SpecCmd {
                text: "Temp: "@ + spec_format_tenths(d.temperature_tenths as int) + "C"@,
                x: 10,
                y: 90,
                color: Color::White,
            },
        ),
        spec_render_commands(Some(d), led, up).contains(
            SpecCmd {
                text: "Humidity: "@ + spec_format_tenths(d.humidity_tenths as int) + "%"@,
                x: 10,
                y: 120,
                color: Color::White,
            },
        ),
{
    let cmds = spec_render_commands(Some(d), led, up);
    let temp_cmd = SpecCmd {
        text: "Temp: "@ + spec_format_tenths(d.temperature_tenths as int) + "C"@,
        x: 10,
        y: 90,
        color: Color::White,
    };
    let humidity_cmd = SpecCmd {
        text: "Humidity: "@ + spec_format_tenths(d.humidity_tenths as int) + "%"@,
        x: 10,
        y: 120,
        color: Color::White,
    };
    assert(cmds[2] == temp_cmd);
    assert(cmds[3] == humidity_cmd);
}

/// `t` stands written in `s` from position `off` on.
pub open spec fn spec_appears_at(s: Seq<char>, t: Seq<char>, off: int) -> bool {
    &&& 0 <= off
    &&& off + t.len() <= s.len()
    &&& forall|j: int| 0 <= j < t.len() ==> s[off + j] == t[j]
}

/// On the standard simulated panel, the rendered frame text itself
/// carries both readings formatted to one decimal place: the
/// temperature line stands in grid row 4 and the humidity line in grid
/// row 6, each starting at interior column 2.
pub proof fn lemma_frame_contains_readings(d: SensorData, led: bool, up: u64)
    ensures
        spec_appears_at(
            spec_content(
                spec_apply(
                    spec_blank_grid(50, 15),
                    spec_render_commands(Some(d), led, up),
                    50,
                    15,
                ),
            ),
            "Temp: "@ + spec_format_tenths(d.temperature_tenths as int) + "C"@,
            (4 * 51 + 2) as int,
        ),
        spec_appears_at(
            spec_content(
                spec_apply(
                    spec_blank_grid(50, 15),
                    spec_render_commands(Some(d), led, up),
                    50,
                    15,
                ),
            ),
            "Humidity: "@ + spec_format_tenths(d.humidity_tenths as int) + "%"@,
            (6 * 51 + 2) as int,
        ),
{
    reveal_strlit("Temp: ");
    reveal_strlit("C");
    reveal_strlit("Humidity: ");
    reveal_strlit("%");
    lemma_format_tenths_len(d.temperature_tenths as int);
    lemma_format_tenths_len(d.humidity_tenths as int);
    let cmds = spec_render_commands(Some(d), led, up);
    let temp = "Temp: "@ + spec_format_tenths(d.temperature_tenths as int) + "C"@;
    let hum = "Humidity: "@ + spec_format_tenths(d.humidity_tenths as int) + "%"@;
    assert(9 <= temp.len() <= 19);
    assert(13 <= hum.len() <= 23);
    let g0 = spec_blank_grid(50, 15);
    assert(forall|i: int| 0 <= i < 15 ==> (#[trigger] g0[i]).len() == 50);
    let g1 = spec_draw(g0, cmds[0], 50, 15);
    let g2 = spec_draw(g1, cmds[1], 50, 15);
    let g3 = spec_draw(g2, cmds[2], 50, 15);
    let g4 = spec_draw(g3, cmds[3], 50, 15);
    assert(g1 == g0.update(1, spec_overwrite(g0[1], cmds[0].text, 2, 50)));
    assert(g2 == g1.update(3, spec_overwrite(g1[3], cmds[1].text, 2, 50)));
    assert(g3 == g2.update(4, spec_overwrite(g2[4], temp, 2, 50)));
    assert(g4 == g3.update(6, spec_overwrite(g3[6], hum, 2, 50)));
    assert(spec_apply_prefix(g0, cmds, 0, 50, 15) == g0);
    assert(spec_apply_prefix(g0, cmds, 1, 50, 15) == g1);
    assert(spec_apply_prefix(g0, cmds, 2, 50, 15) == g2);
    assert(spec_apply_prefix(g0, cmds, 3, 50, 15) == g3);
    assert(spec_apply_prefix(g0, cmds, 4, 50, 15) == g4);
    let gfinal = spec_apply(g0, cmds, 50, 15);
    if d.temperature_tenths > 300 {
        let g5 = spec_draw(g4, cmds[4], 50, 15);
        let g6 = spec_draw(g5, cmds[5], 50, 15);
        let g7 = spec_draw(g6, cmds[6], 50, 15);
        assert(g5 == g4.update(7, spec_overwrite(g4[7], cmds[4].text, 2, 50)));
        assert(g6 == g5.update(9, spec_overwrite(g5[9], cmds[5].text, 2, 50)));
        assert(g7 == g6.update(10, spec_overwrite(g6[10], cmds[6].text, 2, 50)));
        assert(spec_apply_prefix(g0, cmds, 5, 50, 15) == g5);
        assert(spec_apply_prefix(g0, cmds, 6, 50, 15) == g6);
        assert(spec_apply_prefix(g0, cmds, 7, 50, 15) == g7);
        assert(cmds.len() == 7);
        assert(gfinal == g7);
    } else {
        let g5 = spec_draw(g4, cmds[4], 50, 15);
        let g6 = spec_draw(g5, cmds[5], 50, 15);
        assert(g5 == g4.update(9, spec_overwrite(g4[9], cmds[4].text, 2, 50)));
        assert(g6 == g5.update(10, spec_overwrite(g5[10], cmds[5].text, 2, 50)));
        assert(spec_apply_prefix(g0, cmds, 5, 50, 15) == g5);
        assert(spec_apply_prefix(g0, cmds, 6, 50, 15) == g6);
        assert(cmds.len() == 6);
        assert(gfinal == g6);
    }
    assert(gfinal[4] == spec_overwrite(g0[4], temp, 2, 50));
    assert(gfinal[6] == spec_overwrite(g0[6], hum, 2, 50));
    assert(gfinal.len() == 15);
    assert(forall|i: int| 0 <= i < 15 ==> (#[trigger] gfinal[i]).len() == 50);
    lemma_content_index(gfinal, 50, 4, 2);
    assert(spec_content(gfinal).len() == 15 * 51);
    assert forall|j: int| 0 <= j < temp.len() implies spec_content(gfinal)[4 * 51 + 2 + j]
        == temp[j] by {
        lemma_content_index(gfinal, 50, 4, 2 + j);
        assert(gfinal[4][2 + j] == temp[j]);
    }
    assert forall|j: int| 0 <= j < hum.len() implies spec_content(gfinal)[6 * 51 + 2 + j]
        == hum[j] by {
        lemma_content_index(gfinal, 50, 6, 2 + j);
        assert(gfinal[6][2 + j] == hum[j]);
    }
}

/// The warning line appears exactly when the temperature is above 30.0
/// degrees, and no other line of the plan sits at its screen row.
pub proof fn lemma_high_temp_warning(sensor: Option<SensorData>, led: bool, up: u64)
    ensures
        spec_render_commands(sensor, led, up).contains(spec_warning_cmd()) <==> (sensor is Some
            && sensor->0.temperature_tenths > 300),
        forall|i: int|
            0 <= i < spec_render_commands(sensor, led, up).len() && (
            #[trigger] spec_render_commands(sensor, led, up)[i]).y == 150
                ==> spec_render_commands(sensor, led, up)[i] == spec_warning_cmd(),
{
    let cmds = spec_render_commands(sensor, led, up);
    match sensor {
        Option::Some(d) => {
            if d.temperature_tenths > 300 {
                assert(cmds[4] == spec_warning_cmd());
                assert(cmds.contains(spec_warning_cmd()));
                assert forall|i: int| 0 <= i < cmds.len() && (#[trigger] cmds[i]).y == 150
                    implies cmds[i] == spec_warning_cmd() by {
                    assert(cmds.len() == 7);
                    assert(cmds[0].y == 30 && cmds[1].y == 60 && cmds[2].y == 90 && cmds[3].y
                        == 120 && cmds[5].y == 180 && cmds[6].y == 210);
                }
            } else {
                assert(cmds.len() == 6);
                assert(cmds[0].y == 30 && cmds[1].y == 60 && cmds[2].y == 90 && cmds[3].y == 120
                    && cmds[4].y == 180 && cmds[5].y == 210);
                assert(!cmds.contains(spec_warning_cmd())) by {
                    assert(forall|i: int| 0 <= i < cmds.len() ==> (#[trigger] cmds[i]).y != 150);
                }
            }
        },
        Option::None => {
            assert(cmds.len() == 5);
            assert(cmds[0].y == 30 && cmds[1].y == 60 && cmds[2].y == 90 && cmds[3].y == 180
                && cmds[4].y == 210);
            assert(!cmds.contains(spec_warning_cmd())) by {
                assert(forall|i: int| 0 <= i < cmds.len() ==> (#[trigger] cmds[i]).y != 150);
            }
        },
    }
}

} // verus!
