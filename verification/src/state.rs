//! The shared state store and the logic behind the monitoring surface:
//! sensor snapshots, LED state, the optional display handle, and the
//! per-request and per-tick transitions of the periodic tasks and the
//! HTTP handlers. Mutual exclusion and scheduling live outside the
//! library; every transition here is a plain function of the values a
//! caller read under its own lock.

use vstd::prelude::*;

use crate::display::{spec_blank_grid, spec_content, SimulationDisplay};
use crate::render::{spec_apply, spec_render_commands, update_display_content};

verus! {

/// Character cell width of the simulated status panel.
pub const SIM_DISPLAY_WIDTH: u32 = 50;

/// Character cell height of the simulated status panel.
pub const SIM_DISPLAY_HEIGHT: u32 = 15;

/// One sampled reading. Temperature and humidity are carried in tenths
/// of a degree and tenths of a percent: the screen and the API format
/// them with exactly one decimal place, so tenths are the exact
/// precision of the surface.
#[derive(Clone, Copy, PartialEq, Eq, Structural, Debug)]
pub struct SensorData {
    pub temperature_tenths: i32,
    pub humidity_tenths: i32,
    pub timestamp: u64,
}

/// Snapshot assembled for the status endpoint; recomputed per request,
/// never stored.
pub struct SystemStatus {
    pub uptime_seconds: u64,
    pub led_status: bool,
    pub last_sensor_reading: Option<SensorData>,
    pub display_content: Option<String>,
}

/// Body of a LED-control request.
#[derive(Clone, Copy, PartialEq, Eq, Structural, Debug)]
pub struct LedControl {
    pub state: bool,
}

/// Reply of the sensor endpoint: the latest reading, or the explicit
/// no-data answer when no sampling cycle has run yet.
#[derive(Clone, Copy, PartialEq, Eq, Structural, Debug)]
pub enum SensorReply {
    Data(SensorData),
    NoData,
}

/// Reply of the LED-control endpoint.
pub struct LedReply {
    pub success: bool,
    pub led_state: Option<bool>,
    pub error: Option<String>,
}

/// Reply of the display endpoint: the rendered text and which backend
/// produced it.
pub struct DisplayReply {
    pub display_content: String,
    pub mode: String,
}

/// Synthetic temperature in tenths of a degree from one raw entropy
/// word: uniform over 20.0 to 35.0 degrees.
pub open spec fn spec_sim_temperature(raw: int) -> int {
    200 + (raw % 1000) * 150 / 1000
}

/// Synthetic humidity in tenths of a percent from one raw entropy
/// word: uniform over 40.0 to 80.0 percent.
pub open spec fn spec_sim_humidity(raw: int) -> int {
    400 + (raw % 1000) * 400 / 1000
}

/// Scales one raw entropy word to a synthetic temperature reading.
/// The entropy itself (a hash of the clock) comes from the caller.
pub fn simulate_temperature_reading(raw: u64) -> (t: i32)
    ensures
        t as int == spec_sim_temperature(raw as int),
        200 <= t <= 349,
{
    let r: u64 = raw % 1000;
    (200 + (r * 150) / 1000) as i32
}

/// Scales one raw entropy word to a synthetic humidity reading.
pub fn simulate_humidity_reading(raw: u64) -> (h: i32)
    ensures
        h as int == spec_sim_humidity(raw as int),
        400 <= h <= 799,
{
    let r: u64 = raw % 1000;
    (400 + (r * 400) / 1000) as i32
}

/// The sampler's warning rule: a reading is logged as hot exactly when
/// the temperature is above 30.0 degrees.
pub fn high_temperature(d: &SensorData) -> (r: bool)
    ensures
        r <==> d.temperature_tenths > 300,
{
    d.temperature_tenths > 300
}

/// The greeting of the root endpoint.
pub fn greeting() -> (s: String)
    ensures
        s@ == "Raspberry Pi Zero Rust Server is running!"@,
{
    String::from_str("Raspberry Pi Zero Rust Server is running!")
}

/// The error text of the sensor endpoint's no-data answer.
pub fn no_data_error_message() -> (s: String)
    ensures
        s@ == "No sensor data available"@,
{
    String::from_str("No sensor data available")
}

/// Decision step of the LED blink task: the next tick writes the
/// complement of the value written on this tick.
pub fn led_next(led_on: bool) -> (next: bool)
    ensures
        next == !led_on,
{
    !led_on
}

/// The status endpoint's view, assembled from one snapshot of each
/// field.
pub fn build_status(
    uptime_seconds: u64,
    led_status: bool,
    sensor: Option<SensorData>,
    display_content: Option<String>,
) -> (st: SystemStatus)
    ensures
        st.uptime_seconds == uptime_seconds,
        st.led_status == led_status,
        st.last_sensor_reading == sensor,
        st.display_content == display_content,
{
    SystemStatus { uptime_seconds, led_status, last_sensor_reading: sensor, display_content }
}

/// The sensor endpoint's answer from a snapshot of the sensor field.
pub fn sensor_reply(sensor: Option<SensorData>) -> (r: SensorReply)
    ensures
        match sensor {
            Option::Some(d) => r == SensorReply::Data(d),
            Option::None => r == SensorReply::NoData,
        },
{
    match sensor {
        Some(d) => SensorReply::Data(d),
        None => SensorReply::NoData,
    }
}

/// The LED-control endpoint's answer once the requested state has been
/// written.
pub fn led_success_reply(state: bool) -> (r: LedReply)
    ensures
        r.success == true,
        r.led_state == Some(state),
        r.error is None,
{
    LedReply { success: true, led_state: Some(state), error: None }
}

/// How a LED-control write changes the store: the LED field takes the
/// requested state, every other field stays.
pub open spec fn led_updated(pre: AppState, post: AppState, state: bool) -> bool {
    &&& post.led_status == state
    &&& post.sensor_data == pre.sensor_data
    &&& post.display == pre.display
    &&& post.start_time == pre.start_time
}

/// What a status snapshot reports of the store it was read from.
pub open spec fn status_reports(s: AppState, now: u64, st: SystemStatus) -> bool {
    &&& st.uptime_seconds == now - s.start_time
    &&& st.led_status == s.led_status
    &&& st.last_sensor_reading == s.sensor_data
    &&& match s.display {
        Option::Some(d) => st.display_content is Some && st.display_content->0@ == spec_content(
            d.grid(),
        ),
        Option::None => st.display_content is None,
    }
}

/// The shared aggregate: latest reading, LED state, the display handle
/// if one was initialized, and the process start time. Callers
/// serialize access per field; the library states what each transition
/// does to the values.
pub struct AppState {
    pub led_status: bool,
    pub sensor_data: Option<SensorData>,
    pub display: Option<SimulationDisplay>,
    pub start_time: u64,
}

impl AppState {
    pub open spec fn wf(&self) -> bool {
        match self.display {
            Option::Some(d) => d.wf(),
            Option::None => true,
        }
    }

    /// A fresh simulation-mode store: LED off, no reading yet, a blank
    /// simulated panel.
    pub fn new(start_time: u64) -> (s: Self)
        ensures
            s.wf(),
            s.led_status == false,
            s.sensor_data is None,
            s.start_time == start_time,
            s.display is Some,
            s.display->0.spec_width() == SIM_DISPLAY_WIDTH,
            s.display->0.spec_height() == SIM_DISPLAY_HEIGHT,
            s.display->0.grid() == spec_blank_grid(
                SIM_DISPLAY_WIDTH as int,
                SIM_DISPLAY_HEIGHT as int,
            ),
    {
        AppState {
            led_status: false,
            sensor_data: None,
            display: Some(SimulationDisplay::new(SIM_DISPLAY_WIDTH, SIM_DISPLAY_HEIGHT)),
            start_time,
        }
    }

    pub fn read_sensor(&self) -> (r: Option<SensorData>)
        ensures
            r == self.sensor_data,
    {
        self.sensor_data
    }

    pub fn write_sensor(&mut self, d: SensorData)
        ensures
            final(self).sensor_data == Some(d),
            final(self).led_status == old(self).led_status,
            final(self).display == old(self).display,
            final(self).start_time == old(self).start_time,
    {
        self.sensor_data = Some(d);
    }

    pub fn read_led(&self) -> (r: bool)
        ensures
            r == self.led_status,
    {
        self.led_status
    }

    pub fn write_led(&mut self, v: bool)
        ensures
            final(self).led_status == v,
            final(self).sensor_data == old(self).sensor_data,
            final(self).display == old(self).display,
            final(self).start_time == old(self).start_time,
    {
        self.led_status = v;
    }

    /// Seconds since process start.
    pub fn uptime(&self, now: u64) -> (r: u64)
        requires
            now >= self.start_time,
        ensures
            r == now - self.start_time,
    {
        now - self.start_time
    }

    /// The rendered text of the display, absent when no display was
    /// initialized.
    pub fn rendered_text(&self) -> (r: Option<String>)
        requires
            self.wf(),
        ensures
            match self.display {
                Option::Some(d) => r is Some && r->0@ == spec_content(d.grid()),
                Option::None => r is None,
            },
    {
        match &self.display {
            Some(d) => d.get_display_content(),
            None => None,
        }
    }

    /// One tick of the LED blink task: write this tick's value, flip
    /// the local value for the next tick.
    pub fn led_tick(&mut self, led_on: bool) -> (next: bool)
        ensures
            final(self).led_status == led_on,
            next == !led_on,
            final(self).sensor_data == old(self).sensor_data,
            final(self).display == old(self).display,
            final(self).start_time == old(self).start_time,
    {
        self.write_led(led_on);
        led_next(led_on)
    }

    /// One tick of the sensor sampler: scale the raw entropy words to
    /// a reading, store it, and hand it back for logging.
    pub fn sensor_tick(&mut self, raw_temp: u64, raw_hum: u64, timestamp: u64) -> (d: SensorData)
        ensures
            final(self).sensor_data == Some(d),
            d.temperature_tenths as int == spec_sim_temperature(raw_temp as int),
            d.humidity_tenths as int == spec_sim_humidity(raw_hum as int),
            d.timestamp == timestamp,
            final(self).led_status == old(self).led_status,
            final(self).display == old(self).display,
            final(self).start_time == old(self).start_time,
    {
        let d = SensorData {
            temperature_tenths: simulate_temperature_reading(raw_temp),
            humidity_tenths: simulate_humidity_reading(raw_hum),
            timestamp,
        };
        self.write_sensor(d);
        d
    }

    /// One tick of the display refresher: rerender the status screen
    /// from the current reading, LED state and uptime; a store without
    /// a display skips the cycle.
    pub fn display_tick(&mut self, now: u64)
        requires
            old(self).wf(),
            now >= old(self).start_time,
        ensures
            final(self).wf(),
            final(self).led_status == old(self).led_status,
            final(self).sensor_data == old(self).sensor_data,
            final(self).start_time == old(self).start_time,
            match old(self).display {
                Option::Some(d) => final(self).display is Some && {
                    let nd = final(self).display->0;
                    &&& nd.spec_width() == d.spec_width()
                    &&& nd.spec_height() == d.spec_height()
                    &&& nd.grid() == spec_apply(
                        spec_blank_grid(d.spec_width() as int, d.spec_height() as int),
                        spec_render_commands(
                            old(self).sensor_data,
                            old(self).led_status,
                            (now - old(self).start_time) as u64,
                        ),
                        d.spec_width() as int,
                        d.spec_height() as int,
                    )
                },
                Option::None => final(self).display is None,
            },
    {
        let uptime_seconds = self.uptime(now);
        let sensor_data = self.sensor_data;
        let led_status = self.led_status;
        match &mut self.display {
            Some(d) => {
                update_display_content(d, &sensor_data, led_status, uptime_seconds);
            },
            None => {},
        }
    }

    /// The status endpoint: snapshot every field into one view.
    pub fn get_status(&self, now: u64) -> (st: SystemStatus)
        requires
            self.wf(),
            now >= self.start_time,
        ensures
            status_reports(*self, now, st),
    {
        build_status(self.uptime(now), self.led_status, self.sensor_data, self.rendered_text())
    }

    /// The sensor endpoint: the latest reading, or the explicit
    /// no-data answer if no sampling cycle has run.
    pub fn get_sensor(&self) -> (r: SensorReply)
        ensures
            match self.sensor_data {
                Option::Some(d) => r == SensorReply::Data(d),
                Option::None => r == SensorReply::NoData,
            },
    {
        sensor_reply(self.sensor_data)
    }

    /// The LED-control endpoint with the LED field acquired: apply the
    /// requested state and confirm it.
    pub fn control_led(&mut self, state: bool) -> (r: LedReply)
        ensures
            led_updated(*old(self), *final(self), state),
            r.success == true,
            r.led_state == Some(state),
            r.error is None,
    {
        self.write_led(state);
        led_success_reply(state)
    }

    /// The display endpoint: rendered text plus the backend tag.
    pub fn get_display(&self) -> (r: DisplayReply)
        requires
            self.wf(),
        ensures
            match self.display {
                Option::Some(d) => r.display_content@ == spec_content(d.grid()) && r.mode@
                    == "simulation"@,
                Option::None => r.display_content@
                    == "Hardware mode - content not available via API"@ && r.mode@ == "hardware"@,
            },
    {
        display_reply(self.rendered_text())
    }
}

/// The LED-control endpoint's answer when the LED field could not be
/// acquired: no state is reported, only the error.
pub fn led_failure_reply() -> (r: LedReply)
    ensures
        r.success == false,
        r.led_state is None,
        r.error is Some,
        r.error->0@ == "Failed to access GPIO"@,
{
    LedReply {
        success: false,
        led_state: None,
        error: Some(String::from_str("Failed to access GPIO")),
    }
}

/// The display endpoint's answer from an optional rendered text: the
/// simulation backend reports its frame, a store whose display never
/// initialized (or a hardware panel, which has no text to serialize)
/// reports the fixed hardware answer.
pub fn display_reply(content: Option<String>) -> (r: DisplayReply)
    ensures
        match content {
            Option::Some(c) => r.display_content == c && r.mode@ == "simulation"@,
            Option::None => r.display_content@
                == "Hardware mode - content not available via API"@ && r.mode@ == "hardware"@,
        },
{
    match content {
        Some(c) => DisplayReply { display_content: c, mode: String::from_str("simulation") },
        None => DisplayReply {
            display_content: String::from_str("Hardware mode - content not available via API"),
            mode: String::from_str("hardware"),
        },
    }
}

/// A LED-control write followed by a status read reports the written
/// state: with no toggle tick in between, the snapshot's LED field is
/// exactly what the request set.
pub proof fn lemma_led_round_trip(
    pre: AppState,
    post: AppState,
    state: bool,
    now: u64,
    st: SystemStatus,
)
    requires
        led_updated(pre, post, state),
        status_reports(post, now, st),
    ensures
        st.led_status == state,
{
}

} // verus!
