//! The checks behind the input fields of the main window: a field whose
//! text does not pass is drawn with an error border, and the window only
//! counts as ready to connect when all of them pass.
use vstd::prelude::*;
use crate::app::{AppState, AppStateView, all_apps_label};
use crate::audio::{DeviceInfo, StreamState};
use crate::theme::{ColorRole, ThemeMode};
use crate::text::{
    chars_of, parse_bounded, parse_u16, parse_u32, parse_unsigned_max, split_chars, split_on,
    trim, trimmed,
};

verus! {

/// A server address: after trimming, four dot-separated parts, each a
/// number from 0 to 255 as `u8` parses it.
pub open spec fn valid_server(s: Seq<char>) -> bool {
    let parts = split_on(trim(s), '.');
    &&& parts.len() == 4
    &&& forall|i: int| 0 <= i < 4 ==> (#[trigger] parse_unsigned_max(parts[i], 255)) is Some
}

/// A port: a `u16` other than 0.
pub open spec fn valid_port(s: Seq<char>) -> bool {
    match parse_unsigned_max(s, u16::MAX as nat) {
        Some(v) => v >= 1,
        None => false,
    }
}

/// A sample rate: a `u32` from 1000 to 384000 Hz.
pub open spec fn valid_rate(s: Seq<char>) -> bool {
    match parse_unsigned_max(s, u32::MAX as nat) {
        Some(v) => 1000 <= v && v <= 384000,
        None => false,
    }
}

/// A channel count: a `u16` from 1 to 8.
pub open spec fn valid_channels(s: Seq<char>) -> bool {
    match parse_unsigned_max(s, u16::MAX as nat) {
        Some(v) => 1 <= v && v <= 8,
        None => false,
    }
}

/// Whether `s` is a dotted IPv4 address, ignoring surrounding whitespace.
pub fn is_valid_server(s: &str) -> (r: bool)
    ensures
        r == valid_server(s@),
{
    let t = trimmed(&chars_of(s));
    let parts = split_chars(&t, '.');
    let ghost pv = parts@.map_values(|p: Vec<char>| p@);
    assert(pv == split_on(trim(s@), '.'));
    assert(pv.len() == parts.len());
    if parts.len() != 4 {
        assert(split_on(trim(s@), '.').len() != 4);
        assert(!valid_server(s@));
        return false;
    }
    let mut i: usize = 0;
    while i < 4
        invariant
            parts.len() == 4,
            pv == parts@.map_values(|p: Vec<char>| p@),
            pv == split_on(trim(s@), '.'),
            i <= 4,
            forall|j: int| 0 <= j < i ==> (#[trigger] parse_unsigned_max(pv[j], 255)) is Some,
        decreases 4 - i,
    {
        assert(pv[i as int] == parts@[i as int]@);
        if parse_bounded(&parts[i], 255).is_none() {
            assert(parse_unsigned_max(pv[i as int], 255) is None);
            return false;
        }
        i += 1;
    }
    true
}

/// Whether `s` is a port number other than 0.
pub fn is_valid_port(s: &str) -> (r: bool)
    ensures
        r == valid_port(s@),
{
    match parse_u16(&chars_of(s)) {
        Some(v) => v >= 1,
        None => false,
    }
}

/// Whether `s` is a sample rate from 1000 to 384000 Hz.
pub fn is_valid_rate(s: &str) -> (r: bool)
    ensures
        r == valid_rate(s@),
{
    match parse_u32(&chars_of(s)) {
        Some(v) => 1000 <= v && v <= 384000,
        None => false,
    }
}

/// Whether `s` is a channel count from 1 to 8.
pub fn is_valid_channels(s: &str) -> (r: bool)
    ensures
        r == valid_channels(s@),
{
    match parse_u16(&chars_of(s)) {
        Some(v) => 1 <= v && v <= 8,
        None => false,
    }
}

/// Whether every input field of `state` holds a valid value.
pub fn all_fields_valid(state: &AppState) -> (r: bool)
    ensures
        r == (valid_server(state@.server) && valid_port(state@.port) && valid_rate(state@.rate)
            && valid_channels(state@.channels)),
{
    is_valid_server(state.server.as_str()) && is_valid_port(state.port.as_str()) && is_valid_rate(
        state.rate.as_str(),
    ) && is_valid_channels(state.channels.as_str())
}

/// Whether the stream is up: connected or streaming.
pub open spec fn streaming(st: StreamState) -> bool {
    st == StreamState::Connected || st == StreamState::Streaming
}

/// The parts of the main window, from top to bottom.
#[derive(Debug, Clone, Copy, PartialEq, Eq, Structural)]
pub enum Section {
    Status,
    Connection,
    Audio,
    Options,
    Action,
    Log,
    StatsBar,
}

/// The parts shown for `s`: status, connection, audio, options and the action
/// button always; the log while the stream is up and the log is not empty;
/// the statistics bar once statistics arrived.
pub open spec fn sections_for(s: AppStateView) -> Seq<Section> {
    let base = seq![
        Section::Status,
        Section::Connection,
        Section::Audio,
        Section::Options,
        Section::Action,
    ];
    let with_log = if streaming(s.stream_state) && s.log_messages.len() > 0 {
        base.push(Section::Log)
    } else {
        base
    };
    if s.stats_bitrate.len() > 0 {
        with_log.push(Section::StatsBar)
    } else {
        with_log
    }
}

/// The parts of the main window to show for `state`, from top to bottom.
pub fn visible_sections(state: &AppState) -> (r: Vec<Section>)
    ensures
        r@ == sections_for(state@),
{
    let mut out: Vec<Section> = Vec::new();
    out.push(Section::Status);
    out.push(Section::Connection);
    out.push(Section::Audio);
    out.push(Section::Options);
    out.push(Section::Action);
    let up = state.stream_state == StreamState::Connected || state.stream_state
        == StreamState::Streaming;
    if up && state.log_messages.len() > 0 {
        out.push(Section::Log);
    }
    if !state.stats_bitrate.as_str().is_empty() {
        out.push(Section::StatsBar);
    }
    assert(out@ =~= sections_for(state@));
    out
}

/// The label of the status card.
pub open spec fn status_text(st: StreamState) -> Seq<char> {
    match st {
        StreamState::Disconnected => "Disconnected"@,
        StreamState::Connecting => "Connecting..."@,
        StreamState::Connected => "Connected"@,
        StreamState::Streaming => "Streaming"@,
    }
}

/// The label of the status card.
pub fn status_label(st: StreamState) -> (r: String)
    ensures
        r@ == status_text(st),
{
    match st {
        StreamState::Disconnected => String::from_str("Disconnected"),
        StreamState::Connecting => String::from_str("Connecting..."),
        StreamState::Connected => String::from_str("Connected"),
        StreamState::Streaming => String::from_str("Streaming"),
    }
}

/// The colour of the status dot: grey while disconnected, yellow while
/// connecting, green once the stream is up.
pub fn status_dot(st: StreamState) -> (r: ColorRole)
    ensures
        st == StreamState::Disconnected ==> r == ColorRole::TextDisabled,
        st == StreamState::Connecting ==> r == ColorRole::Yellow,
        streaming(st) ==> r == ColorRole::Green,
{
    match st {
        StreamState::Disconnected => ColorRole::TextDisabled,
        StreamState::Connecting => ColorRole::Yellow,
        _ => ColorRole::Green,
    }
}

/// The icon of the theme button.
#[derive(Debug, Clone, Copy, PartialEq, Eq, Structural)]
pub enum ThemeIcon {
    Moon,
    Sun,
}

/// The theme button shows a moon in dark mode and a sun in light mode.
pub fn theme_icon(mode: ThemeMode) -> (r: ThemeIcon)
    ensures
        r == (if mode == ThemeMode::Dark {
            ThemeIcon::Moon
        } else {
            ThemeIcon::Sun
        }),
{
    if mode == ThemeMode::Dark {
        ThemeIcon::Moon
    } else {
        ThemeIcon::Sun
    }
}

/// The main action.
#[derive(Debug, Clone, Copy, PartialEq, Eq, Structural)]
pub enum ActionButton {
    /// "Connect", in the primary style.
    Connect,
    /// "Disconnect", in the danger style.
    Disconnect,
}

/// The main button offers to disconnect as soon as a connection is under
/// way, and to connect otherwise.
pub fn action_button(st: StreamState) -> (r: ActionButton)
    ensures
        r == (if st == StreamState::Disconnected {
            ActionButton::Connect
        } else {
            ActionButton::Disconnect
        }),
{
    if st == StreamState::Disconnected {
        ActionButton::Connect
    } else {
        ActionButton::Disconnect
    }
}

/// How many of the newest log lines the log panel shows.
pub const LOG_PANEL_LINES: usize = 30;

/// The index of the first log line shown: the panel shows the last 30 lines.
pub fn log_panel_start(len: usize) -> (r: usize)
    ensures
        r == if len >= LOG_PANEL_LINES {
            len - LOG_PANEL_LINES
        } else {
            0
        },
{
    len.saturating_sub(LOG_PANEL_LINES)
}

/// The entries of the device picker: the devices' names, in order.
pub fn device_options(devices: &Vec<DeviceInfo>) -> (r: Vec<String>)
    ensures
        r.len() == devices.len(),
        forall|i: int| 0 <= i < r.len() ==> (#[trigger] r@[i])@ == devices@[i].name@,
{
    let mut out: Vec<String> = Vec::new();
    let mut i: usize = 0;
    while i < devices.len()
        invariant
            i <= devices.len(),
            out.len() == i,
            forall|j: int| 0 <= j < i ==> (#[trigger] out@[j])@ == devices@[j].name@,
        decreases devices.len() - i,
    {
        out.push(devices[i].name.clone());
        i += 1;
    }
    out
}

/// The entries of the application picker: "All apps (system audio)" first,
/// then the processes' names, in order.
pub fn process_options(state: &AppState) -> (r: Vec<String>)
    ensures
        r.len() == state.processes.len() + 1,
        r@[0]@ == all_apps_label(),
        forall|i: int|
            0 <= i < state.processes.len() ==> (#[trigger] r@[i + 1])@
                == state.processes@[i].name@,
{
    let mut out: Vec<String> = Vec::new();
    out.push(String::from_str("All apps (system audio)"));
    let mut i: usize = 0;
    while i < state.processes.len()
        invariant
            i <= state.processes.len(),
            out.len() == i + 1,
            out@[0]@ == all_apps_label(),
            forall|j: int| 0 <= j < i ==> (#[trigger] out@[j + 1])@ == state.processes@[j].name@,
        decreases state.processes.len() - i,
    {
        out.push(state.processes[i].name.clone());
        i += 1;
    }
    out
}

/// The entry shown in the application picker: the chosen process, or
/// "All apps (system audio)".
pub fn process_choice_label(state: &AppState) -> (r: String)
    ensures
        r@ == match state@.selected_process {
            Some(n) => n,
            None => all_apps_label(),
        },
{
    match &state.selected_process {
        Some(n) => n.clone(),
        None => String::from_str("All apps (system audio)"),
    }
}

/// Which input fields are marked as wrong.
#[derive(Debug, Clone, Copy, PartialEq, Eq, Structural)]
pub struct FieldErrors {
    pub server: bool,
    pub port: bool,
    pub rate: bool,
    pub channels: bool,
}

/// A field is marked as wrong when its value does not pass its check.
pub fn field_errors(state: &AppState) -> (r: FieldErrors)
    ensures
        r.server == !valid_server(state@.server),
        r.port == !valid_port(state@.port),
        r.rate == !valid_rate(state@.rate),
        r.channels == !valid_channels(state@.channels),
{
    FieldErrors {
        server: !is_valid_server(state.server.as_str()),
        port: !is_valid_port(state.port.as_str()),
        rate: !is_valid_rate(state.rate.as_str()),
        channels: !is_valid_channels(state.channels.as_str()),
    }
}

} // verus!
