//! The application's state and how each message changes it.
//!
//! [`AppState::update`] is the application's state machine: it applies one
//! [`Message`] to the state and the theme, and answers with the [`Effect`]s
//! that the user interface must carry out (start or stop the stream, save
//! the settings, scan the network, hide or close the window, ...).
use vstd::prelude::*;
use std::collections::VecDeque;
use crate::audio::{
    AudioEvent, AudioEventView, CaptureMode, DeviceInfo, DeviceView, ProcessInfo, ProcessView,
    StreamConfig, StreamConfigView, StreamState, devices_view, opt_device, opt_text,
    processes_view,
};
use crate::message::{Message, MessageView};
use crate::settings::{AppSettings, AppSettingsView};
use crate::text::{
    chars_of, decimal, decimal_string, lemma_parse_decimal, parse_u16, parse_u32,
    parse_unsigned_max, push_char, push_decimal, push_two_digits, string_from_chars, trim,
    trimmed, two_digits,
};
use crate::theme::ThemeMode;

verus! {

/// How many log lines the application keeps.
pub const LOG_CAPACITY: usize = 200;

/// The entry of the application picker that stands for all applications.
pub open spec fn all_apps_label() -> Seq<char> {
    "All apps (system audio)"@
}

/// What the user interface shows and edits.
pub struct AppState {
    pub server: String,
    pub port: String,
    pub rate: String,
    pub channels: String,
    pub stream_state: StreamState,
    pub auto_connect: bool,
    pub start_with_windows: bool,
    pub minimize_to_tray: bool,
    pub mute_local_output: bool,
    pub volume_text: String,
    pub show_quality_warning: bool,
    pub stats_bitrate: String,
    pub stats_format: String,
    pub stats_uptime: String,
    pub devices: Vec<DeviceInfo>,
    pub selected_device: Option<DeviceInfo>,
    pub processes: Vec<ProcessInfo>,
    pub selected_process: Option<String>,
    pub log_messages: VecDeque<String>,
    pub scanning: bool,
    pub capture_mode: CaptureMode,
    pub vb_cable_available: bool,
}

/// The mathematical value of an [`AppState`].
#[verifier::ext_equal]
pub struct AppStateView {
    pub server: Seq<char>,
    pub port: Seq<char>,
    pub rate: Seq<char>,
    pub channels: Seq<char>,
    pub stream_state: StreamState,
    pub auto_connect: bool,
    pub start_with_windows: bool,
    pub minimize_to_tray: bool,
    pub mute_local_output: bool,
    pub volume_text: Seq<char>,
    pub show_quality_warning: bool,
    pub stats_bitrate: Seq<char>,
    pub stats_format: Seq<char>,
    pub stats_uptime: Seq<char>,
    pub devices: Seq<DeviceView>,
    pub selected_device: Option<DeviceView>,
    pub processes: Seq<ProcessView>,
    pub selected_process: Option<Seq<char>>,
    pub log_messages: Seq<Seq<char>>,
    pub scanning: bool,
    pub capture_mode: CaptureMode,
    pub vb_cable_available: bool,
}

/// The views of a sequence of strings.
pub open spec fn texts_view(v: Seq<String>) -> Seq<Seq<char>> {
    v.map_values(|s: String| s@)
}

impl View for AppState {
    type V = AppStateView;

    open spec fn view(&self) -> AppStateView {
        AppStateView {
            server: self.server@,
            port: self.port@,
            rate: self.rate@,
            channels: self.channels@,
            stream_state: self.stream_state,
            auto_connect: self.auto_connect,
            start_with_windows: self.start_with_windows,
            minimize_to_tray: self.minimize_to_tray,
            mute_local_output: self.mute_local_output,
            volume_text: self.volume_text@,
            show_quality_warning: self.show_quality_warning,
            stats_bitrate: self.stats_bitrate@,
            stats_format: self.stats_format@,
            stats_uptime: self.stats_uptime@,
            devices: devices_view(self.devices@),
            selected_device: opt_device(self.selected_device),
            processes: processes_view(self.processes@),
            selected_process: opt_text(self.selected_process),
            log_messages: texts_view(self.log_messages@),
            scanning: self.scanning,
            capture_mode: self.capture_mode,
            vb_cable_available: self.vb_cable_available,
        }
    }
}

/// What the user interface must do after a message.
pub enum Effect {
    /// Start streaming with this configuration (a stream already running is kept).
    StartStream(StreamConfig),
    /// Stop streaming and wait for the streaming thread to end.
    StopStream,
    /// Write these settings to the settings file.
    SaveSettings(AppSettings),
    /// Register (true) or unregister (false) the application to start with Windows.
    SetStartWithWindows(bool),
    /// Look for a receiver listening on this port in the local subnet.
    ScanSubnet(u16),
    /// Hide the window (to the tray).
    HideWindow,
    /// Show the window again.
    ShowWindow,
    /// Close the window, which ends the application.
    CloseWindow,
    /// Enumerate the output devices and the audio processes again.
    RefreshAudioLists,
}

/// The mathematical value of an [`Effect`].
pub enum EffectView {
    StartStream(StreamConfigView),
    StopStream,
    SaveSettings(AppSettingsView),
    SetStartWithWindows(bool),
    ScanSubnet(u16),
    HideWindow,
    ShowWindow,
    CloseWindow,
    RefreshAudioLists,
}

impl View for Effect {
    type V = EffectView;

    open spec fn view(&self) -> EffectView {
        match self {
            Effect::StartStream(c) => EffectView::StartStream(c@),
            Effect::StopStream => EffectView::StopStream,
            Effect::SaveSettings(s) => EffectView::SaveSettings(s@),
            Effect::SetStartWithWindows(b) => EffectView::SetStartWithWindows(*b),
            Effect::ScanSubnet(p) => EffectView::ScanSubnet(*p),
            Effect::HideWindow => EffectView::HideWindow,
            Effect::ShowWindow => EffectView::ShowWindow,
            Effect::CloseWindow => EffectView::CloseWindow,
            Effect::RefreshAudioLists => EffectView::RefreshAudioLists,
        }
    }
}

/// The views of a sequence of effects.
pub open spec fn effects_view(v: Seq<Effect>) -> Seq<EffectView> {
    v.map_values(|e: Effect| e@)
}

// ---------------------------------------------------------------------------
// The rules, stated over views
// ---------------------------------------------------------------------------

/// `s.parse()` for an unsigned type whose largest value is `max`, or
/// `fallback` where that fails.
pub open spec fn parse_or(s: Seq<char>, max: nat, fallback: nat) -> nat {
    match parse_unsigned_max(s, max) {
        Some(v) => v,
        None => fallback,
    }
}

/// The first device called `name`.
pub open spec fn first_device_named(ds: Seq<DeviceView>, name: Seq<char>) -> Option<DeviceView>
    decreases ds.len(),
{
    if ds.len() == 0 {
        None
    } else if ds[0].name == name {
        Some(ds[0])
    } else {
        first_device_named(ds.drop_first(), name)
    }
}

/// The first device with endpoint id `id`.
pub open spec fn first_device_with_id(ds: Seq<DeviceView>, id: Seq<char>) -> Option<DeviceView>
    decreases ds.len(),
{
    if ds.len() == 0 {
        None
    } else if ds[0].id == id {
        Some(ds[0])
    } else {
        first_device_with_id(ds.drop_first(), id)
    }
}

/// The id of the first process called `name`.
pub open spec fn first_pid_named(ps: Seq<ProcessView>, name: Seq<char>) -> Option<u32>
    decreases ps.len(),
{
    if ps.len() == 0 {
        None
    } else if ps[0].name == name {
        Some(ps[0].pid)
    } else {
        first_pid_named(ps.drop_first(), name)
    }
}

/// The endpoint id of the chosen device; `None` for no choice and for the
/// system default (whose id is empty).
pub open spec fn chosen_device_id(sel: Option<DeviceView>) -> Option<Seq<char>> {
    match sel {
        Some(d) => if d.id.len() == 0 {
            None
        } else {
            Some(d.id)
        },
        None => None,
    }
}

/// The process whose audio alone is captured, if the user picked one.
pub open spec fn chosen_pid(s: AppStateView) -> Option<u32> {
    match s.selected_process {
        Some(n) => first_pid_named(s.processes, n),
        None => None,
    }
}

/// The stream configuration for the fields of `s`: the server trimmed, and
/// the port, rate and channel count parsed, with 4714, 48000 and 2 where
/// they do not parse.
pub open spec fn stream_config_for(s: AppStateView) -> StreamConfigView {
    StreamConfigView {
        server: trim(s.server),
        port: parse_or(s.port, u16::MAX as nat, 4714) as u16,
        rate: parse_or(s.rate, u32::MAX as nat, 48000) as u32,
        channels: parse_or(s.channels, u16::MAX as nat, 2) as u16,
        device_id: chosen_device_id(s.selected_device),
        process_id: chosen_pid(s),
        mute_local_output: s.mute_local_output,
        capture_mode: s.capture_mode,
    }
}

/// The settings to save for the state `s` under the theme `mode`.
pub open spec fn saved_settings(s: AppStateView, mode: ThemeMode) -> AppSettingsView {
    AppSettingsView {
        server: s.server,
        port: parse_or(s.port, u16::MAX as nat, 4714) as u16,
        rate: parse_or(s.rate, u32::MAX as nat, 48000) as u32,
        channels: parse_or(s.channels, u16::MAX as nat, 2) as u16,
        device_id: chosen_device_id(s.selected_device),
        auto_connect: s.auto_connect,
        start_with_windows: s.start_with_windows,
        minimize_to_tray: s.minimize_to_tray,
        mute_local_output: s.mute_local_output,
        dark_theme: mode == ThemeMode::Dark,
    }
}

/// Connecting: nothing while the server field is blank; otherwise save the
/// settings, then start the stream.
pub open spec fn connect_effects(s: AppStateView, mode: ThemeMode) -> Seq<EffectView> {
    if trim(s.server).len() == 0 {
        Seq::empty()
    } else {
        seq![
            EffectView::SaveSettings(saved_settings(s, mode)),
            EffectView::StartStream(stream_config_for(s)),
        ]
    }
}

/// The log after `m` arrives: the oldest line goes when the log is full.
pub open spec fn appended_log(log: Seq<Seq<char>>, m: Seq<char>) -> Seq<Seq<char>> {
    if log.len() >= LOG_CAPACITY {
        log.drop_first().push(m)
    } else {
        log.push(m)
    }
}

/// An uptime of `secs` seconds as `hh:mm:ss` (hours may take more digits).
pub open spec fn clock_text(secs: nat) -> Seq<char> {
    two_digits(secs / 3600) + ":"@ + two_digits((secs % 3600) / 60) + ":"@ + two_digits(
        secs % 60,
    )
}

/// The volume shown in the status card.
pub open spec fn volume_label(percent: u32, muted: bool) -> Seq<char> {
    if muted {
        "Vol: Muted"@
    } else {
        "Vol: "@ + decimal(percent as nat) + "%"@
    }
}

/// The state after an event of the streaming thread.
pub open spec fn after_audio_event(s: AppStateView, e: AudioEventView) -> AppStateView {
    match e {
        AudioEventView::StateChanged(st) => if st == StreamState::Disconnected {
            AppStateView {
                stream_state: st,
                volume_text: Seq::empty(),
                stats_bitrate: Seq::empty(),
                stats_format: Seq::empty(),
                stats_uptime: Seq::empty(),
                ..s
            }
        } else {
            AppStateView { stream_state: st, ..s }
        },
        AudioEventView::Log(m) => AppStateView {
            log_messages: appended_log(s.log_messages, m),
            ..s
        },
        AudioEventView::StatsUpdated { bytes_sent, bitrate_text, uptime_secs, drops, capture_format } =>
            AppStateView {
            stats_bitrate: bitrate_text,
            stats_format: capture_format,
            stats_uptime: clock_text(uptime_secs as nat),
            show_quality_warning: drops > 0,
            ..s
        },
        AudioEventView::VolumeChanged { percent, muted } => AppStateView {
            volume_text: volume_label(percent, muted),
            ..s
        },
    }
}

/// The state after the user picks `name` in the application picker.
pub open spec fn with_process_choice(s: AppStateView, name: Seq<char>) -> AppStateView {
    AppStateView {
        selected_process: if name == all_apps_label() {
            None
        } else {
            Some(name)
        },
        ..s
    }
}

/// What one message does: the next state, the next theme, and the effects
/// to carry out, in order.
pub open spec fn next(s: AppStateView, mode: ThemeMode, m: MessageView) -> (
    AppStateView,
    ThemeMode,
    Seq<EffectView>,
) {
    match m {
        MessageView::Connect => (s, mode, connect_effects(s, mode)),
        MessageView::Disconnect => (s, mode, seq![EffectView::StopStream]),
        MessageView::ServerChanged(v) => (AppStateView { server: v, ..s }, mode, Seq::empty()),
        MessageView::PortChanged(v) => (AppStateView { port: v, ..s }, mode, Seq::empty()),
        MessageView::RateChanged(v) => (AppStateView { rate: v, ..s }, mode, Seq::empty()),
        MessageView::ChannelsChanged(v) => (AppStateView { channels: v, ..s }, mode, Seq::empty()),
        MessageView::DeviceSelected(name) => (
            AppStateView { selected_device: first_device_named(s.devices, name), ..s },
            mode,
            Seq::empty(),
        ),
        MessageView::ProcessSelected(name) => {
            let picked = with_process_choice(s, name);
            if s.stream_state == StreamState::Disconnected {
                (picked, mode, Seq::empty())
            } else {
                let cleared = AppStateView { log_messages: Seq::empty(), ..picked };
                (
                    cleared,
                    mode,
                    seq![EffectView::StopStream] + connect_effects(cleared, mode),
                )
            }
        },
        MessageView::CaptureModeChanged(c) => (
            AppStateView { capture_mode: c, ..s },
            mode,
            Seq::empty(),
        ),
        MessageView::ToggleAutoConnect(v) => {
            let t = AppStateView { auto_connect: v, ..s };
            (t, mode, seq![EffectView::SaveSettings(saved_settings(t, mode))])
        },
        MessageView::ToggleStartWithWindows(v) => {
            let t = AppStateView { start_with_windows: v, ..s };
            (
                t,
                mode,
                seq![
                    EffectView::SetStartWithWindows(v),
                    EffectView::SaveSettings(saved_settings(t, mode)),
                ],
            )
        },
        MessageView::ToggleMuteLocalOutput(v) => {
            let t = AppStateView { mute_local_output: v, ..s };
            (t, mode, seq![EffectView::SaveSettings(saved_settings(t, mode))])
        },
        MessageView::ToggleTheme => {
            let m2 = if mode == ThemeMode::Dark {
                ThemeMode::Light
            } else {
                ThemeMode::Dark
            };
            (s, m2, seq![EffectView::SaveSettings(saved_settings(s, m2))])
        },
        MessageView::AudioEvent(e) => (after_audio_event(s, e), mode, Seq::empty()),
        MessageView::ScanServers => (
            AppStateView { scanning: true, ..s },
            mode,
            seq![EffectView::ScanSubnet(parse_or(s.port, u16::MAX as nat, 4714) as u16)],
        ),
        MessageView::ScanResult(found) => (
            AppStateView {
                scanning: false,
                server: match found {
                    Some(ip) => ip,
                    None => s.server,
                },
                ..s
            },
            mode,
            Seq::empty(),
        ),
        MessageView::CloseRequested => (s, mode, seq![EffectView::HideWindow]),
        MessageView::TrayRestore => (s, mode, seq![EffectView::ShowWindow]),
        MessageView::ExitApp => (s, mode, seq![EffectView::StopStream, EffectView::CloseWindow]),
        MessageView::Tick => (s, mode, seq![EffectView::RefreshAudioLists]),
        MessageView::Noop => (s, mode, Seq::empty()),
    }
}

// ---------------------------------------------------------------------------
// Lookups
// ---------------------------------------------------------------------------

/// The first device called `name`, copied.
pub fn device_named(devices: &Vec<DeviceInfo>, name: &String) -> (r: Option<DeviceInfo>)
    ensures
        opt_device(r) == first_device_named(devices_view(devices@), name@),
{
    let mut i: usize = 0;
    assert(devices_view(devices@).skip(0) =~= devices_view(devices@));
    while i < devices.len()
        invariant
            i <= devices.len(),
            first_device_named(devices_view(devices@), name@) == first_device_named(
                devices_view(devices@).skip(i as int),
                name@,
            ),
        decreases devices.len() - i,
    {
        let ghost rest = devices_view(devices@).skip(i as int);
        assert(rest[0] == devices@[i as int]@);
        assert(rest.drop_first() =~= devices_view(devices@).skip(i + 1));
        if devices[i].name == *name {
            return Some(devices[i].duplicate());
        }
        i += 1;
    }
    None
}

/// The first device with endpoint id `id`, copied.
pub fn device_with_id(devices: &Vec<DeviceInfo>, id: &String) -> (r: Option<DeviceInfo>)
    ensures
        opt_device(r) == first_device_with_id(devices_view(devices@), id@),
{
    let mut i: usize = 0;
    assert(devices_view(devices@).skip(0) =~= devices_view(devices@));
    while i < devices.len()
        invariant
            i <= devices.len(),
            first_device_with_id(devices_view(devices@), id@) == first_device_with_id(
                devices_view(devices@).skip(i as int),
                id@,
            ),
        decreases devices.len() - i,
    {
        let ghost rest = devices_view(devices@).skip(i as int);
        assert(rest[0] == devices@[i as int]@);
        assert(rest.drop_first() =~= devices_view(devices@).skip(i + 1));
        if devices[i].id == *id {
            return Some(devices[i].duplicate());
        }
        i += 1;
    }
    None
}

/// The id of the first process called `name`.
pub fn pid_named(processes: &Vec<ProcessInfo>, name: &String) -> (r: Option<u32>)
    ensures
        r == first_pid_named(processes_view(processes@), name@),
{
    let mut i: usize = 0;
    assert(processes_view(processes@).skip(0) =~= processes_view(processes@));
    while i < processes.len()
        invariant
            i <= processes.len(),
            first_pid_named(processes_view(processes@), name@) == first_pid_named(
                processes_view(processes@).skip(i as int),
                name@,
            ),
        decreases processes.len() - i,
    {
        let ghost rest = processes_view(processes@).skip(i as int);
        assert(rest[0] == processes@[i as int]@);
        assert(rest.drop_first() =~= processes_view(processes@).skip(i + 1));
        if processes[i].name == *name {
            return Some(processes[i].pid);
        }
        i += 1;
    }
    None
}

/// An uptime of `secs` seconds as `hh:mm:ss`.
pub fn format_uptime(secs: u64) -> (r: String)
    ensures
        r@ == clock_text(secs as nat),
{
    let mut s = String::new();
    push_two_digits(&mut s, secs / 3600);
    push_char(&mut s, ':');
    push_two_digits(&mut s, (secs % 3600) / 60);
    push_char(&mut s, ':');
    push_two_digits(&mut s, secs % 60);
    proof {
        reveal_strlit(":");
    }
    assert(s@ =~= clock_text(secs as nat));
    s
}

/// The volume shown in the status card.
pub fn format_volume(percent: u32, muted: bool) -> (r: String)
    ensures
        r@ == volume_label(percent, muted),
{
    if muted {
        String::from_str("Vol: Muted")
    } else {
        let mut s = String::from_str("Vol: ");
        push_decimal(&mut s, percent as u64);
        push_char(&mut s, '%');
        proof {
            reveal_strlit("%");
        }
        assert(s@ =~= volume_label(percent, muted));
        s
    }
}

impl AppState {
    /// The chosen device's endpoint id, unless it is the default.
    fn chosen_device_id(&self) -> (r: Option<String>)
        ensures
            opt_text(r) == chosen_device_id(self@.selected_device),
    {
        match &self.selected_device {
            Some(d) => if d.id.as_str().is_empty() {
                None
            } else {
                Some(d.id.clone())
            },
            None => None,
        }
    }

    /// The port field as a number, 4714 where it does not parse.
    fn port_or_default(&self) -> (r: u16)
        ensures
            r == parse_or(self@.port, u16::MAX as nat, 4714),
    {
        match parse_u16(&chars_of(self.port.as_str())) {
            Some(p) => p,
            None => 4714,
        }
    }

    /// The sample-rate field as a number, 48000 where it does not parse.
    fn rate_or_default(&self) -> (r: u32)
        ensures
            r == parse_or(self@.rate, u32::MAX as nat, 48000),
    {
        match parse_u32(&chars_of(self.rate.as_str())) {
            Some(p) => p,
            None => 48000,
        }
    }

    /// The channels field as a number, 2 where it does not parse.
    fn channels_or_default(&self) -> (r: u16)
        ensures
            r == parse_or(self@.channels, u16::MAX as nat, 2),
    {
        match parse_u16(&chars_of(self.channels.as_str())) {
            Some(p) => p,
            None => 2,
        }
    }

    /// The settings to save for this state under the theme `mode`.
    pub fn settings_for(&self, mode: ThemeMode) -> (r: AppSettings)
        ensures
            r@ == saved_settings(self@, mode),
    {
        AppSettings {
            server: self.server.clone(),
            port: self.port_or_default(),
            rate: self.rate_or_default(),
            channels: self.channels_or_default(),
            device_id: self.chosen_device_id(),
            auto_connect: self.auto_connect,
            start_with_windows: self.start_with_windows,
            minimize_to_tray: self.minimize_to_tray,
            mute_local_output: self.mute_local_output,
            dark_theme: mode == ThemeMode::Dark,
        }
    }

    /// The effects of a request to connect.
    fn connect(&self, mode: ThemeMode) -> (r: Vec<Effect>)
        ensures
            effects_view(r@) == connect_effects(self@, mode),
    {
        let t = trimmed(&chars_of(self.server.as_str()));
        let mut out: Vec<Effect> = Vec::new();
        if t.len() == 0 {
            assert(effects_view(out@) =~= connect_effects(self@, mode));
            return out;
        }
        let process_id = match &self.selected_process {
            Some(name) => pid_named(&self.processes, name),
            None => None,
        };
        let cfg = StreamConfig {
            server: string_from_chars(&t),
            port: self.port_or_default(),
            rate: self.rate_or_default(),
            channels: self.channels_or_default(),
            device_id: self.chosen_device_id(),
            process_id,
            mute_local_output: self.mute_local_output,
            capture_mode: self.capture_mode,
        };
        out.push(Effect::SaveSettings(self.settings_for(mode)));
        out.push(Effect::StartStream(cfg));
        assert(effects_view(out@) =~= connect_effects(self@, mode));
        out
    }

    /// Adds a line to the log, dropping the oldest line when the log is full.
    fn push_log(&mut self, m: String)
        ensures
            final(self)@ == (AppStateView {
                log_messages: appended_log(old(self)@.log_messages, m@),
                ..old(self)@
            }),
    {
        let ghost before = self.log_messages@;
        if self.log_messages.len() >= LOG_CAPACITY {
            let _ = self.log_messages.pop_front();
            assert(self.log_messages@ =~= before.drop_first());
        }
        let ghost mid = self.log_messages@;
        self.log_messages.push_back(m);
        assert(self.log_messages@ =~= mid.push(m));
        assert(texts_view(self.log_messages@) =~= appended_log(texts_view(before), m@));
        assert(final(self)@ =~= (AppStateView {
            log_messages: appended_log(old(self)@.log_messages, m@),
            ..old(self)@
        }));
    }

    /// Applies an event of the streaming thread.
    fn apply_audio_event(&mut self, e: AudioEvent)
        ensures
            final(self)@ == after_audio_event(old(self)@, e@),
    {
        match e {
            AudioEvent::StateChanged(st) => {
                if st == StreamState::Disconnected {
                    self.volume_text = String::new();
                    self.stats_bitrate = String::new();
                    self.stats_format = String::new();
                    self.stats_uptime = String::new();
                }
                self.stream_state = st;
                assert(final(self)@ =~= after_audio_event(old(self)@, e@));
            },
            AudioEvent::Log(m) => {
                self.push_log(m);
            },
            AudioEvent::StatsUpdated(stats) => {
                self.stats_bitrate = stats.bitrate_text;
                self.stats_format = stats.capture_format;
                self.stats_uptime = format_uptime(stats.uptime_secs);
                self.show_quality_warning = stats.drops > 0;
                assert(final(self)@ =~= after_audio_event(old(self)@, e@));
            },
            AudioEvent::VolumeChanged { percent, muted } => {
                self.volume_text = format_volume(percent, muted);
                assert(final(self)@ =~= after_audio_event(old(self)@, e@));
            },
        }
    }

    /// Applies `msg` to the state and the theme, and answers with the effects
    /// to carry out, in order.
    pub fn update(&mut self, mode: &mut ThemeMode, msg: Message) -> (r: Vec<Effect>)
        ensures
            final(self)@ == next(old(self)@, *old(mode), msg@).0,
            *final(mode) == next(old(self)@, *old(mode), msg@).1,
            effects_view(r@) == next(old(self)@, *old(mode), msg@).2,
    {
        match &msg {
            Message::ServerChanged(_)
            | Message::PortChanged(_)
            | Message::RateChanged(_)
            | Message::ChannelsChanged(_)
            | Message::DeviceSelected(_)
            | Message::CaptureModeChanged(_)
            | Message::ScanResult(_) => {
                self.apply_edit(*mode, msg);
                Vec::new()
            },
            Message::AudioEvent(_) => {
                match msg {
                    Message::AudioEvent(e) => self.apply_audio_event(e),
                    _ => {},
                }
                Vec::new()
            },
            Message::ToggleAutoConnect(_)
            | Message::ToggleStartWithWindows(_)
            | Message::ToggleMuteLocalOutput(_)
            | Message::ToggleTheme => self.apply_toggle(mode, msg),
            Message::ProcessSelected(_) => {
                match msg {
                    Message::ProcessSelected(name) => self.select_process(*mode, name),
                    _ => Vec::new(),
                }
            },
            Message::ScanServers => {
                self.scanning = true;
                let mut out: Vec<Effect> = Vec::new();
                out.push(Effect::ScanSubnet(self.port_or_default()));
                assert(self@ =~= next(old(self)@, *mode, msg@).0);
                assert(effects_view(out@) =~= next(old(self)@, *mode, msg@).2);
                out
            },
            _ => self.commands(*mode, &msg),
        }
    }

    /// Messages that edit a field of the state and have no effect.
    fn apply_edit(&mut self, mode: ThemeMode, msg: Message)
        requires
            msg is ServerChanged || msg is PortChanged || msg is RateChanged
                || msg is ChannelsChanged || msg is DeviceSelected || msg is CaptureModeChanged
                || msg is ScanResult,
        ensures
            final(self)@ == next(old(self)@, mode, msg@).0,
            next(old(self)@, mode, msg@).1 == mode,
            next(old(self)@, mode, msg@).2 == Seq::<EffectView>::empty(),
    {
        let ghost mv = msg@;
        match msg {
            Message::ServerChanged(v) => {
                self.server = v;
            },
            Message::PortChanged(v) => {
                self.port = v;
            },
            Message::RateChanged(v) => {
                self.rate = v;
            },
            Message::ChannelsChanged(v) => {
                self.channels = v;
            },
            Message::DeviceSelected(name) => {
                self.selected_device = device_named(&self.devices, &name);
            },
            Message::CaptureModeChanged(c) => {
                self.capture_mode = c;
            },
            Message::ScanResult(found) => {
                self.scanning = false;
                match found {
                    Some(ip) => {
                        self.server = ip;
                    },
                    None => {},
                }
            },
            _ => {},
        }
        assert(self@ =~= next(old(self)@, mode, mv).0);
    }

    /// The option toggles and the theme toggle, which save the settings.
    fn apply_toggle(&mut self, mode: &mut ThemeMode, msg: Message) -> (r: Vec<Effect>)
        requires
            msg is ToggleAutoConnect || msg is ToggleStartWithWindows || msg is ToggleMuteLocalOutput
                || msg is ToggleTheme,
        ensures
            final(self)@ == next(old(self)@, *old(mode), msg@).0,
            *final(mode) == next(old(self)@, *old(mode), msg@).1,
            effects_view(r@) == next(old(self)@, *old(mode), msg@).2,
    {
        let ghost mv = msg@;
        let ghost m0 = *mode;
        let mut out: Vec<Effect> = Vec::new();
        match msg {
            Message::ToggleAutoConnect(v) => {
                self.auto_connect = v;
                out.push(Effect::SaveSettings(self.settings_for(*mode)));
            },
            Message::ToggleStartWithWindows(v) => {
                self.start_with_windows = v;
                out.push(Effect::SetStartWithWindows(v));
                out.push(Effect::SaveSettings(self.settings_for(*mode)));
            },
            Message::ToggleMuteLocalOutput(v) => {
                self.mute_local_output = v;
                out.push(Effect::SaveSettings(self.settings_for(*mode)));
            },
            _ => {
                *mode = mode.toggled();
                out.push(Effect::SaveSettings(self.settings_for(*mode)));
            },
        }
        assert(self@ =~= next(old(self)@, m0, mv).0);
        assert(effects_view(out@) =~= next(old(self)@, m0, mv).2);
        out
    }

    /// Messages that leave the state as it is and only ask for effects.
    fn commands(&self, mode: ThemeMode, msg: &Message) -> (r: Vec<Effect>)
        requires
            msg is Connect || msg is Disconnect || msg is CloseRequested || msg is TrayRestore
                || msg is ExitApp || msg is Tick || msg is Noop,
        ensures
            next(self@, mode, msg@).0 == self@,
            next(self@, mode, msg@).1 == mode,
            effects_view(r@) == next(self@, mode, msg@).2,
    {
        let mut out: Vec<Effect> = Vec::new();
        match msg {
            Message::Connect => {
                out = self.connect(mode);
            },
            Message::Disconnect => {
                out.push(Effect::StopStream);
            },
            Message::CloseRequested => {
                out.push(Effect::HideWindow);
            },
            Message::TrayRestore => {
                out.push(Effect::ShowWindow);
            },
            Message::ExitApp => {
                out.push(Effect::StopStream);
                out.push(Effect::CloseWindow);
            },
            Message::Tick => {
                out.push(Effect::RefreshAudioLists);
            },
            _ => {},
        }
        assert(effects_view(out@) =~= next(self@, mode, msg@).2);
        out
    }

    /// The user picks `name` in the application picker; a running stream is
    /// restarted so that it captures the new choice.
    fn select_process(&mut self, mode: ThemeMode, name: String) -> (r: Vec<Effect>)
        ensures
            (final(self)@, mode, effects_view(r@)) == next(
                old(self)@,
                mode,
                MessageView::ProcessSelected(name@),
            ),
    {
        let ghost s0 = self@;
        let ghost nv = name@;
        let was_streaming = self.stream_state != StreamState::Disconnected;
        let all_apps = String::from_str("All apps (system audio)");
        if name == all_apps {
            self.selected_process = None;
        } else {
            self.selected_process = Some(name);
        }
        assert(self@ =~= with_process_choice(s0, nv));
        let mut out: Vec<Effect> = Vec::new();
        if was_streaming {
            out.push(Effect::StopStream);
            self.log_messages.clear();
            assert(self@ =~= (AppStateView {
                log_messages: Seq::empty(),
                ..with_process_choice(s0, nv)
            }));
            let mut more = self.connect(mode);
            let ghost first = effects_view(out@);
            let ghost second = effects_view(more@);
            out.append(&mut more);
            assert(effects_view(out@) =~= first + second);
        } else {
            assert(effects_view(out@) =~= Seq::<EffectView>::empty());
        }
        out
    }
}

// ---------------------------------------------------------------------------
// Start-up, refresh and title
// ---------------------------------------------------------------------------

/// The theme that settings ask for.
pub open spec fn theme_of(st: AppSettingsView) -> ThemeMode {
    if st.dark_theme {
        ThemeMode::Dark
    } else {
        ThemeMode::Light
    }
}

/// The device chosen at start-up: the saved device, looked up by id, or
/// the first device where none was saved.
pub open spec fn initial_device(st: AppSettingsView, devices: Seq<DeviceView>) -> Option<DeviceView> {
    match st.device_id {
        Some(id) => first_device_with_id(devices, id),
        None => if devices.len() > 0 {
            Some(devices[0])
        } else {
            None
        },
    }
}

/// The state at start-up, for the saved settings, the devices and audio
/// processes found, and whether the VB-CABLE device is installed.
pub open spec fn initial_view(
    st: AppSettingsView,
    devices: Seq<DeviceView>,
    processes: Seq<ProcessView>,
    vb_cable_available: bool,
) -> AppStateView {
    AppStateView {
        server: st.server,
        port: decimal(st.port as nat),
        rate: decimal(st.rate as nat),
        channels: decimal(st.channels as nat),
        stream_state: StreamState::Disconnected,
        auto_connect: st.auto_connect,
        start_with_windows: st.start_with_windows,
        minimize_to_tray: st.minimize_to_tray,
        mute_local_output: st.mute_local_output,
        volume_text: Seq::empty(),
        show_quality_warning: false,
        stats_bitrate: Seq::empty(),
        stats_format: Seq::empty(),
        stats_uptime: Seq::empty(),
        devices,
        selected_device: initial_device(st, devices),
        processes,
        selected_process: None,
        log_messages: Seq::empty(),
        scanning: false,
        capture_mode: CaptureMode::WasapiLoopback,
        vb_cable_available,
    }
}

/// The views of a sequence of messages.
pub open spec fn messages_view(v: Seq<Message>) -> Seq<MessageView> {
    v.map_values(|m: Message| m@)
}

/// What happens right after start-up: with no server yet, a scan for one;
/// otherwise a connection when auto-connect is on.
pub open spec fn startup_messages_for(s: AppStateView) -> Seq<MessageView> {
    if trim(s.server).len() == 0 {
        seq![MessageView::ScanServers]
    } else if s.auto_connect {
        seq![MessageView::Connect]
    } else {
        Seq::empty()
    }
}

/// The state after the device and process lists are enumerated again: the
/// chosen device stays chosen while a device with its id is still present,
/// and otherwise the first device is chosen.
pub open spec fn refreshed(
    s: AppStateView,
    devices: Seq<DeviceView>,
    processes: Seq<ProcessView>,
) -> AppStateView {
    AppStateView {
        devices,
        processes,
        selected_device: match s.selected_device {
            Some(sel) => if first_device_with_id(devices, sel.id) is Some {
                Some(sel)
            } else if devices.len() > 0 {
                Some(devices[0])
            } else {
                None
            },
            None => None,
        },
        ..s
    }
}

/// The window title for a stream state.
pub open spec fn title_text(st: StreamState) -> Seq<char> {
    match st {
        StreamState::Disconnected => "PulseStream"@,
        StreamState::Connecting => "PulseStream - Connecting"@,
        StreamState::Connected => "PulseStream - Connected"@,
        StreamState::Streaming => "PulseStream - Streaming"@,
    }
}

/// The device found by id has that id.
pub proof fn lemma_device_with_id(ds: Seq<DeviceView>, id: Seq<char>)
    ensures
        first_device_with_id(ds, id) matches Some(d) ==> d.id == id,
    decreases ds.len(),
{
    if ds.len() > 0 && ds[0].id != id {
        lemma_device_with_id(ds.drop_first(), id);
    }
}

/// Saving the state that was just built from settings gives back those very
/// settings, provided the saved device (if any) is among the devices found
/// and has a real id, and, where no device was saved, the first device found
/// is the system default (whose id is empty).
pub proof fn lemma_settings_roundtrip(
    st: AppSettingsView,
    devices: Seq<DeviceView>,
    processes: Seq<ProcessView>,
    vb_cable_available: bool,
)
    requires
        st.device_id matches Some(id) ==> id.len() > 0 && first_device_with_id(devices, id) is Some,
        st.device_id is None ==> devices.len() == 0 || devices[0].id.len() == 0,
    ensures
        saved_settings(initial_view(st, devices, processes, vb_cable_available), theme_of(st))
            == st,
{
    lemma_parse_decimal(st.port as nat);
    lemma_parse_decimal(st.rate as nat);
    lemma_parse_decimal(st.channels as nat);
    if let Some(id) = st.device_id {
        lemma_device_with_id(devices, id);
    }
    assert(saved_settings(initial_view(st, devices, processes, vb_cable_available), theme_of(st))
        =~= st);
}

impl AppState {
    /// The state at start-up, and the theme, from the saved settings, the
    /// devices and audio processes found, and whether the VB-CABLE device is
    /// installed.
    pub fn from_settings(
        settings: &AppSettings,
        devices: Vec<DeviceInfo>,
        processes: Vec<ProcessInfo>,
        vb_cable_available: bool,
    ) -> (r: (AppState, ThemeMode))
        ensures
            r.0@ == initial_view(
                settings@,
                devices_view(devices@),
                processes_view(processes@),
                vb_cable_available,
            ),
            r.1 == theme_of(settings@),
    {
        let selected_device = match &settings.device_id {
            Some(id) => device_with_id(&devices, id),
            None => if devices.len() > 0 {
                Some(devices[0].duplicate())
            } else {
                None
            },
        };
        let mode = if settings.dark_theme {
            ThemeMode::Dark
        } else {
            ThemeMode::Light
        };
        let state = AppState {
            server: settings.server.clone(),
            port: decimal_string(settings.port as u64),
            rate: decimal_string(settings.rate as u64),
            channels: decimal_string(settings.channels as u64),
            stream_state: StreamState::Disconnected,
            auto_connect: settings.auto_connect,
            start_with_windows: settings.start_with_windows,
            minimize_to_tray: settings.minimize_to_tray,
            mute_local_output: settings.mute_local_output,
            volume_text: String::new(),
            show_quality_warning: false,
            stats_bitrate: String::new(),
            stats_format: String::new(),
            stats_uptime: String::new(),
            devices,
            selected_device,
            processes,
            selected_process: None,
            log_messages: VecDeque::new(),
            scanning: false,
            capture_mode: CaptureMode::WasapiLoopback,
            vb_cable_available,
        };
        assert(texts_view(state.log_messages@) =~= Seq::<Seq<char>>::empty());
        assert(state@ =~= initial_view(
            settings@,
            devices_view(state.devices@),
            processes_view(state.processes@),
            vb_cable_available,
        ));
        (state, mode)
    }

    /// The messages to handle right after start-up.
    pub fn startup_messages(&self) -> (r: Vec<Message>)
        ensures
            messages_view(r@) == startup_messages_for(self@),
    {
        let mut out: Vec<Message> = Vec::new();
        let t = trimmed(&chars_of(self.server.as_str()));
        if t.len() == 0 {
            out.push(Message::ScanServers);
        } else if self.auto_connect {
            out.push(Message::Connect);
        }
        assert(messages_view(out@) =~= startup_messages_for(self@));
        out
    }

    /// Takes in freshly enumerated device and process lists.
    pub fn apply_refresh(&mut self, devices: Vec<DeviceInfo>, processes: Vec<ProcessInfo>)
        ensures
            final(self)@ == refreshed(old(self)@, devices_view(devices@), processes_view(processes@)),
    {
        let ghost dv = devices_view(devices@);
        let ghost pv = processes_view(processes@);
        let keep = match &self.selected_device {
            Some(sel) => device_with_id(&devices, &sel.id).is_some(),
            None => true,
        };
        if !keep {
            self.selected_device = if devices.len() > 0 {
                Some(devices[0].duplicate())
            } else {
                None
            };
        }
        self.devices = devices;
        self.processes = processes;
        assert(self@ =~= refreshed(old(self)@, dv, pv));
    }

    /// The window title.
    pub fn title(&self) -> (r: String)
        ensures
            r@ == title_text(self.stream_state),
    {
        match self.stream_state {
            StreamState::Disconnected => String::from_str("PulseStream"),
            StreamState::Connecting => String::from_str("PulseStream - Connecting"),
            StreamState::Connected => String::from_str("PulseStream - Connected"),
            StreamState::Streaming => String::from_str("PulseStream - Streaming"),
        }
    }
}

// ---------------------------------------------------------------------------
// Laws
// ---------------------------------------------------------------------------

/// The log after the lines `lines` arrive, one by one, into an empty log.
pub open spec fn log_after(lines: Seq<Seq<char>>) -> Seq<Seq<char>>
    decreases lines.len(),
{
    if lines.len() == 0 {
        Seq::empty()
    } else {
        appended_log(log_after(lines.drop_last()), lines.last())
    }
}

/// The log holds at most 200 lines: no message takes a log of at most 200
/// lines above 200.
pub proof fn lemma_log_bounded(s: AppStateView, mode: ThemeMode, m: MessageView)
    requires
        s.log_messages.len() <= LOG_CAPACITY,
    ensures
        next(s, mode, m).0.log_messages.len() <= LOG_CAPACITY,
{
}

/// The log keeps the newest lines: after any run of lines into an empty log,
/// it holds exactly the last 200 of them (all of them while there are fewer),
/// oldest first.
pub proof fn lemma_log_keeps_newest(lines: Seq<Seq<char>>)
    ensures
        log_after(lines) == lines.skip(
            if lines.len() > LOG_CAPACITY {
                lines.len() - LOG_CAPACITY
            } else {
                0
            },
        ),
    decreases lines.len(),
{
    if lines.len() > 0 {
        let prev = lines.drop_last();
        lemma_log_keeps_newest(prev);
        let k = if prev.len() > LOG_CAPACITY {
            prev.len() - LOG_CAPACITY
        } else {
            0
        };
        let k2 = if lines.len() > LOG_CAPACITY {
            lines.len() - LOG_CAPACITY
        } else {
            0
        };
        if prev.skip(k).len() >= LOG_CAPACITY {
            assert(prev.skip(k).drop_first().push(lines.last()) =~= lines.skip(k2));
        } else {
            assert(prev.skip(k).push(lines.last()) =~= lines.skip(k2));
        }
    } else {
        assert(lines.skip(0) =~= lines);
    }
}

/// Toggling the theme twice gives back the theme, and each toggle saves
/// settings whose dark flag matches the theme it leaves in place.
pub proof fn lemma_theme_toggle(s: AppStateView, mode: ThemeMode)
    ensures
        ({
            let (s1, m1, e1) = next(s, mode, MessageView::ToggleTheme);
            let (s2, m2, e2) = next(s1, m1, MessageView::ToggleTheme);
            &&& m1 != mode
            &&& m2 == mode
            &&& s2 == s
            &&& e1 == seq![EffectView::SaveSettings(saved_settings(s, m1))]
            &&& saved_settings(s, m1).dark_theme == (m1 == ThemeMode::Dark)
        }),
{
}

/// Losing the connection clears what described it: the volume and the
/// statistics texts.
pub proof fn lemma_disconnect_clears(s: AppStateView, mode: ThemeMode)
    ensures
        ({
            let t = next(
                s,
                mode,
                MessageView::AudioEvent(AudioEventView::StateChanged(StreamState::Disconnected)),
            ).0;
            &&& t.stream_state == StreamState::Disconnected
            &&& t.volume_text.len() == 0
            &&& t.stats_bitrate.len() == 0
            &&& t.stats_format.len() == 0
            &&& t.stats_uptime.len() == 0
        }),
{
}

/// A server address that passes its check is never blank.
pub proof fn lemma_valid_server_not_blank(server: Seq<char>)
    requires
        crate::view::valid_server(server),
    ensures
        trim(server).len() > 0,
{
    if trim(server).len() == 0 {
        assert(trim(server) =~= Seq::<char>::empty());
        assert(crate::text::split_on(trim(server), '.') == seq![Seq::<char>::empty()]);
    }
}

/// When every field passes its check, connecting saves the settings and
/// starts a stream with exactly the numbers typed in, never a fallback.
pub proof fn lemma_connect_uses_fields(s: AppStateView, mode: ThemeMode)
    requires
        crate::view::valid_server(s.server),
        crate::view::valid_port(s.port),
        crate::view::valid_rate(s.rate),
        crate::view::valid_channels(s.channels),
    ensures
        next(s, mode, MessageView::Connect).2 == seq![
            EffectView::SaveSettings(saved_settings(s, mode)),
            EffectView::StartStream(stream_config_for(s)),
        ],
        Some(stream_config_for(s).port as nat) == parse_unsigned_max(s.port, u16::MAX as nat),
        Some(stream_config_for(s).rate as nat) == parse_unsigned_max(s.rate, u32::MAX as nat),
        Some(stream_config_for(s).channels as nat) == parse_unsigned_max(
            s.channels,
            u16::MAX as nat,
        ),
        1 <= stream_config_for(s).channels <= 8,
        1000 <= stream_config_for(s).rate <= 384000,
        stream_config_for(s).port != 0,
{
    lemma_valid_server_not_blank(s.server);
}

/// Connecting with a blank server field does nothing.
pub proof fn lemma_connect_needs_server(s: AppStateView, mode: ThemeMode)
    requires
        trim(s.server).len() == 0,
    ensures
        next(s, mode, MessageView::Connect) == (s, mode, Seq::<EffectView>::empty()),
{
}

/// A scan always ends the scanning state, and takes the server it found,
/// if any, keeping the typed server otherwise.
pub proof fn lemma_scan_result(s: AppStateView, mode: ThemeMode, found: Option<Seq<char>>)
    ensures
        !next(s, mode, MessageView::ScanResult(found)).0.scanning,
        next(s, mode, MessageView::ScanResult(found)).0.server == match found {
            Some(ip) => ip,
            None => s.server,
        },
        next(s, mode, MessageView::ScanResult(found)).2.len() == 0,
{
}

/// Minimizing to the tray is always on: closing the window only hides it,
/// whatever the stored setting says, and leaves the state, the theme and the
/// stream as they are; only leaving from the tray menu stops the stream and
/// closes the window.
pub proof fn lemma_close(s: AppStateView, mode: ThemeMode)
    ensures
        next(s, mode, MessageView::CloseRequested) == (s, mode, seq![EffectView::HideWindow]),
        next(s, mode, MessageView::ExitApp) == (
            s,
            mode,
            seq![EffectView::StopStream, EffectView::CloseWindow],
        ),
{
}

/// After a refresh the chosen device, if any, is one of the devices listed
/// (or the list is empty): a choice still present is kept as it was.
pub proof fn lemma_refresh_keeps_choice(
    s: AppStateView,
    devices: Seq<DeviceView>,
    processes: Seq<ProcessView>,
)
    requires
        s.selected_device is Some,
    ensures
        first_device_with_id(devices, s.selected_device->0.id) is Some ==> refreshed(
            s,
            devices,
            processes,
        ).selected_device == s.selected_device,
        first_device_with_id(devices, s.selected_device->0.id) is None && devices.len() > 0
            ==> refreshed(s, devices, processes).selected_device == Some(devices[0]),
{
}

/// Connecting with a server typed in saves the settings first, then starts a
/// stream that carries the state's own choices: the trimmed server, the
/// numbers typed in where they parse (4714, 48000 and 2 where they do not),
/// the chosen output device (none for the system default), the chosen
/// application (none for all of them), the capture mode and the option to
/// mute the local output.  The state and the theme stay as they are.
pub proof fn lemma_connect_passes_choices(s: AppStateView, mode: ThemeMode)
    requires
        trim(s.server).len() > 0,
    ensures
        next(s, mode, MessageView::Connect).0 == s,
        next(s, mode, MessageView::Connect).1 == mode,
        next(s, mode, MessageView::Connect).2.len() == 2,
        next(s, mode, MessageView::Connect).2[0] matches EffectView::SaveSettings(st) && st.server
            == s.server && st.mute_local_output == s.mute_local_output && st.auto_connect
            == s.auto_connect && st.start_with_windows == s.start_with_windows
            && st.minimize_to_tray == s.minimize_to_tray && st.dark_theme == (mode
            == ThemeMode::Dark),
        next(s, mode, MessageView::Connect).2[1] matches EffectView::StartStream(c) && c.server
            == trim(s.server) && c.mute_local_output == s.mute_local_output && c.capture_mode
            == s.capture_mode && (match parse_unsigned_max(s.port, u16::MAX as nat) {
            Some(p) => c.port == p,
            None => c.port == 4714,
        }) && (match parse_unsigned_max(s.rate, u32::MAX as nat) {
            Some(r) => c.rate == r,
            None => c.rate == 48000,
        }) && (match parse_unsigned_max(s.channels, u16::MAX as nat) {
            Some(n) => c.channels == n,
            None => c.channels == 2,
        }) && (match s.selected_device {
            Some(d) => if d.id.len() > 0 {
                c.device_id == Some(d.id)
            } else {
                c.device_id is None
            },
            None => c.device_id is None,
        }) && (s.selected_process is None ==> c.process_id is None),
{
}

/// Disconnecting stops the running stream and nothing else: whatever the
/// state and the theme, they stay as they are and the one effect is to stop.
pub proof fn lemma_disconnect_stops(s: AppStateView, mode: ThemeMode)
    ensures
        next(s, mode, MessageView::Disconnect).0 == s,
        next(s, mode, MessageView::Disconnect).1 == mode,
        next(s, mode, MessageView::Disconnect).2.len() == 1,
        next(s, mode, MessageView::Disconnect).2[0] == EffectView::StopStream,
{
}

/// Turning starting with Windows on or off first registers or unregisters
/// the program accordingly, then saves settings that record the new choice;
/// the state records it too, and nothing else changes.
pub proof fn lemma_start_with_windows_registers(s: AppStateView, mode: ThemeMode, v: bool)
    ensures
        next(s, mode, MessageView::ToggleStartWithWindows(v)).0.start_with_windows == v,
        next(s, mode, MessageView::ToggleStartWithWindows(v)).0 == (AppStateView {
            start_with_windows: v,
            ..s
        }),
        next(s, mode, MessageView::ToggleStartWithWindows(v)).1 == mode,
        next(s, mode, MessageView::ToggleStartWithWindows(v)).2.len() == 2,
        next(s, mode, MessageView::ToggleStartWithWindows(v)).2[0]
            == EffectView::SetStartWithWindows(v),
        next(s, mode, MessageView::ToggleStartWithWindows(v)).2[1] matches EffectView::SaveSettings(
            st,
        ) && st.start_with_windows == v && st.server == s.server && st.auto_connect
            == s.auto_connect && st.mute_local_output == s.mute_local_output,
{
}

/// A statistics report is shown as it came: the bitrate line and the capture
/// format as reported, the uptime as `hh:mm:ss`, and the quality warning
/// exactly when chunks were dropped.  The connection state, the log, the
/// volume and the fields typed in stay as they are, and nothing is done.
pub proof fn lemma_stats_shown(
    s: AppStateView,
    mode: ThemeMode,
    bytes_sent: u64,
    bitrate_text: Seq<char>,
    uptime_secs: u64,
    drops: u32,
    capture_format: Seq<char>,
)
    ensures
        ({
            let r = next(
                s,
                mode,
                MessageView::AudioEvent(
                    AudioEventView::StatsUpdated {
                        bytes_sent,
                        bitrate_text,
                        uptime_secs,
                        drops,
                        capture_format,
                    },
                ),
            );
            &&& r.0.stats_format == capture_format
            &&& r.0.stats_bitrate == bitrate_text
            &&& r.0.stats_uptime == two_digits(uptime_secs as nat / 3600) + ":"@ + two_digits(
                (uptime_secs as nat % 3600) / 60,
            ) + ":"@ + two_digits(uptime_secs as nat % 60)
            &&& r.0.show_quality_warning == (drops > 0)
            &&& r.0.stream_state == s.stream_state
            &&& r.0.log_messages == s.log_messages
            &&& r.0.volume_text == s.volume_text
            &&& r.0.server == s.server
            &&& r.0.port == s.port
            &&& r.1 == mode
            &&& r.2.len() == 0
        }),
{
}

} // verus!
