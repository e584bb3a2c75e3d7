use pulse_stream::app::{AppState, Effect, format_uptime, format_volume};
use pulse_stream::audio::{
    AudioEvent, CaptureMode, DeviceInfo, EndpointInfo, ProcessInfo, Stats, StreamConfig,
    StreamState, distinct_session_pids, find_cable_device, name_marks_cable,
    output_device_list, process_entries, upper_name_marks_cable,
};
use pulse_stream::capture::{
    CaptureCounters, CaptureSource, GainRule, SourceError, capture_source, chunk_bytes,
    encode_s16le, gain_rule, mix_format_is_float, must_mute_again, needs_default_switch,
    reported_mute, silence_len, stats_due, unmute_on_exit,
};
use pulse_stream::message::Message;
use pulse_stream::scan::{found_receiver, probe_addresses};
use pulse_stream::settings::{
    AppSettings, default_capture_mode, default_channels, default_port, default_rate,
    default_server, default_true,
};
use pulse_stream::startup::{launched_minimized, startup_registry_args};
use pulse_stream::stream_loop::{LoopCommand, LoopInput, LoopPhase, StreamLoop};
use pulse_stream::text::{decimal_string, parse_u16, parse_u32, parse_u8, chars_of};
use pulse_stream::theme::{
    BorderLook, CardStyle, CheckStyle, ColorRole, DangerButtonStyle, InputStyle, MenuStyle,
    PanelStyle, PickListStyle, PrimaryButtonStyle, SecondaryButtonStyle, ThemeMode, ToggleStyle,
};
use pulse_stream::view::{
    ActionButton, Section, ThemeIcon, action_button, device_options, field_errors,
    log_panel_start, process_choice_label, process_options, status_dot, status_label,
    theme_icon, visible_sections,
};
use std::collections::VecDeque;

fn state() -> AppState {
    AppState {
        server: "192.168.1.100".to_string(),
        port: "4714".to_string(),
        rate: "48000".to_string(),
        channels: "2".to_string(),
        stream_state: StreamState::Disconnected,
        auto_connect: false,
        start_with_windows: false,
        minimize_to_tray: true,
        mute_local_output: false,
        volume_text: String::new(),
        show_quality_warning: false,
        stats_bitrate: String::new(),
        stats_format: String::new(),
        stats_uptime: String::new(),
        devices: vec![
            DeviceInfo { id: String::new(), name: "Default".to_string() },
            DeviceInfo { id: "dev-1".to_string(), name: "Speakers".to_string() },
        ],
        selected_device: None,
        processes: vec![
            ProcessInfo { pid: 10, name: "firefox".to_string() },
            ProcessInfo { pid: 20, name: "spotify".to_string() },
        ],
        selected_process: None,
        log_messages: VecDeque::new(),
        scanning: false,
        capture_mode: CaptureMode::WasapiLoopback,
        vb_cable_available: false,
    }
}

fn start_config(effects: &[Effect]) -> Option<&StreamConfig> {
    effects.iter().find_map(|e| match e {
        Effect::StartStream(c) => Some(c),
        _ => None,
    })
}

fn saved(effects: &[Effect]) -> Option<&AppSettings> {
    effects.iter().find_map(|e| match e {
        Effect::SaveSettings(s) => Some(s),
        _ => None,
    })
}

// ==================== Text ====================

#[test]
fn parse_follows_std_for_unsigned() {
    for text in ["0", "80", "+80", "0080", "65535", "65536", "-1", "", "+", "8 0", " 80", "1e3"] {
        let ours = parse_u16(&chars_of(text));
        assert_eq!(ours, text.parse::<u16>().ok(), "u16 {:?}", text);
    }
    for text in ["255", "256", "007", "+0"] {
        assert_eq!(parse_u8(&chars_of(text)), text.parse::<u8>().ok(), "u8 {:?}", text);
    }
    for text in ["4294967295", "4294967296", "48000"] {
        assert_eq!(parse_u32(&chars_of(text)), text.parse::<u32>().ok(), "u32 {:?}", text);
    }
}

#[test]
fn decimal_matches_display() {
    for n in [0u64, 7, 10, 99, 4714, 48000, u64::MAX] {
        assert_eq!(decimal_string(n), n.to_string());
    }
}

#[test]
fn uptime_is_hours_minutes_seconds() {
    assert_eq!(format_uptime(3661), "01:01:01");
    assert_eq!(format_uptime(0), "00:00:00");
    assert_eq!(format_uptime(59), "00:00:59");
    assert_eq!(format_uptime(360000), "100:00:00");
}

#[test]
fn volume_label_formats() {
    assert_eq!(format_volume(75, false), "Vol: 75%");
    assert_eq!(format_volume(75, true), "Vol: Muted");
    assert_eq!(format_volume(0, false), "Vol: 0%");
}

// ==================== Settings ====================

#[test]
fn default_value_functions() {
    assert_eq!(default_server(), "");
    assert_eq!(default_port(), 4714);
    assert_eq!(default_rate(), 48000);
    assert_eq!(default_channels(), 2);
    assert!(default_true());
    assert_eq!(default_capture_mode(), "loopback");
}

#[test]
fn settings_file_name_is_settings_json() {
    assert!(AppSettings::settings_file_in(None).is_none());
    let inside = AppSettings::settings_file_in(Some(std::path::PathBuf::from("base")));
    assert_eq!(inside, Some(std::path::Path::new("base").join("settings.json")));
    if let Some(p) = AppSettings::settings_path() {
        assert_eq!(p.file_name().and_then(|f| f.to_str()), Some("settings.json"));
        let dir = AppSettings::settings_dir().unwrap();
        assert_eq!(p.parent(), Some(dir.as_path()));
    }
}

#[test]
fn settings_survive_load_and_save() {
    let settings = AppSettings {
        server: "10.0.0.5".to_string(),
        port: 5000,
        rate: 96000,
        channels: 6,
        device_id: Some("dev-1".to_string()),
        auto_connect: true,
        start_with_windows: false,
        minimize_to_tray: false,
        mute_local_output: true,
        dark_theme: false,
    };
    let devices = state().devices;
    let (s, mode) = AppState::from_settings(&settings, devices, Vec::new(), false);
    assert_eq!(mode, ThemeMode::Light);
    assert_eq!(s.port, "5000");
    assert_eq!(s.selected_device.as_ref().unwrap().name, "Speakers");
    let back = s.settings_for(mode);
    assert_eq!(back.server, settings.server);
    assert_eq!(back.port, 5000);
    assert_eq!(back.rate, 96000);
    assert_eq!(back.channels, 6);
    assert_eq!(back.device_id, settings.device_id);
    assert!(back.auto_connect && !back.start_with_windows && !back.minimize_to_tray);
    assert!(back.mute_local_output && !back.dark_theme);
}

#[test]
fn start_up_scans_without_server_and_connects_when_asked() {
    let mut settings = AppSettings::default();
    let (s, mode) = AppState::from_settings(&settings, state().devices, Vec::new(), true);
    assert_eq!(mode, ThemeMode::Dark);
    assert!(s.vb_cable_available);
    assert_eq!(s.selected_device.as_ref().unwrap().name, "Default");
    assert!(matches!(s.startup_messages().as_slice(), [Message::ScanServers]));
    settings.server = "10.0.0.2".to_string();
    let (s, _) = AppState::from_settings(&settings, Vec::new(), Vec::new(), false);
    assert!(s.startup_messages().is_empty());
    settings.auto_connect = true;
    let (s, _) = AppState::from_settings(&settings, Vec::new(), Vec::new(), false);
    assert!(matches!(s.startup_messages().as_slice(), [Message::Connect]));
}

// ==================== Update ====================

#[test]
fn connect_saves_then_starts_with_parsed_fields() {
    let mut s = state();
    let mut mode = ThemeMode::Dark;
    s.server = "  10.0.0.7 ".to_string();
    s.selected_device = Some(s.devices[1].clone());
    s.selected_process = Some("spotify".to_string());
    let effects = s.update(&mut mode, Message::Connect);
    assert_eq!(effects.len(), 2);
    assert!(matches!(effects[0], Effect::SaveSettings(_)));
    let cfg = start_config(&effects).unwrap();
    assert_eq!(cfg.server, "10.0.0.7");
    assert_eq!(cfg.port, 4714);
    assert_eq!(cfg.rate, 48000);
    assert_eq!(cfg.channels, 2);
    assert_eq!(cfg.device_id.as_deref(), Some("dev-1"));
    assert_eq!(cfg.process_id, Some(20));
    assert_eq!(saved(&effects).unwrap().server, "  10.0.0.7 ");
}

#[test]
fn connect_falls_back_on_unparsable_fields() {
    let mut s = state();
    let mut mode = ThemeMode::Dark;
    s.port = "abc".to_string();
    s.rate = "fast".to_string();
    s.channels = "".to_string();
    let effects = s.update(&mut mode, Message::Connect);
    let cfg = start_config(&effects).unwrap();
    assert_eq!((cfg.port, cfg.rate, cfg.channels), (4714, 48000, 2));
    assert_eq!(cfg.device_id, None);
    assert_eq!(cfg.process_id, None);
}

#[test]
fn connect_with_blank_server_does_nothing() {
    let mut s = state();
    let mut mode = ThemeMode::Dark;
    s.server = " \t ".to_string();
    assert!(s.update(&mut mode, Message::Connect).is_empty());
}

#[test]
fn theme_toggles_back_and_saves() {
    let mut s = state();
    let mut mode = ThemeMode::Dark;
    let e1 = s.update(&mut mode, Message::ToggleTheme);
    assert_eq!(mode, ThemeMode::Light);
    assert!(!saved(&e1).unwrap().dark_theme);
    let e2 = s.update(&mut mode, Message::ToggleTheme);
    assert_eq!(mode, ThemeMode::Dark);
    assert!(saved(&e2).unwrap().dark_theme);
}

#[test]
fn log_keeps_the_newest_two_hundred() {
    let mut s = state();
    let mut mode = ThemeMode::Dark;
    for i in 0..210 {
        s.update(&mut mode, Message::AudioEvent(AudioEvent::Log(format!("msg {}", i))));
        assert!(s.log_messages.len() <= 200);
    }
    assert_eq!(s.log_messages.len(), 200);
    assert_eq!(s.log_messages[0], "msg 10");
    assert_eq!(s.log_messages[199], "msg 209");
}

#[test]
fn disconnected_event_clears_stats() {
    let mut s = state();
    let mut mode = ThemeMode::Dark;
    s.update(&mut mode, Message::AudioEvent(AudioEvent::StateChanged(StreamState::Streaming)));
    s.update(
        &mut mode,
        Message::AudioEvent(AudioEvent::StatsUpdated(Stats {
            bytes_sent: 10,
            bitrate_text: "768 kbps  12.3ms".to_string(),
            uptime_secs: 3661,
            drops: 2,
            capture_format: "48.0kHz 2ch 32bit".to_string(),
        })),
    );
    s.update(&mut mode, Message::AudioEvent(AudioEvent::VolumeChanged { percent: 50, muted: false }));
    assert_eq!(s.stats_uptime, "01:01:01");
    assert_eq!(s.stats_bitrate, "768 kbps  12.3ms");
    assert!(s.show_quality_warning);
    assert_eq!(s.volume_text, "Vol: 50%");
    s.update(&mut mode, Message::AudioEvent(AudioEvent::StateChanged(StreamState::Disconnected)));
    assert!(matches!(s.stream_state, StreamState::Disconnected));
    assert!(s.volume_text.is_empty() && s.stats_bitrate.is_empty());
    assert!(s.stats_format.is_empty() && s.stats_uptime.is_empty());
}

#[test]
fn process_choice_restarts_a_running_stream() {
    let mut s = state();
    let mut mode = ThemeMode::Dark;
    s.stream_state = StreamState::Streaming;
    s.log_messages.push_back("old".to_string());
    let effects = s.update(&mut mode, Message::ProcessSelected("firefox".to_string()));
    assert!(matches!(effects[0], Effect::StopStream));
    assert_eq!(start_config(&effects).unwrap().process_id, Some(10));
    assert!(s.log_messages.is_empty());
    let effects = s.update(&mut mode, Message::ProcessSelected("All apps (system audio)".to_string()));
    assert!(s.selected_process.is_none());
    assert_eq!(start_config(&effects).unwrap().process_id, None);
    s.stream_state = StreamState::Disconnected;
    assert!(s.update(&mut mode, Message::ProcessSelected("spotify".to_string())).is_empty());
    assert_eq!(s.selected_process.as_deref(), Some("spotify"));
}

#[test]
fn window_and_scan_messages() {
    let mut s = state();
    let mut mode = ThemeMode::Dark;
    assert!(matches!(s.update(&mut mode, Message::CloseRequested).as_slice(), [Effect::HideWindow]));
    s.minimize_to_tray = false;
    assert!(matches!(s.update(&mut mode, Message::CloseRequested).as_slice(), [Effect::HideWindow]));
    assert!(matches!(s.update(&mut mode, Message::TrayRestore).as_slice(), [Effect::ShowWindow]));
    assert!(matches!(
        s.update(&mut mode, Message::ExitApp).as_slice(),
        [Effect::StopStream, Effect::CloseWindow]
    ));
    assert!(matches!(s.update(&mut mode, Message::Tick).as_slice(), [Effect::RefreshAudioLists]));
    s.port = "5001".to_string();
    assert!(matches!(s.update(&mut mode, Message::ScanServers).as_slice(), [Effect::ScanSubnet(5001)]));
    assert!(s.scanning);
    s.update(&mut mode, Message::ScanResult(Some("192.168.1.9".to_string())));
    assert!(!s.scanning);
    assert_eq!(s.server, "192.168.1.9");
}

#[test]
fn toggles_save_settings_and_register_startup() {
    let mut s = state();
    let mut mode = ThemeMode::Dark;
    let e = s.update(&mut mode, Message::ToggleStartWithWindows(true));
    assert!(matches!(e[0], Effect::SetStartWithWindows(true)));
    assert!(saved(&e).unwrap().start_with_windows);
    let e = s.update(&mut mode, Message::ToggleMuteLocalOutput(true));
    assert!(saved(&e).unwrap().mute_local_output);
    let e = s.update(&mut mode, Message::ToggleAutoConnect(true));
    assert!(saved(&e).unwrap().auto_connect);
    assert!(s.update(&mut mode, Message::CaptureModeChanged(CaptureMode::VbCable)).is_empty());
    assert_eq!(s.capture_mode, CaptureMode::VbCable);
    s.update(&mut mode, Message::DeviceSelected("Speakers".to_string()));
    assert_eq!(s.selected_device.as_ref().unwrap().id, "dev-1");
    s.update(&mut mode, Message::DeviceSelected("Gone".to_string()));
    assert!(s.selected_device.is_none());
}

#[test]
fn refresh_keeps_or_resets_the_device() {
    let mut s = state();
    s.selected_device = Some(s.devices[1].clone());
    s.apply_refresh(state().devices, vec![ProcessInfo { pid: 3, name: "vlc".to_string() }]);
    assert_eq!(s.selected_device.as_ref().unwrap().id, "dev-1");
    assert_eq!(s.processes.len(), 1);
    s.apply_refresh(vec![DeviceInfo { id: String::new(), name: "Default".to_string() }], Vec::new());
    assert_eq!(s.selected_device.as_ref().unwrap().name, "Default");
}

#[test]
fn window_title_follows_state() {
    let mut s = state();
    assert_eq!(s.title(), "PulseStream");
    s.stream_state = StreamState::Streaming;
    assert_eq!(s.title(), "PulseStream - Streaming");
    s.stream_state = StreamState::Connecting;
    assert_eq!(s.title(), "PulseStream - Connecting");
}

// ==================== Devices and processes ====================

#[test]
fn device_list_starts_with_default_and_numbers_unnamed() {
    let list = output_device_list(&Vec::new());
    assert_eq!(list.len(), 1);
    assert_eq!(list[0].name, "Default");
    assert!(list[0].id.is_empty());
    let list = output_device_list(&vec![
        Some(EndpointInfo { id: "a".to_string(), name: Some("Speakers".to_string()) }),
        None,
        Some(EndpointInfo { id: "c".to_string(), name: None }),
    ]);
    assert_eq!(list.len(), 3);
    assert_eq!(list[1].name, "Speakers");
    assert_eq!(list[2].name, "Audio Device 3");
    assert_eq!(list[2].id, "c");
}

#[test]
fn cable_device_is_found_by_upper_case_name() {
    assert!(name_marks_cable("CABLE Output (VB-Audio Virtual Cable)"));
    assert!(name_marks_cable("vb-audio virtual cable"));
    assert!(!name_marks_cable("Speakers"));
    assert!(upper_name_marks_cable("MY CABLE"));
    assert!(!upper_name_marks_cable("cable"));
    let found = find_cable_device(&vec![
        None,
        Some(EndpointInfo { id: "mic".to_string(), name: Some("Microphone".to_string()) }),
        Some(EndpointInfo { id: "vb".to_string(), name: Some("Cable Output".to_string()) }),
    ])
    .unwrap();
    assert_eq!(found.id, "vb");
    assert_eq!(found.name, "Cable Output");
    let unreadable = find_cable_device(&vec![
        Some(EndpointInfo { id: "x".to_string(), name: None }),
        Some(EndpointInfo { id: "vb".to_string(), name: Some("Cable Output".to_string()) }),
    ]);
    assert!(unreadable.is_none());
}

#[test]
fn session_pids_are_distinct_and_nonzero() {
    let pids = distinct_session_pids(&vec![Some(0), Some(5), None, Some(7), Some(5), Some(9), Some(7)]);
    assert_eq!(pids, vec![5, 7, 9]);
    let entries = process_entries(&pids, &vec![Some("a".to_string()), None, Some("c".to_string())]);
    assert_eq!(entries[1].name, "PID 7");
    assert_eq!(entries[2].pid, 9);
}

// ==================== Stream loop ====================

#[test]
fn stream_loop_reports_failure_and_retries() {
    let mut l = StreamLoop::new("127.0.0.1".to_string(), 1);
    let (events, cmd) = l.step(LoopInput::Running(true));
    assert_eq!(cmd, LoopCommand::RunStream);
    assert!(matches!(events[0], AudioEvent::StateChanged(StreamState::Connecting)));
    assert!(matches!(&events[1], AudioEvent::Log(m) if m == "Connecting to 127.0.0.1:1..."));
    let (events, cmd) = l.step(LoopInput::StreamEnded {
        error: Some("connection refused".to_string()),
        running: true,
    });
    assert_eq!(cmd, LoopCommand::Check);
    assert!(matches!(&events[0], AudioEvent::Log(m) if m == "Error: connection refused"));
    assert!(matches!(events[1], AudioEvent::StateChanged(StreamState::Disconnected)));
    assert!(matches!(&events[2], AudioEvent::Log(m) if m == "Reconnecting in 3s..."));
    for _ in 0..30 {
        let (events, cmd) = l.step(LoopInput::Running(true));
        assert!(events.is_empty());
        assert_eq!(cmd, LoopCommand::Pause);
    }
    assert_eq!(l.phase, LoopPhase::Ready);
    let (_, cmd) = l.step(LoopInput::Running(true));
    assert_eq!(cmd, LoopCommand::RunStream);
}

#[test]
fn stream_loop_stops() {
    let mut l = StreamLoop::new("h".to_string(), 2);
    let (events, cmd) = l.step(LoopInput::Running(false));
    assert_eq!(cmd, LoopCommand::Exit);
    assert!(matches!(events.as_slice(), [AudioEvent::StateChanged(StreamState::Disconnected)]));
    let (events, cmd) = l.step(LoopInput::Running(true));
    assert!(events.is_empty());
    assert_eq!(cmd, LoopCommand::Exit);
    let mut l = StreamLoop::new("h".to_string(), 2);
    l.step(LoopInput::Running(true));
    l.step(LoopInput::StreamEnded { error: Some("x".to_string()), running: true });
    let (events, cmd) = l.step(LoopInput::Running(false));
    assert!(events.is_empty());
    assert_eq!(cmd, LoopCommand::Exit);
    assert_eq!(l.phase, LoopPhase::Finished);
}

#[test]
fn clean_end_of_an_attempt_is_reported_before_the_next() {
    let mut l = StreamLoop::new("h".to_string(), 2);
    let mut marks: Vec<StreamState> = Vec::new();
    let inputs = vec![
        LoopInput::Running(true),
        LoopInput::StreamEnded { error: None, running: true },
        LoopInput::Running(true),
        LoopInput::StreamEnded { error: None, running: false },
        LoopInput::Running(false),
    ];
    let mut last_cmd = LoopCommand::Check;
    for input in inputs {
        let (events, cmd) = l.step(input);
        for e in events {
            if let AudioEvent::StateChanged(s) = e {
                if matches!(s, StreamState::Connecting | StreamState::Disconnected) {
                    marks.push(s);
                }
            }
        }
        last_cmd = cmd;
    }
    assert_eq!(last_cmd, LoopCommand::Exit);
    let names: Vec<String> = marks.iter().map(|s| format!("{:?}", s)).collect();
    assert_eq!(
        names,
        vec!["Connecting", "Disconnected", "Connecting", "Disconnected", "Disconnected"]
    );
}

// ==================== Capture ====================

#[test]
fn capture_source_follows_config() {
    let mut cfg = StreamConfig {
        server: "s".to_string(),
        port: 1,
        rate: 48000,
        channels: 2,
        device_id: None,
        process_id: Some(42),
        mute_local_output: false,
        capture_mode: CaptureMode::WasapiLoopback,
    };
    assert!(matches!(capture_source(&cfg), Ok(CaptureSource::ProcessLoopback(42))));
    cfg.process_id = None;
    assert!(matches!(capture_source(&cfg), Ok(CaptureSource::SystemLoopback)));
    cfg.capture_mode = CaptureMode::VbCable;
    assert!(matches!(capture_source(&cfg), Err(SourceError::CableDeviceMissing)));
    cfg.device_id = Some("vb".to_string());
    assert!(matches!(capture_source(&cfg), Ok(CaptureSource::CableDevice(id)) if id == "vb"));
}

#[test]
fn formats_lengths_and_pcm_bytes() {
    assert!(mix_format_is_float(3, 16));
    assert!(mix_format_is_float(0xFFFE, 32));
    assert!(!mix_format_is_float(0xFFFE, 16));
    assert!(!mix_format_is_float(1, 32));
    assert_eq!(silence_len(48000, 2), 1920);
    assert_eq!(silence_len(44100, 1), 882);
    assert_eq!(chunk_bytes(480, 2), 1920);
    let samples: Vec<i16> = vec![0, 1, -1, 0x1234, i16::MIN, i16::MAX];
    let bytes = encode_s16le(&samples);
    let expected: Vec<u8> = samples.iter().flat_map(|s| s.to_le_bytes()).collect();
    assert_eq!(bytes, expected);
}

#[test]
fn counters_and_stats_timing() {
    let mut c = CaptureCounters::new();
    c.record_sent(1000);
    c.record_sent(24);
    c.record_dropped();
    assert_eq!(c.total_bytes, 1024);
    assert_eq!(c.drops, 1);
    assert_eq!(c.unreported_bytes(), 1024);
    c.mark_reported();
    c.record_sent(6);
    assert_eq!(c.unreported_bytes(), 6);
    assert!(stats_due(500));
    assert!(!stats_due(499));
}

#[test]
fn mute_rules() {
    assert!(reported_mute(true, false));
    assert!(!reported_mute(false, false));
    assert!(must_mute_again(true, false));
    assert!(!must_mute_again(true, true));
    assert!(unmute_on_exit(false, true, false));
    assert!(!unmute_on_exit(true, true, false));
    assert_eq!(gain_rule(false, true, true), GainRule::SystemVolumeAtLeastOnePercent);
    assert_eq!(gain_rule(true, true, true), GainRule::Silent);
    assert_eq!(gain_rule(false, false, false), GainRule::SystemVolume);
    assert!(needs_default_switch(&Some("a".to_string()), &"b".to_string()));
    assert!(!needs_default_switch(&Some("b".to_string()), &"b".to_string()));
    assert!(needs_default_switch(&None, &"b".to_string()));
}

// ==================== Scan and start-up ====================

#[test]
fn probe_addresses_skip_own_host() {
    let a = probe_addresses(Some([10, 0, 0, 5]));
    assert_eq!(a.len(), 253);
    assert_eq!(a[0], "10.0.0.1");
    assert_eq!(a[3], "10.0.0.4");
    assert_eq!(a[4], "10.0.0.6");
    assert_eq!(a[252], "10.0.0.254");
    let b = probe_addresses(None);
    assert_eq!(b.len(), 253);
    assert_eq!(b[0], "192.168.1.2");
    let c = probe_addresses(Some([10, 1, 2, 0]));
    assert_eq!(c.len(), 254);
    assert_eq!(c[0], "10.1.2.1");
}

#[test]
fn first_answer_wins() {
    assert_eq!(found_receiver(&vec![None, Some("a".to_string()), Some("b".to_string())]), Some("a".to_string()));
    assert_eq!(found_receiver(&vec![None, None]), None);
}

#[test]
fn registry_command_lines() {
    let add = startup_registry_args(true, "C:\\apps\\pulse-stream.exe");
    assert_eq!(
        add,
        vec![
            "add",
            "HKCU\\SOFTWARE\\Microsoft\\Windows\\CurrentVersion\\Run",
            "/v",
            "PulseStream",
            "/t",
            "REG_SZ",
            "/d",
            "\"C:\\apps\\pulse-stream.exe\" --minimized",
            "/f"
        ]
    );
    let del = startup_registry_args(false, "ignored");
    assert_eq!(
        del,
        vec!["delete", "HKCU\\SOFTWARE\\Microsoft\\Windows\\CurrentVersion\\Run", "/v", "PulseStream", "/f"]
    );
}

#[test]
fn only_a_logon_launch_starts_hidden() {
    assert!(launched_minimized(&vec!["--minimized".to_string()]));
    assert!(launched_minimized(&vec!["x".to_string(), "--minimized".to_string()]));
    assert!(!launched_minimized(&vec![]));
    assert!(!launched_minimized(&vec!["--minimize".to_string()]));
}

// ==================== Theme ====================

#[test]
fn button_states_share_their_resting_look() {
    let p = PrimaryButtonStyle { mode: ThemeMode::Dark };
    assert_eq!(p.active().background, ColorRole::Accent);
    assert_eq!(p.hovered().background, ColorRole::AccentHover);
    assert_eq!(p.pressed().border, p.active().border);
    assert_eq!(p.disabled().text, ColorRole::TextDisabled);
    let s = SecondaryButtonStyle { mode: ThemeMode::Light };
    assert_eq!(s.hovered().border.color, ColorRole::Accent);
    assert_eq!(s.pressed().background, ColorRole::SurfaceActive);
    let d = DangerButtonStyle { mode: ThemeMode::Dark };
    assert_eq!(d.hovered().border.color, ColorRole::DangerHover);
    assert_eq!(d.disabled(), s.disabled());
    assert_eq!(d.active().text, ColorRole::White);
}

#[test]
fn inputs_checks_and_lists() {
    let ok = InputStyle { mode: ThemeMode::Dark, error: false };
    let bad = InputStyle { mode: ThemeMode::Dark, error: true };
    assert_eq!(ok.active().border, BorderLook { color: ColorRole::Border, width_tenths: 10, radius: 8 });
    assert_eq!(bad.active().border.width_tenths, 15);
    assert_eq!(bad.focused().icon, ColorRole::Red);
    assert_eq!(ok.focused().border.color, ColorRole::BorderFocus);
    assert_eq!(ok.disabled().background, ColorRole::BgTertiary);
    assert_eq!(ok.selection_color(), ColorRole::AccentSelection);
    let c = CheckStyle { mode: ThemeMode::Dark };
    assert_eq!(c.active(false).icon, ColorRole::Transparent);
    assert_eq!(c.hovered(true).background, ColorRole::AccentHover);
    let t = ToggleStyle { mode: ThemeMode::Dark };
    assert_eq!(t.active(false).icon, ColorRole::White);
    assert_eq!(t.active(true).border.radius, 12);
    let l = PickListStyle { mode: ThemeMode::Light };
    assert_eq!(l.hovered().handle, ColorRole::Accent);
    assert_eq!(l.active().border.width_tenths, 10);
    assert_eq!(MenuStyle { mode: ThemeMode::Dark }.appearance().selected_background, ColorRole::MenuHighlight);
    assert!(CardStyle { mode: ThemeMode::Dark }.appearance().shadow.is_some());
    assert!(PanelStyle { mode: ThemeMode::Dark }.appearance().shadow.is_none());
}

// ==================== View ====================

#[test]
fn sections_pickers_and_labels() {
    let mut s = state();
    assert_eq!(
        visible_sections(&s),
        vec![Section::Status, Section::Connection, Section::Audio, Section::Options, Section::Action]
    );
    s.stream_state = StreamState::Streaming;
    s.log_messages.push_back("x".to_string());
    s.stats_bitrate = "1 kbps".to_string();
    assert_eq!(visible_sections(&s).last(), Some(&Section::StatsBar));
    assert!(visible_sections(&s).contains(&Section::Log));
    assert_eq!(status_label(StreamState::Connecting), "Connecting...");
    assert_eq!(status_dot(StreamState::Connected), ColorRole::Green);
    assert_eq!(status_dot(StreamState::Disconnected), ColorRole::TextDisabled);
    assert_eq!(action_button(StreamState::Connecting), ActionButton::Disconnect);
    assert_eq!(action_button(StreamState::Disconnected), ActionButton::Connect);
    assert_eq!(theme_icon(ThemeMode::Light), ThemeIcon::Sun);
    assert_eq!(log_panel_start(45), 15);
    assert_eq!(log_panel_start(3), 0);
    assert_eq!(device_options(&s.devices), vec!["Default", "Speakers"]);
    assert_eq!(process_options(&s), vec!["All apps (system audio)", "firefox", "spotify"]);
    assert_eq!(process_choice_label(&s), "All apps (system audio)");
    s.port = "0".to_string();
    let e = field_errors(&s);
    assert!(e.port && !e.server && !e.rate && !e.channels);
}
