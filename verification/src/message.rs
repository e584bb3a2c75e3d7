//! The messages the user interface and the streaming thread send to the
//! application.
use vstd::prelude::*;
use crate::audio::{AudioEvent, AudioEventView, CaptureMode};

verus! {

/// Everything that can happen to the application.
#[derive(Debug, Clone)]
pub enum Message {
    Connect,
    Disconnect,
    ServerChanged(String),
    PortChanged(String),
    RateChanged(String),
    ChannelsChanged(String),
    DeviceSelected(String),
    ProcessSelected(String),
    CaptureModeChanged(CaptureMode),
    ToggleAutoConnect(bool),
    ToggleStartWithWindows(bool),
    ToggleMuteLocalOutput(bool),
    ToggleTheme,
    AudioEvent(AudioEvent),
    ScanServers,
    ScanResult(Option<String>),
    CloseRequested,
    TrayRestore,
    ExitApp,
    Tick,
    Noop,
}

/// The mathematical value of a [`Message`].
pub enum MessageView {
    Connect,
    Disconnect,
    ServerChanged(Seq<char>),
    PortChanged(Seq<char>),
    RateChanged(Seq<char>),
    ChannelsChanged(Seq<char>),
    DeviceSelected(Seq<char>),
    ProcessSelected(Seq<char>),
    CaptureModeChanged(CaptureMode),
    ToggleAutoConnect(bool),
    ToggleStartWithWindows(bool),
    ToggleMuteLocalOutput(bool),
    ToggleTheme,
    AudioEvent(AudioEventView),
    ScanServers,
    ScanResult(Option<Seq<char>>),
    CloseRequested,
    TrayRestore,
    ExitApp,
    Tick,
    Noop,
}

impl View for Message {
    type V = MessageView;

    open spec fn view(&self) -> MessageView {
        match self {
            Message::Connect => MessageView::Connect,
            Message::Disconnect => MessageView::Disconnect,
            Message::ServerChanged(s) => MessageView::ServerChanged(s@),
            Message::PortChanged(s) => MessageView::PortChanged(s@),
            Message::RateChanged(s) => MessageView::RateChanged(s@),
            Message::ChannelsChanged(s) => MessageView::ChannelsChanged(s@),
            Message::DeviceSelected(s) => MessageView::DeviceSelected(s@),
            Message::ProcessSelected(s) => MessageView::ProcessSelected(s@),
            Message::CaptureModeChanged(m) => MessageView::CaptureModeChanged(*m),
            Message::ToggleAutoConnect(b) => MessageView::ToggleAutoConnect(*b),
            Message::ToggleStartWithWindows(b) => MessageView::ToggleStartWithWindows(*b),
            Message::ToggleMuteLocalOutput(b) => MessageView::ToggleMuteLocalOutput(*b),
            Message::ToggleTheme => MessageView::ToggleTheme,
            Message::AudioEvent(e) => MessageView::AudioEvent(e@),
            Message::ScanServers => MessageView::ScanServers,
            Message::ScanResult(r) => MessageView::ScanResult(
                match r {
                    Some(s) => Some(s@),
                    None => None,
                },
            ),
            Message::CloseRequested => MessageView::CloseRequested,
            Message::TrayRestore => MessageView::TrayRestore,
            Message::ExitApp => MessageView::ExitApp,
            Message::Tick => MessageView::Tick,
            Message::Noop => MessageView::Noop,
        }
    }
}

} // verus!
