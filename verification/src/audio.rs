//! The audio side of the application: stream states and events, devices and
//! processes, and the rules that turn what the Windows audio stack reports
//! into the lists the user picks from.
use vstd::prelude::*;
use std::collections::HashSet;
use crate::text::{chars_of, contains_chars, contains_text, decimal, push_decimal};

verus! {

/// Where the connection to the receiver stands.
#[derive(Debug, Clone, Copy, PartialEq, Eq, Structural)]
pub enum StreamState {
    Disconnected,
    Connecting,
    Connected,
    Streaming,
}

/// An audio output device: its endpoint id (empty for the system default)
/// and its friendly name.
#[derive(Debug, Clone)]
pub struct DeviceInfo {
    pub id: String,
    pub name: String,
}

/// The mathematical value of a [`DeviceInfo`].
pub struct DeviceView {
    pub id: Seq<char>,
    pub name: Seq<char>,
}

impl View for DeviceInfo {
    type V = DeviceView;

    open spec fn view(&self) -> DeviceView {
        DeviceView { id: self.id@, name: self.name@ }
    }
}

impl DeviceInfo {
    /// A copy of this device.
    pub fn duplicate(&self) -> (r: DeviceInfo)
        ensures
            r@ == self@,
    {
        DeviceInfo { id: self.id.clone(), name: self.name.clone() }
    }
}

/// A process that plays audio: its id and display name.
#[derive(Debug, Clone)]
pub struct ProcessInfo {
    pub pid: u32,
    pub name: String,
}

/// The mathematical value of a [`ProcessInfo`].
pub struct ProcessView {
    pub pid: u32,
    pub name: Seq<char>,
}

impl View for ProcessInfo {
    type V = ProcessView;

    open spec fn view(&self) -> ProcessView {
        ProcessView { pid: self.pid, name: self.name@ }
    }
}

impl ProcessInfo {
    /// A copy of this process entry.
    pub fn duplicate(&self) -> (r: ProcessInfo)
        ensures
            r@ == self@,
    {
        ProcessInfo { pid: self.pid, name: self.name.clone() }
    }
}

/// How audio is captured: loopback of an output, or the VB-CABLE virtual device.
#[derive(Debug, Clone, Copy, PartialEq, Eq, Structural)]
pub enum CaptureMode {
    WasapiLoopback,
    VbCable,
}

/// Everything the streaming thread needs to know to connect and capture.
pub struct StreamConfig {
    pub server: String,
    pub port: u16,
    pub rate: u32,
    pub channels: u16,
    pub device_id: Option<String>,
    pub process_id: Option<u32>,
    pub mute_local_output: bool,
    pub capture_mode: CaptureMode,
}

/// The view of an optional string.
pub open spec fn opt_text(s: Option<String>) -> Option<Seq<char>> {
    match s {
        Some(t) => Some(t@),
        None => None,
    }
}

/// The mathematical value of a [`StreamConfig`].
pub struct StreamConfigView {
    pub server: Seq<char>,
    pub port: u16,
    pub rate: u32,
    pub channels: u16,
    pub device_id: Option<Seq<char>>,
    pub process_id: Option<u32>,
    pub mute_local_output: bool,
    pub capture_mode: CaptureMode,
}

impl View for StreamConfig {
    type V = StreamConfigView;

    open spec fn view(&self) -> StreamConfigView {
        StreamConfigView {
            server: self.server@,
            port: self.port,
            rate: self.rate,
            channels: self.channels,
            device_id: opt_text(self.device_id),
            process_id: self.process_id,
            mute_local_output: self.mute_local_output,
            capture_mode: self.capture_mode,
        }
    }
}

/// A periodic statistics report of a running stream.  The bitrate and
/// latency come already rendered as text (`"768 kbps  12.3ms"`), since they
/// are measured in floating point.
#[derive(Debug, Clone)]
pub struct Stats {
    pub bytes_sent: u64,
    pub bitrate_text: String,
    pub uptime_secs: u64,
    pub drops: u32,
    pub capture_format: String,
}

/// What the streaming thread reports to the user interface.
#[derive(Debug, Clone)]
pub enum AudioEvent {
    StateChanged(StreamState),
    Log(String),
    StatsUpdated(Stats),
    /// The system volume, in whole percent, and whether output is muted.
    VolumeChanged { percent: u32, muted: bool },
}

/// The mathematical value of an [`AudioEvent`].
pub enum AudioEventView {
    StateChanged(StreamState),
    Log(Seq<char>),
    StatsUpdated {
        bytes_sent: u64,
        bitrate_text: Seq<char>,
        uptime_secs: u64,
        drops: u32,
        capture_format: Seq<char>,
    },
    VolumeChanged { percent: u32, muted: bool },
}

impl View for AudioEvent {
    type V = AudioEventView;

    open spec fn view(&self) -> AudioEventView {
        match self {
            AudioEvent::StateChanged(s) => AudioEventView::StateChanged(*s),
            AudioEvent::Log(m) => AudioEventView::Log(m@),
            AudioEvent::StatsUpdated(st) => AudioEventView::StatsUpdated {
                bytes_sent: st.bytes_sent,
                bitrate_text: st.bitrate_text@,
                uptime_secs: st.uptime_secs,
                drops: st.drops,
                capture_format: st.capture_format@,
            },
            AudioEvent::VolumeChanged { percent, muted } => AudioEventView::VolumeChanged {
                percent: *percent,
                muted: *muted,
            },
        }
    }
}

// ---------------------------------------------------------------------------
// Output devices
// ---------------------------------------------------------------------------

/// One entry of an endpoint collection, as the audio stack reported it: its
/// id (empty where the id could not be read) and its friendly name, where
/// that could be read.
pub struct EndpointInfo {
    pub id: String,
    pub name: Option<String>,
}

/// The mathematical value of an [`EndpointInfo`].
pub struct EndpointView {
    pub id: Seq<char>,
    pub name: Option<Seq<char>>,
}

impl View for EndpointInfo {
    type V = EndpointView;

    open spec fn view(&self) -> EndpointView {
        EndpointView { id: self.id@, name: opt_text(self.name) }
    }
}

/// The view of a slot of an endpoint collection; `None` where the entry
/// itself could not be fetched.
pub open spec fn slot_view(e: Option<EndpointInfo>) -> Option<EndpointView> {
    match e {
        Some(x) => Some(x@),
        None => None,
    }
}

/// The views of all slots of an endpoint collection.
pub open spec fn slots_view(v: Seq<Option<EndpointInfo>>) -> Seq<Option<EndpointView>> {
    v.map_values(|e: Option<EndpointInfo>| slot_view(e))
}

/// The views of a list of devices.
pub open spec fn devices_view(v: Seq<DeviceInfo>) -> Seq<DeviceView> {
    v.map_values(|d: DeviceInfo| d@)
}

/// The entry that stands for the system default output.
pub open spec fn default_device() -> DeviceView {
    DeviceView { id: Seq::empty(), name: "Default"@ }
}

/// The name given to the device in slot `slot` (counting from one) when its
/// friendly name cannot be read.
pub open spec fn numbered_device_name(slot: nat) -> Seq<char> {
    "Audio Device "@ + decimal(slot)
}

/// The devices listed for the collection slots `slots`: each slot that could
/// be fetched, in order, named by its friendly name or by its number.
pub open spec fn listed_devices(slots: Seq<Option<EndpointView>>) -> Seq<DeviceView>
    decreases slots.len(),
{
    if slots.len() == 0 {
        Seq::empty()
    } else {
        let before = listed_devices(slots.drop_last());
        match slots.last() {
            None => before,
            Some(e) => before.push(
                DeviceView {
                    id: e.id,
                    name: match e.name {
                        Some(n) => n,
                        None => numbered_device_name(slots.len()),
                    },
                },
            ),
        }
    }
}

/// How many of `slots` could be fetched.
pub open spec fn fetched_count(slots: Seq<Option<EndpointView>>) -> nat
    decreases slots.len(),
{
    if slots.len() == 0 {
        0
    } else {
        fetched_count(slots.drop_last()) + if slots.last() is Some {
            1nat
        } else {
            0nat
        }
    }
}

/// Every endpoint that could be fetched is listed, once and in order, with
/// its own endpoint id: the endpoint in slot `k` is the entry that follows
/// those fetched before it, and it keeps its id whether or not its friendly
/// name could be read.  Its name is the friendly name, or `Audio Device`
/// and its position counted from 1.  Nothing else is listed.
pub proof fn lemma_listed_devices_keep_ids(slots: Seq<Option<EndpointView>>)
    ensures
        listed_devices(slots).len() == fetched_count(slots),
        forall|k: int|
            0 <= k < slots.len() && #[trigger] slots[k] is Some ==> {
                let e = slots[k]->0;
                let d = listed_devices(slots)[fetched_count(slots.take(k)) as int];
                &&& fetched_count(slots.take(k)) < listed_devices(slots).len()
                &&& d.id == e.id
                &&& d.name == match e.name {
                    Some(n) => n,
                    None => "Audio Device "@ + decimal((k + 1) as nat),
                }
            },
    decreases slots.len(),
{
    if slots.len() > 0 {
        let prev = slots.drop_last();
        lemma_listed_devices_keep_ids(prev);
        assert(slots.take(slots.len() - 1) =~= prev);
        assert forall|k: int| 0 <= k < slots.len() && #[trigger] slots[k] is Some implies {
            let e = slots[k]->0;
            let d = listed_devices(slots)[fetched_count(slots.take(k)) as int];
            &&& fetched_count(slots.take(k)) < listed_devices(slots).len()
            &&& d.id == e.id
            &&& d.name == match e.name {
                Some(n) => n,
                None => "Audio Device "@ + decimal((k + 1) as nat),
            }
        } by {
            if k < slots.len() - 1 {
                assert(prev.take(k) =~= slots.take(k));
                assert(prev[k] == slots[k]);
            }
        }
    }
}

/// The output devices offered to the user: the system default first, then
/// every endpoint of the collection that could be fetched.
pub fn output_device_list(slots: &Vec<Option<EndpointInfo>>) -> (r: Vec<DeviceInfo>)
    requires
        slots.len() < u64::MAX,
    ensures
        devices_view(r@) == seq![default_device()] + listed_devices(slots_view(slots@)),
{
    let mut out: Vec<DeviceInfo> = Vec::new();
    out.push(DeviceInfo { id: String::new(), name: String::from_str("Default") });
    let mut i: usize = 0;
    assert(slots_view(slots@).take(0) =~= Seq::<Option<EndpointView>>::empty());
    assert(devices_view(out@) =~= seq![default_device()] + listed_devices(
        slots_view(slots@).take(0),
    ));
    while i < slots.len()
        invariant
            i <= slots.len(),
            slots.len() < u64::MAX,
            devices_view(out@) == seq![default_device()] + listed_devices(
                slots_view(slots@).take(i as int),
            ),
        decreases slots.len() - i,
    {
        let ghost before = devices_view(out@);
        let ghost sv = slots_view(slots@);
        assert(sv.take(i + 1).drop_last() =~= sv.take(i as int));
        assert(sv.take(i + 1).last() == slot_view(slots@[i as int]));
        match &slots[i] {
            None => {},
            Some(e) => {
                let name = match &e.name {
                    Some(n) => n.clone(),
                    None => {
                        let mut s = String::from_str("Audio Device ");
                        push_decimal(&mut s, (i + 1) as u64);
                        s
                    },
                };
                out.push(DeviceInfo { id: e.id.clone(), name });
                assert(devices_view(out@) =~= before.push(devices_view(out@).last()));
            },
        }
        i += 1;
    }
    assert(slots_view(slots@).take(i as int) =~= slots_view(slots@));
    out
}

// ---------------------------------------------------------------------------
// The VB-CABLE device
// ---------------------------------------------------------------------------

/// What `str::to_uppercase` returns for `s`: the Unicode upper-case mapping,
/// applied character by character.
pub uninterp spec fn upper_case(s: Seq<char>) -> Seq<char>;

/// Calls `str::to_uppercase`; its result is named `upper_case` of the input.
#[verifier::external_body]
fn to_upper_case(s: &str) -> (r: String)
    ensures
        r@ == upper_case(s@),
{
    s.to_uppercase()
}

/// A device name marks the VB-CABLE device when, in upper case, it contains
/// `"CABLE"`.
pub open spec fn is_cable_name(name: Seq<char>) -> bool {
    contains_text(upper_case(name), "CABLE"@)
}

/// Whether an already upper-cased device name contains `"CABLE"`.
pub fn upper_name_marks_cable(upper: &str) -> (r: bool)
    ensures
        r == contains_text(upper@, "CABLE"@),
{
    let hay = chars_of(upper);
    let needle = chars_of("CABLE");
    contains_chars(&hay, &needle)
}

/// Whether a device name marks the VB-CABLE device.
pub fn name_marks_cable(name: &str) -> (r: bool)
    ensures
        r == is_cable_name(name@),
{
    let upper = to_upper_case(name);
    upper_name_marks_cable(upper.as_str())
}

/// The VB-CABLE device among the slots of an endpoint collection: the first
/// fetched endpoint whose name marks it.  The search gives up (`None`) at the
/// first fetched endpoint whose name cannot be read.
pub open spec fn cable_pick(slots: Seq<Option<EndpointView>>) -> Option<DeviceView>
    decreases slots.len(),
{
    if slots.len() == 0 {
        None
    } else {
        match slots[0] {
            None => cable_pick(slots.drop_first()),
            Some(e) => match e.name {
                None => None,
                Some(n) => if is_cable_name(n) {
                    Some(DeviceView { id: e.id, name: n })
                } else {
                    cable_pick(slots.drop_first())
                },
            },
        }
    }
}

/// The view of an optional device.
pub open spec fn opt_device(d: Option<DeviceInfo>) -> Option<DeviceView> {
    match d {
        Some(x) => Some(x@),
        None => None,
    }
}

/// Finds the VB-CABLE device among the slots of an endpoint collection.
pub fn find_cable_device(slots: &Vec<Option<EndpointInfo>>) -> (r: Option<DeviceInfo>)
    ensures
        opt_device(r) == cable_pick(slots_view(slots@)),
{
    let mut i: usize = 0;
    assert(slots_view(slots@).skip(0) =~= slots_view(slots@));
    while i < slots.len()
        invariant
            i <= slots.len(),
            cable_pick(slots_view(slots@)) == cable_pick(slots_view(slots@).skip(i as int)),
        decreases slots.len() - i,
    {
        let ghost rest = slots_view(slots@).skip(i as int);
        assert(rest[0] == slot_view(slots@[i as int]));
        assert(rest.drop_first() =~= slots_view(slots@).skip(i + 1));
        match &slots[i] {
            None => {},
            Some(e) => match &e.name {
                None => {
                    return None;
                },
                Some(n) => {
                    if name_marks_cable(n.as_str()) {
                        return Some(DeviceInfo { id: e.id.clone(), name: n.clone() });
                    }
                },
            },
        }
        i += 1;
    }
    assert(slots_view(slots@).skip(i as int) =~= Seq::<Option<EndpointView>>::empty());
    None
}

// ---------------------------------------------------------------------------
// Processes that play audio
// ---------------------------------------------------------------------------

/// The process ids of the audio sessions `sessions` (`None` where a session
/// or its process id could not be read), each kept once, in order of first
/// appearance, leaving out id 0 (the system idle process).
pub open spec fn session_pids(sessions: Seq<Option<u32>>) -> Seq<u32>
    decreases sessions.len(),
{
    if sessions.len() == 0 {
        Seq::empty()
    } else {
        let before = session_pids(sessions.drop_last());
        match sessions.last() {
            Some(pid) => if pid != 0 && !before.contains(pid) {
                before.push(pid)
            } else {
                before
            },
            None => before,
        }
    }
}

/// The process ids worth listing among the audio sessions `sessions`: each
/// nonzero id once, in the order of first appearance, the ids already
/// listed kept in a `HashSet`.
pub fn distinct_session_pids(sessions: &Vec<Option<u32>>) -> (r: Vec<u32>)
    ensures
        r@ == session_pids(sessions@),
{
    broadcast use vstd::std_specs::hash::group_hash_axioms;

    let mut out: Vec<u32> = Vec::new();
    let mut seen: HashSet<u32> = HashSet::new();
    let mut i: usize = 0;
    assert(sessions@.take(0) =~= Seq::<Option<u32>>::empty());
    while i < sessions.len()
        invariant
            i <= sessions.len(),
            out@ == session_pids(sessions@.take(i as int)),
            forall|x: u32| seen@.contains(x) <==> out@.contains(x),
        decreases sessions.len() - i,
    {
        assert(sessions@.take(i + 1).drop_last() =~= sessions@.take(i as int));
        assert(sessions@.take(i + 1).last() == sessions@[i as int]);
        match sessions[i] {
            None => {},
            Some(pid) => {
                let ghost before_out = out@;
                let ghost before_seen = seen@;
                if pid != 0 && seen.insert(pid) {
                    out.push(pid);
                    assert(out@ == before_out.push(pid));
                    assert forall|x: u32| seen@.contains(x) <==> out@.contains(x) by {
                        if out@.contains(x) && x != pid {
                            let w = choose|w: int| 0 <= w < out@.len() && out@[w] == x;
                            assert(w < before_out.len());
                            assert(before_out[w] == x);
                        }
                        if x == pid {
                            assert(out@[out@.len() - 1] == pid);
                        }
                        if before_seen.contains(x) {
                            let w = choose|w: int| 0 <= w < before_out.len() && before_out[w] == x;
                            assert(out@[w] == x);
                        }
                    }
                }
            },
        }
        i += 1;
    }
    assert(sessions@.take(i as int) =~= sessions@);
    out
}

/// The listed process ids are distinct and never 0, and every nonzero id of
/// a session is listed.
pub proof fn lemma_session_pids(sessions: Seq<Option<u32>>)
    ensures
        forall|i: int, j: int|
            0 <= i < j < session_pids(sessions).len() ==> session_pids(sessions)[i]
                != session_pids(sessions)[j],
        forall|i: int|
            0 <= i < session_pids(sessions).len() ==> session_pids(sessions)[i] != 0,
        forall|k: int|
            0 <= k < sessions.len() && sessions[k] is Some && sessions[k]->0 != 0
                ==> session_pids(sessions).contains(sessions[k]->0),
    decreases sessions.len(),
{
    if sessions.len() > 0 {
        let prev = sessions.drop_last();
        lemma_session_pids(prev);
        let before = session_pids(prev);
        let now = session_pids(sessions);
        assert forall|k: int|
            0 <= k < sessions.len() && sessions[k] is Some && sessions[k]->0
                != 0 implies now.contains(sessions[k]->0) by {
            if k < sessions.len() - 1 {
                assert(prev[k] == sessions[k]);
                let w = choose|w: int| 0 <= w < before.len() && before[w] == sessions[k]->0;
                assert(now[w] == before[w]);
            } else {
                if before.contains(sessions[k]->0) {
                    let w = choose|w: int| 0 <= w < before.len() && before[w] == sessions[k]->0;
                    assert(now[w] == before[w]);
                } else {
                    assert(now[now.len() - 1] == sessions[k]->0);
                }
            }
        }
    }
}

/// The name shown for a process whose name cannot be read.
pub open spec fn pid_name(pid: u32) -> Seq<char> {
    "PID "@ + decimal(pid as nat)
}

/// The views of a list of process entries.
pub open spec fn processes_view(v: Seq<ProcessInfo>) -> Seq<ProcessView> {
    v.map_values(|p: ProcessInfo| p@)
}

/// The process entries for the ids `pids`, named by `names` where a name could
/// be read and by their id otherwise.
pub fn process_entries(pids: &Vec<u32>, names: &Vec<Option<String>>) -> (r: Vec<ProcessInfo>)
    requires
        pids.len() == names.len(),
    ensures
        r.len() == pids.len(),
        forall|i: int|
            0 <= i < r.len() ==> (#[trigger] r@[i])@ == (ProcessView {
                pid: pids@[i],
                name: match names@[i] {
                    Some(n) => n@,
                    None => pid_name(pids@[i]),
                },
            }),
{
    let mut out: Vec<ProcessInfo> = Vec::new();
    let mut i: usize = 0;
    while i < pids.len()
        invariant
            pids.len() == names.len(),
            i <= pids.len(),
            out.len() == i,
            forall|j: int|
                0 <= j < i ==> (#[trigger] out@[j])@ == (ProcessView {
                    pid: pids@[j],
                    name: match names@[j] {
                        Some(n) => n@,
                        None => pid_name(pids@[j]),
                    },
                }),
        decreases pids.len() - i,
    {
        let pid = pids[i];
        let name = match &names[i] {
            Some(n) => n.clone(),
            None => {
                let mut s = String::from_str("PID ");
                push_decimal(&mut s, pid as u64);
                s
            },
        };
        out.push(ProcessInfo { pid, name });
        i += 1;
    }
    out
}

} // verus!
