//! The integer side of the capture loop: which source to capture from, the
//! sample format, the bytes put on the wire, the silence sent while the
//! audio engine is quiet, the counters behind the statistics, and the rules
//! for muting the local output.
use vstd::prelude::*;
use crate::audio::{CaptureMode, DeviceInfo, StreamConfig, opt_device, opt_text};

verus! {

// ---------------------------------------------------------------------------
// Where the audio comes from
// ---------------------------------------------------------------------------

/// The audio source of one streaming attempt.
pub enum CaptureSource {
    /// The VB-CABLE capture device with this endpoint id.
    CableDevice(String),
    /// Loopback of the audio of this process and its children.
    ProcessLoopback(u32),
    /// Loopback of everything the default output plays.
    SystemLoopback,
}

/// Why an attempt cannot choose a source.
#[derive(Debug, Clone, Copy, PartialEq, Eq, Structural)]
pub enum SourceError {
    /// VB-CABLE mode, but no VB-CABLE device id was given.
    CableDeviceMissing,
}

/// The source the configuration asks for: in VB-CABLE mode the configured
/// device, otherwise the chosen process, otherwise the whole system.
pub fn capture_source(cfg: &StreamConfig) -> (r: Result<CaptureSource, SourceError>)
    ensures
        cfg.capture_mode == CaptureMode::VbCable ==> match r {
            Ok(CaptureSource::CableDevice(id)) => opt_text(cfg.device_id) == Some(id@),
            Err(SourceError::CableDeviceMissing) => cfg.device_id is None,
            _ => false,
        },
        cfg.capture_mode != CaptureMode::VbCable ==> match cfg.process_id {
            Some(pid) => r matches Ok(CaptureSource::ProcessLoopback(p)) && p == pid,
            None => r matches Ok(CaptureSource::SystemLoopback),
        },
{
    if cfg.capture_mode == CaptureMode::VbCable {
        match &cfg.device_id {
            Some(id) => Ok(CaptureSource::CableDevice(id.clone())),
            None => Err(SourceError::CableDeviceMissing),
        }
    } else {
        match cfg.process_id {
            Some(pid) => Ok(CaptureSource::ProcessLoopback(pid)),
            None => Ok(CaptureSource::SystemLoopback),
        }
    }
}

/// The configuration with the VB-CABLE capture device filled in: in VB-CABLE
/// mode the device id is that of the detected device (none where none was
/// detected); in loopback mode the configuration is kept as it is.
pub fn with_cable_device(cfg: StreamConfig, cable: &Option<DeviceInfo>) -> (r: StreamConfig)
    ensures
        r@.server == cfg@.server,
        r.port == cfg.port,
        r.rate == cfg.rate,
        r.channels == cfg.channels,
        r.process_id == cfg.process_id,
        r.mute_local_output == cfg.mute_local_output,
        r.capture_mode == cfg.capture_mode,
        cfg.capture_mode == CaptureMode::VbCable ==> opt_text(r.device_id) == match opt_device(
            *cable,
        ) {
            Some(d) => Some(d.id),
            None => None,
        },
        cfg.capture_mode != CaptureMode::VbCable ==> opt_text(r.device_id) == opt_text(
            cfg.device_id,
        ),
{
    if cfg.capture_mode == CaptureMode::VbCable {
        let device_id = match cable {
            Some(d) => Some(d.id.clone()),
            None => None,
        };
        StreamConfig { device_id, ..cfg }
    } else {
        cfg
    }
}

/// The wave format tag of IEEE floating-point samples.
pub const WAVE_FORMAT_IEEE_FLOAT: u16 = 3;

/// The wave format tag of the extensible format.
pub const WAVE_FORMAT_EXTENSIBLE: u16 = 0xFFFE;

/// Whether a mix format delivers 32-bit float samples: the float tag, or the
/// extensible tag with 32 bits per sample.
pub fn mix_format_is_float(format_tag: u16, bits_per_sample: u16) -> (r: bool)
    ensures
        r == (format_tag == WAVE_FORMAT_IEEE_FLOAT || (format_tag == WAVE_FORMAT_EXTENSIBLE
            && bits_per_sample == 32)),
{
    format_tag == WAVE_FORMAT_IEEE_FLOAT || (format_tag == WAVE_FORMAT_EXTENSIBLE
        && bits_per_sample == 32)
}

/// The number of bytes of 10 ms of 16-bit silence at `rate` Hz with
/// `channels` channels.
pub fn silence_len(rate: u32, channels: u16) -> (r: u64)
    ensures
        r == (rate as nat * channels as nat * 2) / 100,
{
    assert(rate as nat * channels as nat <= 0xffff_ffff * 0xffff) by (nonlinear_arith);
    (rate as u64 * channels as u64 * 2) / 100
}

/// The number of wire bytes for `frames` frames of `channels` channels.
pub fn chunk_bytes(frames: u32, channels: u16) -> (r: u64)
    ensures
        r == frames as nat * channels as nat * 2,
{
    assert(frames as nat * channels as nat <= 0xffff_ffff * 0xffff) by (nonlinear_arith);
    frames as u64 * channels as u64 * 2
}

// ---------------------------------------------------------------------------
// Samples on the wire: signed 16-bit little-endian
// ---------------------------------------------------------------------------

/// The low byte of a sample in two's complement.
pub open spec fn low_byte(x: i16) -> u8 {
    ((x as u16) % 256) as u8
}

/// The high byte of a sample in two's complement.
pub open spec fn high_byte(x: i16) -> u8 {
    ((x as u16) / 256) as u8
}

/// The sample that two little-endian bytes hold.
pub open spec fn sample_of(lo: u8, hi: u8) -> i16 {
    ((lo as u16) + (hi as u16) * 256) as u16 as i16
}

/// The bytes of `samples` as signed 16-bit little-endian PCM: two bytes per
/// sample, low byte first.
pub fn encode_s16le(samples: &Vec<i16>) -> (r: Vec<u8>)
    requires
        samples.len() * 2 <= usize::MAX,
    ensures
        r.len() == 2 * samples.len(),
        forall|i: int|
            0 <= i < samples.len() ==> r@[2 * i] == low_byte(#[trigger] samples@[i]) && r@[2 * i
                + 1] == high_byte(samples@[i]),
{
    let mut out: Vec<u8> = Vec::with_capacity(samples.len() * 2);
    let mut i: usize = 0;
    while i < samples.len()
        invariant
            i <= samples.len(),
            samples.len() * 2 <= usize::MAX,
            out.len() == 2 * i,
            forall|j: int|
                0 <= j < i ==> out@[2 * j] == low_byte(#[trigger] samples@[j]) && out@[2 * j + 1]
                    == high_byte(samples@[j]),
        decreases samples.len() - i,
    {
        let x = samples[i];
        let u = x as u16;
        let lo = (u & 0xff) as u8;
        let hi = (u >> 8) as u8;
        assert(u & 0xff == u % 256 && u >> 8 == u / 256) by (bit_vector);
        out.push(lo);
        out.push(hi);
        i += 1;
    }
    out
}

/// Reading back the two bytes of a sample gives the sample.
pub proof fn lemma_sample_roundtrip(x: i16)
    ensures
        sample_of(low_byte(x), high_byte(x)) == x,
{
    let u = x as u16;
    assert(((u % 256) as u8 as u16) + ((u / 256) as u8 as u16) * 256 == u) by (bit_vector);
    assert((x as u16) as i16 == x) by (bit_vector);
}

// ---------------------------------------------------------------------------
// Counters behind the statistics
// ---------------------------------------------------------------------------

/// How often the statistics are reported, in milliseconds.
pub const STATS_INTERVAL_MS: u64 = 500;

/// The capture loop's counters.  Like the loop they come from, they wrap on
/// overflow rather than stop.
pub struct CaptureCounters {
    /// Bytes handed to the network writer so far.
    pub total_bytes: u64,
    /// `total_bytes` at the last statistics report.
    pub reported_bytes: u64,
    /// Chunks dropped because the network writer was behind.
    pub drops: u32,
}

impl CaptureCounters {
    /// Counters of a new stream: all zero.
    pub fn new() -> (r: CaptureCounters)
        ensures
            r.total_bytes == 0,
            r.reported_bytes == 0,
            r.drops == 0,
    {
        CaptureCounters { total_bytes: 0, reported_bytes: 0, drops: 0 }
    }

    /// A chunk of `len` bytes went to the writer.
    pub fn record_sent(&mut self, len: u64)
        ensures
            final(self).total_bytes == (old(self).total_bytes + len) % 0x1_0000_0000_0000_0000,
            final(self).reported_bytes == old(self).reported_bytes,
            final(self).drops == old(self).drops,
    {
        self.total_bytes = self.total_bytes.wrapping_add(len);
    }

    /// A chunk was dropped because the writer's queue was full.
    pub fn record_dropped(&mut self)
        ensures
            final(self).drops == (old(self).drops + 1) % 0x1_0000_0000,
            final(self).total_bytes == old(self).total_bytes,
            final(self).reported_bytes == old(self).reported_bytes,
    {
        self.drops = self.drops.wrapping_add(1);
    }

    /// The bytes sent since the last report.
    pub fn unreported_bytes(&self) -> (r: u64)
        ensures
            r == (self.total_bytes - self.reported_bytes) % 0x1_0000_0000_0000_0000,
    {
        self.total_bytes.wrapping_sub(self.reported_bytes)
    }

    /// A report went out: what was sent so far counts as reported.
    pub fn mark_reported(&mut self)
        ensures
            final(self).reported_bytes == old(self).total_bytes,
            final(self).total_bytes == old(self).total_bytes,
            final(self).drops == old(self).drops,
    {
        self.reported_bytes = self.total_bytes;
    }
}

/// Whether a statistics report is due, `elapsed_ms` after the last one.
pub fn stats_due(elapsed_ms: u64) -> (r: bool)
    ensures
        r == (elapsed_ms >= STATS_INTERVAL_MS),
{
    elapsed_ms >= STATS_INTERVAL_MS
}

// ---------------------------------------------------------------------------
// Muting the local output
// ---------------------------------------------------------------------------

/// Whether the user interface is told that output is muted: always while
/// local output is muted on purpose, else as the system reports.
pub fn reported_mute(mute_local_output: bool, system_muted: bool) -> (r: bool)
    ensures
        r == (mute_local_output || system_muted),
{
    mute_local_output || system_muted
}

/// Whether the endpoint must be muted again: local output is to stay muted
/// but the system reports it unmuted (the user pressed a volume key).
pub fn must_mute_again(mute_local_output: bool, system_muted: bool) -> (r: bool)
    ensures
        r == (mute_local_output && !system_muted),
{
    mute_local_output && !system_muted
}

/// Whether the endpoint is unmuted when a stream ends: only when this
/// stream muted it (loopback mode, muting on, and it was not muted before).
pub fn unmute_on_exit(is_cable: bool, mute_local_output: bool, originally_muted: bool) -> (r: bool)
    ensures
        r == (!is_cable && mute_local_output && !originally_muted),
{
    !is_cable && mute_local_output && !originally_muted
}

/// How the captured samples are scaled before they go on the wire.
#[derive(Debug, Clone, Copy, PartialEq, Eq, Structural)]
pub enum GainRule {
    /// By the system volume, but never below 1% (local output is muted on
    /// purpose, and the volume keys still set the stream's level).
    SystemVolumeAtLeastOnePercent,
    /// Silence: the output is muted.
    Silent,
    /// By the system volume.
    SystemVolume,
}

/// The gain rule for a stream.
pub fn gain_rule(is_cable: bool, mute_local_output: bool, system_muted: bool) -> (r: GainRule)
    ensures
        !is_cable && mute_local_output ==> r == GainRule::SystemVolumeAtLeastOnePercent,
        !(!is_cable && mute_local_output) && system_muted ==> r == GainRule::Silent,
        !(!is_cable && mute_local_output) && !system_muted ==> r == GainRule::SystemVolume,
{
    if !is_cable && mute_local_output {
        GainRule::SystemVolumeAtLeastOnePercent
    } else if system_muted {
        GainRule::Silent
    } else {
        GainRule::SystemVolume
    }
}

/// Whether the default output must be switched to the VB-CABLE render device:
/// only when it is not already the default.
pub fn needs_default_switch(current_default: &Option<String>, cable_render_id: &String) -> (r: bool)
    ensures
        r == (match current_default {
            Some(c) => c@ != cable_render_id@,
            None => cable_render_id@.len() != 0,
        }),
{
    match current_default {
        Some(c) => !(*c == *cable_render_id),
        None => !cable_render_id.as_str().is_empty(),
    }
}

} // verus!
