//! The settings that persist between runs, and where they are kept.
use vstd::prelude::*;
use std::path::PathBuf;
use directories::ProjectDirs;
use crate::audio::opt_text;

verus! {

/// The persisted settings.
#[derive(Debug, Clone)]
pub struct AppSettings {
    pub server: String,
    pub port: u16,
    pub rate: u32,
    pub channels: u16,
    pub device_id: Option<String>,
    pub auto_connect: bool,
    pub start_with_windows: bool,
    pub minimize_to_tray: bool,
    pub mute_local_output: bool,
    pub dark_theme: bool,
}

/// The mathematical value of [`AppSettings`].
#[verifier::ext_equal]
pub struct AppSettingsView {
    pub server: Seq<char>,
    pub port: u16,
    pub rate: u32,
    pub channels: u16,
    pub device_id: Option<Seq<char>>,
    pub auto_connect: bool,
    pub start_with_windows: bool,
    pub minimize_to_tray: bool,
    pub mute_local_output: bool,
    pub dark_theme: bool,
}

impl View for AppSettings {
    type V = AppSettingsView;

    open spec fn view(&self) -> AppSettingsView {
        AppSettingsView {
            server: self.server@,
            port: self.port,
            rate: self.rate,
            channels: self.channels,
            device_id: opt_text(self.device_id),
            auto_connect: self.auto_connect,
            start_with_windows: self.start_with_windows,
            minimize_to_tray: self.minimize_to_tray,
            mute_local_output: self.mute_local_output,
            dark_theme: self.dark_theme,
        }
    }
}

/// The settings of a first run: no server yet (which starts a scan), port
/// 4714, 48 kHz stereo, the default device, no auto-connect, starting with
/// Windows, minimizing to the tray, not muting local output, dark theme.
pub open spec fn default_settings() -> AppSettingsView {
    AppSettingsView {
        server: Seq::empty(),
        port: 4714,
        rate: 48000,
        channels: 2,
        device_id: None,
        auto_connect: false,
        start_with_windows: true,
        minimize_to_tray: true,
        mute_local_output: false,
        dark_theme: true,
    }
}

/// The server of a first run: none.
pub fn default_server() -> (r: String)
    ensures
        r@ == default_settings().server,
{
    String::new()
}

/// The port of a first run.
pub fn default_port() -> (r: u16)
    ensures
        r == default_settings().port,
{
    4714
}

/// The sample rate of a first run, in Hz.
pub fn default_rate() -> (r: u32)
    ensures
        r == default_settings().rate,
{
    48000
}

/// The channel count of a first run.
pub fn default_channels() -> (r: u16)
    ensures
        r == default_settings().channels,
{
    2
}

/// The value of the settings that are on unless turned off.
pub fn default_true() -> (r: bool)
    ensures
        r,
{
    true
}

/// The name of the capture mode of a first run: loopback of the output.
pub fn default_capture_mode() -> (r: String)
    ensures
        r@ == "loopback"@,
{
    String::from_str("loopback")
}

impl Default for AppSettings {
    fn default() -> (r: Self)
        ensures
            r@ == default_settings(),
    {
        AppSettings {
            server: default_server(),
            port: default_port(),
            rate: default_rate(),
            channels: default_channels(),
            device_id: None,
            auto_connect: false,
            start_with_windows: default_true(),
            minimize_to_tray: default_true(),
            mute_local_output: false,
            dark_theme: default_true(),
        }
    }
}

#[verifier::external_type_specification]
#[verifier::external_body]
pub struct ExPathBuf(PathBuf);

#[verifier::external_type_specification]
#[verifier::external_body]
pub struct ExProjectDirs(ProjectDirs);

/// What `ProjectDirs::data_local_dir` returns for `dirs`: the per-user local
/// data directory that `dirs` was built with.
pub uninterp spec fn local_data_dir(dirs: ProjectDirs) -> PathBuf;

/// Whether `dirs` is what `ProjectDirs::from` builds for the qualifier,
/// organization and application given: the directories of that project.
pub uninterp spec fn dirs_built_for(
    dirs: ProjectDirs,
    qualifier: Seq<char>,
    organization: Seq<char>,
    application: Seq<char>,
) -> bool;

/// What `Path::join` returns for `dir` and `name`.
pub uninterp spec fn joined_path(dir: PathBuf, name: Seq<char>) -> PathBuf;

/// The name of the settings file inside the settings directory.
pub open spec fn settings_file_name() -> Seq<char> {
    "settings.json"@
}

/// Calls `directories::ProjectDirs::from(qualifier, organization,
/// application)`: the project's directories, found from the user's home
/// directory in the environment.  Whether any come back depends on the
/// environment (none without a home directory); what comes back is the
/// directories of the project named by the three arguments.
#[verifier::external_body]
fn project_dirs(qualifier: &str, organization: &str, application: &str) -> (r: Option<ProjectDirs>)
    ensures
        r matches Some(d) ==> dirs_built_for(d, qualifier@, organization@, application@),
{
    ProjectDirs::from(qualifier, organization, application)
}

/// Calls `ProjectDirs::data_local_dir` and takes an owned copy of the path;
/// the result is named `local_data_dir` of `dirs`.
#[verifier::external_body]
fn data_local_dir(dirs: &ProjectDirs) -> (r: PathBuf)
    ensures
        r == local_data_dir(*dirs),
{
    dirs.data_local_dir().to_path_buf()
}

/// Calls `Path::join`; the result is named `joined_path` of `dir` and `name`.
#[verifier::external_body]
fn join_path(dir: &PathBuf, name: &str) -> (r: PathBuf)
    ensures
        r == joined_path(*dir, name@),
{
    dir.join(name)
}

impl AppSettings {
    /// The directory that holds the settings file, where one can be found:
    /// the local data directory of the application `PulseStream` (with no
    /// qualifier and no organization).
    pub fn settings_dir() -> (r: Option<PathBuf>)
        ensures
            r matches Some(p) ==> exists|d: ProjectDirs|
                dirs_built_for(d, ""@, ""@, "PulseStream"@) && p == local_data_dir(d),
    {
        match project_dirs("", "", "PulseStream") {
            Some(d) => Some(data_local_dir(&d)),
            None => None,
        }
    }

    /// The settings file `settings.json` inside `dir`, where there is a directory.
    pub fn settings_file_in(dir: Option<PathBuf>) -> (r: Option<PathBuf>)
        ensures
            r == match dir {
                Some(d) => Some(joined_path(d, settings_file_name())),
                None => None,
            },
    {
        match dir {
            Some(d) => Some(join_path(&d, "settings.json")),
            None => None,
        }
    }

    /// The path of the settings file, where a settings directory can be found:
    /// `settings.json` inside the application's local data directory.
    pub fn settings_path() -> (r: Option<PathBuf>)
        ensures
            r matches Some(p) ==> exists|d: ProjectDirs|
                dirs_built_for(d, ""@, ""@, "PulseStream"@) && p == joined_path(
                    local_data_dir(d),
                    settings_file_name(),
                ),
    {
        Self::settings_file_in(Self::settings_dir())
    }
}

} // verus!
