//! Rotation engine for a picture-of-the-day desktop wallpaper service.
//!
//! The library holds the verified core of the service: the shared URL
//! cache discipline, the refresher and display task decisions, the
//! double-buffered wallpaper slot lifecycle, and the per-platform
//! capability plans. The surrounding binary performs the actual I/O
//! (subprocesses, network fetches, file writes, sleeps) and hands the
//! results back to these functions as plain values.

use vstd::prelude::*;
use vstd::string::*;

pub mod cache;
pub mod gnu_linux;
pub mod macos;
pub mod path;
pub mod slots;
pub mod tasks;
pub mod text;

use gnu_linux::{GnuLinuxInstaller, GnuLinuxProvider};
use macos::{MacosInstaller, MacosProvider};
use path::get_home_relative_path;

verus! {

/// Immutable runtime configuration, created once at process start.
#[derive(Debug)]
pub struct Config {
    /// Wallpaper change interval in seconds.
    pub wallpaper_interval: u64,
    /// Target screen resolution, used to size fetched images.
    pub screen_resolution: (u32, u32),
}

impl Clone for Config {
    fn clone(&self) -> (c: Self)
        ensures
            c.wallpaper_interval == self.wallpaper_interval,
            c.screen_resolution == self.screen_resolution,
    {
        Config {
            wallpaper_interval: self.wallpaper_interval,
            screen_resolution: self.screen_resolution,
        }
    }
}

impl Default for Config {
    /// Ten-minute change interval and a full-HD screen.
    fn default() -> (c: Config)
        ensures
            c.wallpaper_interval == 600,
            c.screen_resolution.0 == 1920,
            c.screen_resolution.1 == 1080,
    {
        Config { wallpaper_interval: 600, screen_resolution: (1920, 1080) }
    }
}

/// The failures a capability provider can report. Neither long-lived
/// task lets one of these terminate the process: each is logged and the
/// loop continues with its retry delay.
#[derive(Debug, PartialEq, Eq, Structural, Clone, Copy)]
pub enum ProviderError {
    /// The desktop-session variable was not set.
    SessionNotSet,
    /// The session names no desktop this provider can drive.
    UnsupportedDesktop,
    /// The answer to the OS bounds query could not be read as four numbers.
    MalformedBounds,
    /// The OS reported window bounds whose corners are inverted.
    InvertedBounds,
}

impl ProviderError {
    /// The text describing this error.
    pub open spec fn message_spec(self) -> Seq<char> {
        match self {
            ProviderError::SessionNotSet => "XDG_CURRENT_DESKTOP is not set"@,
            ProviderError::UnsupportedDesktop => "Unsupported desktop environment"@,
            ProviderError::MalformedBounds => "unexpected output"@,
            ProviderError::InvertedBounds => "unexpected output"@,
        }
    }

    /// Render the error for a log line.
    pub fn message(&self) -> (m: String)
        ensures
            m@ == self.message_spec(),
    {
        match self {
            ProviderError::SessionNotSet => String::from_str("XDG_CURRENT_DESKTOP is not set"),
            ProviderError::UnsupportedDesktop => String::from_str(
                "Unsupported desktop environment",
            ),
            ProviderError::MalformedBounds => String::from_str("unexpected output"),
            ProviderError::InvertedBounds => String::from_str("unexpected output"),
        }
    }
}

/// The platforms a capability implementation exists for. Selected once
/// at process startup; fixed for the process lifetime.
#[derive(Debug, PartialEq, Eq, Structural, Clone, Copy)]
pub enum Platform {
    GnuLinux,
    Macos,
}

/// One subprocess invocation the binary performs on the library's behalf.
#[derive(Debug)]
pub struct SystemCommand {
    pub program: String,
    pub args: Vec<String>,
}

/// Mathematical image of a `SystemCommand`.
#[verifier::ext_equal]
pub struct CommandModel {
    pub program: Seq<char>,
    pub args: Seq<Seq<char>>,
}

impl View for SystemCommand {
    type V = CommandModel;

    open spec fn view(&self) -> CommandModel {
        CommandModel { program: self.program@, args: self.args.deep_view() }
    }
}

/// What the binary must do to apply one wallpaper, as decided by a
/// capability provider.
#[derive(Debug)]
pub enum WallpaperAction {
    /// Direct-URL strategy: run the desktop-settings command, which takes
    /// the URL itself.
    RunCommand(SystemCommand),
    /// Local-file strategy: fetch the image bytes from `url`, write them
    /// to `target_path`, point the OS at that file, and only after the
    /// OS call succeeds best-effort delete `stale_path` (deleting a file
    /// that is already absent is not an error).
    StageLocalFile { url: String, target_path: String, stale_path: String },
}

/// Mathematical image of a `WallpaperAction`.
#[verifier::ext_equal]
pub enum WallpaperActionModel {
    RunCommand(CommandModel),
    StageLocalFile { url: Seq<char>, target_path: Seq<char>, stale_path: Seq<char> },
}

impl View for WallpaperAction {
    type V = WallpaperActionModel;

    open spec fn view(&self) -> WallpaperActionModel {
        match self {
            WallpaperAction::RunCommand(c) => WallpaperActionModel::RunCommand(c@),
            WallpaperAction::StageLocalFile { url, target_path, stale_path } => {
                WallpaperActionModel::StageLocalFile {
                    url: url@,
                    target_path: target_path@,
                    stale_path: stale_path@,
                }
            },
        }
    }
}

/// The steps of a one-shot installation, executed in order by the
/// binary. Installation errors are fatal by design: the first failing
/// step aborts the installation.
#[derive(Debug)]
pub struct InstallPlan {
    /// Directories that must exist before the copy and the write below.
    pub directories: Vec<String>,
    /// Copy the running executable to this path.
    pub binary_path: String,
    /// Write `service_content` at this path.
    pub service_path: String,
    pub service_content: String,
    /// Subprocess invocations that register the service.
    pub commands: Vec<SystemCommand>,
}

/// Mathematical image of an `InstallPlan`.
#[verifier::ext_equal]
pub struct InstallPlanModel {
    pub directories: Seq<Seq<char>>,
    pub binary_path: Seq<char>,
    pub service_path: Seq<char>,
    pub service_content: Seq<char>,
    pub commands: Seq<CommandModel>,
}

impl View for InstallPlan {
    type V = InstallPlanModel;

    open spec fn view(&self) -> InstallPlanModel {
        InstallPlanModel {
            directories: self.directories.deep_view(),
            binary_path: self.binary_path@,
            service_path: self.service_path@,
            service_content: self.service_content@,
            commands: self.commands@.map_values(|c: SystemCommand| c@),
        }
    }
}

/// Spec: the view of an optional borrowed string.
pub open spec fn view_opt_str(o: Option<&str>) -> Option<Seq<char>> {
    match o {
        Some(s) => Some(s@),
        None => None,
    }
}

/// One-shot installation capability, one implementation per platform.
pub trait PlatformInstaller {
    /// The plan this installer promises for a given home directory.
    spec fn install_plan_spec(&self, home: Seq<char>) -> InstallPlanModel;

    /// Compute the installation plan for the given home directory.
    fn install(&self, home: &str) -> (p: InstallPlan)
        ensures
            p@ == self.install_plan_spec(home@),
    ;
}

/// The platform capability set: query the screen geometry and apply a
/// wallpaper by URL. One implementation per platform, selected once at
/// process startup.
pub trait PlatformProvider {
    /// The provider's own invariant, established by its constructor and
    /// kept by every outcome note.
    spec fn provider_wf(&self) -> bool;

    /// Expected answer of the resolution query, given the raw reply of
    /// the OS geometry probe (`None` where the platform needs none).
    spec fn resolution_spec(&self, bounds_answer: Option<Seq<char>>) -> Result<
        (u32, u32),
        ProviderError,
    >;

    /// Expected apply plan for a desktop session and a URL.
    spec fn wallpaper_spec(&self, session: Option<Seq<char>>, url: Seq<char>) -> Result<
        WallpaperActionModel,
        ProviderError,
    >;

    /// How an apply outcome changes the provider's state.
    spec fn apply_outcome_rel(&self, ok: bool, post: &Self) -> bool;

    /// Determine the screen resolution. `bounds_answer` carries the raw
    /// reply of the OS geometry probe where the platform queries one.
    fn find_screen_resolution(&self, bounds_answer: Option<&str>) -> (r: Result<
        (u32, u32),
        ProviderError,
    >)
        ensures
            r == self.resolution_spec(view_opt_str(bounds_answer)),
    ;

    /// Decide how to apply `url` as the wallpaper. `session` carries the
    /// desktop-session variable where the platform consults one.
    fn set_desktop_wallpaper_url(&self, session: Option<&str>, url: &str) -> (r: Result<
        WallpaperAction,
        ProviderError,
    >)
        requires
            self.provider_wf(),
        ensures
            match r {
                Ok(a) => self.wallpaper_spec(view_opt_str(session), url@)
                    == Ok::<WallpaperActionModel, ProviderError>(a@),
                Err(e) => self.wallpaper_spec(view_opt_str(session), url@)
                    == Err::<WallpaperActionModel, ProviderError>(e),
            },
    ;

    /// Record whether the apply the binary ran for the last plan
    /// succeeded. Only a success may move the provider's slot cursor.
    fn note_apply_outcome(&mut self, ok: bool)
        requires
            old(self).provider_wf(),
        ensures
            final (self).provider_wf(),
            old(self).apply_outcome_rel(ok, final (self)),
    ;
}

/// The provider selected for this process, one variant per platform.
#[derive(Debug)]
pub enum AnyProvider {
    GnuLinux(GnuLinuxProvider),
    Macos(MacosProvider),
}

/// The installer selected for this process, one variant per platform.
#[derive(Debug)]
pub enum AnyInstaller {
    GnuLinux(GnuLinuxInstaller),
    Macos(MacosInstaller),
}

/// Select the capability provider for `platform`. The macOS provider
/// stages wallpapers under the given home directory.
pub fn build_provider(platform: Platform, home: &str) -> (r: AnyProvider)
    ensures
        match r {
            AnyProvider::GnuLinux(_) => platform == Platform::GnuLinux,
            AnyProvider::Macos(m) => platform == Platform::Macos && m.wf() && m.next_slot_of()
                == 0 && m.dir_spec() == path::joined_path(home@, "Library/potd-wallpaper"@),
        },
{
    match platform {
        Platform::GnuLinux => AnyProvider::GnuLinux(GnuLinuxProvider {  }),
        Platform::Macos => {
            let dir = get_home_relative_path(home, "Library/potd-wallpaper");
            AnyProvider::Macos(MacosProvider::new(dir))
        },
    }
}

/// Select the installer for `platform`.
pub fn build_installer(platform: Platform) -> (r: AnyInstaller)
    ensures
        match r {
            AnyInstaller::GnuLinux(_) => platform == Platform::GnuLinux,
            AnyInstaller::Macos(_) => platform == Platform::Macos,
        },
{
    match platform {
        Platform::GnuLinux => AnyInstaller::GnuLinux(GnuLinuxInstaller {  }),
        Platform::Macos => AnyInstaller::Macos(MacosInstaller {  }),
    }
}

/// Spec: the installation plan for a platform and home directory.
pub open spec fn install_plan_for(platform: Platform, home: Seq<char>) -> InstallPlanModel {
    match platform {
        Platform::GnuLinux => gnu_linux::gnu_install_model(home),
        Platform::Macos => macos::macos_install_model(home),
    }
}

/// Compute the one-shot installation plan for the running platform.
/// Executing the plan, and aborting on its first failing step, is the
/// binary's part.
pub fn install(platform: Platform, home: &str) -> (p: InstallPlan)
    ensures
        p@ == install_plan_for(platform, home@),
{
    match build_installer(platform) {
        AnyInstaller::GnuLinux(i) => i.install(home),
        AnyInstaller::Macos(i) => i.install(home),
    }
}

} // verus!
