//! GNU/Linux capability implementations: a fixed screen geometry, the
//! direct-URL wallpaper strategy driven by the desktop-session variable,
//! and a systemd user-service installation plan.

use vstd::prelude::*;
use vstd::string::*;

use crate::path::{get_home_relative_path, joined_path};
use crate::text::{contains_seq, contains_sub};
use crate::{
    CommandModel, InstallPlan, InstallPlanModel, PlatformInstaller, PlatformProvider,
    ProviderError, SystemCommand, WallpaperAction, WallpaperActionModel, view_opt_str,
};

verus! {

/// Name for what `str::to_lowercase` returns: the result is a function
/// of the characters alone.
pub uninterp spec fn lower_of(s: Seq<char>) -> Seq<char>;

/// Relies on `str::to_lowercase` to fold the session description before
/// it is probed for desktop names.
#[verifier::external_body]
fn lowercase(s: &str) -> (r: String)
    ensures
        r@ == lower_of(s@),
{
    s.to_lowercase()
}

/// The desktop environments the direct-URL strategy can drive.
#[derive(Debug, PartialEq, Eq, Structural, Clone, Copy)]
pub enum DesktopKind {
    Gnome,
    Cinnamon,
    Unsupported,
}

/// Spec: classification of an already case-folded session description,
/// by the desktop's name occurring in it (`XDG_CURRENT_DESKTOP` values
/// such as `ubuntu:GNOME` or `X-Cinnamon`).
pub open spec fn classify_spec(lowered: Seq<char>) -> DesktopKind {
    if contains_seq(lowered, "gnome"@) {
        DesktopKind::Gnome
    } else if contains_seq(lowered, "cinnamon"@) {
        DesktopKind::Cinnamon
    } else {
        DesktopKind::Unsupported
    }
}

/// Classify a case-folded desktop-session description.
pub fn classify_session(lowered: &str) -> (r: DesktopKind)
    ensures
        r == classify_spec(lowered@),
{
    if contains_sub(lowered, "gnome") {
        DesktopKind::Gnome
    } else if contains_sub(lowered, "cinnamon") {
        DesktopKind::Cinnamon
    } else {
        DesktopKind::Unsupported
    }
}

/// Spec: the gsettings invocation that points `schema` at `url`.
pub open spec fn gsettings_model(schema: Seq<char>, url: Seq<char>) -> CommandModel {
    CommandModel { program: "gsettings"@, args: seq!["set"@, schema, "picture-uri"@, url] }
}

fn gsettings_command(schema: &str, url: &str) -> (c: SystemCommand)
    ensures
        c@ == gsettings_model(schema@, url@),
{
    let mut args: Vec<String> = Vec::new();
    args.push(String::from_str("set"));
    args.push(String::from_str(schema));
    args.push(String::from_str("picture-uri"));
    args.push(String::from_str(url));
    let c = SystemCommand { program: String::from_str("gsettings"), args };
    proof {
        assert(c@.args =~~= gsettings_model(schema@, url@).args);
        assert(c@ =~~= gsettings_model(schema@, url@));
    }
    c
}

/// Direct-URL strategy provider: the desktop settings command accepts
/// the URL itself, so no local staging is needed.
#[derive(Debug)]
pub struct GnuLinuxProvider {}

impl PlatformProvider for GnuLinuxProvider {
    /// This provider carries no state to keep well-formed.
    open spec fn provider_wf(&self) -> bool {
        true
    }

    /// The geometry is not probed on this platform: a fixed full-HD
    /// answer is returned.
    open spec fn resolution_spec(&self, bounds_answer: Option<Seq<char>>) -> Result<
        (u32, u32),
        ProviderError,
    > {
        Ok((1920u32, 1080u32))
    }

    open spec fn wallpaper_spec(&self, session: Option<Seq<char>>, url: Seq<char>) -> Result<
        WallpaperActionModel,
        ProviderError,
    > {
        match session {
            None => Err(ProviderError::SessionNotSet),
            Some(s) => match classify_spec(lower_of(s)) {
                DesktopKind::Gnome => Ok(
                    WallpaperActionModel::RunCommand(
                        gsettings_model("org.gnome.desktop.background"@, url),
                    ),
                ),
                DesktopKind::Cinnamon => Ok(
                    WallpaperActionModel::RunCommand(
                        gsettings_model("org.cinnamon.desktop.background"@, url),
                    ),
                ),
                DesktopKind::Unsupported => Err(ProviderError::UnsupportedDesktop),
            },
        }
    }

    /// This provider keeps no state an apply outcome could move.
    open spec fn apply_outcome_rel(&self, ok: bool, post: &Self) -> bool {
        true
    }

    fn find_screen_resolution(&self, bounds_answer: Option<&str>) -> (r: Result<
        (u32, u32),
        ProviderError,
    >) {
        Ok((1920, 1080))
    }

    fn set_desktop_wallpaper_url(&self, session: Option<&str>, url: &str) -> (r: Result<
        WallpaperAction,
        ProviderError,
    >) {
        match session {
            None => Err(ProviderError::SessionNotSet),
            Some(s) => {
                let lowered = lowercase(s);
                match classify_session(lowered.as_str()) {
                    DesktopKind::Gnome => Ok(
                        WallpaperAction::RunCommand(
                            gsettings_command("org.gnome.desktop.background", url),
                        ),
                    ),
                    DesktopKind::Cinnamon => Ok(
                        WallpaperAction::RunCommand(
                            gsettings_command("org.cinnamon.desktop.background", url),
                        ),
                    ),
                    DesktopKind::Unsupported => Err(ProviderError::UnsupportedDesktop),
                }
            },
        }
    }

    fn note_apply_outcome(&mut self, ok: bool) {
    }
}

/// Spec: the systemd user unit pointing at the installed executable.
pub open spec fn gnu_service_content(exec_path: Seq<char>) -> Seq<char> {
    "\n[Unit]\nDescription=Picture of the Day Wallpaper Changer\nAfter=network.target\nAfter=graphical-session.target\n\n[Service]\nType=simple\nExecStart="@
        + exec_path
        + " run\nRestart=on-failure\n\n[Install]\nWantedBy=graphical-session.target\n"@
}

/// Spec: one `systemctl --user <verb> potd-wallpaper.service` invocation.
pub open spec fn systemctl_model(verb: Seq<char>) -> CommandModel {
    CommandModel { program: "systemctl"@, args: seq!["--user"@, verb, "potd-wallpaper.service"@] }
}

fn systemctl_command(verb: &str) -> (c: SystemCommand)
    ensures
        c@ == systemctl_model(verb@),
{
    let mut args: Vec<String> = Vec::new();
    args.push(String::from_str("--user"));
    args.push(String::from_str(verb));
    args.push(String::from_str("potd-wallpaper.service"));
    let c = SystemCommand { program: String::from_str("systemctl"), args };
    proof {
        assert(c@.args =~~= systemctl_model(verb@).args);
        assert(c@ =~~= systemctl_model(verb@));
    }
    c
}

/// Spec: the whole GNU/Linux installation plan for a home directory:
/// copy the executable under `.local/bin`, write a systemd user unit,
/// then enable and restart the service.
pub open spec fn gnu_install_model(home: Seq<char>) -> InstallPlanModel {
    InstallPlanModel {
        directories: seq![
            joined_path(home, ".local/bin"@),
            joined_path(home, ".local/lib/systemd/user"@),
        ],
        binary_path: joined_path(home, ".local/bin/potd-wallpaper"@),
        service_path: joined_path(home, ".local/lib/systemd/user/potd-wallpaper.service"@),
        service_content: gnu_service_content(joined_path(home, ".local/bin/potd-wallpaper"@)),
        commands: seq![systemctl_model("enable"@), systemctl_model("restart"@)],
    }
}

/// Installs the service as a systemd user unit.
#[derive(Debug)]
pub struct GnuLinuxInstaller {}

impl PlatformInstaller for GnuLinuxInstaller {
    open spec fn install_plan_spec(&self, home: Seq<char>) -> InstallPlanModel {
        gnu_install_model(home)
    }

    fn install(&self, home: &str) -> (p: InstallPlan) {
        let binary_path = get_home_relative_path(home, ".local/bin/potd-wallpaper");
        let mut service_content = String::from_str(
            "\n[Unit]\nDescription=Picture of the Day Wallpaper Changer\nAfter=network.target\nAfter=graphical-session.target\n\n[Service]\nType=simple\nExecStart=",
        );
        service_content.append(binary_path.as_str());
        service_content.append(
            " run\nRestart=on-failure\n\n[Install]\nWantedBy=graphical-session.target\n",
        );
        let mut directories: Vec<String> = Vec::new();
        directories.push(get_home_relative_path(home, ".local/bin"));
        directories.push(get_home_relative_path(home, ".local/lib/systemd/user"));
        let mut commands: Vec<SystemCommand> = Vec::new();
        commands.push(systemctl_command("enable"));
        commands.push(systemctl_command("restart"));
        let p = InstallPlan {
            directories,
            binary_path,
            service_path: get_home_relative_path(
                home,
                ".local/lib/systemd/user/potd-wallpaper.service",
            ),
            service_content,
            commands,
        };
        proof {
            assert(p@.directories =~~= gnu_install_model(home@).directories);
            assert(p@.commands =~~= gnu_install_model(home@).commands);
            assert(p@ =~~= gnu_install_model(home@));
        }
        p
    }
}

} // verus!
