//! macOS capability implementations: screen geometry read from an
//! AppleScript bounds query, the local-file wallpaper strategy over the
//! two staging slots, and a launchd agent installation plan.

use vstd::prelude::*;
use vstd::string::*;

use crate::path::{get_home_relative_path, joined_path};
use crate::slots::SlotStore;
use crate::text::{
    find_sep, first_sep_from, parse_u32, parse_u32_spec, trim, trim_spec,
};
use crate::{
    CommandModel, InstallPlan, InstallPlanModel, PlatformInstaller, PlatformProvider,
    ProviderError, SystemCommand, WallpaperAction, WallpaperActionModel, view_opt_str,
};

verus! {

/// Spec: the four `", "`-separated fields of a bounds reply, or `None`
/// when the reply does not split into exactly four.
pub open spec fn bounds_fields(s: Seq<char>) -> Option<
    (Seq<char>, Seq<char>, Seq<char>, Seq<char>),
> {
    match first_sep_from(s, 0) {
        None => None,
        Some(i1) => match first_sep_from(s, i1 + 2) {
            None => None,
            Some(i2) => match first_sep_from(s, i2 + 2) {
                None => None,
                Some(i3) => if first_sep_from(s, i3 + 2) is Some {
                    None
                } else {
                    Some(
                        (
                            s.subrange(0, i1),
                            s.subrange(i1 + 2, i2),
                            s.subrange(i2 + 2, i3),
                            s.subrange(i3 + 2, s.len() as int),
                        ),
                    )
                },
            },
        },
    }
}

/// Spec: the resolution read from a bounds reply `x1, y1, x2, y2`:
/// width `x2 - x1` and height `y2 - y1`; malformed or inverted replies
/// are rejected.
pub open spec fn screen_bounds_result(s: Seq<char>) -> Result<(u32, u32), ProviderError> {
    match bounds_fields(s) {
        None => Err(ProviderError::MalformedBounds),
        Some((p1, p2, p3, p4)) => {
            let x1 = parse_u32_spec(trim_spec(p1));
            let y1 = parse_u32_spec(trim_spec(p2));
            let x2 = parse_u32_spec(trim_spec(p3));
            let y2 = parse_u32_spec(trim_spec(p4));
            if x1 is None || y1 is None || x2 is None || y2 is None {
                Err(ProviderError::MalformedBounds)
            } else if x1.unwrap() > x2.unwrap() || y1.unwrap() > y2.unwrap() {
                Err(ProviderError::InvertedBounds)
            } else {
                Ok(((x2.unwrap() - x1.unwrap()) as u32, (y2.unwrap() - y1.unwrap()) as u32))
            }
        },
    }
}

/// Read a screen resolution from the desktop bounds reply of the OS:
/// four comma-separated corner coordinates, upper corner not below the
/// lower one.
pub fn find_screen_resolution(output: &str) -> (r: Result<(u32, u32), ProviderError>)
    ensures
        r == screen_bounds_result(output@),
{
    let n = output.unicode_len();
    let i1 = match find_sep(output, 0) {
        None => {
            return Err(ProviderError::MalformedBounds);
        },
        Some(i) => i,
    };
    let i2 = match find_sep(output, i1 + 2) {
        None => {
            return Err(ProviderError::MalformedBounds);
        },
        Some(i) => i,
    };
    let i3 = match find_sep(output, i2 + 2) {
        None => {
            return Err(ProviderError::MalformedBounds);
        },
        Some(i) => i,
    };
    if find_sep(output, i3 + 2).is_some() {
        return Err(ProviderError::MalformedBounds);
    }
    let p1 = output.substring_char(0, i1);
    let p2 = output.substring_char(i1 + 2, i2);
    let p3 = output.substring_char(i2 + 2, i3);
    let p4 = output.substring_char(i3 + 2, n);
    let x1 = parse_u32(trim(p1));
    let y1 = parse_u32(trim(p2));
    let x2 = parse_u32(trim(p3));
    let y2 = parse_u32(trim(p4));
    match (x1, y1, x2, y2) {
        (Some(x1), Some(y1), Some(x2), Some(y2)) => {
            if x1 > x2 || y1 > y2 {
                Err(ProviderError::InvertedBounds)
            } else {
                Ok((x2 - x1, y2 - y1))
            }
        },
        _ => Err(ProviderError::MalformedBounds),
    }
}

/// Spec: the staging file for a slot, inside the wallpaper directory.
pub open spec fn slot_path_model(dir: Seq<char>, slot: int) -> Seq<char> {
    dir + "/wallpaper-"@ + (if slot == 0 {
        "0"@
    } else {
        "1"@
    }) + ".jpg"@
}

fn slot_path(dir: &str, slot: u64) -> (r: String)
    ensures
        r@ == slot_path_model(dir@, slot as int),
{
    let mut s = dir.to_owned();
    s.append("/wallpaper-");
    if slot == 0 {
        s.append("0");
    } else {
        s.append("1");
    }
    s.append(".jpg");
    s
}

/// Law: the two slots never share a staging file, so the stale path a
/// successful apply deletes is never the file the apply just wrote.
pub proof fn lemma_slot_paths_distinct(dir: Seq<char>)
    ensures
        slot_path_model(dir, 0) != slot_path_model(dir, 1),
{
    reveal_strlit("0");
    reveal_strlit("1");
    reveal_strlit("/wallpaper-");
    let p0 = slot_path_model(dir, 0);
    let p1 = slot_path_model(dir, 1);
    assert(p0[dir.len() as int + 11] == '0');
    assert(p1[dir.len() as int + 11] == '1');
}

/// Spec: the AppleScript that asks the Finder for the desktop bounds.
pub open spec fn bounds_script_model() -> Seq<char> {
    "tell application \"Finder\" to get bounds of window of desktop"@
}

/// The AppleScript the binary runs to probe the screen geometry.
pub fn screen_bounds_script() -> (r: &'static str)
    ensures
        r@ == bounds_script_model(),
{
    "tell application \"Finder\" to get bounds of window of desktop"
}

/// Spec: the AppleScript that points every desktop at a staged file.
pub open spec fn wallpaper_script_model(path: Seq<char>) -> Seq<char> {
    "tell application \"System Events\" to tell every desktop to set picture to \""@ + path
        + "\" as POSIX file"@
}

/// The AppleScript the binary runs to apply a staged wallpaper file.
pub fn set_wallpaper_script(path: &str) -> (r: String)
    ensures
        r@ == wallpaper_script_model(path@),
{
    let mut s = String::from_str(
        "tell application \"System Events\" to tell every desktop to set picture to \"",
    );
    s.append(path);
    s.append("\" as POSIX file");
    s
}

/// Local-file strategy provider: each apply stages the fetched image in
/// one of two slot files and deletes the other slot only after the OS
/// call succeeded, so the OS is never pointed at a file being
/// overwritten.
#[derive(Debug)]
pub struct MacosProvider {
    slots: SlotStore,
    wallpaper_directory: String,
}

impl MacosProvider {
    /// The directory holding the two staging slots.
    pub closed spec fn dir_spec(self) -> Seq<char> {
        self.wallpaper_directory@
    }

    /// The slot the next apply will write.
    pub closed spec fn next_slot_of(self) -> u64 {
        self.slots.next_slot_spec()
    }

    pub open spec fn wf(self) -> bool {
        self.next_slot_of() == 0 || self.next_slot_of() == 1
    }

    /// A fresh provider stages into the given directory, starting with
    /// slot 0.
    pub fn new(wallpaper_directory: String) -> (p: Self)
        ensures
            p.wf(),
            p.next_slot_of() == 0,
            p.dir_spec() == wallpaper_directory@,
    {
        MacosProvider { slots: SlotStore::new(), wallpaper_directory }
    }

    /// The staging file the next apply will write.
    pub fn next_wallpaper_path(&self) -> (r: String)
        requires
            self.wf(),
        ensures
            r@ == slot_path_model(self.dir_spec(), self.next_slot_of() as int),
    {
        slot_path(self.wallpaper_directory.as_str(), self.slots.next_slot())
    }

    /// The staging file of the other slot: the previously applied
    /// wallpaper, to delete once an apply has succeeded.
    pub fn prev_wallpaper_path(&self) -> (r: String)
        requires
            self.wf(),
        ensures
            r@ == slot_path_model(self.dir_spec(), 1 - self.next_slot_of() as int),
    {
        slot_path(self.wallpaper_directory.as_str(), self.slots.previous_slot())
    }
}

impl PlatformProvider for MacosProvider {
    /// The slot cursor names one of the two slots.
    open spec fn provider_wf(&self) -> bool {
        self.wf()
    }

    /// The geometry comes from the bounds probe; a missing reply cannot
    /// be read.
    open spec fn resolution_spec(&self, bounds_answer: Option<Seq<char>>) -> Result<
        (u32, u32),
        ProviderError,
    > {
        match bounds_answer {
            None => Err(ProviderError::MalformedBounds),
            Some(s) => screen_bounds_result(s),
        }
    }

    /// Every apply stages into the next slot and marks the other slot
    /// stale; the session variable plays no part on this platform.
    open spec fn wallpaper_spec(&self, session: Option<Seq<char>>, url: Seq<char>) -> Result<
        WallpaperActionModel,
        ProviderError,
    > {
        Ok(
            WallpaperActionModel::StageLocalFile {
                url,
                target_path: slot_path_model(self.dir_spec(), self.next_slot_of() as int),
                stale_path: slot_path_model(self.dir_spec(), 1 - self.next_slot_of() as int),
            },
        )
    }

    /// A successful apply flips the slot cursor; a failed one leaves it,
    /// so the failed slot is reused by the next attempt.
    open spec fn apply_outcome_rel(&self, ok: bool, post: &Self) -> bool {
        &&& post.dir_spec() == self.dir_spec()
        &&& (self.wf() ==> post.wf())
        &&& (self.wf() && ok ==> post.next_slot_of() == 1 - self.next_slot_of())
        &&& (!ok ==> post.next_slot_of() == self.next_slot_of())
    }

    fn find_screen_resolution(&self, bounds_answer: Option<&str>) -> (r: Result<
        (u32, u32),
        ProviderError,
    >) {
        match bounds_answer {
            None => Err(ProviderError::MalformedBounds),
            Some(s) => find_screen_resolution(s),
        }
    }

    fn set_desktop_wallpaper_url(&self, session: Option<&str>, url: &str) -> (r: Result<
        WallpaperAction,
        ProviderError,
    >) {
        Ok(
            WallpaperAction::StageLocalFile {
                url: String::from_str(url),
                target_path: self.next_wallpaper_path(),
                stale_path: self.prev_wallpaper_path(),
            },
        )
    }

    fn note_apply_outcome(&mut self, ok: bool) {
        self.slots.record_apply(ok);
    }
}

/// Spec: the launchd agent plist pointing at the installed executable.
pub open spec fn macos_agent_content(exec_path: Seq<char>) -> Seq<char> {
    "\n<?xml version=\"1.0\" encoding=\"UTF-8\"?>\n<!DOCTYPE plist PUBLIC \"-//Apple//DTD PLIST 1.0//EN\" \"http://www.apple.com/DTDs/PropertyList-1.0.dtd\">\n<plist version=\"1.0\">\n<dict>\n    <key>Label</key>\n    <string>org.menhera.potd-wallpaper</string>\n    <key>ProgramArguments</key>\n    <array>\n        <string>"@
        + exec_path
        + "</string>\n        <string>run</string>\n    </array>\n    <key>KeepAlive</key>\n    <true/>\n</dict>\n</plist>\n"@
}

/// Spec: the `launchctl load` invocation for the agent file.
pub open spec fn launchctl_model(agent_path: Seq<char>) -> CommandModel {
    CommandModel { program: "launchctl"@, args: seq!["load"@, agent_path] }
}

/// Spec: the whole macOS installation plan for a home directory: copy
/// the executable into the wallpaper directory, write a launchd agent
/// plist, then load it.
pub open spec fn macos_install_model(home: Seq<char>) -> InstallPlanModel {
    InstallPlanModel {
        directories: seq![
            joined_path(home, "Library/potd-wallpaper"@),
            joined_path(home, "Library/LaunchAgents"@),
        ],
        binary_path: joined_path(home, "Library/potd-wallpaper/potd-wallpaper"@),
        service_path: joined_path(home, "Library/LaunchAgents/org.menhera.potd-wallpaper.plist"@),
        service_content: macos_agent_content(
            joined_path(home, "Library/potd-wallpaper/potd-wallpaper"@),
        ),
        commands: seq![
            launchctl_model(joined_path(home, "Library/LaunchAgents/org.menhera.potd-wallpaper.plist"@)),
        ],
    }
}

/// Installs the service as a launchd user agent.
#[derive(Debug)]
pub struct MacosInstaller {}

impl PlatformInstaller for MacosInstaller {
    open spec fn install_plan_spec(&self, home: Seq<char>) -> InstallPlanModel {
        macos_install_model(home)
    }

    fn install(&self, home: &str) -> (p: InstallPlan) {
        let binary_path = get_home_relative_path(home, "Library/potd-wallpaper/potd-wallpaper");
        let service_path = get_home_relative_path(
            home,
            "Library/LaunchAgents/org.menhera.potd-wallpaper.plist",
        );
        let mut service_content = String::from_str(
            "\n<?xml version=\"1.0\" encoding=\"UTF-8\"?>\n<!DOCTYPE plist PUBLIC \"-//Apple//DTD PLIST 1.0//EN\" \"http://www.apple.com/DTDs/PropertyList-1.0.dtd\">\n<plist version=\"1.0\">\n<dict>\n    <key>Label</key>\n    <string>org.menhera.potd-wallpaper</string>\n    <key>ProgramArguments</key>\n    <array>\n        <string>",
        );
        service_content.append(binary_path.as_str());
        service_content.append(
            "</string>\n        <string>run</string>\n    </array>\n    <key>KeepAlive</key>\n    <true/>\n</dict>\n</plist>\n",
        );
        let mut directories: Vec<String> = Vec::new();
        directories.push(get_home_relative_path(home, "Library/potd-wallpaper"));
        directories.push(get_home_relative_path(home, "Library/LaunchAgents"));
        let mut args: Vec<String> = Vec::new();
        args.push(String::from_str("load"));
        args.push(service_path.clone());
        let load_cmd = SystemCommand { program: String::from_str("launchctl"), args };
        proof {
            assert(load_cmd@.args =~~= launchctl_model(service_path@).args);
            assert(load_cmd@ =~~= launchctl_model(service_path@));
        }
        let mut commands: Vec<SystemCommand> = Vec::new();
        commands.push(load_cmd);
        let p = InstallPlan {
            directories,
            binary_path,
            service_path,
            service_content,
            commands,
        };
        proof {
            assert(p@.directories =~~= macos_install_model(home@).directories);
            assert(p@.commands =~~= macos_install_model(home@).commands);
            assert(p@ =~~= macos_install_model(home@));
        }
        p
    }
}

} // verus!
