//! Launching at login on Linux: XDG autostart entries and systemd units.
//!
//! An operation is a walk of steps. A step says what to do next on the host; the method that
//! goes with it takes the host's answer and gives the next step, until one says how the
//! operation ended.

use vstd::prelude::*;
use vstd::utf8::*;

use crate::error;
use crate::error::{IoError, IoErrorKind, LaunchError};
use crate::host;
use crate::host::CommandOutput;
use crate::text;

verus! {

/// How an application is registered on Linux.
#[derive(Clone, Copy, Debug, PartialEq, Eq, Structural)]
pub enum LinuxLaunchMode {
    /// A desktop entry in the user's autostart directory.
    XdgAutostart,
    /// A systemd unit of the user.
    SystemdUser,
    /// A systemd unit of the system.
    SystemdSystem,
}

/// An application to be launched at login.
#[derive(Debug)]
pub struct AutoLaunch {
    /// The application's name.
    pub app_name: String,
    /// The path of the application.
    pub app_path: String,
    /// How it is registered.
    pub launch_mode: LinuxLaunchMode,
    /// What is passed to it when it starts.
    pub args: Vec<String>,
}

/// A registration file: where it stands, the directory that holds it, and its text.
#[derive(Debug)]
pub struct Registration {
    pub file: Vec<u8>,
    pub dir: Vec<u8>,
    pub data: String,
}

/// What comes next while a registration is being made.
#[derive(Debug)]
pub enum EnableStep {
    /// Ask whether the file exists; then [`AutoLaunch::enable_file_checked`].
    CheckFile(Registration),
    /// Read the file; then [`AutoLaunch::enable_file_read`].
    ReadFile(Registration),
    /// Ask whether the directory exists; then [`AutoLaunch::enable_dir_checked`].
    CheckDir(Registration),
    /// Create the directory and those above it; then [`AutoLaunch::enable_dir_created`].
    CreateDir(Registration),
    /// Replace the file, or create it, with its text; then [`AutoLaunch::enable_file_written`].
    WriteFile(Registration),
    /// Run `systemctl` with these arguments; then, whatever came of it,
    /// [`AutoLaunch::enable_daemon_reloaded`].
    ReloadDaemon(Vec<String>),
    /// Run `systemctl` with these arguments; then [`AutoLaunch::enable_unit_enabled`].
    EnableUnit(Vec<String>),
    /// Nothing is left to do.
    Finished(Result<(), LaunchError>),
}

/// What comes next while a registration is being removed.
#[derive(Debug)]
pub enum DisableStep {
    /// Run `systemctl` with these arguments; then [`AutoLaunch::disable_unit_disabled`].
    DisableUnit(Vec<String>),
    /// Ask whether the file exists; then [`AutoLaunch::disable_file_checked`].
    CheckFile(Vec<u8>),
    /// Remove the file; then [`AutoLaunch::disable_file_removed`].
    RemoveFile(Vec<u8>),
    /// Run `systemctl` with these arguments; then, whatever came of it,
    /// [`AutoLaunch::disable_daemon_reloaded`].
    ReloadDaemon(Vec<String>),
    /// Nothing is left to do.
    Finished(Result<(), LaunchError>),
}

/// What comes next while it is being found out whether the registration is this library's.
#[derive(Debug)]
pub enum OwnedStep {
    /// Ask whether the file exists; then [`AutoLaunch::owned_file_checked`].
    CheckFile(Vec<u8>),
    /// Read the file; then [`AutoLaunch::owned_file_read`].
    ReadFile(Vec<u8>),
    /// The answer.
    Finished(Result<bool, LaunchError>),
}

/// What comes next while it is being found out whether the application is launched at login.
#[derive(Debug)]
pub enum EnabledStep {
    /// Ask whether the file exists; then [`AutoLaunch::enabled_file_checked`].
    CheckFile(Vec<u8>),
    /// Run `systemctl` with these arguments; then [`AutoLaunch::enabled_unit_queried`].
    QueryUnit(Vec<String>),
    /// The answer.
    Finished(Result<bool, LaunchError>),
}

/// What comes next while the registered path is being looked up.
#[derive(Debug)]
pub enum PathStep {
    /// Ask whether the file exists; then [`AutoLaunch::path_file_checked`].
    CheckFile(Vec<u8>),
    /// Read the file; then [`AutoLaunch::path_file_read`].
    ReadFile(Vec<u8>),
    /// The answer.
    Finished(Result<Option<String>, LaunchError>),
}

/// The line that a registration starts with: a comment that carries the marker.
pub open spec fn marker_line(marker: Seq<char>) -> Seq<char> {
    "# "@ + marker + ". Manual edits will be overwritten."@
}

/// The lines of a desktop entry.
pub open spec fn xdg_autostart_lines(
    app_name: Seq<char>,
    app_path: Seq<char>,
    args: Seq<Seq<char>>,
    marker: Seq<char>,
) -> Seq<Seq<char>> {
    seq![
        marker_line(marker),
        "[Desktop Entry]"@,
        "Type=Application"@,
        "Version=1.0"@,
        "Name="@ + app_name,
        "Comment="@ + app_name + " startup script"@,
        "Exec="@ + app_path + " "@ + text::joined(args, " "@),
        "StartupNotify=false"@,
        "Terminal=false"@,
    ]
}

/// The text of a desktop entry.
pub open spec fn xdg_autostart_data(
    app_name: Seq<char>,
    app_path: Seq<char>,
    args: Seq<Seq<char>>,
    marker: Seq<char>,
) -> Seq<char> {
    text::joined(xdg_autostart_lines(app_name, app_path, args, marker), "\n"@)
}

/// The target that a unit is wanted by, and starts after.
pub open spec fn wanted_by(mode: LinuxLaunchMode) -> Seq<char> {
    if mode == LinuxLaunchMode::SystemdSystem {
        "multi-user.target"@
    } else {
        "default.target"@
    }
}

/// The command line of a unit: the path, then each argument behind a space.
pub open spec fn exec_start(app_path: Seq<char>, args: Seq<Seq<char>>) -> Seq<char> {
    if args.len() == 0 {
        app_path
    } else {
        app_path + " "@ + text::joined(args, " "@)
    }
}

/// The lines of a systemd unit.
pub open spec fn systemd_service_lines(
    app_name: Seq<char>,
    app_path: Seq<char>,
    args: Seq<Seq<char>>,
    mode: LinuxLaunchMode,
    marker: Seq<char>,
) -> Seq<Seq<char>> {
    seq![
        marker_line(marker),
        "[Unit]"@,
        "Description="@ + app_name,
        "After="@ + wanted_by(mode),
        ""@,
        "[Service]"@,
        "Type=simple"@,
        "ExecStart="@ + exec_start(app_path, args),
        "Restart=on-failure"@,
        "RestartSec=10"@,
        ""@,
        "[Install]"@,
        "WantedBy="@ + wanted_by(mode),
    ]
}

/// The text of a systemd unit.
pub open spec fn systemd_service_data(
    app_name: Seq<char>,
    app_path: Seq<char>,
    args: Seq<Seq<char>>,
    mode: LinuxLaunchMode,
    marker: Seq<char>,
) -> Seq<char> {
    text::joined(systemd_service_lines(app_name, app_path, args, mode, marker), "\n"@)
}

/// Whether a line carries the marker: after white space, `# ` and the marker.
pub open spec fn managed_line(line: Seq<char>, marker: Seq<char>) -> bool {
    ("# "@ + marker).is_prefix_of(text::trim_start(line))
}

/// Whether some line of the content carries the marker.
pub open spec fn managed(content: Seq<char>, marker: Seq<char>) -> bool {
    exists|i: int|
        0 <= i < text::lines(content).len() && managed_line(#[trigger] text::lines(content)[i], marker)
}

/// Writes the text of a desktop entry.
pub fn build_xdg_autostart_data(
    app_name: &str,
    app_path: &str,
    args: &[String],
    managed_marker: &str,
) -> (data: String)
    ensures
        data@ == xdg_autostart_data(app_name@, app_path@, text::texts(args@), managed_marker@),
{
    let mut lines: Vec<String> = Vec::new();
    lines.push("# ".to_owned().concat(managed_marker).concat(". Manual edits will be overwritten."));
    lines.push("[Desktop Entry]".to_owned());
    lines.push("Type=Application".to_owned());
    lines.push("Version=1.0".to_owned());
    lines.push("Name=".to_owned().concat(app_name));
    lines.push("Comment=".to_owned().concat(app_name).concat(" startup script"));
    let args_text = text::join(args, " ");
    lines.push("Exec=".to_owned().concat(app_path).concat(" ").concat(args_text.as_str()));
    lines.push("StartupNotify=false".to_owned());
    lines.push("Terminal=false".to_owned());
    assert(text::texts(lines@) =~= xdg_autostart_lines(
        app_name@,
        app_path@,
        text::texts(args@),
        managed_marker@,
    ));
    text::join(lines.as_slice(), "\n")
}

/// Writes the text of a systemd unit.
pub fn build_systemd_service_data(
    app_name: &str,
    app_path: &str,
    args: &[String],
    mode: LinuxLaunchMode,
    managed_marker: &str,
) -> (data: String)
    ensures
        data@ == systemd_service_data(
            app_name@,
            app_path@,
            text::texts(args@),
            mode,
            managed_marker@,
        ),
{
    let target = if mode == LinuxLaunchMode::SystemdSystem {
        "multi-user.target"
    } else {
        "default.target"
    };
    let command = if args.len() == 0 {
        app_path.to_owned()
    } else {
        let args_text = text::join(args, " ");
        app_path.to_owned().concat(" ").concat(args_text.as_str())
    };
    let mut lines: Vec<String> = Vec::new();
    lines.push("# ".to_owned().concat(managed_marker).concat(". Manual edits will be overwritten."));
    lines.push("[Unit]".to_owned());
    lines.push("Description=".to_owned().concat(app_name));
    lines.push("After=".to_owned().concat(target));
    lines.push("".to_owned());
    lines.push("[Service]".to_owned());
    lines.push("Type=simple".to_owned());
    lines.push("ExecStart=".to_owned().concat(command.as_str()));
    lines.push("Restart=on-failure".to_owned());
    lines.push("RestartSec=10".to_owned());
    lines.push("".to_owned());
    lines.push("[Install]".to_owned());
    lines.push("WantedBy=".to_owned().concat(target));
    assert(text::texts(lines@) =~= systemd_service_lines(
        app_name@,
        app_path@,
        text::texts(args@),
        mode,
        managed_marker@,
    ));
    text::join(lines.as_slice(), "\n")
}

/// Tells whether some line of the content carries the marker, which further text may follow.
pub fn content_is_managed(content: &str, managed_marker: &str) -> (r: bool)
    ensures
        r == managed(content@, managed_marker@),
{
    let lead = "# ".to_owned().concat(managed_marker);
    let lines = text::lines_of(content);
    let mut i: usize = 0;
    while i < lines.len()
        invariant
            i <= lines.len(),
            lead@ == "# "@ + managed_marker@,
            text::texts(lines@) == text::lines(content@),
            forall|j: int|
                0 <= j < i ==> !managed_line(
                    #[trigger] text::lines(content@)[j],
                    managed_marker@,
                ),
        decreases lines.len() - i,
    {
        assert(text::texts(lines@)[i as int] == lines@[i as int]@);
        let line = text::without_leading_space(lines[i].as_str());
        if text::has_prefix(line, lead.as_str()) {
            assert(managed_line(text::lines(content@)[i as int], managed_marker@));
            return true;
        }
        i += 1;
    }
    false
}

/// The directory of the user's autostart entries.
pub open spec fn xdg_autostart_dir(home: Option<Seq<u8>>) -> Option<Seq<u8>> {
    host::below_home(home, seq![".config"@, "autostart"@])
}

/// The directory of the systemd units.
pub open spec fn systemd_dir(mode: LinuxLaunchMode, home: Option<Seq<u8>>) -> Option<Seq<u8>> {
    if mode == LinuxLaunchMode::SystemdSystem {
        Some(encode_utf8("/etc/systemd/system"@))
    } else {
        host::below_home(home, seq![".config"@, "systemd"@, "user"@])
    }
}

/// The directory that holds the registrations of a mode.
pub open spec fn registration_dir(mode: LinuxLaunchMode, home: Option<Seq<u8>>) -> Option<Seq<u8>> {
    if mode == LinuxLaunchMode::XdgAutostart {
        xdg_autostart_dir(home)
    } else {
        systemd_dir(mode, home)
    }
}

/// The path of `name` in a directory, where the directory is known.
pub open spec fn file_in(dir: Option<Seq<u8>>, name: Seq<char>) -> Option<Seq<u8>> {
    match dir {
        Some(d) => Some(host::path_joined(d, encode_utf8(name))),
        None => None,
    }
}

/// The arguments of a call of `systemctl`: the user's manager or the system's, the verb, and the
/// unit where there is one.
pub open spec fn systemctl_args(mode: LinuxLaunchMode, rest: Seq<Seq<char>>) -> Seq<Seq<char>> {
    if mode == LinuxLaunchMode::SystemdUser {
        seq!["--user"@] + rest
    } else {
        rest
    }
}

/// How a call of `systemctl enable` is judged.
pub open spec fn enable_verdict(
    success: bool,
    stderr: Seq<char>,
    r: Result<(), LaunchError>,
) -> bool {
    match r {
        Ok(()) => success,
        Err(e) => !success && error::raised(
            e,
            IoErrorKind::Other,
            "Failed to enable systemd service: "@ + stderr,
        ),
    }
}

/// Whether the message of a failed `systemctl disable` says that there was nothing to disable.
pub open spec fn nothing_to_disable(stderr: Seq<char>) -> bool {
    text::occurs(stderr, "No such file or directory"@) || text::occurs(stderr, "not loaded"@)
}

/// How a call of `systemctl disable` is judged.
pub open spec fn disable_verdict(
    success: bool,
    stderr: Seq<char>,
    r: Result<(), LaunchError>,
) -> bool {
    match r {
        Ok(()) => success || nothing_to_disable(stderr),
        Err(e) => !success && !nothing_to_disable(stderr) && error::raised(
            e,
            IoErrorKind::Other,
            "Failed to disable systemd service: "@ + stderr,
        ),
    }
}

/// The key whose line names the command in a registration file.
pub open spec fn command_key(mode: LinuxLaunchMode) -> Seq<char> {
    if mode == LinuxLaunchMode::XdgAutostart {
        "Exec="@
    } else {
        "ExecStart="@
    }
}

/// The first word behind the key, in the first line that has the key in front of it.
pub open spec fn command_path(lines: Seq<Seq<char>>, key: Seq<char>) -> Option<Seq<char>>
    decreases lines.len(),
{
    if lines.len() == 0 {
        None
    } else {
        let line = text::trim(lines[0]);
        if key.is_prefix_of(line) {
            text::first_word(line.skip(key.len() as int))
        } else {
            command_path(lines.drop_first(), key)
        }
    }
}

/// Judges a call of `systemctl enable` by its success and by what it wrote to its standard error.
pub fn systemctl_enable_result(success: bool, stderr: &str) -> (r: Result<(), LaunchError>)
    ensures
        enable_verdict(success, stderr@, r),
{
    if success {
        Ok(())
    } else {
        let message = "Failed to enable systemd service: ".to_owned().concat(stderr);
        Err(error::raise(IoErrorKind::Other, message))
    }
}

/// Judges a call of `systemctl disable` by its success and by what it wrote to its standard
/// error. That there was nothing to disable is no failure.
pub fn systemctl_disable_result(success: bool, stderr: &str) -> (r: Result<(), LaunchError>)
    ensures
        disable_verdict(success, stderr@, r),
{
    if success || text::contains(stderr, "No such file or directory") || text::contains(
        stderr,
        "not loaded",
    ) {
        Ok(())
    } else {
        let message = "Failed to disable systemd service: ".to_owned().concat(stderr);
        Err(error::raise(IoErrorKind::Other, message))
    }
}

/// Finds the path of the command in the content of a registration file.
pub fn registered_app_path(content: &str, mode: LinuxLaunchMode) -> (r: Option<String>)
    ensures
        match r {
            Some(path) => command_path(text::lines(content@), command_key(mode)) == Some(path@),
            None => command_path(text::lines(content@), command_key(mode)) is None,
        },
{
    let key = if mode == LinuxLaunchMode::XdgAutostart { "Exec=" } else { "ExecStart=" };
    let lines = text::lines_of(content);
    let ghost all = text::lines(content@);
    let mut i: usize = 0;
    assert(all.skip(0) =~= all);
    while i < lines.len()
        invariant
            i <= lines.len(),
            key@ == command_key(mode),
            all == text::lines(content@),
            text::texts(lines@) == all,
            command_path(all, key@) == command_path(all.skip(i as int), key@),
        decreases lines.len() - i,
    {
        assert(all[i as int] == lines@[i as int]@);
        assert(all.skip(i as int).drop_first() =~= all.skip(i + 1));
        let line = text::trimmed(lines[i].as_str());
        match text::after_prefix(line, key) {
            Some(rest) => {
                return text::first_word_of(rest);
            },
            None => {},
        }
        i += 1;
    }
    None
}

/// Finds the directory of the user's autostart entries.
pub fn get_xdg_autostart_dir(home: &Option<Vec<u8>>) -> (r: Result<Vec<u8>, LaunchError>)
    ensures
        host::located(r, xdg_autostart_dir(host::bytes_of(*home))),
{
    let names: [&str; 2] = [".config", "autostart"];
    assert(names@.map_values(|s: &str| s@) =~= seq![".config"@, "autostart"@]);
    host::descend_home(home, names.as_slice())
}

/// Finds the directory of the systemd units.
pub fn get_systemd_dir(mode: LinuxLaunchMode, home: &Option<Vec<u8>>) -> (r: Result<
    Vec<u8>,
    LaunchError,
>)
    requires
        mode != LinuxLaunchMode::XdgAutostart,
    ensures
        host::located(r, systemd_dir(mode, host::bytes_of(*home))),
{
    if mode == LinuxLaunchMode::SystemdSystem {
        Ok("/etc/systemd/system".as_bytes_vec())
    } else {
        let names: [&str; 3] = [".config", "systemd", "user"];
        assert(names@.map_values(|s: &str| s@) =~= seq![".config"@, "systemd"@, "user"@]);
        host::descend_home(home, names.as_slice())
    }
}

impl AutoLaunch {
    /// What the first line of a file written for this application says of it.
    pub open spec fn marker(&self) -> Seq<char> {
        "Managed by "@ + self.app_name@
    }

    /// The lines of this application's registration.
    pub open spec fn registration_lines(&self) -> Seq<Seq<char>> {
        if self.launch_mode == LinuxLaunchMode::XdgAutostart {
            xdg_autostart_lines(
                self.app_name@,
                self.app_path@,
                text::texts(self.args@),
                self.marker(),
            )
        } else {
            systemd_service_lines(
                self.app_name@,
                self.app_path@,
                text::texts(self.args@),
                self.launch_mode,
                self.marker(),
            )
        }
    }

    /// The text of this application's registration.
    pub open spec fn registration_text(&self) -> Seq<char> {
        text::joined(self.registration_lines(), "\n"@)
    }

    /// The name of this application's registration file.
    pub open spec fn registration_name(&self) -> Seq<char> {
        if self.launch_mode == LinuxLaunchMode::XdgAutostart {
            self.app_name@ + ".desktop"@
        } else {
            self.app_name@ + ".service"@
        }
    }

    /// The path of this application's registration file.
    pub open spec fn registration_file(&self, home: Option<Seq<u8>>) -> Option<Seq<u8>> {
        file_in(registration_dir(self.launch_mode, home), self.registration_name())
    }

    /// Whether `reg` is this application's registration.
    pub open spec fn registers(&self, reg: Registration, home: Option<Seq<u8>>) -> bool {
        &&& registration_dir(self.launch_mode, home) == Some(reg.dir@)
        &&& self.registration_file(home) == Some(reg.file@)
        &&& reg.data@ == self.registration_text()
    }

    /// How making the registration starts: with its file, or with its directory where whatever
    /// stands there is to be replaced.
    pub open spec fn enable_starts(
        &self,
        force: bool,
        home: Option<Seq<u8>>,
        step: EnableStep,
    ) -> bool {
        match step {
            EnableStep::CheckFile(reg) => !force && self.registers(reg, home),
            EnableStep::CheckDir(reg) => force && self.registers(reg, home),
            EnableStep::Finished(Err(e)) => self.registration_file(home) is None
                && error::home_not_found(e),
            _ => false,
        }
    }

    /// Describes an application to be launched at login.
    pub fn new(app_name: &str, app_path: &str, launch_mode: LinuxLaunchMode, args: &[&str]) -> (r:
        AutoLaunch)
        ensures
            r.app_name@ == app_name@,
            r.app_path@ == app_path@,
            r.launch_mode == launch_mode,
            text::texts(r.args@) == args@.map_values(|s: &str| s@),
    {
        AutoLaunch {
            app_name: app_name.to_owned(),
            app_path: app_path.to_owned(),
            launch_mode,
            args: text::owned_copies(args),
        }
    }

    /// What the first line of a file written for this application says of it.
    pub fn managed_marker(&self) -> (r: String)
        ensures
            r@ == self.marker(),
    {
        "Managed by ".to_owned().concat(self.app_name.as_str())
    }

    /// The path of the desktop entry.
    pub fn get_xdg_desktop_file(&self, home: &Option<Vec<u8>>) -> (r: Result<Vec<u8>, LaunchError>)
        ensures
            host::located(
                r,
                file_in(xdg_autostart_dir(host::bytes_of(*home)), self.app_name@ + ".desktop"@),
            ),
    {
        match get_xdg_autostart_dir(home) {
            Ok(dir) => {
                let name = self.app_name.clone().concat(".desktop");
                Ok(host::join_path(dir.as_slice(), name.as_str()))
            },
            Err(e) => Err(e),
        }
    }

    /// The path of the systemd unit.
    pub fn get_systemd_service_file(&self, home: &Option<Vec<u8>>) -> (r: Result<
        Vec<u8>,
        LaunchError,
    >)
        requires
            self.launch_mode != LinuxLaunchMode::XdgAutostart,
        ensures
            host::located(
                r,
                file_in(
                    systemd_dir(self.launch_mode, host::bytes_of(*home)),
                    self.app_name@ + ".service"@,
                ),
            ),
    {
        match get_systemd_dir(self.launch_mode, home) {
            Ok(dir) => {
                let name = self.app_name.clone().concat(".service");
                Ok(host::join_path(dir.as_slice(), name.as_str()))
            },
            Err(e) => Err(e),
        }
    }

    /// The path of the registration file of this application's mode.
    fn get_registration_file(&self, home: &Option<Vec<u8>>) -> (r: Result<Vec<u8>, LaunchError>)
        ensures
            host::located(r, self.registration_file(host::bytes_of(*home))),
    {
        match self.launch_mode {
            LinuxLaunchMode::XdgAutostart => self.get_xdg_desktop_file(home),
            LinuxLaunchMode::SystemdUser | LinuxLaunchMode::SystemdSystem => {
                self.get_systemd_service_file(home)
            },
        }
    }

    /// Registers the application.
    ///
    /// An existing registration that this library did not create is not overwritten;
    /// [`Self::enable_force`] takes it over.
    pub fn enable(&self) -> (step: EnableStep)
        ensures
            exists|home: Option<Seq<u8>>|
                host::found_home(home) && #[trigger] self.enable_starts(false, home, step),
    {
        self.enable_with_force(false)
    }

    /// Registers the application, whatever stands in the registration's place.
    pub fn enable_force(&self) -> (step: EnableStep)
        ensures
            exists|home: Option<Seq<u8>>|
                host::found_home(home) && #[trigger] self.enable_starts(true, home, step),
    {
        self.enable_with_force(true)
    }

    /// Registers the application below the home directory of the current user.
    pub fn enable_with_force(&self, force: bool) -> (step: EnableStep)
        ensures
            exists|home: Option<Seq<u8>>|
                host::found_home(home) && #[trigger] self.enable_starts(force, home, step),
    {
        let home = host::current_home();
        let step = self.enable_below(&home, force);
        assert(self.enable_starts(force, host::bytes_of(home), step));
        step
    }

    /// Registers the application below the home directory given.
    pub fn enable_below(&self, home: &Option<Vec<u8>>, force: bool) -> (step: EnableStep)
        ensures
            self.enable_starts(force, host::bytes_of(*home), step),
    {
        match self.launch_mode {
            LinuxLaunchMode::XdgAutostart => self.enable_xdg_autostart(home, force),
            LinuxLaunchMode::SystemdUser | LinuxLaunchMode::SystemdSystem => {
                self.enable_systemd(home, force)
            },
        }
    }

    /// Registers the application by a desktop entry.
    pub fn enable_xdg_autostart(&self, home: &Option<Vec<u8>>, force: bool) -> (step: EnableStep)
        requires
            self.launch_mode == LinuxLaunchMode::XdgAutostart,
        ensures
            self.enable_starts(force, host::bytes_of(*home), step),
    {
        let file = match self.get_xdg_desktop_file(home) {
            Ok(file) => file,
            Err(e) => {
                return EnableStep::Finished(Err(e));
            },
        };
        let dir = match get_xdg_autostart_dir(home) {
            Ok(dir) => dir,
            Err(e) => {
                return EnableStep::Finished(Err(e));
            },
        };
        let marker = self.managed_marker();
        let data = build_xdg_autostart_data(
            self.app_name.as_str(),
            self.app_path.as_str(),
            self.args.as_slice(),
            marker.as_str(),
        );
        let reg = Registration { file, dir, data };
        if force {
            EnableStep::CheckDir(reg)
        } else {
            EnableStep::CheckFile(reg)
        }
    }

    /// Registers the application by a systemd unit.
    pub fn enable_systemd(&self, home: &Option<Vec<u8>>, force: bool) -> (step: EnableStep)
        requires
            self.launch_mode != LinuxLaunchMode::XdgAutostart,
        ensures
            self.enable_starts(force, host::bytes_of(*home), step),
    {
        let file = match self.get_systemd_service_file(home) {
            Ok(file) => file,
            Err(e) => {
                return EnableStep::Finished(Err(e));
            },
        };
        let dir = match get_systemd_dir(self.launch_mode, home) {
            Ok(dir) => dir,
            Err(e) => {
                return EnableStep::Finished(Err(e));
            },
        };
        let marker = self.managed_marker();
        let data = build_systemd_service_data(
            self.app_name.as_str(),
            self.app_path.as_str(),
            self.args.as_slice(),
            self.launch_mode,
            marker.as_str(),
        );
        let reg = Registration { file, dir, data };
        if force {
            EnableStep::CheckDir(reg)
        } else {
            EnableStep::CheckFile(reg)
        }
    }

    /// What follows the answer to whether the registration file exists.
    pub open spec fn after_file_checked(reg: Registration, exists: bool) -> EnableStep {
        if exists {
            EnableStep::ReadFile(reg)
        } else {
            EnableStep::CheckDir(reg)
        }
    }

    /// What follows the reading of an existing registration file.
    pub open spec fn after_file_read(
        &self,
        reg: Registration,
        reply: Result<String, IoError>,
    ) -> EnableStep {
        match reply {
            Ok(content) => if managed(content@, self.marker()) {
                EnableStep::CheckDir(reg)
            } else {
                EnableStep::Finished(Err(LaunchError::RegistrationNotOwned(reg.file)))
            },
            Err(e) => EnableStep::Finished(Err(LaunchError::Io(e))),
        }
    }

    /// What follows the answer to whether the directory exists.
    pub open spec fn after_dir_checked(reg: Registration, exists: bool) -> EnableStep {
        if exists {
            EnableStep::WriteFile(reg)
        } else {
            EnableStep::CreateDir(reg)
        }
    }

    /// What follows the creation of the directory. That it exists already is no failure.
    pub open spec fn after_dir_created(reg: Registration, reply: Result<(), IoError>) -> EnableStep {
        match reply {
            Ok(()) => EnableStep::WriteFile(reg),
            Err(e) => if e.kind == IoErrorKind::AlreadyExists {
                EnableStep::WriteFile(reg)
            } else {
                EnableStep::Finished(Err(LaunchError::Io(e)))
            },
        }
    }

    /// Whether `step` follows the writing of the registration file.
    pub open spec fn after_file_written(
        &self,
        reply: Result<(), IoError>,
        step: EnableStep,
    ) -> bool {
        match reply {
            Ok(()) => if self.launch_mode == LinuxLaunchMode::XdgAutostart {
                step == EnableStep::Finished(Ok(()))
            } else {
                step matches EnableStep::ReloadDaemon(args) && text::texts(args@)
                    == systemctl_args(self.launch_mode, seq!["daemon-reload"@])
            },
            Err(e) => step == EnableStep::Finished(Err(LaunchError::Io(e))),
        }
    }

    /// The name of this application's systemd unit.
    pub open spec fn unit(&self) -> Seq<char> {
        self.app_name@ + ".service"@
    }

    /// Whether `step` follows the call of `systemctl daemon-reload`.
    pub open spec fn after_daemon_reloaded(&self, step: EnableStep) -> bool {
        step matches EnableStep::EnableUnit(args) && text::texts(args@) == systemctl_args(
            self.launch_mode,
            seq!["enable"@, self.unit()],
        )
    }

    /// Whether `step` follows the call of `systemctl enable`.
    pub open spec fn after_unit_enabled(
        reply: Result<CommandOutput, IoError>,
        step: EnableStep,
    ) -> bool {
        match reply {
            Ok(output) => step matches EnableStep::Finished(r) && enable_verdict(
                output.success,
                host::utf8_lossy(output.stderr@),
                r,
            ),
            Err(e) => step == EnableStep::Finished(Err(LaunchError::Io(e))),
        }
    }

    /// Goes on from [`EnableStep::CheckFile`].
    pub fn enable_file_checked(&self, reg: Registration, exists: bool) -> (step: EnableStep)
        ensures
            step == Self::after_file_checked(reg, exists),
    {
        if exists {
            EnableStep::ReadFile(reg)
        } else {
            EnableStep::CheckDir(reg)
        }
    }

    /// Goes on from [`EnableStep::ReadFile`].
    pub fn enable_file_read(&self, reg: Registration, reply: Result<String, IoError>) -> (step:
        EnableStep)
        ensures
            step == self.after_file_read(reg, reply),
    {
        match reply {
            Ok(content) => {
                let marker = self.managed_marker();
                if content_is_managed(content.as_str(), marker.as_str()) {
                    EnableStep::CheckDir(reg)
                } else {
                    EnableStep::Finished(Err(LaunchError::RegistrationNotOwned(reg.file)))
                }
            },
            Err(e) => EnableStep::Finished(Err(LaunchError::Io(e))),
        }
    }

    /// Goes on from [`EnableStep::CheckDir`].
    pub fn enable_dir_checked(&self, reg: Registration, exists: bool) -> (step: EnableStep)
        ensures
            step == Self::after_dir_checked(reg, exists),
    {
        if exists {
            EnableStep::WriteFile(reg)
        } else {
            EnableStep::CreateDir(reg)
        }
    }

    /// Goes on from [`EnableStep::CreateDir`].
    pub fn enable_dir_created(&self, reg: Registration, reply: Result<(), IoError>) -> (step:
        EnableStep)
        ensures
            step == Self::after_dir_created(reg, reply),
    {
        match reply {
            Ok(()) => EnableStep::WriteFile(reg),
            Err(e) => {
                if e.kind == IoErrorKind::AlreadyExists {
                    EnableStep::WriteFile(reg)
                } else {
                    EnableStep::Finished(Err(LaunchError::Io(e)))
                }
            },
        }
    }

    /// Goes on from [`EnableStep::WriteFile`].
    pub fn enable_file_written(&self, reply: Result<(), IoError>) -> (step: EnableStep)
        ensures
            self.after_file_written(reply, step),
    {
        match reply {
            Ok(()) => match self.launch_mode {
                LinuxLaunchMode::XdgAutostart => EnableStep::Finished(Ok(())),
                LinuxLaunchMode::SystemdUser | LinuxLaunchMode::SystemdSystem => {
                    EnableStep::ReloadDaemon(self.daemon_reload())
                },
            },
            Err(e) => EnableStep::Finished(Err(LaunchError::Io(e))),
        }
    }

    /// Goes on from [`EnableStep::ReloadDaemon`].
    pub fn enable_daemon_reloaded(&self) -> (step: EnableStep)
        requires
            self.launch_mode != LinuxLaunchMode::XdgAutostart,
        ensures
            self.after_daemon_reloaded(step),
    {
        EnableStep::EnableUnit(self.systemctl_enable())
    }

    /// Goes on from [`EnableStep::EnableUnit`].
    pub fn enable_unit_enabled(&self, reply: Result<CommandOutput, IoError>) -> (step: EnableStep)
        ensures
            Self::after_unit_enabled(reply, step),
    {
        match reply {
            Ok(output) => {
                let stderr = host::text_from_utf8_lossy(output.stderr.as_slice());
                EnableStep::Finished(systemctl_enable_result(output.success, stderr.as_str()))
            },
            Err(e) => EnableStep::Finished(Err(LaunchError::Io(e))),
        }
    }

    /// The arguments of `systemctl` for what `rest` says.
    fn systemctl(&self, rest: &[&str]) -> (args: Vec<String>)
        requires
            self.launch_mode != LinuxLaunchMode::XdgAutostart,
        ensures
            text::texts(args@) == systemctl_args(
                self.launch_mode,
                rest@.map_values(|s: &str| s@),
            ),
    {
        let mut args: Vec<String> = Vec::new();
        if self.launch_mode == LinuxLaunchMode::SystemdUser {
            args.push("--user".to_owned());
        }
        let ghost lead = text::texts(args@);
        assert(lead + rest@.map_values(|s: &str| s@) =~= systemctl_args(
            self.launch_mode,
            rest@.map_values(|s: &str| s@),
        ));
        let mut i: usize = 0;
        assert(lead + rest@.map_values(|s: &str| s@).take(0) =~= lead);
        while i < rest.len()
            invariant
                i <= rest.len(),
                text::texts(args@) == lead + rest@.map_values(|s: &str| s@).take(i as int),
            decreases rest.len() - i,
        {
            let ghost before = args@;
            args.push(rest[i].to_owned());
            i += 1;
            assert(text::texts(args@) =~= text::texts(before).push(rest@[i - 1]@));
            assert(text::texts(args@) =~= lead + rest@.map_values(|s: &str| s@).take(i as int));
        }
        assert(rest@.map_values(|s: &str| s@).take(i as int) =~= rest@.map_values(|s: &str| s@));
        args
    }

    /// The arguments with which `systemctl` reads the unit files again.
    pub fn daemon_reload(&self) -> (args: Vec<String>)
        requires
            self.launch_mode != LinuxLaunchMode::XdgAutostart,
        ensures
            text::texts(args@) == systemctl_args(self.launch_mode, seq!["daemon-reload"@]),
    {
        let rest: [&str; 1] = ["daemon-reload"];
        assert(rest@.map_values(|s: &str| s@) =~= seq!["daemon-reload"@]);
        self.systemctl(rest.as_slice())
    }

    /// The arguments of `systemctl` for a verb and this application's unit.
    fn systemctl_unit(&self, verb: &str) -> (args: Vec<String>)
        requires
            self.launch_mode != LinuxLaunchMode::XdgAutostart,
        ensures
            text::texts(args@) == systemctl_args(self.launch_mode, seq![verb@, self.unit()]),
    {
        let unit = self.app_name.clone().concat(".service");
        let rest: [&str; 2] = [verb, unit.as_str()];
        assert(rest@.map_values(|s: &str| s@) =~= seq![verb@, self.unit()]);
        self.systemctl(rest.as_slice())
    }

    /// The arguments with which `systemctl` enables the unit.
    pub fn systemctl_enable(&self) -> (args: Vec<String>)
        requires
            self.launch_mode != LinuxLaunchMode::XdgAutostart,
        ensures
            text::texts(args@) == systemctl_args(self.launch_mode, seq!["enable"@, self.unit()]),
    {
        self.systemctl_unit("enable")
    }

    /// The arguments with which `systemctl` disables the unit.
    pub fn systemctl_disable(&self) -> (args: Vec<String>)
        requires
            self.launch_mode != LinuxLaunchMode::XdgAutostart,
        ensures
            text::texts(args@) == systemctl_args(self.launch_mode, seq!["disable"@, self.unit()]),
    {
        self.systemctl_unit("disable")
    }

    /// The arguments with which `systemctl` tells whether the unit is enabled.
    pub fn is_systemd_enabled(&self) -> (args: Vec<String>)
        requires
            self.launch_mode != LinuxLaunchMode::XdgAutostart,
        ensures
            text::texts(args@) == systemctl_args(
                self.launch_mode,
                seq!["is-enabled"@, self.unit()],
            ),
    {
        self.systemctl_unit("is-enabled")
    }

    /// How removing the registration starts: with its file, or with its unit.
    pub open spec fn disable_starts(&self, home: Option<Seq<u8>>, step: DisableStep) -> bool {
        if self.launch_mode == LinuxLaunchMode::XdgAutostart {
            self.removal_starts(home, step)
        } else {
            step matches DisableStep::DisableUnit(args) && text::texts(args@) == systemctl_args(
                self.launch_mode,
                seq!["disable"@, self.unit()],
            )
        }
    }

    /// How removing the registration file starts.
    pub open spec fn removal_starts(&self, home: Option<Seq<u8>>, step: DisableStep) -> bool {
        match step {
            DisableStep::CheckFile(file) => self.registration_file(home) == Some(file@),
            DisableStep::Finished(Err(e)) => self.registration_file(home) is None
                && error::home_not_found(e),
            _ => false,
        }
    }

    /// Whether `step` follows the call of `systemctl disable`.
    pub open spec fn after_unit_disabled(
        &self,
        home: Option<Seq<u8>>,
        reply: Result<CommandOutput, IoError>,
        step: DisableStep,
    ) -> bool {
        match reply {
            Ok(output) => {
                let stderr = host::utf8_lossy(output.stderr@);
                if output.success || nothing_to_disable(stderr) {
                    self.removal_starts(home, step)
                } else {
                    step matches DisableStep::Finished(r) && disable_verdict(false, stderr, r)
                }
            },
            Err(e) => step == DisableStep::Finished(Err(LaunchError::Io(e))),
        }
    }

    /// Whether `step` follows when the registration file is gone.
    pub open spec fn after_removal(&self, step: DisableStep) -> bool {
        if self.launch_mode == LinuxLaunchMode::XdgAutostart {
            step == DisableStep::Finished(Ok(()))
        } else {
            step matches DisableStep::ReloadDaemon(args) && text::texts(args@) == systemctl_args(
                self.launch_mode,
                seq!["daemon-reload"@],
            )
        }
    }

    /// Whether `step` follows the answer to whether the registration file is there to be removed.
    pub open spec fn after_removal_checked(
        &self,
        file: Vec<u8>,
        exists: bool,
        step: DisableStep,
    ) -> bool {
        if exists {
            step == DisableStep::RemoveFile(file)
        } else {
            self.after_removal(step)
        }
    }

    /// Whether `step` follows the removal of the registration file.
    pub open spec fn after_file_removed(
        &self,
        reply: Result<(), IoError>,
        step: DisableStep,
    ) -> bool {
        match reply {
            Ok(()) => self.after_removal(step),
            Err(e) => step == DisableStep::Finished(Err(LaunchError::Io(e))),
        }
    }

    /// Removes the application's registration.
    pub fn disable(&self) -> (step: DisableStep)
        ensures
            exists|home: Option<Seq<u8>>|
                host::found_home(home) && #[trigger] self.disable_starts(home, step),
    {
        let home = host::current_home();
        let step = self.disable_below(&home);
        assert(self.disable_starts(host::bytes_of(home), step));
        step
    }

    /// Removes the application's registration below the home directory given.
    pub fn disable_below(&self, home: &Option<Vec<u8>>) -> (step: DisableStep)
        ensures
            self.disable_starts(host::bytes_of(*home), step),
    {
        match self.launch_mode {
            LinuxLaunchMode::XdgAutostart => self.disable_xdg_autostart(home),
            LinuxLaunchMode::SystemdUser | LinuxLaunchMode::SystemdSystem => self.disable_systemd(),
        }
    }

    /// Removes the desktop entry.
    pub fn disable_xdg_autostart(&self, home: &Option<Vec<u8>>) -> (step: DisableStep)
        requires
            self.launch_mode == LinuxLaunchMode::XdgAutostart,
        ensures
            self.removal_starts(host::bytes_of(*home), step),
    {
        match self.get_xdg_desktop_file(home) {
            Ok(file) => DisableStep::CheckFile(file),
            Err(e) => DisableStep::Finished(Err(e)),
        }
    }

    /// Removes the systemd unit: it is disabled first.
    pub fn disable_systemd(&self) -> (step: DisableStep)
        requires
            self.launch_mode != LinuxLaunchMode::XdgAutostart,
        ensures
            step matches DisableStep::DisableUnit(args) && text::texts(args@) == systemctl_args(
                self.launch_mode,
                seq!["disable"@, self.unit()],
            ),
    {
        DisableStep::DisableUnit(self.systemctl_disable())
    }

    /// Goes on from [`DisableStep::DisableUnit`].
    pub fn disable_unit_disabled(&self, reply: Result<CommandOutput, IoError>) -> (step:
        DisableStep)
        requires
            self.launch_mode != LinuxLaunchMode::XdgAutostart,
        ensures
            exists|home: Option<Seq<u8>>|
                host::found_home(home) && #[trigger] self.after_unit_disabled(home, reply, step),
    {
        let home = host::current_home();
        let step = self.unit_disabled_below(&home, reply);
        assert(self.after_unit_disabled(host::bytes_of(home), reply, step));
        step
    }

    /// Goes on from [`DisableStep::DisableUnit`], below the home directory given.
    pub fn unit_disabled_below(
        &self,
        home: &Option<Vec<u8>>,
        reply: Result<CommandOutput, IoError>,
    ) -> (step: DisableStep)
        requires
            self.launch_mode != LinuxLaunchMode::XdgAutostart,
        ensures
            self.after_unit_disabled(host::bytes_of(*home), reply, step),
    {
        let output = match reply {
            Ok(output) => output,
            Err(e) => {
                return DisableStep::Finished(Err(LaunchError::Io(e)));
            },
        };
        let stderr = host::text_from_utf8_lossy(output.stderr.as_slice());
        match systemctl_disable_result(output.success, stderr.as_str()) {
            Ok(()) => match self.get_systemd_service_file(home) {
                Ok(file) => DisableStep::CheckFile(file),
                Err(e) => DisableStep::Finished(Err(e)),
            },
            Err(e) => DisableStep::Finished(Err(e)),
        }
    }

    /// Goes on from [`DisableStep::CheckFile`].
    pub fn disable_file_checked(&self, file: Vec<u8>, exists: bool) -> (step: DisableStep)
        ensures
            self.after_removal_checked(file, exists, step),
    {
        if exists {
            DisableStep::RemoveFile(file)
        } else {
            self.removed()
        }
    }

    /// Goes on from [`DisableStep::RemoveFile`].
    pub fn disable_file_removed(&self, reply: Result<(), IoError>) -> (step: DisableStep)
        ensures
            self.after_file_removed(reply, step),
    {
        match reply {
            Ok(()) => self.removed(),
            Err(e) => DisableStep::Finished(Err(LaunchError::Io(e))),
        }
    }

    /// Goes on when the registration file is gone.
    fn removed(&self) -> (step: DisableStep)
        ensures
            self.after_removal(step),
    {
        match self.launch_mode {
            LinuxLaunchMode::XdgAutostart => DisableStep::Finished(Ok(())),
            LinuxLaunchMode::SystemdUser | LinuxLaunchMode::SystemdSystem => {
                DisableStep::ReloadDaemon(self.daemon_reload())
            },
        }
    }

    /// Goes on from [`DisableStep::ReloadDaemon`].
    pub fn disable_daemon_reloaded(&self) -> (step: DisableStep)
        ensures
            step == DisableStep::Finished(Ok(())),
    {
        DisableStep::Finished(Ok(()))
    }

    /// How finding out whose the registration is starts.
    pub open spec fn owned_starts(&self, home: Option<Seq<u8>>, step: OwnedStep) -> bool {
        match step {
            OwnedStep::CheckFile(file) => self.registration_file(home) == Some(file@),
            OwnedStep::Finished(Err(e)) => self.registration_file(home) is None
                && error::home_not_found(e),
            _ => false,
        }
    }

    /// Finds out whether the registration was created by this library: whether its file exists
    /// and carries the marker.
    pub fn is_registration_owned(&self) -> (step: OwnedStep)
        ensures
            exists|home: Option<Seq<u8>>|
                host::found_home(home) && #[trigger] self.owned_starts(home, step),
    {
        let home = host::current_home();
        let step = self.is_registration_owned_below(&home);
        assert(self.owned_starts(host::bytes_of(home), step));
        step
    }

    /// Finds out whether the registration below the home directory given is this library's.
    pub fn is_registration_owned_below(&self, home: &Option<Vec<u8>>) -> (step: OwnedStep)
        ensures
            self.owned_starts(host::bytes_of(*home), step),
    {
        match self.get_registration_file(home) {
            Ok(file) => OwnedStep::CheckFile(file),
            Err(e) => OwnedStep::Finished(Err(e)),
        }
    }

    /// What follows the answer to whether the file exists. What is missing is nobody's.
    pub open spec fn after_owned_checked(file: Vec<u8>, exists: bool) -> OwnedStep {
        if exists {
            OwnedStep::ReadFile(file)
        } else {
            OwnedStep::Finished(Ok(false))
        }
    }

    /// What follows the reading of the file.
    pub open spec fn after_owned_read(&self, reply: Result<String, IoError>) -> OwnedStep {
        match reply {
            Ok(content) => OwnedStep::Finished(Ok(managed(content@, self.marker()))),
            Err(e) => OwnedStep::Finished(Err(LaunchError::Io(e))),
        }
    }

    /// Goes on from [`OwnedStep::CheckFile`].
    pub fn owned_file_checked(&self, file: Vec<u8>, exists: bool) -> (step: OwnedStep)
        ensures
            step == Self::after_owned_checked(file, exists),
    {
        if exists {
            OwnedStep::ReadFile(file)
        } else {
            OwnedStep::Finished(Ok(false))
        }
    }

    /// Goes on from [`OwnedStep::ReadFile`].
    pub fn owned_file_read(&self, reply: Result<String, IoError>) -> (step: OwnedStep)
        ensures
            step == self.after_owned_read(reply),
    {
        match reply {
            Ok(content) => {
                let marker = self.managed_marker();
                OwnedStep::Finished(Ok(content_is_managed(content.as_str(), marker.as_str())))
            },
            Err(e) => OwnedStep::Finished(Err(LaunchError::Io(e))),
        }
    }

    /// How finding out whether the application is launched at login starts: with the desktop
    /// entry, or with the unit.
    pub open spec fn enabled_starts(&self, home: Option<Seq<u8>>, step: EnabledStep) -> bool {
        if self.launch_mode == LinuxLaunchMode::XdgAutostart {
            match step {
                EnabledStep::CheckFile(file) => self.registration_file(home) == Some(file@),
                EnabledStep::Finished(Err(e)) => self.registration_file(home) is None
                    && error::home_not_found(e),
                _ => false,
            }
        } else {
            step matches EnabledStep::QueryUnit(args) && text::texts(args@) == systemctl_args(
                self.launch_mode,
                seq!["is-enabled"@, self.unit()],
            )
        }
    }

    /// Finds out whether the application is launched at login.
    pub fn is_enabled(&self) -> (step: EnabledStep)
        ensures
            exists|home: Option<Seq<u8>>|
                host::found_home(home) && #[trigger] self.enabled_starts(home, step),
    {
        let home = host::current_home();
        let step = self.is_enabled_below(&home);
        assert(self.enabled_starts(host::bytes_of(home), step));
        step
    }

    /// Finds out whether the application is launched at login, below the home directory given.
    pub fn is_enabled_below(&self, home: &Option<Vec<u8>>) -> (step: EnabledStep)
        ensures
            self.enabled_starts(host::bytes_of(*home), step),
    {
        match self.launch_mode {
            LinuxLaunchMode::XdgAutostart => match self.get_xdg_desktop_file(home) {
                Ok(file) => EnabledStep::CheckFile(file),
                Err(e) => EnabledStep::Finished(Err(e)),
            },
            LinuxLaunchMode::SystemdUser | LinuxLaunchMode::SystemdSystem => {
                EnabledStep::QueryUnit(self.is_systemd_enabled())
            },
        }
    }

    /// Goes on from [`EnabledStep::CheckFile`].
    pub fn enabled_file_checked(&self, exists: bool) -> (step: EnabledStep)
        ensures
            step == EnabledStep::Finished(Ok(exists)),
    {
        EnabledStep::Finished(Ok(exists))
    }

    /// Goes on from [`EnabledStep::QueryUnit`]: the unit is enabled if the command succeeded.
    pub fn enabled_unit_queried(&self, reply: Result<CommandOutput, IoError>) -> (step: EnabledStep)
        ensures
            match reply {
                Ok(output) => step == EnabledStep::Finished(Ok(output.success)),
                Err(e) => step == EnabledStep::Finished(Err(LaunchError::Io(e))),
            },
    {
        match reply {
            Ok(output) => EnabledStep::Finished(Ok(output.success)),
            Err(e) => EnabledStep::Finished(Err(LaunchError::Io(e))),
        }
    }

    /// How looking up the registered path starts.
    pub open spec fn path_starts(&self, home: Option<Seq<u8>>, step: PathStep) -> bool {
        match step {
            PathStep::CheckFile(file) => self.registration_file(home) == Some(file@),
            PathStep::Finished(Err(e)) => self.registration_file(home) is None
                && error::home_not_found(e),
            _ => false,
        }
    }

    /// Whether `step` follows the reading of the registration file.
    pub open spec fn after_path_read(
        &self,
        reply: Result<String, IoError>,
        step: PathStep,
    ) -> bool {
        match reply {
            Ok(content) => step matches PathStep::Finished(Ok(r)) && match r {
                Some(path) => command_path(text::lines(content@), command_key(self.launch_mode))
                    == Some(path@),
                None => command_path(text::lines(content@), command_key(self.launch_mode)) is None,
            },
            Err(e) => step == PathStep::Finished(Err(LaunchError::Io(e))),
        }
    }

    /// Looks up the path of the registered application.
    pub fn get_registered_app_path(&self) -> (step: PathStep)
        ensures
            exists|home: Option<Seq<u8>>|
                host::found_home(home) && #[trigger] self.path_starts(home, step),
    {
        let home = host::current_home();
        let step = self.get_registered_app_path_below(&home);
        assert(self.path_starts(host::bytes_of(home), step));
        step
    }

    /// Looks up the path of the application registered below the home directory given.
    pub fn get_registered_app_path_below(&self, home: &Option<Vec<u8>>) -> (step: PathStep)
        ensures
            self.path_starts(host::bytes_of(*home), step),
    {
        match self.get_registration_file(home) {
            Ok(file) => PathStep::CheckFile(file),
            Err(e) => PathStep::Finished(Err(e)),
        }
    }

    /// Goes on from [`PathStep::CheckFile`]. Without a registration there is no path.
    pub fn path_file_checked(&self, file: Vec<u8>, exists: bool) -> (step: PathStep)
        ensures
            exists ==> step == PathStep::ReadFile(file),
            !exists ==> step == PathStep::Finished(Ok(None)),
    {
        if exists {
            PathStep::ReadFile(file)
        } else {
            PathStep::Finished(Ok(None))
        }
    }

    /// Goes on from [`PathStep::ReadFile`].
    pub fn path_file_read(&self, reply: Result<String, IoError>) -> (step: PathStep)
        ensures
            self.after_path_read(reply, step),
    {
        match reply {
            Ok(content) => PathStep::Finished(
                Ok(registered_app_path(content.as_str(), self.launch_mode)),
            ),
            Err(e) => PathStep::Finished(Err(LaunchError::Io(e))),
        }
    }
}

} // verus!
