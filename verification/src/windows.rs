//! Launching at login on Windows: the values of the registry's `Run` key.
//!
//! An operation is a walk of steps. A step says what to do next with the registry; the method
//! that goes with it takes the registry's answer and gives the next step, until one says how the
//! operation ended. Each step carries out a move, which leaves out keys, names and values.

use vstd::prelude::*;
use vstd::utf8::*;

use crate::error::LaunchError;
use crate::text;

verus! {

/// How an application is registered on Windows.
#[derive(Clone, Copy, Debug, PartialEq, Eq, Structural)]
pub enum WindowsEnableMode {
    /// For all users, or for the current user where that is not permitted.
    Dynamic,
    /// For the current user.
    CurrentUser,
    /// For all users.
    System,
}

/// The registry's roots that hold registrations.
#[derive(Clone, Copy, Debug, PartialEq, Eq, Structural)]
pub enum RootKey {
    LocalMachine,
    CurrentUser,
}

/// A value of the registry, by its root, key and name.
#[derive(Debug)]
pub struct RegistryValue {
    pub root: RootKey,
    pub key: String,
    pub name: String,
}

/// An application to be launched at login.
#[derive(Debug)]
pub struct AutoLaunch {
    /// The application's name.
    pub app_name: String,
    /// The path of the application.
    pub app_path: String,
    /// How it is registered.
    pub enable_mode: WindowsEnableMode,
    /// What is passed to it when it starts.
    pub args: Vec<String>,
}

/// Why the switch of the task manager was not set, with the `HRESULT`.
#[derive(Clone, Copy, Debug, PartialEq, Eq, Structural)]
pub enum SwitchError {
    /// The key could not be opened.
    Open(i32),
    /// The value could not be set.
    Write(i32),
}

/// What comes next while a registration is being made.
#[derive(Debug)]
pub enum EnableStep {
    /// Read the string; then [`AutoLaunch::enable_run_read`].
    ReadRun(RegistryValue),
    /// Read the string; then [`AutoLaunch::enable_marker_read`].
    ReadMarker(RegistryValue),
    /// Set the value to the string, in a key that is created where it is missing; then
    /// [`AutoLaunch::enable_run_written`].
    WriteRun(RegistryValue, String),
    /// Set the value to the string, in a key that is created where it is missing; then
    /// [`AutoLaunch::enable_marker_written`].
    WriteMarker(RegistryValue, String),
    /// Set the value to the bytes, in a key that exists; then
    /// [`AutoLaunch::enable_switch_written`].
    WriteSwitch(RegistryValue, Vec<u8>),
    /// Nothing is left to do.
    Finished(Result<(), LaunchError>),
}

/// A step of making a registration, without its keys, names and values.
#[derive(Clone, Copy, Debug, PartialEq, Eq, Structural)]
pub enum EnableMove {
    ReadRun(RootKey),
    ReadMarker(RootKey),
    WriteRun(RootKey),
    WriteMarker(RootKey),
    WriteSwitch(RootKey),
    /// A registration under this root is not this library's.
    Refuse(RootKey),
    /// The registry failed with this code.
    Fail(i32),
    Succeed,
}

/// What comes next while a registration is being removed.
#[derive(Debug)]
pub enum DisableStep {
    /// Remove the value; then, whatever came of it, [`AutoLaunch::disable_marker_removed`].
    RemoveMarker(RegistryValue),
    /// Remove the value; then [`AutoLaunch::disable_run_removed`].
    RemoveRun(RegistryValue),
    /// Nothing is left to do.
    Finished(Result<(), LaunchError>),
}

/// A step of removing a registration, without its keys and names.
#[derive(Clone, Copy, Debug, PartialEq, Eq, Structural)]
pub enum DisableMove {
    RemoveMarker(RootKey),
    RemoveRun(RootKey),
    /// The registry failed with this code.
    Fail(i32),
    Succeed,
}

/// What comes next while it is being found out whether the registration is this library's.
#[derive(Debug)]
pub enum OwnedStep {
    /// Read the string; then [`AutoLaunch::owned_marker_read`].
    ReadMarker(RegistryValue),
    /// The answer.
    Finished(Result<bool, LaunchError>),
}

/// What comes next while the registered path is being looked up.
#[derive(Debug)]
pub enum PathStep {
    /// Read the string; then [`AutoLaunch::path_run_read`].
    ReadRun(RegistryValue),
    /// The answer.
    Finished(Result<Option<String>, LaunchError>),
}

/// What comes next while it is being found out whether the application is launched at login.
#[derive(Debug)]
pub enum EnabledStep {
    /// Read the string; then [`AutoLaunch::enabled_run_read`].
    ReadRun(RegistryValue),
    /// Read the bytes; then [`AutoLaunch::enabled_switch_read`].
    ReadSwitch(RegistryValue),
    /// The answer.
    Finished(Result<bool, LaunchError>),
}

/// A step of finding out whether the application is launched at login, without keys and names.
#[derive(Clone, Copy, Debug, PartialEq, Eq, Structural)]
pub enum EnabledMove {
    ReadRun(RootKey),
    ReadSwitch(RootKey),
    /// The registry failed with this code.
    Fail(i32),
    Answer(bool),
}

/// The key whose values are run at login.
pub open spec fn run_key() -> Seq<char> {
    "SOFTWARE\\Microsoft\\Windows\\CurrentVersion\\Run"@
}

/// The key whose values are the task manager's switches.
pub open spec fn switch_key() -> Seq<char> {
    "SOFTWARE\\Microsoft\\Windows\\CurrentVersion\\Explorer\\StartupApproved\\Run"@
}

/// The bytes of a switch that is on.
pub open spec fn switched_on() -> Seq<u8> {
    seq![2u8, 0, 0, 0, 0, 0, 0, 0, 0, 0, 0, 0]
}

/// What a root is called.
pub open spec fn root_name(root: RootKey) -> Seq<char> {
    match root {
        RootKey::LocalMachine => "HKLM"@,
        RootKey::CurrentUser => "HKCU"@,
    }
}

/// The `HRESULT` that a Win32 error code maps to. What is an `HRESULT` already stays.
pub open spec fn hresult_of(error: u32) -> int {
    if error >= 0x8000_0000 {
        error - 0x1_0000_0000
    } else if error == 0 {
        0
    } else {
        error % 0x1_0000 + 0x8007_0000 - 0x1_0000_0000
    }
}

/// The `HRESULT` for access that is denied.
pub open spec fn access_denied() -> int {
    hresult_of(0x8007_0005)
}

/// The `HRESULT` for what does not exist.
pub open spec fn not_found() -> int {
    hresult_of(0x8007_0002)
}

/// `windows_result::HRESULT::from_win32`: a code whose topmost bit is set, and zero, stay as they
/// are; of any other the lower half goes into an `HRESULT` of the Win32 facility.
#[verifier::external_body]
fn hresult_from_win32(error: u32) -> (code: i32)
    ensures
        code == hresult_of(error),
{
    windows_result::HRESULT::from_win32(error).0
}

/// The `HRESULT` for access that is denied.
pub fn e_accessdenied() -> (code: i32)
    ensures
        code == access_denied(),
{
    hresult_from_win32(0x8007_0005)
}

/// The `HRESULT` for what does not exist.
pub fn e_filenotfound() -> (code: i32)
    ensures
        code == not_found(),
{
    hresult_from_win32(0x8007_0002)
}

/// Whether the last eight bytes are all zero.
pub open spec fn ends_in_zeros(bytes: Seq<u8>) -> bool {
    forall|i: int| bytes.len() - 8 <= i < bytes.len() ==> bytes[i] == 0
}

/// Tells whether the last eight bytes are all zero, if there are as many.
pub fn last_eight_bytes_all_zeros(bytes: &[u8]) -> (r: Result<bool, &'static str>)
    ensures
        match r {
            Ok(zeros) => bytes@.len() >= 8 && zeros == ends_in_zeros(bytes@),
            Err(message) => bytes@.len() < 8 && message@ == "Bytes too short"@,
        },
{
    if bytes.len() < 8 {
        return Err("Bytes too short");
    }
    let mut i: usize = bytes.len() - 8;
    while i < bytes.len()
        invariant
            bytes@.len() >= 8,
            bytes.len() - 8 <= i <= bytes.len(),
            forall|j: int| bytes@.len() - 8 <= j < i ==> bytes@[j] == 0,
        decreases bytes.len() - i,
    {
        if bytes[i] != 0 {
            return Ok(false);
        }
        i += 1;
    }
    Ok(true)
}

/// The first move of writing: for all users, unless the mode is the current user's.
pub open spec fn first_write(mode: WindowsEnableMode) -> EnableMove {
    if mode == WindowsEnableMode::CurrentUser {
        EnableMove::WriteRun(RootKey::CurrentUser)
    } else {
        EnableMove::WriteRun(RootKey::LocalMachine)
    }
}

/// The first move of making a registration.
pub open spec fn first_enable(mode: WindowsEnableMode, force: bool) -> EnableMove {
    if force {
        first_write(mode)
    } else {
        EnableMove::ReadRun(RootKey::LocalMachine)
    }
}

/// What follows when nothing under a root speaks against the registration.
pub open spec fn past_root(mode: WindowsEnableMode, root: RootKey) -> EnableMove {
    match root {
        RootKey::LocalMachine => EnableMove::ReadRun(RootKey::CurrentUser),
        RootKey::CurrentUser => first_write(mode),
    }
}

/// What follows the answer to whether a registration stands under a root.
pub open spec fn after_run_read(mode: WindowsEnableMode, root: RootKey, found: bool) -> EnableMove {
    if found {
        EnableMove::ReadMarker(root)
    } else {
        past_root(mode, root)
    }
}

/// What follows the answer to whether the marker stands beside a registration.
pub open spec fn after_marker_read(
    mode: WindowsEnableMode,
    root: RootKey,
    found: bool,
) -> EnableMove {
    if found {
        past_root(mode, root)
    } else {
        EnableMove::Refuse(root)
    }
}

/// What follows a failure to write under a root.
pub open spec fn after_write_failed(mode: WindowsEnableMode, root: RootKey, code: i32) -> EnableMove {
    if mode == WindowsEnableMode::Dynamic && root == RootKey::LocalMachine && code
        == access_denied() {
        EnableMove::WriteRun(RootKey::CurrentUser)
    } else {
        EnableMove::Fail(code)
    }
}

/// What follows the writing of the registration.
pub open spec fn after_run_written(
    mode: WindowsEnableMode,
    root: RootKey,
    reply: Result<(), i32>,
) -> EnableMove {
    match reply {
        Ok(()) => EnableMove::WriteMarker(root),
        Err(code) => after_write_failed(mode, root, code),
    }
}

/// What follows the writing of the marker.
pub open spec fn after_marker_written(
    mode: WindowsEnableMode,
    root: RootKey,
    reply: Result<(), i32>,
) -> EnableMove {
    match reply {
        Ok(()) => EnableMove::WriteSwitch(root),
        Err(code) => after_write_failed(mode, root, code),
    }
}

/// What follows the setting of the switch. Where the task manager has no switches, none is set.
pub open spec fn after_switch_written(
    mode: WindowsEnableMode,
    root: RootKey,
    reply: Result<(), SwitchError>,
) -> EnableMove {
    match reply {
        Ok(()) => EnableMove::Succeed,
        Err(SwitchError::Open(code)) => if code == not_found() {
            EnableMove::Succeed
        } else {
            after_write_failed(mode, root, code)
        },
        Err(SwitchError::Write(code)) => after_write_failed(mode, root, code),
    }
}

/// What follows when the registration under a root is gone, or may stay.
pub open spec fn past_removal(root: RootKey) -> DisableMove {
    match root {
        RootKey::LocalMachine => DisableMove::RemoveMarker(RootKey::CurrentUser),
        RootKey::CurrentUser => DisableMove::Succeed,
    }
}

/// What follows the removal of a registration. One that is not there is no failure; nor is one
/// for all users that may not be removed, unless the mode asks for that.
pub open spec fn after_run_removed(
    mode: WindowsEnableMode,
    root: RootKey,
    reply: Result<(), i32>,
) -> DisableMove {
    match reply {
        Ok(()) => past_removal(root),
        Err(code) => if code == not_found() {
            past_removal(root)
        } else if root == RootKey::LocalMachine && code == access_denied() && mode
            != WindowsEnableMode::System {
            past_removal(root)
        } else {
            DisableMove::Fail(code)
        },
    }
}

/// Whether the bytes of a switch say that it is on. Too few bytes do not say that it is off.
pub open spec fn is_on(bytes: Seq<u8>) -> bool {
    bytes.len() < 8 || ends_in_zeros(bytes)
}

/// What follows the reading of a registration.
pub open spec fn after_registered(root: RootKey, reply: Result<String, i32>) -> EnabledMove {
    match reply {
        Ok(_) => EnabledMove::ReadSwitch(RootKey::LocalMachine),
        Err(code) => if code != not_found() {
            EnabledMove::Fail(code)
        } else {
            match root {
                RootKey::LocalMachine => EnabledMove::ReadRun(RootKey::CurrentUser),
                RootKey::CurrentUser => EnabledMove::Answer(false),
            }
        },
    }
}

/// What follows when the switch under a root is on.
pub open spec fn past_switch(root: RootKey) -> EnabledMove {
    match root {
        RootKey::LocalMachine => EnabledMove::ReadSwitch(RootKey::CurrentUser),
        RootKey::CurrentUser => EnabledMove::Answer(true),
    }
}

/// What follows the reading of a switch. One that is not there is on.
pub open spec fn after_switch_read(root: RootKey, reply: Result<Vec<u8>, i32>) -> EnabledMove {
    match reply {
        Ok(bytes) => if is_on(bytes@) {
            past_switch(root)
        } else {
            EnabledMove::Answer(false)
        },
        Err(code) => if code == not_found() {
            past_switch(root)
        } else {
            EnabledMove::Fail(code)
        },
    }
}

impl RegistryValue {
    /// Whether this is the value of that root, key and name.
    pub open spec fn is_at(self, root: RootKey, key: Seq<char>, name: Seq<char>) -> bool {
        self.root == root && self.key@ == key && self.name@ == name
    }
}

impl AutoLaunch {
    /// The key of this application's marker.
    pub open spec fn marker_key(&self) -> Seq<char> {
        "SOFTWARE\\auto-launcher"@ + "\\"@ + self.app_name@
    }

    /// The command of the registration.
    pub open spec fn command(&self) -> Seq<char> {
        self.app_path@ + " "@ + text::joined(text::texts(self.args@), " "@)
    }

    /// Whether `step` carries out the move.
    pub open spec fn enables(&self, next: EnableMove, step: EnableStep) -> bool {
        match next {
            EnableMove::ReadRun(root) => step matches EnableStep::ReadRun(value) && value.is_at(
                root,
                run_key(),
                self.app_name@,
            ),
            EnableMove::ReadMarker(root) => step matches EnableStep::ReadMarker(value)
                && value.is_at(root, self.marker_key(), "managed"@),
            EnableMove::WriteRun(root) => step matches EnableStep::WriteRun(value, data)
                && value.is_at(root, run_key(), self.app_name@) && data@ == self.command(),
            EnableMove::WriteMarker(root) => step matches EnableStep::WriteMarker(value, data)
                && value.is_at(root, self.marker_key(), "managed"@) && data@ == "1"@,
            EnableMove::WriteSwitch(root) => step matches EnableStep::WriteSwitch(value, data)
                && value.is_at(root, switch_key(), self.app_name@) && data@ == switched_on(),
            EnableMove::Refuse(root) => step matches EnableStep::Finished(
                Err(LaunchError::RegistrationNotOwned(path)),
            ) && path@ == encode_utf8(root_name(root) + "\\"@ + run_key()),
            EnableMove::Fail(code) => step == EnableStep::Finished(
                Err(LaunchError::Registry(code)),
            ),
            EnableMove::Succeed => step == EnableStep::Finished(Ok(())),
        }
    }

    /// Describes an application to be launched at login.
    pub fn new(app_name: &str, app_path: &str, enable_mode: WindowsEnableMode, args: &[&str]) -> (r:
        AutoLaunch)
        ensures
            r.app_name@ == app_name@,
            r.app_path@ == app_path@,
            r.enable_mode == enable_mode,
            text::texts(r.args@) == args@.map_values(|s: &str| s@),
    {
        AutoLaunch {
            app_name: app_name.to_owned(),
            app_path: app_path.to_owned(),
            enable_mode,
            args: text::owned_copies(args),
        }
    }

    /// The key of this application's marker. It lies apart from the `Run` key, whose every value
    /// is run at login.
    pub fn marker_regkey(&self) -> (key: String)
        ensures
            key@ == self.marker_key(),
    {
        "SOFTWARE\\auto-launcher".to_owned().concat("\\").concat(self.app_name.as_str())
    }

    /// The value of the registration under a root.
    fn run_value(&self, root: RootKey) -> (value: RegistryValue)
        ensures
            value.is_at(root, run_key(), self.app_name@),
    {
        RegistryValue {
            root,
            key: "SOFTWARE\\Microsoft\\Windows\\CurrentVersion\\Run".to_owned(),
            name: self.app_name.clone(),
        }
    }

    /// The value of the marker under a root.
    fn marker_value(&self, root: RootKey) -> (value: RegistryValue)
        ensures
            value.is_at(root, self.marker_key(), "managed"@),
    {
        RegistryValue { root, key: self.marker_regkey(), name: "managed".to_owned() }
    }

    /// The value of the switch under a root.
    fn switch_value(&self, root: RootKey) -> (value: RegistryValue)
        ensures
            value.is_at(root, switch_key(), self.app_name@),
    {
        RegistryValue {
            root,
            key:
                "SOFTWARE\\Microsoft\\Windows\\CurrentVersion\\Explorer\\StartupApproved\\Run".to_owned(),
            name: self.app_name.clone(),
        }
    }

    /// The step that carries out a move.
    fn enable_step(&self, next: EnableMove) -> (step: EnableStep)
        ensures
            self.enables(next, step),
    {
        match next {
            EnableMove::ReadRun(root) => EnableStep::ReadRun(self.run_value(root)),
            EnableMove::ReadMarker(root) => EnableStep::ReadMarker(self.marker_value(root)),
            EnableMove::WriteRun(root) => self.enable_with_root_key(root),
            EnableMove::WriteMarker(root) => EnableStep::WriteMarker(
                self.marker_value(root),
                "1".to_owned(),
            ),
            EnableMove::WriteSwitch(root) => {
                let data: Vec<u8> = vec![2, 0, 0, 0, 0, 0, 0, 0, 0, 0, 0, 0];
                assert(data@ =~= switched_on());
                EnableStep::WriteSwitch(self.switch_value(root), data)
            },
            EnableMove::Refuse(root) => {
                let name = match root {
                    RootKey::LocalMachine => "HKLM",
                    RootKey::CurrentUser => "HKCU",
                };
                let path = name.to_owned().concat("\\").concat(
                    "SOFTWARE\\Microsoft\\Windows\\CurrentVersion\\Run",
                );
                EnableStep::Finished(
                    Err(LaunchError::RegistrationNotOwned(path.as_str().as_bytes_vec())),
                )
            },
            EnableMove::Fail(code) => EnableStep::Finished(Err(LaunchError::Registry(code))),
            EnableMove::Succeed => EnableStep::Finished(Ok(())),
        }
    }

    /// Registers the application under a root: the registration first, then the marker and the
    /// switch.
    pub fn enable_with_root_key(&self, root: RootKey) -> (step: EnableStep)
        ensures
            self.enables(EnableMove::WriteRun(root), step),
    {
        let args_text = text::join(self.args.as_slice(), " ");
        let data = self.app_path.clone().concat(" ").concat(args_text.as_str());
        EnableStep::WriteRun(self.run_value(root), data)
    }

    /// Registers the application.
    ///
    /// An existing registration that this library did not create is not overwritten;
    /// [`Self::enable_force`] takes it over.
    pub fn enable(&self) -> (step: EnableStep)
        ensures
            self.enables(first_enable(self.enable_mode, false), step),
    {
        self.enable_with_force(false)
    }

    /// Registers the application, whatever stands in the registration's place.
    pub fn enable_force(&self) -> (step: EnableStep)
        ensures
            self.enables(first_enable(self.enable_mode, true), step),
    {
        self.enable_with_force(true)
    }

    /// Registers the application.
    pub fn enable_with_force(&self, force: bool) -> (step: EnableStep)
        ensures
            self.enables(first_enable(self.enable_mode, force), step),
    {
        if force {
            self.enable_step(self.begin_write())
        } else {
            self.enable_step(EnableMove::ReadRun(RootKey::LocalMachine))
        }
    }

    fn begin_write(&self) -> (next: EnableMove)
        ensures
            next == first_write(self.enable_mode),
    {
        match self.enable_mode {
            WindowsEnableMode::CurrentUser => EnableMove::WriteRun(RootKey::CurrentUser),
            WindowsEnableMode::Dynamic | WindowsEnableMode::System => {
                EnableMove::WriteRun(RootKey::LocalMachine)
            },
        }
    }

    fn pass_root(&self, root: RootKey) -> (next: EnableMove)
        ensures
            next == past_root(self.enable_mode, root),
    {
        match root {
            RootKey::LocalMachine => EnableMove::ReadRun(RootKey::CurrentUser),
            RootKey::CurrentUser => self.begin_write(),
        }
    }

    fn write_failed(&self, root: RootKey, code: i32) -> (next: EnableMove)
        ensures
            next == after_write_failed(self.enable_mode, root, code),
    {
        if self.enable_mode == WindowsEnableMode::Dynamic && root == RootKey::LocalMachine && code
            == e_accessdenied() {
            EnableMove::WriteRun(RootKey::CurrentUser)
        } else {
            EnableMove::Fail(code)
        }
    }

    /// Goes on from [`EnableStep::ReadRun`].
    pub fn enable_run_read(&self, root: RootKey, reply: Result<String, i32>) -> (step: EnableStep)
        ensures
            self.enables(after_run_read(self.enable_mode, root, reply is Ok), step),
    {
        match reply {
            Ok(_) => self.enable_step(EnableMove::ReadMarker(root)),
            Err(_) => self.enable_step(self.pass_root(root)),
        }
    }

    /// Goes on from [`EnableStep::ReadMarker`].
    pub fn enable_marker_read(&self, root: RootKey, reply: Result<String, i32>) -> (step: EnableStep)
        ensures
            self.enables(after_marker_read(self.enable_mode, root, reply is Ok), step),
    {
        match reply {
            Ok(_) => self.enable_step(self.pass_root(root)),
            Err(_) => self.enable_step(EnableMove::Refuse(root)),
        }
    }

    /// Goes on from [`EnableStep::WriteRun`].
    pub fn enable_run_written(&self, root: RootKey, reply: Result<(), i32>) -> (step: EnableStep)
        ensures
            self.enables(after_run_written(self.enable_mode, root, reply), step),
    {
        match reply {
            Ok(()) => self.enable_step(EnableMove::WriteMarker(root)),
            Err(code) => self.enable_step(self.write_failed(root, code)),
        }
    }

    /// Goes on from [`EnableStep::WriteMarker`].
    pub fn enable_marker_written(&self, root: RootKey, reply: Result<(), i32>) -> (step: EnableStep)
        ensures
            self.enables(after_marker_written(self.enable_mode, root, reply), step),
    {
        match reply {
            Ok(()) => self.enable_step(EnableMove::WriteSwitch(root)),
            Err(code) => self.enable_step(self.write_failed(root, code)),
        }
    }

    /// Goes on from [`EnableStep::WriteSwitch`].
    pub fn enable_switch_written(&self, root: RootKey, reply: Result<(), SwitchError>) -> (step:
        EnableStep)
        ensures
            self.enables(after_switch_written(self.enable_mode, root, reply), step),
    {
        match reply {
            Ok(()) => self.enable_step(EnableMove::Succeed),
            Err(SwitchError::Open(code)) => {
                if code == e_filenotfound() {
                    self.enable_step(EnableMove::Succeed)
                } else {
                    self.enable_step(self.write_failed(root, code))
                }
            },
            Err(SwitchError::Write(code)) => self.enable_step(self.write_failed(root, code)),
        }
    }

    /// Whether `step` carries out the move.
    pub open spec fn disables(&self, next: DisableMove, step: DisableStep) -> bool {
        match next {
            DisableMove::RemoveMarker(root) => step matches DisableStep::RemoveMarker(value)
                && value.is_at(root, self.marker_key(), "managed"@),
            DisableMove::RemoveRun(root) => step matches DisableStep::RemoveRun(value)
                && value.is_at(root, run_key(), self.app_name@),
            DisableMove::Fail(code) => step == DisableStep::Finished(
                Err(LaunchError::Registry(code)),
            ),
            DisableMove::Succeed => step == DisableStep::Finished(Ok(())),
        }
    }

    /// Removes the application's registration: for all users, then for the current user.
    pub fn disable(&self) -> (step: DisableStep)
        ensures
            self.disables(DisableMove::RemoveMarker(RootKey::LocalMachine), step),
    {
        self.disable_with_root_key(RootKey::LocalMachine)
    }

    /// Removes the registration under a root: the marker first.
    pub fn disable_with_root_key(&self, root: RootKey) -> (step: DisableStep)
        ensures
            self.disables(DisableMove::RemoveMarker(root), step),
    {
        DisableStep::RemoveMarker(self.marker_value(root))
    }

    /// Goes on from [`DisableStep::RemoveMarker`].
    pub fn disable_marker_removed(&self, root: RootKey) -> (step: DisableStep)
        ensures
            self.disables(DisableMove::RemoveRun(root), step),
    {
        DisableStep::RemoveRun(self.run_value(root))
    }

    fn pass_removal(&self, root: RootKey) -> (step: DisableStep)
        ensures
            self.disables(past_removal(root), step),
    {
        match root {
            RootKey::LocalMachine => self.disable_with_root_key(RootKey::CurrentUser),
            RootKey::CurrentUser => DisableStep::Finished(Ok(())),
        }
    }

    /// Goes on from [`DisableStep::RemoveRun`].
    pub fn disable_run_removed(&self, root: RootKey, reply: Result<(), i32>) -> (step: DisableStep)
        ensures
            self.disables(after_run_removed(self.enable_mode, root, reply), step),
    {
        match reply {
            Ok(()) => self.pass_removal(root),
            Err(code) => {
                if code == e_filenotfound() {
                    self.pass_removal(root)
                } else if root == RootKey::LocalMachine && code == e_accessdenied()
                    && self.enable_mode != WindowsEnableMode::System {
                    self.pass_removal(root)
                } else {
                    DisableStep::Finished(Err(LaunchError::Registry(code)))
                }
            },
        }
    }

    /// Whether `step` asks for the marker under the root.
    pub open spec fn asks_marker(&self, root: RootKey, step: OwnedStep) -> bool {
        step matches OwnedStep::ReadMarker(value) && value.is_at(
            root,
            self.marker_key(),
            "managed"@,
        )
    }

    /// Finds out whether a registration was created by this library: whether the marker stands
    /// under either root.
    pub fn is_registration_owned(&self) -> (step: OwnedStep)
        ensures
            self.asks_marker(RootKey::LocalMachine, step),
    {
        self.marker_exists(RootKey::LocalMachine)
    }

    /// Finds out whether the marker stands under a root.
    pub fn marker_exists(&self, root: RootKey) -> (step: OwnedStep)
        ensures
            self.asks_marker(root, step),
    {
        OwnedStep::ReadMarker(self.marker_value(root))
    }

    /// Whether `step` follows the reading of the marker under a root.
    pub open spec fn after_owned_read(
        &self,
        root: RootKey,
        reply: Result<String, i32>,
        step: OwnedStep,
    ) -> bool {
        match reply {
            Ok(_) => step == OwnedStep::Finished(Ok(true)),
            Err(_) => match root {
                RootKey::LocalMachine => self.asks_marker(RootKey::CurrentUser, step),
                RootKey::CurrentUser => step == OwnedStep::Finished(Ok(false)),
            },
        }
    }

    /// Goes on from [`OwnedStep::ReadMarker`].
    pub fn owned_marker_read(&self, root: RootKey, reply: Result<String, i32>) -> (step: OwnedStep)
        ensures
            self.after_owned_read(root, reply, step),
    {
        match reply {
            Ok(_) => OwnedStep::Finished(Ok(true)),
            Err(_) => match root {
                RootKey::LocalMachine => self.marker_exists(RootKey::CurrentUser),
                RootKey::CurrentUser => OwnedStep::Finished(Ok(false)),
            },
        }
    }

    /// Whether `step` asks for the registration under the root.
    pub open spec fn asks_run(&self, root: RootKey, step: PathStep) -> bool {
        step matches PathStep::ReadRun(value) && value.is_at(root, run_key(), self.app_name@)
    }

    /// Whether `step` follows the reading of a registration: its first word is the path. The
    /// current user's registration counts only where there is none for all users.
    pub open spec fn after_path_read(
        &self,
        root: RootKey,
        reply: Result<String, i32>,
        step: PathStep,
    ) -> bool {
        match reply {
            Ok(command) => step matches PathStep::Finished(Ok(r)) && match r {
                Some(path) => text::first_word(command@) == Some(path@),
                None => text::first_word(command@) is None,
            },
            Err(_) => match root {
                RootKey::LocalMachine => self.asks_run(RootKey::CurrentUser, step),
                RootKey::CurrentUser => step == PathStep::Finished(Ok(None)),
            },
        }
    }

    /// Looks up the path of the registered application.
    pub fn get_registered_app_path(&self) -> (step: PathStep)
        ensures
            self.asks_run(RootKey::LocalMachine, step),
    {
        PathStep::ReadRun(self.run_value(RootKey::LocalMachine))
    }

    /// Goes on from [`PathStep::ReadRun`].
    pub fn path_run_read(&self, root: RootKey, reply: Result<String, i32>) -> (step: PathStep)
        ensures
            self.after_path_read(root, reply, step),
    {
        match reply {
            Ok(command) => PathStep::Finished(Ok(text::first_word_of(command.as_str()))),
            Err(_) => match root {
                RootKey::LocalMachine => PathStep::ReadRun(self.run_value(RootKey::CurrentUser)),
                RootKey::CurrentUser => PathStep::Finished(Ok(None)),
            },
        }
    }

    /// Whether `step` carries out the move.
    pub open spec fn queries(&self, next: EnabledMove, step: EnabledStep) -> bool {
        match next {
            EnabledMove::ReadRun(root) => step matches EnabledStep::ReadRun(value) && value.is_at(
                root,
                run_key(),
                self.app_name@,
            ),
            EnabledMove::ReadSwitch(root) => step matches EnabledStep::ReadSwitch(value)
                && value.is_at(root, switch_key(), self.app_name@),
            EnabledMove::Fail(code) => step == EnabledStep::Finished(
                Err(LaunchError::Registry(code)),
            ),
            EnabledMove::Answer(enabled) => step == EnabledStep::Finished(Ok(enabled)),
        }
    }

    /// Finds out whether the application is launched at login: whether it is registered, and both
    /// of the task manager's switches are on.
    pub fn is_enabled(&self) -> (step: EnabledStep)
        ensures
            self.queries(EnabledMove::ReadRun(RootKey::LocalMachine), step),
    {
        self.is_registered(RootKey::LocalMachine)
    }

    /// Finds out whether the application is registered under a root.
    pub fn is_registered(&self, root: RootKey) -> (step: EnabledStep)
        ensures
            self.queries(EnabledMove::ReadRun(root), step),
    {
        EnabledStep::ReadRun(self.run_value(root))
    }

    /// Finds out whether the task manager's switch under a root is on.
    pub fn is_task_manager_enabled(&self, root: RootKey) -> (step: EnabledStep)
        ensures
            self.queries(EnabledMove::ReadSwitch(root), step),
    {
        EnabledStep::ReadSwitch(self.switch_value(root))
    }

    /// Goes on from [`EnabledStep::ReadRun`].
    pub fn enabled_run_read(&self, root: RootKey, reply: Result<String, i32>) -> (step: EnabledStep)
        ensures
            self.queries(after_registered(root, reply), step),
    {
        match reply {
            Ok(_) => self.is_task_manager_enabled(RootKey::LocalMachine),
            Err(code) => {
                if code != e_filenotfound() {
                    EnabledStep::Finished(Err(LaunchError::Registry(code)))
                } else {
                    match root {
                        RootKey::LocalMachine => self.is_registered(RootKey::CurrentUser),
                        RootKey::CurrentUser => EnabledStep::Finished(Ok(false)),
                    }
                }
            },
        }
    }

    /// Goes on from [`EnabledStep::ReadSwitch`].
    pub fn enabled_switch_read(&self, root: RootKey, reply: Result<Vec<u8>, i32>) -> (step:
        EnabledStep)
        ensures
            self.queries(after_switch_read(root, reply), step),
    {
        let on = match reply {
            Ok(bytes) => match last_eight_bytes_all_zeros(bytes.as_slice()) {
                Ok(zeros) => zeros,
                Err(_) => true,
            },
            Err(code) => {
                if code != e_filenotfound() {
                    return EnabledStep::Finished(Err(LaunchError::Registry(code)));
                }
                true
            },
        };
        if !on {
            return EnabledStep::Finished(Ok(false));
        }
        match root {
            RootKey::LocalMachine => self.is_task_manager_enabled(RootKey::CurrentUser),
            RootKey::CurrentUser => EnabledStep::Finished(Ok(true)),
        }
    }
}

} // verus!
