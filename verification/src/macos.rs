//! Launching at login on macOS: launch agents and daemons, login items by AppleScript, and the
//! service of the main application.
//!
//! An operation is a walk of steps. A step says what to do next on the host; the method that
//! goes with it takes the host's answer and gives the next step, until one says how the
//! operation ended.

use vstd::prelude::*;
use vstd::utf8::*;

use crate::error;
use crate::error::{IoError, IoErrorKind, LaunchError};
use crate::host;
use crate::host::CommandOutput;
use crate::property_list;
use crate::property_list::{PlistItem, PlistValue};
use crate::text;

verus! {

/// How an application is registered on macOS.
#[derive(Clone, Copy, Debug, PartialEq, Eq, Structural)]
pub enum MacOSLaunchMode {
    /// A launch agent of the user.
    LaunchAgentUser,
    /// A launch agent of the system.
    LaunchAgentSystem,
    /// A launch daemon of the system, which runs as root.
    LaunchDaemonSystem,
    /// A login item, by AppleScript.
    AppleScript,
    /// The service of the running application.
    SMAppService,
}

/// The status of the service of the running application.
#[derive(Clone, Copy, Debug, PartialEq, Eq, Structural)]
pub enum ServiceStatus {
    NotRegistered,
    Enabled,
    RequiresApproval,
    NotFound,
}

/// An application to be launched at login.
#[derive(Debug)]
pub struct AutoLaunch {
    /// The application's name.
    pub app_name: String,
    /// The path of the application.
    pub app_path: String,
    /// How it is registered.
    pub launch_mode: MacOSLaunchMode,
    /// What is passed to it when it starts.
    pub args: Vec<String>,
    /// The bundles that a launch agent belongs to.
    pub bundle_identifiers: Vec<String>,
    /// Further settings of a launch agent or daemon. They are not in use.
    pub agent_extra_config: String,
}

/// A property list file: where it stands, and the directory that holds it.
#[derive(Debug)]
pub struct PlistFile {
    pub file: Vec<u8>,
    pub dir: Vec<u8>,
}

/// What comes next while a registration is being made.
#[derive(Debug)]
pub enum EnableStep {
    /// Register the service of the running application; then
    /// [`AutoLaunch::enable_service_registered`].
    RegisterService,
    /// Ask whether anything exists at the application's path; then
    /// [`AutoLaunch::enable_app_checked`].
    CheckApp,
    /// Ask whether the directory exists; then [`AutoLaunch::enable_dir_checked`].
    CheckDir(PlistFile),
    /// Create the directory and those above it; then [`AutoLaunch::enable_dir_created`].
    CreateDir(PlistFile),
    /// Create the file, or empty it; then [`AutoLaunch::enable_file_created`].
    CreateFile(PlistFile),
    /// Write these bytes to the new file; then [`AutoLaunch::enable_file_written`].
    WriteFile(Vec<u8>),
    /// Run `osascript` with these arguments; then [`AutoLaunch::enable_script_run`].
    RunScript(Vec<String>),
    /// Nothing is left to do.
    Finished(Result<(), LaunchError>),
}

/// What comes next while a registration is being removed.
#[derive(Debug)]
pub enum DisableStep {
    /// Unregister the service of the running application; then
    /// [`AutoLaunch::disable_service_unregistered`].
    UnregisterService,
    /// Ask whether the file exists; then [`AutoLaunch::disable_file_checked`].
    CheckFile(Vec<u8>),
    /// Remove the file; then [`AutoLaunch::disable_file_removed`].
    RemoveFile(Vec<u8>),
    /// Run `osascript` with these arguments; then [`AutoLaunch::disable_script_run`].
    RunScript(Vec<String>),
    /// Nothing is left to do.
    Finished(Result<(), LaunchError>),
}

/// What comes next while it is being found out whether the application is launched at login.
#[derive(Debug)]
pub enum EnabledStep {
    /// Ask for the status of the service; then [`AutoLaunch::enabled_service_queried`].
    QueryService,
    /// Ask whether the file exists; then [`AutoLaunch::enabled_file_checked`].
    CheckFile(Vec<u8>),
    /// Run `osascript` with these arguments; then [`AutoLaunch::enabled_script_run`].
    RunScript(Vec<String>),
    /// The answer.
    Finished(Result<bool, LaunchError>),
}

/// Whether the registrations of a mode are property lists.
pub open spec fn uses_plist(mode: MacOSLaunchMode) -> bool {
    mode != MacOSLaunchMode::AppleScript && mode != MacOSLaunchMode::SMAppService
}

/// What follows the last `/`.
pub open spec fn last_component(path: Seq<char>) -> Seq<char>
    decreases path.len(),
{
    if path.len() == 0 || path.last() == '/' {
        seq![]
    } else {
        last_component(path.drop_last()).push(path.last())
    }
}

/// The name of the login item that an application's path makes: its last component, without
/// `.app`.
pub open spec fn login_item_name(app_path: Seq<char>) -> Seq<char> {
    if ".app"@.is_suffix_of(app_path) {
        last_component(app_path.take(app_path.len() - ".app"@.len()))
    } else {
        last_component(app_path)
    }
}

pub proof fn lemma_last_component(path: Seq<char>, begin: int)
    requires
        0 <= begin <= path.len(),
        begin > 0 ==> path[begin - 1] == '/',
        forall|i: int| begin <= i < path.len() ==> path[i] != '/',
    ensures
        last_component(path) == path.skip(begin),
    decreases path.len(),
{
    if begin < path.len() {
        lemma_last_component(path.drop_last(), begin);
        assert(path.drop_last().skip(begin).push(path.last()) =~= path.skip(begin));
    } else {
        assert(path.skip(begin) =~= seq![]);
    }
}

/// Finds the name of the login item that an application's path makes.
pub fn login_item_name_of(app_path: &str) -> (name: &str)
    ensures
        name@ == login_item_name(app_path@),
{
    let cs = text::chars(app_path);
    let end: usize = if text::has_suffix(app_path, ".app") {
        cs.len() - ".app".unicode_len()
    } else {
        cs.len()
    };
    let ghost stem = app_path@.take(end as int);
    let mut begin: usize = end;
    while begin > 0 && cs[begin - 1] != '/'
        invariant
            cs@ == app_path@,
            begin <= end <= cs.len(),
            stem == app_path@.take(end as int),
            forall|i: int| begin <= i < end ==> stem[i] != '/',
        ensures
            begin > 0 ==> stem[begin - 1] == '/',
        decreases begin,
    {
        begin -= 1;
    }
    proof {
        lemma_last_component(stem, begin as int);
        assert(stem.skip(begin as int) =~= app_path@.subrange(begin as int, end as int));
        assert(app_path@.take(app_path@.len() as int) =~= app_path@);
    }
    app_path.substring_char(begin, end)
}

/// The command that a launch agent or daemon runs: the path and the arguments.
pub open spec fn program_arguments(app_path: Seq<char>, args: Seq<Seq<char>>) -> Seq<Seq<char>> {
    seq![app_path] + args
}

/// The entries of a launch agent.
pub open spec fn launch_agent_entries(
    app_name: Seq<char>,
    app_path: Seq<char>,
    args: Seq<Seq<char>>,
    bundle_identifiers: Seq<Seq<char>>,
) -> Seq<(Seq<char>, PlistItem)> {
    let program = ("ProgramArguments"@, PlistItem::Texts(program_arguments(app_path, args)));
    let run = ("RunAtLoad"@, PlistItem::Flag(true));
    if bundle_identifiers.len() == 0 {
        seq![("Label"@, PlistItem::Text(app_name)), program, run]
    } else {
        seq![
            ("Label"@, PlistItem::Text(app_name)),
            ("AssociatedBundleIdentifiers"@, PlistItem::Texts(bundle_identifiers)),
            program,
            run,
        ]
    }
}

/// The entries of a launch daemon.
pub open spec fn launch_daemon_entries(
    app_name: Seq<char>,
    app_path: Seq<char>,
    args: Seq<Seq<char>>,
) -> Seq<(Seq<char>, PlistItem)> {
    seq![
        ("Label"@, PlistItem::Text(app_name)),
        ("ProgramArguments"@, PlistItem::Texts(program_arguments(app_path, args))),
        ("RunAtLoad"@, PlistItem::Flag(true)),
        ("SessionCreate"@, PlistItem::Flag(true)),
    ]
}

pub proof fn lemma_keys_differ()
    ensures
        "Label"@ != "ProgramArguments"@,
        "Label"@ != "AssociatedBundleIdentifiers"@,
        "Label"@ != "RunAtLoad"@,
        "Label"@ != "SessionCreate"@,
        "ProgramArguments"@ != "AssociatedBundleIdentifiers"@,
        "ProgramArguments"@ != "RunAtLoad"@,
        "ProgramArguments"@ != "SessionCreate"@,
        "AssociatedBundleIdentifiers"@ != "RunAtLoad"@,
        "AssociatedBundleIdentifiers"@ != "SessionCreate"@,
        "RunAtLoad"@ != "SessionCreate"@,
{
    reveal_strlit("Label");
    reveal_strlit("ProgramArguments");
    reveal_strlit("AssociatedBundleIdentifiers");
    reveal_strlit("RunAtLoad");
    reveal_strlit("SessionCreate");
    assert("Label"@[0] == 'L');
    assert("ProgramArguments"@[0] == 'P');
    assert("AssociatedBundleIdentifiers"@[0] == 'A');
    assert("RunAtLoad"@[0] == 'R');
    assert("SessionCreate"@[0] == 'S');
}

/// Copies strings behind those that are there.
fn append_copies(to: &mut Vec<String>, from: &[String])
    ensures
        text::texts(final(to)@) == text::texts(old(to)@) + text::texts(from@),
{
    let ghost start = text::texts(to@);
    let mut i: usize = 0;
    assert(start + text::texts(from@).take(0) =~= start);
    while i < from.len()
        invariant
            i <= from.len(),
            text::texts(to@) == start + text::texts(from@).take(i as int),
        decreases from.len() - i,
    {
        let ghost before = to@;
        to.push(from[i].clone());
        i += 1;
        assert(text::texts(to@) =~= text::texts(before).push(from@[i - 1]@));
        assert(text::texts(to@) =~= start + text::texts(from@).take(i as int));
    }
    assert(text::texts(from@).take(from@.len() as int) =~= text::texts(from@));
}

/// The command that a launch agent or daemon runs.
fn program_arguments_of(app_path: &str, args: &[String]) -> (r: Vec<String>)
    ensures
        text::texts(r@) == program_arguments(app_path@, text::texts(args@)),
{
    let mut program: Vec<String> = Vec::new();
    program.push(app_path.to_owned());
    assert(text::texts(program@) =~= seq![app_path@]);
    append_copies(&mut program, args);
    program
}

/// Makes the property list of a launch agent.
pub fn build_launch_agent_plist(
    app_name: &str,
    app_path: &str,
    args: &[String],
    bundle_identifiers: &[String],
) -> (dict: plist::Dictionary)
    ensures
        property_list::dictionary_entries(dict) == launch_agent_entries(
            app_name@,
            app_path@,
            text::texts(args@),
            text::texts(bundle_identifiers@),
        ),
{
    proof {
        lemma_keys_differ();
    }
    let program = program_arguments_of(app_path, args);
    let mut dict = plist::Dictionary::new();
    property_list::insert(&mut dict, "Label", PlistValue::Text(app_name.to_owned()));
    if bundle_identifiers.len() > 0 {
        let mut ids: Vec<String> = Vec::new();
        append_copies(&mut ids, bundle_identifiers);
        assert(text::texts(ids@) =~= text::texts(bundle_identifiers@));
        property_list::insert(&mut dict, "AssociatedBundleIdentifiers", PlistValue::Texts(ids));
    }
    property_list::insert(&mut dict, "ProgramArguments", PlistValue::Texts(program));
    property_list::insert(&mut dict, "RunAtLoad", PlistValue::Flag(true));
    assert(property_list::dictionary_entries(dict) =~= launch_agent_entries(
        app_name@,
        app_path@,
        text::texts(args@),
        text::texts(bundle_identifiers@),
    ));
    dict
}

/// Makes the property list of a launch daemon. It creates a session of its own.
pub fn build_launch_daemon_plist(app_name: &str, app_path: &str, args: &[String]) -> (dict:
    plist::Dictionary)
    ensures
        property_list::dictionary_entries(dict) == launch_daemon_entries(
            app_name@,
            app_path@,
            text::texts(args@),
        ),
{
    proof {
        lemma_keys_differ();
    }
    let program = program_arguments_of(app_path, args);
    let mut dict = plist::Dictionary::new();
    property_list::insert(&mut dict, "Label", PlistValue::Text(app_name.to_owned()));
    property_list::insert(&mut dict, "ProgramArguments", PlistValue::Texts(program));
    property_list::insert(&mut dict, "RunAtLoad", PlistValue::Flag(true));
    property_list::insert(&mut dict, "SessionCreate", PlistValue::Flag(true));
    assert(property_list::dictionary_entries(dict) =~= launch_daemon_entries(
        app_name@,
        app_path@,
        text::texts(args@),
    ));
    dict
}

/// The directory of the property lists of a mode.
pub open spec fn plist_dir(mode: MacOSLaunchMode, home: Option<Seq<u8>>) -> Option<Seq<u8>> {
    match mode {
        MacOSLaunchMode::LaunchAgentUser => host::below_home(
            home,
            seq!["Library"@, "LaunchAgents"@],
        ),
        MacOSLaunchMode::LaunchAgentSystem => Some(encode_utf8("/Library/LaunchAgents"@)),
        _ => Some(encode_utf8("/Library/LaunchDaemons"@)),
    }
}

/// Finds the directory of the property lists of a mode.
pub fn get_dir(mode: MacOSLaunchMode, home: &Option<Vec<u8>>) -> (r: Result<Vec<u8>, LaunchError>)
    requires
        uses_plist(mode),
    ensures
        host::located(r, plist_dir(mode, host::bytes_of(*home))),
{
    match mode {
        MacOSLaunchMode::LaunchAgentUser => {
            let names: [&str; 2] = ["Library", "LaunchAgents"];
            assert(names@.map_values(|s: &str| s@) =~= seq!["Library"@, "LaunchAgents"@]);
            host::descend_home(home, names.as_slice())
        },
        MacOSLaunchMode::LaunchAgentSystem => Ok("/Library/LaunchAgents".as_bytes_vec()),
        _ => Ok("/Library/LaunchDaemons".as_bytes_vec()),
    }
}

/// The arguments with which `osascript` has System Events do what `suffix` says.
pub open spec fn script_args(suffix: Seq<char>) -> Seq<Seq<char>> {
    seq!["-e"@, "tell application \"System Events\" to "@ + suffix]
}

/// The arguments with which `osascript` has System Events do what `cmd_suffix` says.
pub fn exec_apple_script(cmd_suffix: &str) -> (args: Vec<String>)
    ensures
        text::texts(args@) == script_args(cmd_suffix@),
{
    let mut args: Vec<String> = Vec::new();
    args.push("-e".to_owned());
    args.push("tell application \"System Events\" to ".to_owned().concat(cmd_suffix));
    assert(text::texts(args@) =~= script_args(cmd_suffix@));
    args
}

/// The script command that makes a login item.
pub open spec fn make_login_item(
    app_name: Seq<char>,
    app_path: Seq<char>,
    hidden: bool,
) -> Seq<char> {
    "make login item at end with properties {name:\""@ + app_name + "\",path:\""@ + app_path
        + "\",hidden:"@ + (if hidden {
        "true"@
    } else {
        "false"@
    }) + "}"@
}

/// The script command that deletes a login item.
pub open spec fn delete_login_item(app_name: Seq<char>) -> Seq<char> {
    "delete login item \""@ + app_name + "\""@
}

/// Whether an argument asks for the application to be launched out of sight.
pub open spec fn starts_hidden(args: Seq<Seq<char>>) -> bool {
    args.contains("--hidden"@) || args.contains("--minimized"@)
}

/// Whether a listing, of names between commas, holds the name.
pub open spec fn listed(listing: Seq<char>, name: Seq<char>) -> bool {
    exists|i: int|
        0 <= i < text::fields(listing, ',').len() && text::trim(
            #[trigger] text::fields(listing, ',')[i],
        ) == name
}

/// The text of a listing; none where it is no valid UTF-8.
pub open spec fn listing_text(stdout: Seq<u8>) -> Seq<char> {
    if valid_utf8(stdout) {
        decode_utf8(stdout)
    } else {
        ""@
    }
}

/// How a script that was run is judged.
pub open spec fn script_verdict(reply: Result<CommandOutput, IoError>) -> Result<(), LaunchError> {
    match reply {
        Ok(output) => if output.success {
            Ok(())
        } else {
            Err(
                LaunchError::AppleScriptFailed(
                    match output.code {
                        Some(code) => code,
                        None => 1,
                    },
                ),
            )
        },
        Err(e) => Err(LaunchError::Io(e)),
    }
}

/// Judges a script that was run.
pub fn script_result(reply: Result<CommandOutput, IoError>) -> (r: Result<(), LaunchError>)
    ensures
        r == script_verdict(reply),
{
    match reply {
        Ok(output) => {
            if output.success {
                Ok(())
            } else {
                match output.code {
                    Some(code) => Err(LaunchError::AppleScriptFailed(code)),
                    None => Err(LaunchError::AppleScriptFailed(1)),
                }
            }
        },
        Err(e) => Err(LaunchError::Io(e)),
    }
}

/// Tells whether an argument asks for the application to be launched out of sight.
pub fn hidden_among(args: &[String]) -> (r: bool)
    ensures
        r == starts_hidden(text::texts(args@)),
{
    let mut i: usize = 0;
    while i < args.len()
        invariant
            i <= args.len(),
            forall|j: int|
                0 <= j < i ==> #[trigger] text::texts(args@)[j] != "--hidden"@ && text::texts(
                    args@,
                )[j] != "--minimized"@,
        decreases args.len() - i,
    {
        assert(text::texts(args@)[i as int] == args@[i as int]@);
        if text::same(args[i].as_str(), "--hidden") || text::same(args[i].as_str(), "--minimized") {
            return true;
        }
        i += 1;
    }
    false
}

/// Tells whether a listing, of names between commas, holds the name.
pub fn lists_name(listing: &str, name: &str) -> (r: bool)
    ensures
        r == listed(listing@, name@),
{
    let names = text::fields_of(listing, ',');
    let mut i: usize = 0;
    while i < names.len()
        invariant
            i <= names.len(),
            text::texts(names@) == text::fields(listing@, ','),
            forall|j: int|
                0 <= j < i ==> text::trim(#[trigger] text::fields(listing@, ',')[j]) != name@,
        decreases names.len() - i,
    {
        assert(text::texts(names@)[i as int] == names@[i as int]@);
        if text::same(text::trimmed(names[i].as_str()), name) {
            assert(text::trim(text::fields(listing@, ',')[i as int]) == name@);
            return true;
        }
        i += 1;
    }
    false
}

impl AutoLaunch {
    /// The path of this application's property list.
    pub open spec fn registration_file(&self, home: Option<Seq<u8>>) -> Option<Seq<u8>> {
        match plist_dir(self.launch_mode, home) {
            Some(dir) => Some(host::path_joined(dir, encode_utf8(self.app_name@ + ".plist"@))),
            None => None,
        }
    }

    /// The entries of this application's property list.
    pub open spec fn registration_entries(&self) -> Seq<(Seq<char>, PlistItem)> {
        if self.launch_mode == MacOSLaunchMode::LaunchDaemonSystem {
            launch_daemon_entries(self.app_name@, self.app_path@, text::texts(self.args@))
        } else {
            launch_agent_entries(
                self.app_name@,
                self.app_path@,
                text::texts(self.args@),
                text::texts(self.bundle_identifiers@),
            )
        }
    }

    /// Whether `p` is where this application's property list stands.
    pub open spec fn registers(&self, p: PlistFile, home: Option<Seq<u8>>) -> bool {
        &&& plist_dir(self.launch_mode, home) == Some(p.dir@)
        &&& self.registration_file(home) == Some(p.file@)
    }

    /// How writing the property list starts: its directory comes first.
    pub open spec fn writing_starts(&self, home: Option<Seq<u8>>, step: EnableStep) -> bool {
        match step {
            EnableStep::CheckDir(p) => self.registers(p, home),
            EnableStep::Finished(Err(e)) => self.registration_file(home) is None
                && error::home_not_found(e),
            _ => false,
        }
    }

    /// Describes an application to be launched at login.
    ///
    /// A login item is named after the application's path; `app_name` then does not count.
    pub fn new(
        app_name: &str,
        app_path: &str,
        launch_mode: MacOSLaunchMode,
        args: &[&str],
        bundle_identifiers: &[&str],
        agent_extra_config: &str,
    ) -> (r: AutoLaunch)
        ensures
            launch_mode == MacOSLaunchMode::AppleScript ==> r.app_name@ == login_item_name(
                app_path@,
            ),
            launch_mode != MacOSLaunchMode::AppleScript ==> r.app_name@ == app_name@,
            r.app_path@ == app_path@,
            r.launch_mode == launch_mode,
            text::texts(r.args@) == args@.map_values(|s: &str| s@),
            text::texts(r.bundle_identifiers@) == bundle_identifiers@.map_values(|s: &str| s@),
            r.agent_extra_config@ == agent_extra_config@,
    {
        let name = if launch_mode == MacOSLaunchMode::AppleScript {
            login_item_name_of(app_path)
        } else {
            app_name
        };
        AutoLaunch {
            app_name: name.to_owned(),
            app_path: app_path.to_owned(),
            launch_mode,
            args: text::owned_copies(args),
            bundle_identifiers: text::owned_copies(bundle_identifiers),
            agent_extra_config: agent_extra_config.to_owned(),
        }
    }

    /// The path of the property list.
    pub fn get_file(&self, home: &Option<Vec<u8>>) -> (r: Result<Vec<u8>, LaunchError>)
        requires
            uses_plist(self.launch_mode),
        ensures
            host::located(r, self.registration_file(host::bytes_of(*home))),
    {
        match get_dir(self.launch_mode, home) {
            Ok(dir) => {
                let name = self.app_name.clone().concat(".plist");
                Ok(host::join_path(dir.as_slice(), name.as_str()))
            },
            Err(e) => Err(e),
        }
    }

    /// How registering starts: with the service of the running application, or with the
    /// application's path.
    pub open spec fn first_enable(&self) -> EnableStep {
        if self.launch_mode == MacOSLaunchMode::SMAppService {
            EnableStep::RegisterService
        } else {
            EnableStep::CheckApp
        }
    }

    /// Registers the application.
    pub fn enable(&self) -> (step: EnableStep)
        ensures
            step == self.first_enable(),
    {
        if self.launch_mode == MacOSLaunchMode::SMAppService {
            EnableStep::RegisterService
        } else {
            EnableStep::CheckApp
        }
    }

    /// What follows the registration of the service.
    pub open spec fn after_service_registered(reply: Result<(), u32>) -> EnableStep {
        match reply {
            Ok(()) => EnableStep::Finished(Ok(())),
            Err(code) => EnableStep::Finished(
                Err(LaunchError::SMAppServiceRegistrationFailed(code)),
            ),
        }
    }

    /// Goes on from [`EnableStep::RegisterService`]; a failure has a code.
    pub fn enable_service_registered(&self, reply: Result<(), u32>) -> (step: EnableStep)
        ensures
            step == Self::after_service_registered(reply),
    {
        match reply {
            Ok(()) => EnableStep::Finished(Ok(())),
            Err(code) => EnableStep::Finished(
                Err(LaunchError::SMAppServiceRegistrationFailed(code)),
            ),
        }
    }

    /// Whether the application's path is absolute.
    pub open spec fn has_absolute_path(&self) -> bool {
        self.app_path@.len() > 0 && self.app_path@[0] == '/'
    }

    /// Whether `step` follows the answer to whether anything exists at the application's path.
    pub open spec fn after_app_checked(
        &self,
        home: Option<Seq<u8>>,
        exists: bool,
        step: EnableStep,
    ) -> bool {
        if !exists {
            step matches EnableStep::Finished(Err(LaunchError::AppPathDoesntExist(path))) && path@
                == self.app_path@
        } else if !self.has_absolute_path() {
            step matches EnableStep::Finished(Err(LaunchError::AppPathIsNotAbsolute(path))) && path@
                == self.app_path@
        } else if self.launch_mode == MacOSLaunchMode::AppleScript {
            step matches EnableStep::RunScript(args) && text::texts(args@) == script_args(
                make_login_item(
                    self.app_name@,
                    self.app_path@,
                    starts_hidden(text::texts(self.args@)),
                ),
            )
        } else {
            self.writing_starts(home, step)
        }
    }

    /// Goes on from [`EnableStep::CheckApp`].
    pub fn enable_app_checked(&self, exists: bool) -> (step: EnableStep)
        requires
            self.launch_mode != MacOSLaunchMode::SMAppService,
        ensures
            exists|home: Option<Seq<u8>>|
                host::found_home(home) && #[trigger] self.after_app_checked(home, exists, step),
    {
        let home = host::current_home();
        let step = self.app_checked_below(&home, exists);
        assert(self.after_app_checked(host::bytes_of(home), exists, step));
        step
    }

    /// Goes on from [`EnableStep::CheckApp`], below the home directory given.
    pub fn app_checked_below(&self, home: &Option<Vec<u8>>, exists: bool) -> (step: EnableStep)
        requires
            self.launch_mode != MacOSLaunchMode::SMAppService,
        ensures
            self.after_app_checked(host::bytes_of(*home), exists, step),
    {
        if !exists {
            return EnableStep::Finished(
                Err(LaunchError::AppPathDoesntExist(self.app_path.clone())),
            );
        }
        let path = text::chars(self.app_path.as_str());
        if path.len() == 0 || path[0] != '/' {
            return EnableStep::Finished(
                Err(LaunchError::AppPathIsNotAbsolute(self.app_path.clone())),
            );
        }
        match self.launch_mode {
            MacOSLaunchMode::LaunchAgentUser
            | MacOSLaunchMode::LaunchAgentSystem
            | MacOSLaunchMode::LaunchDaemonSystem => self.write_plist(home),
            MacOSLaunchMode::AppleScript | MacOSLaunchMode::SMAppService => {
                EnableStep::RunScript(self.enable_applescript())
            },
        }
    }

    /// Writes the property list: its directory comes first.
    pub fn write_plist(&self, home: &Option<Vec<u8>>) -> (step: EnableStep)
        requires
            uses_plist(self.launch_mode),
        ensures
            self.writing_starts(host::bytes_of(*home), step),
    {
        let dir = match get_dir(self.launch_mode, home) {
            Ok(dir) => dir,
            Err(e) => {
                return EnableStep::Finished(Err(e));
            },
        };
        match self.get_file(home) {
            Ok(file) => EnableStep::CheckDir(PlistFile { file, dir }),
            Err(e) => EnableStep::Finished(Err(e)),
        }
    }

    /// Makes the property list of this application's mode.
    pub fn registration_plist(&self) -> (dict: plist::Dictionary)
        ensures
            property_list::dictionary_entries(dict) == self.registration_entries(),
    {
        if self.launch_mode == MacOSLaunchMode::LaunchDaemonSystem {
            build_launch_daemon_plist(
                self.app_name.as_str(),
                self.app_path.as_str(),
                self.args.as_slice(),
            )
        } else {
            build_launch_agent_plist(
                self.app_name.as_str(),
                self.app_path.as_str(),
                self.args.as_slice(),
                self.bundle_identifiers.as_slice(),
            )
        }
    }

    /// The arguments with which `osascript` makes the login item.
    pub fn enable_applescript(&self) -> (args: Vec<String>)
        ensures
            text::texts(args@) == script_args(
                make_login_item(
                    self.app_name@,
                    self.app_path@,
                    starts_hidden(text::texts(self.args@)),
                ),
            ),
    {
        let hidden = if hidden_among(self.args.as_slice()) { "true" } else { "false" };
        let command = "make login item at end with properties {name:\"".to_owned().concat(
            self.app_name.as_str(),
        ).concat("\",path:\"").concat(self.app_path.as_str()).concat("\",hidden:").concat(
            hidden,
        ).concat("}");
        exec_apple_script(command.as_str())
    }

    /// What follows the answer to whether the directory exists.
    pub open spec fn after_dir_checked(p: PlistFile, exists: bool) -> EnableStep {
        if exists {
            EnableStep::CreateFile(p)
        } else {
            EnableStep::CreateDir(p)
        }
    }

    /// What follows the creation of the directory.
    pub open spec fn after_dir_created(p: PlistFile, reply: Result<(), IoError>) -> EnableStep {
        match reply {
            Ok(()) => EnableStep::CreateFile(p),
            Err(e) => EnableStep::Finished(Err(LaunchError::Io(e))),
        }
    }

    /// Whether `step` follows the creation of the file: the property list goes into it.
    pub open spec fn after_file_created(
        &self,
        reply: Result<(), IoError>,
        step: EnableStep,
    ) -> bool {
        match reply {
            Ok(()) => step matches EnableStep::WriteFile(bytes) && bytes@ == property_list::xml_of(
                self.registration_entries(),
            ),
            Err(e) => step == EnableStep::Finished(Err(LaunchError::Io(e))),
        }
    }

    /// Whether `step` follows the writing of the file.
    pub open spec fn after_file_written(reply: Result<(), String>, step: EnableStep) -> bool {
        match reply {
            Ok(()) => step == EnableStep::Finished(Ok(())),
            Err(debug) => step matches EnableStep::Finished(Err(raised)) && error::raised(
                raised,
                IoErrorKind::Other,
                property_list::write_failure(debug@),
            ),
        }
    }

    /// Goes on from [`EnableStep::CheckDir`].
    pub fn enable_dir_checked(&self, p: PlistFile, exists: bool) -> (step: EnableStep)
        ensures
            step == Self::after_dir_checked(p, exists),
    {
        if exists {
            EnableStep::CreateFile(p)
        } else {
            EnableStep::CreateDir(p)
        }
    }

    /// Goes on from [`EnableStep::CreateDir`].
    pub fn enable_dir_created(&self, p: PlistFile, reply: Result<(), IoError>) -> (step: EnableStep)
        ensures
            step == Self::after_dir_created(p, reply),
    {
        match reply {
            Ok(()) => EnableStep::CreateFile(p),
            Err(e) => EnableStep::Finished(Err(LaunchError::Io(e))),
        }
    }

    /// Goes on from [`EnableStep::CreateFile`] with the property list in its XML form.
    pub fn enable_file_created(&self, reply: Result<(), IoError>) -> (step: EnableStep)
        ensures
            self.after_file_created(reply, step),
    {
        match reply {
            Ok(()) => match property_list::to_xml(self.registration_plist()) {
                Ok(bytes) => EnableStep::WriteFile(bytes),
                Err(e) => EnableStep::Finished(Err(LaunchError::Plist(e))),
            },
            Err(e) => EnableStep::Finished(Err(LaunchError::Io(e))),
        }
    }

    /// Goes on from [`EnableStep::WriteFile`]; a failure is given by the debug form of the host's
    /// error. It becomes an error of no particular kind, with the message of the property list's
    /// writer.
    pub fn enable_file_written(&self, reply: Result<(), String>) -> (step: EnableStep)
        ensures
            Self::after_file_written(reply, step),
    {
        match reply {
            Ok(()) => EnableStep::Finished(Ok(())),
            Err(debug) => EnableStep::Finished(
                Err(
                    error::raise(
                        IoErrorKind::Other,
                        property_list::write_failure_message(debug.as_str()),
                    ),
                ),
            ),
        }
    }

    /// Goes on from [`EnableStep::RunScript`].
    pub fn enable_script_run(&self, reply: Result<CommandOutput, IoError>) -> (step: EnableStep)
        ensures
            step == EnableStep::Finished(script_verdict(reply)),
    {
        EnableStep::Finished(script_result(reply))
    }

    /// How removing the registration starts.
    pub open spec fn disable_starts(&self, home: Option<Seq<u8>>, step: DisableStep) -> bool {
        match self.launch_mode {
            MacOSLaunchMode::SMAppService => step == DisableStep::UnregisterService,
            MacOSLaunchMode::AppleScript => step matches DisableStep::RunScript(args)
                && text::texts(args@) == script_args(delete_login_item(self.app_name@)),
            _ => match step {
                DisableStep::CheckFile(file) => self.registration_file(home) == Some(file@),
                DisableStep::Finished(Err(e)) => self.registration_file(home) is None
                    && error::home_not_found(e),
                _ => false,
            },
        }
    }

    /// What follows the unregistration of the service.
    pub open spec fn after_service_unregistered(reply: Result<(), u32>) -> DisableStep {
        match reply {
            Ok(()) => DisableStep::Finished(Ok(())),
            Err(code) => DisableStep::Finished(
                Err(LaunchError::SMAppServiceUnregistrationFailed(code)),
            ),
        }
    }

    /// What follows the answer to whether the property list is there to be removed.
    pub open spec fn after_removal_checked(file: Vec<u8>, exists: bool) -> DisableStep {
        if exists {
            DisableStep::RemoveFile(file)
        } else {
            DisableStep::Finished(Ok(()))
        }
    }

    /// What follows the removal of the property list.
    pub open spec fn after_file_removed(reply: Result<(), IoError>) -> DisableStep {
        match reply {
            Ok(()) => DisableStep::Finished(Ok(())),
            Err(e) => DisableStep::Finished(Err(LaunchError::Io(e))),
        }
    }

    /// Removes the application's registration.
    pub fn disable(&self) -> (step: DisableStep)
        ensures
            exists|home: Option<Seq<u8>>|
                host::found_home(home) && #[trigger] self.disable_starts(home, step),
    {
        let home = host::current_home();
        let step = self.disable_below(&home);
        assert(self.disable_starts(host::bytes_of(home), step));
        step
    }

    /// Removes the application's registration below the home directory given.
    pub fn disable_below(&self, home: &Option<Vec<u8>>) -> (step: DisableStep)
        ensures
            self.disable_starts(host::bytes_of(*home), step),
    {
        match self.launch_mode {
            MacOSLaunchMode::LaunchAgentUser
            | MacOSLaunchMode::LaunchAgentSystem
            | MacOSLaunchMode::LaunchDaemonSystem => self.disable_plist(home),
            MacOSLaunchMode::AppleScript => DisableStep::RunScript(self.disable_applescript()),
            MacOSLaunchMode::SMAppService => DisableStep::UnregisterService,
        }
    }

    /// Removes the property list.
    pub fn disable_plist(&self, home: &Option<Vec<u8>>) -> (step: DisableStep)
        requires
            uses_plist(self.launch_mode),
        ensures
            self.disable_starts(host::bytes_of(*home), step),
    {
        match self.get_file(home) {
            Ok(file) => DisableStep::CheckFile(file),
            Err(e) => DisableStep::Finished(Err(e)),
        }
    }

    /// The arguments with which `osascript` deletes the login item.
    pub fn disable_applescript(&self) -> (args: Vec<String>)
        ensures
            text::texts(args@) == script_args(delete_login_item(self.app_name@)),
    {
        let command = "delete login item \"".to_owned().concat(self.app_name.as_str()).concat("\"");
        exec_apple_script(command.as_str())
    }

    /// Goes on from [`DisableStep::UnregisterService`]; a failure has a code.
    pub fn disable_service_unregistered(&self, reply: Result<(), u32>) -> (step: DisableStep)
        ensures
            step == Self::after_service_unregistered(reply),
    {
        match reply {
            Ok(()) => DisableStep::Finished(Ok(())),
            Err(code) => DisableStep::Finished(
                Err(LaunchError::SMAppServiceUnregistrationFailed(code)),
            ),
        }
    }

    /// Goes on from [`DisableStep::CheckFile`]. Where there is no file, there is nothing to do.
    pub fn disable_file_checked(&self, file: Vec<u8>, exists: bool) -> (step: DisableStep)
        ensures
            step == Self::after_removal_checked(file, exists),
    {
        if exists {
            DisableStep::RemoveFile(file)
        } else {
            DisableStep::Finished(Ok(()))
        }
    }

    /// Goes on from [`DisableStep::RemoveFile`].
    pub fn disable_file_removed(&self, reply: Result<(), IoError>) -> (step: DisableStep)
        ensures
            step == Self::after_file_removed(reply),
    {
        match reply {
            Ok(()) => DisableStep::Finished(Ok(())),
            Err(e) => DisableStep::Finished(Err(LaunchError::Io(e))),
        }
    }

    /// Goes on from [`DisableStep::RunScript`].
    pub fn disable_script_run(&self, reply: Result<CommandOutput, IoError>) -> (step: DisableStep)
        ensures
            step == DisableStep::Finished(script_verdict(reply)),
    {
        DisableStep::Finished(script_result(reply))
    }

    /// How finding out whether the application is launched at login starts.
    pub open spec fn enabled_starts(&self, home: Option<Seq<u8>>, step: EnabledStep) -> bool {
        match self.launch_mode {
            MacOSLaunchMode::SMAppService => step == EnabledStep::QueryService,
            MacOSLaunchMode::AppleScript => step matches EnabledStep::RunScript(args)
                && text::texts(args@) == script_args("get the name of every login item"@),
            _ => match step {
                EnabledStep::CheckFile(file) => self.registration_file(home) == Some(file@),
                EnabledStep::Finished(Err(e)) => self.registration_file(home) is None
                    && error::home_not_found(e),
                _ => false,
            },
        }
    }

    /// Finds out whether the application is launched at login.
    pub fn is_enabled(&self) -> (step: EnabledStep)
        ensures
            exists|home: Option<Seq<u8>>|
                host::found_home(home) && #[trigger] self.enabled_starts(home, step),
    {
        let home = host::current_home();
        let step = self.is_enabled_below(&home);
        assert(self.enabled_starts(host::bytes_of(home), step));
        step
    }

    /// Finds out whether the application is launched at login, below the home directory given.
    pub fn is_enabled_below(&self, home: &Option<Vec<u8>>) -> (step: EnabledStep)
        ensures
            self.enabled_starts(host::bytes_of(*home), step),
    {
        match self.launch_mode {
            MacOSLaunchMode::LaunchAgentUser
            | MacOSLaunchMode::LaunchAgentSystem
            | MacOSLaunchMode::LaunchDaemonSystem => match self.get_file(home) {
                Ok(file) => EnabledStep::CheckFile(file),
                Err(e) => EnabledStep::Finished(Err(e)),
            },
            MacOSLaunchMode::AppleScript => EnabledStep::RunScript(
                exec_apple_script("get the name of every login item"),
            ),
            MacOSLaunchMode::SMAppService => EnabledStep::QueryService,
        }
    }

    /// Goes on from [`EnabledStep::QueryService`].
    pub fn enabled_service_queried(&self, status: ServiceStatus) -> (step: EnabledStep)
        ensures
            step == EnabledStep::Finished(Ok(status == ServiceStatus::Enabled)),
    {
        EnabledStep::Finished(Ok(status == ServiceStatus::Enabled))
    }

    /// Goes on from [`EnabledStep::CheckFile`].
    pub fn enabled_file_checked(&self, exists: bool) -> (step: EnabledStep)
        ensures
            step == EnabledStep::Finished(Ok(exists)),
    {
        EnabledStep::Finished(Ok(exists))
    }

    /// What follows the listing of the login items. A script that fails lists none.
    pub open spec fn after_items_listed(
        &self,
        reply: Result<CommandOutput, IoError>,
    ) -> EnabledStep {
        match reply {
            Ok(output) => EnabledStep::Finished(
                Ok(output.success && listed(listing_text(output.stdout@), self.app_name@)),
            ),
            Err(e) => EnabledStep::Finished(Err(LaunchError::Io(e))),
        }
    }

    /// Goes on from [`EnabledStep::RunScript`].
    pub fn enabled_script_run(&self, reply: Result<CommandOutput, IoError>) -> (step: EnabledStep)
        ensures
            step == self.after_items_listed(reply),
    {
        match reply {
            Ok(output) => EnabledStep::Finished(Ok(self.is_applescript_enabled(&output))),
            Err(e) => EnabledStep::Finished(Err(LaunchError::Io(e))),
        }
    }

    /// Tells whether the login item is among those that the script listed.
    pub fn is_applescript_enabled(&self, output: &CommandOutput) -> (r: bool)
        ensures
            r == (output.success && listed(listing_text(output.stdout@), self.app_name@)),
    {
        if !output.success {
            return false;
        }
        let listing = match host::text_from_utf8(output.stdout.as_slice()) {
            Some(listing) => listing,
            None => "",
        };
        lists_name(listing, self.app_name.as_str())
    }
}

} // verus!
