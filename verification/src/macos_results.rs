//! What each operation on macOS gives, said of what it was given and of what the host answered.

use vstd::prelude::*;
use vstd::utf8::*;

use crate::error::{IoError, IoErrorKind, LaunchError};
use crate::host;
use crate::host::CommandOutput;
use crate::macos;
use crate::macos::{
    AutoLaunch, DisableStep, EnableStep, EnabledStep, MacOSLaunchMode, PlistFile,
};
use crate::property_list;
use crate::property_list::{PlistItem, PlistValue};
use crate::text;
use crate::text_laws;

verus! {

/// The entries of a launch agent: its name; the bundles that it belongs to, where there are any; the
/// command that it runs; and that it is run when it is loaded. The command is an array of its own
/// strings: the path first, then each argument by itself, in their order.
pub proof fn law_launch_agent(
    app_name: Seq<char>,
    app_path: Seq<char>,
    args: Seq<Seq<char>>,
    bundle_identifiers: Seq<Seq<char>>,
    program: Seq<Seq<char>>,
)
    requires
        program.len() == 1 + args.len(),
        program[0] == app_path,
        forall|i: int| 0 <= i < args.len() ==> program[i + 1] == #[trigger] args[i],
    ensures
        bundle_identifiers.len() == 0 ==> macos::launch_agent_entries(
            app_name,
            app_path,
            args,
            bundle_identifiers,
        ) == seq![
            ("Label"@, PlistItem::Text(app_name)),
            ("ProgramArguments"@, PlistItem::Texts(program)),
            ("RunAtLoad"@, PlistItem::Flag(true)),
        ],
        bundle_identifiers.len() > 0 ==> macos::launch_agent_entries(
            app_name,
            app_path,
            args,
            bundle_identifiers,
        ) == seq![
            ("Label"@, PlistItem::Text(app_name)),
            ("AssociatedBundleIdentifiers"@, PlistItem::Texts(bundle_identifiers)),
            ("ProgramArguments"@, PlistItem::Texts(program)),
            ("RunAtLoad"@, PlistItem::Flag(true)),
        ],
{
    lemma_program(app_path, args, program);
}

proof fn lemma_program(app_path: Seq<char>, args: Seq<Seq<char>>, program: Seq<Seq<char>>)
    requires
        program.len() == 1 + args.len(),
        program[0] == app_path,
        forall|i: int| 0 <= i < args.len() ==> program[i + 1] == #[trigger] args[i],
    ensures
        macos::program_arguments(app_path, args) == program,
{
    assert forall|i: int| 0 <= i < program.len() implies program[i] == #[trigger] macos::program_arguments(
        app_path,
        args,
    )[i] by {
        if i > 0 {
            assert(program[i - 1 + 1] == args[i - 1]);
        }
    }
    assert(macos::program_arguments(app_path, args) =~= program);
}

/// The entries of a launch daemon: its name, the command that it runs, that it is run when it is
/// loaded, and that it has a session of its own. The command is an array of its own strings: the
/// path first, then each argument by itself, in their order.
pub proof fn law_launch_daemon(
    app_name: Seq<char>,
    app_path: Seq<char>,
    args: Seq<Seq<char>>,
    program: Seq<Seq<char>>,
)
    requires
        program.len() == 1 + args.len(),
        program[0] == app_path,
        forall|i: int| 0 <= i < args.len() ==> program[i + 1] == #[trigger] args[i],
    ensures
        macos::launch_daemon_entries(app_name, app_path, args) == seq![
            ("Label"@, PlistItem::Text(app_name)),
            ("ProgramArguments"@, PlistItem::Texts(program)),
            ("RunAtLoad"@, PlistItem::Flag(true)),
            ("SessionCreate"@, PlistItem::Flag(true)),
        ],
{
    lemma_program(app_path, args, program);
}

/// What is written for an application: a launch daemon in the daemon's mode and else a launch agent,
/// with its own name, path, arguments and bundles. Where the file could not be created, that is
/// reported.
pub proof fn law_property_list_runs_the_application(
    al: &AutoLaunch,
    program: Seq<Seq<char>>,
    ids: Seq<Seq<char>>,
    e: IoError,
    created: EnableStep,
    failed: EnableStep,
)
    requires
        al.after_file_created(Ok(()), created),
        al.after_file_created(Err(e), failed),
        program.len() == 1 + al.args@.len(),
        program[0] == al.app_path@,
        forall|i: int| 0 <= i < al.args@.len() ==> program[i + 1] == (#[trigger] al.args@[i])@,
        ids.len() == al.bundle_identifiers@.len(),
        forall|i: int| 0 <= i < ids.len() ==> #[trigger] ids[i] == al.bundle_identifiers@[i]@,
    ensures
        created matches EnableStep::WriteFile(bytes) && {
            &&& al.launch_mode == MacOSLaunchMode::LaunchDaemonSystem ==> bytes@
                == property_list::xml_of(
                seq![
                    ("Label"@, PlistItem::Text(al.app_name@)),
                    ("ProgramArguments"@, PlistItem::Texts(program)),
                    ("RunAtLoad"@, PlistItem::Flag(true)),
                    ("SessionCreate"@, PlistItem::Flag(true)),
                ],
            )
            &&& al.launch_mode != MacOSLaunchMode::LaunchDaemonSystem && ids.len() == 0 ==> bytes@
                == property_list::xml_of(
                seq![
                    ("Label"@, PlistItem::Text(al.app_name@)),
                    ("ProgramArguments"@, PlistItem::Texts(program)),
                    ("RunAtLoad"@, PlistItem::Flag(true)),
                ],
            )
            &&& al.launch_mode != MacOSLaunchMode::LaunchDaemonSystem && ids.len() > 0 ==> bytes@
                == property_list::xml_of(
                seq![
                    ("Label"@, PlistItem::Text(al.app_name@)),
                    ("AssociatedBundleIdentifiers"@, PlistItem::Texts(ids)),
                    ("ProgramArguments"@, PlistItem::Texts(program)),
                    ("RunAtLoad"@, PlistItem::Flag(true)),
                ],
            )
        },
        failed == EnableStep::Finished(Err(LaunchError::Io(e))),
{
    let args = text::texts(al.args@);
    let bundles = text::texts(al.bundle_identifiers@);
    assert forall|i: int| 0 <= i < args.len() implies program[i + 1] == #[trigger] args[i] by {
        assert(args[i] == al.args@[i]@);
    }
    assert(bundles =~= ids);
    law_launch_daemon(al.app_name@, al.app_path@, args, program);
    law_launch_agent(al.app_name@, al.app_path@, args, bundles, program);
}

/// The property list of an application has its own name, path, arguments and bundles: the entries of
/// a launch daemon in the daemon's mode, and else those of a launch agent.
pub proof fn law_registration_entries(al: &AutoLaunch, program: Seq<Seq<char>>, ids: Seq<Seq<char>>)
    requires
        program.len() == 1 + al.args@.len(),
        program[0] == al.app_path@,
        forall|i: int| 0 <= i < al.args@.len() ==> program[i + 1] == (#[trigger] al.args@[i])@,
        ids.len() == al.bundle_identifiers@.len(),
        forall|i: int| 0 <= i < ids.len() ==> #[trigger] ids[i] == al.bundle_identifiers@[i]@,
    ensures
        ({
            let label = ("Label"@, PlistItem::Text(al.app_name@));
            let bundles = ("AssociatedBundleIdentifiers"@, PlistItem::Texts(ids));
            let command = ("ProgramArguments"@, PlistItem::Texts(program));
            let run = ("RunAtLoad"@, PlistItem::Flag(true));
            al.registration_entries() == if al.launch_mode == MacOSLaunchMode::LaunchDaemonSystem {
                seq![label, command, run, ("SessionCreate"@, PlistItem::Flag(true))]
            } else if ids.len() == 0 {
                seq![label, command, run]
            } else {
                seq![label, bundles, command, run]
            }
        }),
{
    let args = text::texts(al.args@);
    assert forall|i: int| 0 <= i < args.len() implies program[i + 1] == #[trigger] args[i] by {
        assert(args[i] == al.args@[i]@);
    }
    assert(text::texts(al.bundle_identifiers@) =~= ids);
    law_launch_daemon(al.app_name@, al.app_path@, args, program);
    law_launch_agent(al.app_name@, al.app_path@, args, ids, program);
}

/// What is put into a property list is what it holds: a string, each string of an array, a boolean.
pub proof fn law_items(s: String, v: Vec<String>, items: Seq<Seq<char>>, b: bool)
    requires
        items.len() == v@.len(),
        forall|i: int| 0 <= i < items.len() ==> #[trigger] items[i] == v@[i]@,
    ensures
        PlistValue::Text(s).item() == PlistItem::Text(s@),
        PlistValue::Texts(v).item() == PlistItem::Texts(items),
        PlistValue::Flag(b).item() == PlistItem::Flag(b),
{
    assert(text::texts(v@) =~= items);
}

/// Where property lists stand: those of the user in `Library/LaunchAgents` below the home directory,
/// those of the system in `/Library/LaunchAgents` and `/Library/LaunchDaemons`. The file is the
/// application's name with `.plist` behind it.
pub proof fn law_property_list_place(al: &AutoLaunch, home: Seq<u8>, h: Option<Seq<u8>>)
    ensures
        macos::plist_dir(MacOSLaunchMode::LaunchAgentUser, None) is None,
        macos::plist_dir(MacOSLaunchMode::LaunchAgentUser, Some(home)) == Some(
            host::path_joined(
                host::path_joined(home, encode_utf8("Library"@)),
                encode_utf8("LaunchAgents"@),
            ),
        ),
        macos::plist_dir(MacOSLaunchMode::LaunchAgentSystem, h) == Some(
            encode_utf8("/Library/LaunchAgents"@),
        ),
        macos::plist_dir(MacOSLaunchMode::LaunchDaemonSystem, h) == Some(
            encode_utf8("/Library/LaunchDaemons"@),
        ),
        al.registration_file(h) == match macos::plist_dir(al.launch_mode, h) {
            Some(dir) => Some(host::path_joined(dir, encode_utf8(al.app_name@ + ".plist"@))),
            None => None,
        },
{
    reveal_with_fuel(host::descended, 3);
    assert(seq!["Library"@, "LaunchAgents"@].drop_last() =~= seq!["Library"@]);
    assert(seq!["Library"@].drop_last() =~= seq![]);
}

/// How registering goes on from the application's path: something must exist there, and the path
/// must start with a slash. A login item is then made by a script, and a property list at its place.
pub proof fn law_app_checked(
    al: &AutoLaunch,
    home: Option<Seq<u8>>,
    found: EnableStep,
    missing: EnableStep,
)
    requires
        al.after_app_checked(home, true, found),
        al.after_app_checked(home, false, missing),
    ensures
        missing matches EnableStep::Finished(Err(LaunchError::AppPathDoesntExist(path))) && path@
            == al.app_path@,
        al.app_path@.len() == 0 || al.app_path@[0] != '/' ==> (found matches EnableStep::Finished(
            Err(LaunchError::AppPathIsNotAbsolute(path)),
        ) && path@ == al.app_path@),
        al.app_path@.len() > 0 && al.app_path@[0] == '/' && al.launch_mode
            == MacOSLaunchMode::AppleScript ==> found is RunScript,
        al.app_path@.len() > 0 && al.app_path@[0] == '/' && al.launch_mode
            != MacOSLaunchMode::AppleScript ==> match al.registration_file(home) {
            Some(place) => found matches EnableStep::CheckDir(p) && p.file@ == place
                && macos::plist_dir(al.launch_mode, home) == Some(p.dir@),
            None => found matches EnableStep::Finished(Err(LaunchError::Io(io))) && io.kind
                == IoErrorKind::NotFound && io.os_code is None && io.message@
                == "Failed to find home directory"@,
        },
{
}

/// The script that makes a login item has the application's name and path, and says that it is
/// hidden exactly if `--hidden` or `--minimized` is among the arguments.
pub proof fn law_login_item_script(al: &AutoLaunch, home: Option<Seq<u8>>, step: EnableStep)
    requires
        al.launch_mode == MacOSLaunchMode::AppleScript,
        al.app_path@.len() > 0,
        al.app_path@[0] == '/',
        al.after_app_checked(home, true, step),
    ensures
        step matches EnableStep::RunScript(args) && {
            let hidden = exists|i: int|
                0 <= i < al.args@.len() && ((#[trigger] al.args@[i])@ == "--hidden"@ || al.args@[i]@
                    == "--minimized"@);
            &&& args@.len() == 2
            &&& args@[0]@ == "-e"@
            &&& args@[1]@ == "tell application \"System Events\" to "@ + (
            "make login item at end with properties {name:\""@ + al.app_name@ + "\",path:\""@
                + al.app_path@ + "\",hidden:"@ + (if hidden {
                "true"@
            } else {
                "false"@
            }) + "}"@)
        },
{
    law_starts_hidden(al.args@);
    if let EnableStep::RunScript(args) = step {
        lemma_two(
            args@,
            "-e"@,
            "tell application \"System Events\" to "@ + macos::make_login_item(
                al.app_name@,
                al.app_path@,
                macos::starts_hidden(text::texts(al.args@)),
            ),
        );
    }
}

proof fn lemma_two(args: Seq<String>, first: Seq<char>, second: Seq<char>)
    requires
        text::texts(args) == seq![first, second],
    ensures
        args.len() == 2,
        args[0]@ == first,
        args[1]@ == second,
{
    let all = text::texts(args);
    assert(all.len() == args.len());
    assert(all[0] == args[0]@);
    assert(all[1] == args[1]@);
}

/// An application is launched out of sight exactly if `--hidden` or `--minimized` is among its
/// arguments.
pub proof fn law_starts_hidden(args: Seq<String>)
    ensures
        macos::starts_hidden(text::texts(args)) <==> exists|i: int|
            0 <= i < args.len() && ((#[trigger] args[i])@ == "--hidden"@ || args[i]@
                == "--minimized"@),
{
    let all = text::texts(args);
    if macos::starts_hidden(all) {
        let i = choose|i: int|
            0 <= i < all.len() && (all[i] == "--hidden"@ || all[i] == "--minimized"@);
        assert(all[i] == args[i]@);
    }
    if exists|i: int|
        0 <= i < args.len() && ((#[trigger] args[i])@ == "--hidden"@ || args[i]@
            == "--minimized"@) {
        let i = choose|i: int|
            0 <= i < args.len() && ((#[trigger] args[i])@ == "--hidden"@ || args[i]@
                == "--minimized"@);
        assert(all[i] == args[i]@);
        assert(all.contains(all[i]));
    }
}

/// The texts of the scripts, as `osascript` gets them.
pub proof fn law_script_texts(suffix: Seq<char>, app_name: Seq<char>, app_path: Seq<char>, hidden: bool)
    ensures
        macos::script_args(suffix) == seq![
            "-e"@,
            "tell application \"System Events\" to "@ + suffix,
        ],
        macos::make_login_item(app_name, app_path, hidden)
            == "make login item at end with properties {name:\""@ + app_name + "\",path:\""@
            + app_path + "\",hidden:"@ + (if hidden {
            "true"@
        } else {
            "false"@
        }) + "}"@,
        macos::delete_login_item(app_name) == "delete login item \""@ + app_name + "\""@,
{
}

/// How a script is judged: by whether it succeeded. A failure has its exit code, or 1 where it has
/// none.
pub proof fn law_script_verdict(output: CommandOutput, e: IoError)
    ensures
        output.success ==> macos::script_verdict(Ok(output)) is Ok,
        !output.success ==> macos::script_verdict(Ok(output)) == Err::<(), LaunchError>(
            LaunchError::AppleScriptFailed(
                if output.code is Some {
                    output.code->0
                } else {
                    1
                },
            ),
        ),
        macos::script_verdict(Err(e)) == Err::<(), LaunchError>(LaunchError::Io(e)),
{
}

/// What follows the host's answers while a registration is being made. The property list that was
/// begun with is the one that is created. A failure to write it is an error of no particular kind,
/// with the debug form of the host's error in the message.
pub proof fn law_enable_steps(
    al: &AutoLaunch,
    p: PlistFile,
    code: u32,
    e: IoError,
    debug: String,
    written: EnableStep,
    failed: EnableStep,
)
    requires
        AutoLaunch::after_file_written(Ok(()), written),
        AutoLaunch::after_file_written(Err(debug), failed),
    ensures
        al.first_enable() == if al.launch_mode == MacOSLaunchMode::SMAppService {
            EnableStep::RegisterService
        } else {
            EnableStep::CheckApp
        },
        AutoLaunch::after_service_registered(Ok(())) == EnableStep::Finished(Ok(())),
        AutoLaunch::after_service_registered(Err(code)) == EnableStep::Finished(
            Err(LaunchError::SMAppServiceRegistrationFailed(code)),
        ),
        AutoLaunch::after_dir_checked(p, true) == EnableStep::CreateFile(p),
        AutoLaunch::after_dir_checked(p, false) == EnableStep::CreateDir(p),
        AutoLaunch::after_dir_created(p, Ok(())) == EnableStep::CreateFile(p),
        AutoLaunch::after_dir_created(p, Err(e)) == EnableStep::Finished(Err(LaunchError::Io(e))),
        written == EnableStep::Finished(Ok(())),
        property_list::write_failure(debug@) == "Io("@ + debug@ + ")"@,
        failed matches EnableStep::Finished(Err(LaunchError::Io(io))) && io.kind
            == IoErrorKind::Other && io.os_code is None && io.message@ == "Io("@ + debug@ + ")"@,
{
}

/// How removing starts: with the service, with a script that deletes the login item of the
/// application's name, or with the property list at its place.
pub proof fn law_disable_first_step(al: &AutoLaunch, home: Option<Seq<u8>>, step: DisableStep)
    requires
        al.disable_starts(home, step),
    ensures
        al.launch_mode == MacOSLaunchMode::SMAppService ==> step == DisableStep::UnregisterService,
        al.launch_mode == MacOSLaunchMode::AppleScript ==> (step matches DisableStep::RunScript(
            args,
        ) && args@.len() == 2 && args@[0]@ == "-e"@ && args@[1]@
            == "tell application \"System Events\" to "@ + ("delete login item \""@ + al.app_name@
            + "\""@)),
        al.launch_mode != MacOSLaunchMode::SMAppService && al.launch_mode
            != MacOSLaunchMode::AppleScript ==> match al.registration_file(home) {
            Some(place) => step matches DisableStep::CheckFile(file) && file@ == place,
            None => step matches DisableStep::Finished(Err(LaunchError::Io(io))) && io.kind
                == IoErrorKind::NotFound && io.os_code is None && io.message@
                == "Failed to find home directory"@,
        },
{
    if let DisableStep::RunScript(args) = step {
        if al.launch_mode == MacOSLaunchMode::AppleScript {
            lemma_two(
                args@,
                "-e"@,
                "tell application \"System Events\" to "@ + macos::delete_login_item(al.app_name@),
            );
        }
    }
}

/// What follows the host's answers while a registration is being removed: only the file that was
/// asked for is removed, and only if it is there.
pub proof fn law_disable_steps(file: Vec<u8>, code: u32, e: IoError)
    ensures
        AutoLaunch::after_service_unregistered(Ok(())) == DisableStep::Finished(Ok(())),
        AutoLaunch::after_service_unregistered(Err(code)) == DisableStep::Finished(
            Err(LaunchError::SMAppServiceUnregistrationFailed(code)),
        ),
        AutoLaunch::after_removal_checked(file, true) == DisableStep::RemoveFile(file),
        AutoLaunch::after_removal_checked(file, false) == DisableStep::Finished(Ok(())),
        AutoLaunch::after_file_removed(Ok(())) == DisableStep::Finished(Ok(())),
        AutoLaunch::after_file_removed(Err(e)) == DisableStep::Finished(Err(LaunchError::Io(e))),
{
}

/// How asking starts: with the service, with a script that lists the login items, or with the
/// property list at its place.
pub proof fn law_enabled_first_step(al: &AutoLaunch, home: Option<Seq<u8>>, step: EnabledStep)
    requires
        al.enabled_starts(home, step),
    ensures
        al.launch_mode == MacOSLaunchMode::SMAppService ==> step == EnabledStep::QueryService,
        al.launch_mode == MacOSLaunchMode::AppleScript ==> (step matches EnabledStep::RunScript(
            args,
        ) && args@.len() == 2 && args@[0]@ == "-e"@ && args@[1]@
            == "tell application \"System Events\" to "@ + "get the name of every login item"@),
        al.launch_mode != MacOSLaunchMode::SMAppService && al.launch_mode
            != MacOSLaunchMode::AppleScript ==> match al.registration_file(home) {
            Some(place) => step matches EnabledStep::CheckFile(file) && file@ == place,
            None => step matches EnabledStep::Finished(Err(LaunchError::Io(io))) && io.kind
                == IoErrorKind::NotFound && io.os_code is None && io.message@
                == "Failed to find home directory"@,
        },
{
    if let EnabledStep::RunScript(args) = step {
        if al.launch_mode == MacOSLaunchMode::AppleScript {
            lemma_two(
                args@,
                "-e"@,
                "tell application \"System Events\" to "@ + "get the name of every login item"@,
            );
        }
    }
}

/// A listing holds a name exactly if the name is what is between white space in one of the fields
/// that commas separate.
pub proof fn law_listed(listing: Seq<char>, name: Seq<char>)
    ensures
        macos::listed(listing, name) <==> exists|i: int, a: int, b: int|
            {
                let field = text::fields(listing, ',')[i];
                &&& 0 <= i < text::fields(listing, ',').len()
                &&& 0 <= a <= b <= field.len()
                &&& #[trigger] text::fields(listing, ',')[i].subrange(a, b) == name
                &&& forall|j: int| 0 <= j < a ==> text::white_space(#[trigger] field[j])
                &&& forall|j: int| b <= j < field.len() ==> text::white_space(#[trigger] field[j])
                &&& a < b ==> !text::white_space(field[a]) && !text::white_space(field[b - 1])
            },
{
    let fields = text::fields(listing, ',');
    if macos::listed(listing, name) {
        let i = choose|i: int|
            0 <= i < fields.len() && text::trim(#[trigger] fields[i]) == name;
        let ends = text_laws::law_trim_leaves(fields[i]);
        assert(fields[i].subrange(ends.0, ends.1) == name);
    }
    assert forall|i: int, a: int, b: int|
        {
            let field = fields[i];
            &&& 0 <= i < fields.len()
            &&& 0 <= a <= b <= field.len()
            &&& #[trigger] fields[i].subrange(a, b) == name
            &&& forall|j: int| 0 <= j < a ==> text::white_space(#[trigger] field[j])
            &&& forall|j: int| b <= j < field.len() ==> text::white_space(#[trigger] field[j])
            &&& a < b ==> !text::white_space(field[a]) && !text::white_space(field[b - 1])
        } implies macos::listed(listing, name) by {
        let field = fields[i];
        let before = field.take(a);
        let after = field.skip(b);
        assert forall|j: int| 0 <= j < after.len() implies text::white_space(#[trigger] after[j]) by {
            assert(text::white_space(field[b + j]));
        }
        assert forall|j: int| 0 <= j < before.len() implies text::white_space(
            #[trigger] before[j],
        ) by {
            assert(text::white_space(field[j]));
        }
        let middle = field.subrange(a, b);
        if a < b {
            assert(middle[0] == field[a]);
            assert(middle.last() == field[b - 1]);
        }
        text_laws::law_trim(before, middle, after);
        assert(before + middle + after =~= field);
        assert(text::trim(fields[i]) == name);
    }
}

/// A login item counts as enabled exactly if the script succeeded and its name is what is between
/// white space in one of the fields that commas separate in what the script printed. What is no
/// valid UTF-8 counts as nothing printed.
pub proof fn law_login_item_enabled(al: &AutoLaunch, output: CommandOutput, e: IoError)
    ensures
        al.after_items_listed(Err(e)) == EnabledStep::Finished(Err(LaunchError::Io(e))),
        !output.success ==> al.after_items_listed(Ok(output)) == EnabledStep::Finished(Ok(false)),
        output.success && valid_utf8(output.stdout@) ==> al.after_items_listed(Ok(output))
            == EnabledStep::Finished(
            Ok(macos::listed(decode_utf8(output.stdout@), al.app_name@)),
        ),
        output.success && !valid_utf8(output.stdout@) ==> al.after_items_listed(Ok(output))
            == EnabledStep::Finished(Ok(macos::listed(""@, al.app_name@))),
{
}

/// A path without a slash names the login item by itself, without `.app`.
pub proof fn law_login_item_name_alone(name: Seq<char>)
    requires
        !name.contains('/'),
    ensures
        macos::login_item_name(name + ".app"@) == name,
        !".app"@.is_suffix_of(name) ==> macos::login_item_name(name) == name,
{
    reveal_strlit(".app");
    assert forall|i: int| 0 <= i < name.len() implies name[i] != '/' by {
        assert(name.contains(name[i]));
    }
    macos::lemma_last_component(name, 0);
    assert(name.skip(0) =~= name);
    let full = name + ".app"@;
    assert(full.take(full.len() - 4) =~= name);
    assert(".app"@ =~= full.subrange(full.len() - 4, full.len() as int));
}

} // verus!
