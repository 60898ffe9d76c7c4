//! What holds of the registrations on macOS.

use vstd::prelude::*;

use crate::error;
use crate::error::{IoError, IoErrorKind, LaunchError};
use crate::host::CommandOutput;
use crate::macos;
use crate::macos::{
    AutoLaunch, DisableStep, EnableStep, EnabledStep, MacOSLaunchMode, PlistFile,
};
use crate::property_list;
use crate::property_list::PlistItem;
use crate::text;

verus! {

/// A launch agent is run when it is loaded, has no session of its own, and belongs to bundles
/// exactly where some are given.
pub proof fn law_launch_agent_keys(
    app_name: Seq<char>,
    app_path: Seq<char>,
    args: Seq<Seq<char>>,
    bundle_identifiers: Seq<Seq<char>>,
)
    ensures
        ({
            let entries = macos::launch_agent_entries(app_name, app_path, args, bundle_identifiers);
            &&& entries.contains(("Label"@, PlistItem::Text(app_name)))
            &&& entries.contains(("RunAtLoad"@, PlistItem::Flag(true)))
            &&& !property_list::has_key(entries, "SessionCreate"@)
            &&& property_list::has_key(entries, "AssociatedBundleIdentifiers"@) == (
            bundle_identifiers.len() > 0)
            &&& distinct_keys(entries)
            &&& property_list::plain(entries)
        }),
{
    macos::lemma_keys_differ();
    let entries = macos::launch_agent_entries(app_name, app_path, args, bundle_identifiers);
    assert(entries[0] == ("Label"@, PlistItem::Text(app_name)));
    assert(entries[entries.len() - 1] == ("RunAtLoad"@, PlistItem::Flag(true)));
    if bundle_identifiers.len() > 0 {
        assert(entries[1].0 == "AssociatedBundleIdentifiers"@);
    }
}

/// A launch daemon is run when it is loaded, has a session of its own, and belongs to no bundle.
pub proof fn law_launch_daemon_keys(
    app_name: Seq<char>,
    app_path: Seq<char>,
    args: Seq<Seq<char>>,
)
    ensures
        ({
            let entries = macos::launch_daemon_entries(app_name, app_path, args);
            &&& entries.contains(("Label"@, PlistItem::Text(app_name)))
            &&& entries.contains(("RunAtLoad"@, PlistItem::Flag(true)))
            &&& entries.contains(("SessionCreate"@, PlistItem::Flag(true)))
            &&& !property_list::has_key(entries, "AssociatedBundleIdentifiers"@)
            &&& distinct_keys(entries)
            &&& property_list::plain(entries)
        }),
{
    macos::lemma_keys_differ();
    let entries = macos::launch_daemon_entries(app_name, app_path, args);
    assert(entries[0] == ("Label"@, PlistItem::Text(app_name)));
    assert(entries[2] == ("RunAtLoad"@, PlistItem::Flag(true)));
    assert(entries[3] == ("SessionCreate"@, PlistItem::Flag(true)));
}

/// Whether no key occurs twice.
pub open spec fn distinct_keys(entries: Seq<(Seq<char>, PlistItem)>) -> bool {
    forall|i: int, j: int|
        0 <= i < j < entries.len() ==> (#[trigger] entries[i]).0 != (#[trigger] entries[j]).0
}

/// A login item is named after the last component of the path, whether or not `.app` follows it.
pub proof fn law_login_item_name(dir: Seq<char>, name: Seq<char>)
    requires
        !name.contains('/'),
    ensures
        macos::login_item_name(dir + "/"@ + name + ".app"@) == name,
        !".app"@.is_suffix_of(name) ==> macos::login_item_name(dir + "/"@ + name) == name,
{
    reveal_strlit("/");
    reveal_strlit(".app");
    let path = dir + "/"@ + name;
    let n = dir.len() + 1;
    assert(path[n - 1] == '/');
    assert forall|i: int| n <= i < path.len() implies path[i] != '/' by {
        assert(path[i] == name[i - n]);
        assert(name.contains(name[i - n]));
    }
    macos::lemma_last_component(path, n as int);
    assert(path.skip(n as int) =~= name);
    let full = path + ".app"@;
    assert(full.take(full.len() - 4) =~= path);
    assert(".app"@ =~= full.subrange(full.len() - 4, full.len() as int));
    if !".app"@.is_suffix_of(name) && ".app"@.is_suffix_of(path) {
        let k = path.len() - 4;
        let tail = path.subrange(k, path.len() as int);
        assert(tail =~= ".app"@);
        assert forall|i: int| k <= i < path.len() implies path[i] != '/' by {
            assert(path[i] == tail[i - k]);
        }
        assert(n <= k);
        assert(name.subrange(name.len() - 4, name.len() as int) =~= tail);
    }
}

/// What the host answers while a registration is being made. That the file could not be written is
/// told by the debug form of the host's error.
pub struct EnableAnswers {
    pub service_registered: Result<(), u32>,
    pub app_exists: bool,
    pub script_run: Result<CommandOutput, IoError>,
    pub dir_exists: bool,
    pub dir_created: Result<(), IoError>,
    pub file_created: Result<(), IoError>,
    pub file_written: Result<(), String>,
}

/// Whether registering goes on with `next` behind `step`, by what the host answers.
pub open spec fn enable_follows(
    al: &AutoLaunch,
    home: Option<Seq<u8>>,
    answers: EnableAnswers,
    step: EnableStep,
    next: EnableStep,
) -> bool {
    match step {
        EnableStep::RegisterService => next == AutoLaunch::after_service_registered(
            answers.service_registered,
        ),
        EnableStep::CheckApp => al.after_app_checked(home, answers.app_exists, next),
        EnableStep::CheckDir(p) => next == AutoLaunch::after_dir_checked(p, answers.dir_exists),
        EnableStep::CreateDir(p) => next == AutoLaunch::after_dir_created(p, answers.dir_created),
        EnableStep::CreateFile(_) => al.after_file_created(answers.file_created, next),
        EnableStep::WriteFile(_) => AutoLaunch::after_file_written(answers.file_written, next),
        EnableStep::RunScript(_) => next == EnableStep::Finished(
            macos::script_verdict(answers.script_run),
        ),
        EnableStep::Finished(_) => false,
    }
}

/// Whether the step at `i` of a run is followed as the host answers.
pub open spec fn enable_linked(
    al: &AutoLaunch,
    home: Option<Seq<u8>>,
    answers: EnableAnswers,
    run: Seq<EnableStep>,
    i: int,
) -> bool {
    enable_follows(al, home, answers, run[i], run[i + 1])
}

/// Whether `run` holds the steps of registering from the first to the last.
pub open spec fn enable_run(
    al: &AutoLaunch,
    home: Option<Seq<u8>>,
    answers: EnableAnswers,
    run: Seq<EnableStep>,
) -> bool {
    &&& run.len() > 0
    &&& run[0] == al.first_enable()
    &&& forall|i: int|
        0 <= i < run.len() - 1 ==> #[trigger] enable_linked(al, home, answers, run, i)
    &&& run.last() is Finished
}

/// Whether registering comes to `r`: to the first failure, or to success.
pub open spec fn enable_result(
    al: &AutoLaunch,
    home: Option<Seq<u8>>,
    answers: EnableAnswers,
    r: Result<(), LaunchError>,
) -> bool {
    if al.launch_mode == MacOSLaunchMode::SMAppService {
        match answers.service_registered {
            Ok(()) => r is Ok,
            Err(code) => r == Err::<(), LaunchError>(
                LaunchError::SMAppServiceRegistrationFailed(code),
            ),
        }
    } else if !answers.app_exists {
        r matches Err(LaunchError::AppPathDoesntExist(path)) && path@ == al.app_path@
    } else if !al.has_absolute_path() {
        r matches Err(LaunchError::AppPathIsNotAbsolute(path)) && path@ == al.app_path@
    } else if al.launch_mode == MacOSLaunchMode::AppleScript {
        r == macos::script_verdict(answers.script_run)
    } else if al.registration_file(home) is None {
        r matches Err(e) && error::home_not_found(e)
    } else if !answers.dir_exists && answers.dir_created is Err {
        r == Err::<(), LaunchError>(LaunchError::Io(answers.dir_created->Err_0))
    } else if answers.file_created is Err {
        r == Err::<(), LaunchError>(LaunchError::Io(answers.file_created->Err_0))
    } else {
        match answers.file_written {
            Ok(()) => r is Ok,
            Err(debug) => r matches Err(e) && error::raised(
                e,
                IoErrorKind::Other,
                property_list::write_failure(debug@),
            ),
        }
    }
}

/// Whether a script that was run succeeded.
pub open spec fn script_succeeded(reply: Result<CommandOutput, IoError>) -> bool {
    reply matches Ok(output) && output.success
}

/// How registering ends: with the first failure, and otherwise with success. The service alone
/// decides in its mode. In the others something must exist at the application's path, and the path
/// must be absolute; then the script decides, or whether the property list could be written.
pub proof fn law_enable_result(
    al: &AutoLaunch,
    home: Option<Seq<u8>>,
    answers: EnableAnswers,
    run: Seq<EnableStep>,
)
    requires
        enable_run(al, home, answers, run),
    ensures
        run.len() <= 6,
        enable_result(al, home, answers, run.last()->Finished_0),
        run.last()->Finished_0 is Ok <==> if al.launch_mode == MacOSLaunchMode::SMAppService {
            answers.service_registered is Ok
        } else {
            &&& answers.app_exists
            &&& al.has_absolute_path()
            &&& if al.launch_mode == MacOSLaunchMode::AppleScript {
                script_succeeded(answers.script_run)
            } else {
                &&& al.registration_file(home) is Some
                &&& answers.dir_exists || answers.dir_created is Ok
                &&& answers.file_created is Ok
                &&& answers.file_written is Ok
            }
        },
{
    assert(0 < run.len() - 1 ==> enable_linked(al, home, answers, run, 0));
    assert(1 < run.len() - 1 ==> enable_linked(al, home, answers, run, 1));
    assert(2 < run.len() - 1 ==> enable_linked(al, home, answers, run, 2));
    assert(3 < run.len() - 1 ==> enable_linked(al, home, answers, run, 3));
    assert(4 < run.len() - 1 ==> enable_linked(al, home, answers, run, 4));
    assert(5 < run.len() - 1 ==> enable_linked(al, home, answers, run, 5));
}

/// What registering does to the host: the file that is created is this application's property
/// list, what is written is its entries, and the script that is run makes its login item. Each is
/// done only in its mode, and only if something exists at the application's path and the path is
/// absolute.
pub proof fn law_enable_writes_own_registration(
    al: &AutoLaunch,
    home: Option<Seq<u8>>,
    answers: EnableAnswers,
    run: Seq<EnableStep>,
    i: int,
)
    requires
        enable_run(al, home, answers, run),
        0 <= i < run.len(),
    ensures
        enable_acts_own(al, home, run[i]),
        run[i] !is RegisterService && run[i] !is CheckApp && run[i] !is Finished
            ==> answers.app_exists && al.has_absolute_path(),
    decreases i,
{
    if i > 0 {
        law_enable_writes_own_registration(al, home, answers, run, i - 1);
        assert(enable_linked(al, home, answers, run, i - 1));
    }
}

/// Whether what a step does to the host is for this application and its mode.
pub open spec fn enable_acts_own(
    al: &AutoLaunch,
    home: Option<Seq<u8>>,
    step: EnableStep,
) -> bool {
    match step {
        EnableStep::RegisterService => al.launch_mode == MacOSLaunchMode::SMAppService,
        EnableStep::CheckApp => al.launch_mode != MacOSLaunchMode::SMAppService,
        EnableStep::CheckDir(p) | EnableStep::CreateDir(p) | EnableStep::CreateFile(p) => {
            macos::uses_plist(al.launch_mode) && al.registers(p, home)
        },
        EnableStep::WriteFile(bytes) => macos::uses_plist(al.launch_mode) && bytes@
            == property_list::xml_of(al.registration_entries()),
        EnableStep::RunScript(args) => al.launch_mode == MacOSLaunchMode::AppleScript
            && text::texts(args@) == macos::script_args(
            macos::make_login_item(
                al.app_name@,
                al.app_path@,
                macos::starts_hidden(text::texts(al.args@)),
            ),
        ),
        EnableStep::Finished(_) => true,
    }
}

/// What the host answers while a registration is being removed.
pub struct DisableAnswers {
    pub service_unregistered: Result<(), u32>,
    pub script_run: Result<CommandOutput, IoError>,
    pub file_exists: bool,
    pub file_removed: Result<(), IoError>,
}

/// Whether removing goes on with `next` behind `step`, by what the host answers.
pub open spec fn disable_follows(
    answers: DisableAnswers,
    step: DisableStep,
    next: DisableStep,
) -> bool {
    match step {
        DisableStep::UnregisterService => next == AutoLaunch::after_service_unregistered(
            answers.service_unregistered,
        ),
        DisableStep::CheckFile(file) => next == AutoLaunch::after_removal_checked(
            file,
            answers.file_exists,
        ),
        DisableStep::RemoveFile(_) => next == AutoLaunch::after_file_removed(answers.file_removed),
        DisableStep::RunScript(_) => next == DisableStep::Finished(
            macos::script_verdict(answers.script_run),
        ),
        DisableStep::Finished(_) => false,
    }
}

/// Whether the step at `i` of a run is followed as the host answers.
pub open spec fn disable_linked(answers: DisableAnswers, run: Seq<DisableStep>, i: int) -> bool {
    disable_follows(answers, run[i], run[i + 1])
}

/// Whether `run` holds the steps of removing from the first to the last.
pub open spec fn disable_run(
    al: &AutoLaunch,
    home: Option<Seq<u8>>,
    answers: DisableAnswers,
    run: Seq<DisableStep>,
) -> bool {
    &&& run.len() > 0
    &&& al.disable_starts(home, run[0])
    &&& forall|i: int| 0 <= i < run.len() - 1 ==> #[trigger] disable_linked(answers, run, i)
    &&& run.last() is Finished
}

/// Whether removing comes to `r`: to the first failure, or to success.
pub open spec fn disable_result(
    al: &AutoLaunch,
    home: Option<Seq<u8>>,
    answers: DisableAnswers,
    r: Result<(), LaunchError>,
) -> bool {
    match al.launch_mode {
        MacOSLaunchMode::SMAppService => match answers.service_unregistered {
            Ok(()) => r is Ok,
            Err(code) => r == Err::<(), LaunchError>(
                LaunchError::SMAppServiceUnregistrationFailed(code),
            ),
        },
        MacOSLaunchMode::AppleScript => r == macos::script_verdict(answers.script_run),
        _ => if al.registration_file(home) is None {
            r matches Err(e) && error::home_not_found(e)
        } else if answers.file_exists && answers.file_removed is Err {
            r == Err::<(), LaunchError>(LaunchError::Io(answers.file_removed->Err_0))
        } else {
            r is Ok
        },
    }
}

/// How removing ends: as the service or the script does in their modes, and otherwise with success
/// exactly if the property list was missing or could be removed. No file but the property list is
/// removed, and that only if it was there.
pub proof fn law_disable_result(
    al: &AutoLaunch,
    home: Option<Seq<u8>>,
    answers: DisableAnswers,
    run: Seq<DisableStep>,
)
    requires
        disable_run(al, home, answers, run),
    ensures
        run.len() <= 3,
        disable_result(al, home, answers, run.last()->Finished_0),
        run.last()->Finished_0 is Ok <==> match al.launch_mode {
            MacOSLaunchMode::SMAppService => answers.service_unregistered is Ok,
            MacOSLaunchMode::AppleScript => script_succeeded(answers.script_run),
            _ => al.registration_file(home) is Some && (!answers.file_exists
                || answers.file_removed is Ok),
        },
        forall|i: int|
            0 <= i < run.len() ==> (#[trigger] run[i] matches DisableStep::RemoveFile(file)
                ==> answers.file_exists && macos::uses_plist(al.launch_mode)
                && al.registration_file(home) == Some(file@)),
{
    assert(0 < run.len() - 1 ==> disable_linked(answers, run, 0));
    assert(1 < run.len() - 1 ==> disable_linked(answers, run, 1));
    assert(2 < run.len() - 1 ==> disable_linked(answers, run, 2));
}

/// Whether two applications agree in everything that counts in their mode. The further settings of
/// an agent or daemon never count, and bundles count for launch agents alone. Of the arguments of a
/// login item only this counts, whether they ask for it to be out of sight. For the service
/// nothing does.
pub open spec fn alike(a: &AutoLaunch, b: &AutoLaunch) -> bool {
    &&& a.launch_mode == b.launch_mode
    &&& a.launch_mode != MacOSLaunchMode::SMAppService ==> {
        &&& a.app_name@ == b.app_name@
        &&& a.app_path@ == b.app_path@
        &&& macos::starts_hidden(text::texts(a.args@)) == macos::starts_hidden(
            text::texts(b.args@),
        )
    }
    &&& macos::uses_plist(a.launch_mode) ==> text::texts(a.args@) == text::texts(b.args@)
    &&& a.launch_mode == MacOSLaunchMode::LaunchAgentUser || a.launch_mode
        == MacOSLaunchMode::LaunchAgentSystem ==> text::texts(a.bundle_identifiers@)
        == text::texts(b.bundle_identifiers@)
}

proof fn lemma_alike_enable(
    a: &AutoLaunch,
    b: &AutoLaunch,
    home: Option<Seq<u8>>,
    answers: EnableAnswers,
    run: Seq<EnableStep>,
)
    requires
        alike(a, b),
        enable_run(a, home, answers, run),
    ensures
        enable_run(b, home, answers, run),
{
    assert forall|i: int| 0 <= i < run.len() - 1 implies #[trigger] enable_linked(
        b,
        home,
        answers,
        run,
        i,
    ) by {
        assert(enable_linked(a, home, answers, run, i));
        law_enable_writes_own_registration(a, home, answers, run, i);
    }
}

/// Applications that agree in what counts in their mode are registered, removed and asked for
/// alike: by the same steps, to the same end.
pub proof fn law_only_these_settings_count(
    a: &AutoLaunch,
    b: &AutoLaunch,
    home: Option<Seq<u8>>,
    enable_answers: EnableAnswers,
    enable_steps: Seq<EnableStep>,
    disable_answers: DisableAnswers,
    disable_steps: Seq<DisableStep>,
    asked: EnabledStep,
    reply: Result<CommandOutput, IoError>,
)
    requires
        alike(a, b),
    ensures
        enable_run(a, home, enable_answers, enable_steps) == enable_run(
            b,
            home,
            enable_answers,
            enable_steps,
        ),
        disable_run(a, home, disable_answers, disable_steps) == disable_run(
            b,
            home,
            disable_answers,
            disable_steps,
        ),
        a.enabled_starts(home, asked) == b.enabled_starts(home, asked),
        a.launch_mode == MacOSLaunchMode::AppleScript ==> a.after_items_listed(reply)
            == b.after_items_listed(reply),
{
    if enable_run(a, home, enable_answers, enable_steps) {
        lemma_alike_enable(a, b, home, enable_answers, enable_steps);
    }
    if enable_run(b, home, enable_answers, enable_steps) {
        lemma_alike_enable(b, a, home, enable_answers, enable_steps);
    }
}

/// Registering, removing and asking are all about one property list.
pub proof fn law_operations_share_the_file(
    al: &AutoLaunch,
    home: Option<Seq<u8>>,
    written: PlistFile,
    removed: Vec<u8>,
    asked: Vec<u8>,
)
    requires
        macos::uses_plist(al.launch_mode),
        al.writing_starts(home, EnableStep::CheckDir(written)),
        al.disable_starts(home, DisableStep::CheckFile(removed)),
        al.enabled_starts(home, EnabledStep::CheckFile(asked)),
    ensures
        removed@ == written.file@,
        asked@ == written.file@,
{
}

proof fn lemma_listed(before: Seq<char>, names: Seq<Seq<char>>, name: Seq<char>)
    requires
        text::blank(before),
        !before.contains(','),
        names.len() > 0,
        forall|i: int|
            0 <= i < names.len() ==> text::tidy(#[trigger] names[i]) && !names[i].contains(','),
    ensures
        macos::listed(before + text::joined(names, ", "@) + "\n"@, name) == names.contains(name),
    decreases names.len(),
{
    reveal_strlit(", ");
    reveal_strlit("\n");
    let first = names[0];
    assert(text::tidy(first) && !first.contains(','));
    let s = before + text::joined(names, ", "@) + "\n"@;
    let fields = text::fields(s, ',');
    if names.len() == 1 {
        assert forall|i: int| 0 <= i < s.len() implies s[i] != ',' by {
            if i < before.len() {
                assert(before.contains(s[i]));
            } else if i < before.len() + first.len() {
                assert(s[i] == first[i - before.len()]);
                assert(first.contains(s[i]));
            }
        }
        text::lemma_until(s, ',', s.len() as int);
        assert(fields =~= seq![s]);
        text::lemma_trim_around(before, first, "\n"@);
        assert(text::trim(fields[0]) == first);
        assert(names.contains(name) == (first == name)) by {
            assert(names[0] == first);
        }
    } else {
        let others = names.drop_first();
        assert forall|i: int| 0 <= i < others.len() implies text::tidy(#[trigger] others[i])
            && !others[i].contains(',') by {
            assert(others[i] == names[i + 1]);
        }
        let space = seq![' '];
        assert(!space.contains(','));
        lemma_listed(space, others, name);
        text::lemma_joined_front(names, ", "@);
        let rest = space + text::joined(others, ", "@) + "\n"@;
        let field = before + first;
        assert(s =~= field + seq![','] + rest);
        assert forall|i: int| 0 <= i < field.len() implies field[i] != ',' by {
            if i < before.len() {
                assert(before.contains(field[i]));
            } else {
                assert(field[i] == first[i - before.len()]);
                assert(first.contains(field[i]));
            }
        }
        text::lemma_fields_step(field, rest, ',');
        let tail = text::fields(rest, ',');
        assert(fields == seq![field] + tail);
        text::lemma_trim_around(before, first, seq![]);
        assert(before + first + seq![] =~= field);
        assert(fields[0] == field);
        if macos::listed(rest, name) {
            let i = choose|i: int| 0 <= i < tail.len() && text::trim(#[trigger] tail[i]) == name;
            assert(fields[i + 1] == tail[i]);
        }
        if macos::listed(s, name) {
            let i = choose|i: int|
                0 <= i < fields.len() && text::trim(#[trigger] fields[i]) == name;
            if i > 0 {
                assert(tail[i - 1] == fields[i]);
            }
        }
        if others.contains(name) {
            let i = choose|i: int| 0 <= i < others.len() && others[i] == name;
            assert(names[i + 1] == name);
        }
        if names.contains(name) && first != name {
            let i = choose|i: int| 0 <= i < names.len() && names[i] == name;
            assert(others[i - 1] == name);
        }
    }
}

/// A login item counts as enabled exactly if it is among those that are listed, with a comma and a
/// space between them and a line feed at the end.
pub proof fn law_listed_names_are_found(names: Seq<Seq<char>>, name: Seq<char>)
    requires
        names.len() > 0,
        forall|i: int|
            0 <= i < names.len() ==> text::tidy(#[trigger] names[i]) && !names[i].contains(','),
    ensures
        macos::listed(text::joined(names, ", "@) + "\n"@, name) == names.contains(name),
{
    lemma_listed(seq![], names, name);
    assert(seq![] + text::joined(names, ", "@) =~= text::joined(names, ", "@));
}

} // verus!
