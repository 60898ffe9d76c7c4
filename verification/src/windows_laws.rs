//! What holds of the registrations on Windows, whatever the registry answers.

use vstd::prelude::*;

use crate::text;
use crate::windows;
use crate::windows::{
    AutoLaunch, DisableMove, DisableStep, EnableMove, EnableStep, EnabledMove, EnabledStep,
    OwnedStep, PathStep, RegistryValue, RootKey, SwitchError, WindowsEnableMode,
};

verus! {

/// What the registry answers while it is being found out what stands in a registration's place:
/// under each root, whether a registration and whether a marker can be read.
pub struct FoundValues {
    pub machine_run: bool,
    pub machine_marker: bool,
    pub user_run: bool,
    pub user_marker: bool,
}

/// What the registry answers to the writing under a root.
pub struct WriteAnswers {
    pub run: Result<(), i32>,
    pub marker: Result<(), i32>,
    pub switch: Result<(), SwitchError>,
}

/// How far a move is from the first writing, at most.
pub open spec fn reading_distance(next: EnableMove) -> nat {
    match next {
        EnableMove::ReadRun(RootKey::LocalMachine) => 4,
        EnableMove::ReadMarker(RootKey::LocalMachine) => 3,
        EnableMove::ReadRun(RootKey::CurrentUser) => 2,
        EnableMove::ReadMarker(RootKey::CurrentUser) => 1,
        _ => 0,
    }
}

/// The first move that reads nothing.
pub open spec fn reading_ends(
    mode: WindowsEnableMode,
    next: EnableMove,
    found: FoundValues,
) -> EnableMove
    decreases reading_distance(next),
{
    match next {
        EnableMove::ReadRun(RootKey::LocalMachine) => reading_ends(
            mode,
            windows::after_run_read(mode, RootKey::LocalMachine, found.machine_run),
            found,
        ),
        EnableMove::ReadMarker(RootKey::LocalMachine) => reading_ends(
            mode,
            windows::after_marker_read(mode, RootKey::LocalMachine, found.machine_marker),
            found,
        ),
        EnableMove::ReadRun(RootKey::CurrentUser) => reading_ends(
            mode,
            windows::after_run_read(mode, RootKey::CurrentUser, found.user_run),
            found,
        ),
        EnableMove::ReadMarker(RootKey::CurrentUser) => reading_ends(
            mode,
            windows::after_marker_read(mode, RootKey::CurrentUser, found.user_marker),
            found,
        ),
        _ => next,
    }
}

/// Without force, a registration under either root that has no marker beside it is left alone, and
/// the root is named; otherwise writing begins.
pub proof fn law_enable_leaves_foreign_registration(mode: WindowsEnableMode, found: FoundValues)
    ensures
        reading_ends(mode, windows::first_enable(mode, false), found) == if found.machine_run
            && !found.machine_marker {
            EnableMove::Refuse(RootKey::LocalMachine)
        } else if found.user_run && !found.user_marker {
            EnableMove::Refuse(RootKey::CurrentUser)
        } else {
            windows::first_write(mode)
        },
{
    reveal_with_fuel(reading_ends, 5);
}

/// With force, writing begins at once.
pub proof fn law_enable_force_reads_nothing(mode: WindowsEnableMode, found: FoundValues)
    ensures
        reading_ends(mode, windows::first_enable(mode, true), found) == windows::first_write(mode),
        windows::first_enable(mode, true) == windows::first_write(mode),
{
}

/// How far a move of writing is from the end, at most.
pub open spec fn writing_distance(next: EnableMove) -> nat {
    match next {
        EnableMove::WriteRun(RootKey::LocalMachine) => 6,
        EnableMove::WriteMarker(RootKey::LocalMachine) => 5,
        EnableMove::WriteSwitch(RootKey::LocalMachine) => 4,
        EnableMove::WriteRun(RootKey::CurrentUser) => 3,
        EnableMove::WriteMarker(RootKey::CurrentUser) => 2,
        EnableMove::WriteSwitch(RootKey::CurrentUser) => 1,
        _ => 0,
    }
}

/// How writing ends, by what the registry answers under each root.
pub open spec fn writing_ends(
    mode: WindowsEnableMode,
    next: EnableMove,
    machine: WriteAnswers,
    user: WriteAnswers,
) -> EnableMove
    decreases writing_distance(next),
{
    match next {
        EnableMove::WriteRun(root) => {
            let answers = if root == RootKey::LocalMachine { machine } else { user };
            writing_ends(
                mode,
                windows::after_run_written(mode, root, answers.run),
                machine,
                user,
            )
        },
        EnableMove::WriteMarker(root) => {
            let answers = if root == RootKey::LocalMachine { machine } else { user };
            writing_ends(
                mode,
                windows::after_marker_written(mode, root, answers.marker),
                machine,
                user,
            )
        },
        EnableMove::WriteSwitch(root) => {
            let answers = if root == RootKey::LocalMachine { machine } else { user };
            writing_ends(
                mode,
                windows::after_switch_written(mode, root, answers.switch),
                machine,
                user,
            )
        },
        _ => next,
    }
}

/// The failure that writing under a root meets first, if any. That the task manager has no
/// switches is none.
pub open spec fn write_failure(answers: WriteAnswers) -> Option<i32> {
    match answers.run {
        Err(code) => Some(code),
        Ok(()) => match answers.marker {
            Err(code) => Some(code),
            Ok(()) => match answers.switch {
                Err(SwitchError::Open(code)) => if code == windows::not_found() {
                    None
                } else {
                    Some(code)
                },
                Err(SwitchError::Write(code)) => Some(code),
                Ok(()) => None,
            },
        },
    }
}

/// The end that a failure, or none, comes to.
pub open spec fn end_of(failure: Option<i32>) -> EnableMove {
    match failure {
        None => EnableMove::Succeed,
        Some(code) => EnableMove::Fail(code),
    }
}

proof fn lemma_writing_under(
    mode: WindowsEnableMode,
    root: RootKey,
    machine: WriteAnswers,
    user: WriteAnswers,
)
    ensures
        ({
            let answers = if root == RootKey::LocalMachine { machine } else { user };
            writing_ends(mode, EnableMove::WriteRun(root), machine, user) == match write_failure(
                answers,
            ) {
                None => EnableMove::Succeed,
                Some(code) => writing_ends(
                    mode,
                    windows::after_write_failed(mode, root, code),
                    machine,
                    user,
                ),
            }
        }),
{
    reveal_with_fuel(writing_ends, 4);
}

/// How registering ends: with success or with the first failure under the mode's root. Where the
/// mode leaves the root open, and access is denied for all users, the current user's root decides.
pub proof fn law_enable_ends(mode: WindowsEnableMode, machine: WriteAnswers, user: WriteAnswers)
    ensures
        writing_ends(mode, windows::first_write(mode), machine, user) == match mode {
            WindowsEnableMode::CurrentUser => end_of(write_failure(user)),
            WindowsEnableMode::System => end_of(write_failure(machine)),
            WindowsEnableMode::Dynamic => match write_failure(machine) {
                Some(code) if code == windows::access_denied() => end_of(write_failure(user)),
                failure => end_of(failure),
            },
        },
{
    lemma_writing_under(mode, RootKey::LocalMachine, machine, user);
    lemma_writing_under(mode, RootKey::CurrentUser, machine, user);
}

/// The switch that is written says that the application is launched.
pub proof fn law_written_switch_is_on()
    ensures
        windows::is_on(windows::switched_on()),
{
}

/// The path that is read back from a registration is the one that it was written with, if it is a
/// single word.
pub proof fn law_registered_path_is_app_path(al: &AutoLaunch)
    requires
        al.app_path@.len() > 0,
        text::solid(al.app_path@),
    ensures
        text::first_word(al.command()) == Some(al.app_path@),
{
    reveal_strlit(" ");
    let path = al.app_path@;
    let s = al.command();
    assert(s[0] == path[0]);
    text::lemma_trim_start(s, 0);
    assert(s.skip(0) =~= s);
    assert(s[path.len() as int] == ' ');
    assert(forall|i: int| 0 <= i < path.len() ==> s[i] == path[i]);
    text::lemma_word_len(s, path.len() as int);
    assert(s.take(path.len() as int) =~= path);
}

/// How far a move of removing is from the end, at most.
pub open spec fn removing_distance(next: DisableMove) -> nat {
    match next {
        DisableMove::RemoveMarker(RootKey::LocalMachine) => 4,
        DisableMove::RemoveRun(RootKey::LocalMachine) => 3,
        DisableMove::RemoveMarker(RootKey::CurrentUser) => 2,
        DisableMove::RemoveRun(RootKey::CurrentUser) => 1,
        _ => 0,
    }
}

/// How removing ends, by what the registry answers under each root.
pub open spec fn removing_ends(
    mode: WindowsEnableMode,
    next: DisableMove,
    machine: Result<(), i32>,
    user: Result<(), i32>,
) -> DisableMove
    decreases removing_distance(next),
{
    match next {
        DisableMove::RemoveMarker(root) => removing_ends(
            mode,
            DisableMove::RemoveRun(root),
            machine,
            user,
        ),
        DisableMove::RemoveRun(root) => {
            let reply = if root == RootKey::LocalMachine { machine } else { user };
            removing_ends(mode, windows::after_run_removed(mode, root, reply), machine, user)
        },
        _ => next,
    }
}

/// The failure that a removal meets. That there was nothing to remove is none.
pub open spec fn removal_failure(reply: Result<(), i32>) -> Option<i32> {
    match reply {
        Ok(()) => None,
        Err(code) => if code == windows::not_found() {
            None
        } else {
            Some(code)
        },
    }
}

/// How removing ends: with success or with the first failure. Access that is denied for all users
/// counts only in the mode that is for all users.
pub proof fn law_disable_ends(
    mode: WindowsEnableMode,
    machine: Result<(), i32>,
    user: Result<(), i32>,
)
    ensures
        removing_ends(mode, DisableMove::RemoveMarker(RootKey::LocalMachine), machine, user)
            == match removal_failure(machine) {
            Some(code) if code != windows::access_denied() || mode == WindowsEnableMode::System => {
                DisableMove::Fail(code)
            },
            _ => match removal_failure(user) {
                Some(code) => DisableMove::Fail(code),
                None => DisableMove::Succeed,
            },
        },
{
    reveal_with_fuel(removing_ends, 5);
}

/// What the registry answers while it is being found out whether the application is launched.
pub struct EnabledAnswers {
    pub machine_run: Result<String, i32>,
    pub user_run: Result<String, i32>,
    pub machine_switch: Result<Vec<u8>, i32>,
    pub user_switch: Result<Vec<u8>, i32>,
}

/// How far a move of finding out is from the answer, at most.
pub open spec fn query_distance(next: EnabledMove) -> nat {
    match next {
        EnabledMove::ReadRun(RootKey::LocalMachine) => 4,
        EnabledMove::ReadRun(RootKey::CurrentUser) => 3,
        EnabledMove::ReadSwitch(RootKey::LocalMachine) => 2,
        EnabledMove::ReadSwitch(RootKey::CurrentUser) => 1,
        _ => 0,
    }
}

/// How finding out ends.
pub open spec fn query_ends(next: EnabledMove, answers: EnabledAnswers) -> EnabledMove
    decreases query_distance(next),
{
    match next {
        EnabledMove::ReadRun(root) => {
            let reply = if root == RootKey::LocalMachine {
                answers.machine_run
            } else {
                answers.user_run
            };
            query_ends(windows::after_registered(root, reply), answers)
        },
        EnabledMove::ReadSwitch(root) => {
            let reply = if root == RootKey::LocalMachine {
                answers.machine_switch
            } else {
                answers.user_switch
            };
            query_ends(windows::after_switch_read(root, reply), answers)
        },
        _ => next,
    }
}

/// Whether a reply is a value, or says that there is none.
pub open spec fn readable<T>(reply: Result<T, i32>) -> bool {
    reply matches Err(code) ==> code == windows::not_found()
}

/// Whether a switch is on, or not there.
pub open spec fn lets_run(reply: Result<Vec<u8>, i32>) -> bool {
    reply matches Ok(bytes) ==> windows::is_on(bytes@)
}

/// The application is launched if it is registered under either root and neither switch is off.
pub proof fn law_is_enabled_answers(answers: EnabledAnswers)
    requires
        readable(answers.machine_run),
        readable(answers.user_run),
        readable(answers.machine_switch),
        readable(answers.user_switch),
    ensures
        query_ends(EnabledMove::ReadRun(RootKey::LocalMachine), answers) == EnabledMove::Answer(
            (answers.machine_run is Ok || answers.user_run is Ok) && lets_run(
                answers.machine_switch,
            ) && lets_run(answers.user_switch),
        ),
{
    reveal_with_fuel(query_ends, 5);
}

/// Whether a switch is as registering leaves it: on, or not there.
pub open spec fn left_on(reply: Result<Vec<u8>, i32>) -> bool {
    match reply {
        Ok(bytes) => bytes@ == windows::switched_on(),
        Err(code) => code == windows::not_found(),
    }
}

/// A registration that can be read, with the switches as registering leaves them, is launched.
pub proof fn law_written_registration_is_enabled(answers: EnabledAnswers)
    requires
        readable(answers.machine_run),
        readable(answers.user_run),
        answers.machine_run is Ok || answers.user_run is Ok,
        left_on(answers.machine_switch),
        left_on(answers.user_switch),
    ensures
        query_ends(EnabledMove::ReadRun(RootKey::LocalMachine), answers) == EnabledMove::Answer(
            true,
        ),
{
    law_written_switch_is_on();
    law_is_enabled_answers(answers);
}

/// Without a registration the application is not launched, whatever the switches say.
pub proof fn law_removed_registration_is_not_enabled(answers: EnabledAnswers)
    requires
        answers.machine_run matches Err(code) && code == windows::not_found(),
        answers.user_run matches Err(code) && code == windows::not_found(),
    ensures
        query_ends(EnabledMove::ReadRun(RootKey::LocalMachine), answers) == EnabledMove::Answer(
            false,
        ),
{
    reveal_with_fuel(query_ends, 3);
}

/// Removing is about the values that registering writes, and so is asking.
pub proof fn law_operations_share_the_values(
    al: &AutoLaunch,
    root: RootKey,
    run: RegistryValue,
    command: String,
    marker: RegistryValue,
    mark: String,
)
    requires
        al.enables(EnableMove::WriteRun(root), EnableStep::WriteRun(run, command)),
        al.enables(EnableMove::WriteMarker(root), EnableStep::WriteMarker(marker, mark)),
    ensures
        al.disables(DisableMove::RemoveRun(root), DisableStep::RemoveRun(run)),
        al.disables(DisableMove::RemoveMarker(root), DisableStep::RemoveMarker(marker)),
        al.asks_marker(root, OwnedStep::ReadMarker(marker)),
        al.asks_run(root, PathStep::ReadRun(run)),
        al.queries(EnabledMove::ReadRun(root), EnabledStep::ReadRun(run)),
        al.enables(EnableMove::ReadRun(root), EnableStep::ReadRun(run)),
        al.enables(EnableMove::ReadMarker(root), EnableStep::ReadMarker(marker)),
{
}

/// Once its registration stands, the path that is looked up is the application's, if it is a
/// single word.
pub proof fn law_written_registration_reads_back(
    al: &AutoLaunch,
    root: RootKey,
    run: RegistryValue,
    command: String,
    step: PathStep,
)
    requires
        al.app_path@.len() > 0,
        text::solid(al.app_path@),
        al.enables(EnableMove::WriteRun(root), EnableStep::WriteRun(run, command)),
        al.after_path_read(root, Ok(command), step),
    ensures
        step matches PathStep::Finished(Ok(Some(path))) && path@ == al.app_path@,
{
    law_registered_path_is_app_path(al);
}

/// A registration is this library's if the marker stands under either root.
pub proof fn law_owned_by_either_marker(
    al: &AutoLaunch,
    machine: Result<String, i32>,
    user: Result<String, i32>,
    first: OwnedStep,
    second: OwnedStep,
)
    requires
        al.after_owned_read(RootKey::LocalMachine, machine, first),
        al.after_owned_read(RootKey::CurrentUser, user, second),
    ensures
        machine is Ok ==> first == OwnedStep::Finished(Ok(true)),
        machine is Err ==> al.asks_marker(RootKey::CurrentUser, first) && second
            == OwnedStep::Finished(Ok(user is Ok)),
{
}

/// No marker lies in the `Run` key or below it, where it would be run at login.
pub proof fn law_marker_lies_outside_run_key(al: &AutoLaunch)
    ensures
        !windows::run_key().is_prefix_of(al.marker_key()),
{
    reveal_strlit("SOFTWARE\\Microsoft\\Windows\\CurrentVersion\\Run");
    reveal_strlit("SOFTWARE\\auto-launcher");
    assert(windows::run_key()[9] == 'M');
    assert(al.marker_key()[9] == 'a');
    if windows::run_key().is_prefix_of(al.marker_key()) {
        assert(windows::run_key()[9] == al.marker_key().subrange(
            0,
            windows::run_key().len() as int,
        )[9]);
    }
}

} // verus!
