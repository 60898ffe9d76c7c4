//! What each operation on Windows gives, said of what it was given and of what the registry
//! answered.

use vstd::prelude::*;
use vstd::utf8::*;

use crate::error::LaunchError;
use crate::text;
use crate::text_laws;
use crate::windows;
use crate::windows::{
    AutoLaunch, DisableMove, DisableStep, EnableMove, EnableStep, EnabledMove, EnabledStep,
    OwnedStep, PathStep, RootKey, SwitchError, WindowsEnableMode,
};
use crate::windows_laws;
use crate::windows_laws::EnabledAnswers;

verus! {

/// The codes for access that is denied and for what does not exist are `0x80070005` and
/// `0x80070002`.
pub proof fn law_codes()
    ensures
        windows::access_denied() == -2147024891,
        windows::not_found() == -2147024894,
{
}

/// The key of the registrations, and that of the task manager's switches.
pub proof fn law_keys(al: &AutoLaunch)
    ensures
        windows::run_key() == "SOFTWARE\\Microsoft\\Windows\\CurrentVersion\\Run"@,
        windows::switch_key()
            == "SOFTWARE\\Microsoft\\Windows\\CurrentVersion\\Explorer\\StartupApproved\\Run"@,
        al.marker_key() == "SOFTWARE\\auto-launcher"@ + "\\"@ + al.app_name@,
{
}

/// What registering writes under a root: the command, under the application's name in the key whose
/// values are run at login; the marker, in a key of its own; and a switch that is on, under the
/// application's name. The command is the path and each of the application's arguments, in their
/// order, behind a single space; where there are no arguments, a space follows the path.
pub proof fn law_written_values(
    al: &AutoLaunch,
    root: RootKey,
    spaced: Seq<Seq<char>>,
    run: EnableStep,
    marker: EnableStep,
    switch: EnableStep,
)
    requires
        al.enables(EnableMove::WriteRun(root), run),
        al.enables(EnableMove::WriteMarker(root), marker),
        al.enables(EnableMove::WriteSwitch(root), switch),
        spaced.len() == al.args@.len(),
        forall|i: int| 0 <= i < al.args@.len() ==> #[trigger] spaced[i] == " "@ + al.args@[i]@,
    ensures
        run matches EnableStep::WriteRun(value, data) && {
            &&& value.root == root
            &&& value.key@ == "SOFTWARE\\Microsoft\\Windows\\CurrentVersion\\Run"@
            &&& value.name@ == al.app_name@
            &&& data@ == al.app_path@ + (if al.args@.len() == 0 {
                " "@
            } else {
                spaced.flatten()
            })
        },
        marker matches EnableStep::WriteMarker(value, data) && {
            &&& value.root == root
            &&& value.key@ == "SOFTWARE\\auto-launcher"@ + "\\"@ + al.app_name@
            &&& value.name@ == "managed"@
            &&& data@ == "1"@
        },
        switch matches EnableStep::WriteSwitch(value, data) && {
            &&& value.root == root
            &&& value.key@
                == "SOFTWARE\\Microsoft\\Windows\\CurrentVersion\\Explorer\\StartupApproved\\Run"@
            &&& value.name@ == al.app_name@
            &&& data@.len() == 12
            &&& data@[0] == 2
            &&& forall|i: int| 1 <= i < 12 ==> #[trigger] data@[i] == 0
        },
{
    let args = text::texts(al.args@);
    text_laws::law_texts(al.args@);
    assert forall|i: int| 0 <= i < args.len() implies #[trigger] spaced[i] == " "@ + args[i] by {
        assert(args[i] == al.args@[i]@);
    }
    text_laws::law_joined_flat(args, " "@, spaced);
    assert(al.app_path@ + " "@ + text::joined(args, " "@) =~= al.app_path@ + (" "@ + text::joined(
        args,
        " "@,
    )));
    assert(" "@ + Seq::<char>::empty() =~= " "@);
}

/// What is read under a root: the value that registering writes there.
pub proof fn law_read_values(
    al: &AutoLaunch,
    root: RootKey,
    run: EnableStep,
    marker: EnableStep,
    owned: OwnedStep,
    looked_up: PathStep,
    registered: EnabledStep,
    switch: EnabledStep,
)
    requires
        al.enables(EnableMove::ReadRun(root), run),
        al.enables(EnableMove::ReadMarker(root), marker),
        al.asks_marker(root, owned),
        al.asks_run(root, looked_up),
        al.queries(EnabledMove::ReadRun(root), registered),
        al.queries(EnabledMove::ReadSwitch(root), switch),
    ensures
        run matches EnableStep::ReadRun(value) && value.root == root && value.key@
            == "SOFTWARE\\Microsoft\\Windows\\CurrentVersion\\Run"@ && value.name@ == al.app_name@,
        marker matches EnableStep::ReadMarker(value) && value.root == root && value.key@
            == "SOFTWARE\\auto-launcher"@ + "\\"@ + al.app_name@ && value.name@ == "managed"@,
        owned matches OwnedStep::ReadMarker(value) && value.root == root && value.key@
            == "SOFTWARE\\auto-launcher"@ + "\\"@ + al.app_name@ && value.name@ == "managed"@,
        looked_up matches PathStep::ReadRun(value) && value.root == root && value.key@
            == "SOFTWARE\\Microsoft\\Windows\\CurrentVersion\\Run"@ && value.name@ == al.app_name@,
        registered matches EnabledStep::ReadRun(value) && value.root == root && value.key@
            == "SOFTWARE\\Microsoft\\Windows\\CurrentVersion\\Run"@ && value.name@ == al.app_name@,
        switch matches EnabledStep::ReadSwitch(value) && value.root == root && value.key@
            == "SOFTWARE\\Microsoft\\Windows\\CurrentVersion\\Explorer\\StartupApproved\\Run"@
            && value.name@ == al.app_name@,
{
}

/// What is removed under a root: the registration and the marker, and nothing else.
pub proof fn law_removed_values(
    al: &AutoLaunch,
    root: RootKey,
    run: DisableStep,
    marker: DisableStep,
)
    requires
        al.disables(DisableMove::RemoveRun(root), run),
        al.disables(DisableMove::RemoveMarker(root), marker),
    ensures
        run matches DisableStep::RemoveRun(value) && value.root == root && value.key@
            == "SOFTWARE\\Microsoft\\Windows\\CurrentVersion\\Run"@ && value.name@ == al.app_name@,
        marker matches DisableStep::RemoveMarker(value) && value.root == root && value.key@
            == "SOFTWARE\\auto-launcher"@ + "\\"@ + al.app_name@ && value.name@ == "managed"@,
{
}

/// How the moves that end an operation end it. A refusal names the key and its root.
pub proof fn law_ends(
    al: &AutoLaunch,
    root: RootKey,
    code: i32,
    answer: bool,
    refused: EnableStep,
    enable_failed: EnableStep,
    enabled: EnableStep,
    disable_failed: DisableStep,
    disabled: DisableStep,
    query_failed: EnabledStep,
    answered: EnabledStep,
)
    requires
        al.enables(EnableMove::Refuse(root), refused),
        al.enables(EnableMove::Fail(code), enable_failed),
        al.enables(EnableMove::Succeed, enabled),
        al.disables(DisableMove::Fail(code), disable_failed),
        al.disables(DisableMove::Succeed, disabled),
        al.queries(EnabledMove::Fail(code), query_failed),
        al.queries(EnabledMove::Answer(answer), answered),
    ensures
        refused matches EnableStep::Finished(Err(LaunchError::RegistrationNotOwned(path))) && path@
            == encode_utf8(
            (match root {
                RootKey::LocalMachine => "HKLM"@,
                RootKey::CurrentUser => "HKCU"@,
            }) + "\\"@ + "SOFTWARE\\Microsoft\\Windows\\CurrentVersion\\Run"@,
        ),
        enable_failed == EnableStep::Finished(Err(LaunchError::Registry(code))),
        enabled == EnableStep::Finished(Ok(())),
        disable_failed == DisableStep::Finished(Err(LaunchError::Registry(code))),
        disabled == DisableStep::Finished(Ok(())),
        query_failed == EnabledStep::Finished(Err(LaunchError::Registry(code))),
        answered == EnabledStep::Finished(Ok(answer)),
{
}

/// How registering goes on: without force both roots are looked at, and a registration there must
/// have its marker beside it; then writing starts, under the root for all users unless the mode is
/// the current user's. The registration comes first, then the marker, then the switch, which may
/// be missing. Access that is denied for all users leads to the current user's root in the dynamic
/// mode; any other failure ends.
pub proof fn law_enable_moves(mode: WindowsEnableMode, root: RootKey, code: i32)
    ensures
        ({
            let write = EnableMove::WriteRun(
                if mode == WindowsEnableMode::CurrentUser {
                    RootKey::CurrentUser
                } else {
                    RootKey::LocalMachine
                },
            );
            let past = if root == RootKey::LocalMachine {
                EnableMove::ReadRun(RootKey::CurrentUser)
            } else {
                write
            };
            let failed = if mode == WindowsEnableMode::Dynamic && root == RootKey::LocalMachine
                && code == -2147024891 {
                EnableMove::WriteRun(RootKey::CurrentUser)
            } else {
                EnableMove::Fail(code)
            };
            &&& windows::first_enable(mode, false) == EnableMove::ReadRun(RootKey::LocalMachine)
            &&& windows::first_enable(mode, true) == write
            &&& windows::first_write(mode) == write
            &&& windows::after_run_read(mode, root, true) == EnableMove::ReadMarker(root)
            &&& windows::after_run_read(mode, root, false) == past
            &&& windows::after_marker_read(mode, root, true) == past
            &&& windows::after_marker_read(mode, root, false) == EnableMove::Refuse(root)
            &&& windows::after_run_written(mode, root, Ok(())) == EnableMove::WriteMarker(root)
            &&& windows::after_run_written(mode, root, Err(code)) == failed
            &&& windows::after_marker_written(mode, root, Ok(())) == EnableMove::WriteSwitch(root)
            &&& windows::after_marker_written(mode, root, Err(code)) == failed
            &&& windows::after_switch_written(mode, root, Ok(())) == EnableMove::Succeed
            &&& windows::after_switch_written(mode, root, Err(SwitchError::Write(code))) == failed
            &&& windows::after_switch_written(mode, root, Err(SwitchError::Open(code))) == if code
                == -2147024894 {
                EnableMove::Succeed
            } else {
                failed
            }
        }),
{
}

/// How removing goes on: under the root for all users, then under the current user's. What does not
/// exist is no failure, and access that is denied for all users is one in the system's mode alone.
pub proof fn law_disable_moves(mode: WindowsEnableMode, root: RootKey, code: i32)
    ensures
        ({
            let past = if root == RootKey::LocalMachine {
                DisableMove::RemoveMarker(RootKey::CurrentUser)
            } else {
                DisableMove::Succeed
            };
            &&& windows::after_run_removed(mode, root, Ok(())) == past
            &&& windows::after_run_removed(mode, root, Err(code)) == if code == -2147024894 || (code
                == -2147024891 && root == RootKey::LocalMachine && mode
                != WindowsEnableMode::System) {
                past
            } else {
                DisableMove::Fail(code)
            }
        }),
{
}

/// A switch is on exactly if it has fewer than eight bytes, or if each of its last eight is zero.
pub proof fn law_switch_is_on(bytes: Seq<u8>)
    ensures
        windows::is_on(bytes) <==> bytes.len() < 8 || {
            &&& bytes[bytes.len() - 8] == 0
            &&& bytes[bytes.len() - 7] == 0
            &&& bytes[bytes.len() - 6] == 0
            &&& bytes[bytes.len() - 5] == 0
            &&& bytes[bytes.len() - 4] == 0
            &&& bytes[bytes.len() - 3] == 0
            &&& bytes[bytes.len() - 2] == 0
            &&& bytes[bytes.len() - 1] == 0
        },
        bytes.len() >= 8 ==> (windows::ends_in_zeros(bytes) <==> {
            &&& bytes[bytes.len() - 8] == 0
            &&& bytes[bytes.len() - 7] == 0
            &&& bytes[bytes.len() - 6] == 0
            &&& bytes[bytes.len() - 5] == 0
            &&& bytes[bytes.len() - 4] == 0
            &&& bytes[bytes.len() - 3] == 0
            &&& bytes[bytes.len() - 2] == 0
            &&& bytes[bytes.len() - 1] == 0
        }),
{
}

/// What follows the reading of a switch: one with a byte other than zero among its last eight says
/// that the application is not launched. Any other, and one that is not there, lets the current
/// user's switch decide after that for all users, and else says that the application is launched.
pub proof fn law_switch_decides(
    al: &AutoLaunch,
    root: RootKey,
    bytes: Vec<u8>,
    code: i32,
    read: EnabledStep,
    unread: EnabledStep,
)
    requires
        al.queries(windows::after_switch_read(root, Ok(bytes)), read),
        al.queries(windows::after_switch_read(root, Err(code)), unread),
    ensures
        ({
            let off = bytes@.len() >= 8 && exists|i: int|
                bytes@.len() - 8 <= i < bytes@.len() && #[trigger] bytes@[i] != 0;
            &&& off ==> read == EnabledStep::Finished(Ok(false))
            &&& !off && root == RootKey::CurrentUser ==> read == EnabledStep::Finished(Ok(true))
            &&& !off && root == RootKey::LocalMachine ==> (
            read matches EnabledStep::ReadSwitch(value) && value.root == RootKey::CurrentUser)
        }),
        code != -2147024894 ==> unread == EnabledStep::Finished(Err(LaunchError::Registry(code))),
        code == -2147024894 && root == RootKey::CurrentUser ==> unread == EnabledStep::Finished(
            Ok(true),
        ),
        code == -2147024894 && root == RootKey::LocalMachine ==> (
        unread matches EnabledStep::ReadSwitch(value) && value.root == RootKey::CurrentUser),
{
}

/// What follows the reading of a registration: one that is found leads to the switches, first to the
/// one for all users. Without any the application is not launched.
pub proof fn law_registration_decides(root: RootKey, command: String, code: i32)
    ensures
        windows::after_registered(root, Ok(command)) == EnabledMove::ReadSwitch(
            RootKey::LocalMachine,
        ),
        windows::after_registered(root, Err(code)) == if code != -2147024894 {
            EnabledMove::Fail(code)
        } else if root == RootKey::LocalMachine {
            EnabledMove::ReadRun(RootKey::CurrentUser)
        } else {
            EnabledMove::Answer(false)
        },
{
}

/// The application counts as launched exactly if a registration is found under either root, and no
/// switch that is found has a byte other than zero among its last eight. Here whatever cannot be
/// read does not exist.
pub proof fn law_launched(answers: EnabledAnswers)
    requires
        answers.machine_run matches Err(code) ==> code == -2147024894,
        answers.user_run matches Err(code) ==> code == -2147024894,
        answers.machine_switch matches Err(code) ==> code == -2147024894,
        answers.user_switch matches Err(code) ==> code == -2147024894,
    ensures
        windows_laws::query_ends(EnabledMove::ReadRun(RootKey::LocalMachine), answers)
            == EnabledMove::Answer(
            {
                &&& answers.machine_run is Ok || answers.user_run is Ok
                &&& answers.machine_switch matches Ok(bytes) ==> bytes@.len() < 8 || forall|i: int|
                    bytes@.len() - 8 <= i < bytes@.len() ==> #[trigger] bytes@[i] == 0
                &&& answers.user_switch matches Ok(bytes) ==> bytes@.len() < 8 || forall|i: int|
                    bytes@.len() - 8 <= i < bytes@.len() ==> #[trigger] bytes@[i] == 0
            },
        ),
{
    windows_laws::law_is_enabled_answers(answers);
}

/// A registration is this library's exactly if the marker can be read under either root, first for
/// all users.
pub proof fn law_owned(
    al: &AutoLaunch,
    root: RootKey,
    value: String,
    code: i32,
    found: OwnedStep,
    missing: OwnedStep,
)
    requires
        al.after_owned_read(root, Ok(value), found),
        al.after_owned_read(root, Err(code), missing),
    ensures
        found == OwnedStep::Finished(Ok(true)),
        root == RootKey::CurrentUser ==> missing == OwnedStep::Finished(Ok(false)),
        root == RootKey::LocalMachine ==> (missing matches OwnedStep::ReadMarker(marker)
            && marker.root == RootKey::CurrentUser && marker.key@ == "SOFTWARE\\auto-launcher"@
            + "\\"@ + al.app_name@ && marker.name@ == "managed"@),
{
}

/// The path that is looked up is the first word of the command that was read, whatever the path of
/// the application that asks. It reaches from `begin` to `end` in the command.
pub proof fn law_looked_up_path(
    al: &AutoLaunch,
    root: RootKey,
    command: String,
    step: PathStep,
    begin: int,
    end: int,
)
    requires
        al.after_path_read(root, Ok(command), step),
        0 <= begin < end <= command@.len(),
        forall|i: int| 0 <= i < begin ==> text::white_space(#[trigger] command@[i]),
        forall|i: int| begin <= i < end ==> !text::white_space(#[trigger] command@[i]),
        end < command@.len() ==> text::white_space(command@[end]),
    ensures
        step matches PathStep::Finished(Ok(Some(path))) && path@ == command@.subrange(begin, end),
{
    text_laws::law_first_word(command@, begin, end);
}

/// No path is found in a command of white space alone, nor where there is no registration: after
/// the root for all users comes the current user's.
pub proof fn law_looked_up_nothing(
    al: &AutoLaunch,
    root: RootKey,
    command: String,
    code: i32,
    blank: PathStep,
    missing: PathStep,
)
    requires
        al.after_path_read(root, Ok(command), blank),
        forall|i: int| 0 <= i < command@.len() ==> text::white_space(#[trigger] command@[i]),
        al.after_path_read(root, Err(code), missing),
    ensures
        blank == PathStep::Finished(Ok(None)),
        root == RootKey::CurrentUser ==> missing == PathStep::Finished(Ok(None)),
        root == RootKey::LocalMachine ==> (missing matches PathStep::ReadRun(value) && value.root
            == RootKey::CurrentUser && value.key@
            == "SOFTWARE\\Microsoft\\Windows\\CurrentVersion\\Run"@ && value.name@ == al.app_name@),
{
    text_laws::law_no_first_word(command@);
}

} // verus!
