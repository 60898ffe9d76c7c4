use auto_launcher::error::LaunchError;
use auto_launcher::windows::{
    e_accessdenied, e_filenotfound, last_eight_bytes_all_zeros, AutoLaunch, DisableStep,
    EnableStep, EnabledStep, OwnedStep, PathStep, RegistryValue, RootKey, SwitchError,
    WindowsEnableMode,
};

const RUN: &str = r"SOFTWARE\Microsoft\Windows\CurrentVersion\Run";
const SWITCH: &str = r"SOFTWARE\Microsoft\Windows\CurrentVersion\Explorer\StartupApproved\Run";
const MARKER: &str = r"SOFTWARE\auto-launcher\TestApp";
const OTHER: i32 = -2147024809;

fn app(mode: WindowsEnableMode) -> AutoLaunch {
    AutoLaunch::new("TestApp", r"C:\app.exe", mode, &["--flag", "value"])
}

fn at(value: &RegistryValue, root: RootKey, key: &str, name: &str) {
    assert_eq!(value.root, root);
    assert_eq!(value.key, key);
    assert_eq!(value.name, name);
}

fn reads_run(step: EnableStep, root: RootKey) {
    match step {
        EnableStep::ReadRun(value) => at(&value, root, RUN, "TestApp"),
        step => panic!("{:?}", step),
    }
}

fn writes_run(step: EnableStep, root: RootKey) {
    match step {
        EnableStep::WriteRun(value, data) => {
            at(&value, root, RUN, "TestApp");
            assert_eq!(data, r"C:\app.exe --flag value");
        }
        step => panic!("{:?}", step),
    }
}

fn fails(step: EnableStep, code: i32) {
    match step {
        EnableStep::Finished(Err(LaunchError::Registry(c))) => assert_eq!(c, code),
        step => panic!("{:?}", step),
    }
}

fn some() -> Result<String, i32> {
    Ok("x".to_string())
}

#[test]
fn codes_of_errors() {
    assert_eq!(e_accessdenied(), 0x8007_0005_u32 as i32);
    assert_eq!(e_filenotfound(), 0x8007_0002_u32 as i32);
    assert_eq!(e_accessdenied(), windows_result::HRESULT::from_win32(5).0);
    assert_eq!(e_filenotfound(), windows_result::HRESULT::from_win32(2).0);
}

#[test]
fn last_eight_bytes() {
    assert_eq!(last_eight_bytes_all_zeros(&[0; 7]), Err("Bytes too short"));
    assert_eq!(last_eight_bytes_all_zeros(&[]), Err("Bytes too short"));
    assert_eq!(last_eight_bytes_all_zeros(&[0; 8]), Ok(true));
    assert_eq!(last_eight_bytes_all_zeros(&[2, 0, 0, 0, 0, 0, 0, 0, 0, 0, 0, 0]), Ok(true));
    assert_eq!(last_eight_bytes_all_zeros(&[2, 0, 0, 0, 1, 0, 0, 0, 0, 0, 0, 0]), Ok(false));
    assert_eq!(last_eight_bytes_all_zeros(&[0, 0, 0, 0, 0, 0, 0, 1]), Ok(false));
}

#[test]
fn windows_new_keeps_what_it_is_given() {
    let al = app(WindowsEnableMode::System);
    assert_eq!(al.app_name, "TestApp");
    assert_eq!(al.app_path, r"C:\app.exe");
    assert_eq!(al.enable_mode, WindowsEnableMode::System);
    assert_eq!(al.args, ["--flag", "value"]);
    assert_eq!(al.marker_regkey(), MARKER);
}

#[test]
fn enable_looks_under_both_roots() {
    let al = app(WindowsEnableMode::Dynamic);
    reads_run(al.enable(), RootKey::LocalMachine);
    match al.enable_run_read(RootKey::LocalMachine, some()) {
        EnableStep::ReadMarker(value) => at(&value, RootKey::LocalMachine, MARKER, "managed"),
        step => panic!("{:?}", step),
    }
    reads_run(al.enable_run_read(RootKey::LocalMachine, Err(OTHER)), RootKey::CurrentUser);
    reads_run(al.enable_marker_read(RootKey::LocalMachine, some()), RootKey::CurrentUser);
    writes_run(al.enable_run_read(RootKey::CurrentUser, Err(OTHER)), RootKey::LocalMachine);
    writes_run(al.enable_marker_read(RootKey::CurrentUser, some()), RootKey::LocalMachine);
}

#[test]
fn enable_refuses_a_foreign_registration() {
    let al = app(WindowsEnableMode::CurrentUser);
    for (root, path) in [
        (RootKey::LocalMachine, r"HKLM\SOFTWARE\Microsoft\Windows\CurrentVersion\Run"),
        (RootKey::CurrentUser, r"HKCU\SOFTWARE\Microsoft\Windows\CurrentVersion\Run"),
    ] {
        match al.enable_marker_read(root, Err(OTHER)) {
            EnableStep::Finished(Err(LaunchError::RegistrationNotOwned(bytes))) => {
                assert_eq!(bytes, path.as_bytes())
            }
            step => panic!("{:?}", step),
        }
    }
}

#[test]
fn enable_force_writes_at_once() {
    writes_run(app(WindowsEnableMode::Dynamic).enable_force(), RootKey::LocalMachine);
    writes_run(app(WindowsEnableMode::System).enable_force(), RootKey::LocalMachine);
    writes_run(app(WindowsEnableMode::CurrentUser).enable_force(), RootKey::CurrentUser);
}

#[test]
fn enable_writes_three_values() {
    let al = app(WindowsEnableMode::System);
    match al.enable_run_written(RootKey::LocalMachine, Ok(())) {
        EnableStep::WriteMarker(value, data) => {
            at(&value, RootKey::LocalMachine, MARKER, "managed");
            assert_eq!(data, "1");
        }
        step => panic!("{:?}", step),
    }
    match al.enable_marker_written(RootKey::LocalMachine, Ok(())) {
        EnableStep::WriteSwitch(value, data) => {
            at(&value, RootKey::LocalMachine, SWITCH, "TestApp");
            assert_eq!(data, [2, 0, 0, 0, 0, 0, 0, 0, 0, 0, 0, 0]);
            assert_eq!(last_eight_bytes_all_zeros(&data), Ok(true));
        }
        step => panic!("{:?}", step),
    }
    assert!(matches!(
        al.enable_switch_written(RootKey::LocalMachine, Ok(())),
        EnableStep::Finished(Ok(()))
    ));
    let missing = Err(SwitchError::Open(e_filenotfound()));
    assert!(matches!(
        al.enable_switch_written(RootKey::LocalMachine, missing),
        EnableStep::Finished(Ok(()))
    ));
    let unset = Err(SwitchError::Write(e_filenotfound()));
    fails(al.enable_switch_written(RootKey::LocalMachine, unset), e_filenotfound());
}

#[test]
fn dynamic_mode_falls_back() {
    let denied = e_accessdenied();
    let machine = RootKey::LocalMachine;
    let al = app(WindowsEnableMode::Dynamic);
    writes_run(al.enable_run_written(machine, Err(denied)), RootKey::CurrentUser);
    writes_run(al.enable_marker_written(machine, Err(denied)), RootKey::CurrentUser);
    let open = Err(SwitchError::Open(denied));
    writes_run(al.enable_switch_written(machine, open), RootKey::CurrentUser);
    let set = Err(SwitchError::Write(denied));
    writes_run(al.enable_switch_written(machine, set), RootKey::CurrentUser);
    fails(al.enable_run_written(machine, Err(OTHER)), OTHER);
    fails(al.enable_run_written(RootKey::CurrentUser, Err(denied)), denied);
    fails(app(WindowsEnableMode::System).enable_run_written(machine, Err(denied)), denied);
}

#[test]
fn disable_removes_under_both_roots() {
    let al = app(WindowsEnableMode::Dynamic);
    for root in [RootKey::LocalMachine, RootKey::CurrentUser] {
        match al.disable_marker_removed(root) {
            DisableStep::RemoveRun(value) => at(&value, root, RUN, "TestApp"),
            step => panic!("{:?}", step),
        }
    }
    match al.disable() {
        DisableStep::RemoveMarker(value) => at(&value, RootKey::LocalMachine, MARKER, "managed"),
        step => panic!("{:?}", step),
    }
    for reply in [Ok(()), Err(e_filenotfound()), Err(e_accessdenied())] {
        match al.disable_run_removed(RootKey::LocalMachine, reply) {
            DisableStep::RemoveMarker(value) => at(&value, RootKey::CurrentUser, MARKER, "managed"),
            step => panic!("{:?}", step),
        }
    }
    for reply in [Ok(()), Err(e_filenotfound())] {
        assert!(matches!(
            al.disable_run_removed(RootKey::CurrentUser, reply),
            DisableStep::Finished(Ok(()))
        ));
    }
}

#[test]
fn disable_that_fails() {
    let denied = e_accessdenied();
    for (mode, root, code) in [
        (WindowsEnableMode::System, RootKey::LocalMachine, denied),
        (WindowsEnableMode::Dynamic, RootKey::LocalMachine, OTHER),
        (WindowsEnableMode::CurrentUser, RootKey::CurrentUser, denied),
    ] {
        match app(mode).disable_run_removed(root, Err(code)) {
            DisableStep::Finished(Err(LaunchError::Registry(c))) => assert_eq!(c, code),
            step => panic!("{:?}", step),
        }
    }
}

#[test]
fn ownership_by_the_marker() {
    let al = app(WindowsEnableMode::Dynamic);
    match al.is_registration_owned() {
        OwnedStep::ReadMarker(value) => at(&value, RootKey::LocalMachine, MARKER, "managed"),
        step => panic!("{:?}", step),
    }
    match al.owned_marker_read(RootKey::LocalMachine, Err(OTHER)) {
        OwnedStep::ReadMarker(value) => at(&value, RootKey::CurrentUser, MARKER, "managed"),
        step => panic!("{:?}", step),
    }
    assert!(matches!(
        al.owned_marker_read(RootKey::LocalMachine, some()),
        OwnedStep::Finished(Ok(true))
    ));
    assert!(matches!(
        al.owned_marker_read(RootKey::CurrentUser, some()),
        OwnedStep::Finished(Ok(true))
    ));
    assert!(matches!(
        al.owned_marker_read(RootKey::CurrentUser, Err(OTHER)),
        OwnedStep::Finished(Ok(false))
    ));
}

#[test]
fn windows_path_reads_back() {
    let al = app(WindowsEnableMode::CurrentUser);
    let command = match al.enable_force() {
        EnableStep::WriteRun(_, command) => command,
        step => panic!("{:?}", step),
    };
    match al.path_run_read(RootKey::LocalMachine, Ok(command)) {
        PathStep::Finished(Ok(path)) => assert_eq!(path.as_deref(), Some(r"C:\app.exe")),
        step => panic!("{:?}", step),
    }
    match al.get_registered_app_path() {
        PathStep::ReadRun(value) => at(&value, RootKey::LocalMachine, RUN, "TestApp"),
        step => panic!("{:?}", step),
    }
    match al.path_run_read(RootKey::LocalMachine, Err(OTHER)) {
        PathStep::ReadRun(value) => at(&value, RootKey::CurrentUser, RUN, "TestApp"),
        step => panic!("{:?}", step),
    }
    assert!(matches!(
        al.path_run_read(RootKey::CurrentUser, Err(OTHER)),
        PathStep::Finished(Ok(None))
    ));
    assert!(matches!(
        al.path_run_read(RootKey::LocalMachine, Ok("  ".to_string())),
        PathStep::Finished(Ok(None))
    ));
}

#[test]
fn enabled_by_registration_and_switches() {
    let al = app(WindowsEnableMode::Dynamic);
    match al.is_enabled() {
        EnabledStep::ReadRun(value) => at(&value, RootKey::LocalMachine, RUN, "TestApp"),
        step => panic!("{:?}", step),
    }
    match al.enabled_run_read(RootKey::LocalMachine, Err(e_filenotfound())) {
        EnabledStep::ReadRun(value) => at(&value, RootKey::CurrentUser, RUN, "TestApp"),
        step => panic!("{:?}", step),
    }
    assert!(matches!(
        al.enabled_run_read(RootKey::CurrentUser, Err(e_filenotfound())),
        EnabledStep::Finished(Ok(false))
    ));
    assert!(matches!(
        al.enabled_run_read(RootKey::CurrentUser, Err(OTHER)),
        EnabledStep::Finished(Err(LaunchError::Registry(OTHER)))
    ));
    for root in [RootKey::LocalMachine, RootKey::CurrentUser] {
        match al.enabled_run_read(root, some()) {
            EnabledStep::ReadSwitch(value) => at(&value, RootKey::LocalMachine, SWITCH, "TestApp"),
            step => panic!("{:?}", step),
        }
        assert!(matches!(
            al.enabled_switch_read(root, Ok(vec![3, 0, 0, 0, 9, 9, 9, 9, 9, 9, 9, 9])),
            EnabledStep::Finished(Ok(false))
        ));
        assert!(matches!(
            al.enabled_switch_read(root, Err(OTHER)),
            EnabledStep::Finished(Err(LaunchError::Registry(OTHER)))
        ));
    }
    for reply in [Ok(vec![2; 4]), Ok(vec![0; 12]), Err(e_filenotfound())] {
        match al.enabled_switch_read(RootKey::LocalMachine, reply.clone()) {
            EnabledStep::ReadSwitch(value) => at(&value, RootKey::CurrentUser, SWITCH, "TestApp"),
            step => panic!("{:?}", step),
        }
        assert!(matches!(
            al.enabled_switch_read(RootKey::CurrentUser, reply),
            EnabledStep::Finished(Ok(true))
        ));
    }
}
