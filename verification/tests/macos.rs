use auto_launcher::error::{IoError, IoErrorKind, LaunchError};
use auto_launcher::host::CommandOutput;
use auto_launcher::macos::{
    build_launch_agent_plist, build_launch_daemon_plist, exec_apple_script, get_dir, hidden_among,
    lists_name, login_item_name_of, script_result, AutoLaunch, DisableStep, EnableStep,
    EnabledStep, MacOSLaunchMode, PlistFile, ServiceStatus,
};
use plist::Value;

#[test]
fn test_build_launch_agent_plist() {
    let dict = build_launch_agent_plist(
        "TestApp",
        "/Applications/TestApp.app",
        &["--flag".into()],
        &["com.example.testapp".into()],
    );

    // Serialize to XML for assertion
    let mut buf = Vec::new();
    plist::to_writer_xml(&mut buf, &Value::Dictionary(dict)).unwrap();
    let xml = String::from_utf8(buf).unwrap();

    assert!(xml.contains("<string>TestApp</string>"));
    assert!(xml.contains("AssociatedBundleIdentifiers"));
    assert!(xml.contains("<string>com.example.testapp</string>"));
    assert!(xml.contains("<string>/Applications/TestApp.app</string>"));
    assert!(xml.contains("<string>--flag</string>"));
    assert!(xml.contains("RunAtLoad"));
    assert!(xml.contains("<true/>"));
    // Agent must NOT have SessionCreate
    assert!(!xml.contains("SessionCreate"));
}

#[test]
fn test_build_launch_daemon_plist() {
    let dict = build_launch_daemon_plist(
        "TestDaemon",
        "/usr/local/bin/test-daemon",
        &["--flag".into()],
    );

    let mut buf = Vec::new();
    plist::to_writer_xml(&mut buf, &Value::Dictionary(dict)).unwrap();
    let xml = String::from_utf8(buf).unwrap();

    assert!(xml.contains("<string>TestDaemon</string>"));
    assert!(xml.contains("<string>/usr/local/bin/test-daemon</string>"));
    assert!(xml.contains("<string>--flag</string>"));
    assert!(xml.contains("RunAtLoad"));
    assert!(xml.contains("<true/>"));
    // Daemon must NOT have AssociatedBundleIdentifiers
    assert!(!xml.contains("AssociatedBundleIdentifiers"));
    // Daemon MUST have SessionCreate
    assert!(xml.contains("SessionCreate"));
}

fn app(mode: MacOSLaunchMode) -> AutoLaunch {
    AutoLaunch::new(
        "Given",
        "/Applications/TestApp.app",
        mode,
        &["--flag", "--minimized"],
        &["com.example.testapp"],
        "extra",
    )
}

fn home() -> Option<Vec<u8>> {
    Some(b"/Users/me".to_vec())
}

fn io_error() -> IoError {
    IoError { kind: IoErrorKind::NotFound, os_code: Some(2), message: "gone".to_string() }
}

fn output(success: bool, code: Option<i32>, stdout: &[u8]) -> CommandOutput {
    CommandOutput { success, code, stdout: stdout.to_vec(), stderr: Vec::new() }
}

fn is_home_error(e: &LaunchError) -> bool {
    match e {
        LaunchError::Io(io) => {
            io.kind == IoErrorKind::NotFound && io.message == "Failed to find home directory"
        }
        _ => false,
    }
}

fn plist_file(al: &AutoLaunch) -> PlistFile {
    match al.app_checked_below(&home(), true) {
        EnableStep::CheckDir(p) => p,
        step => panic!("{:?}", step),
    }
}

#[test]
fn login_items_are_named_after_the_path() {
    assert_eq!(login_item_name_of("/Applications/TestApp.app"), "TestApp");
    assert_eq!(login_item_name_of("/usr/bin/tool"), "tool");
    assert_eq!(login_item_name_of("tool"), "tool");
    assert_eq!(login_item_name_of("tool.app"), "tool");
    assert_eq!(login_item_name_of("/x/.app"), "");
    assert_eq!(login_item_name_of("/x.app/"), "");
    assert_eq!(login_item_name_of(""), "");
    assert_eq!(login_item_name_of("/a/b.app.app"), "b.app");
    assert_eq!(login_item_name_of("/\u{e9}/\u{4e2d}.app"), "\u{4e2d}");

    assert_eq!(app(MacOSLaunchMode::AppleScript).app_name, "TestApp");
    let al = app(MacOSLaunchMode::LaunchAgentUser);
    assert_eq!(al.app_name, "Given");
    assert_eq!(al.app_path, "/Applications/TestApp.app");
    assert_eq!(al.launch_mode, MacOSLaunchMode::LaunchAgentUser);
    assert_eq!(al.args, ["--flag", "--minimized"]);
    assert_eq!(al.bundle_identifiers, ["com.example.testapp"]);
    assert_eq!(al.agent_extra_config, "extra");
}

#[test]
fn agent_entries_in_order() {
    let with = build_launch_agent_plist("N", "/p", &["a".into()], &["id".into()]);
    let keys: Vec<&str> = with.keys().map(|k| k.as_str()).collect();
    assert_eq!(keys, ["Label", "AssociatedBundleIdentifiers", "ProgramArguments", "RunAtLoad"]);
    assert_eq!(with.get("Label"), Some(&Value::String("N".to_string())));
    assert_eq!(
        with.get("ProgramArguments"),
        Some(&Value::Array(vec![
            Value::String("/p".to_string()),
            Value::String("a".to_string())
        ]))
    );
    assert_eq!(with.get("RunAtLoad"), Some(&Value::Boolean(true)));
    let without = build_launch_agent_plist("N", "/p", &[], &[]);
    let keys: Vec<&str> = without.keys().map(|k| k.as_str()).collect();
    assert_eq!(keys, ["Label", "ProgramArguments", "RunAtLoad"]);
    let daemon = build_launch_daemon_plist("N", "/p", &[]);
    let keys: Vec<&str> = daemon.keys().map(|k| k.as_str()).collect();
    assert_eq!(keys, ["Label", "ProgramArguments", "RunAtLoad", "SessionCreate"]);
    assert_eq!(daemon.get("SessionCreate"), Some(&Value::Boolean(true)));
}

#[test]
fn macos_directories_and_files() {
    assert_eq!(
        get_dir(MacOSLaunchMode::LaunchAgentUser, &home()).unwrap(),
        b"/Users/me/Library/LaunchAgents".to_vec()
    );
    assert_eq!(
        get_dir(MacOSLaunchMode::LaunchAgentSystem, &None).unwrap(),
        b"/Library/LaunchAgents".to_vec()
    );
    assert_eq!(
        get_dir(MacOSLaunchMode::LaunchDaemonSystem, &None).unwrap(),
        b"/Library/LaunchDaemons".to_vec()
    );
    assert!(is_home_error(&get_dir(MacOSLaunchMode::LaunchAgentUser, &None).unwrap_err()));
    assert_eq!(
        app(MacOSLaunchMode::LaunchAgentUser).get_file(&home()).unwrap(),
        b"/Users/me/Library/LaunchAgents/Given.plist".to_vec()
    );
}

#[test]
fn enable_starts_by_mode() {
    assert!(matches!(
        app(MacOSLaunchMode::SMAppService).enable(),
        EnableStep::RegisterService
    ));
    assert!(matches!(app(MacOSLaunchMode::AppleScript).enable(), EnableStep::CheckApp));
    assert!(matches!(app(MacOSLaunchMode::LaunchAgentUser).enable(), EnableStep::CheckApp));
}

#[test]
fn enable_service() {
    let al = app(MacOSLaunchMode::SMAppService);
    assert!(matches!(al.enable_service_registered(Ok(())), EnableStep::Finished(Ok(()))));
    assert!(matches!(
        al.enable_service_registered(Err(9)),
        EnableStep::Finished(Err(LaunchError::SMAppServiceRegistrationFailed(9)))
    ));
}

#[test]
fn enable_checks_the_path() {
    let al = app(MacOSLaunchMode::LaunchAgentUser);
    match al.app_checked_below(&home(), false) {
        EnableStep::Finished(Err(LaunchError::AppPathDoesntExist(path))) => {
            assert_eq!(path, "/Applications/TestApp.app")
        }
        step => panic!("{:?}", step),
    }
    let relative =
        AutoLaunch::new("N", "TestApp.app", MacOSLaunchMode::LaunchDaemonSystem, &[], &[], "");
    match relative.enable_app_checked(true) {
        EnableStep::Finished(Err(LaunchError::AppPathIsNotAbsolute(path))) => {
            assert_eq!(path, "TestApp.app")
        }
        step => panic!("{:?}", step),
    }
    match al.app_checked_below(&None, true) {
        EnableStep::Finished(Err(e)) => assert!(is_home_error(&e)),
        step => panic!("{:?}", step),
    }
}

#[test]
fn enable_writes_the_property_list() {
    let al = app(MacOSLaunchMode::LaunchAgentUser);
    let p = plist_file(&al);
    assert_eq!(p.dir, b"/Users/me/Library/LaunchAgents".to_vec());
    assert_eq!(p.file, b"/Users/me/Library/LaunchAgents/Given.plist".to_vec());
    assert!(matches!(al.enable_dir_checked(p, true), EnableStep::CreateFile(_)));
    assert!(matches!(al.enable_dir_checked(plist_file(&al), false), EnableStep::CreateDir(_)));
    assert!(matches!(al.enable_dir_created(plist_file(&al), Ok(())), EnableStep::CreateFile(_)));
    assert!(matches!(
        al.enable_dir_created(plist_file(&al), Err(io_error())),
        EnableStep::Finished(Err(LaunchError::Io(_)))
    ));
    assert!(matches!(
        al.enable_file_created(Err(io_error())),
        EnableStep::Finished(Err(LaunchError::Io(_)))
    ));
    let bytes = match al.enable_file_created(Ok(())) {
        EnableStep::WriteFile(bytes) => bytes,
        step => panic!("{:?}", step),
    };
    let mut expected = Vec::new();
    plist::to_writer_xml(&mut expected, &Value::Dictionary(al.registration_plist())).unwrap();
    assert_eq!(bytes, expected);
    assert_eq!(
        plist::from_bytes::<Value>(&bytes).unwrap(),
        Value::Dictionary(al.registration_plist())
    );
    assert!(matches!(al.enable_file_written(Ok(())), EnableStep::Finished(Ok(()))));
}

/// A writer that fails, as a full disk does.
struct FullDisk;

impl std::io::Write for FullDisk {
    fn write(&mut self, _: &[u8]) -> std::io::Result<usize> {
        Err(full_disk())
    }

    fn flush(&mut self) -> std::io::Result<()> {
        Ok(())
    }
}

fn full_disk() -> std::io::Error {
    std::io::Error::from_raw_os_error(28)
}

fn message_of(step: EnableStep) -> String {
    match step {
        EnableStep::Finished(Err(LaunchError::Io(e))) => {
            assert_eq!(e.kind, IoErrorKind::Other);
            assert_eq!(e.os_code, None);
            e.message
        }
        step => panic!("{:?}", step),
    }
}

#[test]
fn a_failed_write_says_what_the_property_list_writer_says() {
    let al = app(MacOSLaunchMode::LaunchAgentUser);
    assert_eq!(
        message_of(al.enable_file_written(Err("Kind(WriteZero)".to_string()))),
        "Io(Kind(WriteZero))"
    );
    let failure =
        plist::to_writer_xml(FullDisk, &Value::Dictionary(al.registration_plist())).unwrap_err();
    let failure = std::io::Error::other(failure);
    assert_eq!(
        message_of(al.enable_file_written(Err(format!("{:?}", full_disk())))),
        failure.to_string()
    );
    assert_eq!(failure.kind(), std::io::ErrorKind::Other);
    assert_eq!(failure.raw_os_error(), None);
}

#[test]
fn property_lists_of_any_text_are_written() {
    for text in ["", "<&>\"'", "\u{0}\u{1}\r\n", "\u{fffe}\u{10ffff}", "]]>"] {
        for mode in [MacOSLaunchMode::LaunchAgentUser, MacOSLaunchMode::LaunchDaemonSystem] {
            let al = AutoLaunch::new(text, text, mode, &[text, text], &[text], "");
            assert!(matches!(al.enable_file_created(Ok(())), EnableStep::WriteFile(_)));
        }
    }
}

#[test]
fn the_property_list_goes_by_the_mode() {
    assert!(app(MacOSLaunchMode::LaunchDaemonSystem)
        .registration_plist()
        .contains_key("SessionCreate"));
    assert!(app(MacOSLaunchMode::LaunchAgentSystem)
        .registration_plist()
        .contains_key("AssociatedBundleIdentifiers"));
}

#[test]
fn login_items_by_script() {
    let al = app(MacOSLaunchMode::AppleScript);
    match al.enable_app_checked(true) {
        EnableStep::RunScript(args) => assert_eq!(
            args,
            [
                "-e",
                "tell application \"System Events\" to make login item at end with properties \
                 {name:\"TestApp\",path:\"/Applications/TestApp.app\",hidden:true}"
            ]
        ),
        step => panic!("{:?}", step),
    }
    let shown = AutoLaunch::new("", "/a/b", MacOSLaunchMode::AppleScript, &["hidden"], &[], "");
    assert!(shown.enable_applescript()[1].ends_with("{name:\"b\",path:\"/a/b\",hidden:false}"));
    match al.disable() {
        DisableStep::RunScript(args) => assert_eq!(
            args,
            ["-e", "tell application \"System Events\" to delete login item \"TestApp\""]
        ),
        step => panic!("{:?}", step),
    }
    match al.is_enabled() {
        EnabledStep::RunScript(args) => assert_eq!(
            args,
            ["-e", "tell application \"System Events\" to get the name of every login item"]
        ),
        step => panic!("{:?}", step),
    }
    assert_eq!(exec_apple_script("x")[1], "tell application \"System Events\" to x");
    assert!(hidden_among(&["a".into(), "--hidden".into()]));
    assert!(hidden_among(&["--minimized".into()]));
    assert!(!hidden_among(&["--hidden ".into()]));
    assert!(!hidden_among(&[]));
}

#[test]
fn scripts_that_fail() {
    let al = app(MacOSLaunchMode::AppleScript);
    assert!(script_result(Ok(output(true, Some(0), b""))).is_ok());
    assert!(matches!(
        al.enable_script_run(Ok(output(false, Some(7), b""))),
        EnableStep::Finished(Err(LaunchError::AppleScriptFailed(7)))
    ));
    assert!(matches!(
        al.disable_script_run(Ok(output(false, None, b""))),
        DisableStep::Finished(Err(LaunchError::AppleScriptFailed(1)))
    ));
    assert!(matches!(
        al.disable_script_run(Err(io_error())),
        DisableStep::Finished(Err(LaunchError::Io(_)))
    ));
    assert!(matches!(
        al.disable_script_run(Ok(output(true, Some(0), b""))),
        DisableStep::Finished(Ok(()))
    ));
}

#[test]
fn disable_by_mode() {
    let agent = app(MacOSLaunchMode::LaunchAgentUser);
    let file = match agent.disable_below(&home()) {
        DisableStep::CheckFile(file) => file,
        step => panic!("{:?}", step),
    };
    assert_eq!(file, plist_file(&agent).file);
    match agent.disable_file_checked(file.clone(), true) {
        DisableStep::RemoveFile(same) => assert_eq!(same, file),
        step => panic!("{:?}", step),
    }
    assert!(matches!(agent.disable_file_checked(file, false), DisableStep::Finished(Ok(()))));
    assert!(matches!(agent.disable_file_removed(Ok(())), DisableStep::Finished(Ok(()))));
    assert!(matches!(
        agent.disable_file_removed(Err(io_error())),
        DisableStep::Finished(Err(LaunchError::Io(_)))
    ));
    match agent.disable_below(&None) {
        DisableStep::Finished(Err(e)) => assert!(is_home_error(&e)),
        step => panic!("{:?}", step),
    }
    let service = app(MacOSLaunchMode::SMAppService);
    assert!(matches!(service.disable(), DisableStep::UnregisterService));
    assert!(matches!(
        service.disable_service_unregistered(Ok(())),
        DisableStep::Finished(Ok(()))
    ));
    assert!(matches!(
        service.disable_service_unregistered(Err(3)),
        DisableStep::Finished(Err(LaunchError::SMAppServiceUnregistrationFailed(3)))
    ));
}

#[test]
fn enabled_by_mode() {
    let service = app(MacOSLaunchMode::SMAppService);
    assert!(matches!(service.is_enabled(), EnabledStep::QueryService));
    for (status, enabled) in [
        (ServiceStatus::Enabled, true),
        (ServiceStatus::NotRegistered, false),
        (ServiceStatus::RequiresApproval, false),
        (ServiceStatus::NotFound, false),
    ] {
        match service.enabled_service_queried(status) {
            EnabledStep::Finished(Ok(r)) => assert_eq!(r, enabled),
            step => panic!("{:?}", step),
        }
    }
    let daemon = app(MacOSLaunchMode::LaunchDaemonSystem);
    match daemon.is_enabled() {
        EnabledStep::CheckFile(file) => {
            assert_eq!(file, b"/Library/LaunchDaemons/Given.plist".to_vec())
        }
        step => panic!("{:?}", step),
    }
    assert!(matches!(daemon.enabled_file_checked(true), EnabledStep::Finished(Ok(true))));
    assert!(matches!(daemon.enabled_file_checked(false), EnabledStep::Finished(Ok(false))));
}

#[test]
fn listings_of_login_items() {
    assert!(lists_name("One, TestApp, Two\n", "TestApp"));
    assert!(lists_name("TestApp\n", "TestApp"));
    assert!(!lists_name("One, TestApp2\n", "TestApp"));
    assert!(!lists_name("", "TestApp"));
    assert!(lists_name("", ""));
    let al = app(MacOSLaunchMode::AppleScript);
    let answer = |reply| match al.enabled_script_run(reply) {
        EnabledStep::Finished(r) => r,
        step => panic!("{:?}", step),
    };
    assert!(answer(Ok(output(true, Some(0), b"A, TestApp\n"))).unwrap());
    assert!(!answer(Ok(output(false, Some(1), b"A, TestApp\n"))).unwrap());
    assert!(!answer(Ok(output(true, Some(0), b"TestApp, \xff\n"))).unwrap());
    assert!(answer(Err(io_error())).is_err());
    let accented = AutoLaunch::new("", "/a/\u{e9}t\u{e9}", MacOSLaunchMode::AppleScript, &[], &[], "");
    assert!(accented.is_applescript_enabled(&output(true, Some(0), "\u{e9}t\u{e9}".as_bytes())));
}

/// What the host answers to the steps of one operation.
struct Host {
    service: Result<(), u32>,
    app: bool,
    script: bool,
    dir: bool,
    create_dir: bool,
    create_file: bool,
    write: bool,
    file: bool,
    remove: bool,
}

fn host() -> Host {
    Host {
        service: Ok(()),
        app: true,
        script: true,
        dir: true,
        create_dir: true,
        create_file: true,
        write: true,
        file: true,
        remove: true,
    }
}

impl Host {
    fn done(ok: bool) -> Result<(), IoError> {
        if ok {
            Ok(())
        } else {
            Err(io_error())
        }
    }

    fn command(&self) -> Result<CommandOutput, IoError> {
        Ok(output(self.script, Some(if self.script { 0 } else { 7 }), b""))
    }

    fn enable(&self, al: &AutoLaunch) -> (Vec<String>, Result<(), LaunchError>) {
        let mut trace = Vec::new();
        let mut step = al.enable();
        loop {
            trace.push(format!("{:?}", step));
            step = match step {
                EnableStep::RegisterService => al.enable_service_registered(self.service),
                EnableStep::CheckApp => al.app_checked_below(&home(), self.app),
                EnableStep::CheckDir(p) => al.enable_dir_checked(p, self.dir),
                EnableStep::CreateDir(p) => {
                    al.enable_dir_created(p, Host::done(self.create_dir))
                }
                EnableStep::CreateFile(_) => al.enable_file_created(Host::done(self.create_file)),
                EnableStep::WriteFile(_) => al.enable_file_written(if self.write {
                    Ok(())
                } else {
                    Err("Kind(WriteZero)".to_string())
                }),
                EnableStep::RunScript(_) => al.enable_script_run(self.command()),
                EnableStep::Finished(r) => return (trace, r),
            }
        }
    }

    fn disable(&self, al: &AutoLaunch) -> (Vec<String>, Result<(), LaunchError>) {
        let mut trace = Vec::new();
        let mut step = al.disable_below(&home());
        loop {
            trace.push(format!("{:?}", step));
            step = match step {
                DisableStep::UnregisterService => al.disable_service_unregistered(self.service),
                DisableStep::CheckFile(file) => al.disable_file_checked(file, self.file),
                DisableStep::RemoveFile(_) => al.disable_file_removed(Host::done(self.remove)),
                DisableStep::RunScript(_) => al.disable_script_run(self.command()),
                DisableStep::Finished(r) => return (trace, r),
            }
        }
    }
}

#[test]
fn how_registering_ends_on_macos() {
    let agent = app(MacOSLaunchMode::LaunchAgentUser);
    let item = app(MacOSLaunchMode::AppleScript);
    let service = app(MacOSLaunchMode::SMAppService);

    let (trace, r) = Host { dir: false, ..host() }.enable(&agent);
    assert_eq!(trace.len(), 6);
    assert!(r.is_ok());
    assert!(host().enable(&item).1.is_ok());
    // Nothing but the service counts in its mode.
    assert!(Host { app: false, script: false, write: false, ..host() }.enable(&service).1.is_ok());

    assert!(matches!(
        Host { service: Err(3), ..host() }.enable(&service).1,
        Err(LaunchError::SMAppServiceRegistrationFailed(3))
    ));
    for al in [&agent, &item] {
        let (trace, r) = Host { app: false, ..host() }.enable(al);
        assert_eq!(trace.len(), 2);
        assert!(matches!(r, Err(LaunchError::AppPathDoesntExist(_))));
    }
    let relative = AutoLaunch::new("a", "a", MacOSLaunchMode::AppleScript, &[], &[], "");
    assert!(matches!(
        host().enable(&relative).1,
        Err(LaunchError::AppPathIsNotAbsolute(_))
    ));
    assert!(matches!(
        Host { script: false, ..host() }.enable(&item).1,
        Err(LaunchError::AppleScriptFailed(7))
    ));
    for (failing, steps) in [
        (Host { dir: false, create_dir: false, ..host() }, 4),
        (Host { create_file: false, ..host() }, 4),
        (Host { write: false, ..host() }, 5),
    ] {
        let (trace, r) = failing.enable(&agent);
        assert_eq!(trace.len(), steps);
        assert!(matches!(r, Err(LaunchError::Io(_))));
    }
}

#[test]
fn how_removing_ends_on_macos() {
    let daemon = app(MacOSLaunchMode::LaunchDaemonSystem);
    let item = app(MacOSLaunchMode::AppleScript);
    let service = app(MacOSLaunchMode::SMAppService);

    for al in [&daemon, &item, &service] {
        assert!(host().disable(al).1.is_ok());
    }
    let (trace, r) = Host { file: false, remove: false, ..host() }.disable(&daemon);
    assert_eq!(trace.len(), 2);
    assert!(r.is_ok());
    assert!(matches!(
        Host { remove: false, ..host() }.disable(&daemon).1,
        Err(LaunchError::Io(_))
    ));
    assert!(matches!(
        Host { script: false, ..host() }.disable(&item).1,
        Err(LaunchError::AppleScriptFailed(7))
    ));
    assert!(matches!(
        Host { service: Err(4), ..host() }.disable(&service).1,
        Err(LaunchError::SMAppServiceUnregistrationFailed(4))
    ));
}

#[test]
fn settings_that_do_not_count() {
    let path = "/Applications/TestApp.app";
    let same = |mode: MacOSLaunchMode, args: &[&str], ids: &[&str], extra: &str| {
        let a = AutoLaunch::new("Given", path, mode, &["--hidden"], &["id"], "extra");
        let b = AutoLaunch::new("Given", path, mode, args, ids, extra);
        host().enable(&a).0 == host().enable(&b).0 && host().disable(&a).0 == host().disable(&b).0
    };
    for mode in [
        MacOSLaunchMode::LaunchAgentUser,
        MacOSLaunchMode::LaunchAgentSystem,
        MacOSLaunchMode::LaunchDaemonSystem,
        MacOSLaunchMode::AppleScript,
        MacOSLaunchMode::SMAppService,
    ] {
        assert!(same(mode, &["--hidden"], &["id"], ""));
    }
    assert!(!same(MacOSLaunchMode::LaunchAgentUser, &["--hidden"], &["other"], ""));
    assert!(!same(MacOSLaunchMode::LaunchAgentSystem, &["--hidden"], &[], ""));
    assert!(same(MacOSLaunchMode::LaunchDaemonSystem, &["--hidden"], &[], ""));
    assert!(!same(MacOSLaunchMode::LaunchDaemonSystem, &[], &["id"], ""));
    assert!(same(MacOSLaunchMode::AppleScript, &["x", "--minimized"], &[], ""));
    assert!(!same(MacOSLaunchMode::AppleScript, &["x"], &["id"], ""));
    let service = AutoLaunch::new("", "", MacOSLaunchMode::SMAppService, &[], &[], "");
    assert_eq!(
        host().enable(&service).0,
        host().enable(&app(MacOSLaunchMode::SMAppService)).0
    );
}
