use auto_launcher::error::{IoError, IoErrorKind, LaunchError};
use auto_launcher::host::CommandOutput;
use auto_launcher::linux::{
    build_systemd_service_data, build_xdg_autostart_data, content_is_managed, get_systemd_dir,
    get_xdg_autostart_dir, registered_app_path, systemctl_disable_result, systemctl_enable_result,
    AutoLaunch, DisableStep, EnableStep, EnabledStep, LinuxLaunchMode, OwnedStep, PathStep,
    Registration,
};

#[test]
fn test_build_xdg_autostart_data() {
    let data = build_xdg_autostart_data(
        "TestApp",
        "/opt/test-app",
        &["--flag".into(), "value".into()],
        "Managed by TestApp",
    );

    assert!(data.contains("Type=Application"));
    assert!(data.contains("Name=TestApp"));
    assert!(data.contains("Comment=TestApp startup script"));
    assert!(data.contains("Exec=/opt/test-app --flag value"));
    assert!(data.contains("StartupNotify=false"));
    assert!(data.contains("Terminal=false"));
    assert!(data.starts_with("# Managed by TestApp. Manual edits will be overwritten.\n"));
}

#[test]
fn test_build_systemd_service_data() {
    let data = build_systemd_service_data(
        "TestApp",
        "/opt/test-app",
        &["--flag".into()],
        LinuxLaunchMode::SystemdUser,
        "Managed by TestApp",
    );

    assert!(data.contains("Description=TestApp"));
    assert!(data.contains("After=default.target"));
    assert!(data.contains("ExecStart=/opt/test-app --flag"));
    assert!(data.contains("Restart=on-failure"));
    assert!(data.contains("WantedBy=default.target"));
    assert!(data.starts_with("# Managed by TestApp. Manual edits will be overwritten.\n"));
}

#[test]
fn test_build_systemd_service_data_system() {
    let data = build_systemd_service_data(
        "TestApp",
        "/opt/test-app",
        &["--flag".into()],
        LinuxLaunchMode::SystemdSystem,
        "Managed by TestApp",
    );

    assert!(data.contains("After=multi-user.target"));
    assert!(data.contains("WantedBy=multi-user.target"));
}

#[test]
fn test_content_is_managed() {
    let marker = "Managed by TestApp";
    // library-generated content: owned
    assert!(content_is_managed(
        "# Managed by TestApp. Manual edits will be overwritten.\n[Unit]\n..",
        marker
    ));
    // legacy library content: owned
    assert!(content_is_managed(
        "[Unit]\n..\n# Managed by TestApp v2 extension\n",
        marker
    ));
    // hand-written unit: not owned
    assert!(!content_is_managed("[Unit]\nDescription=x\n", marker));
    // a different app's marker: not owned
    assert!(!content_is_managed(
        "# Managed by OtherApp. ...\n[Unit]\n",
        marker
    ));
    // leading whitespace before the marker is fine
    assert!(content_is_managed("  # Managed by TestApp. ...\n", marker));
    // empty file
    assert!(!content_is_managed("", marker));
}

fn app(mode: LinuxLaunchMode) -> AutoLaunch {
    AutoLaunch::new("TestApp", "/opt/test-app", mode, &["--flag", "value"])
}

fn home() -> Option<Vec<u8>> {
    Some(b"/home/me".to_vec())
}

fn io_error(kind: IoErrorKind, message: &str) -> IoError {
    IoError { kind, os_code: Some(13), message: message.to_string() }
}

fn output(success: bool, stderr: &[u8]) -> CommandOutput {
    CommandOutput {
        success,
        code: Some(if success { 0 } else { 1 }),
        stdout: Vec::new(),
        stderr: stderr.to_vec(),
    }
}

fn is_home_error(e: &LaunchError) -> bool {
    match e {
        LaunchError::Io(io) => {
            io.kind == IoErrorKind::NotFound
                && io.os_code.is_none()
                && io.message == "Failed to find home directory"
        }
        _ => false,
    }
}

fn start(al: &AutoLaunch, force: bool) -> Registration {
    match al.enable_below(&home(), force) {
        EnableStep::CheckFile(reg) => {
            assert!(!force);
            reg
        }
        EnableStep::CheckDir(reg) => {
            assert!(force);
            reg
        }
        step => panic!("{:?}", step),
    }
}

#[test]
fn xdg_data_is_exact() {
    let data = build_xdg_autostart_data("App", "/a", &["x".into(), "y".into()], "M");
    assert_eq!(
        data,
        "# M. Manual edits will be overwritten.\n[Desktop Entry]\nType=Application\nVersion=1.0\n\
         Name=App\nComment=App startup script\nExec=/a x y\nStartupNotify=false\nTerminal=false"
    );
    let bare = build_xdg_autostart_data("App", "/a", &[], "M");
    assert!(bare.contains("\nExec=/a \n"));
}

#[test]
fn systemd_data_is_exact() {
    let data = build_systemd_service_data("App", "/a", &[], LinuxLaunchMode::SystemdUser, "M");
    assert_eq!(
        data,
        "# M. Manual edits will be overwritten.\n[Unit]\nDescription=App\nAfter=default.target\n\n\
         [Service]\nType=simple\nExecStart=/a\nRestart=on-failure\nRestartSec=10\n\n[Install]\n\
         WantedBy=default.target"
    );
    let args = build_systemd_service_data(
        "App",
        "/a",
        &["x".into(), "y".into()],
        LinuxLaunchMode::SystemdSystem,
        "M",
    );
    assert!(args.contains("\nExecStart=/a x y\n"));
}

#[test]
fn linux_new_keeps_what_it_is_given() {
    let al = app(LinuxLaunchMode::SystemdUser);
    assert_eq!(al.app_name, "TestApp");
    assert_eq!(al.app_path, "/opt/test-app");
    assert_eq!(al.launch_mode, LinuxLaunchMode::SystemdUser);
    assert_eq!(al.args, vec!["--flag".to_string(), "value".to_string()]);
    assert_eq!(al.managed_marker(), "Managed by TestApp");
}

#[test]
fn linux_directories_and_files() {
    assert_eq!(get_xdg_autostart_dir(&home()).unwrap(), b"/home/me/.config/autostart".to_vec());
    assert_eq!(
        get_systemd_dir(LinuxLaunchMode::SystemdUser, &home()).unwrap(),
        b"/home/me/.config/systemd/user".to_vec()
    );
    assert_eq!(
        get_systemd_dir(LinuxLaunchMode::SystemdSystem, &None).unwrap(),
        b"/etc/systemd/system".to_vec()
    );
    assert!(is_home_error(&get_xdg_autostart_dir(&None).unwrap_err()));
    assert!(is_home_error(&get_systemd_dir(LinuxLaunchMode::SystemdUser, &None).unwrap_err()));

    let xdg = app(LinuxLaunchMode::XdgAutostart);
    assert_eq!(
        xdg.get_xdg_desktop_file(&home()).unwrap(),
        b"/home/me/.config/autostart/TestApp.desktop".to_vec()
    );
    let user = app(LinuxLaunchMode::SystemdUser);
    assert_eq!(
        user.get_systemd_service_file(&home()).unwrap(),
        b"/home/me/.config/systemd/user/TestApp.service".to_vec()
    );
    // an absolute name replaces the directory, as joining paths does
    let odd = AutoLaunch::new("/tmp/x", "/x", LinuxLaunchMode::XdgAutostart, &[]);
    assert_eq!(odd.get_xdg_desktop_file(&home()).unwrap(), b"/tmp/x.desktop".to_vec());
}

#[test]
fn enable_asks_for_the_real_home_directory() {
    let al = app(LinuxLaunchMode::XdgAutostart);
    match (dirs::home_dir(), al.enable()) {
        (Some(home), EnableStep::CheckFile(reg)) => {
            let file = home.join(".config").join("autostart").join("TestApp.desktop");
            assert_eq!(reg.file, file.into_os_string().into_encoded_bytes());
        }
        (None, EnableStep::Finished(Err(e))) => assert!(is_home_error(&e)),
        (_, step) => panic!("{:?}", step),
    }
    // the system's units need no home directory
    assert!(matches!(app(LinuxLaunchMode::SystemdSystem).enable(), EnableStep::CheckFile(_)));
    assert!(matches!(app(LinuxLaunchMode::SystemdSystem).enable_force(), EnableStep::CheckDir(_)));
}

#[test]
fn enable_without_home_fails() {
    for force in [false, true] {
        match app(LinuxLaunchMode::SystemdUser).enable_below(&None, force) {
            EnableStep::Finished(Err(e)) => assert!(is_home_error(&e)),
            step => panic!("{:?}", step),
        }
    }
}

#[test]
fn enable_refuses_a_foreign_file() {
    let al = app(LinuxLaunchMode::XdgAutostart);
    let reg = match al.enable_file_checked(start(&al, false), true) {
        EnableStep::ReadFile(reg) => reg,
        step => panic!("{:?}", step),
    };
    match al.enable_file_read(reg, Ok("[Desktop Entry]\nName=TestApp\n".to_string())) {
        EnableStep::Finished(Err(LaunchError::RegistrationNotOwned(file))) => {
            assert_eq!(file, b"/home/me/.config/autostart/TestApp.desktop".to_vec());
        }
        step => panic!("{:?}", step),
    }
}

#[test]
fn enable_reports_a_file_that_cannot_be_read() {
    let al = app(LinuxLaunchMode::XdgAutostart);
    match al.enable_file_read(start(&al, false), Err(io_error(IoErrorKind::InvalidData, "bad"))) {
        EnableStep::Finished(Err(LaunchError::Io(e))) => {
            assert_eq!(e.kind, IoErrorKind::InvalidData);
            assert_eq!(e.os_code, Some(13));
            assert_eq!(e.message, "bad");
        }
        step => panic!("{:?}", step),
    }
}

#[test]
fn enable_writes_over_its_own_file() {
    for mode in [
        LinuxLaunchMode::XdgAutostart,
        LinuxLaunchMode::SystemdUser,
        LinuxLaunchMode::SystemdSystem,
    ] {
        let al = app(mode);
        let reg = start(&al, false);
        let written = reg.data.clone();
        assert!(content_is_managed(&written, &al.managed_marker()));
        match al.enable_file_read(reg, Ok(written)) {
            EnableStep::CheckDir(_) => {}
            step => panic!("{:?}", step),
        }
    }
}

#[test]
fn enable_makes_the_directory() {
    let al = app(LinuxLaunchMode::XdgAutostart);
    assert!(matches!(
        al.enable_file_checked(start(&al, false), false),
        EnableStep::CheckDir(_)
    ));
    assert!(matches!(al.enable_dir_checked(start(&al, true), true), EnableStep::WriteFile(_)));
    assert!(matches!(al.enable_dir_checked(start(&al, true), false), EnableStep::CreateDir(_)));
    assert!(matches!(al.enable_dir_created(start(&al, true), Ok(())), EnableStep::WriteFile(_)));
    assert!(matches!(
        al.enable_dir_created(
            start(&al, true),
            Err(io_error(IoErrorKind::AlreadyExists, "File exists"))
        ),
        EnableStep::WriteFile(_)
    ));
    assert!(matches!(
        al.enable_dir_created(start(&al, true), Err(io_error(IoErrorKind::Other, "denied"))),
        EnableStep::Finished(Err(LaunchError::Io(_)))
    ));
}

#[test]
fn enable_xdg_ends_with_the_file() {
    let al = app(LinuxLaunchMode::XdgAutostart);
    assert!(matches!(al.enable_file_written(Ok(())), EnableStep::Finished(Ok(()))));
    assert!(matches!(
        al.enable_file_written(Err(io_error(IoErrorKind::Other, "full"))),
        EnableStep::Finished(Err(LaunchError::Io(_)))
    ));
}

#[test]
fn enable_systemd_runs_systemctl() {
    let user = app(LinuxLaunchMode::SystemdUser);
    match user.enable_file_written(Ok(())) {
        EnableStep::ReloadDaemon(args) => assert_eq!(args, ["--user", "daemon-reload"]),
        step => panic!("{:?}", step),
    }
    match user.enable_daemon_reloaded() {
        EnableStep::EnableUnit(args) => assert_eq!(args, ["--user", "enable", "TestApp.service"]),
        step => panic!("{:?}", step),
    }
    let system = app(LinuxLaunchMode::SystemdSystem);
    match system.enable_file_written(Ok(())) {
        EnableStep::ReloadDaemon(args) => assert_eq!(args, ["daemon-reload"]),
        step => panic!("{:?}", step),
    }
    match system.enable_daemon_reloaded() {
        EnableStep::EnableUnit(args) => assert_eq!(args, ["enable", "TestApp.service"]),
        step => panic!("{:?}", step),
    }
    assert!(matches!(
        user.enable_unit_enabled(Ok(output(true, b""))),
        EnableStep::Finished(Ok(()))
    ));
    assert!(matches!(
        user.enable_unit_enabled(Err(io_error(IoErrorKind::NotFound, "systemctl"))),
        EnableStep::Finished(Err(LaunchError::Io(_)))
    ));
    match user.enable_unit_enabled(Ok(output(false, b"no\xffpe"))) {
        EnableStep::Finished(Err(LaunchError::Io(e))) => {
            assert_eq!(e.kind, IoErrorKind::Other);
            assert_eq!(e.message, "Failed to enable systemd service: no\u{fffd}pe");
        }
        step => panic!("{:?}", step),
    }
}

#[test]
fn systemctl_results() {
    assert!(systemctl_enable_result(true, "noise").is_ok());
    assert!(systemctl_enable_result(false, "not loaded").is_err());
    assert!(systemctl_disable_result(true, "").is_ok());
    assert!(systemctl_disable_result(false, "Unit file: No such file or directory\n").is_ok());
    assert!(systemctl_disable_result(false, "Unit TestApp.service not loaded.").is_ok());
    match systemctl_disable_result(false, "Access denied") {
        Err(LaunchError::Io(e)) => {
            assert_eq!(e.message, "Failed to disable systemd service: Access denied")
        }
        r => panic!("{:?}", r),
    }
}

#[test]
fn disable_removes_the_file() {
    let al = app(LinuxLaunchMode::XdgAutostart);
    let file = match al.disable_below(&home()) {
        DisableStep::CheckFile(file) => file,
        step => panic!("{:?}", step),
    };
    assert_eq!(file, start(&al, false).file);
    match al.disable_file_checked(file.clone(), true) {
        DisableStep::RemoveFile(same) => assert_eq!(same, file),
        step => panic!("{:?}", step),
    }
    assert!(matches!(al.disable_file_checked(file, false), DisableStep::Finished(Ok(()))));
    assert!(matches!(al.disable_file_removed(Ok(())), DisableStep::Finished(Ok(()))));
    assert!(matches!(
        al.disable_file_removed(Err(io_error(IoErrorKind::Other, "busy"))),
        DisableStep::Finished(Err(LaunchError::Io(_)))
    ));
    match al.disable_below(&None) {
        DisableStep::Finished(Err(e)) => assert!(is_home_error(&e)),
        step => panic!("{:?}", step),
    }
}

#[test]
fn disable_systemd_disables_first() {
    let al = app(LinuxLaunchMode::SystemdUser);
    match al.disable_below(&None) {
        DisableStep::DisableUnit(args) => {
            assert_eq!(args, ["--user", "disable", "TestApp.service"])
        }
        step => panic!("{:?}", step),
    }
    match al.unit_disabled_below(&home(), Ok(output(true, b""))) {
        DisableStep::CheckFile(file) => {
            assert_eq!(file, b"/home/me/.config/systemd/user/TestApp.service".to_vec())
        }
        step => panic!("{:?}", step),
    }
    match al.unit_disabled_below(&None, Ok(output(true, b""))) {
        DisableStep::Finished(Err(e)) => assert!(is_home_error(&e)),
        step => panic!("{:?}", step),
    }
    assert!(matches!(
        al.unit_disabled_below(&home(), Ok(output(false, b"not loaded"))),
        DisableStep::CheckFile(_)
    ));
    assert!(matches!(
        al.unit_disabled_below(&home(), Ok(output(false, b"denied"))),
        DisableStep::Finished(Err(LaunchError::Io(_)))
    ));
    match al.disable_file_removed(Ok(())) {
        DisableStep::ReloadDaemon(args) => assert_eq!(args, ["--user", "daemon-reload"]),
        step => panic!("{:?}", step),
    }
    assert!(matches!(
        al.disable_file_checked(b"x".to_vec(), false),
        DisableStep::ReloadDaemon(_)
    ));
    assert!(matches!(al.disable_daemon_reloaded(), DisableStep::Finished(Ok(()))));
}

#[test]
fn ownership_of_a_missing_file() {
    let al = app(LinuxLaunchMode::SystemdUser);
    let file = match al.is_registration_owned_below(&home()) {
        OwnedStep::CheckFile(file) => file,
        step => panic!("{:?}", step),
    };
    assert!(matches!(
        al.owned_file_checked(file.clone(), false),
        OwnedStep::Finished(Ok(false))
    ));
    assert!(matches!(al.owned_file_checked(file, true), OwnedStep::ReadFile(_)));
}

#[test]
fn ownership_of_a_written_file() {
    let al = app(LinuxLaunchMode::SystemdUser);
    let written = start(&al, false).data;
    assert!(matches!(al.owned_file_read(Ok(written)), OwnedStep::Finished(Ok(true))));
    assert!(matches!(
        al.owned_file_read(Ok("[Unit]\n".to_string())),
        OwnedStep::Finished(Ok(false))
    ));
    assert!(matches!(
        al.owned_file_read(Err(io_error(IoErrorKind::Other, "x"))),
        OwnedStep::Finished(Err(LaunchError::Io(_)))
    ));
}

#[test]
fn another_applications_registration() {
    let al = app(LinuxLaunchMode::XdgAutostart);
    let other = AutoLaunch::new("OtherApp", "/o", LinuxLaunchMode::XdgAutostart, &[]);
    let longer = AutoLaunch::new("TestApp2", "/o", LinuxLaunchMode::XdgAutostart, &[]);
    assert!(!content_is_managed(&start(&other, false).data, &al.managed_marker()));
    assert!(content_is_managed(&start(&longer, false).data, &al.managed_marker()));
}

#[test]
fn an_extended_marker_is_recognized() {
    let longer = "Managed by TestApp, version 2";
    let data = build_xdg_autostart_data("TestApp", "/a", &[], longer);
    assert!(content_is_managed(&data, longer));
    assert!(content_is_managed(&data, "Managed by TestApp"));
    let unit =
        build_systemd_service_data("TestApp", "/a", &[], LinuxLaunchMode::SystemdUser, longer);
    assert!(content_is_managed(&unit, "Managed by TestApp"));
    let data = build_xdg_autostart_data("TestApp", "/a", &[], "Managed by TestApp");
    assert!(!content_is_managed(&data, longer));
}

#[test]
fn a_marker_of_several_lines_is_not_found() {
    let data = build_xdg_autostart_data("a\nb", "/a", &[], "Managed by a\nb");
    assert!(!content_is_managed(&data, "Managed by a\nb"));
}

#[test]
fn enabled_by_file_or_unit() {
    let xdg = app(LinuxLaunchMode::XdgAutostart);
    match xdg.is_enabled_below(&home()) {
        EnabledStep::CheckFile(file) => {
            assert_eq!(file, b"/home/me/.config/autostart/TestApp.desktop".to_vec())
        }
        step => panic!("{:?}", step),
    }
    assert!(matches!(xdg.enabled_file_checked(true), EnabledStep::Finished(Ok(true))));
    assert!(matches!(xdg.enabled_file_checked(false), EnabledStep::Finished(Ok(false))));
    let system = app(LinuxLaunchMode::SystemdSystem);
    match system.is_enabled() {
        EnabledStep::QueryUnit(args) => assert_eq!(args, ["is-enabled", "TestApp.service"]),
        step => panic!("{:?}", step),
    }
    assert!(matches!(
        system.enabled_unit_queried(Ok(output(true, b""))),
        EnabledStep::Finished(Ok(true))
    ));
    assert!(matches!(
        system.enabled_unit_queried(Ok(output(false, b""))),
        EnabledStep::Finished(Ok(false))
    ));
    assert!(matches!(
        system.enabled_unit_queried(Err(io_error(IoErrorKind::NotFound, "x"))),
        EnabledStep::Finished(Err(LaunchError::Io(_)))
    ));
}

#[test]
fn linux_path_reads_back() {
    for mode in [
        LinuxLaunchMode::XdgAutostart,
        LinuxLaunchMode::SystemdUser,
        LinuxLaunchMode::SystemdSystem,
    ] {
        let al = app(mode);
        match al.path_file_read(Ok(start(&al, false).data)) {
            PathStep::Finished(Ok(path)) => assert_eq!(path.as_deref(), Some("/opt/test-app")),
            step => panic!("{:?}", step),
        }
    }
}

#[test]
fn the_path_is_the_first_word() {
    let xdg = LinuxLaunchMode::XdgAutostart;
    let unit = LinuxLaunchMode::SystemdUser;
    assert_eq!(registered_app_path("Exec=/a b\n", xdg).as_deref(), Some("/a"));
    assert_eq!(registered_app_path("  Exec= /a\r\nExec=/c\n", xdg).as_deref(), Some("/a"));
    assert_eq!(registered_app_path("ExecStart=/a\n", xdg), None);
    assert_eq!(registered_app_path("Exec=/a\nExecStart=/b", unit).as_deref(), Some("/b"));
    // the first line with the key decides, though nothing follows it
    assert_eq!(registered_app_path("Exec=\nExec=/a\n", xdg), None);
    assert_eq!(registered_app_path("", xdg), None);
    let spaced = AutoLaunch::new("A", "/opt/my app", xdg, &[]);
    assert_eq!(registered_app_path(&start(&spaced, false).data, xdg).as_deref(), Some("/opt/my"));
}

#[test]
fn the_path_without_a_registration() {
    let al = app(LinuxLaunchMode::SystemdSystem);
    let file = match al.get_registered_app_path() {
        PathStep::CheckFile(file) => file,
        step => panic!("{:?}", step),
    };
    assert_eq!(file, b"/etc/systemd/system/TestApp.service".to_vec());
    assert!(matches!(al.path_file_checked(file.clone(), true), PathStep::ReadFile(_)));
    assert!(matches!(al.path_file_checked(file, false), PathStep::Finished(Ok(None))));
    assert!(matches!(
        al.path_file_read(Err(io_error(IoErrorKind::Other, "x"))),
        PathStep::Finished(Err(LaunchError::Io(_)))
    ));
    match app(LinuxLaunchMode::SystemdUser).get_registered_app_path_below(&None) {
        PathStep::Finished(Err(e)) => assert!(is_home_error(&e)),
        step => panic!("{:?}", step),
    }
}

/// What the host answers to the steps of one operation.
struct Host {
    found: Option<&'static str>,
    dir: bool,
    create_dir: Option<IoErrorKind>,
    write: bool,
    remove: bool,
    systemctl: Result<bool, &'static str>,
}

fn host() -> Host {
    Host {
        found: None,
        dir: true,
        create_dir: None,
        write: true,
        remove: true,
        systemctl: Ok(true),
    }
}

impl Host {
    fn done(ok: bool) -> Result<(), IoError> {
        if ok {
            Ok(())
        } else {
            Err(io_error(IoErrorKind::Other, "refused"))
        }
    }

    fn command(&self) -> Result<CommandOutput, IoError> {
        match self.systemctl {
            Ok(true) => Ok(output(true, b"")),
            Ok(false) => Err(io_error(IoErrorKind::NotFound, "systemctl")),
            Err(stderr) => Ok(output(false, stderr.as_bytes())),
        }
    }

    fn enable(&self, al: &AutoLaunch, force: bool) -> (Vec<&'static str>, Result<(), LaunchError>) {
        let mut trace = Vec::new();
        let mut step = al.enable_below(&home(), force);
        loop {
            step = match step {
                EnableStep::CheckFile(reg) => {
                    trace.push("ask file");
                    al.enable_file_checked(reg, self.found.is_some())
                }
                EnableStep::ReadFile(reg) => {
                    trace.push("read");
                    al.enable_file_read(reg, Ok(self.found.unwrap().to_string()))
                }
                EnableStep::CheckDir(reg) => {
                    trace.push("ask dir");
                    al.enable_dir_checked(reg, self.dir)
                }
                EnableStep::CreateDir(reg) => {
                    trace.push("create dir");
                    let reply = match self.create_dir {
                        None => Ok(()),
                        Some(kind) => Err(io_error(kind, "refused")),
                    };
                    al.enable_dir_created(reg, reply)
                }
                EnableStep::WriteFile(_) => {
                    trace.push("write");
                    al.enable_file_written(Host::done(self.write))
                }
                EnableStep::ReloadDaemon(_) => {
                    trace.push("reload");
                    al.enable_daemon_reloaded()
                }
                EnableStep::EnableUnit(_) => {
                    trace.push("enable");
                    al.enable_unit_enabled(self.command())
                }
                EnableStep::Finished(r) => return (trace, r),
            }
        }
    }

    fn disable(&self, al: &AutoLaunch) -> (Vec<&'static str>, Result<(), LaunchError>) {
        let mut trace = Vec::new();
        let mut step = al.disable_below(&home());
        loop {
            step = match step {
                DisableStep::DisableUnit(_) => {
                    trace.push("disable");
                    al.unit_disabled_below(&home(), self.command())
                }
                DisableStep::CheckFile(file) => {
                    trace.push("ask file");
                    al.disable_file_checked(file, self.found.is_some())
                }
                DisableStep::RemoveFile(_) => {
                    trace.push("remove");
                    al.disable_file_removed(Host::done(self.remove))
                }
                DisableStep::ReloadDaemon(_) => {
                    trace.push("reload");
                    al.disable_daemon_reloaded()
                }
                DisableStep::Finished(r) => return (trace, r),
            }
        }
    }
}

#[test]
fn how_registering_ends_on_linux() {
    let xdg = app(LinuxLaunchMode::XdgAutostart);
    let unit = app(LinuxLaunchMode::SystemdUser);
    let own = Some("# Managed by TestApp\n");

    let (trace, r) = host().enable(&xdg, false);
    assert_eq!(trace, ["ask file", "ask dir", "write"]);
    assert!(r.is_ok());
    let fresh = Host { found: own, dir: false, ..host() };
    let (trace, r) = fresh.enable(&unit, false);
    assert_eq!(
        trace,
        ["ask file", "read", "ask dir", "create dir", "write", "reload", "enable"]
    );
    assert!(r.is_ok());
    let (trace, r) = Host { found: Some("[Unit]\n"), ..host() }.enable(&unit, true);
    assert_eq!(trace, ["ask dir", "write", "reload", "enable"]);
    assert!(r.is_ok());

    let (trace, r) = Host { found: Some("[Unit]\n"), ..host() }.enable(&unit, false);
    assert_eq!(trace, ["ask file", "read"]);
    assert!(matches!(r, Err(LaunchError::RegistrationNotOwned(_))));
    let (trace, r) =
        Host { dir: false, create_dir: Some(IoErrorKind::Other), ..host() }.enable(&xdg, true);
    assert_eq!(trace, ["ask dir", "create dir"]);
    assert!(matches!(r, Err(LaunchError::Io(_))));
    let (_, r) = Host { dir: false, create_dir: Some(IoErrorKind::AlreadyExists), ..host() }
        .enable(&xdg, true);
    assert!(r.is_ok());
    let (trace, r) = Host { write: false, ..host() }.enable(&unit, true);
    assert_eq!(trace, ["ask dir", "write"]);
    assert!(matches!(r, Err(LaunchError::Io(_))));
    let (trace, r) = Host { systemctl: Err("masked"), ..host() }.enable(&unit, true);
    assert_eq!(trace, ["ask dir", "write", "reload", "enable"]);
    match r {
        Err(LaunchError::Io(e)) => {
            assert_eq!(e.message, "Failed to enable systemd service: masked")
        }
        r => panic!("{:?}", r),
    }
    let (_, r) = Host { systemctl: Ok(false), ..host() }.enable(&unit, true);
    assert!(matches!(r, Err(LaunchError::Io(_))));
    let (_, r) = Host { systemctl: Ok(false), ..host() }.enable(&xdg, true);
    assert!(r.is_ok());
}

#[test]
fn how_removing_ends_on_linux() {
    let xdg = app(LinuxLaunchMode::XdgAutostart);
    let unit = app(LinuxLaunchMode::SystemdSystem);
    let there = || Host { found: Some(""), ..host() };

    let (trace, r) = there().disable(&xdg);
    assert_eq!(trace, ["ask file", "remove"]);
    assert!(r.is_ok());
    let (trace, r) = there().disable(&unit);
    assert_eq!(trace, ["disable", "ask file", "remove", "reload"]);
    assert!(r.is_ok());
    let (trace, r) = Host { systemctl: Err("not loaded"), ..host() }.disable(&unit);
    assert_eq!(trace, ["disable", "ask file", "reload"]);
    assert!(r.is_ok());

    let (trace, r) = Host { systemctl: Err("denied"), ..there() }.disable(&unit);
    assert_eq!(trace, ["disable"]);
    assert!(matches!(r, Err(LaunchError::Io(_))));
    let (trace, r) = Host { systemctl: Ok(false), ..there() }.disable(&unit);
    assert_eq!(trace, ["disable"]);
    assert!(matches!(r, Err(LaunchError::Io(_))));
    let (trace, r) = Host { remove: false, ..there() }.disable(&unit);
    assert_eq!(trace, ["disable", "ask file", "remove"]);
    assert!(matches!(r, Err(LaunchError::Io(_))));
}
