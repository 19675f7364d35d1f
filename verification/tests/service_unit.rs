use cram::config::Environment;
use cram::paths::format_user_path;
use cram::service::{
    platform_hint, Platform,
    config_missing_warning, generate_unit_file, get_home_config_dir, handle_service,
    systemctl_args, systemd_usable, user_service_path, OnFailure, ServiceAction, ServiceError,
    ServiceStep, SystemctlCommand,
};

#[test]
fn test_generate_unit_file_without_port() {
    let exe = "/home/user/.local/bin/cram";
    let content = generate_unit_file(exe, None);
    assert!(content.contains("ExecStart=/home/user/.local/bin/cram serve --quiet --no-open"));
    assert!(content.contains("[Unit]"));
    assert!(content.contains("Description=cram — local AI gateway"));
    assert!(content.contains("Documentation=https://cram.ink"));
    assert!(content.contains("After=network-online.target"));
    assert!(content.contains("Wants=network-online.target"));
    assert!(content.contains("[Service]"));
    assert!(content.contains("Type=simple"));
    assert!(content.contains("Restart=always"));
    assert!(content.contains("RestartSec=2"));
    assert!(content.contains("StartLimitBurst=5"));
    assert!(content.contains("StartLimitIntervalSec=60"));
    assert!(content.contains("NoNewPrivileges=true"));
    assert!(content.contains("PrivateTmp=true"));
    assert!(content.contains("ProtectSystem=strict"));
    assert!(content.contains("ProtectKernelTunables=true"));
    assert!(content.contains("ProtectControlGroups=true"));
    assert!(content.contains("RestrictAddressFamilies=AF_INET AF_INET6"));
    assert!(content.contains("MemoryMax=256M"));
    assert!(content.contains("[Install]"));
    assert!(content.contains("WantedBy=default.target"));
}

#[test]
fn test_generate_unit_file_with_port() {
    let exe = "/home/user/.cargo/bin/cram";
    let content = generate_unit_file(exe, Some(9000));
    assert!(content
        .contains("ExecStart=/home/user/.cargo/bin/cram serve --port 9000 --quiet --no-open"));
}

#[test]
fn test_format_user_path() {
    let home = "/home/user".to_string();
    let path = format!("{home}/.config/systemd/user/cram.service");
    assert_eq!(
        format_user_path(&path, &Some(home)),
        "~/.config/systemd/user/cram.service"
    );
}

#[test]
fn unit_file_is_exact() {
    let content = generate_unit_file("/bin/cram", Some(0));
    let expected = "[Unit]\nDescription=cram — local AI gateway\nDocumentation=https://cram.ink\nAfter=network-online.target\nWants=network-online.target\n\n[Service]\nType=simple\nExecStart=/bin/cram serve --port 0 --quiet --no-open\nRestart=always\nRestartSec=2\nStartLimitBurst=5\nStartLimitIntervalSec=60\n\nNoNewPrivileges=true\nPrivateTmp=true\nProtectSystem=strict\nProtectKernelTunables=true\nProtectControlGroups=true\nRestrictAddressFamilies=AF_INET AF_INET6\nMemoryMax=256M\n\n[Install]\nWantedBy=default.target\n";
    assert_eq!(content, expected);
    assert!(generate_unit_file("/bin/cram", Some(65535)).contains("--port 65535 --quiet"));
}

#[test]
fn format_user_path_outside_home() {
    assert_eq!(format_user_path("/etc/cram.service", &Some("/home/user".to_string())), "/etc/cram.service");
    assert_eq!(format_user_path("/home/username/x", &Some("/home/user".to_string())), "/home/username/x");
    assert_eq!(format_user_path("/home/user/x", &None), "/home/user/x");
}

#[test]
fn service_path_choices() {
    let mut env = Environment::empty();
    assert_eq!(user_service_path(&env), Err(ServiceError::HomeNotSet));
    assert_eq!(get_home_config_dir(&env), Err(ServiceError::HomeNotSet));
    assert_eq!(
        ServiceError::HomeNotSet.message(),
        "could not determine home directory ($HOME is not set)"
    );
    env.home = Some("/home/u".to_string());
    assert_eq!(get_home_config_dir(&env), Ok("/home/u/.config".to_string()));
    assert_eq!(
        user_service_path(&env),
        Ok("/home/u/.config/systemd/user/cram.service".to_string())
    );
    env.xdg_config_home = Some(" ".to_string());
    assert_eq!(
        user_service_path(&env),
        Ok("/home/u/.config/systemd/user/cram.service".to_string())
    );
    env.xdg_config_home = Some("/xdg".to_string());
    assert_eq!(user_service_path(&env), Ok("/xdg/systemd/user/cram.service".to_string()));
}

#[test]
fn service_plans() {
    let install = handle_service(ServiceAction::Install { port: Some(9000) });
    assert_eq!(
        install,
        vec![
            ServiceStep::CheckSystemSupport,
            ServiceStep::LocateUnitFile,
            ServiceStep::RefuseIfUnitExists,
            ServiceStep::WarnIfConfigMissing,
            ServiceStep::WriteUnitFile { port: Some(9000) },
            ServiceStep::Systemctl { command: SystemctlCommand::DaemonReload, on_failure: OnFailure::StopIfNotRun },
            ServiceStep::Systemctl { command: SystemctlCommand::EnableNow, on_failure: OnFailure::StopIfNotRun },
            ServiceStep::ReportInstalled,
        ]
    );
    let uninstall = handle_service(ServiceAction::Uninstall);
    assert_eq!(uninstall.len(), 6);
    assert_eq!(uninstall[1], ServiceStep::LocateUnitFile);
    assert_eq!(uninstall[3], ServiceStep::RemoveUnitFile);
    let status = handle_service(ServiceAction::Status);
    assert_eq!(
        status,
        vec![
            ServiceStep::CheckSystemSupport,
            ServiceStep::Systemctl { command: SystemctlCommand::Status, on_failure: OnFailure::MirrorStatus },
        ]
    );
    assert_eq!(systemctl_args(SystemctlCommand::EnableNow), vec!["--user", "enable", "--now", "cram"]);
    assert_eq!(systemctl_args(SystemctlCommand::DaemonReload), vec!["--user", "daemon-reload"]);
    assert_eq!(systemctl_args(SystemctlCommand::DisableNow), vec!["--user", "disable", "--now", "cram"]);
    assert_eq!(systemctl_args(SystemctlCommand::Status), vec!["--user", "status", "cram"]);
}

#[test]
fn systemd_states() {
    assert!(systemd_usable(true, "offline"));
    assert!(systemd_usable(false, "degraded\n"));
    assert!(systemd_usable(false, " running "));
    assert!(systemd_usable(false, "initializing"));
    assert!(systemd_usable(false, "starting"));
    assert!(!systemd_usable(false, "offline"));
    assert!(!systemd_usable(false, ""));
    assert!(config_missing_warning(false, true));
    assert!(config_missing_warning(true, false));
    assert!(!config_missing_warning(true, true));
}

#[test]
fn platform_hints() {
    assert!(platform_hint(Platform::Linux).is_empty());
    let mac = platform_hint(Platform::MacOs);
    assert_eq!(mac.len(), 5);
    assert_eq!(mac[0], "cram service is currently supported on Linux (systemd) only.\n");
    assert_eq!(platform_hint(Platform::Windows).len(), 3);
    assert_eq!(
        platform_hint(Platform::Other),
        vec![
            "cram service is currently supported on Linux (systemd) only.",
            "Consider running `cram serve` in a background session or terminal multiplexer.",
        ]
    );
}

#[test]
fn unit_file_has_one_exec_start_line() {
    for (exe, port) in [("/a/cram", None), ("/opt/my cram/cram", Some(1u16)), ("/x", Some(65535u16))] {
        let content = generate_unit_file(exe, port);
        let exec_lines: Vec<&str> = content.lines().filter(|l| l.starts_with("ExecStart=")).collect();
        assert_eq!(exec_lines.len(), 1);
        let others: Vec<&str> = content.lines().filter(|l| !l.starts_with("ExecStart=")).collect();
        let reference = generate_unit_file("/bin/cram", None);
        let reference_others: Vec<&str> = reference.lines().filter(|l| !l.starts_with("ExecStart=")).collect();
        assert_eq!(others, reference_others);
    }
}
