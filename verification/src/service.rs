//! Running the gateway as a systemd user service: the unit file, where it
//! goes, and the steps that install, remove or inspect it.
use vstd::prelude::*;

use crate::config::{nonblank_value, Environment};
use crate::paths::{opt_text, path_join, path_joined};
use crate::text::{decimal_text, is_nonblank_str, lemma_decimal_text_digits, same_text, trim, trimmed, u16_text};

verus! {

/// What `cram service` is asked to do.
#[derive(Debug, Clone, Copy, PartialEq, Eq, Structural)]
pub enum ServiceAction {
    /// Install and start the unit, optionally with a fixed port.
    Install { port: Option<u16> },
    /// Stop, disable and remove the unit.
    Uninstall,
    /// Show the unit's status.
    Status,
}

/// A `systemctl --user` invocation.
#[derive(Debug, Clone, Copy, PartialEq, Eq, Structural)]
pub enum SystemctlCommand {
    DaemonReload,
    EnableNow,
    DisableNow,
    Status,
}

/// What to do when a `systemctl` invocation fails.
#[derive(Debug, Clone, Copy, PartialEq, Eq, Structural)]
pub enum OnFailure {
    /// Stop with exit status 1 when `systemctl` cannot be run at all.
    StopIfNotRun,
    /// Carry on whatever happens.
    Ignore,
    /// Report an error when it cannot be run; when it runs and fails, stop
    /// with its exit status (1 when it has none).
    MirrorStatus,
}

/// One step of a service action, carried out in order; a step that stops
/// the action ends it.
#[derive(Debug, Clone, Copy, PartialEq, Eq, Structural)]
pub enum ServiceStep {
    /// Stop unless this is a Linux system that runs systemd.
    CheckSystemSupport,
    /// Work out where the unit file goes (see `user_service_path`); stop
    /// with its error when that cannot be done.
    LocateUnitFile,
    /// Stop when the unit file already exists.
    RefuseIfUnitExists,
    /// Warn when the config or credentials file is missing.
    WarnIfConfigMissing,
    /// Write the unit file for the running executable.
    WriteUnitFile { port: Option<u16> },
    /// Run `systemctl --user` with the command's arguments.
    Systemctl { command: SystemctlCommand, on_failure: OnFailure },
    /// Remove the unit file if it exists.
    RemoveUnitFile,
    /// Tell the user where the unit went and how to manage it.
    ReportInstalled,
    /// Tell the user which unit file was removed.
    ReportRemoved,
}

/// The steps of each action.
pub open spec fn service_plan(action: ServiceAction) -> Seq<ServiceStep> {
    match action {
        ServiceAction::Install { port } => seq![
            ServiceStep::CheckSystemSupport,
            ServiceStep::LocateUnitFile,
            ServiceStep::RefuseIfUnitExists,
            ServiceStep::WarnIfConfigMissing,
            ServiceStep::WriteUnitFile { port },
            ServiceStep::Systemctl { command: SystemctlCommand::DaemonReload, on_failure: OnFailure::StopIfNotRun },
            ServiceStep::Systemctl { command: SystemctlCommand::EnableNow, on_failure: OnFailure::StopIfNotRun },
            ServiceStep::ReportInstalled,
        ],
        ServiceAction::Uninstall => seq![
            ServiceStep::CheckSystemSupport,
            ServiceStep::LocateUnitFile,
            ServiceStep::Systemctl { command: SystemctlCommand::DisableNow, on_failure: OnFailure::Ignore },
            ServiceStep::RemoveUnitFile,
            ServiceStep::Systemctl { command: SystemctlCommand::DaemonReload, on_failure: OnFailure::Ignore },
            ServiceStep::ReportRemoved,
        ],
        ServiceAction::Status => seq![
            ServiceStep::CheckSystemSupport,
            ServiceStep::Systemctl { command: SystemctlCommand::Status, on_failure: OnFailure::MirrorStatus },
        ],
    }
}

/// The steps that carry out `action`.
pub fn handle_service(action: ServiceAction) -> (r: Vec<ServiceStep>)
    ensures
        r@ == service_plan(action),
{
    let r = match action {
        ServiceAction::Install { port } => vec![
            ServiceStep::CheckSystemSupport,
            ServiceStep::LocateUnitFile,
            ServiceStep::RefuseIfUnitExists,
            ServiceStep::WarnIfConfigMissing,
            ServiceStep::WriteUnitFile { port },
            ServiceStep::Systemctl { command: SystemctlCommand::DaemonReload, on_failure: OnFailure::StopIfNotRun },
            ServiceStep::Systemctl { command: SystemctlCommand::EnableNow, on_failure: OnFailure::StopIfNotRun },
            ServiceStep::ReportInstalled,
        ],
        ServiceAction::Uninstall => vec![
            ServiceStep::CheckSystemSupport,
            ServiceStep::LocateUnitFile,
            ServiceStep::Systemctl { command: SystemctlCommand::DisableNow, on_failure: OnFailure::Ignore },
            ServiceStep::RemoveUnitFile,
            ServiceStep::Systemctl { command: SystemctlCommand::DaemonReload, on_failure: OnFailure::Ignore },
            ServiceStep::ReportRemoved,
        ],
        ServiceAction::Status => vec![
            ServiceStep::CheckSystemSupport,
            ServiceStep::Systemctl { command: SystemctlCommand::Status, on_failure: OnFailure::MirrorStatus },
        ],
    };
    assert(r@ =~= service_plan(action));
    r
}

/// The arguments given to `systemctl` for each command.
pub open spec fn systemctl_args_of(command: SystemctlCommand) -> Seq<Seq<char>> {
    match command {
        SystemctlCommand::DaemonReload => seq!["--user"@, "daemon-reload"@],
        SystemctlCommand::EnableNow => seq!["--user"@, "enable"@, "--now"@, "cram"@],
        SystemctlCommand::DisableNow => seq!["--user"@, "disable"@, "--now"@, "cram"@],
        SystemctlCommand::Status => seq!["--user"@, "status"@, "cram"@],
    }
}

/// The arguments to pass to `systemctl` for `command`.
pub fn systemctl_args(command: SystemctlCommand) -> (r: Vec<&'static str>)
    ensures
        r@.map_values(|a: &'static str| a@) == systemctl_args_of(command),
{
    let r = match command {
        SystemctlCommand::DaemonReload => vec!["--user", "daemon-reload"],
        SystemctlCommand::EnableNow => vec!["--user", "enable", "--now", "cram"],
        SystemctlCommand::DisableNow => vec!["--user", "disable", "--now", "cram"],
        SystemctlCommand::Status => vec!["--user", "status", "cram"],
    };
    assert(r@.map_values(|a: &'static str| a@) =~= systemctl_args_of(command));
    r
}

/// The kind of system the gateway runs on, as far as service support goes.
#[derive(Debug, Clone, Copy, PartialEq, Eq, Structural)]
pub enum Platform {
    Linux,
    MacOs,
    Windows,
    Other,
}

/// What to tell the user on a system without systemd support: nothing on
/// Linux (where systemd itself is checked next), else a pointer to the
/// platform's own mechanism.
pub open spec fn platform_hint_of(platform: Platform) -> Seq<Seq<char>> {
    match platform {
        Platform::Linux => Seq::empty(),
        Platform::MacOs => seq![
            "cram service is currently supported on Linux (systemd) only.\n"@,
            "On macOS, you can set up a launchd user agent manually:"@,
            "  1. Create ~/Library/LaunchAgents/ink.cram.plist"@,
            "  2. Load it with: launchctl load ~/Library/LaunchAgents/ink.cram.plist\n"@,
            "Or run `cram serve` in a terminal multiplexer (like tmux)."@,
        ],
        Platform::Windows => seq![
            "cram service is currently supported on Linux (systemd) only.\n"@,
            "On Windows, you can set up cram as a startup task using Task Scheduler or NSSM."@,
            "Or run `cram serve` in a background terminal session."@,
        ],
        Platform::Other => seq![
            "cram service is currently supported on Linux (systemd) only."@,
            "Consider running `cram serve` in a background session or terminal multiplexer."@,
        ],
    }
}

/// The lines to print, and then stop, when `platform` has no systemd
/// support; empty on Linux.
pub fn platform_hint(platform: Platform) -> (r: Vec<&'static str>)
    ensures
        r@.map_values(|l: &'static str| l@) == platform_hint_of(platform),
{
    let r = match platform {
        Platform::Linux => Vec::new(),
        Platform::MacOs => vec![
            "cram service is currently supported on Linux (systemd) only.\n",
            "On macOS, you can set up a launchd user agent manually:",
            "  1. Create ~/Library/LaunchAgents/ink.cram.plist",
            "  2. Load it with: launchctl load ~/Library/LaunchAgents/ink.cram.plist\n",
            "Or run `cram serve` in a terminal multiplexer (like tmux).",
        ],
        Platform::Windows => vec![
            "cram service is currently supported on Linux (systemd) only.\n",
            "On Windows, you can set up cram as a startup task using Task Scheduler or NSSM.",
            "Or run `cram serve` in a background terminal session.",
        ],
        Platform::Other => vec![
            "cram service is currently supported on Linux (systemd) only.",
            "Consider running `cram serve` in a background session or terminal multiplexer.",
        ],
    };
    assert(r@.map_values(|l: &'static str| l@) =~= platform_hint_of(platform));
    r
}

/// The states of `systemctl --user is-system-running` in which a user
/// service can be installed.
pub open spec fn usable_system_state(state: Seq<char>) -> bool {
    let t = trimmed(state);
    t == "running"@ || t == "degraded"@ || t == "initializing"@ || t == "starting"@
}

/// Whether systemd can take a user service, from the outcome of
/// `systemctl --user is-system-running`: it succeeded, or it printed one of
/// the usable states.
pub fn systemd_usable(succeeded: bool, output: &str) -> (r: bool)
    ensures
        r == (succeeded || usable_system_state(output@)),
{
    let state = trim(output);
    succeeded || same_text(state, "running") || same_text(state, "degraded") || same_text(
        state,
        "initializing",
    ) || same_text(state, "starting")
}

/// Why the unit file's place cannot be worked out.
#[derive(Debug, Clone, Copy, PartialEq, Eq, Structural)]
pub enum ServiceError {
    /// `HOME` is not set.
    HomeNotSet,
}

impl ServiceError {
    /// The text shown to the user for this error.
    pub fn message(&self) -> (r: String)
        ensures
            r@ == "could not determine home directory ($HOME is not set)"@,
    {
        String::from_str("could not determine home directory ($HOME is not set)")
    }
}

/// `.config` under the home directory `home` (even an empty one), or the
/// error when `HOME` is not set.
pub open spec fn home_config_dir(home: Option<Seq<char>>) -> Option<Seq<char>> {
    match home {
        Some(h) => Some(path_joined(h, ".config"@)),
        None => None,
    }
}

/// The user configuration directory under `HOME`.
pub fn get_home_config_dir(env: &Environment) -> (r: Result<String, ServiceError>)
    ensures
        match r {
            Ok(d) => home_config_dir(opt_text(env.home)) == Some(d@),
            Err(e) => home_config_dir(opt_text(env.home)) is None && e == ServiceError::HomeNotSet,
        },
{
    proof {
        reveal_strlit(".config");
    }
    match &env.home {
        Some(h) => Ok(path_join(h.as_str(), ".config")),
        None => Err(ServiceError::HomeNotSet),
    }
}

/// Where the unit file goes: `systemd/user/cram.service` under
/// `XDG_CONFIG_HOME` when that is set and not blank, else under `~/.config`.
pub open spec fn service_path_of(xdg: Option<Seq<char>>, home: Option<Seq<char>>) -> Option<Seq<char>> {
    let dir = match nonblank_value(xdg) {
        Some(x) => Some(x),
        None => home_config_dir(home),
    };
    match dir {
        Some(d) => Some(path_joined(d, "systemd/user/cram.service"@)),
        None => None,
    }
}

/// The path of the unit file.
pub fn user_service_path(env: &Environment) -> (r: Result<String, ServiceError>)
    ensures
        match r {
            Ok(p) => service_path_of(opt_text(env.xdg_config_home), opt_text(env.home)) == Some(p@),
            Err(e) => service_path_of(opt_text(env.xdg_config_home), opt_text(env.home)) is None
                && e == ServiceError::HomeNotSet,
        },
{
    proof {
        reveal_strlit("systemd/user/cram.service");
    }
    let dir = match &env.xdg_config_home {
        Some(x) => if is_nonblank_str(x.as_str()) {
            String::from_str(x.as_str())
        } else {
            get_home_config_dir(env)?
        },
        None => get_home_config_dir(env)?,
    };
    Ok(path_join(dir.as_str(), "systemd/user/cram.service"))
}

/// Whether to warn that a systemd service will not see the shell's
/// environment: the config or the credentials file is missing.
pub fn config_missing_warning(config_exists: bool, credentials_exist: bool) -> (r: bool)
    ensures
        r == (!config_exists || !credentials_exist),
{
    !config_exists || !credentials_exist
}

/// The command line of the service: the executable, `serve`, the port flag
/// when a port is fixed, then `--quiet --no-open`.
pub open spec fn exec_start_line(exe_path: Seq<char>, port: Option<u16>) -> Seq<char> {
    match port {
        Some(p) => exe_path + " serve --port "@ + decimal_text(p as nat) + " --quiet --no-open"@,
        None => exe_path + " serve --quiet --no-open"@,
    }
}

/// The text whose lines are `lines`: each line followed by a newline.
pub open spec fn joined_lines(lines: Seq<Seq<char>>) -> Seq<char>
    decreases lines.len(),
{
    if lines.len() == 0 {
        Seq::empty()
    } else {
        joined_lines(lines.drop_last()) + lines.last() + seq!['\n']
    }
}

/// `s` holds no newline.
pub open spec fn newline_free(s: Seq<char>) -> bool {
    forall|i: int| 0 <= i < s.len() ==> s[i] != '\n'
}

/// Every one of `lines` is free of newlines (so each is one line of the
/// text that `joined_lines` makes of them).
pub open spec fn all_newline_free(lines: Seq<Seq<char>>) -> bool {
    forall|k: int| 0 <= k < lines.len() ==> newline_free(#[trigger] lines[k])
}

/// `line` begins with `ExecStart=`.
pub open spec fn starts_with_exec_start(line: Seq<char>) -> bool {
    line.len() >= 10 && line.subrange(0, 10) == "ExecStart="@
}

/// The order of the service steps: every action first checks the system;
/// install writes the unit file, reloads systemd, then enables and starts
/// the unit; uninstall stops and disables the unit before removing its
/// file; status asks systemd and mirrors its exit status. Only install
/// enables the unit, only uninstall disables it or removes the file.
pub proof fn law_service_step_order(action: ServiceAction)
    ensures
        service_plan(action).len() > 0 && service_plan(action)[0] == ServiceStep::CheckSystemSupport,
        action matches ServiceAction::Install { port } ==> exists|i: int, j: int, k: int|
            0 <= i < j < k < service_plan(action).len()
            && #[trigger] service_plan(action)[i] == (ServiceStep::WriteUnitFile { port })
            && #[trigger] service_plan(action)[j] == (ServiceStep::Systemctl {
                command: SystemctlCommand::DaemonReload,
                on_failure: OnFailure::StopIfNotRun,
            })
            && #[trigger] service_plan(action)[k] == (ServiceStep::Systemctl {
                command: SystemctlCommand::EnableNow,
                on_failure: OnFailure::StopIfNotRun,
            }),
        action is Uninstall ==> exists|i: int, j: int|
            0 <= i < j < service_plan(action).len()
            && #[trigger] service_plan(action)[i] == (ServiceStep::Systemctl {
                command: SystemctlCommand::DisableNow,
                on_failure: OnFailure::Ignore,
            })
            && #[trigger] service_plan(action)[j] == ServiceStep::RemoveUnitFile,
        action is Status ==> exists|i: int|
            0 <= i < service_plan(action).len() && #[trigger] service_plan(action)[i] == (ServiceStep::Systemctl {
                command: SystemctlCommand::Status,
                on_failure: OnFailure::MirrorStatus,
            }),
        forall|k: int| 0 <= k < service_plan(action).len() && (#[trigger] service_plan(action)[k] matches ServiceStep::Systemctl { command: SystemctlCommand::EnableNow, .. })
            ==> action is Install,
        forall|k: int| 0 <= k < service_plan(action).len() && (#[trigger] service_plan(action)[k] matches ServiceStep::Systemctl { command: SystemctlCommand::DisableNow, .. })
            ==> action is Uninstall,
        forall|k: int| 0 <= k < service_plan(action).len() && #[trigger] service_plan(action)[k] == ServiceStep::RemoveUnitFile
            ==> action is Uninstall,
{
    let p = service_plan(action);
    match action {
        ServiceAction::Install { port } => {
            assert(p[4] == ServiceStep::WriteUnitFile { port });
            assert(p[5] == ServiceStep::Systemctl { command: SystemctlCommand::DaemonReload, on_failure: OnFailure::StopIfNotRun });
            assert(p[6] == ServiceStep::Systemctl { command: SystemctlCommand::EnableNow, on_failure: OnFailure::StopIfNotRun });
        },
        ServiceAction::Uninstall => {
            assert(p[2] == ServiceStep::Systemctl { command: SystemctlCommand::DisableNow, on_failure: OnFailure::Ignore });
            assert(p[3] == ServiceStep::RemoveUnitFile);
        },
        ServiceAction::Status => {
            assert(p[1] == ServiceStep::Systemctl { command: SystemctlCommand::Status, on_failure: OnFailure::MirrorStatus });
        },
    }
}

/// The lines of the unit file before the `ExecStart=` line.
pub open spec fn unit_head_lines() -> Seq<Seq<char>> {
    seq![
        "[Unit]"@,
        "Description=cram \u{2014} local AI gateway"@,
        "Documentation=https://cram.ink"@,
        "After=network-online.target"@,
        "Wants=network-online.target"@,
        ""@,
        "[Service]"@,
        "Type=simple"@,
    ]
}

/// The lines of the unit file after the `ExecStart=` line.
pub open spec fn unit_tail_lines() -> Seq<Seq<char>> {
    seq![
        "Restart=always"@,
        "RestartSec=2"@,
        "StartLimitBurst=5"@,
        "StartLimitIntervalSec=60"@,
        ""@,
        "NoNewPrivileges=true"@,
        "PrivateTmp=true"@,
        "ProtectSystem=strict"@,
        "ProtectKernelTunables=true"@,
        "ProtectControlGroups=true"@,
        "RestrictAddressFamilies=AF_INET AF_INET6"@,
        "MemoryMax=256M"@,
        ""@,
        "[Install]"@,
        "WantedBy=default.target"@,
    ]
}

/// The unit file text before the command line.
pub open spec fn unit_head() -> Seq<char> {
    joined_lines(unit_head_lines()) + "ExecStart="@
}

/// The unit file text after the command line.
pub open spec fn unit_tail() -> Seq<char> {
    seq!['\n'] + joined_lines(unit_tail_lines())
}

/// The lines of the unit file for `exe_path` and `port`.
pub open spec fn unit_lines(exe_path: Seq<char>, port: Option<u16>) -> Seq<Seq<char>> {
    unit_head_lines() + seq!["ExecStart="@ + exec_start_line(exe_path, port)] + unit_tail_lines()
}

fn unit_head_line_texts() -> (r: Vec<&'static str>)
    ensures
        r@.map_values(|l: &'static str| l@) == unit_head_lines(),
{
    let r = vec![
        "[Unit]",
        "Description=cram \u{2014} local AI gateway",
        "Documentation=https://cram.ink",
        "After=network-online.target",
        "Wants=network-online.target",
        "",
        "[Service]",
        "Type=simple",
    ];
    assert(r@.map_values(|l: &'static str| l@) =~= unit_head_lines());
    r
}

fn unit_tail_line_texts() -> (r: Vec<&'static str>)
    ensures
        r@.map_values(|l: &'static str| l@) == unit_tail_lines(),
{
    let r = vec![
        "Restart=always",
        "RestartSec=2",
        "StartLimitBurst=5",
        "StartLimitIntervalSec=60",
        "",
        "NoNewPrivileges=true",
        "PrivateTmp=true",
        "ProtectSystem=strict",
        "ProtectKernelTunables=true",
        "ProtectControlGroups=true",
        "RestrictAddressFamilies=AF_INET AF_INET6",
        "MemoryMax=256M",
        "",
        "[Install]",
        "WantedBy=default.target",
    ];
    assert(r@.map_values(|l: &'static str| l@) =~= unit_tail_lines());
    r
}

/// Appends each of `lines` followed by a newline.
fn append_lines(text: &mut String, lines: &Vec<&'static str>)
    ensures
        final(text)@ == old(text)@ + joined_lines(lines@.map_values(|l: &'static str| l@)),
{
    proof {
        reveal_strlit("\n");
    }
    let ghost all = lines@.map_values(|l: &'static str| l@);
    assert(all.take(0) =~= Seq::<Seq<char>>::empty());
    assert(text@ =~= old(text)@ + joined_lines(all.take(0)));
    let n = lines.len();
    let mut i: usize = 0;
    while i < n
        invariant
            n == lines@.len(),
            all == lines@.map_values(|l: &'static str| l@),
            i <= n,
            text@ == old(text)@ + joined_lines(all.take(i as int)),
        decreases n - i,
    {
        proof {
            reveal_strlit("\n");
        }
        assert(all.take(i + 1).drop_last() =~= all.take(i as int));
        assert(all.take(i + 1).last() == lines@[i as int]@);
        assert(joined_lines(all.take(i + 1)) == joined_lines(all.take(i as int)) + lines@[i as int]@
            + seq!['\n']);
        text.append(lines[i]);
        text.append("\n");
        assert(text@ =~= old(text)@ + joined_lines(all.take(i + 1)));
        i = i + 1;
    }
    assert(all.take(n as int) =~= all);
}

/// The systemd unit file that runs `exe_path` as the gateway.
pub fn generate_unit_file(exe_path: &str, port: Option<u16>) -> (r: String)
    ensures
        r@ == unit_head() + exec_start_line(exe_path@, port) + unit_tail(),
{
    proof {
        reveal_strlit(" serve --port ");
        reveal_strlit(" --quiet --no-open");
        reveal_strlit(" serve --quiet --no-open");
        reveal_strlit("\n");
    }
    let mut exec_start = String::from_str(exe_path);
    match port {
        Some(p) => {
            exec_start.append(" serve --port ");
            let digits = u16_text(p);
            exec_start.append(digits.as_str());
            exec_start.append(" --quiet --no-open");
        },
        None => {
            exec_start.append(" serve --quiet --no-open");
        },
    }
    let mut unit = String::new();
    append_lines(&mut unit, &unit_head_line_texts());
    unit.append("ExecStart=");
    unit.append(exec_start.as_str());
    unit.append("\n");
    append_lines(&mut unit, &unit_tail_line_texts());
    assert(unit@ =~= unit_head() + exec_start_line(exe_path@, port) + unit_tail());
    unit
}

pub proof fn lemma_joined_lines_concat(a: Seq<Seq<char>>, b: Seq<Seq<char>>)
    ensures
        joined_lines(a + b) == joined_lines(a) + joined_lines(b),
    decreases b.len(),
{
    if b.len() == 0 {
        assert(a + b =~= a);
        assert(joined_lines(a) + joined_lines(b) =~= joined_lines(a));
    } else {
        lemma_joined_lines_concat(a, b.drop_last());
        assert((a + b).drop_last() =~= a + b.drop_last());
        assert(joined_lines(a + b) =~= joined_lines(a) + joined_lines(b));
    }
}

proof fn lemma_joined_lines_ends_in_newline(lines: Seq<Seq<char>>)
    ensures
        lines.len() > 0 <==> joined_lines(lines).len() > 0,
        lines.len() > 0 ==> joined_lines(lines).last() == '\n',
{
}

/// The lines of a text are well defined: two lists of lines free of
/// newlines that make the same text are the same list.
pub proof fn lemma_joined_lines_unique(a: Seq<Seq<char>>, b: Seq<Seq<char>>)
    requires
        all_newline_free(a),
        all_newline_free(b),
        joined_lines(a) == joined_lines(b),
    ensures
        a == b,
    decreases a.len(),
{
    lemma_joined_lines_ends_in_newline(a);
    lemma_joined_lines_ends_in_newline(b);
    if a.len() == 0 {
        assert(b.len() == 0);
        assert(a =~= b);
    } else {
        let t = joined_lines(a);
        let pa = joined_lines(a.drop_last());
        let pb = joined_lines(b.drop_last());
        let xa = a.last();
        let xb = b.last();
        assert(newline_free(xa));
        assert(newline_free(xb));
        assert(t == pa + xa + seq!['\n']);
        assert(t == pb + xb + seq!['\n']);
        lemma_joined_lines_ends_in_newline(a.drop_last());
        lemma_joined_lines_ends_in_newline(b.drop_last());
        if xa.len() < xb.len() {
            if pa.len() == 0 {
                assert(t.len() == xa.len() + 1);
                assert(false);
            } else {
                let p = pa.len() - 1;
                assert(t[p] == pa.last());
                assert(t[p] == xb[p - pb.len()]);
                assert(false);
            }
        }
        if xb.len() < xa.len() {
            if pb.len() == 0 {
                assert(t.len() == xb.len() + 1);
                assert(false);
            } else {
                let p = pb.len() - 1;
                assert(t[p] == pb.last());
                assert(t[p] == xa[p - pa.len()]);
                assert(false);
            }
        }
        assert(xa.len() == xb.len());
        assert(pa.len() == pb.len());
        assert(xa =~= t.subrange(pa.len() as int, (pa.len() + xa.len()) as int));
        assert(xb =~= t.subrange(pb.len() as int, (pb.len() + xb.len()) as int));
        assert(pa =~= t.subrange(0, pa.len() as int));
        assert(pb =~= t.subrange(0, pb.len() as int));
        lemma_joined_lines_unique(a.drop_last(), b.drop_last());
        assert(a =~= b.drop_last().push(xb));
        assert(b =~= b.drop_last().push(xb));
    }
}

/// A line that does not begin with `E` does not begin with `ExecStart=`.
proof fn lemma_not_exec_start(line: Seq<char>)
    requires
        line.len() == 0 || line[0] != 'E',
    ensures
        !starts_with_exec_start(line),
{
    reveal_strlit("ExecStart=");
    if line.len() >= 10 && line.subrange(0, 10) == "ExecStart="@ {
        assert(line.subrange(0, 10)[0] == line[0]);
    }
}

proof fn lemma_fixed_lines_plain()
    ensures
        all_newline_free(unit_head_lines()),
        all_newline_free(unit_tail_lines()),
        forall|k: int| 0 <= k < unit_head_lines().len() ==> !starts_with_exec_start(#[trigger] unit_head_lines()[k]),
        forall|k: int| 0 <= k < unit_tail_lines().len() ==> !starts_with_exec_start(#[trigger] unit_tail_lines()[k]),
{
    reveal_strlit("[Unit]");
    reveal_strlit("Description=cram \u{2014} local AI gateway");
    reveal_strlit("Documentation=https://cram.ink");
    reveal_strlit("After=network-online.target");
    reveal_strlit("Wants=network-online.target");
    reveal_strlit("");
    reveal_strlit("[Service]");
    reveal_strlit("Type=simple");
    reveal_strlit("Restart=always");
    reveal_strlit("RestartSec=2");
    reveal_strlit("StartLimitBurst=5");
    reveal_strlit("StartLimitIntervalSec=60");
    reveal_strlit("NoNewPrivileges=true");
    reveal_strlit("PrivateTmp=true");
    reveal_strlit("ProtectSystem=strict");
    reveal_strlit("ProtectKernelTunables=true");
    reveal_strlit("ProtectControlGroups=true");
    reveal_strlit("RestrictAddressFamilies=AF_INET AF_INET6");
    reveal_strlit("MemoryMax=256M");
    reveal_strlit("[Install]");
    reveal_strlit("WantedBy=default.target");
    let h = unit_head_lines();
    let t = unit_tail_lines();
    assert forall|k: int| 0 <= k < h.len() implies newline_free(#[trigger] h[k]) && !starts_with_exec_start(h[k]) by {
        lemma_not_exec_start(h[k]);
    }
    assert forall|k: int| 0 <= k < t.len() implies newline_free(#[trigger] t[k]) && !starts_with_exec_start(t[k]) by {
        lemma_not_exec_start(t[k]);
    }
}

/// The unit file has exactly one line that begins with `ExecStart=`: the
/// command line for `exe_path` and `port`. Every other line is the same
/// whatever the path and port.
pub proof fn law_unit_file_has_one_exec_start_line(exe_path: Seq<char>, port: Option<u16>)
    requires
        newline_free(exe_path),
    ensures
        unit_head() + exec_start_line(exe_path, port) + unit_tail() == joined_lines(unit_lines(exe_path, port)),
        all_newline_free(unit_lines(exe_path, port)),
        forall|k: int| 0 <= k < unit_lines(exe_path, port).len() ==> (starts_with_exec_start(
            #[trigger] unit_lines(exe_path, port)[k],
        ) <==> k == unit_head_lines().len()),
        unit_lines(exe_path, port)[unit_head_lines().len() as int] == "ExecStart="@ + exec_start_line(exe_path, port),
        unit_lines(exe_path, port).take(unit_head_lines().len() as int) == unit_head_lines(),
        unit_lines(exe_path, port).skip(unit_head_lines().len() + 1int) == unit_tail_lines(),
{
    reveal_strlit("ExecStart=");
    reveal_strlit(" serve --port ");
    reveal_strlit(" --quiet --no-open");
    reveal_strlit(" serve --quiet --no-open");
    lemma_fixed_lines_plain();
    let h = unit_head_lines();
    let t = unit_tail_lines();
    let e = "ExecStart="@ + exec_start_line(exe_path, port);
    let ls = unit_lines(exe_path, port);
    if let Some(p) = port {
        lemma_decimal_text_digits(p as nat);
    }
    assert(newline_free(e));
    assert(starts_with_exec_start(e)) by {
        assert(e.subrange(0, 10) =~= "ExecStart="@);
    }
    lemma_joined_lines_concat(h, seq![e]);
    lemma_joined_lines_concat(h + seq![e], t);
    assert(seq![e].drop_last() =~= Seq::<Seq<char>>::empty());
    assert(joined_lines(Seq::<Seq<char>>::empty()) == Seq::<char>::empty());
    assert(seq![e].last() == e);
    assert(joined_lines(seq![e]) =~= e + seq!['\n']);
    assert(joined_lines(ls) =~= unit_head() + exec_start_line(exe_path, port) + unit_tail());
    assert forall|k: int| 0 <= k < ls.len() implies newline_free(#[trigger] ls[k]) && (starts_with_exec_start(ls[k]) <==> k == h.len()) by {
        if k < h.len() {
            assert(ls[k] == h[k]);
        } else if k == h.len() {
            assert(ls[k] == e);
        } else {
            assert(ls[k] == t[k - h.len() - 1]);
        }
    }
    assert(ls.take(h.len() as int) =~= h);
    assert(ls.skip(h.len() + 1int) =~= t);
}

} // verus!
