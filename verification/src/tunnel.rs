//! The SSH reverse-tunnel supervisor: a state machine over
//! [`TunnelStatus`] driven by the operations `start`/`stop` and by events
//! observed on the subprocess — its diagnostic stream, its spawn outcome and
//! a one-shot startup timer. The subprocess itself is owned by the caller,
//! which spawns the command `start` hands back, reads its diagnostic stream
//! line by line into `on_stderr_line`, reports the stream's end through
//! `on_stream_closed`, and fires `on_startup_timeout` thirty seconds after a
//! start.

use vstd::prelude::*;
use vstd::string::StringExecFns;
use crate::strfmt::{spec_dec, spec_str_contains, str_contains, str_views, u64_to_string};
use crate::types::TunnelStatus;

verus! {

/// Seconds the supervisor waits for the subprocess to report an established
/// forward before giving up on a start.
pub const TUNNEL_STARTUP_TIMEOUT_SECS: u64 = 30;

/// Configuration of the reverse tunnel.
#[derive(Debug, Clone)]
pub struct SshTunnelConfig {
    /// Whether the tunnel may be started at all.
    pub enabled: bool,
    /// Whether the tunnel should be started when the application comes up.
    pub auto_start: bool,
    /// Host of the intermediary the reverse forward is opened on.
    pub remote_host: String,
    /// User to log in as on the intermediary.
    pub remote_user: String,
    /// Private-key path handed to the subprocess, if any.
    pub ssh_key_path: Option<String>,
    /// Remote port of the reverse forward; 0 means "use the local port".
    pub remote_port: u16,
    /// Diagnostic verbosity requested by the user; only affects what the
    /// caller surfaces, not the subprocess arguments.
    pub verbose_level: u8,
}

/// An external command for the caller to spawn: a program name and its
/// arguments, in order.
#[derive(Debug)]
pub struct TunnelCommand {
    pub program: String,
    pub args: Vec<String>,
}

/// Why [`SshTunnelManager::start`] refused.
#[derive(Debug, Clone)]
pub enum TunnelStartError {
    /// No tunnel configuration is set.
    NotConfigured,
    /// The configuration is disabled.
    Disabled,
    /// The tunnel is already running.
    AlreadyRunning,
}

/// How a poll of the subprocess came out; the argument of
/// [`SshTunnelManager::is_running`].
#[derive(Debug, Clone)]
pub enum ProcessPoll {
    /// The subprocess has exited.
    Exited,
    /// The subprocess is still alive.
    StillRunning,
    /// The poll itself failed, with the failure rendered as text.
    CheckFailed(String),
}

/// The mathematical shape of a [`TunnelStatus`].
pub enum TunnelStatusView {
    Stopped,
    Starting,
    Running,
    Error(Seq<char>),
}

impl View for TunnelStatus {
    type V = TunnelStatusView;

    open spec fn view(&self) -> TunnelStatusView {
        match self {
            TunnelStatus::Stopped => TunnelStatusView::Stopped,
            TunnelStatus::Starting => TunnelStatusView::Starting,
            TunnelStatus::Running => TunnelStatusView::Running,
            TunnelStatus::Error(e) => TunnelStatusView::Error(e@),
        }
    }
}

/// The remote port of the forward: the configured one, or the local port
/// where none is configured.
pub open spec fn spec_effective_remote_port(config: SshTunnelConfig, local_port: u16) -> u16 {
    if config.remote_port > 0 {
        config.remote_port
    } else {
        local_port
    }
}

/// The reverse-forward specification `remote:localhost:local`.
pub open spec fn spec_forward_spec(config: SshTunnelConfig, local_port: u16) -> Seq<char> {
    spec_dec(spec_effective_remote_port(config, local_port) as nat) + ":localhost:"@ + spec_dec(
        local_port as nat,
    )
}

/// The login destination `user@host`.
pub open spec fn spec_destination(config: SshTunnelConfig) -> Seq<char> {
    config.remote_user@ + "@"@ + config.remote_host@
}

/// The argument list of the tunnel subprocess: the reverse forward, the
/// key path if one is configured, no remote command, no terminal,
/// keep-alive probes, exit on forward failure, and verbose diagnostics for
/// status classification, ending in the destination.
pub open spec fn spec_ssh_args(config: SshTunnelConfig, local_port: u16) -> Seq<Seq<char>> {
    let head = seq!["-R"@, spec_forward_spec(config, local_port)];
    let keyed = match config.ssh_key_path {
        Some(key) => head + seq!["-i"@, key@],
        None => head,
    };
    keyed + seq![
        "-N"@,
        "-T"@,
        "-o"@,
        "ServerAliveInterval=60"@,
        "-o"@,
        "ServerAliveCountMax=3"@,
        "-o"@,
        "ExitOnForwardFailure=yes"@,
        "-vvv"@,
        spec_destination(config),
    ]
}

/// The command line rendered for display: `ssh -R forward [-i key] dest`.
pub open spec fn spec_command_string(config: SshTunnelConfig, local_port: u16) -> Seq<char> {
    let head = "ssh -R "@ + spec_forward_spec(config, local_port);
    let keyed = match config.ssh_key_path {
        Some(key) => head + " -i "@ + key@,
        None => head,
    };
    keyed + " "@ + spec_destination(config)
}

/// A diagnostic line reporting the forward established.
pub open spec fn is_success_line(line: Seq<char>) -> bool {
    spec_str_contains(line, "forwarding_success"@) || spec_str_contains(
        line,
        "remote forward success"@,
    )
}

/// A diagnostic line reporting a failure the forward cannot recover from.
pub open spec fn is_fatal_line(line: Seq<char>) -> bool {
    spec_str_contains(line, "Connection refused"@) || spec_str_contains(
        line,
        "Permission denied"@,
    ) || spec_str_contains(line, "Could not request local forwarding"@) || spec_str_contains(
        line,
        "remote port forwarding failed"@,
    )
}

/// The tunnel supervisor. One instance lives for the whole process; all
/// mutation goes through its operations and event observations.
#[derive(Debug)]
pub struct SshTunnelManager {
    /// The held configuration; `start` refuses without one.
    pub config: Option<SshTunnelConfig>,
    /// The supervised state machine's current state.
    pub status: TunnelStatus,
    /// Whether a subprocess handle is currently held by the caller on the
    /// supervisor's behalf.
    pub process_running: bool,
    /// The local port the reverse forward points at.
    pub port: u16,
}

/// The status after the diagnostic stream ends: if the supervisor stopped
/// the subprocess deliberately the status is already `Stopped` and stays
/// so; in every other state the subprocess died on its own, an error.
pub open spec fn spec_after_stream_closed(s: TunnelStatusView) -> TunnelStatusView {
    if s == TunnelStatusView::Stopped {
        TunnelStatusView::Stopped
    } else {
        TunnelStatusView::Error("connection lost"@)
    }
}

impl SshTunnelManager {
    /// A stopped supervisor forwarding to `port`, with no configuration.
    pub fn new(port: u16) -> (r: Self)
        ensures
            r.config is None,
            r.status == TunnelStatus::Stopped,
            !r.process_running,
            r.port == port,
    {
        SshTunnelManager {
            config: None,
            status: TunnelStatus::Stopped,
            process_running: false,
            port,
        }
    }

    /// Replaces the held configuration; takes effect on the next start.
    pub fn update_config(&mut self, config: Option<SshTunnelConfig>)
        ensures
            final(self).config == config,
            final(self).status == old(self).status,
            final(self).process_running == old(self).process_running,
            final(self).port == old(self).port,
    {
        self.config = config;
    }

    /// Replaces the local port; takes effect on the next start.
    pub fn update_port(&mut self, port: u16)
        ensures
            final(self).port == port,
            final(self).config == old(self).config,
            final(self).status == old(self).status,
            final(self).process_running == old(self).process_running,
    {
        self.port = port;
    }

    /// The current status.
    pub fn get_status(&self) -> (r: TunnelStatus)
        ensures
            r == self.status,
    {
        match &self.status {
            TunnelStatus::Stopped => TunnelStatus::Stopped,
            TunnelStatus::Starting => TunnelStatus::Starting,
            TunnelStatus::Running => TunnelStatus::Running,
            TunnelStatus::Error(e) => TunnelStatus::Error(e.clone()),
        }
    }

    /// Begins a start: refuses when no configuration is set, when the
    /// configuration is disabled, or when the tunnel is already running;
    /// otherwise moves to `Starting` and hands back the exact command the
    /// caller must spawn.
    pub fn start(&mut self) -> (r: Result<TunnelCommand, TunnelStartError>)
        ensures
            match r {
                Err(TunnelStartError::NotConfigured) => old(self).config is None && *final(self)
                    == *old(self),
                Err(TunnelStartError::Disabled) => old(self).config matches Some(c)
                    && !c.enabled && *final(self) == *old(self),
                Err(TunnelStartError::AlreadyRunning) => old(self).config matches Some(c)
                    && c.enabled && old(self).status == TunnelStatus::Running && *final(self)
                    == *old(self),
                Ok(cmd) => old(self).config matches Some(c) && c.enabled && old(self).status
                    != TunnelStatus::Running && *final(self) == (SshTunnelManager {
                    status: TunnelStatus::Starting,
                    ..*old(self)
                }) && cmd.program@ == "ssh"@ && str_views(cmd.args@) == spec_ssh_args(
                    c,
                    old(self).port,
                ),
            },
    {
        let (enabled, is_some) = match &self.config {
            Some(c) => (c.enabled, true),
            None => (false, false),
        };
        if !is_some {
            return Err(TunnelStartError::NotConfigured);
        }
        if !enabled {
            return Err(TunnelStartError::Disabled);
        }
        if matches!(self.status, TunnelStatus::Running) {
            return Err(TunnelStartError::AlreadyRunning);
        }
        let args = match &self.config {
            Some(c) => build_ssh_args(c, self.port),
            None => Vec::new(),
        };
        self.status = TunnelStatus::Starting;
        Ok(TunnelCommand { program: "ssh".to_owned(), args })
    }

    /// Observes that the spawn succeeded: the caller now holds a live
    /// subprocess for this supervisor.
    pub fn on_spawned(&mut self)
        ensures
            *final(self) == (SshTunnelManager { process_running: true, ..*old(self) }),
    {
        self.process_running = true;
    }

    /// Observes that the spawn failed; the failure is fatal to this start
    /// and recorded as the status.
    pub fn on_spawn_failed(&mut self, error: String)
        ensures
            *final(self) == (SshTunnelManager { status: TunnelStatus::Error(error), ..*old(self) }),
    {
        self.status = TunnelStatus::Error(error);
    }

    /// Classifies one line of the subprocess's diagnostic stream: a success
    /// marker promotes `Starting` to `Running`; otherwise a fatal marker
    /// demotes `Starting` to an error. Lines seen in any other state, and
    /// unclassified lines, change nothing — classification is best effort.
    pub fn on_stderr_line(&mut self, line: &str)
        ensures
            final(self).config == old(self).config,
            final(self).port == old(self).port,
            final(self).process_running == old(self).process_running,
            final(self).status@ == if is_success_line(line@) && old(self).status
                == TunnelStatus::Starting {
                TunnelStatusView::Running
            } else if !is_success_line(line@) && is_fatal_line(line@) && old(self).status
                == TunnelStatus::Starting {
                TunnelStatusView::Error("tunnel establishment failed"@)
            } else {
                old(self).status@
            },
    {
        let success = str_contains(line, "forwarding_success") || str_contains(
            line,
            "remote forward success",
        );
        if success {
            if matches!(self.status, TunnelStatus::Starting) {
                self.status = TunnelStatus::Running;
            }
            return ;
        }
        let fatal = str_contains(line, "Connection refused") || str_contains(
            line,
            "Permission denied",
        ) || str_contains(line, "Could not request local forwarding") || str_contains(
            line,
            "remote port forwarding failed",
        );
        if fatal {
            if matches!(self.status, TunnelStatus::Starting) {
                self.status = TunnelStatus::Error("tunnel establishment failed".to_owned());
            }
        }
    }

    /// Observes the diagnostic stream ending: the subprocess exited. After
    /// a deliberate stop the status is already `Stopped` and stays so; in
    /// every other state this is an unexpected death and becomes an error.
    pub fn on_stream_closed(&mut self)
        ensures
            final(self).config == old(self).config,
            final(self).port == old(self).port,
            !final(self).process_running,
            final(self).status@ == spec_after_stream_closed(old(self).status@),
    {
        if !matches!(self.status, TunnelStatus::Stopped) {
            self.status = TunnelStatus::Error("connection lost".to_owned());
        }
        self.process_running = false;
    }

    /// Fires the startup watchdog: a tunnel still `Starting` when the timer
    /// goes off has timed out and becomes an error, never `Running`.
    pub fn on_startup_timeout(&mut self)
        ensures
            final(self).config == old(self).config,
            final(self).port == old(self).port,
            final(self).process_running == old(self).process_running,
            old(self).status == TunnelStatus::Starting ==> final(self).status@
                == TunnelStatusView::Error("startup timeout"@),
            old(self).status != TunnelStatus::Starting ==> *final(self) == *old(self),
    {
        if matches!(self.status, TunnelStatus::Starting) {
            self.status = TunnelStatus::Error("startup timeout".to_owned());
        }
    }

    /// Stops the tunnel: the status becomes `Stopped` *before* the caller
    /// learns whether a subprocess must be terminated, so the stream-end
    /// observation racing with the kill cannot misreport a deliberate stop
    /// as a crash. Returns whether there is a subprocess to terminate.
    /// Idempotent: stopping a stopped tunnel changes nothing and returns
    /// `false`.
    pub fn stop(&mut self) -> (had_process: bool)
        ensures
            final(self).config == old(self).config,
            final(self).port == old(self).port,
            final(self).status == TunnelStatus::Stopped,
            !final(self).process_running,
            had_process == old(self).process_running,
    {
        self.status = TunnelStatus::Stopped;
        let had = self.process_running;
        self.process_running = false;
        had
    }

    /// Folds a poll of the subprocess into the state and reports whether
    /// the tunnel's subprocess is alive: an observed exit stops the
    /// supervisor, a failed poll is recorded as an error, and with no held
    /// subprocess the answer is no.
    pub fn is_running(&mut self, poll: ProcessPoll) -> (r: bool)
        ensures
            !old(self).process_running ==> *final(self) == *old(self) && !r,
            old(self).process_running ==> *final(self) == (match poll {
                ProcessPoll::Exited => (SshTunnelManager {
                    status: TunnelStatus::Stopped,
                    process_running: false,
                    ..*old(self)
                }),
                ProcessPoll::StillRunning => *old(self),
                ProcessPoll::CheckFailed(e) => (SshTunnelManager {
                    status: TunnelStatus::Error(e),
                    process_running: false,
                    ..*old(self)
                }),
            }),
            old(self).process_running ==> r == (poll matches ProcessPoll::StillRunning),
    {
        if !self.process_running {
            return false;
        }
        match poll {
            ProcessPoll::Exited => {
                self.process_running = false;
                self.status = TunnelStatus::Stopped;
                false
            },
            ProcessPoll::StillRunning => true,
            ProcessPoll::CheckFailed(e) => {
                self.process_running = false;
                self.status = TunnelStatus::Error(e);
                false
            },
        }
    }

    /// Renders the equivalent command line for display; `None` when no
    /// enabled configuration exists.
    pub fn get_command_string(&self) -> (r: Option<String>)
        ensures
            match r {
                Some(s) => self.config matches Some(c) && c.enabled && s@ == spec_command_string(
                    c,
                    self.port,
                ),
                None => self.config is None || (self.config matches Some(c) && !c.enabled),
            },
    {
        let c = match &self.config {
            Some(c) => c,
            None => {
                return None;
            },
        };
        if !c.enabled {
            return None;
        }
        let mut s: String = "ssh -R ".to_owned();
        let fw = format_forward_spec(c, self.port);
        s.append(fw.as_str());
        match &c.ssh_key_path {
            Some(key) => {
                s.append(" -i ");
                s.append(key.as_str());
            },
            None => {},
        }
        s.append(" ");
        let dest = format_destination(c);
        s.append(dest.as_str());
        proof {
            assert(s@ =~= spec_command_string(*c, self.port));
        }
        Some(s)
    }
}

/// Renders the reverse-forward specification `remote:localhost:local`.
fn format_forward_spec(config: &SshTunnelConfig, local_port: u16) -> (r: String)
    ensures
        r@ == spec_forward_spec(*config, local_port),
{
    let remote = if config.remote_port > 0 {
        config.remote_port
    } else {
        local_port
    };
    let mut s = u64_to_string(remote as u64);
    s.append(":localhost:");
    let lp = u64_to_string(local_port as u64);
    s.append(lp.as_str());
    proof {
        assert(s@ =~= spec_forward_spec(*config, local_port));
    }
    s
}

/// Renders the login destination `user@host`.
fn format_destination(config: &SshTunnelConfig) -> (r: String)
    ensures
        r@ == spec_destination(*config),
{
    let mut s = config.remote_user.clone();
    s.append("@");
    s.append(config.remote_host.as_str());
    proof {
        assert(s@ =~= spec_destination(*config));
    }
    s
}

/// Builds the subprocess argument list.
fn build_ssh_args(config: &SshTunnelConfig, local_port: u16) -> (r: Vec<String>)
    ensures
        str_views(r@) == spec_ssh_args(*config, local_port),
{
    let mut args: Vec<String> = Vec::new();
    args.push("-R".to_owned());
    args.push(format_forward_spec(config, local_port));
    match &config.ssh_key_path {
        Some(key) => {
            args.push("-i".to_owned());
            args.push(key.clone());
        },
        None => {},
    }
    args.push("-N".to_owned());
    args.push("-T".to_owned());
    args.push("-o".to_owned());
    args.push("ServerAliveInterval=60".to_owned());
    args.push("-o".to_owned());
    args.push("ServerAliveCountMax=3".to_owned());
    args.push("-o".to_owned());
    args.push("ExitOnForwardFailure=yes".to_owned());
    args.push("-vvv".to_owned());
    args.push(format_destination(config));
    proof {
        assert(str_views(args@) =~= spec_ssh_args(*config, local_port));
    }
    args
}

/// Law (deliberate stop versus crash). `stop` records `Stopped` before the
/// subprocess is terminated, so the stream-end observation that follows the
/// kill finds `Stopped` and keeps it — a deliberate stop is never misread
/// as a failure. By contrast, the stream ending while the tunnel is
/// `Running` — the subprocess dying on its own — leaves an error status.
pub proof fn lemma_stop_vs_crash(s: TunnelStatusView)
    ensures
        spec_after_stream_closed(TunnelStatusView::Stopped) == TunnelStatusView::Stopped,
        s == TunnelStatusView::Running ==> spec_after_stream_closed(s) matches
            TunnelStatusView::Error(_),
{
}

} // verus!
