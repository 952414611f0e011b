//! The tunnel supervisor: start/stop preconditions, diagnostic-stream
//! classification, the startup watchdog, and the stop-versus-crash
//! distinction.

use cunzhi::tunnel::{ProcessPoll, SshTunnelConfig, SshTunnelManager, TunnelStartError};
use cunzhi::types::TunnelStatus;

fn tunnel_config() -> SshTunnelConfig {
    SshTunnelConfig {
        enabled: true,
        auto_start: false,
        remote_host: "relay.example.org".to_string(),
        remote_user: "deploy".to_string(),
        ssh_key_path: None,
        remote_port: 9100,
        verbose_level: 0,
    }
}

#[test]
fn start_without_config_is_refused() {
    let mut t = SshTunnelManager::new(9000);
    match t.start() {
        Err(TunnelStartError::NotConfigured) => {}
        _ => panic!("start must be refused without a configuration"),
    }
    assert!(matches!(t.get_status(), TunnelStatus::Stopped));
}

#[test]
fn start_disabled_is_refused() {
    let mut t = SshTunnelManager::new(9000);
    let mut cfg = tunnel_config();
    cfg.enabled = false;
    t.update_config(Some(cfg));
    match t.start() {
        Err(TunnelStartError::Disabled) => {}
        _ => panic!("start must be refused when disabled"),
    }
}

#[test]
fn start_builds_exact_ssh_arguments() {
    let mut t = SshTunnelManager::new(9000);
    t.update_config(Some(tunnel_config()));
    let cmd = t.start().expect("start should be accepted");
    assert_eq!(cmd.program, "ssh");
    assert_eq!(
        cmd.args,
        vec![
            "-R",
            "9100:localhost:9000",
            "-N",
            "-T",
            "-o",
            "ServerAliveInterval=60",
            "-o",
            "ServerAliveCountMax=3",
            "-o",
            "ExitOnForwardFailure=yes",
            "-vvv",
            "deploy@relay.example.org",
        ]
        .into_iter()
        .map(|s| s.to_string())
        .collect::<Vec<String>>()
    );
    assert!(matches!(t.get_status(), TunnelStatus::Starting));
}

#[test]
fn start_with_key_path_inserts_identity_argument() {
    let mut t = SshTunnelManager::new(9000);
    let mut cfg = tunnel_config();
    cfg.ssh_key_path = Some("/home/u/.ssh/id_ed25519".to_string());
    cfg.remote_port = 0; // falls back to the local port
    t.update_config(Some(cfg));
    let cmd = t.start().unwrap();
    assert_eq!(cmd.args[0], "-R");
    assert_eq!(cmd.args[1], "9000:localhost:9000");
    assert_eq!(cmd.args[2], "-i");
    assert_eq!(cmd.args[3], "/home/u/.ssh/id_ed25519");
}

#[test]
fn start_while_running_is_refused() {
    let mut t = SshTunnelManager::new(9000);
    t.update_config(Some(tunnel_config()));
    t.start().unwrap();
    t.on_spawned();
    t.on_stderr_line("debug1: remote forward success for: listen 9100");
    assert!(matches!(t.get_status(), TunnelStatus::Running));
    match t.start() {
        Err(TunnelStartError::AlreadyRunning) => {}
        _ => panic!("start must be refused while running"),
    }
}

#[test]
fn success_marker_promotes_starting_to_running() {
    let mut t = SshTunnelManager::new(9000);
    t.update_config(Some(tunnel_config()));
    t.start().unwrap();
    t.on_spawned();
    t.on_stderr_line("debug1: forwarding_success");
    assert!(matches!(t.get_status(), TunnelStatus::Running));
}

#[test]
fn fatal_marker_demotes_starting_to_error() {
    let mut t = SshTunnelManager::new(9000);
    t.update_config(Some(tunnel_config()));
    t.start().unwrap();
    t.on_spawned();
    t.on_stderr_line("connect to host relay.example.org port 22: Connection refused");
    match t.get_status() {
        TunnelStatus::Error(e) => assert_eq!(e, "tunnel establishment failed"),
        other => panic!("status {:?}", other),
    }
}

#[test]
fn unclassified_lines_change_nothing() {
    let mut t = SshTunnelManager::new(9000);
    t.update_config(Some(tunnel_config()));
    t.start().unwrap();
    t.on_stderr_line("debug3: channel 0: open confirm rwindow 2097152");
    assert!(matches!(t.get_status(), TunnelStatus::Starting));
}

#[test]
fn startup_timeout_yields_error_not_running() {
    let mut t = SshTunnelManager::new(9000);
    t.update_config(Some(tunnel_config()));
    t.start().unwrap();
    t.on_spawned();
    // the subprocess never emits a success or fatal-error line
    t.on_startup_timeout();
    match t.get_status() {
        TunnelStatus::Error(e) => assert_eq!(e, "startup timeout"),
        other => panic!("status {:?}", other),
    }
}

#[test]
fn startup_timeout_after_success_is_a_noop() {
    let mut t = SshTunnelManager::new(9000);
    t.update_config(Some(tunnel_config()));
    t.start().unwrap();
    t.on_spawned();
    t.on_stderr_line("forwarding_success");
    t.on_startup_timeout();
    assert!(matches!(t.get_status(), TunnelStatus::Running));
}

#[test]
fn deliberate_stop_is_not_misread_as_crash() {
    let mut t = SshTunnelManager::new(9000);
    t.update_config(Some(tunnel_config()));
    t.start().unwrap();
    t.on_spawned();
    t.on_stderr_line("remote forward success");
    // stop records Stopped before the caller kills the subprocess ...
    let had_process = t.stop();
    assert!(had_process);
    assert!(matches!(t.get_status(), TunnelStatus::Stopped));
    // ... so the stream ending afterwards keeps Stopped
    t.on_stream_closed();
    assert!(matches!(t.get_status(), TunnelStatus::Stopped));
}

#[test]
fn crash_while_running_is_an_error() {
    let mut t = SshTunnelManager::new(9000);
    t.update_config(Some(tunnel_config()));
    t.start().unwrap();
    t.on_spawned();
    t.on_stderr_line("remote forward success");
    // the subprocess dies on its own: its stream ends while Running
    t.on_stream_closed();
    match t.get_status() {
        TunnelStatus::Error(e) => assert_eq!(e, "connection lost"),
        other => panic!("status {:?}", other),
    }
}

#[test]
fn stop_is_idempotent() {
    let mut t = SshTunnelManager::new(9000);
    assert!(!t.stop());
    assert!(!t.stop());
    assert!(matches!(t.get_status(), TunnelStatus::Stopped));
}

#[test]
fn poll_observes_exit() {
    let mut t = SshTunnelManager::new(9000);
    t.update_config(Some(tunnel_config()));
    t.start().unwrap();
    t.on_spawned();
    assert!(t.is_running(ProcessPoll::StillRunning));
    assert!(!t.is_running(ProcessPoll::Exited));
    assert!(matches!(t.get_status(), TunnelStatus::Stopped));
    // with no held subprocess the answer is no
    assert!(!t.is_running(ProcessPoll::StillRunning));
}

#[test]
fn command_string_renders_for_display() {
    let mut t = SshTunnelManager::new(9000);
    assert_eq!(t.get_command_string(), None);
    let mut cfg = tunnel_config();
    cfg.ssh_key_path = Some("/k".to_string());
    t.update_config(Some(cfg));
    assert_eq!(
        t.get_command_string(),
        Some("ssh -R 9100:localhost:9000 -i /k deploy@relay.example.org".to_string())
    );
    let mut disabled = tunnel_config();
    disabled.enabled = false;
    t.update_config(Some(disabled));
    assert_eq!(t.get_command_string(), None);
}

#[test]
fn update_port_takes_effect_on_next_start() {
    let mut t = SshTunnelManager::new(9000);
    t.update_config(Some(tunnel_config()));
    t.update_port(9010);
    let cmd = t.start().unwrap();
    assert_eq!(cmd.args[1], "9100:localhost:9010");
}
