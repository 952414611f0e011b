//! Supporting pieces: command-line dispatch, the approval-executor
//! boundary, and string rendering.

use cunzhi::approval::{
    approval_reply_frame, choose_approval_route, encode_approval_request, executor_outcome,
    prepare_approval_run, ApprovalRoute,
};
use cunzhi::client::max_retries_decision;
use cunzhi::cli::{parse_cli, CliCommand};
use cunzhi::strfmt::{format_addr, format_duration, str_contains, u64_to_string};

fn args(list: &[&str]) -> Vec<String> {
    list.iter().map(|s| s.to_string()).collect()
}

#[test]
fn cli_no_arguments_runs_the_gui() {
    assert!(matches!(parse_cli(&args(&["prog"])), CliCommand::RunGui));
}

#[test]
fn cli_help_and_version() {
    assert!(matches!(parse_cli(&args(&["prog", "--help"])), CliCommand::Help));
    assert!(matches!(parse_cli(&args(&["prog", "-h"])), CliCommand::Help));
    assert!(matches!(parse_cli(&args(&["prog", "--version"])), CliCommand::Version));
    assert!(matches!(parse_cli(&args(&["prog", "-v"])), CliCommand::Version));
}

#[test]
fn cli_unknown_option_is_reported() {
    match parse_cli(&args(&["prog", "--frobnicate"])) {
        CliCommand::UnknownOption(o) => assert_eq!(o, "--frobnicate"),
        _ => panic!("expected an unknown option"),
    }
}

#[test]
fn cli_request_and_client_modes() {
    match parse_cli(&args(&["prog", "--mcp-request", "/tmp/req.json"])) {
        CliCommand::McpRequest(p) => assert_eq!(p, "/tmp/req.json"),
        _ => panic!("expected the request mode"),
    }
    match parse_cli(&args(&["prog", "--ws-client", "ws://10.0.0.5:9000"])) {
        CliCommand::WsClientMode(u) => assert_eq!(u, "ws://10.0.0.5:9000"),
        _ => panic!("expected the client mode"),
    }
    assert!(matches!(
        parse_cli(&args(&["prog", "--mcp-request"])),
        CliCommand::UnknownOption(_)
    ));
    assert!(matches!(
        parse_cli(&args(&["prog", "a", "b"])),
        CliCommand::Invalid
    ));
}

#[test]
fn executor_success_returns_trimmed_output() {
    assert_eq!(
        executor_outcome(true, "continue with step 2".to_string(), String::new()),
        Ok("continue with step 2".to_string())
    );
}

#[test]
fn executor_empty_output_means_cancelled() {
    assert_eq!(
        executor_outcome(true, String::new(), String::new()),
        Ok("user cancelled the operation".to_string())
    );
}

#[test]
fn executor_failure_carries_stderr() {
    assert_eq!(
        executor_outcome(false, String::new(), "no display found".to_string()),
        Err("no display found".to_string())
    );
}

#[test]
fn approval_request_document_fields() {
    let doc = encode_approval_request(
        "r-1",
        "may I deploy?",
        &Some(vec!["yes".to_string(), "no".to_string()]),
        true,
    );
    let v: serde_json::Value = serde_json::from_str(&doc).unwrap();
    assert_eq!(v["id"].as_str(), Some("r-1"));
    assert_eq!(v["message"].as_str(), Some("may I deploy?"));
    assert_eq!(v["predefined_options"][0].as_str(), Some("yes"));
    assert_eq!(v["predefined_options"][1].as_str(), Some("no"));
    assert_eq!(v["is_markdown"].as_bool(), Some(true));
    let bare = encode_approval_request("r-2", "m", &None, false);
    let v: serde_json::Value = serde_json::from_str(&bare).unwrap();
    assert!(v["predefined_options"].is_null());
}

#[test]
fn approval_run_preparation() {
    let run = prepare_approval_run("r-7", "m", &None, false);
    assert_eq!(run.file_name, "mcp_request_r-7.json");
    let v: serde_json::Value = serde_json::from_str(&run.document).unwrap();
    assert_eq!(v["id"].as_str(), Some("r-7"));
}

#[test]
fn approval_reply_is_a_correlated_response_frame() {
    let frame = approval_reply_frame("r-7", true, "go ahead".to_string(), String::new()).unwrap();
    let v: serde_json::Value = serde_json::from_str(&frame).unwrap();
    assert_eq!(v["type"].as_str(), Some("popup_response"));
    assert_eq!(v["request_id"].as_str(), Some("r-7"));
    assert_eq!(v["response"].as_str(), Some("go ahead"));
    let cancelled = approval_reply_frame("r-8", true, String::new(), String::new()).unwrap();
    let v: serde_json::Value = serde_json::from_str(&cancelled).unwrap();
    assert_eq!(v["response"].as_str(), Some("user cancelled the operation"));
    assert_eq!(
        approval_reply_frame("r-9", false, String::new(), "boom".to_string()),
        Err("boom".to_string())
    );
}

#[test]
fn decimal_rendering() {
    assert_eq!(u64_to_string(0), "0");
    assert_eq!(u64_to_string(7), "7");
    assert_eq!(u64_to_string(90), "90");
    assert_eq!(u64_to_string(10203), "10203");
    assert_eq!(u64_to_string(u64::MAX), "18446744073709551615");
}

#[test]
fn address_rendering() {
    assert_eq!(format_addr("127.0.0.1", 9000), "127.0.0.1:9000");
}

#[test]
fn duration_rendering() {
    assert_eq!(format_duration(0), "0s");
    assert_eq!(format_duration(59), "59s");
    assert_eq!(format_duration(60), "1m0s");
    assert_eq!(format_duration(125), "2m5s");
    assert_eq!(format_duration(3600), "1h0m");
    assert_eq!(format_duration(3725), "1h2m");
}

#[test]
fn substring_search() {
    assert!(str_contains("remote forward success for listen", "forward success"));
    assert!(!str_contains("remote forward", "forward success"));
    assert!(str_contains("anything", ""));
    assert!(!str_contains("", "x"));
    assert!(str_contains("abc", "abc"));
}

#[test]
fn approval_routing_prefers_the_hub() {
    assert_eq!(choose_approval_route(true, true), ApprovalRoute::ViaHub);
    assert_eq!(choose_approval_route(true, false), ApprovalRoute::ViaLocalExecutor);
    assert_eq!(choose_approval_route(false, true), ApprovalRoute::ViaLocalExecutor);
    assert_eq!(choose_approval_route(false, false), ApprovalRoute::ViaLocalExecutor);
}

#[test]
fn retry_limit_reads_the_raw_value() {
    assert_eq!(max_retries_decision(&None, 3), 3);
    assert_eq!(max_retries_decision(&Some("infinite".to_string()), 3), u64::MAX);
    assert_eq!(max_retries_decision(&Some("\u{221E}".to_string()), 3), u64::MAX);
    assert_eq!(max_retries_decision(&Some("42".to_string()), 3), 42);
    assert_eq!(max_retries_decision(&Some("0".to_string()), 3), 0);
    assert_eq!(
        max_retries_decision(&Some("18446744073709551615".to_string()), 3),
        u64::MAX
    );
    // not a number, empty, or too large: the platform default
    assert_eq!(max_retries_decision(&Some("many".to_string()), 3), 3);
    assert_eq!(max_retries_decision(&Some(String::new()), 3), 3);
    assert_eq!(max_retries_decision(&Some("-1".to_string()), 3), 3);
    assert_eq!(
        max_retries_decision(&Some("99999999999999999999".to_string()), 3),
        3
    );
}
