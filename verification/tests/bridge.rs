use jj_bridge::args::{describe_args, log_args, log_template, resolve_repo_path, screenshot_args};
use jj_bridge::errors::BridgeError;
use jj_bridge::logline::{parse_log, parse_log_line};
use jj_bridge::outcome::{describe_outcome, log_outcome, screenshot_outcome, ProcessResult};
use jj_bridge::screenshot::{screenshot_path, u64_to_dec};
use jj_bridge::split::split_on;

fn result(success: bool, stdout: &[u8], stderr: &[u8]) -> ProcessResult {
    ProcessResult { success, stdout: stdout.to_vec(), stderr: stderr.to_vec() }
}

#[test]
fn template_has_six_field_separators() {
    let separators = log_template().matches("\"|\"").count();
    assert_eq!(separators, 6);
}

#[test]
fn log_args_include_scoped_path() {
    let v = log_args("/repo");
    assert_eq!(
        v,
        vec![
            "log".to_string(),
            "--no-graph".to_string(),
            "--color=never".to_string(),
            "-T".to_string(),
            log_template().to_string(),
            "-R".to_string(),
            "/repo".to_string(),
        ]
    );
    let r_flag = v.iter().position(|a| a == "-R").unwrap();
    assert_eq!(v[r_flag + 1], "/repo");
}

#[test]
fn describe_args_exact_vector() {
    let v = describe_args("@", "test", "/repo");
    assert_eq!(
        v,
        vec![
            "describe".to_string(),
            "@".to_string(),
            "-m".to_string(),
            "test".to_string(),
            "-R".to_string(),
            "/repo".to_string(),
        ]
    );
}

#[test]
fn describe_args_keep_message_boundaries() {
    let v = describe_args("@", "two words, \"quoted\"", "/repo");
    assert_eq!(v.len(), 6);
    assert_eq!(v[3], "two words, \"quoted\"");
}

#[test]
fn screenshot_args_exact_vector() {
    let v = screenshot_args("/tmp/shot.png");
    assert_eq!(v, vec!["-w".to_string(), "-o".to_string(), "/tmp/shot.png".to_string()]);
}

#[test]
fn explicit_repo_path_wins() {
    let r = resolve_repo_path(
        Some("/repo".to_string()),
        Some("/home/u".to_string()),
        "/work".to_string(),
    );
    assert_eq!(r, "/repo");
}

#[test]
fn home_is_the_first_fallback() {
    let r = resolve_repo_path(None, Some("/home/u".to_string()), "/work".to_string());
    assert_eq!(r, "/home/u");
}

#[test]
fn current_dir_is_the_last_fallback() {
    let r = resolve_repo_path(None, None, "/work".to_string());
    assert_eq!(r, "/work");
}

#[test]
fn failed_log_carries_stderr_never_stdout() {
    let r = log_outcome(result(false, b"stdout text", b"boom"));
    assert_eq!(r, Err(BridgeError::ExternalTool("boom".to_string())));
}

#[test]
fn failed_log_decodes_stderr_lossily() {
    let r = log_outcome(result(false, b"", b"bad \xff byte"));
    assert_eq!(r, Err(BridgeError::ExternalTool("bad \u{FFFD} byte".to_string())));
}

#[test]
fn successful_log_returns_stdout() {
    let r = log_outcome(result(true, "h\u{e9}llo".as_bytes(), b"ignored"));
    assert_eq!(r, Ok("h\u{e9}llo".to_string()));
}

#[test]
fn successful_log_with_no_commits_is_empty() {
    let r = log_outcome(result(true, b"", b""));
    assert_eq!(r, Ok(String::new()));
}

#[test]
fn invalid_stdout_is_a_decode_error() {
    let r = log_outcome(result(true, b"\xff\xfe", b""));
    assert!(matches!(r, Err(BridgeError::Decode(_))));
}

#[test]
fn successful_describe_returns_stdout_lossily() {
    let r = describe_outcome(result(true, b"done \xff", b""));
    assert_eq!(r, Ok("done \u{FFFD}".to_string()));
}

#[test]
fn failed_describe_carries_stderr() {
    let r = describe_outcome(result(false, b"out", b"no such revision"));
    assert_eq!(r, Err(BridgeError::ExternalTool("no such revision".to_string())));
}

#[test]
fn successful_screenshot_returns_the_path() {
    let path = screenshot_path(5);
    let r = screenshot_outcome(result(true, b"", b""), path.clone());
    assert_eq!(r, Ok(path));
}

#[test]
fn failed_screenshot_carries_stderr() {
    let path = screenshot_path(5);
    let r = screenshot_outcome(result(false, b"", b"cancelled"), path);
    assert_eq!(r, Err(BridgeError::ExternalTool("cancelled".to_string())));
}

#[test]
fn screenshot_path_is_built_from_the_second() {
    assert_eq!(screenshot_path(5), "/tmp/jj-gui-screenshot-5.png");
    assert_eq!(screenshot_path(1700000000), "/tmp/jj-gui-screenshot-1700000000.png");
}

#[test]
fn same_second_gives_identical_paths() {
    let ts: u64 = 1700000001;
    assert_eq!(screenshot_path(ts), screenshot_path(ts));
}

#[test]
fn decimal_rendering_is_exact() {
    assert_eq!(u64_to_dec(0), "0");
    assert_eq!(u64_to_dec(10), "10");
    assert_eq!(u64_to_dec(1234567890), "1234567890");
    assert_eq!(u64_to_dec(u64::MAX), "18446744073709551615");
}

#[test]
fn split_keeps_empty_fields() {
    assert_eq!(split_on("a|b|", '|'), vec!["a".to_string(), "b".to_string(), String::new()]);
    assert_eq!(split_on("", '|'), vec![String::new()]);
    assert_eq!(split_on("x", '|'), vec!["x".to_string()]);
    assert_eq!(split_on("||", '|'), vec![String::new(), String::new(), String::new()]);
}

#[test]
fn parse_line_with_seven_fields() {
    let l = parse_log_line("abc12345|main dev|a@b.c|2024-01-01|first line|working|").unwrap();
    assert_eq!(l.change_id, "abc12345");
    assert_eq!(l.bookmarks, "main dev");
    assert_eq!(l.author, "a@b.c");
    assert_eq!(l.date, "2024-01-01");
    assert_eq!(l.description, "first line");
    assert_eq!(l.working, "working");
    assert_eq!(l.immutable, "");
}

#[test]
fn parse_line_with_wrong_field_count_fails() {
    assert!(parse_log_line("only|six|fields|in|this|line").is_none());
    assert!(parse_log_line("").is_none());
}

#[test]
fn empty_log_maps_to_no_records() {
    let records = parse_log("").unwrap();
    assert!(records.is_empty());
}

#[test]
fn parse_log_reads_newline_terminated_records() {
    let text = "abc|main|a@b|2024-01-01|one|working|\nxyz|||2024-01-02|two||immutable\n";
    let records = parse_log(text).unwrap();
    assert_eq!(records.len(), 2);
    assert_eq!(records[0].change_id, "abc");
    assert_eq!(records[0].working, "working");
    assert_eq!(records[1].change_id, "xyz");
    assert_eq!(records[1].bookmarks, "");
    assert_eq!(records[1].immutable, "immutable");
}

#[test]
fn parse_log_rejects_a_malformed_line() {
    assert!(parse_log("abc|main|a@b|2024-01-01|one|working|\nbroken line\n").is_none());
}

#[test]
fn error_text_is_surfaced_verbatim() {
    assert_eq!(BridgeError::ExternalTool("a".to_string()).text(), "a");
    assert_eq!(BridgeError::Spawn("b".to_string()).text(), "b");
    assert_eq!(BridgeError::Decode("c".to_string()).text(), "c");
    assert_eq!(BridgeError::Clock("d".to_string()).text(), "d");
}
