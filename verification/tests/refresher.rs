use firewall_sidecar::error::SidecarError;
use firewall_sidecar::refresher::{refresh_ip_lists, refresh_verdict, RefreshReport};

fn exited(code: Option<i32>, stderr: &[u8]) -> RefreshReport {
    RefreshReport::Exited { code, stderr: stderr.to_vec() }
}

#[test]
fn exit_code_zero_is_success() {
    let report = exited(Some(0), b"");
    assert!(report.succeeded());
    assert_eq!(refresh_ip_lists(&report), Ok("IP lists updated successfully".to_string()));
}

#[test]
fn success_ignores_the_error_stream() {
    let report = exited(Some(0), b"warning: slow mirror");
    assert!(report.succeeded());
    assert_eq!(refresh_ip_lists(&report), Ok("IP lists updated successfully".to_string()));
}

#[test]
fn nonzero_exit_code_is_failure_with_error_stream_as_detail() {
    let report = exited(Some(1), b"boom");
    assert!(!report.succeeded());
    let outcome = refresh_ip_lists(&report);
    assert_eq!(outcome, Err(SidecarError::IPRefreshFailure("IP puller failed: boom".to_string())));
    assert_eq!(outcome.unwrap_err().message(), "IP puller failed: boom");
}

#[test]
fn every_nonzero_exit_code_is_failure() {
    for code in [1, 2, 127, 255, -1, i32::MIN, i32::MAX] {
        let report = exited(Some(code), b"x");
        assert!(!report.succeeded());
        assert_eq!(
            refresh_ip_lists(&report),
            Err(SidecarError::IPRefreshFailure("IP puller failed: x".to_string()))
        );
    }
}

#[test]
fn missing_exit_code_is_failure() {
    let report = exited(None, b"killed");
    assert!(!report.succeeded());
    assert_eq!(
        refresh_ip_lists(&report),
        Err(SidecarError::IPRefreshFailure("IP puller failed: killed".to_string()))
    );
}

#[test]
fn tool_that_did_not_run_is_failure_with_its_reason() {
    let report = RefreshReport::NotRun { reason: "No such file or directory".to_string() };
    assert!(!report.succeeded());
    assert_eq!(report.detail(), "No such file or directory");
    let outcome = refresh_ip_lists(&report);
    assert_eq!(
        outcome,
        Err(SidecarError::IPRefreshFailure(
            "Failed to execute IP puller: No such file or directory".to_string()
        ))
    );
    assert_eq!(
        outcome.unwrap_err().message(),
        "Failed to execute IP puller: No such file or directory"
    );
}

#[test]
fn tool_that_did_not_run_for_no_stated_reason() {
    let report = RefreshReport::NotRun { reason: String::new() };
    assert_eq!(
        refresh_ip_lists(&report).unwrap_err().message(),
        "Failed to execute IP puller: "
    );
}

#[test]
fn startup_passes_the_launch_error_on_as_it_is() {
    let report = RefreshReport::NotRun { reason: "No such file or directory".to_string() };
    assert_eq!(
        report.startup_failure(),
        SidecarError::IPRefreshFailure("No such file or directory".to_string())
    );
    assert_eq!(report.startup_failure().message(), "No such file or directory");
}

#[test]
fn startup_reports_the_error_stream_of_a_tool_that_failed() {
    let report = exited(Some(1), b"boom");
    assert_eq!(
        report.startup_failure(),
        SidecarError::IPRefreshFailure("IP puller failed: boom".to_string())
    );
    let garbled = exited(None, &[0xff]);
    assert_eq!(garbled.startup_failure().message(), "IP puller failed: \u{fffd}");
}

#[test]
fn error_stream_is_read_as_utf8() {
    let report = exited(Some(3), "échec réseau\n".as_bytes());
    assert_eq!(report.detail(), "échec réseau\n");
    assert_eq!(
        refresh_ip_lists(&report),
        Err(SidecarError::IPRefreshFailure("IP puller failed: échec réseau\n".to_string()))
    );
}

#[test]
fn invalid_bytes_in_error_stream_are_replaced() {
    let report = exited(Some(1), &[b'a', 0xff, b'b']);
    assert_eq!(report.detail(), "a\u{fffd}b");
    assert_eq!(
        refresh_ip_lists(&report),
        Err(SidecarError::IPRefreshFailure("IP puller failed: a\u{fffd}b".to_string()))
    );
}

#[test]
fn truncated_sequence_in_error_stream_is_replaced() {
    let report = exited(Some(1), &[0xe6, 0x97]);
    assert_eq!(report.detail(), "\u{fffd}");
}

#[test]
fn empty_error_stream_gives_empty_detail() {
    let report = exited(Some(1), b"");
    assert_eq!(report.detail(), "");
    let outcome = refresh_ip_lists(&report);
    assert_eq!(outcome, Err(SidecarError::IPRefreshFailure("IP puller failed: ".to_string())));
    assert_eq!(outcome.unwrap_err().message(), "IP puller failed: ");
}

#[test]
fn verdict_depends_on_the_code_alone() {
    assert_eq!(
        refresh_verdict(Some(0), "ignored".to_string()),
        Ok("IP lists updated successfully".to_string())
    );
    assert_eq!(
        refresh_verdict(Some(2), "detail".to_string()),
        Err(SidecarError::IPRefreshFailure("IP puller failed: detail".to_string()))
    );
    assert_eq!(
        refresh_verdict(None, "detail".to_string()),
        Err(SidecarError::IPRefreshFailure("IP puller failed: detail".to_string()))
    );
}
