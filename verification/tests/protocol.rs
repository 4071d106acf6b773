use tjaele::error::{FaultKind, SessionError};
use tjaele::protocol::{render_chain, route, Route, SnapshotResponse};

#[test]
fn only_get_gpustate_is_served() {
    assert_eq!(route("GET", "/gpustate"), Route::GpuState);
    assert_eq!(route("POST", "/gpustate"), Route::NotFound);
    assert_eq!(route("GET", "/"), Route::NotFound);
    assert_eq!(route("GET", "/gpustate/"), Route::NotFound);
    assert_eq!(route("get", "/gpustate"), Route::NotFound);
    assert_eq!(route("", ""), Route::NotFound);
}

#[test]
fn not_found_has_an_empty_body() {
    let response = SnapshotResponse::not_found();
    assert_eq!(response.status, 404);
    assert_eq!(response.body, "");
}

#[test]
fn snapshot_is_answered_with_its_encoding() {
    let response = SnapshotResponse::for_outcome(Ok("{\"fan_curve\":[]}".to_string()));
    assert_eq!(response.status, 200);
    assert_eq!(response.body, "{\"fan_curve\":[]}");
}

#[test]
fn failed_read_is_answered_with_the_numbered_chain() {
    let error = SessionError::new(FaultKind::Device, "the GPU is lost")
        .context("Failed to read GPU temperature");
    let response = SnapshotResponse::for_outcome(Err(error));
    assert_eq!(response.status, 500);
    assert_eq!(
        response.body,
        "Error chain:\n[0]: Failed to read GPU temperature\n[1]: the GPU is lost\n"
    );
    assert!(response.body.lines().any(|line| line.starts_with("[0]: ")));
}

#[test]
fn context_goes_in_front_of_the_chain() {
    let error = SessionError::new(FaultKind::Device, "inner");
    assert_eq!(error.kind, FaultKind::Device);
    assert_eq!(error.chain, vec!["inner".to_string()]);
    let wrapped = error.context("middle").context("outer");
    assert_eq!(wrapped.kind, FaultKind::Device);
    assert_eq!(
        wrapped.chain,
        vec!["outer".to_string(), "middle".to_string(), "inner".to_string()]
    );
}

#[test]
fn places_are_written_in_decimal() {
    let mut error = SessionError::new(FaultKind::Worker, "cause 0");
    for i in 1..12 {
        error = error.context(&format!("cause {}", i));
    }
    let report = render_chain(&error);
    let lines: Vec<&str> = report.lines().collect();
    assert_eq!(lines.len(), 13);
    assert_eq!(lines[0], "Error chain:");
    assert_eq!(lines[1], "[0]: cause 11");
    assert_eq!(lines[10], "[9]: cause 2");
    assert_eq!(lines[11], "[10]: cause 1");
    assert_eq!(lines[12], "[11]: cause 0");
    assert!(report.ends_with('\n'));
}

#[test]
fn report_of_an_empty_chain_is_the_heading() {
    let error = SessionError { kind: FaultKind::Device, chain: vec![] };
    assert_eq!(render_chain(&error), "Error chain:\n");
    assert_eq!(SnapshotResponse::failure(&error).status, 500);
}
