use plc_tray::lockfile::read_lock;
use plc_tray::status::{
    auth_header_name, fetch_status, render_status, status_request, status_url, unavailable_message,
    StatusSummary,
};

const VALID_LOCK: &str = "{\"port\": 51234, \"token\": \"abc\"}";

#[test]
fn fetch_status_without_lock_file() {
    assert_eq!(fetch_status(None, None), "Status unavailable");
    assert_eq!(
        fetch_status(None, Some("{\"devicesConnected\": 3}".to_string())),
        "Status unavailable"
    );
}

#[test]
fn fetch_status_full_report() {
    let body = "{\"devicesConnected\": 3, \"defaultDbOk\": true, \"jobsRunning\": 2}";
    let r = fetch_status(Some(VALID_LOCK.to_string()), Some(body.to_string()));
    assert_eq!(r, "Devices: 3\nDefault DB: OK\nJobs running: 2");
}

#[test]
fn fetch_status_storage_not_ok() {
    let body = "{\"devicesConnected\": 3, \"defaultDbOk\": false, \"jobsRunning\": 2}";
    let r = fetch_status(Some(VALID_LOCK.to_string()), Some(body.to_string()));
    assert_eq!(r, "Devices: 3\nDefault DB: Not OK\nJobs running: 2");
}

#[test]
fn fetch_status_agent_unreachable() {
    let r = fetch_status(Some(VALID_LOCK.to_string()), None);
    assert_eq!(r, "Status unavailable");
}

#[test]
fn fetch_status_malformed_response() {
    let lock = Some(VALID_LOCK.to_string());
    assert_eq!(
        fetch_status(lock.clone(), Some("garbage".to_string())),
        "Status unavailable"
    );
    assert_eq!(
        fetch_status(lock.clone(), Some("{\"devicesConnected\": 3}".to_string())),
        "Status unavailable"
    );
    assert_eq!(
        fetch_status(
            lock,
            Some("{\"devicesConnected\": 3, \"defaultDbOk\": 1, \"jobsRunning\": 2}".to_string())
        ),
        "Status unavailable"
    );
}

#[test]
fn fetch_status_repeatable() {
    let body = "{\"devicesConnected\": 9, \"defaultDbOk\": true, \"jobsRunning\": 0}";
    let first = fetch_status(Some(VALID_LOCK.to_string()), Some(body.to_string()));
    let second = fetch_status(Some(VALID_LOCK.to_string()), Some(body.to_string()));
    assert_eq!(first, second);
    let third = fetch_status(Some(VALID_LOCK.to_string()), None);
    let fourth = fetch_status(Some(VALID_LOCK.to_string()), None);
    assert_eq!(third, fourth);
}

#[test]
fn render_status_zero_counts() {
    let s = StatusSummary { devices_connected: 0, default_db_ok: true, jobs_running: 0 };
    assert_eq!(render_status(&s), "Devices: 0\nDefault DB: OK\nJobs running: 0");
}

#[test]
fn render_status_large_counts() {
    let s = StatusSummary {
        devices_connected: 18446744073709551615,
        default_db_ok: false,
        jobs_running: 10,
    };
    assert_eq!(
        render_status(&s),
        "Devices: 18446744073709551615\nDefault DB: Not OK\nJobs running: 10"
    );
}

#[test]
fn status_url_exact() {
    assert_eq!(status_url(51234), "http://127.0.0.1:51234/system/summary");
    assert_eq!(status_url(1), "http://127.0.0.1:1/system/summary");
}

#[test]
fn status_request_attaches_token_only_when_non_empty() {
    let with_token = read_lock(Some(VALID_LOCK.to_string())).unwrap();
    let r = status_request(&with_token);
    assert_eq!(r.url, "http://127.0.0.1:51234/system/summary");
    assert_eq!(r.header_token.as_deref(), Some("abc"));

    let without_token = read_lock(Some("{\"port\": 51234}".to_string())).unwrap();
    let r = status_request(&without_token);
    assert_eq!(r.url, "http://127.0.0.1:51234/system/summary");
    assert!(r.header_token.is_none());
}

#[test]
fn auth_header_name_exact() {
    assert_eq!(auth_header_name(), "X-Agent-Token");
}

#[test]
fn unavailable_message_exact() {
    assert_eq!(unavailable_message(), "Status unavailable");
}
