use inference_core::cli::{
    accept_header, exit_code, failure_exit_code, health_line, request_outcome, resolve_socket,
    CliOutcome, HealthBody, SocketError, SocketPath,
};
use inference_core::wire::{RequestHeaders, Wire};

fn s(v: &str) -> Option<String> {
    Some(v.to_string())
}

#[test]
fn socket_flag_wins_over_setting_and_home() {
    assert_eq!(
        resolve_socket(Some(std::path::PathBuf::from("/a.sock")), s("/b.sock"), s("/home/u")).unwrap(),
        SocketPath::Given(std::path::PathBuf::from("/a.sock"))
    );
}

#[test]
fn socket_setting_wins_over_home() {
    assert_eq!(
        resolve_socket::<String>(None, s("/b.sock"), s("/home/u")).unwrap(),
        SocketPath::Named("/b.sock".to_string())
    );
}

#[test]
fn socket_defaults_under_home() {
    assert_eq!(
        resolve_socket::<String>(None, None, s("/Users/me")).unwrap(),
        SocketPath::Named("/Users/me/Library/Application Support/app/sidecar.sock".to_string())
    );
}

#[test]
fn socket_without_home_fails() {
    let e = resolve_socket::<String>(None, None, None).unwrap_err();
    assert_eq!(e, SocketError::HomeNotSet);
    assert_eq!(e.message(), "$HOME not set");
}

#[test]
fn accept_header_values() {
    assert_eq!(accept_header(true), "application/msgpack");
    assert_eq!(accept_header(false), "application/json");
}

#[test]
fn client_accept_selects_server_wire() {
    for m in [true, false] {
        let h = RequestHeaders { accept: Some(accept_header(m).to_string()), content_type: None };
        assert_eq!(Wire::from_accept(&h), if m { Wire::MsgPack } else { Wire::Json });
    }
}

#[test]
fn http_failures_map_to_exit_codes() {
    assert_eq!(failure_exit_code(200), None);
    assert_eq!(failure_exit_code(204), None);
    assert_eq!(failure_exit_code(404), Some(3));
    assert_eq!(failure_exit_code(413), Some(3));
    assert_eq!(failure_exit_code(500), Some(4));
    assert_eq!(failure_exit_code(503), Some(4));
    assert_eq!(failure_exit_code(301), Some(4));
}

#[test]
fn health_line_format() {
    let h = HealthBody {
        status: "ok".to_string(),
        version: "0.0.1".to_string(),
        uptime_ms: 12345,
        stt_ready: true,
    };
    assert_eq!(health_line(&h), "status=ok  version=0.0.1  uptime_ms=12345  stt_ready=true");
    let h2 = HealthBody { stt_ready: false, uptime_ms: 0, ..h };
    assert_eq!(health_line(&h2), "status=ok  version=0.0.1  uptime_ms=0  stt_ready=false");
}

#[test]
fn exit_codes_of_outcomes() {
    assert_eq!(exit_code(CliOutcome::SocketUnresolved), 2);
    assert_eq!(exit_code(CliOutcome::SocketMissing), 2);
    assert_eq!(exit_code(CliOutcome::Unreachable), 2);
    assert_eq!(exit_code(CliOutcome::NotImplemented), 1);
    assert_eq!(exit_code(CliOutcome::Finished(0)), 0);
    assert_eq!(exit_code(CliOutcome::Finished(3)), 3);
    assert_eq!(exit_code(CliOutcome::Finished(260)), 4);
    assert_eq!(exit_code(CliOutcome::Failed), 4);
}

#[test]
fn unreachable_sidecar_exits_2() {
    let o = request_outcome(None).unwrap();
    assert_eq!(o, CliOutcome::Unreachable);
    assert_eq!(exit_code(o), 2);
}

#[test]
fn request_outcomes_by_status() {
    assert_eq!(request_outcome(Some(200)), None);
    assert_eq!(request_outcome(Some(404)), Some(CliOutcome::Finished(3)));
    assert_eq!(request_outcome(Some(503)), Some(CliOutcome::Finished(4)));
}
