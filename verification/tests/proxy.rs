use gt_trav::backend::proxy::debug_stream::{transfer_one_direction, TransferEvent, TransferState, TransferStep};
use gt_trav::backend::proxy::http_proxy::{
    connect_target, host_and_port, listen_address, session_id_from_bytes, split_at_char, DEFAULT_BUF_SIZE,
};

#[test]
fn split_matches_str_split() {
    for s in ["a:b:c", "", "::", "host", "a:", ":b", "中:文"] {
        let expected: Vec<String> = s.split(':').map(|p| p.to_string()).collect();
        assert_eq!(split_at_char(s, ':'), expected);
    }
}

#[test]
fn connect_target_host_and_port() {
    assert_eq!(connect_target("example.com:443"), ("example.com".to_string(), "443".to_string()));
    assert_eq!(connect_target("a:1:2"), ("a".to_string(), "1".to_string()));
}

#[test]
fn host_header_without_port_uses_80() {
    assert_eq!(host_and_port("example.com"), ("example.com".to_string(), "80".to_string()));
}

#[test]
fn host_header_with_port() {
    assert_eq!(host_and_port("example.com:8080"), ("example.com".to_string(), "8080".to_string()));
}

#[test]
fn host_header_with_many_colons() {
    assert_eq!(host_and_port("a:b:c"), (String::new(), "80".to_string()));
}

#[test]
fn listen_address_joins_with_colon() {
    assert_eq!(listen_address("127.0.0.1", "8080"), "127.0.0.1:8080");
}

#[test]
fn session_id_is_little_endian() {
    let mut bytes = [0u8; 16];
    bytes[0] = 0x01;
    bytes[1] = 0x02;
    bytes[2] = 0x03;
    bytes[3] = 0x04;
    bytes[4] = 0xFF;
    assert_eq!(session_id_from_bytes(&bytes), 0x0403_0201);
    assert_eq!(session_id_from_bytes(&[0xFF; 16]), u32::MAX);
}

#[test]
fn session_ids_come_from_uuid_bytes() {
    let id = uuid::Uuid::from_bytes([0x78, 0x56, 0x34, 0x12, 0, 0, 0x40, 0, 0x80, 0, 0, 0, 0, 0, 0, 0]);
    assert_eq!(session_id_from_bytes(id.as_bytes()), 0x1234_5678);
}

#[test]
fn buffer_size() {
    assert_eq!(DEFAULT_BUF_SIZE, 8192);
}

#[test]
fn transfer_copy_then_shutdown_then_done() {
    let step = transfer_one_direction(TransferState::Running, TransferEvent::Copied { data: b"GET /".to_vec() });
    let state = match step {
        TransferStep::Continue(s) => s,
        other => panic!("unexpected {:?}", other),
    };
    match &state {
        TransferState::ShuttingDown { count, raw } => {
            assert_eq!(*count, 5);
            assert_eq!(raw, "GET /");
        }
        other => panic!("unexpected {:?}", other),
    }
    let state = match transfer_one_direction(state, TransferEvent::ShutdownDone) {
        TransferStep::Continue(s) => s,
        other => panic!("unexpected {:?}", other),
    };
    match transfer_one_direction(state, TransferEvent::CopyFailed) {
        TransferStep::Finished { count, raw } => {
            assert_eq!(count, 5);
            assert_eq!(raw, "GET /");
        }
        other => panic!("unexpected {:?}", other),
    }
}

#[test]
fn transfer_eof_with_text_counts_as_copied() {
    match transfer_one_direction(TransferState::Running, TransferEvent::CopyEof { buffer: "ok".as_bytes().to_vec() }) {
        TransferStep::Continue(TransferState::ShuttingDown { count, raw }) => {
            assert_eq!(count, 2);
            assert_eq!(raw, "ok");
        }
        other => panic!("unexpected {:?}", other),
    }
}

#[test]
fn transfer_eof_with_binary_fails() {
    assert!(matches!(
        transfer_one_direction(TransferState::Running, TransferEvent::CopyEof { buffer: vec![0xFF, 0xFE] }),
        TransferStep::Failed
    ));
}

#[test]
fn transfer_failures() {
    assert!(matches!(transfer_one_direction(TransferState::Running, TransferEvent::CopyFailed), TransferStep::Failed));
    let shutting = TransferState::ShuttingDown { count: 1, raw: "a".to_string() };
    assert!(matches!(transfer_one_direction(shutting, TransferEvent::ShutdownFailed), TransferStep::Failed));
}

#[test]
fn transfer_ignores_events_of_other_states() {
    assert!(matches!(
        transfer_one_direction(TransferState::Running, TransferEvent::ShutdownDone),
        TransferStep::Continue(TransferState::Running)
    ));
}


use gt_trav::backend::proxy::debug_stream::{join_directions, Joined, Progress};

fn ready(n: u64, s: &str) -> Progress {
    Progress::Ready { count: n, raw: s.to_string() }
}

#[test]
fn relay_is_over_when_both_directions_are() {
    match join_directions(ready(3, "abc"), ready(2, "ok")) {
        Joined::Ready { to_server, to_client } => {
            assert_eq!(to_server, (3, "abc".to_string()));
            assert_eq!(to_client, (2, "ok".to_string()));
        }
        other => panic!("unexpected {:?}", other),
    }
    assert!(matches!(join_directions(ready(3, "abc"), Progress::Pending), Joined::Pending));
    assert!(matches!(join_directions(Progress::Pending, ready(1, "a")), Joined::Pending));
}

#[test]
fn relay_failures_come_first() {
    assert!(matches!(join_directions(Progress::Failed, Progress::Failed), Joined::ToServerFailed));
    assert!(matches!(join_directions(Progress::Pending, Progress::Failed), Joined::ToClientFailed));
    assert!(matches!(join_directions(ready(1, "a"), Progress::Failed), Joined::ToClientFailed));
}

use gt_trav::backend::proxy::http_proxy::{request_target, RequestTarget};

#[test]
fn connect_requests_are_tunnelled() {
    match request_target(true, "example.com:443", "ignored") {
        RequestTarget::Tunnel { host, port } => {
            assert_eq!(host, "example.com");
            assert_eq!(port, "443");
        }
        other => panic!("unexpected {:?}", other),
    }
}

#[test]
fn other_requests_go_to_the_host_header() {
    match request_target(false, "/index.html", "example.com") {
        RequestTarget::Plain { host, port } => {
            assert_eq!(host, "example.com");
            assert_eq!(port, "80");
        }
        other => panic!("unexpected {:?}", other),
    }
}
