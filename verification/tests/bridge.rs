use tauri_mcp::bridge::{
    begin, settle, wait_step, Expiry, PendingTable, RegisterError, Settlement, WaitEnd, WaitEvent,
};
use tauri_mcp::error::McpError;
use tauri_mcp::json::Json;
use tauri_mcp::response::SocketResponse;
use tauri_mcp::webview::{BridgeCommand, BridgeRequest, Reply, WaitFailure};

fn request(command: BridgeCommand, label: &str) -> BridgeRequest {
    BridgeRequest { command, window_label: label.to_string(), body: Json::Null }
}

#[test]
fn new_table_is_empty() {
    let t = PendingTable::new();
    assert_eq!(t.len(), 0);
    assert!(!t.is_pending("k"));
    assert_eq!(t.waiting("k"), None);
}

#[test]
fn register_gives_increasing_tickets() {
    let mut t = PendingTable::new();
    assert_eq!(t.register("a", 100, 5000), Ok(0));
    assert_eq!(t.register("b", 200, 30000), Ok(1));
    assert_eq!(t.len(), 2);
    assert!(t.is_pending("a"));
    assert!(t.is_pending("b"));
    assert_eq!(t.waiting("a"), Some((0, 5100)));
    assert_eq!(t.waiting("b"), Some((1, 30200)));
}

#[test]
fn second_request_under_busy_key_is_refused() {
    let mut t = PendingTable::new();
    assert_eq!(t.register("a", 100, 5000), Ok(0));
    assert_eq!(t.register("a", 150, 5000), Err(RegisterError::KeyBusy));
    assert_eq!(t.len(), 1);
    assert_eq!(t.waiting("a"), Some((0, 5100)));
}

#[test]
fn deadline_saturates() {
    let mut t = PendingTable::new();
    assert_eq!(t.register("a", u64::MAX - 10, 5000), Ok(0));
    assert_eq!(t.waiting("a"), Some((0, u64::MAX)));
}

#[test]
fn resolve_removes_exactly_once() {
    let mut t = PendingTable::new();
    let ticket = t.register("a", 0, 10).unwrap();
    assert!(t.resolve("a", ticket));
    assert!(!t.is_pending("a"));
    assert!(!t.resolve("a", ticket));
    assert_eq!(t.expire("a", ticket, 1000), Expiry::Gone);
    assert_eq!(t.len(), 0);
}

#[test]
fn resolve_with_wrong_ticket_or_key_changes_nothing() {
    let mut t = PendingTable::new();
    let ticket = t.register("a", 0, 10).unwrap();
    assert!(!t.resolve("a", ticket + 1));
    assert!(!t.resolve("b", ticket));
    assert!(t.is_pending("a"));
    assert_eq!(t.len(), 1);
}

#[test]
fn timeout_comes_at_the_deadline_and_not_before() {
    let mut t = PendingTable::new();
    let ticket = t.register("a", 1000, 5000).unwrap();
    assert_eq!(t.expire("a", ticket, 1000), Expiry::StillWaiting);
    assert_eq!(t.expire("a", ticket, 5999), Expiry::StillWaiting);
    assert!(t.is_pending("a"));
    assert_eq!(t.expire("a", ticket, 6000), Expiry::TimedOut);
    assert!(!t.is_pending("a"));
    assert_eq!(t.expire("a", ticket, 6001), Expiry::Gone);
}

#[test]
fn stale_reply_does_not_touch_a_later_request_under_the_same_key() {
    let mut t = PendingTable::new();
    let first = t.register("evt", 0, 5000).unwrap();
    assert_eq!(t.expire("evt", first, 5000), Expiry::TimedOut);
    let second = t.register("evt", 6000, 5000).unwrap();
    assert_ne!(first, second);
    assert!(!t.resolve("evt", first));
    assert_eq!(t.expire("evt", first, 1_000_000), Expiry::Gone);
    assert_eq!(t.waiting("evt"), Some((second, 11000)));
    assert!(t.resolve("evt", second));
}

#[test]
fn other_keys_are_untouched() {
    let mut t = PendingTable::new();
    let a = t.register("a", 0, 10).unwrap();
    let b = t.register("b", 0, 20).unwrap();
    let c = t.register("c", 0, 30).unwrap();
    assert!(t.resolve("b", b));
    assert_eq!(t.waiting("a"), Some((a, 10)));
    assert_eq!(t.waiting("c"), Some((c, 30)));
    assert_eq!(t.expire("a", a, 10), Expiry::TimedOut);
    assert_eq!(t.waiting("c"), Some((c, 30)));
    assert_eq!(t.len(), 1);
}

#[test]
fn begin_checks_the_window_first() {
    let mut t = PendingTable::new();
    let r = begin(&mut t, &request(BridgeCommand::GetDom, "ghost"), false, 0);
    assert_eq!(r, Err(McpError::TargetNotFound("ghost".to_string())));
    assert_eq!(t.len(), 0);
}

#[test]
fn begin_registers_under_the_reply_event() {
    let mut t = PendingTable::new();
    let r = begin(&mut t, &request(BridgeCommand::GetDom, "main"), true, 1000);
    assert_eq!(r, Ok(0));
    assert_eq!(t.waiting("got-dom-content-response"), Some((0, 6000)));
    let r2 = begin(&mut t, &request(BridgeCommand::SendTextToElement, "main"), true, 1000);
    assert_eq!(r2, Ok(1));
    assert_eq!(t.waiting("send-text-to-element-response"), Some((1, 31000)));
}

#[test]
fn begin_refuses_a_second_request_of_the_same_kind() {
    let mut t = PendingTable::new();
    assert_eq!(begin(&mut t, &request(BridgeCommand::GetDom, "main"), true, 0), Ok(0));
    assert_eq!(
        begin(&mut t, &request(BridgeCommand::GetDom, "other"), true, 1),
        Err(McpError::RequestPending("got-dom-content-response".to_string()))
    );
    assert_eq!(t.len(), 1);
}

#[test]
fn settle_answers_with_the_reply() {
    let mut t = PendingTable::new();
    let ticket = begin(&mut t, &request(BridgeCommand::GetDom, "main"), true, 0).unwrap();
    let event = WaitEvent::Reply { text: "<html/>".to_string(), parsed: Err("x".to_string()) };
    assert_eq!(
        settle(&mut t, BridgeCommand::GetDom, ticket, 10, event),
        Settlement::Answer(SocketResponse::ok(Json::Text("<html/>".to_string())))
    );
    assert_eq!(t.len(), 0);
}

#[test]
fn settle_times_out_at_the_deadline_only() {
    let mut t = PendingTable::new();
    let ticket =
        begin(&mut t, &request(BridgeCommand::GetElementPosition, "main"), true, 100).unwrap();
    assert_eq!(
        settle(&mut t, BridgeCommand::GetElementPosition, ticket, 5099, WaitEvent::Clock),
        Settlement::KeepWaiting
    );
    assert_eq!(t.len(), 1);
    assert_eq!(
        settle(&mut t, BridgeCommand::GetElementPosition, ticket, 5100, WaitEvent::Clock),
        Settlement::Answer(SocketResponse::fail(
            "Timeout waiting for element position result: timed out waiting on channel"
                .to_string()
        ))
    );
    assert_eq!(t.len(), 0);
}

#[test]
fn settle_after_the_answer_is_stale() {
    let mut t = PendingTable::new();
    let ticket = begin(&mut t, &request(BridgeCommand::GetDom, "main"), true, 0).unwrap();
    let first = settle(&mut t, BridgeCommand::GetDom, ticket, 9000, WaitEvent::Clock);
    assert!(matches!(first, Settlement::Answer(_)));
    let late = WaitEvent::Reply { text: "late".to_string(), parsed: Err("x".to_string()) };
    assert_eq!(settle(&mut t, BridgeCommand::GetDom, ticket, 9001, late), Settlement::Stale);
    assert_eq!(
        settle(&mut t, BridgeCommand::GetDom, ticket, 9002, WaitEvent::Clock),
        Settlement::Stale
    );
    assert_eq!(
        settle(&mut t, BridgeCommand::GetDom, ticket, 9003, WaitEvent::SenderGone),
        Settlement::Stale
    );
}

#[test]
fn late_reply_of_a_timed_out_request_leaves_the_next_one_waiting() {
    let mut t = PendingTable::new();
    let first = begin(&mut t, &request(BridgeCommand::GetDom, "main"), true, 0).unwrap();
    assert!(matches!(
        settle(&mut t, BridgeCommand::GetDom, first, 5000, WaitEvent::Clock),
        Settlement::Answer(_)
    ));
    let second = begin(&mut t, &request(BridgeCommand::GetDom, "main"), true, 5001).unwrap();
    let late = WaitEvent::Reply { text: "old".to_string(), parsed: Err("x".to_string()) };
    assert_eq!(settle(&mut t, BridgeCommand::GetDom, first, 5002, late), Settlement::Stale);
    assert_eq!(t.waiting("got-dom-content-response"), Some((second, 10001)));
    let fresh = WaitEvent::Reply { text: "new".to_string(), parsed: Err("x".to_string()) };
    assert_eq!(
        settle(&mut t, BridgeCommand::GetDom, second, 5003, fresh),
        Settlement::Answer(SocketResponse::ok(Json::Text("new".to_string())))
    );
}

#[test]
fn settle_reports_a_vanished_sender() {
    let mut t = PendingTable::new();
    let ticket =
        begin(&mut t, &request(BridgeCommand::SendTextToElement, "main"), true, 0).unwrap();
    assert_eq!(
        settle(&mut t, BridgeCommand::SendTextToElement, ticket, 1, WaitEvent::SenderGone),
        Settlement::Answer(SocketResponse::fail(
            "Timeout waiting for text input completion: channel is empty and sending half is closed"
                .to_string()
        ))
    );
}

#[test]
fn wait_step_hands_out_the_reply_itself() {
    let mut t = PendingTable::new();
    let ticket = begin(&mut t, &request(BridgeCommand::GetDom, "main"), true, 0).unwrap();
    assert_eq!(
        wait_step(&mut t, BridgeCommand::GetDom, ticket, 4999, WaitEvent::Clock),
        WaitEnd::KeepWaiting
    );
    assert_eq!(
        wait_step(&mut t, BridgeCommand::GetDom, ticket + 1, 4999, WaitEvent::Clock),
        WaitEnd::Stale
    );
    assert_eq!(
        wait_step(&mut t, BridgeCommand::GetDom, ticket, 5000, WaitEvent::Clock),
        WaitEnd::Ended(Reply::Failed(WaitFailure::TimedOut))
    );
    assert_eq!(
        wait_step(&mut t, BridgeCommand::GetDom, ticket, 5001, WaitEvent::SenderGone),
        WaitEnd::Stale
    );
}
