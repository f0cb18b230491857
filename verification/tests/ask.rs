use tauri_mcp::ask::{answer, ask_step, dom_text, AskAction, AskEvent, AskState};
use tauri_mcp::bridge::{PendingTable, WaitEvent};
use tauri_mcp::error::McpError;
use tauri_mcp::json::Json;
use tauri_mcp::response::SocketResponse;
use tauri_mcp::webview::{BridgeCommand, BridgeRequest, GetDomError, Reply, WaitFailure};

fn request(command: BridgeCommand, label: &str) -> BridgeRequest {
    BridgeRequest {
        command,
        window_label: label.to_string(),
        body: Json::Text("test".to_string()),
    }
}

fn reply(text: &str) -> AskEvent {
    AskEvent::Waited(WaitEvent::Reply { text: text.to_string(), parsed: Err("x".to_string()) })
}

#[test]
fn listener_is_asked_for_before_the_request_is_sent() {
    let mut table = PendingTable::new();
    let r = request(BridgeCommand::GetDom, "main");
    let (s, a) =
        ask_step(&mut table, &r, AskState::Start, 100, AskEvent::Begin { window_exists: true });
    assert_eq!(s, AskState::Listening(0));
    assert_eq!(a, AskAction::Listen("got-dom-content-response".to_string()));
    assert_eq!(table.waiting("got-dom-content-response"), Some((0, 5100)));
    let (s, a) = ask_step(&mut table, &r, s, 101, AskEvent::ListenerReady);
    assert_eq!(s, AskState::Sending(0));
    assert_eq!(
        a,
        AskAction::Emit {
            window_label: "main".to_string(),
            event: "got-dom-content".to_string(),
            body: Json::Text("test".to_string()),
        }
    );
    let (s, a) = ask_step(&mut table, &r, s, 102, AskEvent::Sent(Ok(())));
    assert_eq!((s, a), (AskState::Waiting(0), AskAction::Wait));
    let (s, a) = ask_step(&mut table, &r, s, 103, AskEvent::Waited(WaitEvent::Clock));
    assert_eq!((s, a), (AskState::Waiting(0), AskAction::Wait));
    let (s, a) = ask_step(&mut table, &r, s, 104, reply("<html/>"));
    assert_eq!(s, AskState::Done);
    assert_eq!(
        a,
        AskAction::Finish {
            outcome: Ok(Reply::Received {
                text: "<html/>".to_string(),
                parsed: Err("x".to_string())
            }),
            unlisten: true,
        }
    );
    assert_eq!(table.len(), 0);
}

fn out_of_turn(unlisten: bool) -> AskAction {
    AskAction::Finish {
        outcome: Err(McpError::HostOperationFailed(
            "the request was told what it did not wait for".to_string(),
        )),
        unlisten,
    }
}

#[test]
fn request_is_not_sent_before_the_listener_is_there() {
    let r = request(BridgeCommand::GetElementPosition, "main");
    let events = || {
        vec![
            AskEvent::Sent(Ok(())),
            AskEvent::Begin { window_exists: true },
            AskEvent::Waited(WaitEvent::Clock),
            reply("early"),
        ]
    };
    for event in events() {
        let mut table = PendingTable::new();
        let (s, _) =
            ask_step(&mut table, &r, AskState::Start, 0, AskEvent::Begin { window_exists: true });
        assert_eq!(s, AskState::Listening(0));
        assert_eq!(ask_step(&mut table, &r, s, 1, event), (AskState::Done, out_of_turn(true)));
        assert_eq!(table.len(), 0);
    }
    let mut table = PendingTable::new();
    assert_eq!(
        ask_step(&mut table, &r, AskState::Start, 1, AskEvent::ListenerReady),
        (AskState::Done, out_of_turn(false))
    );
    assert_eq!(table.len(), 0);
}

#[test]
fn events_out_of_turn_end_the_request_and_free_its_key() {
    let r = request(BridgeCommand::GetDom, "main");
    let mut table = PendingTable::new();
    let (s, _) =
        ask_step(&mut table, &r, AskState::Start, 0, AskEvent::Begin { window_exists: true });
    let (s, _) = ask_step(&mut table, &r, s, 0, AskEvent::ListenerReady);
    assert_eq!(
        ask_step(&mut table, &r, s, 0, AskEvent::ListenerReady),
        (AskState::Done, out_of_turn(true))
    );
    assert!(!table.is_pending("got-dom-content-response"));
    let (s, _) =
        ask_step(&mut table, &r, AskState::Start, 0, AskEvent::Begin { window_exists: true });
    let (s, _) = ask_step(&mut table, &r, s, 0, AskEvent::ListenerReady);
    let (s, _) = ask_step(&mut table, &r, s, 0, AskEvent::Sent(Ok(())));
    assert_eq!(
        ask_step(&mut table, &r, s, 0, AskEvent::Sent(Ok(()))),
        (AskState::Done, out_of_turn(true))
    );
    assert!(!table.is_pending("got-dom-content-response"));
}

#[test]
fn missing_window_ends_the_request_at_once() {
    let mut table = PendingTable::new();
    let r = request(BridgeCommand::GetDom, "ghost");
    let (s, a) =
        ask_step(&mut table, &r, AskState::Start, 0, AskEvent::Begin { window_exists: false });
    assert_eq!(s, AskState::Done);
    assert_eq!(
        a,
        AskAction::Finish {
            outcome: Err(McpError::TargetNotFound("ghost".to_string())),
            unlisten: false
        }
    );
    assert_eq!(table.len(), 0);
}

#[test]
fn busy_key_ends_the_second_request_and_leaves_the_first() {
    let mut table = PendingTable::new();
    let first = request(BridgeCommand::GetDom, "main");
    let (s1, _) =
        ask_step(&mut table, &first, AskState::Start, 0, AskEvent::Begin { window_exists: true });
    let second = request(BridgeCommand::GetDom, "other");
    let (s2, a2) =
        ask_step(&mut table, &second, AskState::Start, 1, AskEvent::Begin { window_exists: true });
    assert_eq!(s2, AskState::Done);
    assert_eq!(
        a2,
        AskAction::Finish {
            outcome: Err(McpError::RequestPending("got-dom-content-response".to_string())),
            unlisten: false,
        }
    );
    assert_eq!(s1, AskState::Listening(0));
    assert_eq!(table.waiting("got-dom-content-response"), Some((0, 5000)));
}

#[test]
fn request_that_cannot_be_sent_leaves_nothing_registered() {
    let mut table = PendingTable::new();
    let r = request(BridgeCommand::SendTextToElement, "main");
    let (s, _) =
        ask_step(&mut table, &r, AskState::Start, 0, AskEvent::Begin { window_exists: true });
    let (s, _) = ask_step(&mut table, &r, s, 0, AskEvent::ListenerReady);
    let (s, a) =
        ask_step(&mut table, &r, s, 0, AskEvent::Sent(Err("window is closing".to_string())));
    assert_eq!(s, AskState::Done);
    assert_eq!(
        a,
        AskAction::Finish {
            outcome: Ok(Reply::NotSent("window is closing".to_string())),
            unlisten: true
        }
    );
    assert_eq!(table.len(), 0);
    assert!(!table.is_pending("send-text-to-element-response"));
    assert_eq!(
        answer(r.command, Ok(Reply::NotSent("window is closing".to_string()))),
        SocketResponse::fail(
            "Failed to emit send-text-to-element event: window is closing".to_string()
        )
    );
}

#[test]
fn wait_ends_at_the_deadline_and_not_before() {
    let mut table = PendingTable::new();
    let r = request(BridgeCommand::GetDom, "main");
    let (s, _) =
        ask_step(&mut table, &r, AskState::Start, 1000, AskEvent::Begin { window_exists: true });
    let (s, _) = ask_step(&mut table, &r, s, 1000, AskEvent::ListenerReady);
    let (s, _) = ask_step(&mut table, &r, s, 1000, AskEvent::Sent(Ok(())));
    let (s, a) = ask_step(&mut table, &r, s, 5999, AskEvent::Waited(WaitEvent::Clock));
    assert_eq!((s, a), (AskState::Waiting(0), AskAction::Wait));
    let (s, a) = ask_step(&mut table, &r, s, 6000, AskEvent::Waited(WaitEvent::Clock));
    assert_eq!(s, AskState::Done);
    assert_eq!(
        a,
        AskAction::Finish { outcome: Ok(Reply::Failed(WaitFailure::TimedOut)), unlisten: true }
    );
    assert_eq!(table.len(), 0);
    assert_eq!(
        ask_step(&mut table, &r, s, 6001, reply("late")),
        (
            AskState::Done,
            AskAction::Finish {
                outcome: Err(McpError::HostOperationFailed(
                    "the request had already ended".to_string()
                )),
                unlisten: false,
            }
        )
    );
}

#[test]
fn second_request_gets_its_own_reply_after_a_timeout() {
    let mut table = PendingTable::new();
    let r = request(BridgeCommand::GetDom, "main");
    let (s, _) =
        ask_step(&mut table, &r, AskState::Start, 0, AskEvent::Begin { window_exists: true });
    let (s, _) = ask_step(&mut table, &r, s, 0, AskEvent::ListenerReady);
    let (first, _) = ask_step(&mut table, &r, s, 0, AskEvent::Sent(Ok(())));
    let (_, a) = ask_step(&mut table, &r, first, 5000, AskEvent::Waited(WaitEvent::Clock));
    assert!(matches!(a, AskAction::Finish { outcome: Ok(Reply::Failed(_)), unlisten: true }));

    let (s, _) =
        ask_step(&mut table, &r, AskState::Start, 7000, AskEvent::Begin { window_exists: true });
    assert_eq!(s, AskState::Listening(1));
    let (s, _) = ask_step(&mut table, &r, s, 7000, AskEvent::ListenerReady);
    let (second, _) = ask_step(&mut table, &r, s, 7000, AskEvent::Sent(Ok(())));

    let (stale_state, stale) = ask_step(&mut table, &r, first, 7001, reply("for the first"));
    assert_eq!(stale_state, AskState::Done);
    assert_eq!(
        stale,
        AskAction::Finish {
            outcome: Err(McpError::HostOperationFailed(
                "the request had already ended".to_string()
            )),
            unlisten: true,
        }
    );
    assert_eq!(table.waiting("got-dom-content-response"), Some((1, 12000)));

    let (_, a) = ask_step(&mut table, &r, second, 7002, reply("<p>second</p>"));
    match a {
        AskAction::Finish { outcome, unlisten } => {
            assert!(unlisten);
            assert_eq!(dom_text(outcome), Ok("<p>second</p>".to_string()));
        }
        other => panic!("unexpected {:?}", other),
    }
}

#[test]
fn outcomes_become_answers() {
    assert_eq!(
        answer(BridgeCommand::GetDom, Err(McpError::TargetNotFound("w".to_string()))),
        SocketResponse::fail("Window not found: w".to_string())
    );
    assert_eq!(
        answer(
            BridgeCommand::GetDom,
            Ok(Reply::Received { text: "dom".to_string(), parsed: Err("x".to_string()) })
        ),
        SocketResponse::ok(Json::Text("dom".to_string()))
    );
    assert_eq!(
        answer(BridgeCommand::GetElementPosition, Ok(Reply::Failed(WaitFailure::TimedOut))),
        SocketResponse::fail(
            "Timeout waiting for element position result: timed out waiting on channel"
                .to_string()
        )
    );
}

#[test]
fn outcomes_become_document_texts() {
    assert_eq!(
        dom_text(Ok(Reply::Received { text: "dom".to_string(), parsed: Ok(Json::Null) })),
        Ok("dom".to_string())
    );
    assert_eq!(
        dom_text(Ok(Reply::Received { text: String::new(), parsed: Ok(Json::Null) })),
        Err(GetDomError::DomIsEmpty)
    );
    assert_eq!(
        dom_text(Ok(Reply::NotSent("e".to_string()))),
        Err(GetDomError::JavaScriptError("e".to_string()))
    );
    assert_eq!(
        dom_text(Err(McpError::TargetNotFound("w".to_string()))),
        Err(GetDomError::WebviewOperation("Window not found: w".to_string()))
    );
    assert_eq!(
        dom_text(Ok(Reply::Failed(WaitFailure::TimedOut))),
        Err(GetDomError::WebviewOperation(
            "Timeout waiting for DOM: timed out waiting on channel".to_string()
        ))
    );
}
