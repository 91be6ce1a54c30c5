//! Checks of the dispatcher's decisions: capabilities, routing, the
//! shutdown sequence, and serial response ordering.

use whitespace_lsp::dispatch::{
    decide, route, server_capabilities, Action, Event, MethodKind, Phase,
};

#[test]
fn capabilities_advertise_exactly_the_supported_queries() {
    let c = server_capabilities();
    assert!(c.text_document_sync_full);
    assert!(c.hover_provider);
    assert!(c.document_highlight_provider);
    assert!(c.inlay_hint_provider);
    assert_eq!(c.semantic_tokens_token_types, vec!["keyword".to_string()]);
    assert!(c.semantic_tokens_full);
    assert!(!c.semantic_tokens_range);
    assert!(!c.definition_provider);
}

#[test]
fn routing_matches_method_names() {
    assert_eq!(route("textDocument/hover"), MethodKind::Hover);
    assert_eq!(
        route("textDocument/documentHighlight"),
        MethodKind::DocumentHighlight
    );
    assert_eq!(route("textDocument/inlayHint"), MethodKind::InlayHint);
    assert_eq!(route("shutdown"), MethodKind::Shutdown);
    assert_eq!(route("textDocument/definition"), MethodKind::Unknown);
    assert_eq!(route(""), MethodKind::Unknown);
}

fn req(m: &str) -> Event {
    Event::Request { method: m.to_string() }
}

fn note(m: &str) -> Event {
    Event::Notification { method: m.to_string() }
}

#[test]
fn unknown_request_is_dropped_and_later_requests_still_answered() {
    let (a1, p1) = decide(Phase::Running, &req("textDocument/definition"));
    assert_eq!(a1, Action::DropRequest);
    assert_eq!(p1, Phase::Running);
    let (a2, p2) = decide(p1, &req("textDocument/hover"));
    assert_eq!(a2, Action::AnswerHover);
    assert_eq!(p2, Phase::Running);
}

#[test]
fn shutdown_then_exit_ends_with_code_zero() {
    let (a1, p1) = decide(Phase::Running, &req("shutdown"));
    assert_eq!(a1, Action::AcknowledgeShutdown);
    assert_eq!(p1, Phase::ShutdownRequested);
    let (a2, _) = decide(p1, &note("exit"));
    assert_eq!(a2, Action::Exit { code: 0 });
}

#[test]
fn exit_without_shutdown_is_not_clean() {
    let (a, _) = decide(Phase::Running, &note("exit"));
    assert_eq!(a, Action::Exit { code: 1 });
}

#[test]
fn requests_after_shutdown_get_no_answer() {
    let (a, p) = decide(Phase::ShutdownRequested, &req("textDocument/hover"));
    assert_eq!(a, Action::DropRequest);
    assert_eq!(p, Phase::ShutdownRequested);
}

#[test]
fn notifications_and_responses_are_ignored() {
    let (a, p) = decide(Phase::Running, &note("textDocument/didOpen"));
    assert_eq!(a, Action::Ignore);
    assert_eq!(p, Phase::Running);
    let (a, p) = decide(Phase::Running, &Event::Response);
    assert_eq!(a, Action::Ignore);
    assert_eq!(p, Phase::Running);
}

#[test]
fn responses_leave_in_arrival_order() {
    let events = vec![
        req("textDocument/hover"),
        req("textDocument/definition"),
        req("textDocument/documentHighlight"),
        note("$/cancelRequest"),
        req("textDocument/inlayHint"),
    ];
    let mut phase = Phase::Running;
    let mut actions = Vec::new();
    for e in &events {
        let (a, p) = decide(phase, e);
        actions.push(a);
        phase = p;
    }
    assert_eq!(
        actions,
        vec![
            Action::AnswerHover,
            Action::DropRequest,
            Action::AnswerDocumentHighlight,
            Action::Ignore,
            Action::AnswerInlayHint,
        ]
    );
}
