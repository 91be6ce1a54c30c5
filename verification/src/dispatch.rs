//! The request dispatcher's decisions, as a state machine.
//!
//! The process loop outside the library reads framed messages one at
//! a time, asks this module what each one means, performs the chosen
//! action — run a query and send its answer, drop the message, or
//! leave — and feeds the next message in.  Handlers run to completion
//! before the next message is looked at, so answers leave in the order
//! their requests arrived.

use vstd::prelude::*;

verus! {

/// The capabilities the server advertises when it initializes: the
/// three queries, full-document synchronization, and a semantic
/// tokens legend with the single token type `keyword` (full-document
/// tokenization declared, range tokenization not).
pub struct Capabilities {
    pub text_document_sync_full: bool,
    pub hover_provider: bool,
    pub document_highlight_provider: bool,
    pub inlay_hint_provider: bool,
    pub semantic_tokens_token_types: Vec<String>,
    pub semantic_tokens_full: bool,
    pub semantic_tokens_range: bool,
    pub definition_provider: bool,
}

/// The capability record the server advertises.
pub fn server_capabilities() -> (c: Capabilities)
    ensures
        c.text_document_sync_full,
        c.hover_provider,
        c.document_highlight_provider,
        c.inlay_hint_provider,
        c.semantic_tokens_token_types@.len() == 1,
        c.semantic_tokens_token_types@[0]@ == "keyword"@,
        c.semantic_tokens_full,
        !c.semantic_tokens_range,
        !c.definition_provider,
{
    let mut token_types: Vec<String> = Vec::new();
    token_types.push(String::from_str("keyword"));
    Capabilities {
        text_document_sync_full: true,
        hover_provider: true,
        document_highlight_provider: true,
        inlay_hint_provider: true,
        semantic_tokens_token_types: token_types,
        semantic_tokens_full: true,
        semantic_tokens_range: false,
        definition_provider: false,
    }
}

/// Whether two strings hold the same characters.
pub fn str_eq(a: &str, b: &str) -> (r: bool)
    ensures
        r == (a@ == b@),
{
    let la = a.unicode_len();
    let lb = b.unicode_len();
    if la != lb {
        return false;
    }
    let mut i: usize = 0;
    while i < la
        invariant
            la == a@.len() && la == b@.len(),
            0 <= i <= la,
            forall|j: int| 0 <= j < i ==> a@[j] == b@[j],
        decreases la - i,
    {
        if a.get_char(i) != b.get_char(i) {
            return false;
        }
        i = i + 1;
    }
    proof {
        assert(a@ =~= b@);
    }
    true
}

/// The queries the dispatcher routes, and everything else.
#[derive(Clone, Copy, PartialEq, Eq, Structural, Debug)]
pub enum MethodKind {
    Hover,
    DocumentHighlight,
    InlayHint,
    Shutdown,
    Unknown,
}

/// Where a method name routes.
pub open spec fn spec_route(m: Seq<char>) -> MethodKind {
    if m == "textDocument/hover"@ {
        MethodKind::Hover
    } else if m == "textDocument/documentHighlight"@ {
        MethodKind::DocumentHighlight
    } else if m == "textDocument/inlayHint"@ {
        MethodKind::InlayHint
    } else if m == "shutdown"@ {
        MethodKind::Shutdown
    } else {
        MethodKind::Unknown
    }
}

/// Route a method name.
pub fn route(method: &str) -> (r: MethodKind)
    ensures
        r == spec_route(method@),
{
    if str_eq(method, "textDocument/hover") {
        MethodKind::Hover
    } else if str_eq(method, "textDocument/documentHighlight") {
        MethodKind::DocumentHighlight
    } else if str_eq(method, "textDocument/inlayHint") {
        MethodKind::InlayHint
    } else if str_eq(method, "shutdown") {
        MethodKind::Shutdown
    } else {
        MethodKind::Unknown
    }
}

/// Where the dispatcher stands: running, or past a shutdown request.
#[derive(Clone, Copy, PartialEq, Eq, Structural, Debug)]
pub enum Phase {
    Running,
    ShutdownRequested,
}

/// One inbound message, reduced to what the decision needs: its sort
/// and its method name.
#[derive(Clone, PartialEq, Eq, Debug)]
pub enum Event {
    Request { method: String },
    Notification { method: String },
    Response,
}

/// What the loop is told to do with one message.
#[derive(Clone, Copy, PartialEq, Eq, Structural, Debug)]
pub enum Action {
    /// Run the hover handler and send its answer.
    AnswerHover,
    /// Run the document highlight handler and send its answer.
    AnswerDocumentHighlight,
    /// Run the inlay hint handler and send its answer.
    AnswerInlayHint,
    /// Send a response with a null result.
    AcknowledgeShutdown,
    /// Send nothing; a request of an unknown method is logged and
    /// dropped.
    DropRequest,
    /// Send nothing; notifications and stray responses are logged and
    /// discarded.
    Ignore,
    /// Leave the loop with the given process exit code.
    Exit { code: u8 },
}

/// An action that puts a response on the wire.
pub open spec fn action_responds(a: Action) -> bool {
    a is AnswerHover || a is AnswerDocumentHighlight || a is AnswerInlayHint
        || a is AcknowledgeShutdown
}

/// A message that is owed a response where the dispatcher stands: a
/// request of a known method, while the server still runs.
pub open spec fn event_owed_response(p: Phase, e: Event) -> bool {
    p is Running && (e matches Event::Request { method } && !(spec_route(method@) is Unknown))
}

/// What one message means: the action to take and the phase to go on
/// in.  A shutdown request is acknowledged with a null result; an
/// exit notification ends the process, with code zero exactly when
/// shutdown was requested first; an unknown request is dropped
/// without an answer and without harm to what follows.
pub open spec fn spec_decide(p: Phase, e: Event) -> (Action, Phase) {
    match e {
        Event::Request { method } => {
            if p is ShutdownRequested {
                (Action::DropRequest, p)
            } else {
                match spec_route(method@) {
                    MethodKind::Hover => (Action::AnswerHover, p),
                    MethodKind::DocumentHighlight => (Action::AnswerDocumentHighlight, p),
                    MethodKind::InlayHint => (Action::AnswerInlayHint, p),
                    MethodKind::Shutdown => (Action::AcknowledgeShutdown, Phase::ShutdownRequested),
                    MethodKind::Unknown => (Action::DropRequest, p),
                }
            }
        },
        Event::Notification { method } => {
            if method@ == "exit"@ {
                (
                    Action::Exit {
                        code: if p is ShutdownRequested {
                            0
                        } else {
                            1
                        },
                    },
                    p,
                )
            } else {
                (Action::Ignore, p)
            }
        },
        Event::Response => (Action::Ignore, p),
    }
}

/// Decide what to do with one message.
pub fn decide(p: Phase, e: &Event) -> (r: (Action, Phase))
    ensures
        r == spec_decide(p, *e),
{
    match e {
        Event::Request { method } => {
            if matches!(p, Phase::ShutdownRequested) {
                (Action::DropRequest, p)
            } else {
                match route(method.as_str()) {
                    MethodKind::Hover => (Action::AnswerHover, p),
                    MethodKind::DocumentHighlight => (Action::AnswerDocumentHighlight, p),
                    MethodKind::InlayHint => (Action::AnswerInlayHint, p),
                    MethodKind::Shutdown => (Action::AcknowledgeShutdown, Phase::ShutdownRequested),
                    MethodKind::Unknown => (Action::DropRequest, p),
                }
            }
        },
        Event::Notification { method } => {
            if str_eq(method.as_str(), "exit") {
                (
                    Action::Exit {
                        code: if matches!(p, Phase::ShutdownRequested) {
                            0
                        } else {
                            1
                        },
                    },
                    p,
                )
            } else {
                (Action::Ignore, p)
            }
        },
        Event::Response => (Action::Ignore, p),
    }
}

/// The phase the dispatcher is in when message `k` of a run arrives.
pub open spec fn phase_at(p: Phase, events: Seq<Event>, k: int) -> Phase
    decreases k,
{
    if k <= 0 {
        p
    } else {
        spec_decide(phase_at(p, events, k - 1), events[k - 1]).1
    }
}

/// The actions of a whole run, one per message, in arrival order.
pub open spec fn spec_run(p: Phase, events: Seq<Event>) -> Seq<Action>
    decreases events.len(),
{
    if events.len() == 0 {
        Seq::empty()
    } else {
        seq![spec_decide(p, events.first()).0] + spec_run(
            spec_decide(p, events.first()).1,
            events.drop_first(),
        )
    }
}

/// Serial response ordering: a run takes exactly one action per
/// message, in arrival order, and the action at place `k` puts a
/// response on the wire exactly when message `k` was owed one — so
/// the responses leave in the order of their requests, with only the
/// dropped messages missing.
pub proof fn lemma_serial_response_order(p: Phase, events: Seq<Event>)
    ensures
        spec_run(p, events).len() == events.len(),
        forall|k: int|
            0 <= k < events.len() ==> action_responds(#[trigger] spec_run(p, events)[k])
                == event_owed_response(phase_at(p, events, k), events[k]),
    decreases events.len(),
{
    if events.len() > 0 {
        let p1 = spec_decide(p, events.first()).1;
        lemma_serial_response_order(p1, events.drop_first());
        assert forall|k: int| 0 <= k < events.len() implies action_responds(
            #[trigger] spec_run(p, events)[k],
        ) == event_owed_response(phase_at(p, events, k), events[k]) by {
            if k == 0 {
                assert(spec_run(p, events)[0] == spec_decide(p, events.first()).0);
                assert(phase_at(p, events, 0) == p);
            } else {
                assert(spec_run(p, events)[k] == spec_run(p1, events.drop_first())[k - 1]);
                assert forall|q: int| 0 <= q < k implies phase_at(p, events, q + 1) == phase_at(
                    p1,
                    events.drop_first(),
                    q,
                ) by {
                    lemma_phase_at_shift(p, events, q);
                }
                assert(events.drop_first()[k - 1] == events[k]);
            }
        }
    }
}

/// Dropping the first message of a run shifts the phase trace by one.
proof fn lemma_phase_at_shift(p: Phase, events: Seq<Event>, q: int)
    requires
        0 <= q < events.len(),
    ensures
        phase_at(p, events, q + 1) == phase_at(
            spec_decide(p, events.first()).1,
            events.drop_first(),
            q,
        ),
    decreases q,
{
    let p1 = spec_decide(p, events.first()).1;
    if q > 0 {
        lemma_phase_at_shift(p, events, q - 1);
        assert(events.drop_first()[q - 1] == events[q]);
        assert(phase_at(p, events, q + 1) == spec_decide(phase_at(p, events, q), events[q]).1);
        assert(phase_at(p1, events.drop_first(), q) == spec_decide(
            phase_at(p1, events.drop_first(), q - 1),
            events.drop_first()[q - 1],
        ).1);
    } else {
        assert(events.first() == events[0]);
        assert(phase_at(p, events, 0) == p);
        assert(phase_at(p, events, 1) == spec_decide(phase_at(p, events, 0), events[0]).1);
        assert(phase_at(p1, events.drop_first(), 0) == p1);
    }
}

/// The shutdown sequence: a shutdown request is acknowledged with a
/// null result and the dispatcher leaves the running phase; an exit
/// notification then ends the process with code zero; whatever else
/// arrives in between is not answered; an exit without a prior
/// shutdown ends the process with a code that is not zero.
pub proof fn lemma_shutdown_sequence(shutdown_req: Event, exit_note: Event, other: Event)
    requires
        shutdown_req matches Event::Request { method } && method@ == "shutdown"@,
        exit_note matches Event::Notification { method } && method@ == "exit"@,
    ensures
        spec_decide(Phase::Running, shutdown_req) == (
            Action::AcknowledgeShutdown,
            Phase::ShutdownRequested,
        ),
        spec_decide(Phase::ShutdownRequested, exit_note).0 == (Action::Exit { code: 0 }),
        spec_decide(Phase::Running, exit_note).0 == (Action::Exit { code: 1 }),
        other is Request ==> !action_responds(spec_decide(Phase::ShutdownRequested, other).0),
{
    reveal_strlit("shutdown");
    reveal_strlit("textDocument/hover");
    reveal_strlit("textDocument/documentHighlight");
    reveal_strlit("textDocument/inlayHint");
    assert("shutdown"@.len() == 8);
    assert("textDocument/hover"@.len() == 18);
    match shutdown_req {
        Event::Request { method } => {
            assert(method@ == "shutdown"@);
            assert(method@ != "textDocument/hover"@ && method@ != "textDocument/documentHighlight"@
                && method@ != "textDocument/inlayHint"@);
            assert(spec_route(method@) is Shutdown);
        },
        _ => {
            assert(false);
        },
    }
}

} // verus!
