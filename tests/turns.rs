use ollama_session::{
    default_host, default_port, summary_advisory, Config, ConversationContext, Exchange,
    ExchangePhase, FailurePlan, Session, SessionError, StreamEvent, SystemPrompt,
};

#[test]
fn config_defaults() {
    assert_eq!(default_host(), "http://127.0.0.1");
    assert_eq!(default_port(), 11434);
    let c = Config::new("llama".to_string(), None, None);
    assert_eq!(c.model, "llama");
    assert_eq!(c.host, "http://127.0.0.1");
    assert_eq!(c.port, 11434);
    let c = Config::new("m".to_string(), Some("http://h".to_string()), Some(80));
    assert_eq!(c.host, "http://h");
    assert_eq!(c.port, 80);
}

#[test]
fn cold_session_has_no_context() {
    let s = Session::start("m".to_string(), None).unwrap();
    assert!(s.context.is_none());
    let p = SystemPrompt::new(String::new());
    let q = s.turn_request("hi\n".to_string(), &p);
    assert_eq!(q.model, "m");
    assert_eq!(q.prompt, "hi\n");
    assert_eq!(q.system, "");
    assert!(q.context.is_none());
}

#[test]
fn corrupt_context_stops_the_start() {
    let r = Session::start("m".to_string(), Some(&[1, 2, 3]));
    assert_eq!(r.err(), Some(SessionError::CorruptContext));
}

#[test]
fn context_persisted_after_a_turn_reaches_the_next_request() {
    let mut s = Session::start("m".to_string(), None).unwrap();
    let p = SystemPrompt::new("be brief".to_string());
    let mut x = Exchange::new();
    x.accepted();
    x.on_event(StreamEvent::Chunk { text: "ok".to_string(), context: None });
    x.on_event(StreamEvent::Chunk {
        text: "".to_string(),
        context: Some(ConversationContext::new(vec![4, 5, 6])),
    });
    let ctx = x.finish().unwrap();
    let bytes = ctx.to_bytes();
    s.adopt_context(ctx);
    assert_eq!(s.turn_request("again\n".to_string(), &p).context.unwrap().tokens, vec![4, 5, 6]);

    let restarted = Session::start("m".to_string(), Some(&bytes)).unwrap();
    let q = restarted.turn_request("next\n".to_string(), &p);
    assert_eq!(q.context.unwrap().tokens, vec![4, 5, 6]);
    assert_eq!(q.system, "be brief");
}

#[test]
fn prompt_update_reaches_the_next_request_only() {
    let s = Session::start("m".to_string(), None).unwrap();
    let mut p = SystemPrompt::new("old".to_string());
    let in_flight = s.turn_request("a\n".to_string(), &p);
    p.replace("new".to_string());
    assert_eq!(p.read(), "new");
    let next = s.turn_request("b\n".to_string(), &p);
    assert_eq!(in_flight.system, "old");
    assert_eq!(next.system, "new");
}

#[test]
fn summary_without_context_is_advisory_only() {
    let s = Session::start("m".to_string(), None).unwrap();
    let p = SystemPrompt::new(String::new());
    assert!(s.summary_request(&p).is_none());
    assert_eq!(summary_advisory(), "There is no context to summarize");
}

#[test]
fn summary_with_context_asks_for_a_summary() {
    let b = ConversationContext::new(vec![1]).to_bytes();
    let s = Session::start("m".to_string(), Some(&b)).unwrap();
    let p = SystemPrompt::new("sys".to_string());
    let q = s.summary_request(&p).unwrap();
    assert_eq!(q.prompt, "Briefly summarize this conversation");
    assert_eq!(q.system, "sys");
    assert_eq!(q.context.unwrap().tokens, vec![1]);
}

#[test]
fn chunks_come_out_in_arrival_order() {
    let mut x = Exchange::new();
    assert_eq!(x.phase(), ExchangePhase::Requesting);
    x.accepted();
    assert_eq!(x.phase(), ExchangePhase::Streaming);
    let mut out = String::new();
    for t in ["The", " sky", " is", " blue"] {
        let w = x.on_event(StreamEvent::Chunk { text: t.to_string(), context: None }).unwrap();
        assert_eq!(w, t);
        out.push_str(&w);
    }
    assert_eq!(out, "The sky is blue");
    assert!(x.finish().is_none());
    assert_eq!(x.phase(), ExchangePhase::Completed);
}

#[test]
fn malformed_events_are_passed_over() {
    let mut x = Exchange::new();
    x.accepted();
    assert_eq!(x.on_event(StreamEvent::Malformed), None);
    assert_eq!(
        x.on_event(StreamEvent::Chunk { text: "a".to_string(), context: None }),
        Some("a".to_string())
    );
    assert_eq!(x.on_event(StreamEvent::Malformed), None);
    assert_eq!(x.phase(), ExchangePhase::Streaming);
}

#[test]
fn refused_request_fails_the_exchange() {
    let mut x = Exchange::new();
    let plan = x.fail("<!DOCTYPE html><p>bad gateway</p>".to_string());
    assert!(matches!(plan, FailurePlan::WriteDiagnostic { .. }));
    assert_eq!(x.phase(), ExchangePhase::Failed);
    let mut y = Exchange::new();
    y.accepted();
    assert!(matches!(y.fail("reset".to_string()), FailurePlan::Report { .. }));
    assert_eq!(y.phase(), ExchangePhase::Failed);
}
