use ollama_core::relay::{relay_lines, RelayEvent, RelayState};

fn payloads(events: &[RelayEvent]) -> Vec<String> {
    events.iter().map(|e| e.payload()).collect()
}

#[test]
fn token_token_done_yields_two_tokens_then_sentinel() {
    let lines = vec![
        "{\"response\":\"Hi\"}".to_string(),
        "{\"response\":\" there\"}".to_string(),
        "{\"done\":true}".to_string(),
    ];
    let events = relay_lines(&lines);
    assert_eq!(events.len(), 3);
    assert!(matches!(events[0], RelayEvent::Token(_)));
    assert!(matches!(events[1], RelayEvent::Token(_)));
    assert!(matches!(events[2], RelayEvent::End));
    assert_eq!(payloads(&events), vec!["Hi", " there", "__END__"]);
}

#[test]
fn malformed_line_is_skipped_without_terminating() {
    let mut relay = RelayState::new();
    let a = relay.push_line("{\"response\":\"a\"}");
    let bad = relay.push_line("{not json at all");
    let b = relay.push_line("{\"response\":\"b\"}");
    assert_eq!(payloads(&a), vec!["a"]);
    assert!(bad.is_empty());
    assert!(!relay.finished());
    assert_eq!(payloads(&b), vec!["b"]);
}

#[test]
fn empty_fragment_emits_nothing() {
    let mut relay = RelayState::new();
    let events = relay.push_line("{\"response\":\"\"}");
    assert!(events.is_empty());
    assert!(!relay.finished());
}

#[test]
fn fragment_and_done_on_one_line_emit_token_then_sentinel() {
    let mut relay = RelayState::new();
    let events = relay.push_line("{\"response\":\"end.\",\"done\":true}");
    assert_eq!(payloads(&events), vec!["end.", "__END__"]);
    assert!(relay.finished());
}

#[test]
fn nothing_is_relayed_after_the_sentinel() {
    let mut relay = RelayState::new();
    relay.push_line("{\"done\":true}");
    assert!(relay.finished());
    let after = relay.push_line("{\"response\":\"late\"}");
    assert!(after.is_empty());
    assert!(relay.finished());
}

#[test]
fn explicit_done_false_does_not_terminate() {
    let mut relay = RelayState::new();
    let events = relay.push_line("{\"response\":\"a\",\"done\":false}");
    assert_eq!(payloads(&events), vec!["a"]);
    assert!(!relay.finished());
}

#[test]
fn relay_lines_stops_at_the_first_done() {
    let lines = vec![
        "{\"response\":\"x\"}".to_string(),
        "{\"done\":true}".to_string(),
        "{\"response\":\"ignored\"}".to_string(),
    ];
    let events = relay_lines(&lines);
    assert_eq!(payloads(&events), vec!["x", "__END__"]);
}

#[test]
fn token_fragments_are_relayed_verbatim() {
    let mut relay = RelayState::new();
    let events = relay.push_line("{\"response\":\"  spaced  \"}");
    assert_eq!(payloads(&events), vec!["  spaced  "]);
}
