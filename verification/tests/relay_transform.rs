use chat_relay::relay::event::GenerationEvent;
use chat_relay::relay::render::{
    frame_append, frame_replace, render_append, render_failure, render_replace, Fragment,
    FragmentKind,
};
use chat_relay::relay::transform::{RelayAction, RelayInput, RelayPhase, RelayTransform};

fn delta(text: &str) -> RelayInput {
    RelayInput::Event(GenerationEvent::Delta(text.to_string()))
}

fn completed(text: &str) -> RelayInput {
    RelayInput::Event(GenerationEvent::Completed(text.to_string()))
}

fn failed(cause: &str) -> RelayInput {
    RelayInput::Event(GenerationEvent::Failed(cause.to_string()))
}

fn append(body: &str) -> Fragment {
    Fragment { kind: FragmentKind::Append, body: body.to_string() }
}

fn replace(body: &str) -> Fragment {
    Fragment { kind: FragmentKind::Replace, body: body.to_string() }
}

fn store_requests(actions: &[RelayAction]) -> Vec<(i64, String)> {
    let mut requests = Vec::new();
    for action in actions {
        if let RelayAction::Finish { turn_id, text, .. } = action {
            requests.push((*turn_id, text.clone()));
        }
    }
    requests
}

#[test]
fn fresh_transform_is_idle_and_empty() {
    let relay = RelayTransform::new(12);
    assert_eq!(relay.phase(), RelayPhase::Idle);
    assert_eq!(relay.turn_id(), 12);
    assert_eq!(relay.accumulated(), "");
    assert!(!relay.is_terminal());
}

#[test]
fn deltas_then_completion_push_two_fragments_and_store_once() {
    let mut relay = RelayTransform::new(7);
    let first = relay.step(delta("Hel"));
    assert_eq!(first, RelayAction::Push(append("<div><p>Hel</p>\n<div>")));
    assert_eq!(relay.phase(), RelayPhase::Accumulating);
    let second = relay.step(delta("lo"));
    assert_eq!(second, RelayAction::Push(append("<div><p>Hello</p>\n<div>")));
    assert_eq!(relay.accumulated(), "Hello");
    let last = relay.step(completed("Hello"));
    assert_eq!(
        last,
        RelayAction::Finish {
            fragment: replace(
                "<div hx-swap-oob=\"outerHTML:#message-container\"><p>Hello</p>\n</div>"
            ),
            turn_id: 7,
            text: "Hello".to_string(),
        }
    );
    assert_eq!(relay.phase(), RelayPhase::Finalizing);
    assert_eq!(relay.accumulated(), "");
    let closing = relay.step(RelayInput::Stored);
    assert_eq!(closing, RelayAction::Close);
    assert_eq!(relay.phase(), RelayPhase::Done);
    assert!(relay.is_terminal());
    let actions = [first, second, last, closing];
    assert_eq!(store_requests(&actions), vec![(7, "Hello".to_string())]);
}

#[test]
fn failure_after_partial_text_stores_nothing() {
    let mut relay = RelayTransform::new(3);
    let first = relay.step(delta("partial"));
    assert_eq!(first, RelayAction::Push(append("<div><p>partial</p>\n<div>")));
    let second = relay.step(failed("timeout"));
    assert_eq!(
        second,
        RelayAction::Fail(Fragment { kind: FragmentKind::Failure, body: "timeout".to_string() })
    );
    assert_eq!(relay.phase(), RelayPhase::Errored);
    assert!(relay.is_terminal());
    let third = relay.step(completed("partial"));
    assert_eq!(third, RelayAction::Ignore);
    assert_eq!(relay.phase(), RelayPhase::Errored);
    assert!(store_requests(&[first, second, third]).is_empty());
}

#[test]
fn failure_before_any_text_is_reported() {
    let mut relay = RelayTransform::new(3);
    assert_eq!(
        relay.step(failed("connection refused")),
        RelayAction::Fail(Fragment {
            kind: FragmentKind::Failure,
            body: "connection refused".to_string()
        })
    );
    assert_eq!(relay.phase(), RelayPhase::Errored);
}

#[test]
fn completion_without_deltas_is_stored() {
    let mut relay = RelayTransform::new(21);
    let action = relay.step(completed("whole"));
    assert_eq!(
        action,
        RelayAction::Finish {
            fragment: replace(
                "<div hx-swap-oob=\"outerHTML:#message-container\"><p>whole</p>\n</div>"
            ),
            turn_id: 21,
            text: "whole".to_string(),
        }
    );
    assert_eq!(relay.phase(), RelayPhase::Finalizing);
}

#[test]
fn second_completion_is_not_stored_again() {
    let mut relay = RelayTransform::new(5);
    let mut actions = Vec::new();
    actions.push(relay.step(delta("a")));
    actions.push(relay.step(completed("a")));
    actions.push(relay.step(completed("a")));
    actions.push(relay.step(RelayInput::Stored));
    actions.push(relay.step(completed("a")));
    actions.push(relay.step(delta("b")));
    assert_eq!(actions[2], RelayAction::Ignore);
    assert_eq!(actions[4], RelayAction::Ignore);
    assert_eq!(actions[5], RelayAction::Ignore);
    assert_eq!(store_requests(&actions), vec![(5, "a".to_string())]);
    assert_eq!(relay.phase(), RelayPhase::Done);
}

#[test]
fn store_failure_is_reported_and_the_generation_is_done() {
    let mut relay = RelayTransform::new(9);
    relay.step(delta("text"));
    relay.step(completed("text"));
    assert_eq!(relay.step(RelayInput::StoreFailed), RelayAction::ReportStoreFailure { turn_id: 9 });
    assert_eq!(relay.phase(), RelayPhase::Done);
    assert_eq!(relay.step(RelayInput::StoreFailed), RelayAction::Ignore);
}

#[test]
fn store_outcome_out_of_turn_is_ignored() {
    let mut relay = RelayTransform::new(9);
    assert_eq!(relay.step(RelayInput::Stored), RelayAction::Ignore);
    assert_eq!(relay.phase(), RelayPhase::Idle);
    relay.step(delta("x"));
    assert_eq!(relay.step(RelayInput::StoreFailed), RelayAction::Ignore);
    assert_eq!(relay.phase(), RelayPhase::Accumulating);
    assert_eq!(relay.accumulated(), "x");
}

#[test]
fn closed_channel_ends_in_error_without_storing() {
    let mut relay = RelayTransform::new(4);
    relay.step(delta("A"));
    assert_eq!(relay.step(RelayInput::ChannelClosed), RelayAction::Close);
    assert_eq!(relay.phase(), RelayPhase::Errored);
    assert_eq!(relay.step(completed("A")), RelayAction::Ignore);
}

#[test]
fn closed_channel_while_finalizing_is_ignored() {
    let mut relay = RelayTransform::new(4);
    relay.step(completed("A"));
    assert_eq!(relay.step(RelayInput::ChannelClosed), RelayAction::Ignore);
    assert_eq!(relay.phase(), RelayPhase::Finalizing);
    assert_eq!(relay.step(RelayInput::Stored), RelayAction::Close);
}

#[test]
fn failure_while_finalizing_ends_in_error() {
    let mut relay = RelayTransform::new(4);
    relay.step(completed("A"));
    assert_eq!(
        relay.step(failed("late")),
        RelayAction::Fail(Fragment { kind: FragmentKind::Failure, body: "late".to_string() })
    );
    assert_eq!(relay.phase(), RelayPhase::Errored);
}

#[test]
fn markup_across_chunk_boundaries_is_rendered_whole() {
    let mut relay = RelayTransform::new(1);
    assert_eq!(relay.step(delta("**bo")), RelayAction::Push(append("<div><p>**bo</p>\n<div>")));
    assert_eq!(
        relay.step(delta("ld**")),
        RelayAction::Push(append("<div><p><strong>bold</strong></p>\n<div>"))
    );
}

#[test]
fn final_fragment_renders_the_completed_text() {
    let mut relay = RelayTransform::new(1);
    relay.step(delta("# Ti"));
    let action = relay.step(completed("# Title"));
    assert_eq!(
        action,
        RelayAction::Finish {
            fragment: replace(
                "<div hx-swap-oob=\"outerHTML:#message-container\"><h1>Title</h1>\n</div>"
            ),
            turn_id: 1,
            text: "# Title".to_string(),
        }
    );
}

#[test]
fn empty_delta_still_moves_to_accumulating() {
    let mut relay = RelayTransform::new(1);
    assert_eq!(relay.step(delta("")), RelayAction::Push(append("<div><div>")));
    assert_eq!(relay.phase(), RelayPhase::Accumulating);
}

#[test]
fn rendering_twice_gives_the_same_fragment() {
    let text = "a *b* `c`\n\n- d\n- e\n";
    assert_eq!(render_append(text), render_append(text));
    assert_eq!(render_replace(text), render_replace(text));
    assert_eq!(
        render_append(text).body,
        "<div><p>a <em>b</em> <code>c</code></p>\n<ul>\n<li>d</li>\n<li>e</li>\n</ul>\n<div>"
    );
}

#[test]
fn rendering_escapes_markup_in_the_text() {
    assert_eq!(render_append("a < b & c").body, "<div><p>a &lt; b &amp; c</p>\n<div>");
}

#[test]
fn frames_wrap_the_markup_as_it_is() {
    assert_eq!(frame_append("<p>x</p>"), append("<div><p>x</p><div>"));
    assert_eq!(
        frame_replace("<p>x</p>"),
        replace("<div hx-swap-oob=\"outerHTML:#message-container\"><p>x</p></div>")
    );
    assert_eq!(frame_append(""), append("<div><div>"));
}

#[test]
fn render_matches_the_markdown_renderer() {
    let text = "1. one\n2. two\n\n> quote";
    let html = comrak::markdown_to_html(text, &comrak::Options::default());
    assert_eq!(render_append(text).body, format!("<div>{}<div>", html));
    assert_eq!(
        render_replace(text).body,
        format!("<div hx-swap-oob=\"outerHTML:#message-container\">{}</div>", html)
    );
    assert_eq!(render_append(text).kind, FragmentKind::Append);
    assert_eq!(render_replace(text).kind, FragmentKind::Replace);
}

#[test]
fn failure_fragment_carries_the_cause() {
    assert_eq!(
        render_failure("timeout".to_string()),
        Fragment { kind: FragmentKind::Failure, body: "timeout".to_string() }
    );
}

#[test]
fn event_kinds() {
    assert!(!GenerationEvent::Delta("x".to_string()).is_terminal());
    assert!(GenerationEvent::Completed("x".to_string()).is_terminal());
    assert!(GenerationEvent::Failed("x".to_string()).is_terminal());
}
