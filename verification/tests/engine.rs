use tweets_to_discord::dispatch::{begin, finish, WorkerAction};
use tweets_to_discord::model::{
    ChannelMessage, Field, IncomingMessage, Panel, PlaintextMarkers, Post, RelayConfig, RenderMode,
    RenderedMessage, StructuredLabels, WatchedAccount,
};
use tweets_to_discord::relay::{confirmation, plan_reply, ReplyDraft};
use tweets_to_discord::supervisor::{StreamEvent, Supervisor, SupervisorAction, SupervisorState};

fn watched() -> WatchedAccount {
    WatchedAccount { id: 42, name: "The Account".to_string(), handle: "acct".to_string() }
}

fn config(mode: RenderMode, reply_enabled: bool) -> RelayConfig {
    RelayConfig {
        channel_id: 7,
        reply_enabled,
        mode,
        structured: StructuredLabels {
            header: "New post".to_string(),
            text: "Text".to_string(),
            reply: "In reply to".to_string(),
            quote: "Quoting".to_string(),
            url: "URL".to_string(),
        },
        plaintext: PlaintextMarkers {
            reply_prefix: "a".to_string(),
            reply_postfix: "b".to_string(),
            quote_prefix: "c".to_string(),
            quote_postfix: "d".to_string(),
        },
    }
}

fn post(id: u64, author_id: u64, body: &str, parent_id: Option<u64>) -> Post {
    Post { id, author_id, body: body.to_string(), parent_id, quoted: None }
}

fn field(label: &str, value: &str) -> Field {
    Field { label: label.to_string(), value: value.to_string() }
}

fn sent_by(author_id: u64, panels: Vec<Panel>) -> ChannelMessage {
    ChannelMessage { author_id, content: String::new(), panels }
}

fn answer_to(referenced: Option<ChannelMessage>, content: &str) -> IncomingMessage {
    IncomingMessage { content: content.to_string(), referenced }
}

fn relayed_panel(id: u64) -> Panel {
    match finish(&watched(), &config(RenderMode::Structured, true), &post(id, 42, "x", None), &None) {
        RenderedMessage::Structured(panel) => panel,
        RenderedMessage::Plaintext(_) => panic!("structured form was configured"),
    }
}

#[test]
fn supervisor_starts_streaming() {
    let supervisor = Supervisor::new(&watched());
    assert_eq!(supervisor.watched_id, 42);
    assert_eq!(supervisor.state, SupervisorState::Streaming);
    assert!(supervisor.is_streaming());
}

#[test]
fn supervisor_dispatches_a_post_of_the_watched_account() {
    let mut supervisor = Supervisor::new(&watched());
    let incoming = post(100, 42, "launch day", None);
    let action = supervisor.on_event(StreamEvent::Post(incoming.clone()));
    assert_eq!(action, SupervisorAction::Dispatch(incoming));
    assert!(supervisor.is_streaming());
}

#[test]
fn supervisor_discards_a_post_of_another_account() {
    let mut supervisor = Supervisor::new(&watched());
    let retweet = post(101, 43, "RT @acct: launch day", None);
    assert_eq!(supervisor.on_event(StreamEvent::Post(retweet)), SupervisorAction::Discard);
    let mention = post(102, 0, "@acct hello", Some(100));
    assert_eq!(supervisor.on_event(StreamEvent::Post(mention)), SupervisorAction::Discard);
    assert!(supervisor.is_streaming());
}

#[test]
fn supervisor_never_dispatches_for_other_authors() {
    let mut supervisor = Supervisor::new(&watched());
    let authors: Vec<u64> = vec![0, 1, 41, 43, 4200, u64::MAX];
    for author in authors {
        let action = supervisor.on_event(StreamEvent::Post(post(5, author, "text", None)));
        assert!(!matches!(action, SupervisorAction::Dispatch(_)));
    }
}

#[test]
fn supervisor_reads_on_after_other_events() {
    let mut supervisor = Supervisor::new(&watched());
    assert_eq!(supervisor.on_event(StreamEvent::Other), SupervisorAction::Ignore);
    assert!(supervisor.is_streaming());
    let incoming = post(100, 42, "launch day", None);
    assert_eq!(
        supervisor.on_event(StreamEvent::Post(incoming.clone())),
        SupervisorAction::Dispatch(incoming)
    );
}

#[test]
fn supervisor_stops_when_the_subscription_is_lost() {
    let mut supervisor = Supervisor::new(&watched());
    assert_eq!(supervisor.on_event(StreamEvent::Lost), SupervisorAction::Stop);
    assert_eq!(supervisor.state, SupervisorState::Stopped);
    assert!(!supervisor.is_streaming());
    assert_eq!(supervisor.watched_id, 42);
}

#[test]
fn supervisor_dispatches_nothing_once_stopped() {
    let mut supervisor = Supervisor::new(&watched());
    supervisor.on_event(StreamEvent::Lost);
    assert_eq!(
        supervisor.on_event(StreamEvent::Post(post(100, 42, "launch day", None))),
        SupervisorAction::Stop
    );
    assert_eq!(supervisor.on_event(StreamEvent::Other), SupervisorAction::Stop);
    assert_eq!(supervisor.on_event(StreamEvent::Lost), SupervisorAction::Stop);
    assert!(!supervisor.is_streaming());
}

#[test]
fn worker_delivers_a_post_without_parent_at_once() {
    let action = begin(&watched(), &config(RenderMode::Plaintext, false), &post(1, 42, "hi", None));
    assert_eq!(action, WorkerAction::Deliver(RenderedMessage::Plaintext("hi".to_string())));
}

#[test]
fn worker_asks_for_the_parent_of_a_reply() {
    let action =
        begin(&watched(), &config(RenderMode::Structured, false), &post(1, 42, "hi", Some(77)));
    assert_eq!(action, WorkerAction::FetchParent(77));
}

#[test]
fn worker_finishes_with_the_parent_excerpt() {
    let message = finish(
        &watched(),
        &config(RenderMode::Structured, false),
        &post(1, 42, "hi", Some(77)),
        &Some("the parent".to_string()),
    );
    assert_eq!(
        message,
        RenderedMessage::Structured(Panel {
            title: "New post".to_string(),
            fields: vec![
                field("Text", "hi"),
                field("In reply to", "the parent"),
                field("URL", "https://twitter.com/acct/status/1"),
            ],
        })
    );
}

#[test]
fn worker_goes_on_without_excerpt_when_the_fetch_failed() {
    let message = finish(
        &watched(),
        &config(RenderMode::Structured, false),
        &post(1, 42, "hi", Some(77)),
        &None,
    );
    assert_eq!(
        message,
        RenderedMessage::Structured(Panel {
            title: "New post".to_string(),
            fields: vec![field("Text", "hi"), field("URL", "https://twitter.com/acct/status/1")],
        })
    );
    let plain =
        finish(&watched(), &config(RenderMode::Plaintext, false), &post(1, 42, "hi", Some(77)), &None);
    assert_eq!(plain, RenderedMessage::Plaintext("hi".to_string()));
}

#[test]
fn second_worker_does_not_wait_for_the_first() {
    let cfg = config(RenderMode::Plaintext, false);
    let first = post(1, 42, "a reply", Some(77));
    let second = post(2, 42, "a note", None);
    let first_step = begin(&watched(), &cfg, &first);
    assert_eq!(first_step, WorkerAction::FetchParent(77));
    let second_step = begin(&watched(), &cfg, &second);
    assert_eq!(second_step, WorkerAction::Deliver(RenderedMessage::Plaintext("a note".to_string())));
    let late = finish(&watched(), &cfg, &first, &Some("parent".to_string()));
    assert_eq!(late, RenderedMessage::Plaintext("a\n> parent\nb\na reply".to_string()));
}

#[test]
fn end_to_end_launch_day() {
    let account = watched();
    let cfg = config(RenderMode::Structured, true);
    let mut supervisor = Supervisor::new(&account);
    let incoming = post(100, 42, "launch day", None);
    let dispatched = match supervisor.on_event(StreamEvent::Post(incoming)) {
        SupervisorAction::Dispatch(p) => p,
        other => panic!("expected a dispatch, got {:?}", other),
    };
    let delivered = match begin(&account, &cfg, &dispatched) {
        WorkerAction::Deliver(message) => message,
        other => panic!("expected a delivery, got {:?}", other),
    };
    assert_eq!(
        delivered,
        RenderedMessage::Structured(Panel {
            title: "New post".to_string(),
            fields: vec![
                field("Text", "launch day"),
                field("URL", "https://twitter.com/acct/status/100"),
            ],
        })
    );
}

#[test]
fn reply_is_planned_for_an_answer_to_a_relayed_post() {
    let cfg = config(RenderMode::Structured, true);
    let incoming = answer_to(Some(sent_by(900, vec![relayed_panel(100)])), "well done");
    assert_eq!(
        plan_reply(&cfg, &watched(), 900, &incoming),
        Some(ReplyDraft { text: "@acct well done".to_string(), in_reply_to: 100 })
    );
}

#[test]
fn reply_text_keeps_the_typed_text_as_it_is() {
    let cfg = config(RenderMode::Structured, true);
    let incoming = answer_to(Some(sent_by(900, vec![relayed_panel(5)])), "");
    assert_eq!(
        plan_reply(&cfg, &watched(), 900, &incoming),
        Some(ReplyDraft { text: "@acct ".to_string(), in_reply_to: 5 })
    );
    let incoming = answer_to(Some(sent_by(900, vec![relayed_panel(5)])), " two  words\n");
    assert_eq!(
        plan_reply(&cfg, &watched(), 900, &incoming),
        Some(ReplyDraft { text: "@acct  two  words\n".to_string(), in_reply_to: 5 })
    );
}

#[test]
fn no_reply_when_replies_are_disabled() {
    let cfg = config(RenderMode::Structured, false);
    let incoming = answer_to(Some(sent_by(900, vec![relayed_panel(100)])), "well done");
    assert_eq!(plan_reply(&cfg, &watched(), 900, &incoming), None);
}

#[test]
fn no_reply_when_the_message_answers_nothing() {
    let cfg = config(RenderMode::Structured, true);
    assert_eq!(plan_reply(&cfg, &watched(), 900, &answer_to(None, "well done")), None);
}

#[test]
fn no_reply_when_the_answered_message_is_by_someone_else() {
    let cfg = config(RenderMode::Structured, true);
    let incoming = answer_to(Some(sent_by(901, vec![relayed_panel(100)])), "well done");
    assert_eq!(plan_reply(&cfg, &watched(), 900, &incoming), None);
}

#[test]
fn no_reply_when_the_correlator_finds_nothing() {
    let cfg = config(RenderMode::Structured, true);
    let plain = ChannelMessage { author_id: 900, content: "launch day".to_string(), panels: vec![] };
    assert_eq!(plan_reply(&cfg, &watched(), 900, &answer_to(Some(plain), "well done")), None);
}

#[test]
fn no_reply_when_the_address_is_malformed() {
    let cfg = config(RenderMode::Structured, true);
    let panel = Panel {
        title: "New post".to_string(),
        fields: vec![field("Text", "x"), field("URL", "https://x/status/abc")],
    };
    let incoming = answer_to(Some(sent_by(900, vec![panel])), "well done");
    assert_eq!(plan_reply(&cfg, &watched(), 900, &incoming), None);
}

#[test]
fn confirmation_holds_the_address_of_the_published_reply() {
    assert_eq!(confirmation("acct", 321), "Postet reply: https://twitter.com/acct/status/321");
}

#[test]
fn no_reply_to_a_plaintext_delivery() {
    let cfg = config(RenderMode::Plaintext, true);
    let delivered = finish(&watched(), &cfg, &post(100, 42, "launch day", None), &None);
    let (content, panels) = delivered.into_parts();
    let sent = ChannelMessage { author_id: 900, content, panels };
    assert_eq!(plan_reply(&cfg, &watched(), 900, &answer_to(Some(sent), "well done")), None);
}

#[test]
fn structured_delivery_ends_in_the_address_field() {
    let cfg = config(RenderMode::Structured, true);
    let mut quoting = post(100, 42, "launch day", Some(3));
    quoting.quoted = Some(tweets_to_discord::model::QuotedPost { id: 8, body: "q".to_string() });
    let delivered = finish(&watched(), &cfg, &quoting, &Some("p".to_string()));
    match delivered {
        RenderedMessage::Structured(panel) => {
            assert_eq!(panel.fields.len(), 4);
            assert_eq!(panel.fields.last(), Some(&field("URL", "https://twitter.com/acct/status/100")));
        }
        RenderedMessage::Plaintext(_) => panic!("structured form was configured"),
    }
}
