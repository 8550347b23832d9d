use badge::{Badge, BadgeOptions};
use cds_badge::badge::badge_handler;
use cds_badge::kafka::{ConsumerAction, ConsumerEvent, Delivery, KafkaConsumerActor};
use cds_badge::models::{Event, StatusEnum, Tag};
use cds_badge::run::RunStore;

fn consuming() -> KafkaConsumerActor {
    let mut consumer = KafkaConsumerActor::new(
        vec!["localhost:9092".to_string()],
        "cds".to_string(),
        String::new(),
        String::new(),
        String::new(),
    );
    assert!(matches!(consumer.step(ConsumerEvent::Subscribed), ConsumerAction::StartStream));
    assert!(matches!(consumer.step(ConsumerEvent::StreamStarted), ConsumerAction::Fetch));
    consumer
}

fn success_on_main() -> Event {
    let mut event = Event::default();
    event.type_event = "sdk.EventRunWorkflow".to_string();
    event.project_key = "TEST".to_string();
    event.workflow_name = "wf1".to_string();
    event.workflow_run_num = 3;
    event.status = StatusEnum::from("Success");
    event.tag = Some(vec![Tag { tag: "git.branch".to_string(), value: "main".to_string() }]);
    event
}

fn success_badge() -> String {
    Badge::new(BadgeOptions {
        subject: "CDS".to_string(),
        status: "Success".to_string(),
        color: "#21BA45".to_string(),
    })
    .unwrap()
    .to_svg()
}

#[test]
fn badge_by_branch_parameter() {
    let mut store = RunStore::new();
    let mut consumer = consuming();
    let action = consumer.process(&mut store, Delivery::Decoded(success_on_main()), 1);
    assert!(matches!(action, ConsumerAction::Commit));
    let reply = badge_handler(&store, "TEST", "wf1", Some("main"), None);
    assert_eq!(reply.status, 200);
    assert_eq!(reply.content_type, "image/svg+xml");
    assert_eq!(reply.body, success_badge());
    assert!(reply.body.contains("#21BA45"));
    assert!(reply.body.contains(">Success</text>"));
}

#[test]
fn badge_by_referer_header() {
    let mut store = RunStore::new();
    let mut consumer = consuming();
    consumer.process(&mut store, Delivery::Decoded(success_on_main()), 1);
    let by_header =
        badge_handler(&store, "TEST", "wf1", None, Some("https://example/TEST/wf1/tree/main"));
    let by_parameter = badge_handler(&store, "TEST", "wf1", Some("main"), None);
    assert_eq!(by_header.status, 200);
    assert_eq!(by_header.body, by_parameter.body);
    assert_eq!(by_header.content_type, by_parameter.content_type);
    assert_eq!(by_header.body, success_badge());
}

#[test]
fn badge_of_a_workflow_never_seen() {
    let store = RunStore::new();
    let reply = badge_handler(&store, "X", "Y", None, None);
    assert_eq!(reply.status, 404);
    assert_eq!(reply.body, "\"Not run found\"");
}

#[test]
fn branch_parameter_overrides_the_header() {
    let mut store = RunStore::new();
    let mut consumer = consuming();
    consumer.process(&mut store, Delivery::Decoded(success_on_main()), 1);
    let mut failed = success_on_main();
    failed.status = StatusEnum::Fail;
    failed.tag = Some(vec![Tag { tag: "git.branch".to_string(), value: "dev".to_string() }]);
    consumer.process(&mut store, Delivery::Decoded(failed), 2);
    let header = Some("https://example/TEST/wf1/tree/main");
    let reply = badge_handler(&store, "TEST", "wf1", Some("dev"), header);
    assert!(reply.body.contains(">Fail</text>"));
    assert!(reply.body.contains("#FF4F60"));
    let reply = badge_handler(&store, "TEST", "wf1", Some(""), header);
    assert!(reply.body.contains(">Success</text>"));
    let reply = badge_handler(&store, "TEST", "wf1", None, None);
    assert_eq!(reply.status, 404);
}

#[test]
fn malformed_payload_does_not_stop_the_consumer() {
    let mut store = RunStore::new();
    let mut consumer = consuming();
    let action = consumer.process(&mut store, Delivery::Malformed, 1);
    assert!(matches!(
        action,
        ConsumerAction::Discard(cds_badge::kafka::DiscardReason::MalformedMessage)
    ));
    assert!(!consumer.stopping());
    assert_eq!(store.len(), 0);
    let action = consumer.process(&mut store, Delivery::Decoded(success_on_main()), 2);
    assert!(matches!(action, ConsumerAction::Commit));
    assert_eq!(store.len(), 1);
    let reply = badge_handler(&store, "TEST", "wf1", Some("main"), None);
    assert_eq!(reply.status, 200);
}
