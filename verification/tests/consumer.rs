use cds_badge::kafka::{
    branch_of_tags, consumer_settings, reports_run, run_of_event, ConsumerAction, ConsumerError,
    ConsumerEvent, ConsumerState, Delivery, DiscardReason, KafkaConsumerActor, Progress,
};
use cds_badge::models::{Event, StatusEnum, Tag};
use cds_badge::run::RunStore;

fn tag(name: &str, value: &str) -> Tag {
    Tag { tag: name.to_string(), value: value.to_string() }
}

fn run_event(num: i64, status: StatusEnum) -> Event {
    let mut event = Event::default();
    event.type_event = "sdk.EventRunWorkflow".to_string();
    event.project_key = "P".to_string();
    event.workflow_name = "w".to_string();
    event.workflow_run_num = num;
    event.status = status;
    event
}

fn actor() -> KafkaConsumerActor {
    KafkaConsumerActor::new(
        vec!["a:9092".to_string(), "b:9092".to_string()],
        "cds".to_string(),
        "user".to_string(),
        "secret".to_string(),
        String::new(),
    )
}

fn consuming() -> KafkaConsumerActor {
    let mut consumer = actor();
    consumer.step(ConsumerEvent::Subscribed);
    consumer.step(ConsumerEvent::StreamStarted);
    consumer
}

fn pairs(list: Vec<(String, String)>) -> Vec<(String, String)> {
    list
}

#[test]
fn branch_is_the_first_branch_tag() {
    assert_eq!(branch_of_tags(&None), None);
    assert_eq!(branch_of_tags(&Some(vec![])), None);
    assert_eq!(branch_of_tags(&Some(vec![tag("git.hash", "abc")])), None);
    assert_eq!(
        branch_of_tags(&Some(vec![
            tag("git.hash", "abc"),
            tag("git.branch", "main"),
            tag("git.branch", "dev"),
        ])),
        Some("main".to_string())
    );
    assert_eq!(branch_of_tags(&Some(vec![tag("git.branch", "")])), Some(String::new()));
    assert_eq!(branch_of_tags(&Some(vec![tag("Git.Branch", "main")])), None);
}

#[test]
fn run_of_an_event() {
    let mut event = run_event(12, StatusEnum::Building);
    event.tag = Some(vec![tag("git.branch", "feature/x")]);
    event.attempt = 4;
    event.hostname = "host".to_string();
    let run = run_of_event(&event);
    assert_eq!(run.id, 0);
    assert_eq!(run.run_id, 0);
    assert_eq!(run.num, 12);
    assert_eq!(run.project_key, "P");
    assert_eq!(run.workflow_name, "w");
    assert_eq!(run.branch, Some("feature/x".to_string()));
    assert_eq!(run.status, "Building");
    assert_eq!(run.updated, 0);
}

#[test]
fn only_run_workflow_events_report_runs() {
    assert!(reports_run(&run_event(1, StatusEnum::Success)));
    let mut other = run_event(1, StatusEnum::Success);
    other.type_event = "sdk.EventRunWorkflowNode".to_string();
    assert!(!reports_run(&other));
    other.type_event = String::new();
    assert!(!reports_run(&other));
}

#[test]
fn settings_with_credentials() {
    let list = pairs(consumer_settings(
        "user",
        "secret",
        "",
        &vec!["a:9092".to_string(), "b:9092".to_string()],
    ));
    let expected: Vec<(String, String)> = vec![
        ("metadata.broker.list", "a:9092,b:9092"),
        ("enable.partition.eof", "false"),
        ("api.version.request", "true"),
        ("debug", "protocol,security,broker"),
        ("session.timeout.ms", "6000"),
        ("auto.offset.reset", "latest"),
        ("enable.auto.commit", "false"),
        ("group.id", "user.cds-badge"),
        ("security.protocol", "SASL_SSL"),
        ("sasl.mechanisms", "PLAIN"),
        ("sasl.username", "user"),
        ("sasl.password", "secret"),
    ]
    .into_iter()
    .map(|(k, v)| (k.to_string(), v.to_string()))
    .collect();
    assert_eq!(list, expected);
    assert_eq!(actor().settings(), expected);
}

#[test]
fn settings_without_credentials() {
    let list = consumer_settings("", "", "badge", &vec!["a:9092".to_string()]);
    assert_eq!(list.len(), 8);
    assert_eq!(list[0], ("metadata.broker.list".to_string(), "a:9092".to_string()));
    assert_eq!(list[7], ("group.id".to_string(), "badge".to_string()));
    let list = consumer_settings("user", "", "", &Vec::new());
    assert_eq!(list.len(), 8);
    assert_eq!(list[0].1, "");
    assert_eq!(list[7].1, "user.cds-badge");
    let list = consumer_settings("", "secret", "", &Vec::new());
    assert_eq!(list.len(), 8);
    assert_eq!(list[7].1, ".cds-badge");
}

#[test]
fn life_of_a_consumer() {
    let mut consumer = actor();
    assert_eq!(consumer.progress, Progress { state: ConsumerState::Starting, in_flight: false });
    assert!(matches!(consumer.step(ConsumerEvent::StreamStarted), ConsumerAction::Ignore));
    assert!(matches!(consumer.step(ConsumerEvent::Subscribed), ConsumerAction::StartStream));
    assert_eq!(consumer.progress.state, ConsumerState::Subscribed);
    assert!(matches!(
        consumer.step(ConsumerEvent::Delivered(Delivery::NoPayload)),
        ConsumerAction::Ignore
    ));
    assert!(matches!(consumer.step(ConsumerEvent::StreamStarted), ConsumerAction::Fetch));
    assert_eq!(consumer.progress.state, ConsumerState::Consuming);
    assert!(matches!(consumer.step(ConsumerEvent::StopRequested), ConsumerAction::Exit));
    assert!(consumer.stopping());
    assert!(matches!(
        consumer.step(ConsumerEvent::Delivered(Delivery::NoPayload)),
        ConsumerAction::Exit
    ));
    assert!(consumer.stopping());
}

#[test]
fn failure_to_subscribe_is_fatal() {
    let mut consumer = actor();
    assert!(matches!(
        consumer.step(ConsumerEvent::SubscribeFailed),
        ConsumerAction::Fail(ConsumerError::BrokerConnectionFailure)
    ));
    assert!(consumer.stopping());
    assert!(matches!(consumer.step(ConsumerEvent::StreamStarted), ConsumerAction::Exit));
    assert!(matches!(consumer.step(ConsumerEvent::Subscribed), ConsumerAction::Exit));
    assert!(consumer.stopping());
}

#[test]
fn one_write_at_a_time() {
    let mut consumer = consuming();
    let action = consumer.step(ConsumerEvent::Delivered(Delivery::Decoded(run_event(
        1,
        StatusEnum::Success,
    ))));
    match action {
        ConsumerAction::Submit(command) => {
            assert_eq!(command.run.num, 1);
            assert_eq!(command.run.status, "Success");
        }
        _ => panic!("expected a submit"),
    }
    assert!(consumer.progress.in_flight);
    assert!(matches!(
        consumer.step(ConsumerEvent::Delivered(Delivery::Decoded(run_event(
            2,
            StatusEnum::Success
        )))),
        ConsumerAction::Ignore
    ));
    assert!(matches!(consumer.step(ConsumerEvent::WriteAcknowledged), ConsumerAction::Commit));
    assert!(!consumer.progress.in_flight);
    assert!(matches!(consumer.step(ConsumerEvent::WriteAcknowledged), ConsumerAction::Ignore));
}

#[test]
fn failed_write_does_not_commit() {
    let mut consumer = consuming();
    consumer.step(ConsumerEvent::Delivered(Delivery::Decoded(run_event(1, StatusEnum::Fail))));
    assert!(matches!(consumer.step(ConsumerEvent::WriteFailed), ConsumerAction::Redeliver));
    assert_eq!(consumer.progress, Progress { state: ConsumerState::Consuming, in_flight: false });
}

#[test]
fn stop_waits_for_the_write_in_flight() {
    let mut consumer = consuming();
    consumer.step(ConsumerEvent::Delivered(Delivery::Decoded(run_event(1, StatusEnum::Fail))));
    assert!(matches!(consumer.step(ConsumerEvent::StopRequested), ConsumerAction::AwaitWrite));
    assert!(consumer.stopping());
    assert!(matches!(
        consumer.step(ConsumerEvent::Delivered(Delivery::Malformed)),
        ConsumerAction::AwaitWrite
    ));
    assert!(matches!(
        consumer.step(ConsumerEvent::WriteAcknowledged),
        ConsumerAction::CommitAndExit
    ));
    assert!(matches!(consumer.step(ConsumerEvent::WriteAcknowledged), ConsumerAction::Exit));

    let mut consumer = consuming();
    consumer.step(ConsumerEvent::Delivered(Delivery::Decoded(run_event(1, StatusEnum::Fail))));
    consumer.step(ConsumerEvent::StopRequested);
    assert!(matches!(consumer.step(ConsumerEvent::WriteFailed), ConsumerAction::Exit));
    assert!(!consumer.progress.in_flight);
}

#[test]
fn deliveries_that_are_passed_over() {
    let mut consumer = consuming();
    let mut store = RunStore::new();
    assert!(matches!(
        consumer.process(&mut store, Delivery::StreamError, 1),
        ConsumerAction::Fetch
    ));
    assert!(matches!(consumer.process(&mut store, Delivery::NoPayload, 1), ConsumerAction::Fetch));
    assert!(matches!(
        consumer.process(&mut store, Delivery::Malformed, 1),
        ConsumerAction::Discard(DiscardReason::MalformedMessage)
    ));
    let mut other = run_event(1, StatusEnum::Success);
    other.type_event = "sdk.EventJob".to_string();
    assert!(matches!(
        consumer.process(&mut store, Delivery::Decoded(other), 1),
        ConsumerAction::Discard(DiscardReason::IrrelevantEvent)
    ));
    assert_eq!(store.len(), 0);
    assert_eq!(consumer.progress, Progress { state: ConsumerState::Consuming, in_flight: false });
    assert!(matches!(
        consumer.process(&mut store, Delivery::Decoded(run_event(1, StatusEnum::Success)), 1),
        ConsumerAction::Commit
    ));
    assert_eq!(store.len(), 1);
}

#[test]
fn nothing_is_stored_before_the_stream_is_open() {
    let mut consumer = actor();
    let mut store = RunStore::new();
    assert!(matches!(
        consumer.process(&mut store, Delivery::Decoded(run_event(1, StatusEnum::Success)), 1),
        ConsumerAction::Ignore
    ));
    assert_eq!(store.len(), 0);
}

#[test]
fn failed_write_leaves_the_offset() {
    let mut full = cds_badge::models::Run::default();
    full.id = i64::MAX - 1;
    let mut store = RunStore::from_rows(vec![full]).unwrap();
    let mut consumer = consuming();
    assert!(matches!(
        consumer.process(&mut store, Delivery::Decoded(run_event(1, StatusEnum::Success)), 1),
        ConsumerAction::Redeliver
    ));
    assert_eq!(store.len(), 1);
    assert_eq!(consumer.progress, Progress { state: ConsumerState::Consuming, in_flight: false });
}
