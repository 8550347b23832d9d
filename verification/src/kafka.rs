//! The event consumer: how the broker client is set up, which events become
//! runs, and the decisions taken for each delivery.
use crate::models::{opt_tag_views, opt_text, Event, EventView, Run, RunView, Tag, TagView};
use crate::run::{
    latest, lemma_write_then_read, matches_key, not_after, stored, CreateRun, QueryRunView,
    RunStore,
};
use crate::text::{join, joined, str_eq, texts};
use vstd::prelude::*;

verus! {

/// The type of the events that report a workflow run.
pub const RUN_WORKFLOW_EVENT: &'static str = "sdk.EventRunWorkflow";

/// The tag that carries the branch of a run.
pub const BRANCH_TAG: &'static str = "git.branch";

/// Whether an event reports a workflow run.
pub open spec fn is_run_event(e: EventView) -> bool {
    e.type_event == RUN_WORKFLOW_EVENT@
}

/// Whether some tag is the branch tag.
pub open spec fn has_branch_tag(tags: Seq<TagView>) -> bool {
    exists|i: int| 0 <= i < tags.len() && (#[trigger] tags[i]).tag == BRANCH_TAG@
}

/// Whether tag `i` is the first branch tag.
pub open spec fn is_first_branch_tag(tags: Seq<TagView>, i: int) -> bool {
    &&& 0 <= i < tags.len()
    &&& tags[i].tag == BRANCH_TAG@
    &&& forall|j: int| 0 <= j < i ==> (#[trigger] tags[j]).tag != BRANCH_TAG@
}

/// The branch that a list of tags names: the value of its first branch tag.
pub open spec fn branch_of(tags: Seq<TagView>) -> Option<Seq<char>> {
    if has_branch_tag(tags) {
        Some(tags[choose|i: int| is_first_branch_tag(tags, i)].value)
    } else {
        None
    }
}

/// The first branch tag settles the branch.
pub proof fn lemma_first_branch_tag(tags: Seq<TagView>, i: int)
    requires
        is_first_branch_tag(tags, i),
    ensures
        branch_of(tags) == Some(tags[i].value),
{
    assert(tags[i].tag == BRANCH_TAG@);
    let k = choose|k: int| is_first_branch_tag(tags, k);
    if k < i {
        assert(tags[k].tag != BRANCH_TAG@);
    } else if i < k {
        assert(tags[i].tag != BRANCH_TAG@);
    }
}

/// Up to a branch tag there is a first one.
proof fn lemma_least_branch_tag(tags: Seq<TagView>, i: int)
    requires
        0 <= i < tags.len(),
        tags[i].tag == BRANCH_TAG@,
    ensures
        exists|k: int| is_first_branch_tag(tags, k),
    decreases i,
{
    if exists|j: int| 0 <= j < i && (#[trigger] tags[j]).tag == BRANCH_TAG@ {
        let j = choose|j: int| 0 <= j < i && (#[trigger] tags[j]).tag == BRANCH_TAG@;
        lemma_least_branch_tag(tags, j);
    } else {
        assert(is_first_branch_tag(tags, i));
    }
}

/// Where some tag is the branch tag, one is the first, and the branch is its
/// value. Where none is, there is no branch.
pub proof fn lemma_branch_tag_exists(tags: Seq<TagView>)
    ensures
        has_branch_tag(tags) ==> {
            let first = choose|i: int| is_first_branch_tag(tags, i);
            &&& is_first_branch_tag(tags, first)
            &&& branch_of(tags) == Some(tags[first].value)
        },
        !has_branch_tag(tags) ==> branch_of(tags) is None,
{
    if has_branch_tag(tags) {
        let i = choose|i: int| 0 <= i < tags.len() && (#[trigger] tags[i]).tag == BRANCH_TAG@;
        lemma_least_branch_tag(tags, i);
    }
}

/// The run that an event reports: its number, project, workflow and status,
/// on the branch that its tags name. Identifier and timestamp are left to the
/// store.
pub open spec fn run_of(e: EventView) -> RunView {
    RunView {
        id: 0,
        run_id: 0,
        num: e.workflow_run_num,
        project_key: e.project_key,
        workflow_name: e.workflow_name,
        branch: branch_of(e.tags),
        status: e.status.name(),
        updated: 0,
    }
}

/// Whether an event reports a workflow run.
pub fn reports_run(event: &Event) -> (r: bool)
    ensures
        r == is_run_event(event@),
{
    str_eq(event.type_event.as_str(), RUN_WORKFLOW_EVENT)
}

/// The branch that the tags of an event name, if any.
pub fn branch_of_tags(tags: &Option<Vec<Tag>>) -> (r: Option<String>)
    ensures
        opt_text(r) == branch_of(opt_tag_views(*tags)),
{
    match tags {
        None => None,
        Some(list) => {
            let ghost views = opt_tag_views(*tags);
            let mut i: usize = 0;
            while i < list.len()
                invariant
                    i <= list.len(),
                    views == opt_tag_views(*tags),
                    *tags == Some(*list),
                    forall|j: int| 0 <= j < i ==> (#[trigger] views[j]).tag != BRANCH_TAG@,
                decreases list.len() - i,
            {
                assert(views[i as int] == list@[i as int]@);
                if str_eq(list[i].tag.as_str(), BRANCH_TAG) {
                    proof {
                        lemma_first_branch_tag(views, i as int);
                    }
                    return Some(list[i].value.clone());
                }
                i = i + 1;
            }
            None
        },
    }
}

/// The run that an event reports.
pub fn run_of_event(event: &Event) -> (r: Run)
    ensures
        r@ == run_of(event@),
{
    Run {
        id: 0,
        run_id: 0,
        num: event.workflow_run_num,
        project_key: event.project_key.clone(),
        workflow_name: event.workflow_name.clone(),
        branch: branch_of_tags(&event.tag),
        status: event.status.as_str().to_owned(),
        updated: 0,
    }
}

/// The suffix that makes a consumer group out of a user name.
pub const GROUP_SUFFIX: &'static str = ".cds-badge";

/// The consumer group: the configured one, or, where none is configured, the
/// user name with the suffix `.cds-badge`.
pub open spec fn group_id(user: Seq<char>, group: Seq<char>) -> Seq<char> {
    if group.len() > 0 {
        group
    } else {
        user + GROUP_SUFFIX@
    }
}

/// The settings of the broker client, in the order in which they are set.
/// Offsets are never committed by the client on its own. The four settings
/// for authentication are there exactly when a user and a password are given.
pub open spec fn settings_of(
    user: Seq<char>,
    password: Seq<char>,
    group: Seq<char>,
    brokers: Seq<Seq<char>>,
) -> Seq<(Seq<char>, Seq<char>)> {
    let plain = seq![
        ("metadata.broker.list"@, joined(brokers, ","@)),
        ("enable.partition.eof"@, "false"@),
        ("api.version.request"@, "true"@),
        ("debug"@, "protocol,security,broker"@),
        ("session.timeout.ms"@, "6000"@),
        ("auto.offset.reset"@, "latest"@),
        ("enable.auto.commit"@, "false"@),
        ("group.id"@, group_id(user, group)),
    ];
    if user.len() > 0 && password.len() > 0 {
        plain + seq![
            ("security.protocol"@, "SASL_SSL"@),
            ("sasl.mechanisms"@, "PLAIN"@),
            ("sasl.username"@, user),
            ("sasl.password"@, password),
        ]
    } else {
        plain
    }
}

/// The characters of each key and value of a list of settings.
pub open spec fn setting_views(list: Seq<(String, String)>) -> Seq<(Seq<char>, Seq<char>)> {
    list.map_values(|p: (String, String)| (p.0@, p.1@))
}

fn push_setting(list: &mut Vec<(String, String)>, key: &str, value: &str)
    ensures
        setting_views(final(list)@) == setting_views(old(list)@).push((key@, value@)),
{
    list.push((key.to_owned(), value.to_owned()));
    assert(setting_views(list@) =~= setting_views(old(list)@).push((key@, value@)));
}

/// The settings with which the broker client is created.
pub fn consumer_settings(user: &str, password: &str, group: &str, brokers: &Vec<String>) -> (r: Vec<
    (String, String),
>)
    ensures
        setting_views(r@) == settings_of(user@, password@, group@, texts(brokers@)),
{
    let mut list: Vec<(String, String)> = Vec::new();
    assert(setting_views(list@) =~= Seq::empty());
    let broker_list = join(brokers, ",");
    push_setting(&mut list, "metadata.broker.list", broker_list.as_str());
    push_setting(&mut list, "enable.partition.eof", "false");
    push_setting(&mut list, "api.version.request", "true");
    push_setting(&mut list, "debug", "protocol,security,broker");
    push_setting(&mut list, "session.timeout.ms", "6000");
    push_setting(&mut list, "auto.offset.reset", "latest");
    push_setting(&mut list, "enable.auto.commit", "false");
    if group.is_empty() {
        let mut id = user.to_owned();
        id.append(GROUP_SUFFIX);
        push_setting(&mut list, "group.id", id.as_str());
    } else {
        push_setting(&mut list, "group.id", group);
    }
    if !user.is_empty() && !password.is_empty() {
        push_setting(&mut list, "security.protocol", "SASL_SSL");
        push_setting(&mut list, "sasl.mechanisms", "PLAIN");
        push_setting(&mut list, "sasl.username", user);
        push_setting(&mut list, "sasl.password", password);
    }
    assert(setting_views(list@) =~= settings_of(user@, password@, group@, texts(brokers@)));
    list
}

/// Where the consumer stands in its life.
#[derive(Debug, PartialEq, Eq, Clone, Copy, Structural)]
pub enum ConsumerState {
    /// Not yet subscribed to the topic.
    Starting,
    /// Subscribed; the message stream is not yet open.
    Subscribed,
    /// Taking messages off the stream, one at a time.
    Consuming,
    /// Told to stop, or failed for good.
    Stopping,
}

/// The state of the consumer, and whether a write that it submitted has not
/// come back yet.
#[derive(Debug, PartialEq, Eq, Clone, Copy, Structural)]
pub struct Progress {
    pub state: ConsumerState,
    pub in_flight: bool,
}

/// Why a message is dropped for good.
#[derive(Debug, PartialEq, Eq, Clone, Copy, Structural)]
pub enum DiscardReason {
    /// The payload is no event.
    MalformedMessage,
    /// The event reports something other than a workflow run.
    IrrelevantEvent,
}

/// Why the consumer gives up.
#[derive(Debug, PartialEq, Eq, Clone, Copy, Structural)]
pub enum ConsumerError {
    /// The topic could not be subscribed to.
    BrokerConnectionFailure,
}

/// What the stream handed over for one fetch.
#[derive(Debug)]
pub enum Delivery {
    /// The stream reported an error in place of a message.
    StreamError,
    /// A message without a payload.
    NoPayload,
    /// A message whose payload does not decode to an event.
    Malformed,
    /// A message whose payload is this event.
    Decoded(Event),
}

/// The mathematical value of a [`Delivery`].
pub enum DeliveryView {
    StreamError,
    NoPayload,
    Malformed,
    Decoded(EventView),
}

impl View for Delivery {
    type V = DeliveryView;

    open spec fn view(&self) -> DeliveryView {
        match self {
            Delivery::StreamError => DeliveryView::StreamError,
            Delivery::NoPayload => DeliveryView::NoPayload,
            Delivery::Malformed => DeliveryView::Malformed,
            Delivery::Decoded(e) => DeliveryView::Decoded(e@),
        }
    }
}

/// What happened outside the consumer since its last action.
#[derive(Debug)]
pub enum ConsumerEvent {
    /// The topic is subscribed to.
    Subscribed,
    /// The topic could not be subscribed to.
    SubscribeFailed,
    /// The message stream is open.
    StreamStarted,
    /// A fetch came back.
    Delivered(Delivery),
    /// The store acknowledged the write that was submitted.
    WriteAcknowledged,
    /// The write that was submitted failed.
    WriteFailed,
    /// The consumer is told to stop.
    StopRequested,
}

/// The mathematical value of a [`ConsumerEvent`].
pub enum ConsumerEventView {
    Subscribed,
    SubscribeFailed,
    StreamStarted,
    Delivered(DeliveryView),
    WriteAcknowledged,
    WriteFailed,
    StopRequested,
}

impl View for ConsumerEvent {
    type V = ConsumerEventView;

    open spec fn view(&self) -> ConsumerEventView {
        match self {
            ConsumerEvent::Subscribed => ConsumerEventView::Subscribed,
            ConsumerEvent::SubscribeFailed => ConsumerEventView::SubscribeFailed,
            ConsumerEvent::StreamStarted => ConsumerEventView::StreamStarted,
            ConsumerEvent::Delivered(d) => ConsumerEventView::Delivered(d@),
            ConsumerEvent::WriteAcknowledged => ConsumerEventView::WriteAcknowledged,
            ConsumerEvent::WriteFailed => ConsumerEventView::WriteFailed,
            ConsumerEvent::StopRequested => ConsumerEventView::StopRequested,
        }
    }
}

/// What the consumer asks to be done next.
pub enum ConsumerAction {
    /// Open the message stream.
    StartStream,
    /// Fetch the next message.
    Fetch,
    /// Submit this command to the store and wait for its result.
    Submit(CreateRun),
    /// Drop the message for good: advance the offset past it, then fetch.
    Discard(DiscardReason),
    /// The write is acknowledged: advance the offset past its message, then
    /// fetch.
    Commit,
    /// The write failed: leave the offset where it is, so that the broker
    /// delivers the message again, then fetch.
    Redeliver,
    /// Stopping with a write in flight: wait for its result.
    AwaitWrite,
    /// The write is acknowledged while stopping: advance the offset, then
    /// leave.
    CommitAndExit,
    /// Leave.
    Exit,
    /// Give up for good.
    Fail(ConsumerError),
    /// The event does not apply here: nothing is to be done for it.
    Ignore,
}

/// The mathematical value of a [`ConsumerAction`].
pub enum ConsumerActionView {
    StartStream,
    Fetch,
    Submit(RunView),
    Discard(DiscardReason),
    Commit,
    Redeliver,
    AwaitWrite,
    CommitAndExit,
    Exit,
    Fail(ConsumerError),
    Ignore,
}

impl View for ConsumerAction {
    type V = ConsumerActionView;

    open spec fn view(&self) -> ConsumerActionView {
        match self {
            ConsumerAction::StartStream => ConsumerActionView::StartStream,
            ConsumerAction::Fetch => ConsumerActionView::Fetch,
            ConsumerAction::Submit(c) => ConsumerActionView::Submit(c.run@),
            ConsumerAction::Discard(r) => ConsumerActionView::Discard(*r),
            ConsumerAction::Commit => ConsumerActionView::Commit,
            ConsumerAction::Redeliver => ConsumerActionView::Redeliver,
            ConsumerAction::AwaitWrite => ConsumerActionView::AwaitWrite,
            ConsumerAction::CommitAndExit => ConsumerActionView::CommitAndExit,
            ConsumerAction::Exit => ConsumerActionView::Exit,
            ConsumerAction::Fail(e) => ConsumerActionView::Fail(*e),
            ConsumerAction::Ignore => ConsumerActionView::Ignore,
        }
    }
}

/// The progress of a consumer that has not done anything yet.
pub open spec fn initial() -> Progress {
    Progress { state: ConsumerState::Starting, in_flight: false }
}

/// What a delivery leads to while consuming with no write in flight. A run
/// event is submitted to the store. A stream error and an empty message are
/// passed over. Everything else is dropped for good.
pub open spec fn on_delivery(d: DeliveryView) -> (Progress, ConsumerActionView) {
    let idle = Progress { state: ConsumerState::Consuming, in_flight: false };
    match d {
        DeliveryView::StreamError => (idle, ConsumerActionView::Fetch),
        DeliveryView::NoPayload => (idle, ConsumerActionView::Fetch),
        DeliveryView::Malformed => (
            idle,
            ConsumerActionView::Discard(DiscardReason::MalformedMessage),
        ),
        DeliveryView::Decoded(e) => if is_run_event(e) {
            (
                Progress { state: ConsumerState::Consuming, in_flight: true },
                ConsumerActionView::Submit(run_of(e)),
            )
        } else {
            (idle, ConsumerActionView::Discard(DiscardReason::IrrelevantEvent))
        },
    }
}

/// The step of the consumer: where an event takes it, and what it asks for.
pub open spec fn next(p: Progress, ev: ConsumerEventView) -> (Progress, ConsumerActionView) {
    let stopped = Progress { state: ConsumerState::Stopping, in_flight: false };
    if ev is StopRequested {
        if p.in_flight {
            (Progress { state: ConsumerState::Stopping, in_flight: true }, ConsumerActionView::AwaitWrite)
        } else {
            (stopped, ConsumerActionView::Exit)
        }
    } else {
        match p.state {
            ConsumerState::Starting => match ev {
                ConsumerEventView::Subscribed => (
                    Progress { state: ConsumerState::Subscribed, in_flight: false },
                    ConsumerActionView::StartStream,
                ),
                ConsumerEventView::SubscribeFailed => (
                    stopped,
                    ConsumerActionView::Fail(ConsumerError::BrokerConnectionFailure),
                ),
                _ => (p, ConsumerActionView::Ignore),
            },
            ConsumerState::Subscribed => match ev {
                ConsumerEventView::StreamStarted => (
                    Progress { state: ConsumerState::Consuming, in_flight: false },
                    ConsumerActionView::Fetch,
                ),
                _ => (p, ConsumerActionView::Ignore),
            },
            ConsumerState::Consuming => if p.in_flight {
                match ev {
                    ConsumerEventView::WriteAcknowledged => (
                        Progress { state: ConsumerState::Consuming, in_flight: false },
                        ConsumerActionView::Commit,
                    ),
                    ConsumerEventView::WriteFailed => (
                        Progress { state: ConsumerState::Consuming, in_flight: false },
                        ConsumerActionView::Redeliver,
                    ),
                    _ => (p, ConsumerActionView::Ignore),
                }
            } else {
                match ev {
                    ConsumerEventView::Delivered(d) => on_delivery(d),
                    _ => (p, ConsumerActionView::Ignore),
                }
            },
            ConsumerState::Stopping => if p.in_flight {
                match ev {
                    ConsumerEventView::WriteAcknowledged => (
                        stopped,
                        ConsumerActionView::CommitAndExit,
                    ),
                    ConsumerEventView::WriteFailed => (stopped, ConsumerActionView::Exit),
                    _ => (p, ConsumerActionView::AwaitWrite),
                }
            } else {
                (stopped, ConsumerActionView::Exit)
            },
        }
    }
}

/// The consumer of the broker's events: how it reaches the broker, and where
/// it stands.
#[derive(Debug)]
pub struct KafkaConsumerActor {
    pub brokers: Vec<String>,
    pub topic: String,
    pub user: String,
    pub password: String,
    pub group: String,
    pub progress: Progress,
}

impl KafkaConsumerActor {
    /// A consumer that has not started yet.
    pub fn new(brokers: Vec<String>, topic: String, user: String, password: String, group: String) -> (r:
        KafkaConsumerActor)
        ensures
            r.brokers == brokers,
            r.topic == topic,
            r.user == user,
            r.password == password,
            r.group == group,
            r.progress == initial(),
    {
        KafkaConsumerActor {
            brokers,
            topic,
            user,
            password,
            group,
            progress: Progress { state: ConsumerState::Starting, in_flight: false },
        }
    }

    /// The settings with which this consumer's broker client is created.
    pub fn settings(&self) -> (r: Vec<(String, String)>)
        ensures
            setting_views(r@) == settings_of(
                self.user@,
                self.password@,
                self.group@,
                texts(self.brokers@),
            ),
    {
        consumer_settings(
            self.user.as_str(),
            self.password.as_str(),
            self.group.as_str(),
            &self.brokers,
        )
    }

    /// Takes one event: moves the consumer on and says what is to be done.
    pub fn step(&mut self, event: ConsumerEvent) -> (action: ConsumerAction)
        ensures
            (final(self).progress, action@) == next(old(self).progress, event@),
            final(self).brokers == old(self).brokers,
            final(self).topic == old(self).topic,
            final(self).user == old(self).user,
            final(self).password == old(self).password,
            final(self).group == old(self).group,
    {
        let p = self.progress;
        match event {
            ConsumerEvent::StopRequested => {
                self.progress.state = ConsumerState::Stopping;
                if p.in_flight {
                    ConsumerAction::AwaitWrite
                } else {
                    ConsumerAction::Exit
                }
            },
            ConsumerEvent::Subscribed => match p.state {
                ConsumerState::Starting => {
                    self.progress = Progress { state: ConsumerState::Subscribed, in_flight: false };
                    ConsumerAction::StartStream
                },
                _ => self.idle_answer(),
            },
            ConsumerEvent::SubscribeFailed => match p.state {
                ConsumerState::Starting => {
                    self.progress = Progress { state: ConsumerState::Stopping, in_flight: false };
                    ConsumerAction::Fail(ConsumerError::BrokerConnectionFailure)
                },
                _ => self.idle_answer(),
            },
            ConsumerEvent::StreamStarted => match p.state {
                ConsumerState::Subscribed => {
                    self.progress = Progress { state: ConsumerState::Consuming, in_flight: false };
                    ConsumerAction::Fetch
                },
                _ => self.idle_answer(),
            },
            ConsumerEvent::WriteAcknowledged => match (p.state, p.in_flight) {
                (ConsumerState::Consuming, true) => {
                    self.progress.in_flight = false;
                    ConsumerAction::Commit
                },
                (ConsumerState::Stopping, true) => {
                    self.progress.in_flight = false;
                    ConsumerAction::CommitAndExit
                },
                _ => self.idle_answer(),
            },
            ConsumerEvent::WriteFailed => match (p.state, p.in_flight) {
                (ConsumerState::Consuming, true) => {
                    self.progress.in_flight = false;
                    ConsumerAction::Redeliver
                },
                (ConsumerState::Stopping, true) => {
                    self.progress.in_flight = false;
                    ConsumerAction::Exit
                },
                _ => self.idle_answer(),
            },
            ConsumerEvent::Delivered(delivery) => match (p.state, p.in_flight) {
                (ConsumerState::Consuming, false) => match delivery {
                    Delivery::StreamError => ConsumerAction::Fetch,
                    Delivery::NoPayload => ConsumerAction::Fetch,
                    Delivery::Malformed => ConsumerAction::Discard(DiscardReason::MalformedMessage),
                    Delivery::Decoded(e) => {
                        if reports_run(&e) {
                            self.progress.in_flight = true;
                            ConsumerAction::Submit(CreateRun { run: run_of_event(&e) })
                        } else {
                            ConsumerAction::Discard(DiscardReason::IrrelevantEvent)
                        }
                    },
                },
                _ => self.idle_answer(),
            },
        }
    }

    /// The answer to an event that does not apply: while stopping, the way
    /// out; elsewhere nothing.
    fn idle_answer(&mut self) -> (action: ConsumerAction)
        ensures
            *final(self) == *old(self),
            action@ == match (old(self).progress.state, old(self).progress.in_flight) {
                (ConsumerState::Stopping, true) => ConsumerActionView::AwaitWrite,
                (ConsumerState::Stopping, false) => ConsumerActionView::Exit,
                _ => ConsumerActionView::Ignore,
            },
    {
        match (self.progress.state, self.progress.in_flight) {
            (ConsumerState::Stopping, true) => ConsumerAction::AwaitWrite,
            (ConsumerState::Stopping, false) => ConsumerAction::Exit,
            _ => ConsumerAction::Ignore,
        }
    }

    /// Takes one delivery through to its end against a store: the step for
    /// the delivery and, where that submits a write, the write and the step
    /// for its result. The write is stamped with the time `now`.
    pub fn process(&mut self, store: &mut RunStore, delivery: Delivery, now: i64) -> (action:
        ConsumerAction)
        ensures
            final(store).wf(),
            final(self).brokers == old(self).brokers,
            final(self).topic == old(self).topic,
            final(self).user == old(self).user,
            final(self).password == old(self).password,
            final(self).group == old(self).group,
            ({
                let first = next(old(self).progress, ConsumerEventView::Delivered(delivery@));
                match first.1 {
                    ConsumerActionView::Submit(run) => if old(store).next_id() < i64::MAX {
                        &&& final(store)@ == old(store)@.push(
                            stored(run, old(store).next_id(), now),
                        )
                        &&& final(store).next_id() == old(store).next_id() + 1
                        &&& (final(self).progress, action@) == next(
                            first.0,
                            ConsumerEventView::WriteAcknowledged,
                        )
                    } else {
                        &&& final(store)@ == old(store)@
                        &&& final(store).next_id() == old(store).next_id()
                        &&& (final(self).progress, action@) == next(
                            first.0,
                            ConsumerEventView::WriteFailed,
                        )
                    },
                    _ => {
                        &&& final(store)@ == old(store)@
                        &&& final(store).next_id() == old(store).next_id()
                        &&& final(self).progress == first.0
                        &&& action@ == first.1
                    },
                }
            }),
    {
        proof {
            use_type_invariant(&*store);
        }
        match self.step(ConsumerEvent::Delivered(delivery)) {
            ConsumerAction::Submit(command) => {
                match store.create_run(command, now) {
                    Ok(_) => self.step(ConsumerEvent::WriteAcknowledged),
                    Err(_) => self.step(ConsumerEvent::WriteFailed),
                }
            },
            other => other,
        }
    }

    /// Whether the consumer is to stop.
    pub fn stopping(&self) -> (r: bool)
        ensures
            r == (self.progress.state == ConsumerState::Stopping),
    {
        match self.progress.state {
            ConsumerState::Stopping => true,
            _ => false,
        }
    }
}

/// Whether a write in flight is only ever there while consuming or stopping.
pub open spec fn well_formed(p: Progress) -> bool {
    p.in_flight ==> p.state == ConsumerState::Consuming || p.state == ConsumerState::Stopping
}

/// What holds of every step. A write is in flight only while consuming or
/// stopping. Stopping is final. The offset of a submitted run advances
/// exactly when its write is acknowledged; a failed write never advances it.
/// A write is submitted only while consuming with none in flight, so there is
/// never more than one. The consumer comes to consume only from the opened
/// stream, and a failure to subscribe ends it.
pub proof fn lemma_step(p: Progress, ev: ConsumerEventView)
    requires
        well_formed(p),
    ensures
        well_formed(next(p, ev).0),
        p.state == ConsumerState::Stopping ==> next(p, ev).0.state == ConsumerState::Stopping,
        (next(p, ev).1 is Commit || next(p, ev).1 is CommitAndExit) <==> (ev is WriteAcknowledged
            && p.in_flight),
        next(p, ev).1 is Submit ==> p == (Progress {
            state: ConsumerState::Consuming,
            in_flight: false,
        }) && next(p, ev).0 == (Progress { state: ConsumerState::Consuming, in_flight: true }),
        next(p, ev).0.state == ConsumerState::Consuming ==> p.state == ConsumerState::Consuming || (
        p.state == ConsumerState::Subscribed && ev is StreamStarted),
        p.state == ConsumerState::Starting && ev is SubscribeFailed ==> next(p, ev) == (
            Progress { state: ConsumerState::Stopping, in_flight: false },
            ConsumerActionView::Fail(ConsumerError::BrokerConnectionFailure),
        ),
{
}

/// Resilience: while consuming, a delivery that is no run event (a payload
/// that does not decode, an event of another type, a stream error, an empty
/// message) leaves the consumer as it was, and the run event that comes next
/// is submitted.
pub proof fn lemma_bad_delivery_is_passed_over(bad: DeliveryView, e: EventView)
    requires
        !(bad matches DeliveryView::Decoded(b) && is_run_event(b)),
        is_run_event(e),
    ensures
        ({
            let idle = Progress { state: ConsumerState::Consuming, in_flight: false };
            let after = next(idle, ConsumerEventView::Delivered(bad));
            &&& after.0 == idle
            &&& bad is Malformed ==> after.1 == ConsumerActionView::Discard(
                DiscardReason::MalformedMessage,
            )
            &&& !(after.1 is Submit) && !(after.1 is Fail) && !(after.1 is Exit)
            &&& next(after.0, ConsumerEventView::Delivered(DeliveryView::Decoded(e))).1
                == ConsumerActionView::Submit(run_of(e))
        }),
{
}

/// Whether a delivery is passed over: every one is but a run event.
pub open spec fn is_passed_over(d: DeliveryView) -> bool {
    match d {
        DeliveryView::Decoded(e) => !is_run_event(e),
        _ => true,
    }
}

/// Where the consumer stands after a row of fetches came back, one after the
/// other, if each write that it submits on the way is left unanswered.
pub open spec fn after_deliveries(p: Progress, deliveries: Seq<DeliveryView>) -> Progress
    decreases deliveries.len(),
{
    if deliveries.len() == 0 {
        p
    } else {
        next(
            after_deliveries(p, deliveries.drop_last()),
            ConsumerEventView::Delivered(deliveries.last()),
        ).0
    }
}

/// Resilience, for any number of deliveries: while consuming, deliveries that
/// are all passed over leave the consumer as it was, however many they are,
/// and the run event that comes after them is submitted.
pub proof fn lemma_bad_deliveries_are_passed_over(deliveries: Seq<DeliveryView>, e: EventView)
    requires
        forall|i: int| 0 <= i < deliveries.len() ==> is_passed_over(#[trigger] deliveries[i]),
        is_run_event(e),
    ensures
        ({
            let idle = Progress { state: ConsumerState::Consuming, in_flight: false };
            &&& after_deliveries(idle, deliveries) == idle
            &&& next(
                after_deliveries(idle, deliveries),
                ConsumerEventView::Delivered(DeliveryView::Decoded(e)),
            ).1 == ConsumerActionView::Submit(run_of(e))
        }),
    decreases deliveries.len(),
{
    if deliveries.len() > 0 {
        let front = deliveries.drop_last();
        assert forall|i: int| 0 <= i < front.len() implies is_passed_over(#[trigger] front[i]) by {
            assert(front[i] == deliveries[i]);
        }
        lemma_bad_deliveries_are_passed_over(front, e);
        assert(is_passed_over(deliveries[deliveries.len() - 1]));
    }
}

/// Write, then read, for an event: once the run of an event is appended, a
/// query for the event's project, workflow and branch finds a run with the
/// event's status, provided no row already filed under that key stands after
/// the new one in the order by `(num, updated)`.
pub proof fn lemma_ingest_then_read(log: Seq<RunView>, e: EventView, id: i64, now: i64)
    requires
        forall|j: int|
            0 <= j < log.len() && matches_key(
                #[trigger] log[j],
                QueryRunView {
                    project_key: e.project_key,
                    workflow_name: e.workflow_name,
                    branch: branch_of(e.tags),
                },
            ) ==> not_after(log[j], stored(run_of(e), id, now)),
    ensures
        ({
            let key = QueryRunView {
                project_key: e.project_key,
                workflow_name: e.workflow_name,
                branch: branch_of(e.tags),
            };
            let found = latest(log.push(stored(run_of(e), id, now)), key);
            found is Some && found->0.status == e.status.name() && found->0.num
                == e.workflow_run_num
        }),
{
    lemma_write_then_read(log, run_of(e), id, now);
}

} // verus!
