//! The side of the ledger that faces the message transport: the settings of
//! its clients, the workers and their topics, and the hand-over of events to
//! the observers. The transport itself is not part of the library.

use vstd::prelude::*;

use crate::checksum::stamp_of;
use crate::domain::{LedgerCommand, LedgerCommandView, LedgerEvent, SubscriptionEvent};
use crate::lmdb_store::LmdbContext;
use crate::processor::{apply, outcome_of, step, FreshIds, RejectReason};

verus! {

/// The address of the brokers.
pub open spec fn brokers_text() -> Seq<char> {
    "localhost:9092"@
}

/// The topic on which commands arrive.
pub open spec fn commands_topic() -> Seq<char> {
    "test-cmd"@
}

/// The topic on which accepted events are published.
pub open spec fn events_topic() -> Seq<char> {
    "test-evt"@
}

/// The topic on which the doings of connected clients are published.
pub open spec fn subscribers_topic() -> Seq<char> {
    "test-evt-subscriber"@
}

/// One worker: its name, the topics it reads, and the topic to which it
/// publishes events, if it publishes.
#[derive(Debug)]
pub struct WorkerConfig {
    pub name: String,
    pub topics: Vec<String>,
    pub publish_events_topic: Option<String>,
}

pub struct WorkerConfigView {
    pub name: Seq<char>,
    pub topics: Seq<Seq<char>>,
    pub publish_events_topic: Option<Seq<char>>,
}

impl View for WorkerConfig {
    type V = WorkerConfigView;

    open spec fn view(&self) -> WorkerConfigView {
        WorkerConfigView {
            name: self.name@,
            topics: self.topics.deep_view(),
            publish_events_topic: crate::domain::text_of(self.publish_events_topic),
        }
    }
}

/// The brokers and the workers that talk to them.
#[derive(Debug)]
pub struct KafkaConfig {
    pub brokers: String,
    pub workers: Vec<WorkerConfig>,
}

pub struct KafkaConfigView {
    pub brokers: Seq<char>,
    pub workers: Seq<WorkerConfigView>,
}

impl View for KafkaConfig {
    type V = KafkaConfigView;

    open spec fn view(&self) -> KafkaConfigView {
        KafkaConfigView {
            brokers: self.brokers@,
            workers: self.workers@.map_values(|w: WorkerConfig| w@),
        }
    }
}

/// A configuration of one worker.
fn single_worker(name: &str, topic: &str, publish: Option<&str>) -> (config: KafkaConfig)
    ensures
        config@ == (KafkaConfigView {
            brokers: brokers_text(),
            workers: seq![
                WorkerConfigView {
                    name: name@,
                    topics: seq![topic@],
                    publish_events_topic: match publish {
                        Some(p) => Some(p@),
                        None => None,
                    },
                },
            ],
        }),
{
    let mut topics: Vec<String> = Vec::new();
    topics.push(topic.to_owned());
    assert(topics.deep_view() =~= seq![topic@]);
    let publish_events_topic = match publish {
        Some(p) => Some(p.to_owned()),
        None => None,
    };
    let worker = WorkerConfig { name: name.to_owned(), topics, publish_events_topic };
    let mut workers: Vec<WorkerConfig> = Vec::new();
    workers.push(worker);
    let config = KafkaConfig { brokers: "localhost:9092".to_owned(), workers };
    assert(config@.workers =~= seq![worker@]);
    config
}

/// The configuration of the command workers: one worker that reads the
/// command topic and publishes to the event topic.
pub fn kafka_cmd_config() -> (config: KafkaConfig)
    ensures
        config@ == (KafkaConfigView {
            brokers: brokers_text(),
            workers: seq![
                WorkerConfigView {
                    name: "cmd-worker"@,
                    topics: seq![commands_topic()],
                    publish_events_topic: Some(events_topic()),
                },
            ],
        }),
{
    single_worker("cmd-worker", "test-cmd", Some("test-evt"))
}

/// The configuration of the event workers: one worker that reads the event
/// topic and publishes nothing.
pub fn kafka_evt_config() -> (config: KafkaConfig)
    ensures
        config@ == (KafkaConfigView {
            brokers: brokers_text(),
            workers: seq![
                WorkerConfigView {
                    name: "evt-worker"@,
                    topics: seq![events_topic()],
                    publish_events_topic: None,
                },
            ],
        }),
{
    single_worker("evt-worker", "test-evt", None)
}

/// The configuration of the subscriber workers: one worker that reads the
/// topic of the clients' doings and publishes nothing.
pub fn kafka_evt_subscribers_config() -> (config: KafkaConfig)
    ensures
        config@ == (KafkaConfigView {
            brokers: brokers_text(),
            workers: seq![
                WorkerConfigView {
                    name: "evt-subscriber"@,
                    topics: seq![subscribers_topic()],
                    publish_events_topic: None,
                },
            ],
        }),
{
    single_worker("evt-subscriber", "test-evt-subscriber", None)
}

/// One setting of a transport client: a key and its value.
#[derive(Debug)]
pub struct Setting {
    pub key: String,
    pub value: String,
}

impl View for Setting {
    type V = (Seq<char>, Seq<char>);

    open spec fn view(&self) -> (Seq<char>, Seq<char>) {
        (self.key@, self.value@)
    }
}

/// The views of a list of settings, in their order.
pub open spec fn settings_of(options: Seq<Setting>) -> Seq<(Seq<char>, Seq<char>)> {
    options.map_values(|o: Setting| o@)
}

/// Adds one setting to a list.
fn put_setting(options: &mut Vec<Setting>, key: &str, value: &str)
    ensures
        settings_of(final(options)@) == settings_of(old(options)@).push((key@, value@)),
{
    options.push(Setting { key: key.to_owned(), value: value.to_owned() });
    assert(settings_of(options@) =~= settings_of(old(options)@).push((key@, value@)));
}

/// What a consumer of the transport is made with: its settings, and the
/// topics it subscribes to.
#[derive(Debug)]
pub struct ConsumerSettings {
    pub options: Vec<Setting>,
    pub topics: Vec<String>,
}

/// What a producer of the transport is made with.
#[derive(Debug)]
pub struct ProducerSettings {
    pub options: Vec<Setting>,
}

/// The settings of a consumer in group `group_id` at `brokers`.
pub open spec fn consumer_options(brokers: Seq<char>, group_id: Seq<char>) -> Seq<
    (Seq<char>, Seq<char>),
> {
    seq![
        ("group.id"@, group_id),
        ("bootstrap.servers"@, brokers),
        ("enable.partition.eof"@, "false"@),
        ("session.timeout.ms"@, "6000"@),
        ("enable.auto.commit"@, "true"@),
        ("auto.commit.interval.ms"@, "1000"@),
        ("enable.auto.offset.store"@, "false"@),
    ]
}

/// The settings of a producer at `brokers`.
pub open spec fn producer_options(brokers: Seq<char>) -> Seq<(Seq<char>, Seq<char>)> {
    seq![("bootstrap.servers"@, brokers), ("queue.buffering.max.ms"@, "0"@)]
}

/// Describes the consumer of `topics` in group `group_id`. Offsets are
/// committed on their own, but only those that were stored: a message counts
/// as processed no sooner than the worker says so.
pub fn create_consumer(brokers: &str, group_id: &str, topics: &Vec<String>) -> (consumer:
    ConsumerSettings)
    ensures
        settings_of(consumer.options@) == consumer_options(brokers@, group_id@),
        consumer.topics.deep_view() == topics.deep_view(),
{
    let mut options: Vec<Setting> = Vec::new();
    assert(settings_of(options@) =~= Seq::empty());
    put_setting(&mut options, "group.id", group_id);
    put_setting(&mut options, "bootstrap.servers", brokers);
    put_setting(&mut options, "enable.partition.eof", "false");
    put_setting(&mut options, "session.timeout.ms", "6000");
    put_setting(&mut options, "enable.auto.commit", "true");
    put_setting(&mut options, "auto.commit.interval.ms", "1000");
    put_setting(&mut options, "enable.auto.offset.store", "false");
    assert(settings_of(options@) =~= consumer_options(brokers@, group_id@));
    let mut subscribed: Vec<String> = Vec::new();
    let mut i: usize = 0;
    while i < topics.len()
        invariant
            i <= topics@.len(),
            subscribed@.len() == i,
            forall|k: int| 0 <= k < i ==> subscribed@[k]@ == topics@[k]@,
        decreases topics@.len() - i,
    {
        subscribed.push(topics[i].clone());
        i = i + 1;
    }
    assert(subscribed.deep_view() =~= topics.deep_view());
    ConsumerSettings { options, topics: subscribed }
}

/// Describes the producer at `brokers`. It does not buffer.
pub fn create_producer(brokers: &str) -> (producer: ProducerSettings)
    ensures
        settings_of(producer.options@) == producer_options(brokers@),
{
    let mut options: Vec<Setting> = Vec::new();
    assert(settings_of(options@) =~= Seq::empty());
    put_setting(&mut options, "bootstrap.servers", brokers);
    put_setting(&mut options, "queue.buffering.max.ms", "0");
    assert(settings_of(options@) =~= producer_options(brokers@));
    ProducerSettings { options }
}

/// An observer of the ledger. It is handed every accepted event once the
/// event is in the store, and every doing of a connected client. What an
/// observer does with them is its own affair; by its result it tells
/// whether it succeeded.
pub trait LedgerEvents {
    /// Takes an accepted event. `false` tells that the observer failed.
    fn on_event(&self, event: &LedgerEvent<String>) -> (done: bool);

    /// Takes the doing of a client. `false` tells that the observer failed.
    fn on_subscription_event(&self, event: &SubscriptionEvent) -> (done: bool);
}

/// The stream that a topic carries.
#[derive(Debug, Clone, Copy, PartialEq, Eq, Structural)]
pub enum Stream {
    /// Accepted events.
    Events,
    /// Doings of connected clients.
    Subscriptions,
}

/// The stream of a topic; none for a topic that the ledger does not know.
pub open spec fn stream_of(topic: Seq<char>) -> Option<Stream> {
    if topic == events_topic() {
        Some(Stream::Events)
    } else if topic == subscribers_topic() {
        Some(Stream::Subscriptions)
    } else {
        None
    }
}

/// Tells which stream a topic carries.
pub fn route(topic: &str) -> (stream: Option<Stream>)
    ensures
        stream == stream_of(topic@),
{
    let name = topic.to_owned();
    if name == "test-evt".to_owned() {
        Some(Stream::Events)
    } else if name == "test-evt-subscriber".to_owned() {
        Some(Stream::Subscriptions)
    } else {
        None
    }
}

/// What the transport delivered, once decoded.
#[derive(Debug)]
pub enum Delivery {
    /// An accepted event.
    Event(LedgerEvent<String>),
    /// A doing of a connected client.
    Subscription(SubscriptionEvent),
    /// A message without a payload, or with one that could not be decoded.
    Unreadable,
}

/// What became of a delivery: the result of every observer, in the order in
/// which the observers were registered, and whether the message may be
/// marked as processed.
#[derive(Debug)]
pub struct Receipt {
    pub outcomes: Vec<bool>,
    pub store_offset: bool,
}

/// The fan-out of events: the observers, in the order in which they were
/// registered, and the description of the consumer that feeds them.
pub struct LedgerEventsConsumer<H: LedgerEvents> {
    pub hooks: Vec<H>,
    pub consumer: ConsumerSettings,
}

/// The topics that the fan-out reads.
pub open spec fn fan_out_topics(include_subscriber_stream: bool) -> Seq<Seq<char>> {
    if include_subscriber_stream {
        seq![events_topic(), subscribers_topic()]
    } else {
        seq![events_topic()]
    }
}

impl<H: LedgerEvents> LedgerEventsConsumer<H> {
    /// A fan-out without observers. It reads the event topic, and the topic
    /// of the clients' doings if that is asked for, always in the group of
    /// the event consumers.
    pub fn new(group_id: &str, include_subscriber_stream: bool) -> (created: Self)
        ensures
            created.hooks@.len() == 0,
            settings_of(created.consumer.options@) == consumer_options(
                brokers_text(),
                "event-consumer-group"@,
            ),
            created.consumer.topics.deep_view() == fan_out_topics(include_subscriber_stream),
    {
        let mut topics: Vec<String> = Vec::new();
        topics.push("test-evt".to_owned());
        if include_subscriber_stream {
            topics.push("test-evt-subscriber".to_owned());
        }
        assert(topics.deep_view() =~= fan_out_topics(include_subscriber_stream));
        LedgerEventsConsumer {
            hooks: Vec::new(),
            consumer: create_consumer("localhost:9092", "event-consumer-group", &topics),
        }
    }

    /// Registers an observer behind those that are registered already.
    pub fn add_events_hook(&mut self, hook: H)
        ensures
            final(self).hooks@ == old(self).hooks@.push(hook),
            final(self).consumer == old(self).consumer,
    {
        self.hooks.push(hook);
    }

    /// Hands an accepted event to every observer, in the order of their
    /// registration. An observer that fails keeps no other from its turn:
    /// the result holds, for each observer, what that observer answered to
    /// this event.
    pub fn on_event(&self, event: &LedgerEvent<String>) -> (outcomes: Vec<bool>)
        ensures
            outcomes@.len() == self.hooks@.len(),
            forall|i: int|
                0 <= i < self.hooks@.len() ==> call_ensures(
                    H::on_event,
                    (&self.hooks@[i], event),
                    #[trigger] outcomes@[i],
                ),
    {
        let mut outcomes: Vec<bool> = Vec::new();
        let mut i: usize = 0;
        while i < self.hooks.len()
            invariant
                i <= self.hooks@.len(),
                outcomes@.len() == i,
                forall|k: int|
                    0 <= k < i ==> call_ensures(
                        H::on_event,
                        (&self.hooks@[k], event),
                        #[trigger] outcomes@[k],
                    ),
            decreases self.hooks@.len() - i,
        {
            let done = self.hooks[i].on_event(event);
            outcomes.push(done);
            i = i + 1;
        }
        outcomes
    }

    /// Hands the doing of a client to every observer, in the order of their
    /// registration; the result holds what each observer answered.
    pub fn on_subscription_event(&self, event: &SubscriptionEvent) -> (outcomes: Vec<bool>)
        ensures
            outcomes@.len() == self.hooks@.len(),
            forall|i: int|
                0 <= i < self.hooks@.len() ==> call_ensures(
                    H::on_subscription_event,
                    (&self.hooks@[i], event),
                    #[trigger] outcomes@[i],
                ),
    {
        let mut outcomes: Vec<bool> = Vec::new();
        let mut i: usize = 0;
        while i < self.hooks.len()
            invariant
                i <= self.hooks@.len(),
                outcomes@.len() == i,
                forall|k: int|
                    0 <= k < i ==> call_ensures(
                        H::on_subscription_event,
                        (&self.hooks@[k], event),
                        #[trigger] outcomes@[k],
                    ),
            decreases self.hooks@.len() - i,
        {
            let done = self.hooks[i].on_subscription_event(event);
            outcomes.push(done);
            i = i + 1;
        }
        outcomes
    }

    /// Handles one delivery of the transport. An event, and a doing of a
    /// client, goes to every observer, and the message may then be marked as
    /// processed, whatever the observers said. A delivery that could not be
    /// read goes to nobody and is not marked.
    pub fn process_event(&self, delivery: &Delivery) -> (receipt: Receipt)
        ensures
            receipt.store_offset == !(*delivery is Unreadable),
            match *delivery {
                Delivery::Event(event) => receipt.outcomes@.len() == self.hooks@.len()
                    && forall|i: int|
                    0 <= i < self.hooks@.len() ==> call_ensures(
                        H::on_event,
                        (&self.hooks@[i], &event),
                        #[trigger] receipt.outcomes@[i],
                    ),
                Delivery::Subscription(event) => receipt.outcomes@.len() == self.hooks@.len()
                    && forall|i: int|
                    0 <= i < self.hooks@.len() ==> call_ensures(
                        H::on_subscription_event,
                        (&self.hooks@[i], &event),
                        #[trigger] receipt.outcomes@[i],
                    ),
                Delivery::Unreadable => receipt.outcomes@.len() == 0,
            },
    {
        match delivery {
            Delivery::Event(event) => {
                let outcomes = self.on_event(event);
                Receipt { outcomes, store_offset: true }
            },
            Delivery::Subscription(event) => {
                let outcomes = self.on_subscription_event(event);
                Receipt { outcomes, store_offset: true }
            },
            Delivery::Unreadable => Receipt { outcomes: Vec::new(), store_offset: false },
        }
    }
}

/// The number of `false` in a sequence of answers.
pub open spec fn failures_in(outcomes: Seq<bool>) -> nat
    decreases outcomes.len(),
{
    if outcomes.len() == 0 {
        0
    } else if outcomes.last() {
        failures_in(outcomes.drop_last())
    } else {
        failures_in(outcomes.drop_last()) + 1
    }
}

/// Counts the observers that failed, given what they answered.
pub fn failures(outcomes: &Vec<bool>) -> (count: usize)
    ensures
        count == failures_in(outcomes@),
{
    let mut count: usize = 0;
    let mut i: usize = 0;
    while i < outcomes.len()
        invariant
            i <= outcomes@.len(),
            count <= i,
            count == failures_in(outcomes@.take(i as int)),
        decreases outcomes@.len() - i,
    {
        assert(outcomes@.take(i + 1).drop_last() =~= outcomes@.take(i as int));
        if !outcomes[i] {
            count = count + 1;
        }
        i = i + 1;
    }
    assert(outcomes@.take(outcomes@.len() as int) =~= outcomes@);
    count
}

/// Processes a command against the store and, if it is accepted, hands its
/// event to every observer: once, in the order of their registration, and
/// only when the store has taken the event. A rejected command reaches no
/// observer. What the observers answer changes nothing in the store.
pub fn apply_and_dispatch<H: LedgerEvents>(
    store: &mut LmdbContext,
    observers: &LedgerEventsConsumer<H>,
    command: &LedgerCommand<String>,
    now: &str,
    fresh: &FreshIds,
) -> (done: (Result<LedgerEvent<String>, RejectReason>, Vec<bool>))
    ensures
        old(store).wf(),
        final(store).wf(),
        (final(store)@, outcome_of(done.0)) == step(
            old(store)@,
            command@,
            now@,
            fresh@,
            stamp_of(command@.payload),
        ),
        match done.0 {
            Ok(event) => done.1@.len() == observers.hooks@.len() && forall|i: int|
                0 <= i < observers.hooks@.len() ==> call_ensures(
                    H::on_event,
                    (&observers.hooks@[i], &event),
                    #[trigger] done.1@[i],
                ),
            Err(_) => done.1@.len() == 0,
        },
{
    let outcome = apply(store, command, now, fresh);
    let outcomes = match &outcome {
        Ok(event) => observers.on_event(event),
        Err(_) => Vec::new(),
    };
    (outcome, outcomes)
}

/// Where a record goes on the transport: the topic, and the key by which
/// the transport picks the partition.
#[derive(Debug)]
pub struct Envelope {
    pub topic: String,
    pub key: String,
}

impl View for Envelope {
    type V = (Seq<char>, Seq<char>);

    open spec fn view(&self) -> (Seq<char>, Seq<char>) {
        (self.topic@, self.key@)
    }
}

/// The tracking id that every command is sent under.
pub open spec fn tracking_text() -> Seq<char> {
    "asdfgh"@
}

/// The topic that commands are sent to.
pub open spec fn outgoing_commands_topic() -> Seq<char> {
    "test-cmd-3part"@
}

/// Prepares a command for sending: it is sent in the name of `user_id` and
/// under the common tracking id, to the topic of the commands, keyed by the
/// tracking id.
pub fn produce_command(command: LedgerCommand<String>, user_id: &str) -> (sent: (
    LedgerCommand<String>,
    Envelope,
))
    ensures
        sent.0@ == (LedgerCommandView {
            tracking_id: tracking_text(),
            user_id: Some(user_id@),
            ..command@
        }),
        sent.1@ == (outgoing_commands_topic(), tracking_text()),
{
    let prepared = LedgerCommand {
        tracking_id: "asdfgh".to_owned(),
        action: command.action,
        payload: command.payload,
        user_id: Some(user_id.to_owned()),
    };
    let envelope = Envelope { topic: "test-cmd-3part".to_owned(), key: "asdfgh".to_owned() };
    (prepared, envelope)
}

/// Says where an accepted event goes: to `events_topic`, keyed by the id of
/// the event.
pub fn send_event(events_topic: &str, event: &LedgerEvent<String>) -> (envelope: Envelope)
    ensures
        envelope@ == (events_topic@, event@.event_id),
{
    Envelope { topic: events_topic.to_owned(), key: event.event_id.clone() }
}

/// Says where the doing of a client goes: to the topic of the clients'
/// doings, all under one key.
pub fn produce_subscription_event(event: &SubscriptionEvent) -> (envelope: Envelope)
    ensures
        envelope@ == (subscribers_topic(), "keytodo"@),
{
    Envelope { topic: "test-evt-subscriber".to_owned(), key: "keytodo".to_owned() }
}

} // verus!
