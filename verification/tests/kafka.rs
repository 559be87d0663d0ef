use content_ledger::domain::{Action, LedgerEvent, Revision, SubscriptionEvent, Sys};
use content_ledger::kafka::{
    create_consumer, create_producer, failures, kafka_cmd_config, kafka_evt_config,
    kafka_evt_subscribers_config, route, Delivery, LedgerEvents, LedgerEventsConsumer, Setting,
    Stream,
};
use content_ledger::domain::LedgerCommand;
use content_ledger::kafka::{apply_and_dispatch, produce_command, produce_subscription_event, send_event};
use content_ledger::lmdb_store::create_context;
use content_ledger::processor::{FreshIds, RejectReason};
use std::cell::RefCell;
use std::rc::Rc;

/// An observer that writes down what it is handed, and fails on demand.
struct Recorder {
    name: &'static str,
    fails: bool,
    seen: Rc<RefCell<Vec<String>>>,
}

impl LedgerEvents for Recorder {
    fn on_event(&self, event: &LedgerEvent<String>) -> bool {
        self.seen.borrow_mut().push(format!("{}:{}", self.name, event.event_id));
        !self.fails
    }

    fn on_subscription_event(&self, event: &SubscriptionEvent) -> bool {
        self.seen.borrow_mut().push(format!("{}:{:?}", self.name, event));
        !self.fails
    }
}

fn fan_out(fails: [bool; 3]) -> (LedgerEventsConsumer<Recorder>, Rc<RefCell<Vec<String>>>) {
    let seen = Rc::new(RefCell::new(Vec::new()));
    let mut fan_out: LedgerEventsConsumer<Recorder> = LedgerEventsConsumer::new("g", true);
    fan_out.add_events_hook(Recorder { name: "a", fails: fails[0], seen: seen.clone() });
    fan_out.add_events_hook(Recorder { name: "b", fails: fails[1], seen: seen.clone() });
    fan_out.add_events_hook(Recorder { name: "c", fails: fails[2], seen: seen.clone() });
    (fan_out, seen)
}

fn pairs(options: &Vec<Setting>) -> Vec<(String, String)> {
    options.iter().map(|o| (o.key.clone(), o.value.clone())).collect()
}

fn pair(key: &str, value: &str) -> (String, String) {
    (key.to_string(), value.to_string())
}

fn sample_event(id: &str, version: &str, previous: Option<&str>) -> LedgerEvent<String> {
    LedgerEvent {
        event_id: format!("event-{}", version),
        action: Action::UPDATE(Revision { id: id.to_string(), version: version.to_string() }),
        payload: None,
        sys: Sys {
            id: id.to_string(),
            category: "post".to_string(),
            content_type: "article".to_string(),
            bucket: "main".to_string(),
            env: "prod".to_string(),
            published_count: 0,
            published_version: None,
            version: version.to_string(),
            previous_version: previous.map(|p| p.to_string()),
            first_published_at: None,
            published_at: None,
            published_by: None,
            sealed_at: None,
            sealed_by: None,
            created_at: None,
            created_by: "alice".to_string(),
            updated_at: None,
            updated_by: "alice".to_string(),
            payload_checksum: None,
        },
    }
}

#[test]
fn command_workers_read_commands_and_publish_events() {
    let config = kafka_cmd_config();
    assert_eq!(config.brokers, "localhost:9092");
    assert_eq!(config.workers.len(), 1);
    assert_eq!(config.workers[0].name, "cmd-worker");
    assert_eq!(config.workers[0].topics, vec!["test-cmd"]);
    assert_eq!(config.workers[0].publish_events_topic, Some("test-evt".to_string()));
}

#[test]
fn event_workers_read_events_and_publish_nothing() {
    let config = kafka_evt_config();
    assert_eq!(config.brokers, "localhost:9092");
    assert_eq!(config.workers.len(), 1);
    assert_eq!(config.workers[0].name, "evt-worker");
    assert_eq!(config.workers[0].topics, vec!["test-evt"]);
    assert_eq!(config.workers[0].publish_events_topic, None);
}

#[test]
fn subscriber_workers_read_subscriber_topic() {
    let config = kafka_evt_subscribers_config();
    assert_eq!(config.workers.len(), 1);
    assert_eq!(config.workers[0].name, "evt-subscriber");
    assert_eq!(config.workers[0].topics, vec!["test-evt-subscriber"]);
    assert_eq!(config.workers[0].publish_events_topic, None);
}

#[test]
fn consumer_settings_store_offsets_by_hand() {
    let topics = vec!["a".to_string(), "b".to_string()];
    let consumer = create_consumer("broker:1", "group-7", &topics);
    assert_eq!(
        pairs(&consumer.options),
        vec![
            pair("group.id", "group-7"),
            pair("bootstrap.servers", "broker:1"),
            pair("enable.partition.eof", "false"),
            pair("session.timeout.ms", "6000"),
            pair("enable.auto.commit", "true"),
            pair("auto.commit.interval.ms", "1000"),
            pair("enable.auto.offset.store", "false"),
        ]
    );
    assert_eq!(consumer.topics, topics);
}

#[test]
fn producer_settings_do_not_buffer() {
    let producer = create_producer("broker:1");
    assert_eq!(
        pairs(&producer.options),
        vec![pair("bootstrap.servers", "broker:1"), pair("queue.buffering.max.ms", "0")]
    );
}

#[test]
fn route_knows_two_topics() {
    assert_eq!(route("test-evt"), Some(Stream::Events));
    assert_eq!(route("test-evt-subscriber"), Some(Stream::Subscriptions));
    assert_eq!(route("test-cmd"), None);
    assert_eq!(route(""), None);
}

#[test]
fn fan_out_reads_event_topic_in_its_own_group() {
    let plain: LedgerEventsConsumer<Recorder> = LedgerEventsConsumer::new("ignored", false);
    assert_eq!(plain.consumer.topics, vec!["test-evt"]);
    assert!(plain.hooks.is_empty());
    assert_eq!(pairs(&plain.consumer.options)[0], pair("group.id", "event-consumer-group"));
    assert_eq!(pairs(&plain.consumer.options)[1], pair("bootstrap.servers", "localhost:9092"));
    let both: LedgerEventsConsumer<Recorder> = LedgerEventsConsumer::new("ignored", true);
    assert_eq!(both.consumer.topics, vec!["test-evt", "test-evt-subscriber"]);
}

#[test]
fn observers_are_called_in_order_of_registration() {
    let (fan_out, seen) = fan_out([false, false, false]);
    let outcomes = fan_out.on_event(&sample_event("doc", "v1", None));
    assert_eq!(outcomes, vec![true, true, true]);
    assert_eq!(*seen.borrow(), vec!["a:event-v1", "b:event-v1", "c:event-v1"]);
}

#[test]
fn every_observer_gets_the_event_even_after_a_failure() {
    let (fan_out, seen) = fan_out([true, false, true]);
    let outcomes = fan_out.on_event(&sample_event("doc", "v1", None));
    assert_eq!(outcomes, vec![false, true, false]);
    assert_eq!(*seen.borrow(), vec!["a:event-v1", "b:event-v1", "c:event-v1"]);
    assert_eq!(failures(&outcomes), 2);
}

#[test]
fn fan_out_without_observers_gives_no_outcomes() {
    let empty: LedgerEventsConsumer<Recorder> = LedgerEventsConsumer::new("g", false);
    assert!(empty.on_event(&sample_event("doc", "v1", None)).is_empty());
    assert!(empty
        .on_subscription_event(&SubscriptionEvent::Open { conn_id: "c".to_string() })
        .is_empty());
}

#[test]
fn failures_counts_false_answers() {
    assert_eq!(failures(&vec![]), 0);
    assert_eq!(failures(&vec![true, true]), 0);
    assert_eq!(failures(&vec![false, true, false, false]), 3);
}

#[test]
fn delivery_of_event_goes_to_observers_and_is_marked() {
    let (fan_out, seen) = fan_out([false, true, false]);
    let receipt = fan_out.process_event(&Delivery::Event(sample_event("doc", "v1", None)));
    assert_eq!(receipt.outcomes, vec![true, false, true]);
    assert!(receipt.store_offset);
    assert_eq!(seen.borrow().len(), 3);
}

#[test]
fn delivery_of_subscription_goes_to_observers_and_is_marked() {
    let (fan_out, seen) = fan_out([false, false, false]);
    let doing = SubscriptionEvent::Subscribe { conn_id: "c".to_string(), topic: "t".to_string() };
    let receipt = fan_out.process_event(&Delivery::Subscription(doing));
    assert_eq!(receipt.outcomes, vec![true, true, true]);
    assert!(receipt.store_offset);
    assert_eq!(seen.borrow().len(), 3);
    assert!(seen.borrow()[0].starts_with("a:Subscribe"));
}

#[test]
fn unreadable_delivery_goes_to_nobody_and_is_not_marked() {
    let (fan_out, seen) = fan_out([false, false, false]);
    let receipt = fan_out.process_event(&Delivery::Unreadable);
    assert!(receipt.outcomes.is_empty());
    assert!(!receipt.store_offset);
    assert!(seen.borrow().is_empty());
    assert_eq!(fan_out.hooks.len(), 3);
}

fn create_command() -> LedgerCommand<String> {
    LedgerCommand {
        tracking_id: "t".to_string(),
        action: Action::CREATE {
            category: "post".to_string(),
            content_type: "article".to_string(),
            bucket: "main".to_string(),
            env: "prod".to_string(),
        },
        payload: Some("{}".to_string()),
        user_id: None,
    }
}

fn drawn(event_id: &str, id: &str, version: &str) -> FreshIds {
    FreshIds {
        event_id: event_id.to_string(),
        revision: Revision { id: id.to_string(), version: version.to_string() },
    }
}

#[test]
fn accepted_command_reaches_observers_after_the_store() {
    let (fan_out, seen) = fan_out([false, true, false]);
    let mut store = create_context().unwrap();
    let (outcome, outcomes) =
        apply_and_dispatch(&mut store, &fan_out, &create_command(), "now", &drawn("e1", "doc", "v1"));
    assert_eq!(outcome.unwrap().sys.version, "v1");
    assert_eq!(outcomes, vec![true, false, true]);
    assert_eq!(*seen.borrow(), vec!["a:e1", "b:e1", "c:e1"]);
    assert_eq!(store.get("doc"), Ok("v1".to_string()));
}

#[test]
fn rejected_command_reaches_no_observer() {
    let (fan_out, seen) = fan_out([false, false, false]);
    let mut store = create_context().unwrap();
    let first =
        apply_and_dispatch(&mut store, &fan_out, &create_command(), "now", &drawn("e1", "doc", "v1"));
    assert!(first.0.is_ok());
    let (outcome, outcomes) =
        apply_and_dispatch(&mut store, &fan_out, &create_command(), "now", &drawn("e2", "doc", "v2"));
    assert_eq!(outcome.unwrap_err(), RejectReason::AlreadyExists);
    assert!(outcomes.is_empty());
    assert_eq!(seen.borrow().len(), 3);
}

#[test]
fn commands_are_sent_under_common_tracking_id() {
    let mut command = create_command();
    command.tracking_id = "mine".to_string();
    command.user_id = Some("somebody".to_string());
    let (prepared, envelope) = produce_command(command, "alice");
    assert_eq!(prepared.tracking_id, "asdfgh");
    assert_eq!(prepared.user_id, Some("alice".to_string()));
    assert_eq!(prepared.payload, Some("{}".to_string()));
    assert!(matches!(prepared.action, Action::CREATE { .. }));
    assert_eq!(envelope.topic, "test-cmd-3part");
    assert_eq!(envelope.key, "asdfgh");
}

#[test]
fn events_are_keyed_by_their_id() {
    let envelope = send_event("test-evt", &sample_event("doc", "v1", None));
    assert_eq!(envelope.topic, "test-evt");
    assert_eq!(envelope.key, "event-v1");
}

#[test]
fn subscription_events_share_one_key() {
    let doing = SubscriptionEvent::Close { conn_id: "c".to_string() };
    let envelope = produce_subscription_event(&doing);
    assert_eq!(envelope.topic, "test-evt-subscriber");
    assert_eq!(envelope.key, "keytodo");
}
