//! End-to-end tests of the bridge over the live channel: a simulated
//! producer pushes through the same verified path the subscription task
//! uses, and the caller drains per tick.

use dojo_bridge::client::{DojoClient, DojoClientConfig, Error};
use dojo_bridge::task::{report_task_end, subscription_step, StreamEvent, TaskEnd, TaskStep};
use starknet_types_core::felt::Felt;

fn test_config() -> DojoClientConfig {
    DojoClientConfig {
        torii_url: String::from("t"),
        rpc_url: String::from("r"),
        relay_url: String::from("l"),
        world_id: Felt::from_hex("0x1").unwrap(),
    }
}

#[test]
fn six_records_two_polls() {
    let (client, tx) = DojoClient::<String>::new(test_config()).unwrap();
    for name in ["A", "B", "C", "D", "E", "F"] {
        let step = subscription_step(&tx, StreamEvent::Record(String::from(name)));
        assert_eq!(step, TaskStep::Forwarded);
    }
    let first = client.drain(5);
    assert_eq!(
        first.records,
        vec![
            String::from("A"),
            String::from("B"),
            String::from("C"),
            String::from("D"),
            String::from("E")
        ]
    );
    assert!(first.terminated.is_none());
    let second = client.drain(5);
    assert_eq!(second.records, vec![String::from("F")]);
    let third = client.drain(5);
    assert!(third.records.is_empty());
}

#[test]
fn full_cap_drains_everything_in_order() {
    let (client, tx) = DojoClient::<u64>::new(test_config()).unwrap();
    for i in 0u64..7u64 {
        subscription_step(&tx, StreamEvent::Record(i));
    }
    let out = client.drain(100);
    assert_eq!(out.records, vec![0, 1, 2, 3, 4, 5, 6]);
    assert!(client.drain(100).records.is_empty());
}

#[test]
fn capped_drain_leaves_the_rest() {
    let (client, tx) = DojoClient::<u64>::new(test_config()).unwrap();
    for i in 1u64..=4u64 {
        subscription_step(&tx, StreamEvent::Record(i));
    }
    let first = client.drain(2);
    assert_eq!(first.records, vec![1, 2]);
    let rest = client.drain(10);
    assert_eq!(rest.records, vec![3, 4]);
}

#[test]
fn empty_polls_return_empty_and_fast() {
    let (client, _tx) = DojoClient::<u64>::new(test_config()).unwrap();
    let start = std::time::Instant::now();
    for _ in 0..100 {
        let out = client.drain(5);
        assert!(out.records.is_empty());
        assert!(out.terminated.is_none());
    }
    assert!(start.elapsed() < std::time::Duration::from_millis(1000));
}

#[test]
fn closed_and_drained_stays_empty() {
    let (client, tx) = DojoClient::<u64>::new(test_config()).unwrap();
    subscription_step(&tx, StreamEvent::Record(10));
    subscription_step(&tx, StreamEvent::Record(20));
    drop(tx);
    let out = client.drain(5);
    assert_eq!(out.records, vec![10, 20]);
    for _ in 0..10 {
        let again = client.drain(5);
        assert!(again.records.is_empty());
    }
}

#[test]
fn stream_end_is_reported_after_records() {
    let (client, tx) = DojoClient::<u64>::new(test_config()).unwrap();
    subscription_step(&tx, StreamEvent::Record(1));
    let step = subscription_step(&tx, StreamEvent::Ended);
    assert_eq!(step, TaskStep::Stopped);
    let out = client.drain(5);
    assert_eq!(out.records, vec![1]);
    assert_eq!(out.terminated, Some(TaskEnd::StreamEnded));
    let after = client.drain(5);
    assert!(after.records.is_empty());
    assert!(after.terminated.is_none());
}

#[test]
fn connect_failure_is_reported() {
    let (client, tx) = DojoClient::<u64>::new(test_config()).unwrap();
    assert!(report_task_end(&tx, TaskEnd::ConnectFailed));
    let out = client.drain(5);
    assert!(out.records.is_empty());
    assert_eq!(out.terminated, Some(TaskEnd::ConnectFailed));
}

#[test]
fn decode_failure_is_skipped_not_fatal() {
    let (client, tx) = DojoClient::<u64>::new(test_config()).unwrap();
    let step = subscription_step(&tx, StreamEvent::<u64>::DecodeFailed);
    assert_eq!(step, TaskStep::Skipped);
    subscription_step(&tx, StreamEvent::Record(5));
    assert_eq!(client.drain(5).records, vec![5]);
}

#[test]
fn dropping_the_bridge_stops_the_producer() {
    let (client, tx) = DojoClient::<u64>::new(test_config()).unwrap();
    drop(client);
    let step = subscription_step(&tx, StreamEvent::Record(7));
    assert_eq!(step, TaskStep::Stopped);
    assert!(!report_task_end(&tx, TaskEnd::StreamEnded));
}

#[test]
fn cursor_budget_is_counted_down() {
    let (client, tx) = DojoClient::<u64>::new(test_config()).unwrap();
    subscription_step(&tx, StreamEvent::Record(1));
    subscription_step(&tx, StreamEvent::Record(2));
    let mut it = client.take(3);
    assert_eq!(it.count, 3);
    assert_eq!(it.next(), Some(1));
    assert_eq!(it.count, 2);
    assert_eq!(it.next(), Some(2));
    assert_eq!(it.next(), None);
    assert_eq!(it.count, 0);
    assert_eq!(it.next(), None);
}

#[test]
fn zero_budget_cursor_yields_nothing() {
    let (client, tx) = DojoClient::<u64>::new(test_config()).unwrap();
    subscription_step(&tx, StreamEvent::Record(1));
    let mut it = client.take(0);
    assert_eq!(it.next(), None);
    assert_eq!(client.drain(5).records, vec![1]);
}

#[test]
fn config_is_kept_by_the_bridge() {
    let (client, _tx) = DojoClient::<u64>::new(test_config()).unwrap();
    assert_eq!(client.config().torii_url, "t");
    assert_eq!(client.config().rpc_url, "r");
    assert_eq!(client.config().relay_url, "l");
    assert_eq!(client.config().world_id, Felt::from_hex("0x1").unwrap());
}

#[test]
fn config_from_strings_parses_the_world_id() {
    let c = DojoClientConfig::from_strings(
        String::from("t"),
        String::from("r"),
        String::from("l"),
        "0x1",
    )
    .unwrap();
    assert_eq!(c.world_id, Felt::from_hex("0x1").unwrap());
    assert_eq!(c.torii_url, "t");
    assert_eq!(c.rpc_url, "r");
    assert_eq!(c.relay_url, "l");
}

#[test]
fn config_with_bad_world_id_is_refused() {
    let c = DojoClientConfig::from_strings(
        String::from("t"),
        String::from("r"),
        String::from("l"),
        "not hex",
    );
    assert!(c.is_none());
}

#[test]
fn runtime_failure_error_wraps_the_os_report() {
    let e = Error::from(std::io::Error::new(std::io::ErrorKind::Other, "no threads"));
    assert!(matches!(e, Error::RuntimeError(_)));
}
