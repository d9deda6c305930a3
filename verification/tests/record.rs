use std::time::{SystemTime, UNIX_EPOCH};

use uuid::Uuid;
use zero2prod::record::{SubscriptionRecord, Timestamp, NANOS_PER_SECOND};
use zero2prod::routes::{subscribe, SubscriberData};

fn le_guin() -> SubscriberData {
    SubscriberData::new(String::from("ursula_le_guin@gmail.com"), String::from("le guin")).unwrap()
}

#[test]
fn timestamp_new_takes_less_than_a_second_of_nanos() {
    let last = Timestamp::new(1_431_648_000, 999_999_999).unwrap();

    assert_eq!(last.seconds(), 1_431_648_000);
    assert_eq!(last.nanos(), 999_999_999);
    assert_eq!(Timestamp::new(1_431_648_000, 1_000_000_000), None);
    assert_eq!(Timestamp::new(0, u32::MAX), None);
}

#[test]
fn timestamp_new_takes_instants_before_the_epoch() {
    let early = Timestamp::new(-1, 0).unwrap();

    assert_eq!(early.seconds(), -1);
    assert_eq!(early.nanos(), 0);
    assert_eq!(Timestamp::new(i64::MIN, 0).unwrap().seconds(), i64::MIN);
}

#[test]
fn a_second_has_a_billion_nanos() {
    assert_eq!(NANOS_PER_SECOND, 1_000_000_000);
}

#[test]
fn timestamp_now_is_close_to_the_system_clock() {
    let before = SystemTime::now().duration_since(UNIX_EPOCH).unwrap().as_secs() as i64;
    let now = Timestamp::now();
    let after = SystemTime::now().duration_since(UNIX_EPOCH).unwrap().as_secs() as i64;

    assert!(before <= now.seconds());
    assert!(now.seconds() <= after);
    assert!(now.nanos() < 1_000_000_000);
}

#[test]
fn record_new_keeps_what_it_is_given() {
    let at = Timestamp::new(1_431_648_000, 5).unwrap();
    let record = SubscriptionRecord::new(0xa1a2a3a4b1b2c1c2d1d2d3d4d5d6d7d8, le_guin(), at);

    assert_eq!(record.id(), 0xa1a2a3a4b1b2c1c2d1d2d3d4d5d6d7d8);
    assert_eq!(record.email(), "ursula_le_guin@gmail.com");
    assert_eq!(record.name(), "le guin");
    assert_eq!(record.subscribed_at(), at);
}

#[test]
fn subscribe_copies_the_request() {
    let record = subscribe(le_guin());

    assert_eq!(record.email(), "ursula_le_guin@gmail.com");
    assert_eq!(record.name(), "le guin");
}

#[test]
fn subscribe_makes_a_random_uuid() {
    let record = subscribe(le_guin());

    assert_eq!(
        record.id() & 0xF000_C000_0000_0000_0000,
        0x4000_8000_0000_0000_0000
    );
    let id = Uuid::from_u128(record.id());
    assert_eq!(id.get_version_num(), 4);
    assert_eq!(id.as_bytes()[8] >> 6, 0b10);
}

#[test]
fn subscribe_makes_a_new_id_each_time() {
    let mut ids = Vec::new();
    for _ in 0..64 {
        ids.push(subscribe(le_guin()).id());
    }
    ids.sort();
    ids.dedup();

    assert_eq!(ids.len(), 64);
}

#[test]
fn subscribe_stamps_the_record_with_the_time_of_writing() {
    let before = SystemTime::now().duration_since(UNIX_EPOCH).unwrap().as_secs() as i64;
    let record = subscribe(le_guin());
    let after = SystemTime::now().duration_since(UNIX_EPOCH).unwrap().as_secs() as i64;

    assert!(before <= record.subscribed_at().seconds());
    assert!(record.subscribed_at().seconds() <= after);
    assert!(record.subscribed_at().nanos() < 1_000_000_000);
}

#[test]
fn the_stamp_converts_back_to_a_date() {
    let stamp = subscribe(le_guin()).subscribed_at();
    let date = chrono::DateTime::from_timestamp(stamp.seconds(), stamp.nanos()).unwrap();

    assert_eq!(date.timestamp(), stamp.seconds());
    assert_eq!(date.timestamp_subsec_nanos(), stamp.nanos());
}
