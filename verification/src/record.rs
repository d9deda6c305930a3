//! The subscription record, and the two values the server adds to a request:
//! an identifier and the time of writing.

use vstd::prelude::*;
use crate::routes::subscriptions::SubscriberData;

verus! {

/// An instant as contracts see it.
pub ghost struct TimestampView {
    pub seconds: int,
    pub nanos: int,
}

/// An instant in UTC: whole seconds since 1970-01-01 00:00:00, and the
/// nanoseconds into that second.
#[derive(Clone, Copy, Debug, PartialEq, Eq)]
pub struct Timestamp {
    seconds: i64,
    nanos: u32,
}

impl View for Timestamp {
    type V = TimestampView;

    closed spec fn view(&self) -> TimestampView {
        TimestampView { seconds: self.seconds as int, nanos: self.nanos as int }
    }
}

/// The nanoseconds in a second.
pub const NANOS_PER_SECOND: u32 = 1_000_000_000;

impl Timestamp {
    #[verifier::type_invariant]
    spec fn within_second(self) -> bool {
        self.nanos < NANOS_PER_SECOND
    }

    /// The instant `nanos` nanoseconds after second `seconds`, where `nanos`
    /// is less than a second.
    pub fn new(seconds: i64, nanos: u32) -> (r: Option<Timestamp>)
        ensures
            r is Some <==> nanos < NANOS_PER_SECOND,
            r matches Some(t) ==> t@ == (TimestampView {
                seconds: seconds as int,
                nanos: nanos as int,
            }),
    {
        if nanos < NANOS_PER_SECOND {
            Some(Timestamp { seconds, nanos })
        } else {
            None
        }
    }

    /// Reads the clock. Every reading is an instant with less than a second of
    /// nanoseconds; which instant, the clock decides.
    pub fn now() -> (r: Timestamp)
        ensures
            0 <= r@.nanos < NANOS_PER_SECOND,
    {
        let reading: (i64, u32) = clock_reading();
        Timestamp { seconds: reading.0, nanos: reading.1 }
    }

    /// Whole seconds since the epoch.
    pub fn seconds(&self) -> (r: i64)
        ensures
            r == self@.seconds,
    {
        self.seconds
    }

    /// Nanoseconds into the second.
    pub fn nanos(&self) -> (r: u32)
        ensures
            r == self@.nanos,
            r < NANOS_PER_SECOND,
    {
        proof {
            use_type_invariant(self);
        }
        self.nanos
    }
}

/// Calls `chrono::Utc::now` and takes the reading apart with
/// `DateTime::timestamp` and `DateTime::timestamp_subsec_nanos`. Trusted: that
/// the nanoseconds are less than a second. chrono builds the reading from the
/// time elapsed since the epoch, whose sub-second part is below a second, and
/// hands both parts back unchanged. chrono panics where the system clock stands
/// before 1970; no argument can rule that out.
#[verifier::external_body]
fn clock_reading() -> (now: (i64, u32))
    ensures
        now.1 < NANOS_PER_SECOND,
{
    let now = chrono::Utc::now();
    (now.timestamp(), now.timestamp_subsec_nanos())
}

/// An identifier is a random (version 4) UUID, read as a big-endian number:
/// the version digit is 4 and the two variant bits are `10`.
pub open spec fn is_random_uuid(id: u128) -> bool {
    id & 0xF000_C000_0000_0000_0000u128 == 0x4000_8000_0000_0000_0000u128
}

/// Calls `uuid::Uuid::new_v4` and reads the result with `Uuid::as_u128`.
/// Trusted: that the version and variant bits are those of a random UUID, which
/// `new_v4` sets by mask whatever the generator gave. Nothing is assumed of
/// the other 122 bits. uuid panics where the system has no randomness to give.
#[verifier::external_body]
pub(crate) fn random_id() -> (id: u128)
    ensures
        is_random_uuid(id),
{
    uuid::Uuid::new_v4().as_u128()
}

/// A subscription record as contracts see it.
pub ghost struct RecordView {
    pub id: u128,
    pub email: Seq<char>,
    pub name: Seq<char>,
    pub subscribed_at: TimestampView,
}

/// What the store keeps of one successful submission.
#[derive(Debug)]
pub struct SubscriptionRecord {
    id: u128,
    subscriber: SubscriberData,
    subscribed_at: Timestamp,
}

impl View for SubscriptionRecord {
    type V = RecordView;

    closed spec fn view(&self) -> RecordView {
        RecordView {
            id: self.id,
            email: self.subscriber@.email,
            name: self.subscriber@.name,
            subscribed_at: self.subscribed_at@,
        }
    }
}

impl SubscriptionRecord {
    /// The record of a request under an identifier, written at an instant.
    /// Email and name are the request's own, character for character.
    pub fn new(id: u128, subscriber: SubscriberData, subscribed_at: Timestamp) -> (r:
        SubscriptionRecord)
        ensures
            r@ == (RecordView {
                id,
                email: subscriber@.email,
                name: subscriber@.name,
                subscribed_at: subscribed_at@,
            }),
    {
        SubscriptionRecord { id, subscriber, subscribed_at }
    }

    /// The identifier, as a UUID read big-endian.
    pub fn id(&self) -> (r: u128)
        ensures
            r == self@.id,
    {
        self.id
    }

    /// The subscriber's email.
    pub fn email(&self) -> (r: &str)
        ensures
            r@ == self@.email,
            r@.len() > 0,
    {
        self.subscriber.email()
    }

    /// The subscriber's name.
    pub fn name(&self) -> (r: &str)
        ensures
            r@ == self@.name,
            r@.len() > 0,
    {
        self.subscriber.name()
    }

    /// When the record was written.
    pub fn subscribed_at(&self) -> (r: Timestamp)
        ensures
            r@ == self@.subscribed_at,
    {
        self.subscribed_at
    }
}

} // verus!
