//! `POST /subscriptions`: from a form body to the record to insert, and from
//! the outcome of the insert to the reply.

use vstd::prelude::*;
use crate::error::{Field, PersistenceError, SubscribeError, ValidationError};
use crate::form::{decode_form, form_pairs, occurs, pairs_view, select_fields, selected};
use crate::record::{
    is_random_uuid, random_id, SubscriptionRecord, Timestamp, NANOS_PER_SECOND,
};
use crate::response::{bare, Reply, ReplyView, BAD_REQUEST, INTERNAL_SERVER_ERROR, OK};

verus! {

/// A subscription request as contracts see it.
pub ghost struct SubscriberView {
    pub email: Seq<char>,
    pub name: Seq<char>,
}

/// A well-formed subscription request: an email and a name, neither empty.
#[derive(Debug)]
pub struct SubscriberData {
    email: String,
    name: String,
}

impl View for SubscriberData {
    type V = SubscriberView;

    closed spec fn view(&self) -> SubscriberView {
        SubscriberView { email: self.email@, name: self.name@ }
    }
}

impl SubscriberData {
    #[verifier::type_invariant]
    spec fn filled(self) -> bool {
        self.email@.len() > 0 && self.name@.len() > 0
    }

    /// The request that an email and a name make: both as given, unless one
    /// is empty. An empty email is reported before an empty name.
    pub open spec fn checked(email: Seq<char>, name: Seq<char>) -> Result<
        SubscriberView,
        ValidationError,
    > {
        if email.len() == 0 {
            Err(ValidationError::Empty(Field::Email))
        } else if name.len() == 0 {
            Err(ValidationError::Empty(Field::Name))
        } else {
            Ok(SubscriberView { email, name })
        }
    }

    /// The request that a decoded form makes. `None` stands for a body that
    /// did not decode.
    pub open spec fn decided(decoded: Option<Seq<(Seq<char>, Seq<char>)>>) -> Result<
        SubscriberView,
        ValidationError,
    > {
        match decoded {
            None => Err(ValidationError::Malformed),
            Some(pairs) => match selected(pairs) {
                Err(reason) => Err(reason),
                Ok((email, name)) => Self::checked(email, name),
            },
        }
    }

    /// Builds a request from an email and a name. Nothing is trimmed or
    /// normalised; only empty values are refused.
    pub fn new(email: String, name: String) -> (r: Result<SubscriberData, ValidationError>)
        ensures
            match r {
                Ok(form) => Self::checked(email@, name@) == Ok::<SubscriberView, ValidationError>(
                    form@,
                ),
                Err(reason) => Self::checked(email@, name@) == Err::<
                    SubscriberView,
                    ValidationError,
                >(reason),
            },
    {
        if email.as_str().is_empty() {
            Err(ValidationError::Empty(Field::Email))
        } else if name.as_str().is_empty() {
            Err(ValidationError::Empty(Field::Name))
        } else {
            Ok(SubscriberData { email, name })
        }
    }

    /// Builds a request from a decoded form; `None` is a body that did not
    /// decode.
    pub fn from_decoded(decoded: Option<Vec<(String, String)>>) -> (r: Result<
        SubscriberData,
        ValidationError,
    >)
        ensures
            match r {
                Ok(form) => Self::decided(decoded_view(decoded)) == Ok::<
                    SubscriberView,
                    ValidationError,
                >(form@),
                Err(reason) => Self::decided(decoded_view(decoded)) == Err::<
                    SubscriberView,
                    ValidationError,
                >(reason),
            },
    {
        match decoded {
            None => Err(ValidationError::Malformed),
            Some(pairs) => match select_fields(&pairs) {
                Err(reason) => Err(reason),
                Ok((email, name)) => Self::new(email, name),
            },
        }
    }

    /// Parses a URL-encoded form body into a request.
    pub fn parse(body: &[u8]) -> (r: Result<SubscriberData, ValidationError>)
        ensures
            match r {
                Ok(form) => Self::decided(form_pairs(body@)) == Ok::<
                    SubscriberView,
                    ValidationError,
                >(form@),
                Err(reason) => Self::decided(form_pairs(body@)) == Err::<
                    SubscriberView,
                    ValidationError,
                >(reason),
            },
    {
        let decoded = match decode_form(body) {
            Ok(pairs) => Some(pairs),
            Err(_) => None,
        };
        Self::from_decoded(decoded)
    }

    /// The email, as submitted.
    pub fn email(&self) -> (r: &str)
        ensures
            r@ == self@.email,
            r@.len() > 0,
    {
        proof {
            use_type_invariant(self);
        }
        self.email.as_str()
    }

    /// The name, as submitted.
    pub fn name(&self) -> (r: &str)
        ensures
            r@ == self@.name,
            r@.len() > 0,
    {
        proof {
            use_type_invariant(self);
        }
        self.name.as_str()
    }
}

/// A decoded form as contracts see it.
pub open spec fn decoded_view(decoded: Option<Vec<(String, String)>>) -> Option<
    Seq<(Seq<char>, Seq<char>)>,
> {
    match decoded {
        None => None,
        Some(pairs) => Some(pairs_view(pairs@)),
    }
}

/// What the caller is to do next with a submission.
#[derive(Debug)]
pub enum Step {
    /// Insert this one record, then hand the store's answer to [`respond`].
    Insert(SubscriptionRecord),
    /// Send this reply. The store is not to be touched.
    Reply(Reply),
}

/// The line that goes to the log when the store fails: a fixed opening, then
/// the store's own account.
pub open spec fn failure_line(detail: Seq<char>) -> Seq<char> {
    "Failed to execute query: "@ + detail
}

/// The reply that an outcome calls for. Success answers [`OK`]; a refused
/// submission answers [`BAD_REQUEST`] and is not logged; a failed write
/// answers [`INTERNAL_SERVER_ERROR`] and logs the failure, of which the
/// client sees nothing. No reply has a body.
pub open spec fn reply_for(outcome: Result<(), SubscribeError>) -> ReplyView {
    match outcome {
        Ok(_) => bare(OK),
        Err(SubscribeError::Validation(_)) => bare(BAD_REQUEST),
        Err(SubscribeError::Persistence(failure)) => ReplyView {
            status: INTERNAL_SERVER_ERROR,
            body: Seq::empty(),
            log: Some(failure_line(failure.detail@)),
        },
    }
}

/// Turns a request into the record to insert: the request's email and name
/// under a fresh random identifier, stamped with the clock's reading.
pub fn subscribe(form: SubscriberData) -> (record: SubscriptionRecord)
    ensures
        record@.email == form@.email,
        record@.name == form@.name,
        is_random_uuid(record@.id),
        0 <= record@.subscribed_at.nanos < NANOS_PER_SECOND,
{
    let id: u128 = random_id();
    let now = Timestamp::now();
    SubscriptionRecord::new(id, form, now)
}

/// The step is the one that a decoded body calls for. A form that makes a
/// request calls for the insert of one record, which holds the request's email
/// and name under a random identifier; any other calls for the reply that
/// refuses it, and for no insert.
pub open spec fn called_for(decoded: Option<Seq<(Seq<char>, Seq<char>)>>, step: Step) -> bool {
    match SubscriberData::decided(decoded) {
        Ok(form) => {
            &&& step matches Step::Insert(record)
            &&& record@.email == form.email
            &&& record@.name == form.name
            &&& is_random_uuid(record@.id)
            &&& 0 <= record@.subscribed_at.nanos < NANOS_PER_SECOND
        },
        Err(reason) => {
            &&& step matches Step::Reply(reply)
            &&& reply@ == reply_for(Err(SubscribeError::Validation(reason)))
        },
    }
}

/// Takes a submission in. A body that makes a well-formed request yields the
/// one record to insert; any other body yields the reply that refuses it, and
/// nothing to insert.
pub fn receive(body: &[u8]) -> (step: Step)
    ensures
        called_for(form_pairs(body@), step),
{
    match SubscriberData::parse(body) {
        Ok(form) => Step::Insert(subscribe(form)),
        Err(reason) => Step::Reply(respond(Err(SubscribeError::Validation(reason)))),
    }
}

/// Turns the outcome of a submission into its reply.
pub fn respond(outcome: Result<(), SubscribeError>) -> (reply: Reply)
    ensures
        reply@ == reply_for(outcome),
{
    match outcome {
        Ok(_) => Reply::bare(OK),
        Err(SubscribeError::Validation(_)) => Reply::bare(BAD_REQUEST),
        Err(SubscribeError::Persistence(failure)) => {
            let line = String::from_str("Failed to execute query: ").concat(
                failure.detail.as_str(),
            );
            Reply { status: INTERNAL_SERVER_ERROR, body: Vec::new(), log: Some(line) }
        },
    }
}

/// A well-formed submission is accepted and kept as it came. Where exactly one
/// pair of a form names `email`, exactly one names `name`, and both carry a
/// value, the form makes the request with those two values, character for
/// character; every step that [`receive`] may take on it is the insert of one
/// record with those two values, and the insert done, [`respond`] answers
/// [`OK`] with an empty body.
pub proof fn well_formed_submission_is_accepted(
    pairs: Seq<(Seq<char>, Seq<char>)>,
    email_at: int,
    name_at: int,
)
    requires
        0 <= email_at < pairs.len(),
        0 <= name_at < pairs.len(),
        forall|i: int|
            0 <= i < pairs.len() ==> ((#[trigger] pairs[i]).0 == Field::Email.key() <==> i
                == email_at),
        forall|i: int|
            0 <= i < pairs.len() ==> ((#[trigger] pairs[i]).0 == Field::Name.key() <==> i
                == name_at),
        pairs[email_at].1.len() > 0,
        pairs[name_at].1.len() > 0,
    ensures
        SubscriberData::decided(Some(pairs)) == Ok::<SubscriberView, ValidationError>(
            SubscriberView { email: pairs[email_at].1, name: pairs[name_at].1 },
        ),
        forall|step: Step| #[trigger]
            called_for(Some(pairs), step) ==> {
                &&& step matches Step::Insert(record)
                &&& record@.email == pairs[email_at].1
                &&& record@.name == pairs[name_at].1
            },
        reply_for(Ok(())) == bare(OK),
{
}

/// A submission that lacks a field is refused and leaves no record. Where no
/// pair of a form names `email`, or none names `name`, the form makes no
/// request; every step that [`receive`] may take on it is a reply, not an
/// insert, and the reply is [`BAD_REQUEST`] with an empty body and nothing to
/// log.
pub proof fn incomplete_submission_is_refused(pairs: Seq<(Seq<char>, Seq<char>)>, missing: Field)
    requires
        !occurs(pairs, missing),
    ensures
        SubscriberData::decided(Some(pairs)) is Err,
        forall|step: Step| #[trigger]
            called_for(Some(pairs), step) ==> {
                &&& step matches Step::Reply(reply)
                &&& reply@ == bare(BAD_REQUEST)
            },
{
}

} // verus!
