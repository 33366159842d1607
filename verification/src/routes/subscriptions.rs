//! The subscription route: what a submitted form must hold, and what is done
//! with it.
//!
//! A request goes through these steps. Its body is decoded into a form;
//! [`subcribe`] turns the form into a subscriber or rejects it;
//! [`insert_subscriber`] makes the row to store for an accepted subscriber;
//! [`storage_outcome`] turns the store's answer into the request's outcome.

use crate::domain::new_subscriber::NewSubscriber;
use crate::domain::subscriber_email::{email_is_valid, invalid_email_message, SubscriberEmail};
use crate::domain::subscriber_name::{
    contains_forbidden_char, has_forbidden_char, invalid_name_message, is_blank_text,
    name_is_valid, SubscriberName, MAX_NAME_GRAPHEMES,
};
use crate::stamps::{fresh_id, is_random_uuid, is_whole_timestamp, now_utc, Timestamp};
use crate::unicode::{chars_of, count_graphemes, grapheme_count, is_blank};
use vstd::prelude::*;
use vstd::std_specs::convert::TryFromSpecImpl;

verus! {

/// The two fields of a submitted form, as they were sent.
pub struct FormData {
    pub email: String,
    pub name: String,
}

/// How a request ends.
#[derive(Clone, Copy, Debug, PartialEq, Eq)]
pub enum Outcome {
    /// The request was served: status 200.
    Success,
    /// The request was malformed or held invalid data: status 400.
    BadRequest,
    /// The store failed: status 500.
    ServerError,
}

impl Outcome {
    /// The HTTP status that stands for the outcome.
    pub open spec fn spec_status_code(self) -> u16 {
        match self {
            Outcome::Success => 200,
            Outcome::BadRequest => 400,
            Outcome::ServerError => 500,
        }
    }

    /// The HTTP status to answer with. The answer's body is always empty.
    #[verifier::when_used_as_spec(spec_status_code)]
    pub fn status_code(self) -> (code: u16)
        ensures
            code == self.spec_status_code(),
    {
        match self {
            Outcome::Success => 200,
            Outcome::BadRequest => 400,
            Outcome::ServerError => 500,
        }
    }
}

/// What is to be done next for a request.
pub enum Step {
    /// Store this subscriber, then answer by what the store says.
    Persist(NewSubscriber),
    /// Answer at once, and store nothing.
    Respond(Outcome),
}

/// The row that is stored for one subscriber.
pub struct SubscriptionRecord {
    /// A random UUID, as a big-endian number.
    pub id: u128,
    pub email: String,
    pub name: String,
    pub subscribed_at: Timestamp,
}

/// Whether a form passes validation: both its fields do.
pub open spec fn form_is_valid(form: FormData) -> bool {
    email_is_valid(form.email@) && name_is_valid(form.name@)
}

/// What the conversion gives is stated by the clauses on `try_from` below;
/// `try_from_spec` says nothing of it.
impl TryFromSpecImpl<FormData> for NewSubscriber {
    open spec fn obeys_try_from_spec() -> bool {
        false
    }

    open spec fn try_from_spec(v: FormData) -> Result<Self, String> {
        arbitrary()
    }
}

impl TryFrom<FormData> for NewSubscriber {
    type Error = String;

    /// Validates the email address, then the name. The subscriber holds both
    /// texts unchanged; the first field that fails gives the error.
    fn try_from(value: FormData) -> (r: Result<NewSubscriber, String>)
        ensures
            r is Ok <==> form_is_valid(value),
            r is Ok ==> r->Ok_0.email@ == value.email@ && r->Ok_0.name@ == value.name@,
            r is Err ==> r->Err_0@ == if !email_is_valid(value.email@) {
                invalid_email_message()
            } else {
                invalid_name_message()
            },
    {
        let email = match SubscriberEmail::parse(value.email) {
            Ok(email) => email,
            Err(e) => {
                return Err(e);
            },
        };
        let name = match SubscriberName::parse(value.name) {
            Ok(name) => name,
            Err(e) => {
                return Err(e);
            },
        };
        Ok(NewSubscriber { email, name })
    }
}

/// Decides what to do with a request whose body was decoded into `form`, or
/// could not be decoded (`None`). A body that could not be decoded and a form
/// that fails validation are answered alike, and nothing is stored for them;
/// a valid form is to be stored as it was sent.
pub fn subcribe(form: Option<FormData>) -> (step: Step)
    ensures
        match form {
            Some(f) if form_is_valid(f) => step matches Step::Persist(sub) && sub.email@
                == f.email@ && sub.name@ == f.name@,
            _ => step == Step::Respond(Outcome::BadRequest),
        },
{
    match form {
        None => Step::Respond(Outcome::BadRequest),
        Some(f) => match NewSubscriber::try_from(f) {
            Ok(new_sub) => Step::Persist(new_sub),
            Err(_) => Step::Respond(Outcome::BadRequest),
        },
    }
}

/// How a request ends once the store has answered: with success if the row
/// was written, with a server error if not. The write is not tried again.
pub fn storage_outcome(stored: bool) -> (outcome: Outcome)
    ensures
        outcome == if stored {
            Outcome::Success
        } else {
            Outcome::ServerError
        },
{
    if stored {
        Outcome::Success
    } else {
        Outcome::ServerError
    }
}

/// Tells whether `s` may be a subscriber's name: not blank, at most
/// `MAX_NAME_GRAPHEMES` grapheme clusters, no forbidden character.
pub fn is_valid_name(s: &str) -> (ok: bool)
    ensures
        ok == name_is_valid(s@),
        is_blank(s@) ==> !ok,
        grapheme_count(s@) > MAX_NAME_GRAPHEMES ==> !ok,
        has_forbidden_char(s@) ==> !ok,
{
    let chars = chars_of(s);
    let is_empty_or_whitespace = is_blank_text(&chars);
    let is_too_long = count_graphemes(s) > MAX_NAME_GRAPHEMES;
    let contains_forbidden_chars = contains_forbidden_char(&chars);
    !(is_empty_or_whitespace || is_too_long || contains_forbidden_chars)
}

/// The row for `new_sub` with the given identifier and time of writing.
pub fn subscription_record(new_sub: &NewSubscriber, id: u128, at: Timestamp) -> (record:
    SubscriptionRecord)
    ensures
        record.id == id,
        record.subscribed_at == at,
        record.email@ == new_sub.email@,
        record.name@ == new_sub.name@,
        email_is_valid(record.email@),
        name_is_valid(record.name@),
{
    SubscriptionRecord {
        id,
        email: new_sub.email.as_ref().to_owned(),
        name: new_sub.name.as_ref().to_owned(),
        subscribed_at: at,
    }
}

/// Makes the one row that is stored for `new_sub`: the subscriber's email
/// address and name as they were validated, under a fresh random identifier
/// and with the current time.
pub fn insert_subscriber(new_sub: &NewSubscriber) -> (record: SubscriptionRecord)
    ensures
        record.email@ == new_sub.email@,
        record.name@ == new_sub.name@,
        email_is_valid(record.email@),
        name_is_valid(record.name@),
        is_random_uuid(record.id),
        is_whole_timestamp(record.subscribed_at),
{
    let id = fresh_id();
    let at = now_utc();
    subscription_record(new_sub, id, at)
}

} // verus!
