//! The sign-up endpoint, request by request: a request is received, then
//! validated or rejected; a validated one is handed to the store and is
//! persisted or fails there; each of the three ends is one response.

use crate::content_type::is_form_content_type;
use crate::form::{
    key_of, lemma_complete_form_is_accepted, lemma_incomplete_form_is_refused, outcome_view,
    urlencoded_pairs, validated, Field, FormData, FormView, ValidationError,
};
use crate::routes::{bare, Response, ResponseView};
use crate::subscription::{
    is_random_uuid, row_of, StorageError, Subscription, SubscriptionView, Timestamp,
};
use vstd::prelude::*;

verus! {

/// Where sign-ups are received, as `POST` requests.
pub const SUBSCRIPTIONS_PATH: &'static str = "/subscriptions";

/// What the server does next with a request.
#[derive(Debug)]
pub enum Step {
    /// Hand the row to the store, then answer with [`respond`].
    Save(Subscription),
    /// Answer at once; nothing goes to the store.
    Respond(Response),
}

/// What a [`Step`] holds.
pub enum StepView {
    Save(SubscriptionView),
    Respond(ResponseView),
}

impl View for Step {
    type V = StepView;

    open spec fn view(&self) -> StepView {
        match self {
            Step::Save(row) => StepView::Save(row@),
            Step::Respond(response) => StepView::Respond(response@),
        }
    }
}

/// The step that follows validation: a validated form is saved under `id`
/// as subscribed at `at`, a rejected one is answered 400.
pub open spec fn next_step(
    outcome: Result<FormView, ValidationError>,
    id: u128,
    at: Timestamp,
) -> StepView {
    match outcome {
        Ok(form) => StepView::Save(row_of(form, id, at)),
        Err(_) => StepView::Respond(bare(400)),
    }
}

/// The status that answers a request once the store has spoken.
pub open spec fn status_after(stored: bool) -> u16 {
    if stored {
        200
    } else {
        500
    }
}

/// Decides the step that follows validation, with the identifier and the
/// instant under which a validated form would be stored.
pub fn decide(outcome: Result<FormData, ValidationError>, id: u128, at: Timestamp) -> (step: Step)
    ensures
        step@ == next_step(outcome_view(outcome), id, at),
{
    match outcome {
        Ok(form) => Step::Save(Subscription::assemble(form, id, at)),
        Err(_) => Step::Respond(Response::empty(400)),
    }
}

/// Receives a sign-up request: `content_type` is the value of its
/// `Content-Type` header, empty where it has none, and `body` its raw
/// payload. A request that does not validate is answered 400 with an empty
/// body. One that does is to be saved, with the name and the email of its
/// form, under a fresh random identifier and the current instant.
pub fn subscribe(content_type: &[u8], body: &[u8]) -> (step: Step)
    ensures
        match validated(content_type@, body@) {
            Ok(form) => step@ matches StepView::Save(row) && row.name == form.name && row.email
                == form.email && is_random_uuid(row.id) && row.subscribed_at.is_proper(),
            Err(_) => step@ == StepView::Respond(bare(400)),
        },
        body@.len() == 0 ==> step@ == StepView::Respond(bare(400)),
{
    match FormData::parse(content_type, body) {
        Ok(form) => Step::Save(Subscription::create(form)),
        Err(_) => Step::Respond(Response::empty(400)),
    }
}

/// Answers a request whose row went to the store: 200 where the store took
/// it, 500 where it failed; the body is empty either way.
pub fn respond(saved: Result<(), StorageError>) -> (response: Response)
    ensures
        response@ == bare(status_after(saved is Ok)),
{
    match saved {
        Ok(_) => Response::empty(200),
        Err(_) => Response::empty(500),
    }
}

/// A request that announces a form and carries the name once and the email
/// once is saved as one row with these two values; once the store has taken
/// the row, the answer is 200 with an empty body.
pub proof fn lemma_complete_sign_up_is_saved(
    content_type: Seq<u8>,
    body: Seq<u8>,
    name_at: int,
    email_at: int,
    id: u128,
    at: Timestamp,
)
    requires
        is_form_content_type(content_type),
        urlencoded_pairs(body) is Some,
        ({
            let pairs = urlencoded_pairs(body)->0;
            &&& 0 <= name_at < pairs.len()
            &&& pairs[name_at].0 == key_of(Field::Name)
            &&& forall|i: int|
                0 <= i < pairs.len() && pairs[i].0 == key_of(Field::Name) ==> i == name_at
            &&& 0 <= email_at < pairs.len()
            &&& pairs[email_at].0 == key_of(Field::Email)
            &&& forall|i: int|
                0 <= i < pairs.len() && pairs[i].0 == key_of(Field::Email) ==> i == email_at
        }),
    ensures
        next_step(validated(content_type, body), id, at) == StepView::Save(
            SubscriptionView {
                id,
                email: urlencoded_pairs(body)->0[email_at].1,
                name: urlencoded_pairs(body)->0[name_at].1,
                subscribed_at: at,
            },
        ),
        bare(status_after(true)) == (ResponseView { status: 200, body: Seq::empty() }),
{
    lemma_complete_form_is_accepted(urlencoded_pairs(body)->0, name_at, email_at);
}

/// A request whose form lacks the name or lacks the email is answered 400
/// with an empty body, and nothing goes to the store.
pub proof fn lemma_incomplete_sign_up_is_rejected(
    content_type: Seq<u8>,
    body: Seq<u8>,
    field: Field,
    id: u128,
    at: Timestamp,
)
    requires
        urlencoded_pairs(body) is Some,
        ({
            let pairs = urlencoded_pairs(body)->0;
            forall|i: int| 0 <= i < pairs.len() ==> pairs[i].0 != key_of(field)
        }),
    ensures
        next_step(validated(content_type, body), id, at) == StepView::Respond(
            ResponseView { status: 400, body: Seq::empty() },
        ),
{
    lemma_incomplete_form_is_refused(urlencoded_pairs(body)->0, field);
}

/// Every request ends in exactly one of three responses, each with an empty
/// body: 400 without a look at the store, or 200 or 500 after the store has
/// spoken.
pub proof fn lemma_request_ends_in_one_response(
    outcome: Result<FormView, ValidationError>,
    id: u128,
    at: Timestamp,
    stored: bool,
)
    ensures
        outcome is Err <==> next_step(outcome, id, at) == StepView::Respond(bare(400)),
        outcome is Ok <==> next_step(outcome, id, at) is Save,
        status_after(stored) == 200 <==> stored,
        status_after(stored) == 500 <==> !stored,
{
}

/// Sign-ups are not told apart by their content: the same form, given
/// again, is saved again, and the two rows differ wherever their
/// identifiers do.
pub proof fn lemma_same_form_is_saved_again(
    form: FormView,
    first_id: u128,
    first_at: Timestamp,
    second_id: u128,
    second_at: Timestamp,
)
    requires
        first_id != second_id,
    ensures
        next_step(Ok(form), first_id, first_at) == StepView::Save(
            row_of(form, first_id, first_at),
        ),
        next_step(Ok(form), second_id, second_at) == StepView::Save(
            row_of(form, second_id, second_at),
        ),
        row_of(form, first_id, first_at) != row_of(form, second_id, second_at),
        row_of(form, first_id, first_at).name == row_of(form, second_id, second_at).name,
        row_of(form, first_id, first_at).email == row_of(form, second_id, second_at).email,
{
}

} // verus!
