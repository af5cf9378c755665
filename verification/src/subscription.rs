//! The subscription record and the statement that stores it.

use crate::form::{FormData, FormView};
use vstd::prelude::*;

verus! {

/// The statement that stores one subscription. Its four parameters are
/// bound, never written into the text.
pub const INSERT_SUBSCRIPTION: &'static str =
    "insert into subscriptions (id, email, name, subscribed_at) values ($1, $2, $3, $4)";

/// An instant in UTC: whole seconds since 1970-01-01 00:00:00, and the
/// nanoseconds after them.
#[derive(Debug, Clone, Copy, PartialEq, Eq, Structural)]
pub struct Timestamp {
    pub secs: i64,
    pub nanos: u32,
}

impl Timestamp {
    /// The nanoseconds make up less than a second.
    pub open spec fn is_proper(self) -> bool {
        self.nanos < 1_000_000_000
    }
}

/// One sign-up as it is stored.
#[derive(Debug)]
pub struct Subscription {
    pub id: u128,
    pub email: String,
    pub name: String,
    pub subscribed_at: Timestamp,
}

/// What a [`Subscription`] holds, with its texts as sequences of characters.
pub struct SubscriptionView {
    pub id: u128,
    pub email: Seq<char>,
    pub name: Seq<char>,
    pub subscribed_at: Timestamp,
}

impl View for Subscription {
    type V = SubscriptionView;

    open spec fn view(&self) -> SubscriptionView {
        SubscriptionView {
            id: self.id,
            email: self.email@,
            name: self.name@,
            subscribed_at: self.subscribed_at,
        }
    }
}

/// A value bound to a parameter of a statement.
#[derive(Debug)]
pub enum SqlValue {
    Uuid(u128),
    Text(String),
    Timestamp(Timestamp),
}

/// What a [`SqlValue`] holds, with its text as a sequence of characters.
pub enum SqlValueView {
    Uuid(u128),
    Text(Seq<char>),
    Timestamp(Timestamp),
}

impl DeepView for SqlValue {
    type V = SqlValueView;

    open spec fn deep_view(&self) -> SqlValueView {
        match self {
            SqlValue::Uuid(id) => SqlValueView::Uuid(*id),
            SqlValue::Text(text) => SqlValueView::Text(text@),
            SqlValue::Timestamp(at) => SqlValueView::Timestamp(*at),
        }
    }
}

/// A statement for the store: its text, and the values of `$1`, `$2`, ...
/// in this order.
#[derive(Debug)]
pub struct Statement {
    pub text: &'static str,
    pub parameters: Vec<SqlValue>,
}

/// Why the store did not take a row.
#[derive(Debug)]
pub struct StorageError {
    pub detail: String,
}

/// Whether a 128-bit number is a random (version 4) UUID of the RFC's
/// variant: the version digit is 4 and the two variant bits are `10`.
pub open spec fn is_random_uuid(id: u128) -> bool {
    id & 0x0000_0000_0000_f000_c000_0000_0000_0000 == 0x0000_0000_0000_4000_8000_0000_0000_0000
}

/// The row that stores `form` under `id`, subscribed at `at`.
pub open spec fn row_of(form: FormView, id: u128, at: Timestamp) -> SubscriptionView {
    SubscriptionView { id, email: form.email, name: form.name, subscribed_at: at }
}

/// The values that the insert statement binds for `row`, in the order of its
/// columns: id, email, name, subscribed_at.
pub open spec fn parameters_of(row: SubscriptionView) -> Seq<SqlValueView> {
    seq![
        SqlValueView::Uuid(row.id),
        SqlValueView::Text(row.email),
        SqlValueView::Text(row.name),
        SqlValueView::Timestamp(row.subscribed_at),
    ]
}

/// Draws a fresh identifier with `uuid::Uuid::new_v4` and hands it out as
/// the number that `Uuid::as_u128` gives for it.
///
/// Trusted: whatever was drawn, the version and variant bits are those of a
/// random UUID. Nothing is claimed of the other bits.
#[verifier::external_body]
fn fresh_id() -> (id: u128)
    ensures
        is_random_uuid(id),
{
    uuid::Uuid::new_v4().as_u128()
}

/// Reads the clock with chrono's `Utc::now`, as `sqlx::types` hands it on,
/// and takes the instant apart with `DateTime::timestamp` and
/// `DateTime::timestamp_subsec_nanos`.
///
/// Trusted: the nanoseconds are less than a second. Nothing is claimed of
/// the seconds: they are what the machine's clock says.
#[verifier::external_body]
fn now_utc() -> (now: Timestamp)
    ensures
        now.is_proper(),
{
    let now = sqlx::types::chrono::Utc::now();
    Timestamp { secs: now.timestamp(), nanos: now.timestamp_subsec_nanos() }
}

impl Subscription {
    /// The row that stores `form` under the given identifier and instant.
    pub fn assemble(form: FormData, id: u128, subscribed_at: Timestamp) -> (row: Subscription)
        ensures
            row@ == row_of(form@, id, subscribed_at),
    {
        let (name, email) = form.into_parts();
        Subscription { id, email, name, subscribed_at }
    }

    /// The row that stores `form` under a fresh random identifier, subscribed
    /// now. The identifier and the instant are whatever the generator and
    /// the clock gave; the name and the email are those of the form.
    pub fn create(form: FormData) -> (row: Subscription)
        ensures
            row@.name == form@.name,
            row@.email == form@.email,
            is_random_uuid(row@.id),
            row@.subscribed_at.is_proper(),
    {
        let id = fresh_id();
        let now = now_utc();
        Subscription::assemble(form, id, now)
    }

    /// The statement that stores this row, with its parameters bound.
    pub fn insert_statement(&self) -> (statement: Statement)
        ensures
            statement.text@ == INSERT_SUBSCRIPTION@,
            statement.parameters.deep_view() == parameters_of(self@),
    {
        let mut parameters: Vec<SqlValue> = Vec::new();
        parameters.push(SqlValue::Uuid(self.id));
        parameters.push(SqlValue::Text(self.email.clone()));
        parameters.push(SqlValue::Text(self.name.clone()));
        parameters.push(SqlValue::Timestamp(self.subscribed_at));
        proof {
            assert(parameters.deep_view() =~= parameters_of(self@));
        }
        Statement { text: INSERT_SUBSCRIPTION, parameters }
    }
}

} // verus!
