//! Validation layer: from a decoded sign-up form to a structured record.

use crate::content_type::{announces_form, is_form_content_type};
use vstd::prelude::*;

verus! {

/// The error with which `serde_urlencoded` refuses an input.
#[verifier::external_type_specification]
#[verifier::external_body]
pub struct ExDecodeError(serde_urlencoded::de::Error);

/// The (key, value) pairs that `serde_urlencoded` reads from a body, in the
/// order in which the body gives them, or `None` where it refuses the body.
pub uninterp spec fn urlencoded_pairs(body: Seq<u8>) -> Option<Seq<(Seq<char>, Seq<char>)>>;

/// Decodes a URL-encoded body with `serde_urlencoded::from_bytes`, asked
/// for a vector of pairs of strings.
///
/// Trusted: the pairs are those that the decoder reads from these bytes and
/// from nothing else, and an empty body is accepted and holds no pair.
#[verifier::external_body]
fn decode_pairs(body: &[u8]) -> (decoded: Result<Vec<(String, String)>, serde_urlencoded::de::Error>)
    ensures
        match decoded {
            Ok(pairs) => urlencoded_pairs(body@) == Some(pairs.deep_view()),
            Err(_) => urlencoded_pairs(body@) is None,
        },
        body@.len() == 0 ==> decoded is Ok && decoded->Ok_0@.len() == 0,
{
    serde_urlencoded::from_bytes::<Vec<(String, String)>>(body)
}

/// One of the two fields a sign-up form must carry.
#[derive(Debug, Clone, Copy, PartialEq, Eq, Structural)]
pub enum Field {
    Name,
    Email,
}

/// Why a sign-up form was turned away. Every variant is the client's fault.
#[derive(Debug, Clone, Copy, PartialEq, Eq, Structural)]
pub enum ValidationError {
    /// The request does not declare a URL-encoded form as its content.
    ContentType,
    /// The body could not be decoded as a URL-encoded form.
    Malformed,
    /// The form has no value for the field.
    MissingField(Field),
    /// The form has more than one value for the field.
    DuplicateField(Field),
}

/// A validated sign-up form.
#[derive(Debug)]
pub struct FormData {
    name: String,
    email: String,
}

/// What a [`FormData`] holds, as sequences of characters.
pub struct FormView {
    pub name: Seq<char>,
    pub email: Seq<char>,
}

impl View for FormData {
    type V = FormView;

    closed spec fn view(&self) -> FormView {
        FormView { name: self.name@, email: self.email@ }
    }
}

/// The key under which a form carries the field.
pub open spec fn key_of(field: Field) -> Seq<char> {
    match field {
        Field::Name => "name"@,
        Field::Email => "email"@,
    }
}

/// Selects the value of a pair whose key is `key`.
pub open spec fn value_under(key: Seq<char>) -> spec_fn((Seq<char>, Seq<char>)) -> Option<
    Seq<char>,
> {
    |pair: (Seq<char>, Seq<char>)|
        if pair.0 == key {
            Some(pair.1)
        } else {
            None
        }
}

/// The values that `pairs` gives for `key`, in the order of the form.
pub open spec fn values_of(pairs: Seq<(Seq<char>, Seq<char>)>, key: Seq<char>) -> Seq<Seq<char>> {
    pairs.filter_map(value_under(key))
}

/// The record that a decoded form stands for: each of the two fields must
/// occur exactly once; keys other than the two are ignored. The name is
/// looked at first.
pub open spec fn form_of(pairs: Seq<(Seq<char>, Seq<char>)>) -> Result<FormView, ValidationError> {
    let names = values_of(pairs, key_of(Field::Name));
    let emails = values_of(pairs, key_of(Field::Email));
    if names.len() == 0 {
        Err(ValidationError::MissingField(Field::Name))
    } else if names.len() > 1 {
        Err(ValidationError::DuplicateField(Field::Name))
    } else if emails.len() == 0 {
        Err(ValidationError::MissingField(Field::Email))
    } else if emails.len() > 1 {
        Err(ValidationError::DuplicateField(Field::Email))
    } else {
        Ok(FormView { name: names[0], email: emails[0] })
    }
}

/// What validation makes of a request: the content type is checked first,
/// then the body is decoded, then the two fields are looked up.
pub open spec fn validated(content_type: Seq<u8>, body: Seq<u8>) -> Result<
    FormView,
    ValidationError,
> {
    if !is_form_content_type(content_type) {
        Err(ValidationError::ContentType)
    } else {
        match urlencoded_pairs(body) {
            None => Err(ValidationError::Malformed),
            Some(pairs) => form_of(pairs),
        }
    }
}

/// The view of a validation result: the record's view, or the error itself.
pub open spec fn outcome_view(outcome: Result<FormData, ValidationError>) -> Result<
    FormView,
    ValidationError,
> {
    match outcome {
        Ok(form) => Ok(form@),
        Err(error) => Err(error),
    }
}

/// How often `key` occurs in `pairs`, with the first value found under it.
struct Occurrences {
    count: usize,
    first: Option<String>,
}

impl FormData {
    /// A form with the given name and email, taken as they are.
    pub fn new(name: String, email: String) -> (form: FormData)
        ensures
            form@ == (FormView { name: name@, email: email@ }),
    {
        FormData { name, email }
    }

    /// The subscriber's name.
    pub fn name(&self) -> (name: &str)
        ensures
            name@ == self@.name,
    {
        self.name.as_str()
    }

    /// The subscriber's email address.
    pub fn email(&self) -> (email: &str)
        ensures
            email@ == self@.email,
    {
        self.email.as_str()
    }

    /// Gives up the form for its name and its email, in this order.
    pub fn into_parts(self) -> (parts: (String, String))
        ensures
            parts.0@ == self@.name,
            parts.1@ == self@.email,
    {
        (self.name, self.email)
    }

    /// Validates a request: `content_type` is the value of its
    /// `Content-Type` header, empty where it has none, and `body` its raw
    /// payload.
    pub fn parse(content_type: &[u8], body: &[u8]) -> (outcome: Result<FormData, ValidationError>)
        ensures
            outcome_view(outcome) == validated(content_type@, body@),
            body@.len() == 0 ==> outcome == Err::<FormData, ValidationError>(
                if is_form_content_type(content_type@) {
                    ValidationError::MissingField(Field::Name)
                } else {
                    ValidationError::ContentType
                },
            ),
    {
        if !announces_form(content_type) {
            return Err(ValidationError::ContentType);
        }
        match decode_pairs(body) {
            Ok(pairs) => {
                proof {
                    if body@.len() == 0 {
                        assert(values_of(pairs.deep_view(), key_of(Field::Name)).len() == 0);
                    }
                }
                FormData::from_pairs(pairs.as_slice())
            },
            Err(_) => Err(ValidationError::Malformed),
        }
    }

    /// Builds the record from the decoded (key, value) pairs of a form.
    pub fn from_pairs(pairs: &[(String, String)]) -> (outcome: Result<FormData, ValidationError>)
        ensures
            outcome_view(outcome) == form_of(pairs.deep_view()),
    {
        let names = occurrences(pairs, "name");
        let emails = occurrences(pairs, "email");
        if names.count == 0 {
            Err(ValidationError::MissingField(Field::Name))
        } else if names.count > 1 {
            Err(ValidationError::DuplicateField(Field::Name))
        } else if emails.count == 0 {
            Err(ValidationError::MissingField(Field::Email))
        } else if emails.count > 1 {
            Err(ValidationError::DuplicateField(Field::Email))
        } else {
            Ok(FormData { name: names.first.unwrap(), email: emails.first.unwrap() })
        }
    }
}

/// A form in which no pair has the key gives no value for it.
pub proof fn lemma_absent_key_has_no_value(pairs: Seq<(Seq<char>, Seq<char>)>, key: Seq<char>)
    requires
        forall|i: int| 0 <= i < pairs.len() ==> pairs[i].0 != key,
    ensures
        values_of(pairs, key).len() == 0,
    decreases pairs.len(),
{
    if pairs.len() > 0 {
        lemma_absent_key_has_no_value(pairs.drop_last(), key);
    }
}

/// A form in which the pair at `at` is the only one with the key gives that
/// pair's value for it, and no other.
pub proof fn lemma_single_key_has_its_value(
    pairs: Seq<(Seq<char>, Seq<char>)>,
    key: Seq<char>,
    at: int,
)
    requires
        0 <= at < pairs.len(),
        pairs[at].0 == key,
        forall|i: int| 0 <= i < pairs.len() && pairs[i].0 == key ==> i == at,
    ensures
        values_of(pairs, key) == seq![pairs[at].1],
    decreases pairs.len(),
{
    let rest = pairs.drop_last();
    if at == pairs.len() - 1 {
        lemma_absent_key_has_no_value(rest, key);
        assert(values_of(pairs, key) =~= seq![pairs[at].1]);
    } else {
        lemma_single_key_has_its_value(rest, key, at);
    }
}

/// A form that carries the name once, at `name_at`, and the email once, at
/// `email_at`, stands for the record with these two values, whatever else it
/// carries.
pub proof fn lemma_complete_form_is_accepted(
    pairs: Seq<(Seq<char>, Seq<char>)>,
    name_at: int,
    email_at: int,
)
    requires
        0 <= name_at < pairs.len(),
        pairs[name_at].0 == key_of(Field::Name),
        forall|i: int|
            0 <= i < pairs.len() && pairs[i].0 == key_of(Field::Name) ==> i == name_at,
        0 <= email_at < pairs.len(),
        pairs[email_at].0 == key_of(Field::Email),
        forall|i: int|
            0 <= i < pairs.len() && pairs[i].0 == key_of(Field::Email) ==> i == email_at,
    ensures
        form_of(pairs) == Ok::<FormView, ValidationError>(
            FormView { name: pairs[name_at].1, email: pairs[email_at].1 },
        ),
{
    lemma_single_key_has_its_value(pairs, key_of(Field::Name), name_at);
    lemma_single_key_has_its_value(pairs, key_of(Field::Email), email_at);
}

/// A form that lacks one of the two fields is turned away.
pub proof fn lemma_incomplete_form_is_refused(pairs: Seq<(Seq<char>, Seq<char>)>, field: Field)
    requires
        forall|i: int| 0 <= i < pairs.len() ==> pairs[i].0 != key_of(field),
    ensures
        form_of(pairs) is Err,
        field == Field::Name ==> form_of(pairs) == Err::<FormView, ValidationError>(
            ValidationError::MissingField(Field::Name),
        ),
{
    lemma_absent_key_has_no_value(pairs, key_of(field));
}

/// Counts the pairs whose key is `key` and keeps the first value among them.
fn occurrences(pairs: &[(String, String)], key: &str) -> (found: Occurrences)
    ensures
        found.count == values_of(pairs.deep_view(), key@).len(),
        found.count > 0 ==> found.first is Some && found.first->0@ == values_of(
            pairs.deep_view(),
            key@,
        )[0],
{
    let ghost all = pairs.deep_view();
    let wanted = key.to_owned();
    let mut count: usize = 0;
    let mut first: Option<String> = None;
    let mut i: usize = 0;
    while i < pairs.len()
        invariant
            i <= pairs.len(),
            all == pairs.deep_view(),
            wanted@ == key@,
            count <= i,
            count == values_of(all.take(i as int), key@).len(),
            count > 0 ==> first is Some && first->0@ == values_of(all.take(i as int), key@)[0],
        decreases pairs.len() - i,
    {
        proof {
            all.lemma_filter_map_take_succ(value_under(key@), i as int);
        }
        let pair = &pairs[i];
        if pair.0 == wanted {
            if count == 0 {
                first = Some(pair.1.clone());
            }
            count += 1;
        }
        i += 1;
    }
    proof {
        assert(all.take(pairs.len() as int) == all);
    }
    Occurrences { count, first }
}

} // verus!
