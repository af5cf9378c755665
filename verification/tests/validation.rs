use zero2prod::content_type::{announces_form, FORM_MEDIA_TYPE};
use zero2prod::form::{Field, FormData, ValidationError};

const FORM: &[u8] = b"application/x-www-form-urlencoded";

fn pair(key: &str, value: &str) -> (String, String) {
    (key.to_string(), value.to_string())
}

fn parsed(body: &str) -> Result<(String, String), ValidationError> {
    FormData::parse(FORM, body.as_bytes()).map(FormData::into_parts)
}

#[test]
fn form_media_type_is_the_urlencoded_one() {
    assert_eq!("application/x-www-form-urlencoded", FORM_MEDIA_TYPE);
    assert!(announces_form(FORM_MEDIA_TYPE.as_bytes()));
}

#[test]
fn content_type_with_parameters_announces_form() {
    assert!(announces_form(b"application/x-www-form-urlencoded; charset=UTF-8"));
    assert!(announces_form(b"application/x-www-form-urlencoded;charset=utf-8"));
    assert!(announces_form(b"application/x-www-form-urlencoded;"));
}

#[test]
fn content_type_is_matched_without_regard_to_case_or_blanks() {
    assert!(announces_form(b"Application/X-WWW-Form-URLEncoded"));
    assert!(announces_form(b"  application/x-www-form-urlencoded\t ; charset=UTF-8"));
    assert!(announces_form(b"\tAPPLICATION/X-WWW-FORM-URLENCODED "));
}

#[test]
fn other_content_types_do_not_announce_form() {
    assert!(!announces_form(b""));
    assert!(!announces_form(b" "));
    assert!(!announces_form(b";"));
    assert!(!announces_form(b"application/json"));
    assert!(!announces_form(b"text/plain; charset=application/x-www-form-urlencoded"));
    assert!(!announces_form(b"application/x-www-form-urlencode"));
    assert!(!announces_form(b"application/x-www-form-urlencodedx"));
    assert!(!announces_form(b"application/x-www-form-urlencoded charset=UTF-8"));
    assert!(!announces_form(b"application/x www-form-urlencoded"));
    assert!(!announces_form(b"application/x-www-form-urlencoded\n"));
    assert!(!announces_form(b"application/x-www-form-urlencoded[ "));
    assert!(!announces_form(b"`pplication/x-www-form-urlencoded"));
}

#[test]
fn form_keeps_what_it_is_given() {
    let form = FormData::new(String::from("dummy"), String::from("test@test.com"));
    assert_eq!("dummy", form.name());
    assert_eq!("test@test.com", form.email());
    assert_eq!((String::from("dummy"), String::from("test@test.com")), form.into_parts());
}

#[test]
fn pairs_with_both_fields_make_a_form() {
    let pairs = vec![pair("name", "dummy"), pair("email", "test@test.com")];
    let form = FormData::from_pairs(&pairs).expect("a complete form");
    assert_eq!("dummy", form.name());
    assert_eq!("test@test.com", form.email());
}

#[test]
fn pairs_in_any_order_and_among_others_make_a_form() {
    let pairs = vec![
        pair("newsletter", "weekly"),
        pair("email", "test@test.com"),
        pair("Name", "not the name"),
        pair("name", "dummy"),
        pair("", ""),
    ];
    let form = FormData::from_pairs(&pairs).expect("a complete form");
    assert_eq!("dummy", form.name());
    assert_eq!("test@test.com", form.email());
}

#[test]
fn no_pairs_miss_the_name() {
    let outcome = FormData::from_pairs(&[]).map(FormData::into_parts);
    assert_eq!(Err(ValidationError::MissingField(Field::Name)), outcome);
}

#[test]
fn pairs_without_name_miss_the_name() {
    let pairs = vec![pair("email", "test@test.com")];
    let outcome = FormData::from_pairs(&pairs).map(FormData::into_parts);
    assert_eq!(Err(ValidationError::MissingField(Field::Name)), outcome);
}

#[test]
fn pairs_without_email_miss_the_email() {
    let pairs = vec![pair("name", "dummy")];
    let outcome = FormData::from_pairs(&pairs).map(FormData::into_parts);
    assert_eq!(Err(ValidationError::MissingField(Field::Email)), outcome);
}

#[test]
fn repeated_name_is_a_duplicate() {
    let pairs = vec![pair("name", "a"), pair("email", "c"), pair("name", "b")];
    let outcome = FormData::from_pairs(&pairs).map(FormData::into_parts);
    assert_eq!(Err(ValidationError::DuplicateField(Field::Name)), outcome);
}

#[test]
fn repeated_email_is_a_duplicate() {
    let pairs = vec![pair("email", "c"), pair("name", "a"), pair("email", "c")];
    let outcome = FormData::from_pairs(&pairs).map(FormData::into_parts);
    assert_eq!(Err(ValidationError::DuplicateField(Field::Email)), outcome);
}

#[test]
fn name_is_looked_at_before_email() {
    let pairs = vec![pair("email", "c"), pair("email", "d")];
    let outcome = FormData::from_pairs(&pairs).map(FormData::into_parts);
    assert_eq!(Err(ValidationError::MissingField(Field::Name)), outcome);

    let pairs = vec![pair("email", "c"), pair("email", "d"), pair("name", "a"), pair("name", "b")];
    let outcome = FormData::from_pairs(&pairs).map(FormData::into_parts);
    assert_eq!(Err(ValidationError::DuplicateField(Field::Name)), outcome);
}

#[test]
fn body_is_percent_decoded() {
    assert_eq!(
        Ok((String::from("dummy"), String::from("test@test.com"))),
        parsed("name=dummy&email=test%40test.com")
    );
    assert_eq!(
        Ok((String::from("le guin"), String::from("ursula_le_guin@gmail.com"))),
        parsed("name=le%20guin&email=ursula_le_guin%40gmail.com")
    );
    assert_eq!(
        Ok((String::from("a b&c=d"), String::from("e+f"))),
        parsed("email=e%2Bf&name=a+b%26c%3Dd")
    );
    assert_eq!(
        Ok((String::from("dummy"), String::from("test@test.com"))),
        parsed("%6Eame=dummy&e%6dail=test%40test.com")
    );
}

#[test]
fn values_are_taken_as_they_are() {
    assert_eq!(Ok((String::new(), String::new())), parsed("name=&email="));
    assert_eq!(Ok((String::new(), String::new())), parsed("name&email"));
    assert_eq!(
        Ok((String::from("x"), String::from("not an address"))),
        parsed("&&name=x&&email=not+an+address&")
    );
}

#[test]
fn body_without_a_field_is_refused() {
    assert_eq!(Err(ValidationError::MissingField(Field::Name)), parsed(""));
    assert_eq!(Err(ValidationError::MissingField(Field::Name)), parsed("email=test%40test.com"));
    assert_eq!(Err(ValidationError::MissingField(Field::Email)), parsed("name=dummy"));
    assert_eq!(Err(ValidationError::MissingField(Field::Name)), parsed("nam%65%21=dummy&email=a"));
}

#[test]
fn body_with_a_repeated_field_is_refused() {
    assert_eq!(Err(ValidationError::DuplicateField(Field::Name)), parsed("name=a&name=b&email=c"));
    assert_eq!(Err(ValidationError::DuplicateField(Field::Email)), parsed("name=a&email=b&email=c"));
}

#[test]
fn content_type_is_checked_before_the_body() {
    let outcome = FormData::parse(b"application/json", b"name=dummy&email=test%40test.com");
    assert_eq!(Err(ValidationError::ContentType), outcome.map(FormData::into_parts));

    let outcome = FormData::parse(b"", b"");
    assert_eq!(Err(ValidationError::ContentType), outcome.map(FormData::into_parts));

    let outcome = FormData::parse(b"Application/X-Www-Form-Urlencoded; charset=UTF-8", b"name=a&email=b");
    assert_eq!(Ok((String::from("a"), String::from("b"))), outcome.map(FormData::into_parts));
}
