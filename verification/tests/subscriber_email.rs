use myzero2prod::domain::subscriber_email::email_verdict;
use myzero2prod::domain::SubscriberEmail;

#[test]
fn valid_emails_are_parsed_successfully() {
    let first_names = ["ursula", "john", "maria", "zhangzhiyu", "le_guin"];
    let domains = ["com", "net", "org"];
    for name in first_names.iter() {
        for domain in domains.iter() {
            let email = format!("{name}@example.{domain}");
            assert!(SubscriberEmail::parse(email).is_ok());
        }
    }
}

#[test]
fn a_parsed_email_keeps_its_text() {
    let email = SubscriberEmail::parse("ursula_le_guin@gmail.com".to_string()).unwrap();
    assert_eq!(email.as_ref(), "ursula_le_guin@gmail.com");
}

#[test]
fn empty_string_is_rejected_as_email() {
    assert!(SubscriberEmail::parse("".to_string()).is_err());
}

#[test]
fn email_missing_at_symbol_is_rejected() {
    assert!(SubscriberEmail::parse("ursuladomain.com".to_string()).is_err());
}

#[test]
fn email_missing_subject_is_rejected() {
    assert!(SubscriberEmail::parse("@domain.com".to_string()).is_err());
}

#[test]
fn definitely_not_an_email_is_rejected() {
    assert!(SubscriberEmail::parse("definitely-not-an-email".to_string()).is_err());
}

#[test]
fn rejection_message_names_the_candidate() {
    let err = SubscriberEmail::parse("not-an-email".to_string()).unwrap_err();
    assert_eq!(err, "not-an-email is not a valid subscriber email.");
}

#[test]
fn reparsing_an_accepted_email_gives_it_back() {
    let email = SubscriberEmail::parse("weirder-email@here.and.there.com".to_string()).unwrap();
    let again = SubscriberEmail::parse(email.as_ref().clone()).unwrap();
    assert_eq!(again.as_ref(), email.as_ref());
}

#[test]
fn two_rejected_candidates_get_different_messages() {
    let a = SubscriberEmail::parse("first".to_string()).unwrap_err();
    let b = SubscriberEmail::parse("second".to_string()).unwrap_err();
    assert_ne!(a, b);
}

#[test]
fn a_cloned_email_has_the_same_text() {
    let email = SubscriberEmail::parse("email@[127.0.0.1]".to_string()).unwrap();
    let copy = email.clone();
    assert_eq!(copy.as_ref(), "email@[127.0.0.1]");
}

#[test]
fn verdict_accepts_the_candidate_unchanged() {
    assert_eq!(email_verdict("a@b.c".to_string(), true), Ok("a@b.c".to_string()));
}

#[test]
fn verdict_rejects_with_a_message() {
    assert_eq!(
        email_verdict("a@b.c".to_string(), false),
        Err("a@b.c is not a valid subscriber email.".to_string())
    );
}

#[test]
fn verdict_on_empty_candidate() {
    assert_eq!(
        email_verdict(String::new(), false),
        Err(" is not a valid subscriber email.".to_string())
    );
}

fn text_of<T: AsRef<String>>(value: &T) -> String {
    value.as_ref().clone()
}

#[test]
fn an_email_can_be_read_through_as_ref() {
    let email = SubscriberEmail::parse("email@here.com".to_string()).unwrap();
    assert_eq!(text_of(&email), "email@here.com");
}
