use zero2prod::domain::{SubscriptionStatus, SubscriptionToken, TOKEN_LENGTH};
use zero2prod::routes::Parameters;

#[test]
fn empty_string_is_rejected() {
    let token = "".to_string();
    assert!(SubscriptionToken::parse(token).is_err());
}

#[test]
fn string_1_char_longer_than_token_length_is_rejected() {
    let token = "a".repeat(TOKEN_LENGTH + 1);
    assert!(SubscriptionToken::parse(token).is_err());
}

#[test]
fn string_1_char_shorter_than_token_length_is_rejected() {
    let token = "a".repeat(TOKEN_LENGTH - 1);
    assert!(SubscriptionToken::parse(token).is_err());
}

#[test]
fn correct_length_with_special_characters_is_rejected() {
    let mut token = "a".repeat(TOKEN_LENGTH - 1);
    token.push('!');
    assert!(SubscriptionToken::parse(token).is_err());
}

#[test]
fn correct_length_with_whitespace_is_rejected() {
    let mut token = "a".repeat(TOKEN_LENGTH - 1);
    token.push(' ');
    assert!(SubscriptionToken::parse(token).is_err());
}

#[test]
fn new_tokens_are_accepted() {
    for _ in 0..200 {
        let token = SubscriptionToken::new();
        assert_eq!(token.as_ref().len(), TOKEN_LENGTH);
        assert!(token.as_ref().chars().all(|c| c.is_ascii_alphanumeric()));
        assert!(SubscriptionToken::parse(token.as_ref().to_owned()).is_ok());
    }
}

#[test]
fn default_tokens_are_accepted() {
    let token = SubscriptionToken::default();
    assert!(SubscriptionToken::parse(token.as_ref().to_owned()).is_ok());
}

#[test]
fn fresh_tokens_differ() {
    let a = SubscriptionToken::new();
    let b = SubscriptionToken::new();
    assert_ne!(a.as_ref(), b.as_ref());
}

#[test]
fn well_formed_token_is_kept_unchanged() {
    let text = "abcDEF0123456789xyzXYZ019";
    let token = SubscriptionToken::parse(text.to_string()).unwrap();
    assert_eq!(token.as_ref(), text);
}

#[test]
fn rejection_carries_the_reason() {
    let err = SubscriptionToken::parse("short0token".to_string()).unwrap_err();
    assert_eq!(err, "Token must be 25 alphanumeric characters.");
}

#[test]
fn digits_and_both_cases_are_accepted_at_the_edges() {
    assert!(SubscriptionToken::parse("0".repeat(25)).is_ok());
    assert!(SubscriptionToken::parse("9".repeat(25)).is_ok());
    assert!(SubscriptionToken::parse("A".repeat(25)).is_ok());
    assert!(SubscriptionToken::parse("Z".repeat(25)).is_ok());
    assert!(SubscriptionToken::parse("z".repeat(25)).is_ok());
    // Characters just outside the ranges.
    assert!(SubscriptionToken::parse("/".repeat(25)).is_err());
    assert!(SubscriptionToken::parse(":".repeat(25)).is_err());
    assert!(SubscriptionToken::parse("@".repeat(25)).is_err());
    assert!(SubscriptionToken::parse("[".repeat(25)).is_err());
    assert!(SubscriptionToken::parse("`".repeat(25)).is_err());
    assert!(SubscriptionToken::parse("{".repeat(25)).is_err());
}

#[test]
fn non_ascii_characters_are_rejected() {
    // 25 characters, but not ASCII.
    assert!(SubscriptionToken::parse("é".repeat(25)).is_err());
    // 25 bytes made of non-ASCII characters mixed with letters.
    let mut token = "a".repeat(23);
    token.push('é');
    assert_eq!(token.len(), 25);
    assert!(SubscriptionToken::parse(token).is_err());
}

#[test]
fn random_strings_are_rejected_unless_well_formed() {
    let samples = [
        "",
        "a0very0very0very0very0long0token",
        "token0with0invalid0char0$",
        "nonexistent0250char0token",
        "NONEXISTENT0250CHAR0TOKEN",
        "with space in the middle0",
        "tab\tinside0the0token00000",
    ];
    for s in samples {
        let expected = s.len() == TOKEN_LENGTH && s.chars().all(|c| c.is_ascii_alphanumeric());
        assert_eq!(SubscriptionToken::parse(s.to_string()).is_ok(), expected, "{}", s);
    }
}

#[test]
fn parameters_convert_to_a_token() {
    let params = Parameters { subscription_token: "nonexistent0250char0token".to_string() };
    let token: SubscriptionToken = params.try_into().unwrap();
    assert_eq!(token.as_ref(), "nonexistent0250char0token");
    let params = Parameters { subscription_token: "short0token".to_string() };
    let result: Result<SubscriptionToken, String> = params.try_into();
    assert_eq!(result.unwrap_err(), "Token must be 25 alphanumeric characters.");
}

#[test]
fn cloned_token_is_the_same() {
    let token = SubscriptionToken::new();
    assert_eq!(token.clone().as_ref(), token.as_ref());
}

#[test]
fn statuses_have_their_stored_text() {
    assert_eq!(SubscriptionStatus::PendingConfirmation.as_ref(), "pending_confirmation");
    assert_eq!(SubscriptionStatus::Confirmed.as_ref(), "confirmed");
    assert_ne!(
        SubscriptionStatus::PendingConfirmation.as_ref(),
        SubscriptionStatus::Confirmed.as_ref()
    );
}
