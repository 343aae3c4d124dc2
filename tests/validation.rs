use prediction_api::error::ApiError;
use prediction_api::predictions::{check_pair, PredictionQuery, ValidationError};

fn query(pair: &str) -> PredictionQuery {
    PredictionQuery { pair: pair.to_string() }
}

#[test]
fn empty_pair_is_empty_field() {
    assert_eq!(check_pair(""), Err(ValidationError::EmptyField));
}

#[test]
fn twenty_one_characters_is_too_long() {
    assert_eq!(check_pair("ABCDEFGHIJKLMNOPQRSTU"), Err(ValidationError::TooLong));
}

#[test]
fn too_long_wins_over_bad_characters() {
    assert_eq!(check_pair("----------------------"), Err(ValidationError::TooLong));
}

#[test]
fn twenty_characters_is_accepted() {
    assert_eq!(check_pair("ABCDEFGHIJKLMNOPQRST"), Ok(()));
}

#[test]
fn plain_pair_is_accepted() {
    assert_eq!(check_pair("BTCUSDT"), Ok(()));
    assert_eq!(check_pair("eth2usd"), Ok(()));
}

#[test]
fn length_counts_characters_not_bytes() {
    // twenty two-byte letters
    let s = "ÄÄÄÄÄÄÄÄÄÄÄÄÄÄÄÄÄÄÄÄ";
    assert_eq!(s.chars().count(), 20);
    assert_eq!(check_pair(s), Ok(()));
}

#[test]
fn unicode_letters_and_digits_are_alphanumeric() {
    assert_eq!(check_pair("日本円123"), Ok(()));
}

#[test]
fn punctuation_is_invalid() {
    assert_eq!(check_pair("BTC-USDT"), Err(ValidationError::InvalidCharacters));
    assert_eq!(check_pair("BTC USDT"), Err(ValidationError::InvalidCharacters));
    assert_eq!(check_pair("BTCUSDT!"), Err(ValidationError::InvalidCharacters));
}

#[test]
fn no_trimming_is_done() {
    assert_eq!(check_pair(" BTC"), Err(ValidationError::InvalidCharacters));
}

#[test]
fn validation_messages() {
    assert_eq!(ValidationError::EmptyField.message(), "pair cannot be empty");
    assert_eq!(ValidationError::TooLong.message(), "pair is too long");
    assert_eq!(ValidationError::InvalidCharacters.message(), "pair must be alphanumeric");
}

#[test]
fn validate_maps_to_bad_request() {
    assert_eq!(query("").validate(), Err(ApiError::BadRequest("pair cannot be empty".to_string())));
    assert_eq!(
        query("ABCDEFGHIJKLMNOPQRSTUV").validate(),
        Err(ApiError::BadRequest("pair is too long".to_string()))
    );
    assert_eq!(
        query("BTC/USDT").validate(),
        Err(ApiError::BadRequest("pair must be alphanumeric".to_string()))
    );
    assert_eq!(query("BTCUSDT").validate(), Ok(()));
}
