use prediction_api::error::{error_body_from_literal, ApiError};
use prediction_api::health::health;
use prediction_api::predictions::{get_prediction, LookupAction, LookupEvent, Prediction, PredictionQuery};
use prediction_api::repository::PredictionTable;
use prediction_api::storage::storage_error;

fn prediction(pair: &str, ts_ms: i64) -> Prediction {
    Prediction {
        pair: pair.to_string(),
        predicted_price_bits: 42000.5f64.to_bits(),
        ts_ms,
        predicted_ts_ms: ts_ms + 60_000,
        model_name: "lstm".to_string(),
        model_version: "1.0".to_string(),
    }
}

#[test]
fn status_codes() {
    assert_eq!(ApiError::NotFound("X".to_string()).status_code(), 404);
    assert_eq!(ApiError::BadRequest("m".to_string()).status_code(), 400);
    assert_eq!(ApiError::Database("d".to_string()).status_code(), 500);
    assert_eq!(ApiError::Config("c".to_string()).status_code(), 500);
    assert_eq!(ApiError::Internal.status_code(), 500);
}

#[test]
fn messages_hide_internal_detail() {
    assert_eq!(ApiError::Database("connection refused".to_string()).message(), "Database error");
    assert_eq!(ApiError::Config("Invalid PG_PORT".to_string()).message(), "Configuration error");
    assert_eq!(ApiError::Internal.message(), "Internal server error");
    assert_eq!(ApiError::BadRequest("pair is too long".to_string()).message(), "pair is too long");
}

#[test]
fn empty_pair_request_gives_bad_request_body() {
    let action = get_prediction(LookupEvent::Requested(PredictionQuery { pair: String::new() }));
    match action {
        LookupAction::Reply(Err(e)) => {
            assert_eq!(e.status_code(), 400);
            assert_eq!(e.error_body(), "{\"error\":\"pair cannot be empty\"}");
        }
        _ => panic!("expected a bad request"),
    }
}

#[test]
fn unknown_pair_gives_not_found_body() {
    let first = get_prediction(LookupEvent::Requested(PredictionQuery { pair: "ZZZUNKNOWN".to_string() }));
    let pair = match first {
        LookupAction::Fetch(p) => p,
        _ => panic!("expected a lookup"),
    };
    assert_eq!(pair, "ZZZUNKNOWN");
    let mut storage = PredictionTable::new();
    storage.insert(prediction("BTCUSDT", 100));
    let found = storage.get_latest_prediction(&pair);
    assert!(found.is_none());
    match get_prediction(LookupEvent::Fetched(pair, Ok(found))) {
        LookupAction::Reply(Err(e)) => {
            assert_eq!(e.status_code(), 404);
            assert_eq!(
                e.error_body(),
                "{\"error\":\"Prediction not found for pair: ZZZUNKNOWN\"}"
            );
        }
        _ => panic!("expected not found"),
    }
}

#[test]
fn found_prediction_is_returned() {
    match get_prediction(LookupEvent::Fetched("BTCUSDT".to_string(), Ok(Some(prediction("BTCUSDT", 200))))) {
        LookupAction::Reply(Ok(p)) => {
            assert_eq!(p.pair, "BTCUSDT");
            assert_eq!(p.ts_ms, 200);
            assert_eq!(f64::from_bits(p.predicted_price_bits), 42000.5);
        }
        _ => panic!("expected the prediction"),
    }
}

#[test]
fn storage_failure_passes_through() {
    let err = ApiError::Database("timeout".to_string());
    match get_prediction(LookupEvent::Fetched("BTCUSDT".to_string(), Err(err))) {
        LookupAction::Reply(Err(e)) => {
            assert_eq!(e, ApiError::Database("timeout".to_string()));
            assert_eq!(e.error_body(), "{\"error\":\"Database error\"}");
        }
        _ => panic!("expected the storage error"),
    }
}

#[test]
fn error_body_escapes_json() {
    let e = ApiError::BadRequest("say \"hi\"\\".to_string());
    assert_eq!(e.error_body(), "{\"error\":\"say \\\"hi\\\"\\\\\"}");
}

#[test]
fn error_body_escapes_control_characters() {
    let e = ApiError::BadRequest("a\u{1}b\n\t\u{1f}/é".to_string());
    assert_eq!(e.error_body(), "{\"error\":\"a\\u0001b\\n\\t\\u001f/é\"}");
}

#[test]
fn error_body_wraps_literal() {
    assert_eq!(error_body_from_literal("\"x\""), "{\"error\":\"x\"}");
}

#[test]
fn storage_error_is_database() {
    let e = storage_error(&sqlx::Error::RowNotFound);
    assert_eq!(e.status_code(), 500);
    match e {
        ApiError::Database(detail) => assert!(!detail.is_empty()),
        _ => panic!("expected a storage error"),
    }
}

#[test]
fn health_is_healthy() {
    assert_eq!(health().status, "healthy");
}
