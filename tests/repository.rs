use prediction_api::predictions::Prediction;
use prediction_api::repository::PredictionTable;

fn row(pair: &str, ts_ms: i64, price: f64) -> Prediction {
    Prediction {
        pair: pair.to_string(),
        predicted_price_bits: price.to_bits(),
        ts_ms,
        predicted_ts_ms: ts_ms + 1000,
        model_name: "gbm".to_string(),
        model_version: "2".to_string(),
    }
}

#[test]
fn latest_of_two_rows_is_the_newer() {
    let mut t = PredictionTable::new();
    t.insert(row("BTCUSDT", 100, 1.0));
    t.insert(row("BTCUSDT", 200, 2.0));
    let p = t.get_latest_prediction("BTCUSDT").unwrap();
    assert_eq!(p.ts_ms, 200);
    assert_eq!(f64::from_bits(p.predicted_price_bits), 2.0);
}

#[test]
fn latest_ignores_insertion_order() {
    let mut t = PredictionTable::new();
    t.insert(row("ETHUSDT", 300, 3.0));
    t.insert(row("ETHUSDT", 100, 1.0));
    t.insert(row("BTCUSDT", 900, 9.0));
    let p = t.get_latest_prediction("ETHUSDT").unwrap();
    assert_eq!(p.ts_ms, 300);
    assert_eq!(p.pair, "ETHUSDT");
}

#[test]
fn unknown_pair_is_absent() {
    let mut t = PredictionTable::new();
    t.insert(row("BTCUSDT", 100, 1.0));
    assert!(t.get_latest_prediction("ZZZUNKNOWN").is_none());
    assert!(PredictionTable::new().get_latest_prediction("BTCUSDT").is_none());
}

#[test]
fn pair_match_is_exact() {
    let mut t = PredictionTable::new();
    t.insert(row("btcusdt", 100, 1.0));
    assert!(t.get_latest_prediction("BTCUSDT").is_none());
}

#[test]
fn equal_timestamps_keep_first_stored() {
    let mut t = PredictionTable::new();
    t.insert(row("BTCUSDT", 100, 1.0));
    t.insert(row("BTCUSDT", 100, 5.0));
    let p = t.get_latest_prediction("BTCUSDT").unwrap();
    assert_eq!(f64::from_bits(p.predicted_price_bits), 1.0);
}

#[test]
fn latest_twice_gives_same_answer() {
    let mut t = PredictionTable::new();
    t.insert(row("BTCUSDT", 100, 1.0));
    t.insert(row("BTCUSDT", 250, 2.5));
    let a = t.get_latest_prediction("BTCUSDT").unwrap();
    let b = t.get_latest_prediction("BTCUSDT").unwrap();
    assert_eq!(a.ts_ms, b.ts_ms);
    assert_eq!(a.predicted_price_bits, b.predicted_price_bits);
    assert_eq!(a.pair, b.pair);
}

#[test]
fn all_latest_gives_one_per_pair() {
    let mut t = PredictionTable::new();
    t.insert(row("BTCUSDT", 100, 1.0));
    t.insert(row("ETHUSDT", 150, 1.5));
    t.insert(row("BTCUSDT", 200, 2.0));
    t.insert(row("SOLUSDT", 50, 0.5));
    t.insert(row("ETHUSDT", 120, 1.2));
    let all = t.get_all_latest_predictions();
    assert_eq!(all.len(), 3);
    let mut seen: Vec<(String, i64)> = all.iter().map(|p| (p.pair.clone(), p.ts_ms)).collect();
    seen.sort();
    assert_eq!(
        seen,
        vec![
            ("BTCUSDT".to_string(), 200),
            ("ETHUSDT".to_string(), 150),
            ("SOLUSDT".to_string(), 50)
        ]
    );
}

#[test]
fn all_latest_on_empty_storage_is_empty() {
    assert!(PredictionTable::new().get_all_latest_predictions().is_empty());
}

#[test]
fn table_len_counts_rows() {
    let mut t = PredictionTable::new();
    assert_eq!(t.len(), 0);
    t.insert(row("BTCUSDT", 1, 1.0));
    assert_eq!(t.len(), 1);
}
