//! Reading prediction rows handed back by PostgreSQL. Any column that is
//! missing or of the wrong type is a storage error, never a panic.
use sqlx::Row;
use vstd::prelude::*;

use crate::error::ApiError;
use crate::predictions::{Prediction, PredictionView};

verus! {

#[verifier::external_type_specification]
#[verifier::external_body]
pub struct ExPgRow(sqlx::postgres::PgRow);

#[verifier::external_type_specification]
#[verifier::external_body]
pub struct ExSqlxError(sqlx::Error);

/// The text in the named column of a row, or `None` when the column is
/// missing, NULL or not text.
pub uninterp spec fn text_in(row: sqlx::postgres::PgRow, name: Seq<char>) -> Option<Seq<char>>;

/// The 64-bit integer in the named column of a row, or `None` when the
/// column is missing, NULL or not such an integer.
pub uninterp spec fn int_in(row: sqlx::postgres::PgRow, name: Seq<char>) -> Option<i64>;

/// Relies on sqlx::Row::try_get: the named column read as text, or the
/// reason it cannot be; the outcome depends on the row and the name alone.
#[verifier::external_body]
fn text_column(row: &sqlx::postgres::PgRow, name: &str) -> (r: Result<String, sqlx::Error>)
    ensures
        (r is Ok) <==> text_in(*row, name@) is Some,
        r matches Ok(t) ==> Some(t@) == text_in(*row, name@),
{
    row.try_get::<String, &str>(name)
}

/// Relies on sqlx::Row::try_get: the named column read as a 64-bit
/// integer, or the reason it cannot be; the outcome depends on the row and
/// the name alone.
#[verifier::external_body]
fn integer_column(row: &sqlx::postgres::PgRow, name: &str) -> (r: Result<i64, sqlx::Error>)
    ensures
        (r is Ok) <==> int_in(*row, name@) is Some,
        r matches Ok(v) ==> Some(v) == int_in(*row, name@),
{
    row.try_get::<i64, &str>(name)
}

/// Relies on sqlx::Error's Display: the driver's description of a failure,
/// kept for the server log.
#[verifier::external_body]
fn describe(e: &sqlx::Error) -> (r: String) {
    e.to_string()
}

/// A storage failure, with the driver's description as its detail.
pub fn storage_error(e: &sqlx::Error) -> (r: ApiError)
    ensures
        r is Database,
{
    ApiError::Database(describe(e))
}

/// The prediction a row holds, given the outcome of reading its price:
/// `None` when the price or any other column cannot be read.
pub open spec fn decoded(row: sqlx::postgres::PgRow, price_bits: Result<u64, sqlx::Error>) -> Option<
    PredictionView,
> {
    match (
        price_bits,
        text_in(row, "pair"@),
        int_in(row, "ts_ms"@),
        int_in(row, "predicted_ts_ms"@),
        text_in(row, "model_name"@),
        text_in(row, "model_version"@),
    ) {
        (Ok(price), Some(pair), Some(ts), Some(predicted_ts), Some(name), Some(version)) => Some(
            PredictionView {
                pair,
                predicted_price_bits: price,
                ts_ms: ts,
                predicted_ts_ms: predicted_ts,
                model_name: name,
                model_version: version,
            },
        ),
        _ => None,
    }
}

/// Reads one prediction row (columns pair, ts_ms, predicted_ts_ms,
/// model_name, model_version). The predicted_price column is a double,
/// which the caller reads and hands in as its bit pattern, or as the
/// failure to read it. A column that cannot be read is a storage error,
/// never a panic.
pub fn decode_prediction(
    row: &sqlx::postgres::PgRow,
    price_bits: &Result<u64, sqlx::Error>,
) -> (r: Result<Prediction, ApiError>)
    ensures
        match decoded(*row, *price_bits) {
            Some(v) => r matches Ok(p) && p@ == v,
            None => r matches Err(e) && e is Database,
        },
{
    let pair = match text_column(row, "pair") {
        Ok(v) => v,
        Err(e) => return Err(storage_error(&e)),
    };
    let predicted_price_bits = match price_bits {
        Ok(v) => *v,
        Err(e) => return Err(storage_error(e)),
    };
    let ts_ms = match integer_column(row, "ts_ms") {
        Ok(v) => v,
        Err(e) => return Err(storage_error(&e)),
    };
    let predicted_ts_ms = match integer_column(row, "predicted_ts_ms") {
        Ok(v) => v,
        Err(e) => return Err(storage_error(&e)),
    };
    let model_name = match text_column(row, "model_name") {
        Ok(v) => v,
        Err(e) => return Err(storage_error(&e)),
    };
    let model_version = match text_column(row, "model_version") {
        Ok(v) => v,
        Err(e) => return Err(storage_error(&e)),
    };
    Ok(Prediction { pair, predicted_price_bits, ts_ms, predicted_ts_ms, model_name, model_version })
}

/// Reads every row of a result set, all or nothing: one prediction per
/// row, in order, when every row can be read; otherwise a storage error.
/// `prices` holds each row's price column as read by the caller, in the
/// same order.
pub fn decode_predictions(
    rows: &Vec<sqlx::postgres::PgRow>,
    prices: &Vec<Result<u64, sqlx::Error>>,
) -> (r: Result<Vec<Prediction>, ApiError>)
    requires
        prices.len() == rows.len(),
    ensures
        (r is Ok) <==> forall|i: int| 0 <= i < rows.len() ==> (#[trigger] decoded(rows[i], prices[i])) is Some,
        r matches Ok(v) ==> v.len() == rows.len() && forall|i: int| 0 <= i < v.len() ==>
            decoded(rows[i], prices[i]) == Some((#[trigger] v[i])@),
        r matches Err(e) ==> e is Database,
{
    let mut out: Vec<Prediction> = Vec::new();
    let mut i: usize = 0;
    while i < rows.len()
        invariant
            i <= rows.len(),
            prices.len() == rows.len(),
            out.len() == i,
            forall|j: int| 0 <= j < i ==> decoded(rows[j], prices[j]) == Some((#[trigger] out[j])@),
        decreases rows.len() - i,
    {
        let p = decode_prediction(&rows[i], &prices[i]);
        match p {
            Ok(p) => out.push(p),
            Err(e) => return Err(e),
        }
        i = i + 1;
    }
    assert forall|j: int| 0 <= j < rows.len() implies (#[trigger] decoded(rows[j], prices[j])) is Some by {
        assert(decoded(rows[j], prices[j]) == Some(out[j]@));
    }
    Ok(out)
}

} // verus!
