//! Prediction records, the query validator and the single-pair request flow.
use vstd::prelude::*;
use vstd::string::{StrSliceExecFns, StringExecFns};

use crate::error::ApiError;

verus! {

/// Longest accepted pair identifier, in characters.
pub const MAX_PAIR_LEN: usize = 20;

/// Whether `c` is a letter or digit in the Unicode sense of
/// `char::is_alphanumeric`.
pub uninterp spec fn is_alphanumeric(c: char) -> bool;

/// Relies on char::is_alphanumeric: alphabetic or numeric per Unicode.
#[verifier::external_body]
fn char_is_alphanumeric(c: char) -> (r: bool)
    ensures
        r == is_alphanumeric(c),
{
    c.is_alphanumeric()
}

/// Why a pair identifier was rejected.
#[derive(Debug, Clone, Copy, PartialEq, Eq)]
pub enum ValidationError {
    EmptyField,
    TooLong,
    InvalidCharacters,
}

/// The validation rules, first failure wins.
pub open spec fn pair_check(s: Seq<char>) -> Result<(), ValidationError> {
    if s.len() == 0 {
        Err(ValidationError::EmptyField)
    } else if s.len() > MAX_PAIR_LEN {
        Err(ValidationError::TooLong)
    } else if forall|i: int| 0 <= i < s.len() ==> is_alphanumeric(#[trigger] s[i]) {
        Ok(())
    } else {
        Err(ValidationError::InvalidCharacters)
    }
}

/// Checks a pair identifier: non-empty, at most twenty characters, all
/// alphanumeric.
pub fn check_pair(pair: &str) -> (r: Result<(), ValidationError>)
    ensures
        r == pair_check(pair@),
{
    let n = pair.unicode_len();
    if n == 0 {
        return Err(ValidationError::EmptyField);
    }
    if n > MAX_PAIR_LEN {
        return Err(ValidationError::TooLong);
    }
    let mut i: usize = 0;
    while i < n
        invariant
            n == pair@.len(),
            0 < n <= MAX_PAIR_LEN,
            i <= n,
            forall|j: int| 0 <= j < i ==> is_alphanumeric(#[trigger] pair@[j]),
        decreases n - i,
    {
        let c = pair.get_char(i);
        if !char_is_alphanumeric(c) {
            assert(!is_alphanumeric(pair@[i as int]));
            return Err(ValidationError::InvalidCharacters);
        }
        i = i + 1;
    }
    Ok(())
}

/// The caller-facing text of each validation failure.
pub open spec fn validation_message(e: ValidationError) -> Seq<char> {
    match e {
        ValidationError::EmptyField => "pair cannot be empty"@,
        ValidationError::TooLong => "pair is too long"@,
        ValidationError::InvalidCharacters => "pair must be alphanumeric"@,
    }
}

impl ValidationError {
    /// The caller-facing text of this failure.
    pub fn message(&self) -> (r: String)
        ensures
            r@ == validation_message(*self),
    {
        match self {
            ValidationError::EmptyField => String::from_str("pair cannot be empty"),
            ValidationError::TooLong => String::from_str("pair is too long"),
            ValidationError::InvalidCharacters => String::from_str("pair must be alphanumeric"),
        }
    }
}

/// Query parameters of the single-pair lookup.
#[derive(Debug)]
pub struct PredictionQuery {
    /// Trading pair, e.g. "BTCUSDT"; untrusted.
    pub pair: String,
}

/// What `validate` answers for a pair: nothing, or a bad request carrying
/// the validator's message.
pub open spec fn query_check(s: Seq<char>) -> Result<(), Seq<char>> {
    match pair_check(s) {
        Ok(()) => Ok(()),
        Err(e) => Err(validation_message(e)),
    }
}

impl PredictionQuery {
    /// Validates the query parameters; a failure is a bad request.
    pub fn validate(&self) -> (r: Result<(), ApiError>)
        ensures
            query_check(self.pair@) matches Ok(()) <==> r is Ok,
            query_check(self.pair@) matches Err(m) ==> (r matches Err(ApiError::BadRequest(msg))
                && msg@ == m),
    {
        match check_pair(self.pair.as_str()) {
            Ok(()) => Ok(()),
            Err(e) => Err(ApiError::BadRequest(e.message())),
        }
    }
}

/// A stored prediction. The predicted price is carried as the bit pattern
/// of its IEEE-754 double.
#[derive(Debug)]
pub struct Prediction {
    pub pair: String,
    pub predicted_price_bits: u64,
    pub ts_ms: i64,
    pub predicted_ts_ms: i64,
    pub model_name: String,
    pub model_version: String,
}

/// The mathematical value of a `Prediction`.
pub struct PredictionView {
    pub pair: Seq<char>,
    pub predicted_price_bits: u64,
    pub ts_ms: i64,
    pub predicted_ts_ms: i64,
    pub model_name: Seq<char>,
    pub model_version: Seq<char>,
}

impl View for Prediction {
    type V = PredictionView;

    open spec fn view(&self) -> PredictionView {
        PredictionView {
            pair: self.pair@,
            predicted_price_bits: self.predicted_price_bits,
            ts_ms: self.ts_ms,
            predicted_ts_ms: self.predicted_ts_ms,
            model_name: self.model_name@,
            model_version: self.model_version@,
        }
    }
}

impl Prediction {
    /// A field-by-field copy.
    pub fn copy(&self) -> (r: Prediction)
        ensures
            r@ == self@,
    {
        Prediction {
            pair: self.pair.clone(),
            predicted_price_bits: self.predicted_price_bits,
            ts_ms: self.ts_ms,
            predicted_ts_ms: self.predicted_ts_ms,
            model_name: self.model_name.clone(),
            model_version: self.model_version.clone(),
        }
    }
}

/// What the single-pair flow is handed: the request, or the storage answer
/// for the pair it asked about.
pub enum LookupEvent {
    Requested(PredictionQuery),
    Fetched(String, Result<Option<Prediction>, ApiError>),
}

/// What the single-pair flow does next: query storage for a pair, or answer.
pub enum LookupAction {
    Fetch(String),
    Reply(Result<Prediction, ApiError>),
}

/// The single-pair flow: validate, then look up, then turn absence into
/// `NotFound`; storage failures pass through unchanged.
pub open spec fn lookup_step(event: LookupEvent, action: LookupAction) -> bool {
    match event {
        LookupEvent::Requested(q) => match query_check(q.pair@) {
            Ok(()) => action matches LookupAction::Fetch(p) && p@ == q.pair@,
            Err(m) => action matches LookupAction::Reply(Err(ApiError::BadRequest(msg)))
                && msg@ == m,
        },
        LookupEvent::Fetched(pair, found) => match found {
            Ok(Some(p)) => action matches LookupAction::Reply(Ok(r)) && r@ == p@,
            Ok(None) => action matches LookupAction::Reply(Err(e)) && e == ApiError::NotFound(
                pair,
            ),
            Err(e) => action == LookupAction::Reply(Err(e)),
        },
    }
}

/// One step of the single-pair request flow.
pub fn get_prediction(event: LookupEvent) -> (r: LookupAction)
    ensures
        lookup_step(event, r),
{
    match event {
        LookupEvent::Requested(q) => match q.validate() {
            Ok(()) => LookupAction::Fetch(q.pair),
            Err(e) => LookupAction::Reply(Err(e)),
        },
        LookupEvent::Fetched(pair, found) => match found {
            Ok(Some(p)) => LookupAction::Reply(Ok(p)),
            Ok(None) => LookupAction::Reply(Err(ApiError::NotFound(pair))),
            Err(e) => LookupAction::Reply(Err(e)),
        },
    }
}

} // verus!
