use vstd::prelude::*;
use vstd::string::StringExecFns;

use crate::account::Account;
use crate::errors::ServiceError;
use crate::store::{AccountStore, contains_id};
use crate::text::money_text;

verus! {

/// The text under the `prediction` field of the endpoint's response body,
/// when that body is a JSON document whose `prediction` field is a string;
/// `None` otherwise. The extraction is a function of the body text alone.
pub uninterp spec fn prediction_field_of(body: Seq<char>) -> Option<Seq<char>>;

/// Relies on `serde_json::from_str`, `serde_json::Value::get` and
/// `serde_json::Value::as_str`: parses the body as JSON and takes the string
/// under `prediction`; `None` on malformed JSON or a missing or non-string
/// field. The outcome depends on the body text alone; `prediction_field_of`
/// names it.
#[verifier::external_body]
fn extract_prediction(body: &str) -> (r: Option<String>)
    ensures
        r is Some <==> prediction_field_of(body@) is Some,
        r matches Some(s) ==> prediction_field_of(body@) == Some(s@),
{
    match serde_json::from_str::<serde_json::Value>(body) {
        Ok(doc) => doc.get("prediction").and_then(|p| p.as_str()).map(|s| s.to_string()),
        Err(_) => None,
    }
}

/// The text chrono prints for the UTC instant `t` seconds after the Unix
/// epoch, e.g. `2024-01-01 00:00:00 UTC`: a function of `t` alone.
pub uninterp spec fn timestamp_text_of(t: int) -> Seq<char>;

/// Text that may stand inside a JSON string literal without escaping: it
/// holds no quote, no backslash and no control character.
pub open spec fn json_text_plain(s: Seq<char>) -> bool {
    forall|i: int| 0 <= i < s.len() ==> s[i] != '"' && s[i] != '\\' && (s[i] as u32) >= 0x20
}

/// Timestamps whose rendering is owed: the years 1970 through 9999, i.e.
/// `0 <= t < 253402300800` seconds from the Unix epoch.
pub open spec fn timestamp_renderable(t: int) -> bool {
    0 <= t < 253402300800
}

/// Relies on `chrono::DateTime::<Utc>::from_timestamp` and the `ToString`
/// that chrono's `Display` gives it: renders the instant as text, `None`
/// when chrono places `t` outside its representable range. That range covers
/// at least the years 1970 through 9999, so rendering is owed there; the
/// rendered text is digits, sign, colon, dot, space and the letters `UTC`,
/// so it never needs JSON escaping. The text depends on `t` alone;
/// `timestamp_text_of` names it.
#[verifier::external_body]
fn format_timestamp(t: i64) -> (r: Option<String>)
    ensures
        r matches Some(s) ==> s@ == timestamp_text_of(t as int) && json_text_plain(s@),
        timestamp_renderable(t as int) ==> r is Some,
{
    chrono::DateTime::<chrono::Utc>::from_timestamp(t, 0).map(|d| d.to_string())
}

/// The JSON request sent to the prediction endpoint:
/// `{"valor": <value>, "due_date": "<date>"}`, with the monetary value as a
/// plain decimal number and the due date as rendered text.
pub open spec fn predict_request_text(cents: int, due: Seq<char>) -> Seq<char> {
    "{\"valor\": "@ + money_text(cents) + ", \"due_date\": \""@ + due + "\"}"@
}

/// Shape the request body for the prediction endpoint. The due-date text is
/// spliced into the JSON string literal as it stands, so it must not need
/// escaping; the texts chrono renders never do.
pub fn build_predict_request(value_cents: i64, due_date: &str) -> (r: String)
    requires
        json_text_plain(due_date@),
    ensures
        r@ == predict_request_text(value_cents as int, due_date@),
{
    let mut s = "{\"valor\": ".to_owned();
    let money = crate::text::format_money(value_cents);
    s.append(money.as_str());
    s.append(", \"due_date\": \"");
    s.append(due_date);
    s.append("\"}");
    proof {
        assert(s@ =~= predict_request_text(value_cents as int, due_date@));
    }
    s
}

/// Parse the prediction endpoint's response body: the string under its
/// `prediction` field, or `PredictionUnavailable` when the body is not JSON
/// or the field is missing or not a string.
pub fn parse_prediction(body: &str) -> (r: Result<String, ServiceError>)
    ensures
        r is Ok <==> prediction_field_of(body@) is Some,
        r matches Ok(s) ==> prediction_field_of(body@) == Some(s@),
        r matches Err(e) ==> e == ServiceError::PredictionUnavailable,
{
    match extract_prediction(body) {
        Some(s) => Ok(s),
        None => Err(ServiceError::PredictionUnavailable),
    }
}

/// The successful predict-payment outcome: the account asked about and the
/// prediction text the endpoint returned for it.
#[derive(Debug)]
pub struct PredictionOutcome {
    pub account_id: u128,
    pub prediction: String,
}

/// First half of the predict-payment flow: fetch the account and shape the
/// request body for the prediction endpoint from its `(value, due_date)`
/// pair. Fails as `NotFound` exactly when no row carries `id`, and as
/// `PredictionUnavailable` only when the stored due date cannot be rendered
/// as text — success is owed whenever the row exists and its due date lies
/// in the owed rendering range. The caller sends the body and hands the
/// response to `predict_finish`.
pub fn predict_prepare(store: &AccountStore, id: u128) -> (r: Result<
    (Account, String),
    ServiceError,
>)
    requires
        store.wf(),
    ensures
        r matches Ok(p) ==> {
            &&& exists|i: int|
                0 <= i < store@.len() && #[trigger] store@[i].id == id as int && p.0@ == store@[i]
            &&& p.1@ == predict_request_text(
                p.0@.value_cents,
                timestamp_text_of(p.0@.due_date),
            )
        },
        r matches Err(e) ==> (e == ServiceError::NotFound || e
            == ServiceError::PredictionUnavailable),
        (r matches Err(e) && e == ServiceError::NotFound) <==> !contains_id(store@, id as int),
        forall|i: int|
            0 <= i < store@.len() && #[trigger] store@[i].id == id as int
                && timestamp_renderable(store@[i].due_date) ==> r is Ok,
{
    match store.get(id) {
        Err(_) => Err(ServiceError::NotFound),
        Ok(account) => {
            match format_timestamp(account.due_date) {
                None => {
                    proof {
                        let j = choose|j: int|
                            0 <= j < store@.len() && #[trigger] store@[j].id == id as int
                                && account@ == store@[j];
                        assert forall|i: int|
                            0 <= i < store@.len() && #[trigger] store@[i].id == id as int
                                && timestamp_renderable(store@[i].due_date) implies false by {
                            crate::store::lemma_id_unique(store@, i, j);
                        }
                    }
                    Err(ServiceError::PredictionUnavailable)
                },
                Some(due_text) => {
                    let body = build_predict_request(account.value_cents, due_text.as_str());
                    Ok((account, body))
                },
            }
        },
    }
}

/// Second half of the predict-payment flow: interpret the endpoint's outcome
/// for the fetched account. `response` is `Some(body)` when the POST came
/// back with a successful status and that body, `None` when the call failed
/// at the transport or HTTP level; every failure surfaces as
/// `PredictionUnavailable` and the fetched account is not rolled back
/// (a stateless read, nothing to roll back).
pub fn predict_finish(account_id: u128, response: Option<&str>) -> (r: Result<
    PredictionOutcome,
    ServiceError,
>)
    ensures
        match response {
            None => r matches Err(e) && e == ServiceError::PredictionUnavailable,
            Some(body) => match prediction_field_of(body@) {
                Some(p) => r matches Ok(o) && o.account_id == account_id && o.prediction@ == p,
                None => r matches Err(e) && e == ServiceError::PredictionUnavailable,
            },
        },
{
    match response {
        None => Err(ServiceError::PredictionUnavailable),
        Some(body) => {
            match parse_prediction(body) {
                Ok(prediction) => Ok(PredictionOutcome { account_id, prediction }),
                Err(e) => Err(e),
            }
        },
    }
}

} // verus!
