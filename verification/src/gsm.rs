//! The rules on what to do about the errors of connectors.

use vstd::prelude::*;

use crate::errors::StorageError;
use crate::text::{text_or_empty, unwrap_or_empty};

verus! {

/// A rule that says what to do about an error of a connector.
#[derive(Debug, PartialEq, Eq)]
pub struct GatewayStatusMap {
    pub connector: String,
    pub flow: String,
    pub sub_flow: String,
    pub code: String,
    pub message: String,
    pub status: String,
    pub router_error: Option<String>,
    pub decision: String,
    pub step_up_possible: bool,
    pub unified_code: Option<String>,
    pub unified_message: Option<String>,
}

/// The key that a rule is looked up by.
#[derive(Debug, PartialEq, Eq)]
pub struct GsmQuery {
    pub connector: String,
    pub flow: String,
    pub sub_flow: String,
    pub code: String,
    pub message: String,
}

/// A counter that the lookup of a rule raises.
#[derive(Clone, Copy, Debug, PartialEq, Eq, Structural)]
pub enum GsmCounter {
    /// There is no such rule.
    Miss,
    /// The lookup failed for another reason.
    FetchFailure,
}

/// The rule that was found, and the counter to raise.
#[derive(Debug, PartialEq, Eq)]
pub struct GsmOutcome {
    pub record: Option<GatewayStatusMap>,
    pub counter: Option<GsmCounter>,
}

/// Asks for the rule on an error of a connector. Whatever is not known of the
/// error is looked up as the empty text.
pub fn get_gsm_record(
    error_code: Option<String>,
    error_message: Option<String>,
    connector_name: Option<String>,
    flow: String,
) -> (r: GsmQuery)
    ensures
        r.connector@ == text_or_empty(connector_name),
        r.flow == flow,
        r.sub_flow@ == "sub_flow"@,
        r.code@ == text_or_empty(error_code),
        r.message@ == text_or_empty(error_message),
{
    GsmQuery {
        connector: unwrap_or_empty(connector_name),
        flow,
        sub_flow: "sub_flow".to_owned(),
        code: unwrap_or_empty(error_code),
        message: unwrap_or_empty(error_message),
    }
}

/// Goes on once the lookup is replied to. A failure is not told to the caller,
/// who gets no rule.
pub fn resume_get_gsm_record(found: Result<GatewayStatusMap, StorageError>) -> (r: GsmOutcome)
    ensures
        r == (match found {
            Ok(record) => GsmOutcome { record: Some(record), counter: None },
            Err(StorageError::ValueNotFound) => GsmOutcome {
                record: None,
                counter: Some(GsmCounter::Miss),
            },
            Err(_) => GsmOutcome { record: None, counter: Some(GsmCounter::FetchFailure) },
        }),
{
    match found {
        Ok(record) => GsmOutcome { record: Some(record), counter: None },
        Err(error) => {
            let counter = if error.is_db_not_found() {
                GsmCounter::Miss
            } else {
                GsmCounter::FetchFailure
            };
            GsmOutcome { record: None, counter: Some(counter) }
        },
    }
}

/// The key of a rule holds each text in its own place, and the empty text for one
/// that is not known.
pub proof fn rules_are_looked_up_by_their_key(
    error_code: Option<String>,
    error_message: Option<String>,
    connector_name: Option<String>,
    flow: String,
    query: GsmQuery,
)
    requires
        call_ensures(get_gsm_record, (error_code, error_message, connector_name, flow), query),
    ensures
        query.flow@ == flow@,
        query.sub_flow@ == "sub_flow"@,
        error_code matches Some(code) ==> query.code@ == code@,
        error_code is None ==> query.code@.len() == 0,
        error_message matches Some(message) ==> query.message@ == message@,
        error_message is None ==> query.message@.len() == 0,
        connector_name matches Some(connector) ==> query.connector@ == connector@,
        connector_name is None ==> query.connector@.len() == 0,
{
}

/// A rule that was found is handed on and counted nowhere; one that does not
/// exist is counted as a miss, and any other failure as a failed lookup.
pub proof fn lookups_are_counted(
    found: Result<GatewayStatusMap, StorageError>,
    outcome: GsmOutcome,
)
    requires
        call_ensures(resume_get_gsm_record, (found,), outcome),
    ensures
        found matches Ok(record) ==> outcome.record == Some(record),
        found is Err ==> outcome.record is None,
        outcome.counter is None <==> found is Ok,
        outcome.counter == Some(GsmCounter::Miss) <==> found is Err && found->Err_0
            == StorageError::ValueNotFound,
        outcome.counter == Some(GsmCounter::FetchFailure) <==> found is Err && found->Err_0
            != StorageError::ValueNotFound,
{
}

} // verus!
