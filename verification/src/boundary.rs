//! The wrapping boundary around a fallible unit of work.
//!
//! The boundary normalizes an absent parameter set to an empty one, runs
//! the inner unit of work, and converts its outcome — a produced value or
//! a descriptive failure — into exactly one [`OperationResult`]. The
//! boundary itself never fails: an inner fault becomes a failure record
//! classified as `"ExecutionError"`, returned as an ordinary value, so a
//! caller inspects `success` instead of handling faults.

use vstd::prelude::*;
use crate::json::JsonValue;
use crate::envelope::OperationResult;

verus! {

/// The parameter list the boundary hands to the unit of work: `params`
/// itself when given, the empty list when absent.
pub open spec fn normalized(params: Option<Vec<(String, JsonValue)>>) -> Seq<(String, JsonValue)> {
    match params {
        Some(p) => p@,
        None => Seq::empty(),
    }
}

/// Turn an optional parameter set into a definite one: an absent set
/// becomes the empty set.
pub fn normalize_params(params: Option<Vec<(String, JsonValue)>>) -> (r: Vec<(String, JsonValue)>)
    ensures
        r@ == normalized(params),
{
    match params {
        Some(p) => p,
        None => Vec::new(),
    }
}

/// An absent parameter set normalizes to exactly what an explicit empty
/// one does, and the boundary's result contract ([`boundary_post`]) never
/// mentions the parameters: the two invocations behave identically.
pub proof fn lemma_absent_params_like_empty(empty: Vec<(String, JsonValue)>)
    requires
        empty@.len() == 0,
    ensures
        normalized(None) == normalized(Some(empty)),
{
    assert(normalized(None) =~= normalized(Some(empty)));
}

/// The payload the placeholder unit of work produces: the object
/// `{"status": "ok", "processed": true}`.
pub open spec fn placeholder_payload(d: JsonValue) -> bool {
    &&& d matches JsonValue::Obj(f)
    &&& f@.len() == 2
    &&& f@[0].0@ == "status"@
    &&& f@[0].1 matches JsonValue::Str(s) && s@ == "ok"@
    &&& f@[1].0@ == "processed"@
    &&& f@[1].1 == JsonValue::Bool(true)
}

/// The inner unit of work. A placeholder: it ignores its parameters and
/// produces the fixed status payload, never failing.
fn execute_logic(_params: &Vec<(String, JsonValue)>) -> (out: Result<Option<JsonValue>, String>)
    ensures
        out matches Ok(d) && d matches Some(p) && placeholder_payload(p),
{
    let mut fields: Vec<(String, JsonValue)> = Vec::new();
    fields.push(("status".to_string(), JsonValue::Str("ok".to_string())));
    fields.push(("processed".to_string(), JsonValue::Bool(true)));
    Ok(Some(JsonValue::Obj(fields)))
}

/// Build the one envelope the boundary returns from the outcome of the
/// unit of work: a success record around a produced value, or a failure
/// record classified `"ExecutionError"` around a fault's description.
/// This conversion is the boundary's sole recovery point — it accepts
/// every outcome and never fails.
pub fn wrap_outcome(outcome: Result<Option<JsonValue>, String>) -> (r: OperationResult)
    ensures
        outcome matches Ok(d) ==> {
            &&& r.success == true
            &&& r.data == d
            &&& r.message matches Some(m) && m@ == "Operação concluída com sucesso"@
            &&& r.error is None
            &&& r.error_type is None
        },
        outcome matches Err(e) ==> {
            &&& r.success == false
            &&& r.data is None
            &&& r.message is None
            &&& r.error matches Some(d) && d@ == e@
            &&& r.error_type matches Some(t) && t@ == "ExecutionError"@
        },
        r.well_formed(),
{
    match outcome {
        Ok(data) => OperationResult::success(data, "Operação concluída com sucesso"),
        Err(e) => OperationResult::error(e.as_str(), "ExecutionError"),
    }
}

/// What the boundary promises of the envelope it returns. The promise
/// holds for every parameter set, absent or given: the placeholder unit
/// of work never fails, so the record reports success, carries the fixed
/// status payload and the success annotation, and no error fields.
pub open spec fn boundary_post(r: OperationResult) -> bool {
    &&& r.success == true
    &&& r.data matches Some(d) && placeholder_payload(d)
    &&& r.message matches Some(m) && m@ == "Operação concluída com sucesso"@
    &&& r.error is None
    &&& r.error_type is None
    &&& r.well_formed()
}

/// The wrapping boundary: normalize the parameters, run the unit of work,
/// and return its outcome as a standardized envelope. The call always
/// returns a value — `Ok` around the envelope, never `Err` and never a
/// panic — so callers need no fault handling of their own.
#[allow(non_snake_case)]
pub fn AnalyzerDados(params: Option<Vec<(String, JsonValue)>>) -> (out: Result<
    OperationResult,
    String,
>)
    ensures
        out matches Ok(r) && boundary_post(r),
{
    let params = normalize_params(params);
    let outcome = execute_logic(&params);
    let result = wrap_outcome(outcome);
    Ok(result)
}

} // verus!
