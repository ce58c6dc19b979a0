//! The callback bridge's decision core.
//!
//! An asynchronous call owes its sink exactly one delivery: the
//! serialized result through the success entry point, or the error
//! message through the error entry point — never both, never neither.
//! The decision is made here; carrying it into the caller's runtime is
//! the unverified boundary's job.

use vstd::prelude::*;

use crate::error::JavaGlueSQLError;

verus! {

/// The single delivery owed for one asynchronous call.
pub enum Delivery {
    Success(String),
    Failure(String),
}

/// Decides the one delivery for a query outcome: a success carries the
/// serialized result text, a failure carries the error's message.
pub fn plan_delivery(result: Result<String, JavaGlueSQLError>) -> (d: Delivery)
    ensures
        result matches Ok(text) ==> d matches Delivery::Success(t) && t == text,
        result matches Err(e) ==> d matches Delivery::Failure(m) && m == e.message,
{
    match result {
        Ok(text) => Delivery::Success(text),
        Err(e) => Delivery::Failure(e.message),
    }
}

/// Law: a delivery fires exactly one of the two entry points — it is a
/// success exactly when it is not a failure.
pub proof fn lemma_delivery_exclusive(d: Delivery)
    ensures
        d is Success <==> !(d is Failure),
{
}

} // verus!
