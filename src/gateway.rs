//! The report of a carrier gateway lookup to the consumer.
use vstd::prelude::*;

verus! {

/// Turns the outcome of a lookup into the pair handed to the consumer:
/// `(Some(gateway), None)` on success, `(None, Some(error))` on failure.
pub fn gateway_report(outcome: Result<String, String>) -> (r: (Option<String>, Option<String>))
    ensures
        match outcome {
            Ok(g) => r == (Some(g), None::<String>),
            Err(e) => r == (None::<String>, Some(e)),
        },
        r.0.is_some() != r.1.is_some(),
{
    match outcome {
        Ok(gateway) => (Some(gateway), None),
        Err(error) => (None, Some(error)),
    }
}

} // verus!
