//! Context handed to serializers of operation payloads.
use vstd::prelude::*;

verus! {

/// Identifies the operation and execution a payload belongs to.
#[derive(Debug, Clone)]
pub struct SerDesContext {
    /// The operation the payload belongs to
    pub operation_id: String,
    /// The durable execution the operation belongs to
    pub durable_execution_arn: String,
}

impl SerDesContext {
    /// Creates a context.
    pub fn new(operation_id: &str, durable_execution_arn: &str) -> (r: Self)
        ensures
            r.operation_id@ == operation_id@,
            r.durable_execution_arn@ == durable_execution_arn@,
    {
        SerDesContext {
            operation_id: operation_id.to_owned(),
            durable_execution_arn: durable_execution_arn.to_owned(),
        }
    }
}

} // verus!
