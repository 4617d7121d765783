//! Identity of an operation within a durable execution.
use vstd::prelude::*;
use crate::duration::Duration;
use crate::error::opt_view;
use crate::operation::OperationUpdate;

verus! {

/// Identifies an operation: its ID, its parent's ID and its name.
#[derive(Debug, Clone)]
pub struct OperationIdentifier {
    /// The operation's unique ID
    pub operation_id: String,
    /// The parent operation's ID, if nested
    pub parent_id: Option<String>,
    /// The operation's human-readable name, if any
    pub name: Option<String>,
}

impl OperationIdentifier {
    /// Creates an identifier.
    pub fn new(operation_id: &str, parent_id: Option<String>, name: Option<String>) -> (r: Self)
        ensures
            r.operation_id@ == operation_id@,
            r.parent_id == parent_id,
            r.name == name,
    {
        OperationIdentifier { operation_id: operation_id.to_owned(), parent_id, name }
    }
}

/// The update names the operation of `op_id`, with its parent and name.
pub open spec fn carries_identity(u: OperationUpdate, op_id: OperationIdentifier) -> bool {
    &&& u.operation_id@ == op_id.operation_id@
    &&& opt_view(u.parent_id) == opt_view(op_id.parent_id)
    &&& opt_view(u.name) == opt_view(op_id.name)
}

/// Copies the parent ID and name of `op_id` onto `update`, leaving every other
/// field as it was.
pub fn with_identity(update: OperationUpdate, op_id: &OperationIdentifier) -> (r: OperationUpdate)
    ensures
        opt_view(r.parent_id) == match op_id.parent_id {
            Some(p) => Some(p@),
            None => opt_view(update.parent_id),
        },
        opt_view(r.name) == match op_id.name {
            Some(n) => Some(n@),
            None => opt_view(update.name),
        },
        r == (OperationUpdate { parent_id: r.parent_id, name: r.name, ..update }),
{
    let mut u = update;
    if let Some(p) = &op_id.parent_id {
        u = u.with_parent_id(p.as_str());
    }
    if let Some(n) = &op_id.name {
        u = u.with_name(n.as_str());
    }
    u
}

/// Configuration of a wait-for-condition operation: the state handed to the
/// first check, the wait between checks, an optional cap on the number of
/// checks and an optional overall timeout.
#[derive(Debug, Clone)]
pub struct WaitForConditionConfig<S> {
    /// The state handed to the first check
    pub initial_state: S,
    /// The wait between two checks
    pub interval: Duration,
    /// The largest number of checks, if capped
    pub max_attempts: Option<usize>,
    /// The overall timeout, if any
    pub timeout: Option<Duration>,
}

/// What a condition check is told about its attempt.
#[derive(Debug, Clone, Copy, PartialEq, Eq, Structural)]
pub struct WaitForConditionContext {
    /// The current attempt (1-indexed)
    pub attempt: usize,
    /// The largest number of checks, if capped
    pub max_attempts: Option<usize>,
}

} // verus!
