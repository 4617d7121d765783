//! Callback operations: waiting for an external system to signal completion
//! through a unique callback ID.
use vstd::prelude::*;
use vstd::string::*;
use core::marker::PhantomData;
use crate::config::CallbackConfig;
use crate::context::{carries_identity, with_identity, OperationIdentifier};
use crate::error::{opt_view, DurableError};
use crate::handlers::replay::{is_nondeterministic, nondeterministic_error};
use crate::operation::{law_details_result_is_the_result, Operation, OperationAction, OperationType, OperationUpdate};
use crate::state::CheckpointedResult;
use crate::text::{decimal, digit_char, u64_to_decimal};

verus! {

/// A lowercase hexadecimal digit.
pub open spec fn hex_digit(d: nat) -> char {
    if d < 10 {
        digit_char(d)
    } else {
        seq!['a', 'b', 'c', 'd', 'e', 'f'][d - 10]
    }
}

/// How `serde_json` writes one character inside a JSON string: quote and
/// backslash escaped, the control characters with a short escape where JSON has
/// one and as `\u00XX` (lowercase hex) otherwise, every other character as is.
pub open spec fn json_escaped_char(c: char) -> Seq<char> {
    if c == '"' {
        seq!['\\', '"']
    } else if c == '\\' {
        seq!['\\', '\\']
    } else if c == '\u{8}' {
        seq!['\\', 'b']
    } else if c == '\t' {
        seq!['\\', 't']
    } else if c == '\n' {
        seq!['\\', 'n']
    } else if c == '\u{c}' {
        seq!['\\', 'f']
    } else if c == '\r' {
        seq!['\\', 'r']
    } else if (c as nat) < 0x20 {
        seq!['\\', 'u', '0', '0', hex_digit((c as nat) / 16), hex_digit((c as nat) % 16)]
    } else {
        seq![c]
    }
}

/// The characters of `s`, each written as inside a JSON string.
pub open spec fn json_escaped(s: Seq<char>) -> Seq<char>
    decreases s.len(),
{
    if s.len() == 0 {
        Seq::empty()
    } else {
        json_escaped(s.drop_last()) + json_escaped_char(s.last())
    }
}

/// A string written as a JSON string literal, as `serde_json::to_string` writes
/// a `str`: in quotes, with its characters escaped.
pub open spec fn json_string_literal(s: Seq<char>) -> Seq<char> {
    seq!['"'] + json_escaped(s) + seq!['"']
}

/// Calls `serde_json::to_string` on a string slice. For a `str` the serializer
/// writes to an in-memory buffer and cannot fail; the text is the quoted,
/// escaped string of `json_string_literal`.
#[verifier::external_body]
fn json_quote(s: &str) -> (r: String)
    ensures
        r@ == json_string_literal(s@),
{
    match serde_json::to_string(s) {
        Ok(v) => v,
        Err(_) => String::new(),
    }
}

/// A handle on a callback: the ID external systems use to signal it and the
/// operation whose checkpoint holds its outcome.
#[derive(Debug)]
pub struct Callback<T> {
    callback_id: String,
    operation_id: String,
    _marker: PhantomData<T>,
}

/// The configuration stored with a callback's START update: its ID, heartbeat
/// timeout and timeout, as a JSON object with keys in sorted order.
pub open spec fn callback_config_json(callback_id: Seq<char>, timeout: nat, heartbeat: nat) -> Seq<char> {
    "{\"callback_id\":"@ + json_string_literal(callback_id) + ",\"heartbeat_timeout_seconds\":"@
        + decimal(heartbeat) + ",\"timeout_seconds\":"@ + decimal(timeout) + "}"@
}

/// What waiting for the callback `callback_id` gives, from its checkpoint
/// (see `Callback::result_decision`).
pub open spec fn callback_outcome(callback_id: Seq<char>, checkpoint_result: CheckpointedResult, r: Result<String, DurableError>) -> bool {
    match checkpoint_result.operation {
        None => r matches Err(DurableError::Callback { message, callback_id: id })
            && message@ == "Callback not found"@ && opt_view(id) == Some(callback_id),
        Some(op) => if op.status is Succeeded && op.result_view() is Some {
            r matches Ok(s) && Some(s@) == op.result_view()
        } else if op.status is Failed {
            r matches Err(DurableError::Callback { message, callback_id: id })
                && opt_view(id) == Some(callback_id)
                && message@ == match op.error {
                    Some(e) => e.error_message@,
                    None => "Callback failed with unknown error"@,
                }
        } else if op.status is TimedOut {
            r matches Err(DurableError::Callback { message, callback_id: id })
                && message@ == "Callback timed out"@ && opt_view(id) == Some(callback_id)
        } else {
            r matches Err(DurableError::Suspend { scheduled_timestamp: None })
        },
    }
}

/// A callback that succeeded with its result recorded in its callback details
/// gives that result.
pub proof fn law_completed_callback_gives_its_result(
    callback_id: Seq<char>,
    op: Operation,
    result: String,
    r: Result<String, DurableError>,
)
    requires
        op.operation_type == OperationType::Callback,
        op.status is Succeeded,
        op.callback_details matches Some(d) && d.result == Some(result),
        callback_outcome(callback_id, CheckpointedResult { operation: Some(op) }, r),
    ensures
        r matches Ok(s) && s@ == result@,
{
    law_details_result_is_the_result(op, result);
}

/// A callback that has not settled yet (started, pending or ready) suspends the
/// execution; it never gives a result or an error of its own.
pub proof fn law_unsettled_callback_suspends(callback_id: Seq<char>, op: Operation, r: Result<String, DurableError>)
    requires
        op.status is Started || op.status is Pending || op.status is Ready,
        callback_outcome(callback_id, CheckpointedResult { operation: Some(op) }, r),
    ensures
        r == Err::<String, DurableError>(DurableError::Suspend { scheduled_timestamp: None }),
{
}

impl<T> Callback<T> {
    /// The callback ID.
    pub closed spec fn spec_callback_id(self) -> Seq<char> {
        self.callback_id@
    }

    /// The operation whose checkpoint holds the callback's outcome.
    pub closed spec fn spec_operation_id(self) -> Seq<char> {
        self.operation_id@
    }

    /// A handle for the callback `callback_id` of operation `operation_id`.
    pub fn new(callback_id: &str, operation_id: &str) -> (r: Self)
        ensures
            r.spec_callback_id() == callback_id@,
            r.spec_operation_id() == operation_id@,
    {
        Callback { callback_id: callback_id.to_owned(), operation_id: operation_id.to_owned(), _marker: PhantomData }
    }

    /// The callback ID that external systems should use.
    pub fn id(&self) -> (r: &str)
        ensures
            r@ == self.spec_callback_id(),
    {
        self.callback_id.as_str()
    }

    /// The operation whose checkpoint holds the callback's outcome.
    pub fn operation_id(&self) -> (r: &str)
        ensures
            r@ == self.spec_operation_id(),
    {
        self.operation_id.as_str()
    }

    /// What waiting for the callback gives, from its checkpoint: the stored
    /// result text (to be deserialized) when it succeeded, a Callback error when
    /// it is missing, failed or timed out, and a Suspend signal while it is
    /// pending.
    pub fn result_decision(&self, checkpoint_result: &CheckpointedResult) -> (r: Result<String, DurableError>)
        ensures
            callback_outcome(self.spec_callback_id(), *checkpoint_result, r),
    {
        if !checkpoint_result.is_existent() {
            return Err(
                DurableError::Callback {
                    message: "Callback not found".to_owned(),
                    callback_id: Some(self.callback_id.clone()),
                },
            );
        }
        if checkpoint_result.is_succeeded() {
            if let Some(result_str) = checkpoint_result.result() {
                return Ok(result_str.to_owned());
            }
        }
        if checkpoint_result.is_failed() {
            let message = match checkpoint_result.error() {
                Some(error) => error.error_message.clone(),
                None => "Callback failed with unknown error".to_owned(),
            };
            return Err(DurableError::Callback { message, callback_id: Some(self.callback_id.clone()) });
        }
        if checkpoint_result.is_timed_out() {
            return Err(
                DurableError::Callback {
                    message: "Callback timed out".to_owned(),
                    callback_id: Some(self.callback_id.clone()),
                },
            );
        }
        Err(DurableError::Suspend { scheduled_timestamp: None })
    }
}

/// The START update of the callback `op_id` with ID `callback_id`, storing the
/// callback's configuration as JSON in the update's result.
pub fn create_callback_start_update(op_id: &OperationIdentifier, callback_id: &str, config: &CallbackConfig) -> (r: OperationUpdate)
    ensures
        carries_identity(r, *op_id),
        r.action == OperationAction::Start,
        r.operation_type == OperationType::Callback,
        opt_view(r.result) == Some(
            callback_config_json(callback_id@, config.timeout.secs(), config.heartbeat_timeout.secs()),
        ),
        r.error is None,
        r.has_no_options(),
{
    let json = "{\"callback_id\":".to_owned().concat(json_quote(callback_id).as_str()).concat(
        ",\"heartbeat_timeout_seconds\":",
    ).concat(u64_to_decimal(config.heartbeat_timeout.to_seconds()).as_str()).concat(
        ",\"timeout_seconds\":",
    ).concat(u64_to_decimal(config.timeout.to_seconds()).as_str()).concat("}");
    let mut update = OperationUpdate::start(op_id.operation_id.as_str(), OperationType::Callback);
    update.result = Some(json);
    with_identity(update, op_id)
}

/// Creating a callback: the callback ID and, for a new callback, the START
/// update to checkpoint.
///
/// An existing checkpoint of another type is non-determinism; an existing
/// callback is reused with its name as ID (its operation ID when unnamed); a new
/// callback takes the operation ID as its ID.
pub fn callback_creation(checkpoint_result: &CheckpointedResult, op_id: &OperationIdentifier, config: &CallbackConfig) -> (r: Result<(String, Option<OperationUpdate>), DurableError>)
    ensures
        match checkpoint_result.operation {
            Some(op) => if op.operation_type != OperationType::Callback {
                r matches Err(e) && is_nondeterministic(e, OperationType::Callback, op.operation_type, op_id.operation_id@)
            } else {
                r matches Ok((id, None)) && id@ == match op_id.name {
                    Some(n) => n@,
                    None => op_id.operation_id@,
                }
            },
            None => r matches Ok((id, Some(u))) && id@ == op_id.operation_id@ && carries_identity(u, *op_id)
                && u.action == OperationAction::Start && u.operation_type == OperationType::Callback
                && u.error is None && u.has_no_options() && opt_view(u.result) == Some(
                callback_config_json(op_id.operation_id@, config.timeout.secs(), config.heartbeat_timeout.secs()),
            ),
        },
{
    if checkpoint_result.is_existent() {
        if let Some(op_type) = checkpoint_result.operation_type() {
            if op_type != OperationType::Callback {
                return Err(nondeterministic_error(OperationType::Callback, op_type, op_id.operation_id.as_str()));
            }
        }
        let callback_id = match &op_id.name {
            Some(n) => n.clone(),
            None => op_id.operation_id.clone(),
        };
        return Ok((callback_id, None));
    }
    let callback_id = op_id.operation_id.clone();
    let update = create_callback_start_update(op_id, callback_id.as_str(), config);
    Ok((callback_id, Some(update)))
}

} // verus!
