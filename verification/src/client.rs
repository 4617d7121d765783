//! What the service client decides: the responses it reads, the endpoint and
//! request paths it calls, and how a failed HTTP response, or a failure while
//! signing, sending or reading a request, becomes an error. Signing, sending
//! and (de)serializing the request bodies happen outside.
use vstd::prelude::*;
use vstd::string::*;
use crate::error::{opt_view, AwsError, DurableError, TerminationReason};
use crate::operation::Operation;
use crate::text::{contains_seq, digit_char, str_contains, str_eq};
use vstd::utf8::encode_utf8;

verus! {

/// Response from a checkpoint call.
#[derive(Debug, Clone)]
pub struct CheckpointResponse {
    /// The new checkpoint token to use for subsequent checkpoints
    pub checkpoint_token: String,
    /// The new execution state, with service-generated values such as callback IDs
    pub new_execution_state: Option<NewExecutionState>,
}

impl CheckpointResponse {
    /// A response carrying only a checkpoint token.
    pub fn new(checkpoint_token: &str) -> (r: Self)
        ensures
            r.checkpoint_token@ == checkpoint_token@,
            r.new_execution_state is None,
    {
        CheckpointResponse { checkpoint_token: checkpoint_token.to_owned(), new_execution_state: None }
    }
}

impl Default for CheckpointResponse {
    fn default() -> (r: Self)
        ensures
            r.checkpoint_token@ == Seq::<char>::empty(),
            r.new_execution_state is None,
    {
        CheckpointResponse { checkpoint_token: String::new(), new_execution_state: None }
    }
}

/// New execution state returned from a checkpoint call.
#[derive(Debug, Clone)]
pub struct NewExecutionState {
    /// The updated operations
    pub operations: Vec<Operation>,
    /// Marker for the next page of results, if any
    pub next_marker: Option<String>,
}

impl NewExecutionState {
    /// The first operation with the ID `operation_id`, if any.
    pub fn find_operation(&self, operation_id: &str) -> (r: Option<&Operation>)
        ensures
            match r {
                Some(op) => exists|i: int| {
                    &&& 0 <= i < self.operations@.len()
                    &&& *op == #[trigger] self.operations@[i]
                    &&& op.operation_id@ == operation_id@
                    &&& forall|k: int| 0 <= k < i ==> #[trigger] self.operations@[k].operation_id@ != operation_id@
                },
                None => forall|k: int|
                    0 <= k < self.operations@.len() ==> #[trigger] self.operations@[k].operation_id@ != operation_id@,
            },
    {
        let n = self.operations.len();
        let mut i: usize = 0;
        while i < n
            invariant
                n == self.operations@.len(),
                i <= n,
                forall|k: int| 0 <= k < i ==> #[trigger] self.operations@[k].operation_id@ != operation_id@,
            decreases n - i,
        {
            let op = &self.operations[i];
            if str_eq(op.operation_id.as_str(), operation_id) {
                assert(*op == self.operations@[i as int]);
                return Some(op);
            }
            i = i + 1;
        }
        None
    }
}

/// Response from a get-operations call.
#[derive(Debug, Clone)]
pub struct GetOperationsResponse {
    /// The retrieved operations
    pub operations: Vec<Operation>,
    /// Marker for the next page of results, if any
    pub next_marker: Option<String>,
}

/// Configuration of the Lambda durable service client.
#[derive(Debug, Clone)]
pub struct LambdaClientConfig {
    /// AWS region of the Lambda service
    pub region: String,
    /// Custom endpoint URL, if any
    pub endpoint_url: Option<String>,
}

impl Default for LambdaClientConfig {
    fn default() -> (r: Self)
        ensures
            r.region@ == "us-east-1"@,
            r.endpoint_url is None,
    {
        LambdaClientConfig { region: "us-east-1".to_owned(), endpoint_url: None }
    }
}

impl LambdaClientConfig {
    /// A configuration for `region` with the regional endpoint.
    pub fn with_region(region: &str) -> (r: Self)
        ensures
            r.region@ == region@,
            r.endpoint_url is None,
    {
        LambdaClientConfig { region: region.to_owned(), endpoint_url: None }
    }

    /// The endpoint the client calls: the custom endpoint if set, else the
    /// regional Lambda endpoint.
    pub open spec fn endpoint_view(self) -> Seq<char> {
        match self.endpoint_url {
            Some(u) => u@,
            None => "https://lambda."@ + self.region@ + ".amazonaws.com"@,
        }
    }

    /// The endpoint the client calls (see `endpoint_view`).
    pub fn endpoint(&self) -> (r: String)
        ensures
            r@ == self.endpoint_view(),
    {
        match &self.endpoint_url {
            Some(u) => u.clone(),
            None => "https://lambda.".to_owned().concat(self.region.as_str()).concat(".amazonaws.com"),
        }
    }
}

/// The bytes `urlencoding` leaves as they are: ASCII letters and digits and
/// `-`, `.`, `_`, `~`.
pub open spec fn url_safe_byte(b: u8) -> bool {
    (48 <= b <= 57) || (65 <= b <= 90) || (97 <= b <= 122) || b == 45 || b == 46 || b == 95 || b == 126
}

/// An uppercase hexadecimal digit.
pub open spec fn upper_hex_digit(d: nat) -> char {
    if d < 10 {
        digit_char(d)
    } else {
        seq!['A', 'B', 'C', 'D', 'E', 'F'][d - 10]
    }
}

/// One byte percent-encoded: a safe byte as its character, any other as `%`
/// and two uppercase hexadecimal digits.
pub open spec fn url_encoded_byte(b: u8) -> Seq<char> {
    if url_safe_byte(b) {
        seq![b as char]
    } else {
        seq!['%', upper_hex_digit((b as nat) / 16), upper_hex_digit((b as nat) % 16)]
    }
}

/// Bytes percent-encoded one after another.
pub open spec fn url_encoded_bytes(bytes: Seq<u8>) -> Seq<char>
    decreases bytes.len(),
{
    if bytes.len() == 0 {
        Seq::empty()
    } else {
        url_encoded_bytes(bytes.drop_last()) + url_encoded_byte(bytes.last())
    }
}

/// What `urlencoding::encode` makes of a string: its UTF-8 bytes percent-encoded.
pub open spec fn url_encoding(s: Seq<char>) -> Seq<char> {
    url_encoded_bytes(encode_utf8(s))
}

/// Percent-encodes `s` with `urlencoding::encode`, which escapes every UTF-8
/// byte but ASCII letters, digits and `-`, `_`, `.`, `~`, with uppercase hex.
#[verifier::external_body]
fn url_encode(s: &str) -> (r: String)
    ensures
        r@ == url_encoding(s@),
{
    urlencoding::encode(s).into_owned()
}

/// The URI of a durable execution's API on the endpoint; `api` is the API's
/// path below the execution, starting with `/`.
pub open spec fn execution_uri(endpoint: Seq<char>, arn: Seq<char>, api: Seq<char>) -> Seq<char> {
    endpoint + "/2025-12-01/durable-executions/"@ + url_encoding(arn) + api
}

/// The URI of the checkpoint API for the execution `durable_execution_arn`.
pub fn checkpoint_uri(config: &LambdaClientConfig, durable_execution_arn: &str) -> (r: String)
    ensures
        r@ == execution_uri(config.endpoint_view(), durable_execution_arn@, "/checkpoint"@),
{
    config.endpoint().concat("/2025-12-01/durable-executions/").concat(url_encode(durable_execution_arn).as_str()).concat(
        "/checkpoint",
    )
}

/// The URI of the execution-state API for the execution `durable_execution_arn`.
pub fn state_uri(config: &LambdaClientConfig, durable_execution_arn: &str) -> (r: String)
    ensures
        r@ == execution_uri(config.endpoint_view(), durable_execution_arn@, "/state"@),
{
    config.endpoint().concat("/2025-12-01/durable-executions/").concat(url_encode(durable_execution_arn).as_str()).concat(
        "/state",
    )
}

/// What `http::StatusCode`'s `Display` prints for a status code: the number and
/// its canonical reason.
pub uninterp spec fn status_line(code: u16) -> Seq<char>;

/// Prints the status `code` as `http::StatusCode` displays it. The text is
/// named, not spelled out: it depends on the code alone.
#[verifier::external_body]
fn status_text(code: u16) -> (r: String)
    requires
        100 <= code <= 999,
    ensures
        r@ == status_line(code),
{
    match http::StatusCode::from_u16(code) {
        Ok(status) => status.to_string(),
        Err(_) => String::new(),
    }
}

/// The response says the payload was too large.
pub open spec fn says_too_large(code: u16, body: Seq<char>) -> bool {
    code == 413 || contains_seq(body, "RequestEntityTooLarge"@) || contains_seq(body, "Payload size exceeded"@)
        || contains_seq(body, "Request too large"@)
}

/// The response says the execution does not exist.
pub open spec fn says_not_found(code: u16, body: Seq<char>) -> bool {
    code == 404 || contains_seq(body, "ResourceNotFoundException"@) || contains_seq(body, "not found"@)
}

/// The response says the caller was throttled.
pub open spec fn says_throttled(code: u16, body: Seq<char>) -> bool {
    code == 429 || contains_seq(body, "ThrottlingException"@) || contains_seq(body, "TooManyRequestsException"@)
        || contains_seq(body, "Rate exceeded"@)
}

fn too_large(code: u16, body: &str) -> (r: bool)
    ensures
        r == says_too_large(code, body@),
{
    code == 413 || str_contains(body, "RequestEntityTooLarge") || str_contains(body, "Payload size exceeded")
        || str_contains(body, "Request too large")
}

fn not_found(code: u16, body: &str) -> (r: bool)
    ensures
        r == says_not_found(code, body@),
{
    code == 404 || str_contains(body, "ResourceNotFoundException") || str_contains(body, "not found")
}

fn throttled(code: u16, body: &str) -> (r: bool)
    ensures
        r == says_throttled(code, body@),
{
    code == 429 || str_contains(body, "ThrottlingException") || str_contains(body, "TooManyRequestsException")
        || str_contains(body, "Rate exceeded")
}

/// The not-found error for the execution `arn`.
pub open spec fn is_execution_not_found(e: DurableError, body: Seq<char>, arn: Seq<char>) -> bool {
    e matches DurableError::ResourceNotFound { message, resource_id }
        && message@ == "Durable execution not found: "@ + body && opt_view(resource_id) == Some(arn)
}

/// The throttling error for a throttled call.
pub open spec fn is_rate_limited(e: DurableError, body: Seq<char>) -> bool {
    e matches DurableError::Throttling { message, retry_after_ms }
        && message@ == "Rate limit exceeded: "@ + body && retry_after_ms is None
}

/// What a failed checkpoint call means, for the status `code`, its printed
/// status line `status`, the response body and the execution `arn` (see
/// `classify_checkpoint_failure`).
pub open spec fn checkpoint_failure_outcome(
    code: u16,
    status: Seq<char>,
    body: Seq<char>,
    arn: Seq<char>,
    r: DurableError,
) -> bool {
    if says_too_large(code, body) {
        r matches DurableError::SizeLimit { message, actual_size, max_size }
            && message@ == "Checkpoint payload size exceeded: "@ + body && actual_size is None && max_size is None
    } else if says_not_found(code, body) {
        is_execution_not_found(r, body, arn)
    } else if says_throttled(code, body) {
        is_rate_limited(r, body)
    } else {
        let invalid_token = contains_seq(body, "Invalid checkpoint token"@);
        r matches DurableError::Checkpoint { message, is_retriable, aws_error: Some(aws) }
            && message@ == "Checkpoint API returned "@ + status + ": "@ + body
            && is_retriable == (500 <= code < 600 || invalid_token)
            && aws.code@ == (if invalid_token { "InvalidParameterValueException"@ } else { status })
            && aws.message@ == body && aws.request_id is None
    }
}

/// What `checkpoint_error` answers: the classification with the status line
/// that `http` prints for the code.
pub open spec fn checkpoint_error_outcome(code: u16, body: Seq<char>, arn: Seq<char>, r: DurableError) -> bool {
    checkpoint_failure_outcome(code, status_line(code), body, arn, r)
}

/// The error for a checkpoint call that the service answered with the
/// non-success status `code` (printed as `status`) and the body `body`, for the
/// execution `arn`.
///
/// A payload-size complaint is a size-limit error; a missing execution a
/// not-found error; throttling a throttling error (checked in that order).
/// Anything else is a Checkpoint error, retriable for a server error (5xx) or an
/// invalid checkpoint token, whose AWS code is `InvalidParameterValueException`
/// for an invalid token and the status line otherwise.
pub fn classify_checkpoint_failure(code: u16, status: &str, body: &str, durable_execution_arn: &str) -> (r: DurableError)
    ensures
        checkpoint_failure_outcome(code, status@, body@, durable_execution_arn@, r),
{
    if too_large(code, body) {
        return DurableError::SizeLimit {
            message: "Checkpoint payload size exceeded: ".to_owned().concat(body),
            actual_size: None,
            max_size: None,
        };
    }
    if not_found(code, body) {
        return DurableError::ResourceNotFound {
            message: "Durable execution not found: ".to_owned().concat(body),
            resource_id: Some(durable_execution_arn.to_owned()),
        };
    }
    if throttled(code, body) {
        return DurableError::Throttling {
            message: "Rate limit exceeded: ".to_owned().concat(body),
            retry_after_ms: None,
        };
    }
    let is_invalid_token = str_contains(body, "Invalid checkpoint token");
    let is_retriable = (500 <= code && code < 600) || is_invalid_token;
    let message = "Checkpoint API returned ".to_owned().concat(status).concat(": ").concat(body);
    let aws_code = if is_invalid_token {
        "InvalidParameterValueException".to_owned()
    } else {
        status.to_owned()
    };
    DurableError::Checkpoint {
        message,
        is_retriable,
        aws_error: Some(AwsError { code: aws_code, message: body.to_owned(), request_id: None }),
    }
}

/// The error for a checkpoint call that the service answered with the
/// non-success status `code` and the body `body` (see
/// `classify_checkpoint_failure`), the status printed as `http` prints it.
pub fn checkpoint_error(code: u16, body: &str, durable_execution_arn: &str) -> (r: DurableError)
    requires
        100 <= code <= 999,
    ensures
        checkpoint_error_outcome(code, body@, durable_execution_arn@, r),
{
    let status = status_text(code);
    classify_checkpoint_failure(code, status.as_str(), body, durable_execution_arn)
}

/// What a failed get-operations call means, for the status `code`, its printed
/// status line `status`, the response body and the execution `arn` (see
/// `classify_get_operations_failure`).
pub open spec fn get_operations_failure_outcome(
    code: u16,
    status: Seq<char>,
    body: Seq<char>,
    arn: Seq<char>,
    r: DurableError,
) -> bool {
    if says_not_found(code, body) {
        is_execution_not_found(r, body, arn)
    } else if says_throttled(code, body) {
        is_rate_limited(r, body)
    } else {
        r matches DurableError::Invocation { message, termination_reason }
            && message@ == "GetDurableExecutionState API returned "@ + status + ": "@ + body
            && termination_reason == TerminationReason::InvocationError
    }
}

/// The error for a get-operations call that the service answered with the
/// non-success status `code` (printed as `status`) and the body `body`, for the
/// execution `arn`.
///
/// A missing execution is a not-found error; throttling a throttling error;
/// anything else an Invocation error naming the status.
pub fn classify_get_operations_failure(code: u16, status: &str, body: &str, durable_execution_arn: &str) -> (r: DurableError)
    ensures
        get_operations_failure_outcome(code, status@, body@, durable_execution_arn@, r),
{
    if not_found(code, body) {
        return DurableError::ResourceNotFound {
            message: "Durable execution not found: ".to_owned().concat(body),
            resource_id: Some(durable_execution_arn.to_owned()),
        };
    }
    if throttled(code, body) {
        return DurableError::Throttling {
            message: "Rate limit exceeded: ".to_owned().concat(body),
            retry_after_ms: None,
        };
    }
    DurableError::Invocation {
        message: "GetDurableExecutionState API returned ".to_owned().concat(status).concat(": ").concat(body),
        termination_reason: TerminationReason::InvocationError,
    }
}

/// The error for a get-operations call that the service answered with the
/// non-success status `code` and the body `body` (see
/// `classify_get_operations_failure`), the status printed as `http` prints it.
pub fn get_operations_error(code: u16, body: &str, durable_execution_arn: &str) -> (r: DurableError)
    requires
        100 <= code <= 999,
    ensures
        get_operations_failure_outcome(code, status_line(code), body@, durable_execution_arn@, r),
{
    let status = status_text(code);
    classify_get_operations_failure(code, status.as_str(), body, durable_execution_arn)
}

/// A server error (any 5xx status) from the checkpoint API that is not a
/// payload-size, not-found or throttling answer is a retriable Checkpoint
/// error, whatever its body says.
pub proof fn law_server_errors_are_retriable(code: u16, status: Seq<char>, body: Seq<char>, arn: Seq<char>, r: DurableError)
    requires
        500 <= code <= 599,
        checkpoint_failure_outcome(code, status, body, arn, r),
        !says_too_large(code, body),
        !says_not_found(code, body),
        !says_throttled(code, body),
    ensures
        r matches DurableError::Checkpoint { is_retriable, .. } && is_retriable,
{
}

/// Outside the 5xx range, a Checkpoint error from the checkpoint API is
/// permanent unless its body reports an invalid checkpoint token.
pub proof fn law_other_failures_are_permanent(code: u16, status: Seq<char>, body: Seq<char>, arn: Seq<char>, r: DurableError)
    requires
        code < 500 || code > 599,
        !contains_seq(body, "Invalid checkpoint token"@),
        checkpoint_failure_outcome(code, status, body, arn, r),
    ensures
        r matches DurableError::Checkpoint { is_retriable, .. } ==> !is_retriable,
{
}

/// The status code alone decides the class of a few answers: 413 is a
/// payload-size error, 404 (with no payload-size complaint) a not-found error
/// for the execution, and 429 (with neither) a throttling error.
pub proof fn law_status_codes_classify(code: u16, status: Seq<char>, body: Seq<char>, arn: Seq<char>, r: DurableError)
    requires
        checkpoint_failure_outcome(code, status, body, arn, r),
    ensures
        code == 413 ==> r is SizeLimit,
        code == 404 && !says_too_large(code, body) ==> (r matches DurableError::ResourceNotFound { resource_id, .. }
            && opt_view(resource_id) == Some(arn)),
        code == 429 && !says_too_large(code, body) && !says_not_found(code, body) ==> r is Throttling,
{
}

/// A checkpoint call refused for an invalid checkpoint token (and for nothing
/// that is checked before it) gives a retriable error that is recognized as an
/// invalid-token error, so the invocation is retried with a fresh token.
pub proof fn law_invalid_token_is_retried(
    code: u16,
    status: Seq<char>,
    body: Seq<char>,
    arn: Seq<char>,
    r: DurableError,
)
    requires
        checkpoint_failure_outcome(code, status, body, arn, r),
        contains_seq(body, "Invalid checkpoint token"@),
        !says_too_large(code, body),
        !says_not_found(code, body),
        !says_throttled(code, body),
    ensures
        r matches DurableError::Checkpoint { is_retriable, .. } && is_retriable,
        r.spec_is_invalid_checkpoint_token(),
{
}

/// The steps of sending a request to the service that can fail before a
/// response is read: fetching credentials, the steps of signing the request,
/// sending it, and reading the response body.
#[derive(Debug, Clone, Copy, PartialEq, Eq, Structural)]
pub enum RequestStep {
    /// Fetching the AWS credentials.
    Credentials,
    /// Building the signing parameters.
    SigningParams,
    /// Turning the request into a signable request.
    SignableRequest,
    /// Computing the signature.
    Signing,
    /// Building the request the signature's headers are applied to.
    HeaderRequest,
    /// Sending the request.
    Send,
    /// Reading the response body.
    ReadBody,
}

/// What the error for a failed `step` says before the outside cause.
pub open spec fn request_step_message(step: RequestStep) -> Seq<char> {
    match step {
        RequestStep::Credentials => "Failed to get AWS credentials"@,
        RequestStep::SigningParams => "Failed to build signing params"@,
        RequestStep::SignableRequest => "Failed to create signable request"@,
        RequestStep::Signing => "Failed to sign request"@,
        RequestStep::HeaderRequest => "Failed to build temp request"@,
        RequestStep::Send => "HTTP request failed"@,
        RequestStep::ReadBody => "Failed to read response body"@,
    }
}

/// Whether a failure of `step` is worth retrying: fetching credentials and
/// reading the body always are, sending is when it timed out or could not
/// connect (`transient`), and the signing steps never are.
pub open spec fn request_step_retriable(step: RequestStep, transient: bool) -> bool {
    match step {
        RequestStep::Credentials | RequestStep::ReadBody => true,
        RequestStep::Send => transient,
        _ => false,
    }
}

/// The checkpoint error for a request that failed at `step` with the outside
/// cause `cause`: the step's message, `": "` and the cause, retriable as
/// `request_step_retriable` says, with no AWS error attached.
pub fn request_error(step: RequestStep, cause: &str, transient: bool) -> (r: DurableError)
    ensures
        r matches DurableError::Checkpoint { message, is_retriable, aws_error } && message@
            == request_step_message(step) + ": "@ + cause@ && is_retriable == request_step_retriable(step, transient)
            && aws_error is None,
{
    let prefix = match step {
        RequestStep::Credentials => "Failed to get AWS credentials",
        RequestStep::SigningParams => "Failed to build signing params",
        RequestStep::SignableRequest => "Failed to create signable request",
        RequestStep::Signing => "Failed to sign request",
        RequestStep::HeaderRequest => "Failed to build temp request",
        RequestStep::Send => "HTTP request failed",
        RequestStep::ReadBody => "Failed to read response body",
    };
    proof {
        reveal_strlit("Failed to get AWS credentials");
        reveal_strlit("Failed to build signing params");
        reveal_strlit("Failed to create signable request");
        reveal_strlit("Failed to sign request");
        reveal_strlit("Failed to build temp request");
        reveal_strlit("HTTP request failed");
        reveal_strlit("Failed to read response body");
        reveal_strlit(": ");
    }
    let is_retriable = match step {
        RequestStep::Credentials | RequestStep::ReadBody => true,
        RequestStep::Send => transient,
        _ => false,
    };
    DurableError::Checkpoint {
        message: prefix.to_owned().concat(": ").concat(cause),
        is_retriable,
        aws_error: None,
    }
}

} // verus!
