# aws_durable_execution_sdk

The decision logic of a durable-execution SDK for AWS Lambda, verified with
Verus: operation records and checkpoint updates, replay of checkpointed
operations (with detection of non-deterministic code), the completion criteria
of concurrent map and parallel work, retry strategies, item batching, the
promise combinators, wait-for-condition polling, the classification of service
errors and the Lambda invocation output.

- `src/` is the verified library. Each public function states what it returns
  in its `ensures`; the `law_*` proof functions state properties that relate
  several functions (replay gives back what was checkpointed, completion
  criteria, batching keeps item order, a map plan runs every item exactly
  once, and others).
- `tests/` exercises the library on concrete values.
- `app/` is the unverified runtime around it: serde wire forms, the signed HTTP
  client, the tokio executor and the asynchronous handlers, which ask the
  library what to do and perform it.
