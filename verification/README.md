# philharmonic_workflow

Workflow orchestration, written in Verus. Instances of versioned templates
advance step by step; every step runs a script and leaves an immutable record.

## How it works

The library decides and computes, and does no input or output. An operation of
`WorkflowEngine` (`create_instance`, `execute_step`, `complete`, `cancel`)
returns its first request to the store, the lowerer or the executor. Whoever
drives the operation performs the request and hands the answer to `resume`,
which returns the next request, until the operation is finished. A request
carries the one kind of answer it takes, so that an answer cannot go astray.

`app/` drives the operations over the `philharmonic-store` traits, and over the
`StepExecutor` and `ConfigLowerer` traits, with `async` functions.

## Lifecycle

A new instance is pending. A step leaves it running or completes it, or fails it
where the script fails or returns a malformed result. Callers may complete or
cancel a live instance. Completed, failed and cancelled instances are final.

A step's record is stored before the instance's next revision. Where the
executor cannot be reached neither is written, and the step may be tried again.
Records keep who asked for the step, but neither claims nor tenant. Scripts see
public identifiers only.

## Layout

- `src/engine.rs`, `create.rs`, `transition.rs`: the operations.
- `src/execute.rs`, `finish.rs`: a step, up to its script and from there on.
- `src/plan.rs`, `attributes.rs`, `instance.rs`, `step.rs`: what revisions and
  results say, and what is written.
- `src/data.rs`, `corpus.rs`: the data that a template hands to its script.
- `src/json.rs`, `canonical.rs`, `ids.rs`, `text.rs`: values.
- `src/store.rs`, `entities.rs`, `error.rs`, `executor.rs`, `lowerer.rs`,
  `subject.rs`, `status.rs`: the types that callers deal with.
- `src/runs.rs`, `src/laws/`: whole operations, and what is proved of them.
