# compaction_manager

The compaction manager of a collection store, written and verified in Verus.

- `src/collection.rs`: collection identifiers, and the set of disabled ones.
- `src/startup.rs`: a manager is set up service by service from `src/config.rs`.
- `src/manager.rs`, `src/job.rs`: the manager, and what it takes to run a job.
- `src/batch.rs`: one batch of jobs, from the scheduler to what was compacted.
- `src/handler.rs`, `src/message.rs`: how the manager starts and answers messages.
- `src/laws/`: what holds of the above as a whole.
- `app/`: drives a manager against services that wait, run and send.

A manager is generic over the types of its services (`src/backend.rs`), which it
passes on and never looks into. The `uuid` crate, which reads identifiers, is the
one dependency that the library trusts.
