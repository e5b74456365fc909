# agent

The session-0 agent of a Windows malware-analysis sandbox, with its logic
verified by Verus. Inside an isolated VM the agent launches a sample, watches
what it does, keeps copies of what it drops, and reports to an external
Controller. One run is a study: a number of sessions, one per boot.

## Layout

- `src/` is the library. Every function in it is verified, but for the few calls
  under "Trusted boundary". It performs no input or output: where a decision needs some, one function names the next step and
  another takes in how the step went.
  - `domain/`: scope tracking, drop rules, command lines, names, scores.
  - `plugins/`: the stages of the pipeline, from the tracker to the session
    manager. `plugins/study_laws.rs` states what holds of whole studies.
  - `app/`: events, job queues, the command line, the assembly.
  - `adapters/`: broker, clock, kernel trace, pipe protocol, process launch and
    cleanup, scope storage, service manager, uploads.
  - `protocol/`: configuration, payloads, frames.
- `tests/` runs the library on concrete values.
- `app/` is the program around it: files, network, the service manager, the
  kernel trace and the named pipe. The Windows parts are under `app/platform/`.

## Trusted boundary

A few calls into other crates carry contracts that are believed, not proved:
`String::push`, `==` on `str`, `str::to_lowercase` and `char::from_u32` of the
standard library, `uuid` for random ids and their text, `sha2` for digests, and
the DSN parser of `sentry`. Each is documented where it is declared.
