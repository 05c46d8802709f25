# Taskveil core

The rules of an end-to-end encrypted task manager, written in Verus. What a client
decides about its profile, its account, its keys, its organization and its sync runs is
a function of plain values, with a contract that Verus proves.

## Layout

- `src/` is the library.
  - `protocol/`, `organization_manifest`: what goes over the wire, and how it is read.
  - `local_crypto`: which tenant keys a profile keeps, and which generations it accepts.
  - `credentials`, `login`, `account_runtime`, `account_persistence`: sessions and accounts.
  - `organization_trust`, `organization_flow`: pinned members, rosters, key generations and
    revocations.
  - `profile_coordination`, `windows_security`, `profile_runtime`: locks, and who may touch
    the files of a profile.
  - `sync`, `sync_run`, `sync_store`, `sync_convert`: sync runs, their lease and their
    records.
  - `text`, `bytes`, `ids`, `order`: what the rest is written with.
  - `bridge/`: what frontends call, and what they are told.
  - `external`: calls into other crates. Their contracts are believed, not proved.
- `app/` is the program around the library: files, locks, the clock and stored formats.
- `tests/` runs the library.

## How to read it

Work that needs a file, a socket, a clock or a key store is not done in `src/`. It comes in
as a value, as a closure, or as the event of a step function: such a function takes the
step that a workflow is at and what came of it, and returns the next step. A closure may be
called only where a `requires` clause grants the call, so that the clauses also say in which
order outside work is done.

Public proof functions named `law_...` state what holds across functions.
