# Secret handoff

A local server that lets a user enter a secret in a trusted desktop prompt and hands it to one
allowlisted operation, without ever showing it to the client that asks for the operation. The
client sees only an opaque handle. The secret itself lies in the keyring of the desktop session.

- `src/` is the library: the rules by which handles are made, claimed, run with, revoked and
  cleaned up, and what is read of and told to the outside. It is verified with Verus, all but
  the few calls into other crates that are named below.
- `app/` is the program around it: the protocol server, the command line, files, processes and
  control groups. It does what the library decides and reports back what came of it.
- `tests/` runs the library on concrete values.

## How the library is laid out

| Modules | What they hold |
| --- | --- |
| `record`, `state`, `validate` | records, fences and the stored state: what is taken, migrated, kept and refused |
| `lifecycle`, `run`, `reconcile` | the transitions of a record: capture, cleanup, deletion, claim, launch, end, recovery |
| `laws`, `secrecy` | what holds of all transitions together, and of a capture as a whole |
| `flow`, `process`, `keyring` | what is done step by step, and what is told of it |
| `cgroups`, `trust`, `paths`, `environment` | which files, directories and control groups may be used |
| `clock`, `identity` | deadlines and processes, and what is known of them |
| `secret`, `token` | the bytes of a secret, and names that nobody can guess |
| `requests`, `allowlist`, `status`, `framing` | what is asked for, and what is answered |
| `text`, `textmap`, `number` | texts, maps keyed by texts, and decimal numbers |

Each stateful function is stated over a model of the state (`StateModel`, `RecordModel` and so
on): its contract says which model follows from which, or which error is told instead. Proof
functions named `law_...` state what follows for callers.

The library trusts `uuid` for random identifiers, `zeroize` for buffers that are wiped, and
`core::str::from_utf8`. What is claimed of each is written at the item that calls it.
