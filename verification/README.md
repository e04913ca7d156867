# a3s_oci_runtime

The decisions of an OCI container runtime: native Linux containers with CRIU
checkpoints, and the qualification of the services that run containers in virtual
machines. The library is written and proved in Verus; it does no input or output.

## Layout

- `src/` is the verified library.
  - `native_linux_driver`: who answers a call on a container, and how containers
    of an earlier driver are recovered.
  - `native_checkpoint`: artifacts and their framing, durable journals, and the
    course of checkpoints, restores and their recovery.
  - `native_recovery_smoke`, `native_hook_recovery_smoke`,
    `linux_native_live_recovery_smoke`, `linux_kvm_recovery_smoke`,
    `macos_hvf_host_smoke`: the course of each qualification, and what its report
    has to show.
  - `multi_container_report`, `native_checkpoint_report`,
    `native_network_enforcement_report`: reports whose success is judged here.
  - `service`, `namespace_join`, `operations`, `process`, `model`: what these
    share.
  - `text`, `text_map`, `path`, `json`, `digest`, `marker`, `error`: the
    vocabulary.
- `app/` is ordinary Rust around the library: files, processes, sockets and the
  loops that do what the library says next, for Linux hosts. The qualification on
  macOS is decided in `src/` and has no loop here.
- `tests/` runs the library on concrete values.

## How it works

Work that cannot be proved is done outside. A long operation is a value of the
library that says which step comes next; its caller performs the step and tells
the value what happened. Contracts say, for every state and every event, which
state follows and which failure is reported. What the library takes from other
crates (SHA-256, base64, JSON, random bytes) stands behind small wrappers, each
with a comment on what is believed of it.
