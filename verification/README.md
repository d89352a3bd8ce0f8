# clone_vmm

The control plane of the Clone virtual machine monitor, with proved contracts.

Clone runs many small virtual machines, the guests, on one host. A daemon starts
them from a kernel, from a template or from their own snapshot, and a controller
in front of it gives each tenant a guest on demand and takes the guests of idle
tenants back. This crate holds what these programs decide. What they read, write,
send and wait for is done around it.

## The library, `src/`

- `snapshot`, `chain`, `pool`: full and incremental snapshots, how a diff is laid
  over a base image, chains of diffs, compacting a chain, collecting snapshots that
  no active tag needs, and the cache of templates.
- `protocol`, `server`, `http`: requests and answers, the daemon's state and what
  it does on each request, and its HTTP interface with bearer tokens.
- `sync_server`: the control socket of a single guest, with pausing, snapshots,
  branching, commands and the balloon.
- `cgroup`, `netns`: memory limits and network namespaces of guests.
- `tenant`, `controller`, `reconciler`, `clone_client`, `config`: the controller's
  tenants, how a tenant gets its guest, when a guest has to give memory back or is
  saved, and the calls to the daemon.
- `prom`, `prometheus_metrics`, `controller_metrics`: metrics in the Prometheus
  format.
- `text`, `strmap`, `timestamp`, `failure`: what the others are built on.

Work that takes several steps outside, such as acquiring a guest or taking a
snapshot, is a sequence of turns: each function takes what came of the last turn
and says what to do next.

Durations are whole nanoseconds, and points in time are seconds and nanoseconds
since the epoch. Paths are text.

## The programs, `app/`

`app/` holds the controller as a program, and beside it the daemon's servers, the
control socket of a guest, and the reading and writing of snapshots. It turns JSON
into the library's values and back, and performs what the library asks for.

## Tests

`tests/` runs the library on concrete values.
