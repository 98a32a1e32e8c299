# vproxy

The decisions of a proxy daemon, written in Verus and proved against their
contracts.

- `src/text.rs`: decimal numbers, white space, table cells.
- `src/process.rs`: the process table; which processes are `vproxy`, and whether
  the daemon, PM2 or nobody manages them.
- `src/daemon/`: the commands `start`, `stop`, `restart`, `status` and `log`.
- `src/server/`: the server's context; how it comes to its socket and to its TLS
  configuration, what it does with a request, and how it runs a tunnel.
- `src/run.rs`: runs of a command or a request from its first step, which the
  laws about them speak of.

A procedure that waits for the outside world is a step function: it takes a state
and an event, and returns the next state and the action to perform. The laws
(`law_...`) hold of every run of such a function.

`app/` performs the actions: files, signals, processes, sockets. It takes incoming
and outbound connections, authentication, the relay between two TCP streams and TLS
from its caller, as traits.

What `src/` needs of other crates it calls behind wrappers that state what is
relied on: the response builder of `http` with the bodies of `http-body-util`, the
connection builder of `hyper-util`, and the test for root's user id of `nix`.
