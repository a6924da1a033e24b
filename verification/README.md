# adblock

The rule engine and service state of a system-wide ad blocker, written in
Verus with contracts that the verifier proves.

- `src/` — the verified library: text operations on domain names (`text`),
  rule evaluation and precedence (`evaluation`), the built-in rule set
  (`rules`), the DNS filter and its cache (`dns`), configuration (`config`),
  the service runtime (`service`), the control tool's commands (`cli`), the
  service host's decisions (`host`), and the small status types (`wfp`,
  `network`, `diagnostics`, `updater`).
- `tests/` — tests of the library.
- `app/` — the program around it: command-line parsing, reading the
  configuration file, saving and loading the service state as JSON, and the
  Windows service host.
