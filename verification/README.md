# sutra_community

Community modules for the Sutra orchestrator (containers, Kubernetes,
databases, mounts, kernel parameters, cron, certificates, WireGuard, backups,
firewall, web server, and the AGNOS modules), with their decisions verified
by Verus.

Each module plans, applies and checks a task. Everything that talks to a node
goes through an executor; everything else is a function from plain values to
plain values, and that part is the verified library:

- `src/command.rs`: shell commands as literal text and values to be quoted.
- `src/text.rs`: the text operations the modules need (trimming, replacing,
  decimal rendering, splitting into words, byte prefixes).
- `src/task.rs`: probes and their replies, plans, reports and refusals.
- `src/steps.rs`: plans and step lists of the modules that write a file and
  run a command.
- `src/modules/`: one file per module. Each task type has a verified
  `defaults` constructor that fixes the default of every parameter. A module
  states, as spec functions,
  which probe a plan or a check needs, the plan for each reply, the command
  that applies a task and the report for each output; its executable methods
  are proved to compute exactly those. Proof functions at the end of each
  file state what holds across them: the listed actions are exactly the
  accepted ones, a check agrees with the plan, a report marks a change only
  on success, and parameter values reach the shell only quoted.

`app/` is the driver that runs the library against `sutra_core`: it reads
task parameters over the library's defaults, answers probes with the executor, renders commands with
shell quoting and turns refusals into errors. `tests/` runs the library on
concrete tasks.
