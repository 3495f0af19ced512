# Janus

Janus is a lightweight orchestration system: a server owns repositories and
workflows, and runners execute predefined jobs on worker hosts.

`src/` is the logic that both sides rest on, verified with Verus: the wire
protocol, job manifests, the artifact store, job runs from admission to
recovery, signed requests, rate limits, workflow schema reports and the
repository page. It decides on plain values; what was read from disk, from the
clock or from a process comes in as an argument, and what is to be done goes out
as a result.

`app/` is the runner around it: HTTP, files, processes and signals.

`tests/` runs the library on concrete values.

| Module | What it decides |
| --- | --- |
| `protocol`, `schema`, `job`, `capabilities`, `artifact` | the wire types, their names and routes |
| `config`, `runtime` | configuration, health and readiness |
| `manifest` | which manifests are usable, and which jobs there are |
| `artifacts` | which uploads are accepted, handed out and swept away |
| `jobs` | which runs start, how their processes end, and what is left of them |
| `auth` | whose signed requests are accepted, and what they may do |
| `rate_limit` | how many requests a client may make |
| `schema_diff`, `views` | what the server shows |
| `names`, `text`, `paths`, `time`, `digest`, `json`, `pattern`, `search` | building blocks |
