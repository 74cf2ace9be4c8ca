# gameforge

A small game-server platform: a public **gateway**, a local **supervisor** that
starts one **group process** per user group on demand, and one SQLite key/value
store per group.

`src/` is the verified library (Verus). It holds the decisions of the three
programs:

- `args`, `decimal`: the group process's command line, written by the supervisor
  and read back by the group process (with a proof that it reads back what was
  written).
- `group_id`: which group identifiers are accepted and where a group's database
  lives.
- `registry`: the supervisor's table of running group processes.
- `ensure`, `readiness`: the supervisor's steps to make sure a group runs, and
  the wait until a new process accepts connections.
- `activity`, `clock`: when an idle group process exits.
- `reply`, `endpoints`, `settings`, `ws`, `messages`: statuses, answers, URLs,
  settings and WebSocket relaying.

`app/` is the executable around it (HTTP, WebSocket, SQLite, processes). It acts
as the gateway, the supervisor or a group process according to the name it is
started under.
