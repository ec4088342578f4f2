# luffy

Answers Gitea's web hooks by running commands.

A request names its event type in the `X-Gitea-Event` header and carries the
event's payload as JSON. The library (`src/`, verified with Verus) decides
which event the request is, and which command answers it: the program that a
configuration names for the event type, in an environment that describes the
payload field by field (`REPOSITORY_OWNER_LOGIN`, `COMMIT_0_ID`, ...).

- `luffy_gitea`: the payload records, the event types and how the header
  selects one.
- `cli_handler`: the configuration, the environment of each record and the
  command for each event.
- `gitea`, `push_handler`: a coarser event model, where only a push carries
  its payload and is answered by `echoer`.
- `command`, `text`, `server_config`, `json`: the command being built, the
  decimal and boolean texts of values, the allowed host names.

`app/` is the server around it: command line, HTTP (warp), reading JSON into
the records (serde) and running the commands.
