# meilisearch_wrapper

A proxy that runs Meilisearch on AWS Lambda and makes its asynchronous writes
synchronous: a request whose answer enqueues a task is held until the task
ends. The decisions of the proxy are a verified library (`src/`); the HTTP
server, the child process and the command-line tool around it are in `app/`.

- `src/proxy.rs`: the request flow as a state machine, and the rendering of
  each reply.
- `src/task.rs`: what each poll of a task means, and the task errors.
- `src/headers.rs`: the hop-by-hop headers dropped in both directions.
- `src/config.rs`: settings and their defaults.
- `src/logs.rs`, `src/supervisor.rs`: forwarding Meilisearch's log lines, and
  watching its process.
- `src/verbs.rs`: the verbs of the version-sync tool.
- `src/text.rs`: text helpers (comparison, decimal numbers, parsing).
