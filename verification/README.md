# rappel

Building blocks of the rappel services, written in Verus.

`src/` is the verified library:

- `id`: Snowflake identifiers (layout and monotonicity laws) and random UUIDs.
- `kube`: classifying pods by phase and translating them into workspace nodes.
- `longrunning`: task states and their transitions, the Redis key layout of task stores and
  queues, the fields a queue records, and the outcomes of taking, acknowledging, cancelling and
  polling tasks.
- `grpc`, `service`: the caller of a request, sharded clients, machine identifiers.
- `codec`, `pairs`, `text`, `prost`, `proto`: buffers, string-pair maps, strings and messages.

`app/` holds what Verus does not take: Redis commands and worker loops (async I/O),
configuration files and logging, serde forms of the library's types, and reading Kubernetes
pods.

The gRPC client and server stubs are generated at build time from `.proto` files, and those
files are not part of this tree. The service locator (`ServiceLocator`, its constructor and
`Service::service_locator`) is built on those generated clients, so it is not here either;
`service::client::ShardedClient`, which the locator holds one of per service, is.
