# mcpg_backend_graphql

The GraphQL backend binding of the mcpg gateway (`kind: "graphql"`), with the
decisions of the binding verified by Verus.

A tool call becomes a GraphQL request over HTTP: the arguments of the call are
the `variables`, the operation of the binding is the `query`. The answer is an
envelope whose `downstreamError` is set for a status that the network core hands
in as an error, for a non-empty GraphQL `errors` array, and for a call that got
no reply. Which statuses are errors is the network core's part: all but 200.

- `src/binding.rs`: the binding spec, its defaults, the rules it is held to, and
  the plan of its registration.
- `src/plugin.rs`: the profiles that are registered, and the lookup of a call.
- `src/call.rs`: what a call turns into, and the answer to it.
- `src/envelope.rs`: the envelope and the downstream error that it reports.
- `src/json.rs`, `src/text.rs`, `src/protocol.rs`: JSON values, questions about
  text, and the plain values that cross to the gateway.
- `src/codec.rs`: everything that is taken on trust from `serde_json`.
- `src/laws.rs`: what holds of the binding as a whole.
- `app/`: the gateway's plugin traits, the network core and serde around the
  library. It needs the gateway's own crates and the descriptor `plugin.yaml`.
