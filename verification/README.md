# app_lib

The verified core of a node that answers gRPC pings and joins a libp2p swarm.

- `src/config`: the configuration (gRPC port, logging switches, storage), its
  defaults, and the plan by which an environment's configuration is loaded.
- `src/mysql`: the storage backends and the choice among them.
- `src/controller`: the node's own ping.
- `src/handler`: the gRPC listen address and the replies to ping requests;
  the messages peers exchange.
- `src/mapper`: reading peer ids (through libp2p).
- `src/util`: error kinds and texts, constants, decimal rendering.

`app/` runs the node: it reads files and the environment, serialises the
configuration, builds the libp2p swarm, serves the gRPC API (`app_grpc.AppService`,
with its messages and routing in `app/api.rs`), and wires the services together
by hand.
