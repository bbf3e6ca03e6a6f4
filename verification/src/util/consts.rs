use vstd::prelude::*;

verus! {

/// Directory that holds one YAML file per environment. The value is this
/// crate's own choice: no other setting fixes it.
pub const CONFIG_DIR: &'static str = "config";

/// Configuration source read before the environment's own file, when present.
/// The value is this crate's own choice: no other setting fixes it.
pub const BASE_CONFIG: &'static str = "config/base";

/// Prefix of the environment variables that override configuration values.
/// The value is this crate's own choice: no other setting fixes it.
pub const CONFIG_PREFIX: &'static str = "APP";

/// Separator of nested keys in the names of overriding environment variables.
pub const ENV_SEPARATOR: &'static str = "_";

/// Separator of list items in the values of overriding environment variables.
pub const ENV_LIST_SEPARATOR: &'static str = ":";

/// Environment whose configuration is loaded when none is named.
pub const DEFAULT_ENV: &'static str = "dev";

/// Host on which the gRPC server listens. The value is this crate's own
/// choice (an address that a socket address parser accepts).
pub const LOCALHOST: &'static str = "127.0.0.1";

/// Seconds after which a gRPC request times out. The value is this crate's
/// own choice: no other setting fixes it.
pub const GRPC_TIMEOUT: u64 = 30;

/// Address on which the swarm listens: every interface, a port that the
/// system picks.
pub const SWARM_LISTEN_ADDRESS: &'static str = "/ip4/0.0.0.0/tcp/0";

/// Name of the request-response protocol that peers speak.
pub const SWARM_PROTOCOL: &'static str = "/verification/1.0.0";

/// Largest gRPC message, in bytes, that the server encodes or decodes (1 GiB).
pub const GRPC_MAX_MESSAGE_SIZE: usize = 1073741824;

/// Capacity of the channel from the controllers to the swarm.
pub const SWARM_COMMAND_CAPACITY: usize = 5;

} // verus!
