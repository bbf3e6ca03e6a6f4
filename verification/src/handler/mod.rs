pub mod grpc;
pub mod p2p;
