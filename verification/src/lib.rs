//! The verified core of a node that serves a gRPC interface and joins a
//! libp2p swarm: its configuration model, storage selection, error texts,
//! request replies and the decisions of its services.

pub mod util;
pub mod config;
pub mod mysql;
pub mod mapper;
pub mod handler;
pub mod controller;
