pub mod ping;
