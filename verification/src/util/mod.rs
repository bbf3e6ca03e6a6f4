pub mod consts;
pub mod decimal;
pub mod errors;
pub mod types;
