//! Job runs: accepting, executing, cancelling and recovering them.
pub mod api;
pub mod end_laws;
pub mod environment;
pub mod error;
pub mod execution;
pub mod input_laws;
pub mod inputs;
pub mod models;
pub mod output_laws;
pub mod outputs;
pub mod recovery;
pub mod run_laws;
pub mod store;

pub use error::JobError;
