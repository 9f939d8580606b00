//! A client for a wide-column store: it shapes row writes and point reads
//! into wire requests and reads wire responses back into application values.

pub mod endpoint;
pub mod error;
pub mod model;
pub mod mutate;
pub mod read;
pub mod text;
pub mod wire;

pub use endpoint::Config;
pub use error::ClientError;
pub use model::{
    MutateRowInputEntry, MutateRowInputMutation, MutateRowsInput, ReadRowsEntry, ReadRowsInput,
    ReadRowsOutput,
};
