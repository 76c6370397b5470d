//! A client for a distributed relational database that is reached through
//! a remote procedure protocol.
//!
//! The library holds what the client decides and computes: the conversion
//! between the typed values of the database and their wire form, the
//! protocol of read-only and read/write work with its retries, and the
//! settings of the connection and of the session pool. Calls to the service
//! are made by the program around it, which hands the answers in.

pub mod auth;
pub mod client;
pub mod codec_proofs;
pub mod config;
pub mod error;
pub mod from_spanner;
pub mod keys;
pub mod resource;
pub mod result_set;
pub mod scalar;
mod sealed;
pub mod session;
pub mod statement;
pub mod text;
pub mod to_spanner;
pub mod transaction;
pub mod types;
pub mod value;
pub mod wire;

pub use crate::client::{Completion, ReadOnly, Tx, TxRunner, Verdict};
pub use crate::config::{
    Config, ConfigBuilder, PoolSettings, SessionPoolConfig, SessionPoolConfigBuilder, TlsConfig,
};
pub use crate::error::{Code, Error, RunError, Status};
pub use crate::from_spanner::FromSpanner;
pub use crate::keys::{Key, KeySet};
pub use crate::resource::{DatabaseId, InstanceId, ProjectId, SpannerResource};
pub use crate::result_set::{ResultSet, Row, RowIndex, Stats};
pub use crate::scalar::{Bytes, Date, Float64, Numeric, Timestamp};
pub use crate::session::Session;
pub use crate::statement::Statement;
pub use crate::to_spanner::ToSpanner;
pub use crate::transaction::{TimestampBound, Transaction, TransactionSelector};
pub use crate::types::{StructType, Type, TypeCode};
pub use crate::value::{Struct, Value};
