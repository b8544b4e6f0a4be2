//! A time-based fund-release engine: a sender escrows a principal that is
//! released to a receiver along a linear unlock schedule with an optional
//! cliff. Privileged operations are gated by roles, an optional protocol fee
//! is taken at creation, a pause switch stops the movement of funds, and a
//! single-flight guard keeps a transfer that calls back from starting a
//! second guarded operation.
//!
//! The engine moves no funds, keeps no clock and checks no signature. Its
//! caller proves who is calling, passes the time in, carries out the
//! transfers that an operation hands back, and stores the engine between
//! operations. An operation that fails leaves the engine as it was.

pub mod access;
pub mod batch;
pub mod error;
pub mod fees;
pub mod guard;
pub mod laws;
pub mod math;
pub mod pause;
pub mod snapshot;
pub mod state;
pub mod streams;
pub mod types;

pub use error::{Error, ErrorKind};
pub use state::{State, StellarStream};
pub use types::{
    Address, AddressKind, BatchCreated, Party, Role, RoleGrant, Settlement, Stream, StreamCreated,
    StreamRequest, Transfer, TtlExtension, WasmHash,
};
