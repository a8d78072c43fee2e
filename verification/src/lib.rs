//! The snapshot/restore control-plane contract of a microVM hypervisor:
//! the request data model, its validation rules, and the lifecycle state
//! machine that gates when each operation is legal.

pub mod error;
pub mod laws;
pub mod lifecycle;
pub mod parse;
pub mod serialize;
pub mod request;
pub mod wire;

pub use error::SnapshotError;
pub use lifecycle::{Vm, VmState};
pub use request::{CreateSnapshotParams, LoadSnapshotParams, SnapshotType};
