//! What holds of the lock manager as a whole.
//!
//! The laws speak of the models that the contracts use:
//! [`FileView`](crate::file_locks::FileView) for the locks on one file,
//! [`StoreView`](crate::store::StoreView) for a store,
//! [`OperationView`](crate::operation::OperationView) for an operation,
//! [`System`](system::System) for a store with all its operations, and
//! [`Machine`](progress::Machine) for these with the threads that sleep.

pub mod naming;
pub mod outcomes;
pub mod paths;
pub mod progress;
pub mod steps;
pub mod system;
pub mod table;
pub mod words;
