//! Typed key-value storage logic: value marshalling, typed reads, ordered
//! range collection, composite attribute keys, the attribute snapshot, and
//! the state machines that drive cross-thread tasks and store start-up.
//!
//! The storage engine and the host's threads stay outside: callers hand this
//! library what the engine returned and carry out the actions it decides.

pub mod cache;
pub mod database;
pub mod error;
pub mod key;
pub mod range;
pub mod startup;
pub mod task;
pub mod value;
pub mod xulstore;

pub use cache::{XulData, XulEntry};
pub use database::{
    delete, get, get_bool, get_double, get_int, get_string, has, DeleteOutcome,
    InitKeyValueService,
};
pub use error::{
    KeyValueError, XULStoreError, XULStoreNsResult, NS_ERROR_FAILURE, NS_ERROR_NOT_AVAILABLE,
    NS_ERROR_UNEXPECTED, NS_OK,
};
pub use key::{make_key, split_key, SEPARATOR};
pub use range::{
    enumerate, key_le_exec, InitKeyValuePair, InitSimpleEnumerator, KeyValuePair,
    SimpleEnumerator,
};
pub use startup::{update_profile_dir, StartupAction, StartupEvent, StartupPhase, XulStoreState};
pub use task::{TaskAction, TaskPhase, TaskRunnable};
pub use value::{into_variant, value_for_put, value_to_owned, OwnedValue, StoredValue, Variant};
pub use xulstore::{get_data, migration_writes, unwrap_value};
