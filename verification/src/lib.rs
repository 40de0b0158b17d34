//! A stack-based bytecode interpreter for a resource-oriented smart-contract
//! virtual machine, together with its gas accounting algebra, the transaction
//! execution envelope around each script invocation, and a property-directed
//! abstract transaction generator used to exercise it.

pub mod abstract_state;
pub mod account_config;
pub mod bytecode;
pub mod canonical;
pub mod chain_state;
pub mod data_cache;
pub mod events;
pub mod execution;
pub mod fuzzer_rng;
pub mod gas_meter;
pub mod gas_schedule;
pub mod interpreter;
pub mod module;
pub mod registered_types;
pub mod status;
pub mod tracing;
pub mod transaction;
pub mod transactions;
pub mod txn_executor;
pub mod types;
pub mod values;

