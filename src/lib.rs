//! A deterministic, address-keyed record store for a data-labeling workflow:
//! dataset owners register tasks, an oracle publishes verified results for
//! items, and labelers accrue reputation from verified work.
pub mod address;
pub mod auth;
pub mod guarantees;
pub mod state;
pub mod store;
pub mod workflow;

pub use address::{derive_address, seeds, RecordKind};
pub use state::{ContributorReputation, ErrorCode, ProgramConfig, Record, TaskConfig, VerifiedResult};
pub use store::RecordStore;
pub use workflow::{
    add_reputation_points, init_config, init_task, submit_verified_result, AddReputationPoints,
    InitConfig, InitTask, Ledger, SubmitVerifiedResult,
};
