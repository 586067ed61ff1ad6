//! A verified core for a small workflow-orchestration service that adds two
//! numbers: the workflow's signal and query handlers, the activity's step
//! machine, the HTTP status decisions of the API server, and the worker's
//! identity.
pub mod activity;
pub mod api;
pub mod identity;
pub mod lifecycle;
pub mod shared;
pub mod text;
pub mod workflow;

pub use activity::AddActivities;
pub use workflow::AddWorkflow;
