pub mod address;
pub mod cache;
pub mod dyndns2;
pub mod poll;
pub mod service;

pub use address::{combine_lookups, IpAddress, ResolveError, WanIps};
pub use cache::Cache;
pub use dyndns2::Dyndns2;
pub use poll::{Args, Config, CycleOutcome, PollAction, PollLoop, PollState};
pub use service::{commit_update, plan_update, ServiceTrait, ServiceTypes, UpdateAction};
