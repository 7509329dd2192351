//! Book-keeping and decision logic of a zakat collection pool: three
//! category buckets per asset, checked arithmetic on them, the solvency
//! audit, the ordered protocol of a contribution, and the context policy of
//! an attesting account.

pub mod advanced;
pub mod bucket;
pub mod contribute;
pub mod error;
pub mod pool;

pub use advanced::{Advanced, AttestAccount, ContextKind};
pub use bucket::{BucketSet, Category};
pub use contribute::{ContributeFlow, ContributeStage, HostAction, HostEvent};
pub use error::Error;
pub use pool::ZakatPool;
