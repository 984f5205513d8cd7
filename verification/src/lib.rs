//! Log search over a store of replayed execution logs: filter validation,
//! block-range resolution, predicate construction and wire encoding.

pub mod block;
pub mod error;
pub mod filter;
pub mod predicate;
pub mod resolve;
pub mod session;
pub mod text;
pub mod wire;

pub use crate::block::{BlockHash, BlockQuery, BlockResolver, BlockTag, Lookup};
pub use crate::error::{BlockIdentifier, GetLogsError};
pub use crate::filter::{validate_all, ValidatedQueryParams};
pub use crate::predicate::Clause;
pub use crate::resolve::{RangePlan, Step};
pub use crate::session::{GetLogsSession, Progress};
pub use crate::wire::{
    GetLogsParameters, GetLogsResponse, GetLogsResult, GetLogsRpcRequest, RawGetLogsRow,
};
