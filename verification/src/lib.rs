//! Typed construction of Etherscan-style query URLs.
//!
//! A request is a record of optional query parameters. One constructor per
//! endpoint family fixes the module/action pair and the parameters of that
//! family; `build` renders the record into the URL, field by field and in a
//! fixed order.

pub mod digits;
pub mod laws;
pub mod query;
pub mod request;
pub mod tags;
pub mod text;
pub mod uint256;

pub use crate::query::RequestView;
pub use crate::request::{EtherscanRequest, RequestParts};
pub use crate::uint256::Uint256;
pub use crate::tags::{
    EtherscanAction, EtherscanFormat, EtherscanModule, EtherscanSort, EtherscanTag,
};
