//! Classification of block-verification requests.

pub mod dispatch;
pub mod pipeline;
pub mod policy;
pub mod request;
pub mod run;
