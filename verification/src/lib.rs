pub mod codec;
pub mod dispatch;
pub mod filter;
pub mod store;
