//! Supply, mint-count and replay-guard bookkeeping for a capped fungible token.

pub mod utils;
pub mod schema;
pub mod token;
