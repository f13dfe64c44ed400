//! Decision logic of a chat bot that looks up how many transactions a
//! Bitcoin address has seen, for an allow-listed set of users.
pub mod config;
pub mod decimal;
pub mod handler;
pub mod lookup;

pub use config::{AllowList, ConfigError};
pub use decimal::format_i64;
pub use handler::{
    handle_message, reply_for_outcome, reply_text, reply_to, Action, Config, InboundMessage,
};
pub use lookup::{
    classify, is_success, lookup_url, AddressLookupResult, HttpOutcome, ResponseBody,
};
