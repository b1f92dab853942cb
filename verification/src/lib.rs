//! Subscription engine for smart-contract event logs: a verified subscription
//! manager, topic-filter builder, value coercion, and polling state machine.

pub mod errors;
pub mod filter_stream_once;
pub mod native_contract;
pub mod token_checker;
pub mod topic_filter;
