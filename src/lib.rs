//! A futarchy decision market: a time-weighted price oracle per conditional
//! market, a resolver that passes or fails a proposal by comparing the pass
//! and fail markets' prices, the replay plan for a passed proposal's bundle,
//! and the settlement of conditional tokens once a proposal is finalized.

pub mod authority;
pub mod error;
pub mod finalize_proposal;
pub mod oracle;
pub mod redeem_conditional_tokens;
pub mod replay;
pub mod resolver;
pub mod settlement;
pub mod update_ltwap;
