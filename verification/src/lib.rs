//! A conditional-release custody vault.
//!
//! A vault record holds a balance for one owner together with an unlock
//! policy: a target date or a target price observed from an external price
//! oracle. Funds can be withdrawn in full once either threshold is reached.
//! The state machine over a record (initialize, deposit, set_parameters,
//! withdraw), the ordering of its validation checks and the fixed-point
//! price normalization are verified here; the surrounding runtime (value
//! transfer, clock reads, account plumbing) stays outside the library and
//! hands in plain values.

pub mod laws;
pub mod oracle;
pub mod vault;
