//! Human-like browser control: fingerprint profiles, input motion planning
//! and request interception decisions.
pub mod executor;
pub mod input;
pub mod intercept;
pub mod motion;
mod random;
pub mod stealth;
