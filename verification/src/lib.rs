//! A shared treasury ("vault") that accrues contributions, automatically
//! burns a configurable fraction of each one, and lets a single authority
//! withdraw, burn or redistribute the remainder. Parameter changes
//! (burn fraction, proposal delay) go through a timelocked governance
//! workflow. The host environment moves the actual funds and supplies the
//! clock; this crate holds the accounting and governance state machine.

pub mod errors;
pub mod vault;
pub mod events;
pub mod accounting;
pub mod governance;
