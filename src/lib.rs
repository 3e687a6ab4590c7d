//! Economic and state-transition core of a campaign voting platform:
//! fee and reward arithmetic, the campaign lifecycle, and the voter
//! reputation engine with daily streaks.

pub mod campaign;
pub mod economics;
pub mod error;
pub mod key;
pub mod reputation;
