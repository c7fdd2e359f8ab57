//! Bearer-token authentication and an atomic balance-transfer ledger.
//!
//! * [`state`] holds what tokens are issued and validated with.
//! * [`token`], [`claims`] and [`bearer`] issue access tokens and
//!   authenticate the requests that bear them; [`jws`] and [`json`] seal,
//!   open, write and read them.
//! * [`account`] and [`ledger`] settle transfers between accounts and keep
//!   the record of them.
//! * [`service`] answers each request from payload to response.
//! * [`error`] names every way in which a request is refused.
//! * [`laws`] states what holds of every ledger and every token.

pub mod account;
pub mod bearer;
pub mod claims;
pub mod clock;
pub mod decimal;
pub mod error;
pub mod ident;
pub mod json;
pub mod jws;
pub mod laws;
pub mod ledger;
pub mod password;
pub mod secret;
pub mod service;
pub mod state;
pub mod token;
