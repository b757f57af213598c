//! The web front end: the seats players claim, the commands they send, and what is
//! broadcast back.
pub mod session;
pub mod types;
