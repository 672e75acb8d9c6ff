//! Shared-state core of a live competition server: the countdown timer, the
//! ticker that projects it, the table registry, upload accounting and the
//! decisions taken around them, each with a machine-checked contract.

pub mod auth;
pub mod clock;
pub mod download;
pub mod engine;
pub mod export;
pub mod kode;
pub mod load;
pub mod naming;
pub mod preview;
pub mod records;
pub mod regenerate;
pub mod requests;
pub mod session;
pub mod state;
pub mod text;
pub mod ticker;
pub mod timer;
pub mod timer_laws;
pub mod upload;
