use vstd::prelude::*;

pub mod accounts;
pub mod checks;
pub mod error;
pub mod events;
pub mod key;
pub mod metadata;
pub mod pda;
pub mod state;
pub mod sysvar;
pub mod instructions;
pub mod laws;
