//! The operations, one module each. Every operation is all or nothing: it
//! either goes through and leaves a receipt, or is refused and changes
//! nothing.

pub mod buy;
pub mod sell;
pub mod migrate;
pub mod create_token;
pub mod initialize;
pub mod register_user;
pub mod set_referrer;
