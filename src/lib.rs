//! Snake-draft session engine: turn order, pick transactions, lifecycle
//! and the sign-up data that feeds the player pool.

pub mod account;
pub mod draft;
pub mod player;
pub mod ranks;
pub mod record;
pub mod signup;
pub mod team;
pub mod text;
pub mod turn;
