//! Decision engine that keeps a chat member's nickname and tier role in step
//! with the rank of the external account linked to them.
//!
//! The library makes no call to the chat platform, the ranking service or
//! the link table. Where work needs such calls, it is a machine that names
//! the next call and is told the answer; the caller makes the calls. What
//! each machine does for every answer is stated in its contract and proved.

pub mod commands;
pub mod database;
pub mod discord;
pub mod faceit;
pub mod link;
pub mod provision;
pub mod seqs;
pub mod sync;
pub mod text;
pub mod tiers;
