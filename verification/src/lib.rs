//! A verified engine for a chat-bot creature game.
//!
//! Players own a persistent virtual pig whose weight grows through an
//! explicit growth action, modulated by the player's rank among the other
//! players of the same chat.  The crate provides the storage gateway, the
//! growth formula, the per-command session logic, the callback state
//! machine, and the module router; the chat transport and the persistence
//! transport are collaborators that the surrounding application supplies.

use vstd::prelude::*;

pub mod config;
pub mod database;
pub mod game;
pub mod growth;
pub mod modules;
pub mod text;

verus! {

} // verus!
