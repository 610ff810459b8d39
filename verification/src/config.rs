//! Configuration of the engine.
//!
//! The growth tunables are supplied from the outside (a configuration file
//! read by the surrounding application).  The file stores them as decimal
//! fractions; the engine works with exact integer arithmetic, so each factor
//! is held here in thousandths (`500` stands for `0.5`).  Loading and
//! parsing the file is the application's job; this crate only receives the
//! plain values.

use vstd::prelude::*;

verus! {

/// One thousand: the denominator of the factors held in thousandths.
pub const MILLI: u64 = 1000;

/// Largest factor the engine accepts, in thousandths (a factor of 1000.0).
pub const FACTOR_MILLI_MAX: u64 = 1000000;

/// Largest starting weight the engine accepts.
pub const START_WEIGHT_MAX: i64 = 1000000;

/// Connection data for an external language-model service.  The engine does
/// not consume it; it is part of the configuration surface carried for the
/// surrounding application.
pub struct GPTConfig {
    pub llm_api_url: String,
    pub llm_api_token: String,
}

/// The game tunables.  Factors and chances are in thousandths.
pub struct GameConfig {
    /// Seconds between two permitted feeding actions.  Stored and carried,
    /// but not enforced by the session logic (see the session module).
    pub feed_delay: u64,
    /// Base growth factor, in thousandths.
    pub base_growth_milli: u64,
    /// Weight of the rank in the loss bound, in thousandths.
    pub rank_factor_milli: u64,
    /// Weight of the current score in the gain bound, in thousandths.
    pub weight_factor_milli: u64,
    /// Seconds between two permitted lard actions.  Stored and carried only.
    pub salo_delay: u64,
    /// Largest number of loot items a player may hold.  Carried only.
    pub max_items: u32,
    /// Base chance of finding pills, in thousandths.  Carried only.
    pub base_pills_chance_milli: u64,
    /// Chance of finding pills while growing, in thousandths.  Carried only.
    pub base_pills_chance_grow_milli: u64,
    /// Weight a creature is created with.
    pub start_weight: i64,
}

impl GameConfig {
    /// The bounds under which the growth formula is free of overflow.
    pub open spec fn wf(&self) -> bool {
        &&& self.base_growth_milli <= FACTOR_MILLI_MAX
        &&& self.rank_factor_milli <= FACTOR_MILLI_MAX
        &&& self.weight_factor_milli <= FACTOR_MILLI_MAX
        &&& 0 <= self.start_weight <= START_WEIGHT_MAX
    }

    /// Checks the bounds of [`GameConfig::wf`] at run time, for callers that
    /// received the values from an unchecked source.
    pub fn is_valid(&self) -> (r: bool)
        ensures
            r == self.wf(),
    {
        self.base_growth_milli <= FACTOR_MILLI_MAX && self.rank_factor_milli <= FACTOR_MILLI_MAX
            && self.weight_factor_milli <= FACTOR_MILLI_MAX && 0 <= self.start_weight
            && self.start_weight <= START_WEIGHT_MAX
    }
}

impl Default for GameConfig {
    /// The default deployment tunables: factors of one half, a feeding delay
    /// of four seconds, a lard delay of eight, fifteen items, pill chances of
    /// about a third and three quarters, and creatures created empty.
    fn default() -> (c: GameConfig)
        ensures
            c.wf(),
            c.base_growth_milli == 500,
            c.rank_factor_milli == 500,
            c.weight_factor_milli == 500,
            c.feed_delay == 4,
            c.salo_delay == 8,
            c.max_items == 15,
            c.base_pills_chance_milli == 330,
            c.base_pills_chance_grow_milli == 750,
            c.start_weight == 0,
    {
        GameConfig {
            feed_delay: 4,
            base_growth_milli: 500,
            rank_factor_milli: 500,
            weight_factor_milli: 500,
            salo_delay: 8,
            max_items: 15,
            base_pills_chance_milli: 330,
            base_pills_chance_grow_milli: 750,
            start_weight: 0,
        }
    }
}

/// The whole configuration surface: the language-model connection data, the
/// game tunables, and an optional database connection string for the
/// persistence collaborator of the surrounding application.
pub struct Config {
    pub gpt: GPTConfig,
    pub game: GameConfig,
    pub database_url: Option<String>,
}

} // verus!
