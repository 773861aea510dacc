//! Goblins wander a grid, gather ore and tire; when tired enough they carry
//! their ore home to the fortress, which keeps the latest report of each
//! goblin and the running total of ore deposited.
//!
//! The decisions of a goblin's tick and of the fortress's bookkeeping live
//! here, proved against their contracts. Running the tasks, the channel
//! between them, the waits and the printed notices belong to the program
//! around the library.

mod message;
mod random;
mod goblin;
mod fortress;

pub use message::{GoblinMessage, Position};
pub use goblin::{
    after_tick, lemma_deposit_exactly_above_threshold, lemma_tick_bounded, Draws, Goblin,
    GoblinState, Tick, DELAY_MAX_MS, DELAY_MIN_MS, DEPOSIT_THRESHOLD, FATIGUE_GAIN_MAX,
    FATIGUE_GAIN_MIN, FATIGUE_UNIT, FIND_CHANCE_DENOMINATOR, FIND_CHANCE_NUMERATOR, FIND_MAX,
    FIND_MIN,
};
pub use fortress::{
    deposit_sum, lemma_total_is_deposit_sum, received, received_all, recorded, Fortress,
    FortressView, StatusEntry, AGENT_COUNT, CHANNEL_CAPACITY,
};
