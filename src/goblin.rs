use vstd::prelude::*;
use rand::rngs::SmallRng;
use crate::message::{GoblinMessage, Position};
use crate::random::{random_in, random_ratio, seeded};

verus! {

/// Fatigue is counted in thousandths: this many make one unit.
pub const FATIGUE_UNIT: u32 = 1000;

/// A goblin goes home once its fatigue is strictly above this (30 units).
pub const DEPOSIT_THRESHOLD: u32 = 30000;

/// The least fatigue a tick adds (1 unit).
pub const FATIGUE_GAIN_MIN: u32 = 1000;

/// Every tick adds less fatigue than this (5 units).
pub const FATIGUE_GAIN_MAX: u32 = 5000;

/// A tick finds ore with chance `FIND_CHANCE_NUMERATOR` in
/// `FIND_CHANCE_DENOMINATOR`.
pub const FIND_CHANCE_NUMERATOR: u32 = 3;

pub const FIND_CHANCE_DENOMINATOR: u32 = 10;

/// The least ore found at once.
pub const FIND_MIN: u32 = 1;

/// The most ore found at once.
pub const FIND_MAX: u32 = 5;

/// The least pause between two ticks, in milliseconds.
pub const DELAY_MIN_MS: u32 = 100;

/// Every pause between two ticks is shorter than this, in milliseconds.
pub const DELAY_MAX_MS: u32 = 500;

/// The random outcomes of one tick.
#[derive(Clone, Copy, Debug, PartialEq, Eq, Structural)]
pub struct Draws {
    /// Step along each axis.
    pub dx: i32,
    pub dy: i32,
    /// Fatigue added, in thousandths.
    pub fatigue_gain: u32,
    /// Ore found, if any was.
    pub found: Option<u32>,
    /// Pause before the next tick, in milliseconds.
    pub delay_ms: u32,
}

impl Draws {
    /// Every value lies where the goblin's dice can put it.
    pub open spec fn in_range(self) -> bool {
        &&& -1 <= self.dx <= 1
        &&& -1 <= self.dy <= 1
        &&& FATIGUE_GAIN_MIN <= self.fatigue_gain < FATIGUE_GAIN_MAX
        &&& (self.found matches Some(f) ==> FIND_MIN <= f <= FIND_MAX)
        &&& DELAY_MIN_MS <= self.delay_ms < DELAY_MAX_MS
    }

    /// The ore that the tick adds.
    pub open spec fn found_amount(self) -> nat {
        match self.found {
            Some(f) => f as nat,
            None => 0,
        }
    }
}

/// What a goblin knows of itself: where it is, the ore it carries and how
/// tired it is (in thousandths).
#[derive(Clone, Copy, Debug, PartialEq, Eq, Structural)]
pub struct GoblinState {
    pub pos: Position,
    pub ore: u32,
    pub fatigue: u32,
}

/// The state and the message that follow one tick of goblin `id` from state
/// `s` with outcomes `d`: the goblin moves and tires and adds what it found;
/// if its fatigue is then above the threshold it deposits all its ore and
/// starts afresh with no ore and no fatigue, else it reports.
pub open spec fn after_tick(id: usize, s: GoblinState, d: Draws) -> (GoblinState, GoblinMessage) {
    let pos = Position { x: (s.pos.x + d.dx) as i32, y: (s.pos.y + d.dy) as i32 };
    let ore = (s.ore + d.found_amount()) as u32;
    let fatigue = (s.fatigue + d.fatigue_gain) as u32;
    if s.fatigue + d.fatigue_gain > DEPOSIT_THRESHOLD {
        (GoblinState { pos, ore: 0, fatigue: 0 }, GoblinMessage::Deposit { id, ore })
    } else {
        (GoblinState { pos, ore, fatigue }, GoblinMessage::Report { id, pos, ore, fatigue })
    }
}

impl GoblinState {
    /// A goblin starts at the origin, with no ore and no fatigue.
    pub open spec fn start() -> GoblinState {
        GoblinState { pos: Position { x: 0, y: 0 }, ore: 0, fatigue: 0 }
    }

    /// The tick with outcomes `d` stays within the integer types.
    pub open spec fn fits(self, d: Draws) -> bool {
        &&& i32::MIN <= self.pos.x + d.dx <= i32::MAX
        &&& i32::MIN <= self.pos.y + d.dy <= i32::MAX
        &&& self.ore + d.found_amount() <= u32::MAX
        &&& self.fatigue + d.fatigue_gain <= u32::MAX
    }

    /// A goblin can take one more step in any direction.
    pub open spec fn can_move(self) -> bool {
        &&& i32::MIN < self.pos.x < i32::MAX
        &&& i32::MIN < self.pos.y < i32::MAX
    }

    /// What every state reached by ticks within range satisfies: fatigue at
    /// most the threshold, and no more ore than the most that could have been
    /// found for the fatigue gathered since the last deposit.
    pub open spec fn bounded(self) -> bool {
        &&& self.fatigue <= DEPOSIT_THRESHOLD
        &&& self.ore * FATIGUE_GAIN_MIN <= FIND_MAX * self.fatigue
    }

    pub fn new() -> (s: GoblinState)
        ensures
            s == GoblinState::start(),
    {
        GoblinState { pos: Position::origin(), ore: 0, fatigue: 0 }
    }

    /// One tick of goblin `id` with outcomes `d`; returns the message to send.
    pub fn advance(&mut self, id: usize, d: &Draws) -> (m: GoblinMessage)
        requires
            old(self).fits(*d),
        ensures
            (*final(self), m) == after_tick(id, *old(self), *d),
    {
        let found: u32 = match d.found {
            Some(f) => f,
            None => 0,
        };
        let pos = Position { x: self.pos.x + d.dx, y: self.pos.y + d.dy };
        let ore = self.ore + found;
        let fatigue = self.fatigue + d.fatigue_gain;
        self.pos = pos;
        if fatigue > DEPOSIT_THRESHOLD {
            self.ore = 0;
            self.fatigue = 0;
            GoblinMessage::Deposit { id, ore }
        } else {
            self.ore = ore;
            self.fatigue = fatigue;
            GoblinMessage::Report { id, pos, ore, fatigue }
        }
    }
}


/// One tick as it happened: its random outcomes and the message to send.
#[derive(Clone, Copy, Debug, PartialEq, Eq, Structural)]
pub struct Tick {
    pub draws: Draws,
    pub message: GoblinMessage,
}

/// A goblin: its identifier, its state and its own random generator, seeded
/// from the identifier so that a goblin's ticks repeat from run to run.
pub struct Goblin {
    id: usize,
    state: GoblinState,
    rng: SmallRng,
}

/// From a bounded state, a tick with outcomes in range stays within the
/// integer types (where the position has room to move) and leads to a
/// bounded state again: the ore a goblin carries stays between zero and what
/// it can find before it must go home.
pub proof fn lemma_tick_bounded(id: usize, s: GoblinState, d: Draws)
    requires
        s.bounded(),
        s.can_move(),
        d.in_range(),
    ensures
        s.fits(d),
        after_tick(id, s, d).0.bounded(),
        0 <= after_tick(id, s, d).0.ore <= (FIND_MAX as int) * (DEPOSIT_THRESHOLD as int) / (FATIGUE_GAIN_MIN as int),
{
}

/// A tick ends in a deposit exactly when the fatigue it reaches is strictly
/// above the threshold, never at or below it. The deposit carries all the ore
/// gathered, the one found in this tick included, and leaves the goblin with
/// no ore and no fatigue; a report leaves the fatigue at most the threshold.
pub proof fn lemma_deposit_exactly_above_threshold(id: usize, s: GoblinState, d: Draws)
    requires
        s.fits(d),
    ensures
        (after_tick(id, s, d).1 is Deposit) == (s.fatigue + d.fatigue_gain > DEPOSIT_THRESHOLD),
        after_tick(id, s, d).1 is Deposit ==> {
            &&& after_tick(id, s, d).1 == GoblinMessage::Deposit {
                id,
                ore: (s.ore + d.found_amount()) as u32,
            }
            &&& after_tick(id, s, d).0.ore == 0
            &&& after_tick(id, s, d).0.fatigue == 0
        },
        after_tick(id, s, d).1 is Report ==> after_tick(id, s, d).0.fatigue <= DEPOSIT_THRESHOLD,
{
}

impl Goblin {
    /// The goblin's identifier.
    pub closed spec fn id_of(self) -> usize {
        self.id
    }

    /// The goblin's state.
    pub closed spec fn state_of(self) -> GoblinState {
        self.state
    }

    pub open spec fn wf(self) -> bool {
        self.state_of().bounded()
    }

    pub fn id(&self) -> (r: usize)
        ensures
            r == self.id_of(),
    {
        self.id
    }

    pub fn state(&self) -> (r: GoblinState)
        ensures
            r == self.state_of(),
    {
        self.state
    }

    /// A goblin with identifier `id` at the start: at the origin, with no ore
    /// and no fatigue.
    pub fn new(id: usize) -> (g: Goblin)
        ensures
            g.id_of() == id,
            g.state_of() == GoblinState::start(),
            g.wf(),
    {
        Goblin { id, state: GoblinState::new(), rng: seeded(id as u64) }
    }

    /// Whether the goblin's position leaves room for one more step.
    pub fn can_step(&self) -> (r: bool)
        ensures
            r == self.state_of().can_move(),
    {
        i32::MIN < self.state.pos.x && self.state.pos.x < i32::MAX && i32::MIN < self.state.pos.y
            && self.state.pos.y < i32::MAX
    }

    /// Draws the random outcomes of one tick, in this order: the step along
    /// each axis, the fatigue gained, whether ore is found and how much, and
    /// the pause before the next tick. The state is left as it was.
    pub fn draw(&mut self) -> (d: Draws)
        ensures
            d.in_range(),
            final(self).id_of() == old(self).id_of(),
            final(self).state_of() == old(self).state_of(),
    {
        let dx = random_in(&mut self.rng, 0, 2) as i32 - 1;
        let dy = random_in(&mut self.rng, 0, 2) as i32 - 1;
        let fatigue_gain = random_in(&mut self.rng, FATIGUE_GAIN_MIN, FATIGUE_GAIN_MAX - 1);
        let found = if random_ratio(&mut self.rng, FIND_CHANCE_NUMERATOR, FIND_CHANCE_DENOMINATOR) {
            Some(random_in(&mut self.rng, FIND_MIN, FIND_MAX))
        } else {
            None
        };
        let delay_ms = random_in(&mut self.rng, DELAY_MIN_MS, DELAY_MAX_MS - 1);
        Draws { dx, dy, fatigue_gain, found, delay_ms }
    }

    /// One tick: draws its outcomes and applies them to the goblin's state.
    /// The caller prints the notices, sends the message and waits for
    /// `draws.delay_ms` milliseconds.
    pub fn step(&mut self) -> (t: Tick)
        requires
            old(self).wf(),
            old(self).state_of().can_move(),
        ensures
            final(self).wf(),
            final(self).id_of() == old(self).id_of(),
            t.draws.in_range(),
            (final(self).state_of(), t.message) == after_tick(old(self).id_of(), old(self).state_of(), t.draws),
    {
        let draws = self.draw();
        proof {
            lemma_tick_bounded(self.id, self.state, draws);
        }
        let message = self.state.advance(self.id, &draws);
        Tick { draws, message }
    }
}

} // verus!
