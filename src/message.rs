use vstd::prelude::*;

verus! {

/// A goblin's place on the grid.
#[derive(Clone, Copy, Debug, PartialEq, Eq, Structural)]
pub struct Position {
    pub x: i32,
    pub y: i32,
}

impl Position {
    /// The origin, where every goblin starts.
    pub fn origin() -> (p: Position)
        ensures
            p.x == 0 && p.y == 0,
    {
        Position { x: 0, y: 0 }
    }
}

/// What a goblin sends to the fortress after each tick.
///
/// Fatigue is counted in thousandths of a unit (see `FATIGUE_UNIT`).
#[derive(Clone, Copy, Debug, PartialEq, Eq, Structural)]
pub enum GoblinMessage {
    /// The goblin's current place, the ore it carries and its fatigue.
    Report { id: usize, pos: Position, ore: u32, fatigue: u32 },
    /// The goblin hands all the ore it carries to the fortress.
    Deposit { id: usize, ore: u32 },
}

impl GoblinMessage {
    /// The identifier of the goblin that sent the message.
    pub fn id(&self) -> (r: usize)
        ensures
            r == self.id_of(),
    {
        match self {
            GoblinMessage::Report { id, .. } => *id,
            GoblinMessage::Deposit { id, .. } => *id,
        }
    }

    pub open spec fn id_of(self) -> usize {
        match self {
            GoblinMessage::Report { id, .. } => id,
            GoblinMessage::Deposit { id, .. } => id,
        }
    }

    /// The ore that a message adds to the fortress's total: the amount of a
    /// deposit, nothing for a report.
    pub open spec fn deposited(self) -> nat {
        match self {
            GoblinMessage::Report { .. } => 0,
            GoblinMessage::Deposit { ore, .. } => ore as nat,
        }
    }
}

} // verus!
