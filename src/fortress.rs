use vstd::prelude::*;
use crate::message::{GoblinMessage, Position};

verus! {

/// How many goblins the simulation runs.
pub const AGENT_COUNT: usize = 5;

/// How many messages the channel to the fortress holds before a sender waits.
pub const CHANNEL_CAPACITY: usize = 100;

/// The latest that the fortress heard from one goblin: its place, the ore it
/// carried and its fatigue (in thousandths).
#[derive(Clone, Copy, Debug, PartialEq, Eq, Structural)]
pub struct StatusEntry {
    pub pos: Position,
    pub ore: u32,
    pub fatigue: u32,
}

/// The fortress as its contracts see it: the total ore deposited, and for
/// each identifier the latest report, or `None` where no report came yet.
pub ghost struct FortressView {
    pub total: nat,
    pub reports: Seq<Option<StatusEntry>>,
}

/// `reports` with entry `id` set to `e`; where `id` lies beyond the end, the
/// sequence first grows with unknown (`None`) entries up to it.
pub open spec fn recorded(reports: Seq<Option<StatusEntry>>, id: nat, e: StatusEntry) -> Seq<
    Option<StatusEntry>,
> {
    let grown = if id < reports.len() {
        reports
    } else {
        reports + Seq::new((id + 1 - reports.len()) as nat, |i: int| None::<StatusEntry>)
    };
    grown.update(id as int, Some(e))
}

/// The fortress after it handles `m`: a report overwrites the sender's
/// entry, a deposit adds its ore to the total.
pub open spec fn received(v: FortressView, m: GoblinMessage) -> FortressView {
    match m {
        GoblinMessage::Report { id, pos, ore, fatigue } => FortressView {
            total: v.total,
            reports: recorded(v.reports, id as nat, StatusEntry { pos, ore, fatigue }),
        },
        GoblinMessage::Deposit { id, ore } => FortressView {
            total: v.total + ore as nat,
            reports: v.reports,
        },
    }
}

/// The fortress after it handles `msgs` in order.
pub open spec fn received_all(v: FortressView, msgs: Seq<GoblinMessage>) -> FortressView
    decreases msgs.len(),
{
    if msgs.len() == 0 {
        v
    } else {
        received(received_all(v, msgs.drop_last()), msgs.last())
    }
}

/// The ore that the deposits among `msgs` carry, together.
pub open spec fn deposit_sum(msgs: Seq<GoblinMessage>) -> nat
    decreases msgs.len(),
{
    if msgs.len() == 0 {
        0
    } else {
        deposit_sum(msgs.drop_last()) + msgs.last().deposited()
    }
}

/// After any sequence of messages, reports and deposits mixed in any order,
/// the fortress's total has grown by exactly the ore that the deposits
/// among them carry.
pub proof fn lemma_total_is_deposit_sum(v: FortressView, msgs: Seq<GoblinMessage>)
    ensures
        received_all(v, msgs).total == v.total + deposit_sum(msgs),
    decreases msgs.len(),
{
    if msgs.len() > 0 {
        lemma_total_is_deposit_sum(v, msgs.drop_last());
    }
}

/// The fortress: the running total of ore deposited and the latest report of
/// each goblin.
pub struct Fortress {
    total_ore: u64,
    reports: Vec<Option<StatusEntry>>,
}

impl View for Fortress {
    type V = FortressView;

    closed spec fn view(&self) -> FortressView {
        FortressView { total: self.total_ore as nat, reports: self.reports@ }
    }
}

impl Fortress {
    /// A fortress with no ore and no reports.
    pub fn new() -> (f: Fortress)
        ensures
            f@.total == 0,
            f@.reports.len() == 0,
    {
        Fortress { total_ore: 0, reports: Vec::new() }
    }

    /// The total ore deposited so far.
    pub fn total_ore(&self) -> (r: u64)
        ensures
            r == self@.total,
    {
        self.total_ore
    }

    /// How many identifiers the table of reports covers.
    pub fn known_len(&self) -> (r: usize)
        ensures
            r == self@.reports.len(),
    {
        self.reports.len()
    }

    /// The latest report of goblin `id`, or `None` if none came yet.
    pub fn report(&self, id: usize) -> (r: Option<StatusEntry>)
        ensures
            r == (if id < self@.reports.len() {
                self@.reports[id as int]
            } else {
                None
            }),
    {
        if id < self.reports.len() {
            self.reports[id]
        } else {
            None
        }
    }

    /// Whether handling `m` stays within the integer types: the total must
    /// hold a deposit's ore, and the table must be able to grow to a report's
    /// identifier.
    pub open spec fn can_hold(self, m: GoblinMessage) -> bool {
        &&& self@.total + m.deposited() <= u64::MAX
        &&& m.id_of() < usize::MAX
    }

    /// Whether `m` can be handled: see `can_hold`.
    pub fn can_receive(&self, m: &GoblinMessage) -> (r: bool)
        ensures
            r == self.can_hold(*m),
    {
        match m {
            GoblinMessage::Report { id, .. } => *id < usize::MAX,
            GoblinMessage::Deposit { id, ore } => *id < usize::MAX && *ore as u64 <= u64::MAX
                - self.total_ore,
        }
    }

    /// Handles one message. Returns the new total after a deposit, and
    /// `None` after a report.
    pub fn receive(&mut self, m: GoblinMessage) -> (r: Option<u64>)
        requires
            old(self).can_hold(m),
        ensures
            final(self)@ == received(old(self)@, m),
            r == (if m is Deposit {
                Some(final(self)@.total as u64)
            } else {
                None
            }),
    {
        match m {
            GoblinMessage::Report { id, pos, ore, fatigue } => {
                let ghost start = self.reports@;
                let e = StatusEntry { pos, ore, fatigue };
                if id >= self.reports.len() {
                    while self.reports.len() <= id
                        invariant
                            id < usize::MAX,
                            self.total_ore == old(self).total_ore,
                            start.len() <= id,
                            start.len() <= self.reports@.len() <= id + 1,
                            self.reports@ =~= start + Seq::new(
                                (self.reports@.len() - start.len()) as nat,
                                |i: int| None::<StatusEntry>,
                            ),
                        decreases id + 1 - self.reports@.len(),
                    {
                        self.reports.push(None);
                    }
                }
                self.reports.set(id, Some(e));
                assert(self.reports@ =~= recorded(start, id as nat, e));
                None
            },
            GoblinMessage::Deposit { ore, .. } => {
                self.total_ore = self.total_ore + ore as u64;
                Some(self.total_ore)
            },
        }
    }
}

} // verus!
