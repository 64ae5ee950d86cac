use vstd::prelude::*;
use crate::module::{Module, ModuleType, DRAW_SCALE, repaired};
use crate::station::{
    Station, StationTickMessage, modules_after_tick, operational_of, report_is,
};

verus! {

/// One helping of science: `labs * e^day`, where `labs` working science labs
/// did science on day `day`. The player's score is the sum of its terms.
#[derive(Clone, Copy, Debug, PartialEq, Eq, Structural)]
pub struct ScienceTerm {
    pub day: i32,
    pub labs: i32,
}

/// Why a player action was refused.
#[derive(Clone, Copy, Debug, PartialEq, Eq, Structural)]
pub enum ActionError {
    /// No module stands at the given position.
    IndexOutOfRange,
}

/// The actions a player has on a fresh day.
pub const PIPS_PER_DAY: i32 = 3;

/// A player: a name, the days survived, the actions left for today, the
/// station, and the science done so far.
pub struct Player {
    pub name: String,
    pub days_survived: i32,
    pub pips_left_today: i32,
    pub station: Station,
    pub science_done: Vec<ScienceTerm>,
}

/// The score of a science record when a term on day `d` is worth `w(d)` per
/// lab. With `w(d) = e^d` it is the player's score.
pub open spec fn weighted_science(log: Seq<ScienceTerm>, w: spec_fn(int) -> int) -> int
    decreases log.len(),
{
    if log.len() == 0 {
        0
    } else {
        weighted_science(log.drop_last(), w) + log.last().labs * w(log.last().day as int)
    }
}

/// Doing science adds exactly its own term to the score, under any weight
/// that is never negative, so the score never falls.
pub proof fn science_never_decreases(
    log: Seq<ScienceTerm>,
    term: ScienceTerm,
    w: spec_fn(int) -> int,
)
    requires
        term.labs >= 0,
        forall|d: int| #[trigger] w(d) >= 0,
    ensures
        weighted_science(log.push(term), w) == weighted_science(log, w) + term.labs * w(
            term.day as int,
        ),
        weighted_science(log.push(term), w) >= weighted_science(log, w),
{
    assert(log.push(term).drop_last() =~= log);
    assert(term.labs * w(term.day as int) >= 0) by (nonlinear_arith)
        requires
            term.labs >= 0,
            w(term.day as int) >= 0,
    ;
}

impl Player {
    pub fn new(name: String, on_station: Station) -> (r: Player)
        ensures
            r.name@ == name@,
            r.days_survived == 0,
            r.pips_left_today == PIPS_PER_DAY,
            r.station == on_station,
            r.science_done@.len() == 0,
    {
        Player {
            name,
            days_survived: 0,
            pips_left_today: PIPS_PER_DAY,
            station: on_station,
            science_done: Vec::new(),
        }
    }

    /// Whether an action is left for today.
    pub fn has_charge(&self) -> (r: bool)
        ensures
            r == (self.pips_left_today > 0),
    {
        self.pips_left_today > 0
    }

    /// Spends one action on science: every working science lab yields
    /// `e^days_survived`. The term is added to the record and returned.
    pub fn do_science(&mut self) -> (r: ScienceTerm)
        requires
            old(self).pips_left_today > 0,
            old(self).station.modules.len() <= i32::MAX,
        ensures
            r == (ScienceTerm {
                day: old(self).days_survived,
                labs: operational_of(old(self).station.modules@, ModuleType::ScienceLab) as i32,
            }),
            r.labs >= 0,
            final(self).science_done@ == old(self).science_done@.push(r),
            final(self).pips_left_today == old(self).pips_left_today - 1,
            final(self).days_survived == old(self).days_survived,
            final(self).station == old(self).station,
            final(self).name == old(self).name,
    {
        let labs = self.station.get_operational_modules_count(ModuleType::ScienceLab);
        proof {
            crate::station::lemma_count_bounds(
                self.station.modules@,
                |m: Module| m.module_type == ModuleType::ScienceLab && !m.broken,
            );
        }
        let term = ScienceTerm { day: self.days_survived, labs };
        self.science_done.push(term);
        self.pips_left_today = self.pips_left_today - 1;
        term
    }

    /// Spends one action on repairing the module at `index`, which is then
    /// working with no bias. An index past the last module is refused, and
    /// nothing changes.
    pub fn fix_module_at_index(&mut self, index: usize) -> (r: Result<(), ActionError>)
        requires
            old(self).pips_left_today > 0,
        ensures
            index < old(self).station.modules.len() ==> {
                &&& r is Ok
                &&& final(self).station.modules@ == old(self).station.modules@.update(
                    index as int,
                    repaired(old(self).station.modules@[index as int]),
                )
                &&& final(self).station.name == old(self).station.name
                &&& final(self).pips_left_today == old(self).pips_left_today - 1
                &&& final(self).days_survived == old(self).days_survived
                &&& final(self).science_done == old(self).science_done
                &&& final(self).name == old(self).name
            },
            index >= old(self).station.modules.len() ==> r == Err::<(), ActionError>(
                ActionError::IndexOutOfRange,
            ) && *final(self) == *old(self),
    {
        if index >= self.station.modules.len() {
            return Err(ActionError::IndexOutOfRange);
        }
        let mut m = self.station.modules[index];
        m.repair();
        self.station.modules.set(index, m);
        self.pips_left_today = self.pips_left_today - 1;
        Ok(())
    }

    /// Ends the day with the given draws, one for each module: the day count
    /// goes up by one, the actions are back to three, and the station takes
    /// its day under the new count.
    pub fn advance_day_with(&mut self, draws: &Vec<u32>) -> (r: StationTickMessage)
        requires
            0 <= old(self).days_survived < i32::MAX,
            old(self).station.modules.len() <= i32::MAX,
            draws.len() == old(self).station.modules.len(),
            forall|i: int| 0 <= i < draws.len() ==> draws[i] < DRAW_SCALE,
        ensures
            final(self).days_survived == old(self).days_survived + 1,
            final(self).pips_left_today == PIPS_PER_DAY,
            final(self).station.name == old(self).station.name,
            final(self).station.modules@ == modules_after_tick(
                old(self).station.modules@,
                final(self).days_survived as int,
                draws@,
            ),
            report_is(r, old(self).station.modules@, final(self).station.modules@),
            final(self).science_done == old(self).science_done,
            final(self).name == old(self).name,
    {
        self.days_survived = self.days_survived + 1;
        self.pips_left_today = PIPS_PER_DAY;
        self.station.tick_with(self.days_survived, draws)
    }

    /// Ends the day with fresh random draws.
    pub fn advance_day(&mut self) -> (r: StationTickMessage)
        requires
            0 <= old(self).days_survived < i32::MAX,
            old(self).station.modules.len() <= i32::MAX,
        ensures
            final(self).days_survived == old(self).days_survived + 1,
            final(self).pips_left_today == PIPS_PER_DAY,
            final(self).station.name == old(self).station.name,
            exists|draws: Seq<u32>|
                #![trigger modules_after_tick(old(self).station.modules@, final(self).days_survived as int, draws)]
                draws.len() == old(self).station.modules.len()
                && (forall|i: int| 0 <= i < draws.len() ==> draws[i] < DRAW_SCALE)
                && final(self).station.modules@ == modules_after_tick(
                    old(self).station.modules@,
                    final(self).days_survived as int,
                    draws,
                ),
            report_is(r, old(self).station.modules@, final(self).station.modules@),
            final(self).science_done == old(self).science_done,
            final(self).name == old(self).name,
    {
        self.days_survived = self.days_survived + 1;
        self.pips_left_today = PIPS_PER_DAY;
        self.station.tick(self.days_survived)
    }
}

} // verus!
