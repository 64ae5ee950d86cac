use vstd::prelude::*;
use crate::chance::draw_below;

verus! {

/// A random draw `r` in `[0, 1)` is held as the integer `r * DRAW_SCALE`.
pub const DRAW_SCALE: u32 = 1_000_000;

/// A breakdown bias `b` is held as the integer `b * BIAS_SCALE`.
pub const BIAS_SCALE: u64 = 10_000_000;

/// The kinds of station module.
#[derive(Clone, Copy, Debug, PartialEq, Eq, Structural)]
pub enum ModuleType {
    SolarCell,
    Habitation,
    ScienceLab,
    Transceiver,
}

/// Volatility of a module kind, in tenths.
pub open spec fn volatility_tenths(t: ModuleType) -> u64 {
    match t {
        ModuleType::SolarCell => 2,
        ModuleType::Habitation => 1,
        ModuleType::ScienceLab => 4,
        ModuleType::Transceiver => 1,
    }
}

/// The module kind that an index in `0..4` picks.
pub open spec fn module_type_of_index(i: u32) -> ModuleType {
    if i == 0 {
        ModuleType::SolarCell
    } else if i == 1 {
        ModuleType::Habitation
    } else if i == 2 {
        ModuleType::ScienceLab
    } else {
        ModuleType::Transceiver
    }
}

impl ModuleType {
    /// The volatility of this kind, in tenths: 0.2 for a solar cell, 0.1 for
    /// habitation, 0.4 for a science lab and 0.1 for a transceiver.
    pub fn value(&self) -> (r: u64)
        ensures
            r == volatility_tenths(*self),
    {
        match self {
            ModuleType::SolarCell => 2,
            ModuleType::Habitation => 1,
            ModuleType::ScienceLab => 4,
            ModuleType::Transceiver => 1,
        }
    }

    /// The kind that an index picks, in the order of declaration.
    pub fn from_index(i: u32) -> (r: ModuleType)
        requires
            i < 4,
        ensures
            r == module_type_of_index(i),
    {
        if i == 0 {
            ModuleType::SolarCell
        } else if i == 1 {
            ModuleType::Habitation
        } else if i == 2 {
            ModuleType::ScienceLab
        } else {
            ModuleType::Transceiver
        }
    }

    /// A kind drawn uniformly at random.
    pub fn random() -> (r: ModuleType)
        ensures
            exists|i: u32| i < 4 && r == module_type_of_index(i),
    {
        let i = draw_below(4);
        ModuleType::from_index(i)
    }

    /// The display name of the kind.
    pub fn to_string(&self) -> (r: String)
        ensures
            r@ == kind_label(*self),
    {
        match self {
            ModuleType::SolarCell => "Solar Cell".to_owned(),
            ModuleType::Habitation => "Habitation".to_owned(),
            ModuleType::ScienceLab => "Science Lab".to_owned(),
            ModuleType::Transceiver => "Transceiver".to_owned(),
        }
    }
}

/// The display name of a module kind.
pub open spec fn kind_label(t: ModuleType) -> Seq<char> {
    match t {
        ModuleType::SolarCell => "Solar Cell"@,
        ModuleType::Habitation => "Habitation"@,
        ModuleType::ScienceLab => "Science Lab"@,
        ModuleType::Transceiver => "Transceiver"@,
    }
}

/// A station module: its kind, its accumulated breakdown bias (in units of
/// `1 / BIAS_SCALE`) and whether it is broken.
#[derive(Clone, Copy, Debug, PartialEq, Eq, Structural)]
pub struct Module {
    pub module_type: ModuleType,
    pub breakdown_bias: u64,
    pub broken: bool,
}

/// The number that a draw is divided by on day `days`: `ceil(days / 3)`,
/// and 1 on day 0, where that ceiling is 0.
pub open spec fn break_divisor(days: int) -> int {
    if days <= 0 {
        1
    } else {
        (days + 2) / 3
    }
}

/// Whether a working module breaks on a draw: `r / divisor < bias`, that is
/// `(draw / DRAW_SCALE) / divisor < breakdown_bias / BIAS_SCALE`.
pub open spec fn breaks_on(m: Module, days: int, draw: u32) -> bool {
    10 * draw < break_divisor(days) * m.breakdown_bias
}

/// The module after one day with the given draw. A broken module is left as
/// it is; a working one either breaks, keeping its bias, or adds
/// `r * volatility` to its bias.
pub open spec fn module_after_tick(m: Module, days: int, draw: u32) -> Module {
    if m.broken {
        m
    } else if breaks_on(m, days, draw) {
        Module { broken: true, ..m }
    } else {
        Module {
            breakdown_bias: (m.breakdown_bias + draw * volatility_tenths(m.module_type)) as u64,
            ..m
        }
    }
}

/// Whether the day turned a working module into a broken one.
pub open spec fn newly_broken(before: Module, after: Module) -> bool {
    !before.broken && after.broken
}

/// A module with no bias that works.
pub open spec fn repaired(m: Module) -> Module {
    Module { breakdown_bias: 0, broken: false, ..m }
}

/// The module after a run of days, with one day number and one draw for each.
pub open spec fn module_after_ticks(m: Module, days: Seq<int>, draws: Seq<u32>) -> Module
    decreases days.len(),
{
    if days.len() == 0 || draws.len() == 0 {
        m
    } else {
        module_after_ticks(module_after_tick(m, days[0], draws[0]), days.drop_first(), draws.drop_first())
    }
}

/// Once a module is broken, any number of days leaves it exactly as it is.
pub proof fn broken_module_stays_frozen(m: Module, days: Seq<int>, draws: Seq<u32>)
    requires
        m.broken,
    ensures
        module_after_ticks(m, days, draws) == m,
    decreases days.len(),
{
    if days.len() > 0 && draws.len() > 0 {
        broken_module_stays_frozen(m, days.drop_first(), draws.drop_first());
    }
}

/// Repair gives a working module with no bias, whatever it was before.
pub proof fn repair_resets(m: Module)
    ensures
        repaired(m).breakdown_bias == 0,
        !repaired(m).broken,
        repaired(m).module_type == m.module_type,
{
}

impl Module {
    pub fn new(module_type: ModuleType, breakdown_bias: u64, broken: bool) -> (r: Module)
        ensures
            r == (Module { module_type, breakdown_bias, broken }),
    {
        Module { module_type, breakdown_bias, broken }
    }

    /// The number that the day's draw is divided by before it is compared
    /// with the bias: `ceil(days_survived / 3)`, or 1 on day 0.
    pub fn get_break_chance_modifier(&self, days_survived: i32) -> (r: u32)
        requires
            days_survived >= 0,
        ensures
            r == break_divisor(days_survived as int),
            r >= 1,
    {
        if days_survived == 0 {
            1
        } else {
            let d = days_survived as u32;
            (d + 2) / 3
        }
    }

    /// One day for this module, with `draw` standing for a random value in
    /// `[0, 1)`. Returns whether the module broke on this day; a module that
    /// was already broken is left untouched and reports `false`.
    pub fn tick_with(&mut self, days_survived: i32, draw: u32) -> (r: bool)
        requires
            days_survived >= 0,
            draw < DRAW_SCALE,
        ensures
            *final(self) == module_after_tick(*old(self), days_survived as int, draw),
            r == newly_broken(*old(self), *final(self)),
            old(self).broken ==> *final(self) == *old(self),
    {
        if self.broken {
            return false;
        }
        let k = self.get_break_chance_modifier(days_survived);
        let lhs: u128 = 10 * (draw as u128);
        assert((k as u128) * (self.breakdown_bias as u128) <= 0x1_0000_0000u128 * 0x1_0000_0000_0000_0000u128)
            by (nonlinear_arith)
            requires
                k <= 0xffff_ffffu32,
                self.breakdown_bias <= 0xffff_ffff_ffff_ffffu64,
        ;
        let rhs: u128 = (k as u128) * (self.breakdown_bias as u128);
        assert(rhs == break_divisor(days_survived as int) * self.breakdown_bias) by (nonlinear_arith)
            requires
                rhs == (k as u128) * (self.breakdown_bias as u128),
                k == break_divisor(days_survived as int),
        ;
        if lhs < rhs {
            self.broken = true;
            true
        } else {
            assert(self.breakdown_bias <= k * self.breakdown_bias) by (nonlinear_arith)
                requires
                    k >= 1,
            ;
            let vol = self.module_type.value();
            assert(draw * vol <= 4 * DRAW_SCALE) by (nonlinear_arith)
                requires
                    draw < DRAW_SCALE,
                    vol <= 4,
            ;
            self.breakdown_bias = self.breakdown_bias + (draw as u64) * vol;
            false
        }
    }

    /// One day for this module with a fresh random draw. A broken module is
    /// skipped before anything is drawn.
    pub fn tick(&mut self, days_survived: i32) -> (r: bool)
        requires
            days_survived >= 0,
        ensures
            exists|draw: u32|
                draw < DRAW_SCALE && *final(self) == module_after_tick(
                    *old(self),
                    days_survived as int,
                    draw,
                ),
            r == newly_broken(*old(self), *final(self)),
            old(self).broken ==> *final(self) == *old(self),
    {
        if self.broken {
            assert(*self == module_after_tick(*self, days_survived as int, 0));
            return false;
        }
        let draw = draw_below(DRAW_SCALE);
        self.tick_with(days_survived, draw)
    }

    /// Sets the bias back to zero and the module to working.
    pub fn repair(&mut self)
        ensures
            *final(self) == repaired(*old(self)),
    {
        self.breakdown_bias = 0;
        self.broken = false;
    }
}

impl Default for Module {
    /// A working module of a random kind, with no bias.
    fn default() -> (r: Module)
        ensures
            r.breakdown_bias == 0,
            !r.broken,
            exists|i: u32| i < 4 && r.module_type == module_type_of_index(i),
    {
        Module::new(ModuleType::random(), 0, false)
    }
}

} // verus!
