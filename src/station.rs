use vstd::prelude::*;
use crate::chance::draw_below;
use crate::module::{
    Module, ModuleType, DRAW_SCALE, module_after_tick, newly_broken,
};

verus! {

/// The names a station can carry.
#[derive(Clone, Copy, Debug, PartialEq, Eq, Structural)]
pub enum StationName {
    ISS,
    Mir,
}

impl StationName {
    /// The name that an index in `0..2` picks, in the order of declaration.
    pub fn from_index(i: u32) -> (r: StationName)
        requires
            i < 2,
        ensures
            r == (if i == 0 { StationName::ISS } else { StationName::Mir }),
    {
        if i == 0 {
            StationName::ISS
        } else {
            StationName::Mir
        }
    }

    /// A name drawn uniformly at random.
    pub fn random() -> (r: StationName) {
        StationName::from_index(draw_below(2))
    }

    pub fn to_string(&self) -> (r: String)
        ensures
            r@ == (match *self {
                StationName::ISS => "ISS"@,
                StationName::Mir => "Mir"@,
            }),
    {
        match self {
            StationName::ISS => "ISS".to_owned(),
            StationName::Mir => "Mir".to_owned(),
        }
    }
}

/// A station: its name and its modules, in the order by which they are addressed.
pub struct Station {
    pub name: StationName,
    pub modules: Vec<Module>,
}

/// What a day on the station brought.
#[derive(Debug)]
pub enum StationTickMessage {
    NothingToReport,
    /// The modules that broke on this day, as they are after it, in station order.
    ModulesBroke(Vec<Module>),
    LostStation,
}

/// How many modules of `s` satisfy `p`.
pub open spec fn count_where(s: Seq<Module>, p: spec_fn(Module) -> bool) -> int
    decreases s.len(),
{
    if s.len() == 0 {
        0
    } else {
        count_where(s.drop_last(), p) + if p(s.last()) { 1int } else { 0int }
    }
}

/// Working modules of kind `t`.
pub open spec fn operational_of(s: Seq<Module>, t: ModuleType) -> int {
    count_where(s, |m: Module| m.module_type == t && !m.broken)
}

/// Broken modules of kind `t`.
pub open spec fn broken_of(s: Seq<Module>, t: ModuleType) -> int {
    count_where(s, |m: Module| m.module_type == t && m.broken)
}

/// All modules of kind `t`.
pub open spec fn total_of(s: Seq<Module>, t: ModuleType) -> int {
    count_where(s, |m: Module| m.module_type == t)
}

/// All working modules.
pub open spec fn operational(s: Seq<Module>) -> int {
    count_where(s, |m: Module| !m.broken)
}

/// The safety rule: the working modules that are not solar cells number at
/// most twice the working solar cells.
pub open spec fn is_safe(s: Seq<Module>) -> bool {
    operational(s) - operational_of(s, ModuleType::SolarCell) <= 2 * operational_of(
        s,
        ModuleType::SolarCell,
    )
}

/// Every module after one day, each with its own draw.
pub open spec fn modules_after_tick(s: Seq<Module>, days: int, draws: Seq<u32>) -> Seq<Module> {
    Seq::new(s.len(), |i: int| module_after_tick(s[i], days, draws[i]))
}

/// The modules that went from working to broken between `before` and
/// `after`, as they are in `after`, in order.
pub open spec fn broke_list(before: Seq<Module>, after: Seq<Module>) -> Seq<Module>
    decreases before.len(),
{
    if before.len() == 0 {
        seq![]
    } else {
        let n = (before.len() - 1) as int;
        let rest = broke_list(before.take(n), after.take(n));
        if newly_broken(before[n], after[n]) {
            rest.push(after[n])
        } else {
            rest
        }
    }
}

/// The report owed for a day that took the modules from `before` to `after`:
/// the list of modules that broke if there is any, and only otherwise the
/// verdict of the safety rule.
pub open spec fn report_is(r: StationTickMessage, before: Seq<Module>, after: Seq<Module>) -> bool {
    let broke = broke_list(before, after);
    match r {
        StationTickMessage::ModulesBroke(v) => broke.len() > 0 && v@ == broke,
        StationTickMessage::LostStation => broke.len() == 0 && !is_safe(after),
        StationTickMessage::NothingToReport => broke.len() == 0 && is_safe(after),
    }
}

/// A working module of kind `t` with no bias.
pub open spec fn fresh(t: ModuleType) -> Module {
    Module { module_type: t, breakdown_bias: 0, broken: false }
}

/// Draws of the add trial at or above this value add a module.
pub const ADD_THRESHOLD: u32 = 200_000;

/// The number of trials, each of which may add a module to a new station.
pub const ADD_TRIALS: u32 = 6;

/// The station's modules before the corrective solar cells: one habitation,
/// one transceiver, one science lab and one solar cell, then the extra kinds.
pub open spec fn seeded_modules(extra: Seq<ModuleType>) -> Seq<Module> {
    seq![
        fresh(ModuleType::Habitation),
        fresh(ModuleType::Transceiver),
        fresh(ModuleType::ScienceLab),
        fresh(ModuleType::SolarCell),
    ] + extra.map_values(|t: ModuleType| fresh(t))
}

/// `2 * solar cells - other modules` over all modules.
pub open spec fn solar_margin(s: Seq<Module>) -> int {
    let solar = total_of(s, ModuleType::SolarCell);
    2 * solar - (s.len() - solar)
}

/// How many solar cells the corrective step appends to a margin: none above
/// 2, else the fewest that bring it above 2, each adding 2.
pub open spec fn solar_fill(margin: int) -> int {
    if margin > 2 {
        0
    } else {
        (2 - margin) / 2 + 1
    }
}

/// The modules of a station generated with the given extra kinds.
pub open spec fn generated_modules(extra: Seq<ModuleType>) -> Seq<Module> {
    let seeded = seeded_modules(extra);
    seeded + Seq::new(solar_fill(solar_margin(seeded)) as nat, |i: int| fresh(ModuleType::SolarCell))
}

/// Counting over a sequence one longer than a prefix adds that one element.
pub proof fn lemma_count_step(s: Seq<Module>, i: int, p: spec_fn(Module) -> bool)
    requires
        0 <= i < s.len(),
    ensures
        count_where(s.take(i + 1), p) == count_where(s.take(i), p) + if p(s[i]) { 1int } else { 0int },
{
    assert(s.take(i + 1).drop_last() =~= s.take(i));
}

/// A count lies between zero and the length.
pub proof fn lemma_count_bounds(s: Seq<Module>, p: spec_fn(Module) -> bool)
    ensures
        0 <= count_where(s, p) <= s.len(),
    decreases s.len(),
{
    if s.len() > 0 {
        lemma_count_bounds(s.drop_last(), p);
    }
}

/// Counting over a concatenation adds the two counts.
pub proof fn lemma_count_append(a: Seq<Module>, b: Seq<Module>, p: spec_fn(Module) -> bool)
    ensures
        count_where(a + b, p) == count_where(a, p) + count_where(b, p),
    decreases b.len(),
{
    if b.len() == 0 {
        assert(a + b =~= a);
    } else {
        lemma_count_append(a, b.drop_last(), p);
        assert((a + b).drop_last() =~= a + b.drop_last());
    }
}

/// Two predicates that agree on every element give the same count.
pub proof fn lemma_count_agree(s: Seq<Module>, p: spec_fn(Module) -> bool, q: spec_fn(Module) -> bool)
    requires
        forall|i: int| 0 <= i < s.len() ==> p(s[i]) == q(s[i]),
    ensures
        count_where(s, p) == count_where(s, q),
    decreases s.len(),
{
    if s.len() > 0 {
        lemma_count_agree(s.drop_last(), p, q);
    }
}

/// A predicate that holds of every element counts the whole length.
pub proof fn lemma_count_all(s: Seq<Module>, p: spec_fn(Module) -> bool)
    requires
        forall|i: int| 0 <= i < s.len() ==> p(s[i]),
    ensures
        count_where(s, p) == s.len(),
    decreases s.len(),
{
    if s.len() > 0 {
        lemma_count_all(s.drop_last(), p);
    }
}

/// For every kind, the working modules of that kind and the broken ones
/// together are all the modules of that kind.
pub proof fn operational_plus_broken_is_total(s: Seq<Module>, t: ModuleType)
    ensures
        operational_of(s, t) + broken_of(s, t) == total_of(s, t),
    decreases s.len(),
{
    if s.len() > 0 {
        operational_plus_broken_is_total(s.drop_last(), t);
    }
}

/// Every station that generation can produce, whatever the extra kinds
/// drawn, satisfies the safety rule, with a solar margin of at least 3.
pub proof fn generated_station_is_safe(extra: Seq<ModuleType>)
    ensures
        is_safe(generated_modules(extra)),
        solar_margin(generated_modules(extra)) >= 3,
{
    let seeded = seeded_modules(extra);
    let n = solar_fill(solar_margin(seeded));
    let fill = Seq::new(n as nat, |i: int| fresh(ModuleType::SolarCell));
    let g = generated_modules(extra);
    assert(g == seeded + fill);
    let solar = |m: Module| m.module_type == ModuleType::SolarCell;
    let solar_op = |m: Module| m.module_type == ModuleType::SolarCell && !m.broken;
    let working = |m: Module| !m.broken;
    assert forall|i: int| 0 <= i < g.len() implies !g[i].broken by {
        if i >= seeded.len() {
            assert(g[i] == fill[i - seeded.len()]);
        } else if i >= 4 {
            assert(g[i] == seeded[i]);
            assert(seeded[i] == fresh(extra[i - 4]));
        }
    }
    lemma_count_all(g, working);
    lemma_count_agree(g, solar_op, solar);
    lemma_count_append(seeded, fill, solar);
    lemma_count_all(fill, solar);
    assert(operational(g) == g.len());
    assert(operational_of(g, ModuleType::SolarCell) == total_of(g, ModuleType::SolarCell));
    assert(total_of(g, ModuleType::SolarCell) == total_of(seeded, ModuleType::SolarCell) + n);
}

impl Station {
    pub fn new(name: StationName, modules: Vec<Module>) -> (r: Station)
        ensures
            r.name == name,
            r.modules@ == modules@,
    {
        Station { name, modules }
    }

    /// The number of working modules of the given kind.
    pub fn get_operational_modules_count(&self, module_type: ModuleType) -> (r: i32)
        requires
            self.modules.len() <= i32::MAX,
        ensures
            r == operational_of(self.modules@, module_type),
    {
        let ghost s = self.modules@;
        let ghost p = |m: Module| m.module_type == module_type && !m.broken;
        let mut count: i32 = 0;
        let mut i: usize = 0;
        while i < self.modules.len()
            invariant
                s == self.modules@,
                s.len() <= i32::MAX,
                p == (|m: Module| m.module_type == module_type && !m.broken),
                i <= s.len(),
                count == count_where(s.take(i as int), p),
            decreases s.len() - i,
        {
            proof {
                lemma_count_step(s, i as int, p);
                lemma_count_bounds(s.take(i as int), p);
            }
            let m = self.modules[i];
            if m.module_type == module_type && !m.broken {
                count = count + 1;
            }
            i = i + 1;
        }
        assert(s.take(i as int) =~= s);
        count
    }

    /// The number of working modules of any kind.
    pub fn get_operational_modules_on_station(&self) -> (r: i32)
        requires
            self.modules.len() <= i32::MAX,
        ensures
            r == operational(self.modules@),
    {
        let ghost s = self.modules@;
        let ghost p = |m: Module| !m.broken;
        let mut count: i32 = 0;
        let mut i: usize = 0;
        while i < self.modules.len()
            invariant
                s == self.modules@,
                s.len() <= i32::MAX,
                p == (|m: Module| !m.broken),
                i <= s.len(),
                count == count_where(s.take(i as int), p),
            decreases s.len() - i,
        {
            proof {
                lemma_count_step(s, i as int, p);
                lemma_count_bounds(s.take(i as int), p);
            }
            if !self.modules[i].broken {
                count = count + 1;
            }
            i = i + 1;
        }
        assert(s.take(i as int) =~= s);
        count
    }

    /// Whether the working modules other than solar cells number at most
    /// twice the working solar cells.
    pub fn station_safe(&self) -> (r: bool)
        requires
            self.modules.len() <= i32::MAX,
        ensures
            r == is_safe(self.modules@),
    {
        let solar = self.get_operational_modules_count(ModuleType::SolarCell) as i64;
        let all = self.get_operational_modules_on_station() as i64;
        all - solar <= 2 * solar
    }

    /// One day on the station, with `draws[i]` standing for the random value
    /// of module `i` (unused where that module is already broken). Every
    /// module takes its day in order; if any broke, they are reported, and
    /// the safety rule is checked only on a day when none broke.
    pub fn tick_with(&mut self, days_survived: i32, draws: &Vec<u32>) -> (r: StationTickMessage)
        requires
            days_survived >= 0,
            old(self).modules.len() <= i32::MAX,
            draws.len() == old(self).modules.len(),
            forall|i: int| 0 <= i < draws.len() ==> draws[i] < DRAW_SCALE,
        ensures
            final(self).name == old(self).name,
            final(self).modules@ == modules_after_tick(
                old(self).modules@,
                days_survived as int,
                draws@,
            ),
            report_is(r, old(self).modules@, final(self).modules@),
    {
        let ghost before = self.modules@;
        let ghost after = modules_after_tick(before, days_survived as int, draws@);
        let mut broke: Vec<Module> = Vec::new();
        let mut i: usize = 0;
        while i < self.modules.len()
            invariant
                before == old(self).modules@,
                after == modules_after_tick(before, days_survived as int, draws@),
                self.name == old(self).name,
                self.modules.len() == before.len(),
                draws.len() == before.len(),
                before.len() <= i32::MAX,
                days_survived >= 0,
                forall|j: int| 0 <= j < draws.len() ==> draws[j] < DRAW_SCALE,
                i <= before.len(),
                forall|j: int| 0 <= j < i ==> self.modules@[j] == after[j],
                forall|j: int| i <= j < before.len() ==> self.modules@[j] == before[j],
                broke@ == broke_list(before.take(i as int), after.take(i as int)),
            decreases before.len() - i,
        {
            let mut m = self.modules[i];
            let newly = m.tick_with(days_survived, draws[i]);
            self.modules.set(i, m);
            if newly {
                broke.push(m);
            }
            proof {
                let k = i as int;
                assert(before.take(k + 1).take(k) =~= before.take(k));
                assert(after.take(k + 1).take(k) =~= after.take(k));
                assert(before.take(k + 1)[k] == before[k]);
                assert(after.take(k + 1)[k] == after[k]);
            }
            i = i + 1;
        }
        assert(self.modules@ =~= after);
        assert(before.take(i as int) =~= before);
        assert(after.take(i as int) =~= after);
        if broke.len() > 0 {
            return StationTickMessage::ModulesBroke(broke);
        }
        if !self.station_safe() {
            StationTickMessage::LostStation
        } else {
            StationTickMessage::NothingToReport
        }
    }

    /// One day on the station with fresh random draws; a broken module is
    /// skipped before anything is drawn for it.
    pub fn tick(&mut self, days_survived: i32) -> (r: StationTickMessage)
        requires
            days_survived >= 0,
            old(self).modules.len() <= i32::MAX,
        ensures
            final(self).name == old(self).name,
            exists|draws: Seq<u32>|
                #![trigger modules_after_tick(old(self).modules@, days_survived as int, draws)]
                draws.len() == old(self).modules.len()
                && (forall|i: int| 0 <= i < draws.len() ==> draws[i] < DRAW_SCALE)
                && final(self).modules@ == modules_after_tick(
                    old(self).modules@,
                    days_survived as int,
                    draws,
                ),
            report_is(r, old(self).modules@, final(self).modules@),
    {
        let mut draws: Vec<u32> = Vec::new();
        let mut i: usize = 0;
        while i < self.modules.len()
            invariant
                draws.len() == i,
                i <= self.modules.len(),
                forall|j: int| 0 <= j < draws.len() ==> draws[j] < DRAW_SCALE,
            decreases self.modules.len() - i,
        {
            if self.modules[i].broken {
                draws.push(0);
            } else {
                draws.push(draw_below(DRAW_SCALE));
            }
            i = i + 1;
        }
        let r = self.tick_with(days_survived, &draws);
        r
    }

    /// The station that generation yields once the extra kinds are drawn:
    /// one habitation, one transceiver, one science lab and one solar cell,
    /// then a module of each extra kind, then as many solar cells as it takes
    /// to bring `2 * solar cells - other modules` above 2. Every module is
    /// working and has no bias. The bound on `extra` keeps the station's
    /// counts within `i32`.
    pub fn build_station(name: StationName, extra: &Vec<ModuleType>) -> (r: Station)
        requires
            extra.len() <= 1_000_000_000,
        ensures
            r.name == name,
            r.modules@ == generated_modules(extra@),
            r.modules.len() <= i32::MAX,
            is_safe(r.modules@),
    {
        let mut v: Vec<Module> = vec![
            Module::new(ModuleType::Habitation, 0, false),
            Module::new(ModuleType::Transceiver, 0, false),
            Module::new(ModuleType::ScienceLab, 0, false),
            Module::new(ModuleType::SolarCell, 0, false),
        ];
        assert(v@ =~= seeded_modules(extra@.take(0)));
        let mut i: usize = 0;
        while i < extra.len()
            invariant
                i <= extra.len(),
                v@ == seeded_modules(extra@.take(i as int)),
            decreases extra.len() - i,
        {
            v.push(Module::new(extra[i], 0, false));
            i = i + 1;
            assert(v@ =~= seeded_modules(extra@.take(i as int)));
        }
        assert(extra@.take(i as int) =~= extra@);
        let ghost seeded = v@;
        let ghost solar_p = |m: Module| m.module_type == ModuleType::SolarCell;
        let mut solar: i64 = 0;
        let mut j: usize = 0;
        while j < v.len()
            invariant
                v@ == seeded,
                seeded.len() <= 1_000_000_004,
                solar_p == (|m: Module| m.module_type == ModuleType::SolarCell),
                j <= seeded.len(),
                solar == count_where(seeded.take(j as int), solar_p),
            decreases seeded.len() - j,
        {
            proof {
                lemma_count_step(seeded, j as int, solar_p);
                lemma_count_bounds(seeded.take(j as int), solar_p);
            }
            if v[j].module_type == ModuleType::SolarCell {
                solar = solar + 1;
            }
            j = j + 1;
        }
        assert(seeded.take(j as int) =~= seeded);
        proof {
            lemma_count_bounds(seeded, solar_p);
        }
        let other: i64 = v.len() as i64 - solar;
        let mut delta: i64 = 2 * solar - other;
        let ghost margin = delta as int;
        let ghost fill = solar_fill(margin);
        let ghost k: int = 0;
        assert(margin == solar_margin(seeded));
        while delta <= 2
            invariant
                margin == solar_margin(seeded),
                fill == solar_fill(margin),
                -1_000_000_004 <= margin,
                0 <= k <= fill,
                delta == margin + 2 * k,
                v@ == seeded + Seq::new(k as nat, |i: int| fresh(ModuleType::SolarCell)),
                seeded.len() <= 1_000_000_004,
            decreases fill - k,
        {
            v.push(Module::new(ModuleType::SolarCell, 0, false));
            delta = delta + 2;
            proof {
                k = k + 1;
            }
            assert(v@ =~= seeded + Seq::new(k as nat, |i: int| fresh(ModuleType::SolarCell)));
        }
        assert(k == fill);
        proof {
            generated_station_is_safe(extra@);
        }
        Station::new(name, v)
    }

    /// A freshly generated station: six trials, each of which adds a working
    /// module of a random kind when its draw is at least 0.2, then the
    /// corrective solar cells, under a random name. It is always safe.
    pub fn get_random_station() -> (r: Station)
        ensures
            exists|extra: Seq<ModuleType>|
                #![trigger generated_modules(extra)]
                extra.len() <= ADD_TRIALS && r.modules@ == generated_modules(extra),
            r.modules.len() >= 4,
            r.modules.len() <= i32::MAX,
            is_safe(r.modules@),
    {
        let mut extra: Vec<ModuleType> = Vec::new();
        let mut t: u32 = 0;
        while t < ADD_TRIALS
            invariant
                t <= ADD_TRIALS,
                extra.len() <= t,
            decreases ADD_TRIALS - t,
        {
            let draw = draw_below(DRAW_SCALE);
            if draw >= ADD_THRESHOLD {
                extra.push(ModuleType::random());
            }
            t = t + 1;
        }
        let name = StationName::random();
        let r = Station::build_station(name, &extra);
        r
    }
}

impl Default for Station {
    /// The ISS with a solar cell, a habitation, a science lab and a second
    /// solar cell, all working and without bias.
    fn default() -> (r: Station)
        ensures
            r.name == StationName::ISS,
            r.modules@ == seq![
                fresh(ModuleType::SolarCell),
                fresh(ModuleType::Habitation),
                fresh(ModuleType::ScienceLab),
                fresh(ModuleType::SolarCell),
            ],
    {
        let v = vec![
            Module::new(ModuleType::SolarCell, 0, false),
            Module::new(ModuleType::Habitation, 0, false),
            Module::new(ModuleType::ScienceLab, 0, false),
            Module::new(ModuleType::SolarCell, 0, false),
        ];
        assert(v@ =~= seq![
            fresh(ModuleType::SolarCell),
            fresh(ModuleType::Habitation),
            fresh(ModuleType::ScienceLab),
            fresh(ModuleType::SolarCell),
        ]);
        Station::new(StationName::ISS, v)
    }
}

} // verus!
