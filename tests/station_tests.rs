use station_keeper::module::{Module, ModuleType, BIAS_SCALE, DRAW_SCALE};
use station_keeper::player::{ActionError, Player, ScienceTerm, PIPS_PER_DAY};
use station_keeper::station::{Station, StationName, StationTickMessage};

fn working(t: ModuleType) -> Module {
    Module::new(t, 0, false)
}

fn broken(t: ModuleType) -> Module {
    Module::new(t, 1234, true)
}

#[test]
fn volatility_per_kind() {
    assert_eq!(ModuleType::SolarCell.value(), 2);
    assert_eq!(ModuleType::Habitation.value(), 1);
    assert_eq!(ModuleType::ScienceLab.value(), 4);
    assert_eq!(ModuleType::Transceiver.value(), 1);
}

#[test]
fn kind_and_station_names() {
    assert_eq!(ModuleType::SolarCell.to_string(), "Solar Cell");
    assert_eq!(ModuleType::Habitation.to_string(), "Habitation");
    assert_eq!(ModuleType::ScienceLab.to_string(), "Science Lab");
    assert_eq!(ModuleType::Transceiver.to_string(), "Transceiver");
    assert_eq!(StationName::ISS.to_string(), "ISS");
    assert_eq!(StationName::Mir.to_string(), "Mir");
}

#[test]
fn break_chance_modifier_steps_every_three_days() {
    let m = working(ModuleType::Habitation);
    assert_eq!(m.get_break_chance_modifier(0), 1);
    assert_eq!(m.get_break_chance_modifier(1), 1);
    assert_eq!(m.get_break_chance_modifier(3), 1);
    assert_eq!(m.get_break_chance_modifier(4), 2);
    assert_eq!(m.get_break_chance_modifier(6), 2);
    assert_eq!(m.get_break_chance_modifier(7), 3);
}

#[test]
fn tick_with_accumulates_bias() {
    // r = 0.5 on a science lab: bias grows by 0.5 * 0.4 = 0.2
    let mut m = working(ModuleType::ScienceLab);
    assert!(!m.tick_with(0, 500_000));
    assert_eq!(m.breakdown_bias, 2_000_000);
    assert!(!m.broken);
}

#[test]
fn tick_with_breaks_when_scaled_draw_below_bias() {
    // bias 0.05, day 4 divides the draw by 2: 0.0999 / 2 < 0.05
    let mut m = Module::new(ModuleType::Habitation, 500_000, false);
    assert!(m.tick_with(4, 99_900));
    assert!(m.broken);
    assert_eq!(m.breakdown_bias, 500_000);
    // 0.1 / 2 == 0.05 is not below the bias: the module survives
    let mut n = Module::new(ModuleType::Habitation, 500_000, false);
    assert!(!n.tick_with(4, 100_000));
    assert_eq!(n.breakdown_bias, 600_000);
}

#[test]
fn broken_module_is_frozen_under_ticks() {
    let mut m = Module::new(ModuleType::SolarCell, 777, true);
    for day in 0..20 {
        assert!(!m.tick(day));
        assert!(!m.tick_with(day, 0));
        assert!(m.broken);
        assert_eq!(m.breakdown_bias, 777);
    }
}

#[test]
fn random_tick_breaks_a_module_past_certain_failure() {
    // a bias of 1.0 exceeds every draw in [0, 1)
    let mut m = Module::new(ModuleType::Transceiver, BIAS_SCALE, false);
    assert!(m.tick(1));
    assert!(m.broken);
    assert_eq!(m.breakdown_bias, BIAS_SCALE);
}

#[test]
fn random_tick_on_fresh_module_grows_bias_within_volatility() {
    let mut m = working(ModuleType::ScienceLab);
    assert!(!m.tick(0));
    assert!(m.breakdown_bias < (DRAW_SCALE as u64) * 4);
}

#[test]
fn repair_resets_any_state() {
    let mut m = Module::new(ModuleType::ScienceLab, 9_000_000, true);
    m.repair();
    assert_eq!(m, Module::new(ModuleType::ScienceLab, 0, false));
    let mut n = Module::new(ModuleType::Habitation, 300, false);
    n.repair();
    assert_eq!(n, Module::new(ModuleType::Habitation, 0, false));
}

#[test]
fn default_module_is_fresh() {
    let m = Module::default();
    assert_eq!(m.breakdown_bias, 0);
    assert!(!m.broken);
}

#[test]
fn one_solar_cell_cannot_carry_three_habitations() {
    let st = Station::new(
        StationName::ISS,
        vec![
            working(ModuleType::SolarCell),
            working(ModuleType::Habitation),
            working(ModuleType::Habitation),
            working(ModuleType::Habitation),
        ],
    );
    assert_eq!(st.get_operational_modules_count(ModuleType::SolarCell), 1);
    assert_eq!(st.get_operational_modules_on_station(), 4);
    assert!(!st.station_safe());
}

#[test]
fn two_solar_cells_carry_two_habitations() {
    let st = Station::new(
        StationName::Mir,
        vec![
            working(ModuleType::SolarCell),
            working(ModuleType::SolarCell),
            working(ModuleType::Habitation),
            working(ModuleType::Habitation),
        ],
    );
    assert_eq!(st.get_operational_modules_count(ModuleType::SolarCell), 2);
    assert_eq!(st.get_operational_modules_on_station(), 4);
    assert!(st.station_safe());
}

#[test]
fn no_working_solar_cell_is_unsafe() {
    let st = Station::new(
        StationName::ISS,
        vec![broken(ModuleType::SolarCell), working(ModuleType::Transceiver)],
    );
    assert!(!st.station_safe());
    let empty_load = Station::new(StationName::ISS, vec![broken(ModuleType::SolarCell)]);
    assert!(empty_load.station_safe());
}

#[test]
fn operational_and_broken_counts_add_up() {
    let st = Station::new(
        StationName::ISS,
        vec![
            working(ModuleType::SolarCell),
            broken(ModuleType::SolarCell),
            working(ModuleType::ScienceLab),
            broken(ModuleType::ScienceLab),
            broken(ModuleType::ScienceLab),
            working(ModuleType::Habitation),
        ],
    );
    let kinds = [
        ModuleType::SolarCell,
        ModuleType::Habitation,
        ModuleType::ScienceLab,
        ModuleType::Transceiver,
    ];
    for t in kinds {
        let total = st.modules.iter().filter(|m| m.module_type == t).count() as i32;
        let down = st.modules.iter().filter(|m| m.module_type == t && m.broken).count() as i32;
        assert_eq!(st.get_operational_modules_count(t) + down, total);
    }
    assert_eq!(st.get_operational_modules_count(ModuleType::ScienceLab), 1);
    assert_eq!(st.get_operational_modules_count(ModuleType::Transceiver), 0);
    assert_eq!(st.get_operational_modules_on_station(), 3);
}

#[test]
fn breakage_is_reported_before_loss() {
    // two habitations break and leave one solar cell against three working
    // modules that are not solar cells: unsafe, yet the breakage is reported
    let mut st = Station::new(
        StationName::ISS,
        vec![
            working(ModuleType::SolarCell),
            Module::new(ModuleType::Habitation, 5_000_000, false),
            Module::new(ModuleType::Habitation, 5_000_000, false),
            working(ModuleType::Habitation),
            working(ModuleType::Habitation),
            working(ModuleType::Transceiver),
        ],
    );
    let draws = vec![0, 10_000, 20_000, 0, 0, 0];
    match st.tick_with(1, &draws) {
        StationTickMessage::ModulesBroke(v) => {
            assert_eq!(v.len(), 2);
            assert!(v.iter().all(|m| m.broken && m.module_type == ModuleType::Habitation));
        }
        _ => panic!("expected the broken modules to be reported"),
    }
    assert!(!st.station_safe());
    // the next day nothing new breaks, and the loss shows
    match st.tick_with(1, &draws) {
        StationTickMessage::LostStation => {}
        _ => panic!("expected the station to be lost"),
    }
}

#[test]
fn quiet_day_on_safe_station_reports_nothing() {
    let mut st = Station::default();
    let draws = vec![100, 200, 300, 400];
    match st.tick_with(0, &draws) {
        StationTickMessage::NothingToReport => {}
        _ => panic!("expected nothing to report"),
    }
    assert_eq!(st.modules[0].breakdown_bias, 200);
    assert_eq!(st.modules[1].breakdown_bias, 200);
    assert_eq!(st.modules[2].breakdown_bias, 1200);
    assert_eq!(st.modules[3].breakdown_bias, 800);
}

#[test]
fn already_broken_modules_are_not_reported_again() {
    let mut st = Station::new(
        StationName::Mir,
        vec![
            working(ModuleType::SolarCell),
            working(ModuleType::SolarCell),
            broken(ModuleType::Habitation),
        ],
    );
    let draws = vec![0, 0, 0];
    match st.tick_with(2, &draws) {
        StationTickMessage::NothingToReport => {}
        _ => panic!("expected nothing to report"),
    }
    assert_eq!(st.modules[2], broken(ModuleType::Habitation));
}

#[test]
fn default_station_layout() {
    let st = Station::default();
    assert_eq!(st.name, StationName::ISS);
    assert_eq!(
        st.modules,
        vec![
            working(ModuleType::SolarCell),
            working(ModuleType::Habitation),
            working(ModuleType::ScienceLab),
            working(ModuleType::SolarCell),
        ]
    );
    assert!(st.station_safe());
}

#[test]
fn build_station_adds_corrective_solar_cells() {
    let extra = vec![ModuleType::Habitation; 6];
    let st = Station::build_station(StationName::Mir, &extra);
    // one solar cell against nine others: margin -7, five more solar cells
    assert_eq!(st.modules.len(), 15);
    assert_eq!(st.get_operational_modules_count(ModuleType::SolarCell), 6);
    assert!(st.modules[10..].iter().all(|m| *m == working(ModuleType::SolarCell)));
    assert!(st.station_safe());
    assert_eq!(st.name, StationName::Mir);
}

#[test]
fn build_station_without_extras() {
    let st = Station::build_station(StationName::ISS, &Vec::new());
    // one solar cell against three others: margin -1, two more solar cells
    assert_eq!(
        st.modules,
        vec![
            working(ModuleType::Habitation),
            working(ModuleType::Transceiver),
            working(ModuleType::ScienceLab),
            working(ModuleType::SolarCell),
            working(ModuleType::SolarCell),
            working(ModuleType::SolarCell),
        ]
    );
}

#[test]
fn build_station_with_enough_solar_adds_none() {
    let extra = vec![ModuleType::SolarCell; 3];
    let st = Station::build_station(StationName::ISS, &extra);
    // four solar cells against three others: margin 5
    assert_eq!(st.modules.len(), 7);
}

#[test]
fn random_stations_are_safe() {
    for _ in 0..200 {
        let st = Station::get_random_station();
        assert!(st.station_safe());
        assert!(st.modules.len() >= 4);
        assert_eq!(st.modules[0], working(ModuleType::Habitation));
        assert_eq!(st.modules[1], working(ModuleType::Transceiver));
        assert_eq!(st.modules[2], working(ModuleType::ScienceLab));
        assert_eq!(st.modules[3], working(ModuleType::SolarCell));
        let solar = st.get_operational_modules_count(ModuleType::SolarCell);
        let other = st.modules.len() as i32 - solar;
        assert!(2 * solar - other >= 3);
        assert!(st.modules.iter().all(|m| !m.broken && m.breakdown_bias == 0));
    }
}

#[test]
fn new_player_starts_fresh() {
    let p = Player::new(String::from("yuri"), Station::default());
    assert_eq!(p.name, "yuri");
    assert_eq!(p.days_survived, 0);
    assert_eq!(p.pips_left_today, PIPS_PER_DAY);
    assert!(p.science_done.is_empty());
    assert!(p.has_charge());
}

#[test]
fn fix_first_module_of_random_station() {
    let mut p = Player::new(String::from("valentina"), Station::get_random_station());
    p.station.modules[0] = Module::new(ModuleType::Habitation, 4_000_000, true);
    assert_eq!(p.fix_module_at_index(0), Ok(()));
    assert_eq!(p.pips_left_today, 2);
    assert!(!p.station.modules[0].broken);
    assert_eq!(p.station.modules[0].breakdown_bias, 0);
}

#[test]
fn fix_out_of_range_is_refused() {
    let mut p = Player::new(String::from("alexei"), Station::default());
    assert_eq!(p.fix_module_at_index(4), Err(ActionError::IndexOutOfRange));
    assert_eq!(p.pips_left_today, 3);
}

#[test]
fn science_counts_working_labs() {
    let mut p = Player::new(
        String::from("sergei"),
        Station::new(
            StationName::Mir,
            vec![
                working(ModuleType::ScienceLab),
                working(ModuleType::ScienceLab),
                broken(ModuleType::ScienceLab),
                working(ModuleType::SolarCell),
            ],
        ),
    );
    p.days_survived = 2;
    let t = p.do_science();
    assert_eq!(t, ScienceTerm { day: 2, labs: 2 });
    assert_eq!(p.pips_left_today, 2);
    assert_eq!(p.science_done, vec![ScienceTerm { day: 2, labs: 2 }]);
    let before: f64 = p.science_done.iter().map(|s| s.labs as f64 * (s.day as f64).exp()).sum();
    p.do_science();
    let after: f64 = p.science_done.iter().map(|s| s.labs as f64 * (s.day as f64).exp()).sum();
    assert!(after >= before);
    assert!((after - before - 2.0 * 2f64.exp()).abs() < 1e-9);
}

#[test]
fn advancing_the_day_resets_charge() {
    let mut p = Player::new(String::from("svetlana"), Station::default());
    p.do_science();
    p.do_science();
    let draws = vec![0, 0, 0, 0];
    match p.advance_day_with(&draws) {
        StationTickMessage::NothingToReport => {}
        _ => panic!("expected nothing to report"),
    }
    assert_eq!(p.days_survived, 1);
    assert_eq!(p.pips_left_today, 3);
    p.advance_day();
    assert_eq!(p.days_survived, 2);
    assert_eq!(p.pips_left_today, 3);
}

#[test]
fn random_kinds_and_names_vary() {
    let mut kinds = Vec::new();
    let mut names = Vec::new();
    for _ in 0..400 {
        let t = ModuleType::random();
        if !kinds.contains(&t) {
            kinds.push(t);
        }
        let n = StationName::random();
        if !names.contains(&n) {
            names.push(n);
        }
    }
    assert_eq!(kinds.len(), 4);
    assert_eq!(names.len(), 2);
}
