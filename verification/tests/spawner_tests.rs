use rustycs_macroquad_demo::spawner::BodySpawner;

// Scenario: single-type spawner, target 3, offset 0, cooldown 0.1 s, clock
// ticking every 0.1 s: it emits at t = 0.1, 0.2, 0.3 s, each entity at the
// exact prototype location, and reports not eligible (exhausted) at t = 0.4 s.
#[test]
fn single_type_scenario_three_emissions() {
    let mut sp: BodySpawner<u64> = BodySpawner::new_single_type(7, 3, 100_000, 0);

    for tick in 1u64..=3 {
        let t = tick * 100_000;
        assert!(sp.is_spawnable(t));
        let emitted = sp.spawn(t);
        assert_eq!(emitted.body, 7);
        assert_eq!(emitted.offset_x, 0);
        assert_eq!(emitted.offset_y, 0);
    }

    assert!(!sp.is_spawnable(400_000));
    assert!(sp.is_exhausted());
    assert_eq!(sp.remaining(), 0);
}

// A single-type spawner with target K emits exactly K entities over time and
// then never emits again, however many further eligible ticks it sees.
#[test]
fn single_type_emits_exactly_target_count() {
    let mut sp: BodySpawner<u32> = BodySpawner::new_single_type(9, 5, 100_000, 0);
    let mut emissions: u32 = 0;

    for tick in 1u64..=50 {
        let t = tick * 100_000;
        if sp.is_spawnable(t) {
            let emitted = sp.spawn(t);
            assert_eq!(emitted.body, 9);
            emissions += 1;
        }
    }

    assert_eq!(emissions, 5);
    assert!(sp.is_exhausted());
    assert!(!sp.is_spawnable(u64::MAX));
}

// A pipeline spawner with an authored sequence of length N emits exactly N
// entities in reverse-of-authoring order, then reports not eligible forever.
#[test]
fn pipeline_emits_in_reverse_authoring_order() {
    let authored: Vec<i32> = vec![1, 2, 3, 4];
    let mut sp: BodySpawner<i32> = BodySpawner::new_pipeline(authored, 100_000);
    let mut seen: Vec<i32> = Vec::new();

    let mut t: u64 = 100_000;
    while sp.is_spawnable(t) {
        let emitted = sp.spawn(t);
        assert_eq!(emitted.offset_x, 0);
        assert_eq!(emitted.offset_y, 0);
        seen.push(emitted.body);
        t += 100_000;
    }

    assert_eq!(seen, vec![4, 3, 2, 1]);
    assert!(sp.is_exhausted());
    assert!(!sp.is_spawnable(u64::MAX));
}

#[test]
fn spawner_cooldown_paces_emissions() {
    let mut sp: BodySpawner<u8> = BodySpawner::new_single_type(1, 10, 100_000, 0);
    // the cooldown has never fired, so the spawner is eligible at once
    assert!(sp.is_spawnable(0));
    sp.spawn(0);
    // within the period: not eligible, although supply remains
    assert!(!sp.is_spawnable(50_000));
    assert_eq!(sp.remaining(), 9);
    // one full period later: eligible again
    assert!(sp.is_spawnable(100_000));
}

#[test]
fn single_type_with_zero_target_starts_exhausted() {
    let sp: BodySpawner<u64> = BodySpawner::new_single_type(1, 0, 100_000, 0);
    assert!(sp.is_exhausted());
    assert!(!sp.is_spawnable(0));
    assert_eq!(sp.remaining(), 0);
}

#[test]
fn empty_pipeline_starts_exhausted() {
    let sp: BodySpawner<u64> = BodySpawner::new_pipeline(Vec::new(), 100_000);
    assert!(sp.is_exhausted());
    assert!(!sp.is_spawnable(0));
    assert_eq!(sp.remaining(), 0);
}

#[test]
fn remaining_counts_down_one_per_emission() {
    let mut sp: BodySpawner<u16> = BodySpawner::new_single_type(3, 4, 0, 0);
    assert_eq!(sp.remaining(), 4);
    for expected in [3usize, 2, 1, 0] {
        assert!(sp.is_spawnable(0));
        sp.spawn(0);
        assert_eq!(sp.remaining(), expected);
    }
    assert!(sp.is_exhausted());
}

// With a positive offset, every reported jitter displacement stays within
// [-offset, +offset] on both axes.
#[test]
fn jitter_displacements_stay_within_offset() {
    let mut sp: BodySpawner<u64> = BodySpawner::new_single_type(1, 100, 0, 5);
    for _ in 0..100 {
        assert!(sp.is_spawnable(0));
        let emitted = sp.spawn(0);
        assert_eq!(emitted.body, 1);
        assert!(-5 <= emitted.offset_x && emitted.offset_x <= 5);
        assert!(-5 <= emitted.offset_y && emitted.offset_y <= 5);
    }
    assert!(sp.is_exhausted());
}

#[test]
fn pipeline_of_one_is_exhausted_after_its_emission() {
    let mut sp: BodySpawner<&'static str> = BodySpawner::new_pipeline(vec!["only"], 0);
    assert!(!sp.is_exhausted());
    let emitted = sp.spawn(0);
    assert_eq!(emitted.body, "only");
    assert!(sp.is_exhausted());
    assert!(!sp.is_spawnable(0));
}
