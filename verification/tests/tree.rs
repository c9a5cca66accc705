use arbor::fixed::SCALE;
use arbor::movements::{Position, Vector3};
use arbor::settings::Settings;
use arbor::timer::Timers;
use arbor::tree::{
    clamp, drop_fruits, fruit_to_shed, get_position_around_tree, get_uniform_around,
    inmature_state_transition, map_to_effectiveness, mature, max, min, place_offsprings,
    place_tree, place_tree_test, place_tree_zero, remove_offsprings, seed_count, seed_new_trees,
    select_state, state_transition, update_offspring, update_trees, Fruit, GrowEffectiviness,
    Offspring, TreeConfig, TreeProperties, TreeState, TreeType,
};
use arbor::error::ConfigError;
use legion::systems::CommandBuffer;
use legion::{Entity, EntityStore, IntoQuery, Resources, World};

/// The fixed-point number for a decimal with at most six places.
fn fx(v: f64) -> i64 {
    (v * SCALE as f64).round() as i64
}

fn oak() -> TreeType {
    TreeType {
        name: "oak".to_string(),
        fruit_name: Some("acorn".to_string()),
        maturity_years: fx(3.0),
        blossom_start_year_time: fx(0.1),
        ripening_start_year_time: fx(0.2),
        fall_start_year_time: fx(0.5),
        sleep_start_year_time: fx(0.7),
        fertility: fx(3.0),
        fruit_amount: fx(100.0),
        growth_speed: fx(0.1),
        max_size: fx(10.0),
    }
}

fn pine() -> TreeType {
    TreeType {
        name: "pine".to_string(),
        fruit_name: None,
        maturity_years: fx(10.0),
        blossom_start_year_time: fx(0.2),
        ripening_start_year_time: fx(0.3),
        fall_start_year_time: fx(0.6),
        sleep_start_year_time: fx(0.8),
        fertility: fx(6.0),
        fruit_amount: fx(20.0),
        growth_speed: fx(0.05),
        max_size: fx(30.0),
    }
}

fn trees() -> TreeConfig {
    TreeConfig { spieces: vec![oak(), pine()] }
}

/// Two days per season, a minute per day: a year of 480 seconds.
fn settings() -> Settings {
    Settings { days_in_season: 2, day_duration: fx(60.0), climate_zone: "moderate".to_string() }
}

fn timers(time_of_year: i64, long_delta: i64) -> Timers {
    let mut timers = Timers::default();
    timers.time_of_year = time_of_year;
    timers.long.elapsed_seconds = long_delta;
    timers
}

fn tree(state: TreeState, age_years: f64, size: f64) -> TreeProperties {
    TreeProperties {
        size: fx(size),
        age: fx(age_years * 480.0),
        resources: fx(20.0),
        state,
        negative_temprature_constant_time: 0,
    }
}

fn at(x: f64, y: f64) -> Position {
    Position(Vector3::new(fx(x), fx(y), 0))
}

fn count_trees(world: &World) -> usize {
    <(&Position, &TreeType, &TreeProperties)>::query().iter(world).count()
}

fn offspring_of(world: &World, entity: Entity) -> Option<(u16, i64)> {
    let entry = world.entry_ref(entity).unwrap();
    entry.get_component::<Offspring>().ok().map(|o| (o.amount, o.maturity))
}

#[test]
fn select_state_test() {
    let trees = trees();
    assert_eq!(select_state(fx(0.0), &trees.spieces[0]), TreeState::Sleep);
    assert_eq!(select_state(fx(0.13), &trees.spieces[0]), TreeState::Blossom);
    assert_eq!(select_state(fx(0.21), &trees.spieces[0]), TreeState::Ripening);
    assert_eq!(select_state(fx(0.501), &trees.spieces[0]), TreeState::Falling);
    assert_eq!(select_state(fx(0.701), &trees.spieces[0]), TreeState::Sleep);
}

#[test]
fn check_clamp() {
    assert_eq!(clamp(fx(0.5), fx(0.0), fx(1.0)), fx(0.5));
    assert_eq!(clamp(fx(0.0), fx(0.0), fx(1.0)), fx(0.0));
    assert_eq!(clamp(fx(1.0), fx(0.0), fx(1.0)), fx(1.0));
}

#[test]
fn check_min() {
    assert_eq!(min(fx(0.5), fx(1.0)), fx(0.5));
    assert_eq!(min(fx(1.4), fx(1.0)), fx(1.0));
    assert_eq!(min(fx(1.0), fx(1.0)), fx(1.0));
}

#[test]
fn check_max() {
    assert_eq!(max(fx(0.5), fx(1.0)), fx(1.0));
    assert_eq!(max(fx(1.4), fx(1.0)), fx(1.4));
    assert_eq!(max(fx(1.0), fx(1.0)), fx(1.0));
}

#[test]
fn clamp_moves_outliers_to_the_bounds() {
    assert_eq!(clamp(fx(-0.5), fx(0.0), fx(1.0)), fx(0.0));
    assert_eq!(clamp(fx(1.5), fx(0.0), fx(1.0)), fx(1.0));
    assert_eq!(clamp(i64::MIN, -1, 1), -1);
    assert_eq!(clamp(i64::MAX, -1, 1), 1);
}

#[test]
fn select_state_at_each_boundary() {
    let oak = oak();
    assert_eq!(select_state(fx(0.1) - 1, &oak), TreeState::Sleep);
    assert_eq!(select_state(fx(0.1), &oak), TreeState::Blossom);
    assert_eq!(select_state(fx(0.2) - 1, &oak), TreeState::Blossom);
    assert_eq!(select_state(fx(0.2), &oak), TreeState::Ripening);
    assert_eq!(select_state(fx(0.5) - 1, &oak), TreeState::Ripening);
    assert_eq!(select_state(fx(0.5), &oak), TreeState::Falling);
    assert_eq!(select_state(fx(0.7) - 1, &oak), TreeState::Falling);
    assert_eq!(select_state(fx(0.7), &oak), TreeState::Sleep);
    assert_eq!(select_state(SCALE - 1, &oak), TreeState::Sleep);
}

#[test]
fn select_state_covers_the_year_before_and_after() {
    let oak = oak();
    // from one year before the start of sleep ...
    assert_eq!(select_state(fx(0.7) - SCALE, &oak), TreeState::Sleep);
    assert_eq!(select_state(-1, &oak), TreeState::Sleep);
    // ... to one year after the start of blossom
    assert_eq!(select_state(SCALE, &oak), TreeState::Sleep);
    assert_eq!(select_state(fx(0.1) + SCALE - 1, &oak), TreeState::Sleep);
}

#[test]
fn select_state_is_total_over_the_year() {
    for species in [oak(), pine()] {
        let mut t = 0;
        while t < SCALE {
            let state = select_state(t, &species);
            let expected = if t < species.blossom_start_year_time {
                TreeState::Sleep
            } else if t < species.ripening_start_year_time {
                TreeState::Blossom
            } else if t < species.fall_start_year_time {
                TreeState::Ripening
            } else if t < species.sleep_start_year_time {
                TreeState::Falling
            } else {
                TreeState::Sleep
            };
            assert_eq!(state, expected);
            assert_eq!(state_transition(t, &species), expected);
            t += 1_237;
        }
    }
}

#[test]
fn immature_trees_never_blossom() {
    let oak = oak();
    assert_eq!(inmature_state_transition(fx(0.0), &oak), TreeState::Sleep);
    assert_eq!(inmature_state_transition(fx(0.13), &oak), TreeState::Ripening);
    assert_eq!(inmature_state_transition(fx(0.21), &oak), TreeState::Ripening);
    assert_eq!(inmature_state_transition(fx(0.501), &oak), TreeState::Falling);
    assert_eq!(inmature_state_transition(fx(0.701), &oak), TreeState::Sleep);
    let mut t = 0;
    while t < SCALE {
        assert_ne!(inmature_state_transition(t, &oak), TreeState::Blossom);
        t += 997;
    }
}

#[test]
fn species_validation() {
    assert!(oak().is_well_formed());
    assert!(pine().is_well_formed());
    let mut disordered = oak();
    disordered.fall_start_year_time = fx(0.15);
    assert!(!disordered.is_well_formed());
    let mut equal = oak();
    equal.ripening_start_year_time = equal.blossom_start_year_time;
    assert!(!equal.is_well_formed());
    let mut late = oak();
    late.sleep_start_year_time = SCALE;
    assert!(!late.is_well_formed());
    let mut early = oak();
    early.blossom_start_year_time = -1;
    assert!(!early.is_well_formed());
    let mut flat = oak();
    flat.max_size = 0;
    assert!(!flat.is_well_formed());
    let mut from_zero = oak();
    from_zero.blossom_start_year_time = 0;
    assert!(from_zero.is_well_formed());
}

#[test]
fn config_validation_names_the_first_malformed_species() {
    assert_eq!(trees().validate(), Ok(()));
    assert_eq!(TreeConfig { spieces: vec![] }.validate(), Ok(()));
    let mut bad = pine();
    bad.sleep_start_year_time = fx(0.5);
    let mut worse = oak();
    worse.max_size = -1;
    let config = TreeConfig { spieces: vec![oak(), bad, worse] };
    assert_eq!(config.validate(), Err(ConfigError::MalformedSpecies { species: 1 }));
}

#[test]
fn offspring_amount_follows_the_size() {
    let oak = oak();
    let set = oak.offspring(&tree(TreeState::Blossom, 5.0, 5.0));
    assert_eq!((set.amount, set.maturity), (50, 0));
    let set = oak.offspring(&tree(TreeState::Blossom, 5.0, 10.0));
    assert_eq!(set.amount, 100);
    let set = oak.offspring(&tree(TreeState::Blossom, 5.0, 0.0));
    assert_eq!(set.amount, 0);
    // rounded down: 100 * 3.33 / 10 = 33.3
    let set = oak.offspring(&tree(TreeState::Blossom, 5.0, 3.33));
    assert_eq!(set.amount, 33);
    // 100 * 0.099999 / 10 is just short of one fruit
    let set = oak.offspring(&tree(TreeState::Blossom, 5.0, 0.099999));
    assert_eq!(set.amount, 0);
}

#[test]
fn offspring_amount_is_kept_within_u16() {
    let mut oak = oak();
    oak.fruit_amount = fx(1_000_000.0);
    let set = oak.offspring(&tree(TreeState::Blossom, 5.0, 10.0));
    assert_eq!(set.amount, u16::MAX);
    let mut shrunk = tree(TreeState::Blossom, 5.0, 0.0);
    shrunk.size = fx(-4.0);
    let set = oak.offspring(&shrunk);
    assert_eq!(set.amount, 0);
    oak.fruit_amount = i64::MAX;
    let mut huge = tree(TreeState::Blossom, 5.0, 0.0);
    huge.size = i64::MAX;
    assert_eq!(oak.offspring(&huge).amount, u16::MAX);
}

#[test]
fn effectiveness_follows_the_curve() {
    let effectiveness = GrowEffectiviness {
        starting_temp: fx(0.0),
        ending_temp: fx(40.0),
        distribution: vec![fx(0.0), fx(1.0), fx(0.5)],
    };
    assert_eq!(map_to_effectiveness(fx(0.0), &effectiveness), fx(0.0));
    assert_eq!(map_to_effectiveness(fx(10.0), &effectiveness), fx(0.5));
    assert_eq!(map_to_effectiveness(fx(20.0), &effectiveness), fx(1.0));
    assert_eq!(map_to_effectiveness(fx(30.0), &effectiveness), fx(0.75));
    assert_eq!(map_to_effectiveness(fx(40.0), &effectiveness), fx(0.5));
    // outside the range the ends of the curve hold
    assert_eq!(map_to_effectiveness(fx(-15.0), &effectiveness), fx(0.0));
    assert_eq!(map_to_effectiveness(fx(55.0), &effectiveness), fx(0.5));
    assert_eq!(map_to_effectiveness(i64::MIN, &effectiveness), fx(0.0));
    assert_eq!(map_to_effectiveness(i64::MAX, &effectiveness), fx(0.5));
}

#[test]
fn maturity_compares_years() {
    let oak = oak();
    let settings = settings();
    // three years of 480 seconds
    assert!(!mature(fx(1439.0), &oak, &settings));
    assert!(!mature(fx(1440.0) - 1, &oak, &settings));
    assert!(mature(fx(1440.0), &oak, &settings));
    assert!(mature(fx(5.0 * 480.0), &oak, &settings));
    assert!(!mature(0, &oak, &settings));
    assert!(!mature(i64::MIN, &oak, &settings));
    assert!(mature(i64::MAX, &oak, &settings));
    let mut sapling = oak;
    sapling.maturity_years = 0;
    assert!(!mature(-1, &sapling, &settings));
    assert!(mature(0, &sapling, &settings));
    // a third of a year, which no number of seconds hits
    sapling.maturity_years = 333_333;
    assert!(!mature(159_999_839, &sapling, &settings));
    assert!(mature(159_999_840, &sapling, &settings));
}

#[test]
fn draws_stay_in_their_range() {
    for _ in 0..2_000 {
        let r = get_uniform_around(fx(3.0), fx(1.0));
        assert!(fx(2.0) <= r && r < fx(4.0));
        let r = get_uniform_around(0, 5);
        assert!((-5..5).contains(&r));
        let r = get_uniform_around(-7, 1);
        assert!(r == -8 || r == -7);
    }
}

#[test]
fn draws_cover_their_range() {
    let mut seen = [false; 4];
    for _ in 0..2_000 {
        let r = get_uniform_around(10, 2);
        seen[(r - 8) as usize] = true;
    }
    assert_eq!(seen, [true; 4]);
}

#[test]
fn a_draw_from_an_empty_range_is_the_point() {
    assert_eq!(get_uniform_around(fx(3.0), 0), fx(3.0));
    assert_eq!(get_uniform_around(fx(3.0), -fx(1.0)), fx(3.0));
    assert_eq!(get_uniform_around(0, 0), 0);
    assert_eq!(get_uniform_around(i64::MAX, 0), i64::MAX);
}

#[test]
fn draws_at_the_limits_saturate() {
    for _ in 0..200 {
        let r = get_uniform_around(i64::MAX, 10);
        assert!(r >= i64::MAX - 10 && r < i64::MAX);
        let r = get_uniform_around(i64::MIN, 10);
        assert!(r < i64::MIN + 10);
        let _ = get_uniform_around(0, i64::MAX);
    }
}

#[test]
fn positions_around_a_tree_are_within_its_reach() {
    let oak = oak();
    let parent = tree(TreeState::Sleep, 5.0, 10.0);
    let center = at(100.0, -50.0);
    let mut moved = false;
    for _ in 0..500 {
        let p = get_position_around_tree(&center, &oak, &parent);
        assert!(fx(93.0) <= p.0.x && p.0.x < fx(107.0));
        assert!(fx(-57.0) <= p.0.y && p.0.y < fx(-43.0));
        assert_eq!(p.0.z, 0);
        moved = moved || p != center;
    }
    assert!(moved);
}

#[test]
fn a_tree_without_size_keeps_everything_at_its_foot() {
    let oak = oak();
    let parent = tree(TreeState::Sleep, 5.0, 0.0);
    let center = at(1.0, 2.0);
    assert_eq!(get_position_around_tree(&center, &oak, &parent), center);
}

#[test]
fn seed_count_is_the_whole_part() {
    assert_eq!(seed_count(fx(2.0)), 2);
    assert_eq!(seed_count(fx(2.999999)), 2);
    assert_eq!(seed_count(fx(3.0)), 3);
    assert_eq!(seed_count(fx(0.999999)), 0);
    assert_eq!(seed_count(0), 0);
    assert_eq!(seed_count(-1), 0);
    assert_eq!(seed_count(i64::MIN), 0);
    assert_eq!(seed_count(fx(65_535.0)), 65_535);
    assert_eq!(seed_count(fx(65_536.0)), 65_535);
    assert_eq!(seed_count(i64::MAX), 65_535);
}

#[test]
fn seeded_count_is_near_the_fertility() {
    let oak = oak();
    let parent = tree(TreeState::Falling, 5.0, 10.0);
    let center = at(0.0, 0.0);
    let mut seen = [false; 5];
    for _ in 0..200 {
        let mut world = World::default();
        let mut resources = Resources::default();
        let mut buffer = CommandBuffer::new(&world);
        seed_new_trees(&center, &parent, &oak, &mut buffer);
        let queued = buffer.len();
        buffer.flush(&mut world, &mut resources);
        let seeded = count_trees(&world);
        assert_eq!(seeded, queued);
        // fertility 3: between 3 - 1 and 3 + 1
        assert!((2..=4).contains(&seeded));
        seen[seeded] = true;
    }
    assert!(seen[2] && seen[3] && !seen[4]);
}

#[test]
fn seeds_are_seedlings_of_the_parent_species() {
    let oak = oak();
    let parent = tree(TreeState::Falling, 5.0, 10.0);
    let center = at(20.0, 30.0);
    let mut world = World::default();
    let mut resources = Resources::default();
    let mut buffer = CommandBuffer::new(&world);
    seed_new_trees(&center, &parent, &oak, &mut buffer);
    buffer.flush(&mut world, &mut resources);
    let mut query = <(&Position, &TreeType, &TreeProperties)>::query();
    let mut seen = 0;
    for (position, species, properties) in query.iter(&world) {
        assert!(fx(13.0) <= position.0.x && position.0.x < fx(27.0));
        assert!(fx(23.0) <= position.0.y && position.0.y < fx(37.0));
        assert_eq!(position.0.z, 0);
        assert_eq!(species.name, "oak");
        assert_eq!(species.fruit_name.as_deref(), Some("acorn"));
        assert_eq!(species.fertility, fx(3.0));
        assert_eq!(species.sleep_start_year_time, fx(0.7));
        assert_eq!(properties.age, 0);
        assert_eq!(properties.size, 0);
        assert_eq!(properties.resources, fx(20.0));
        assert_eq!(properties.state, TreeState::Sleep);
        assert_eq!(properties.negative_temprature_constant_time, 0);
        seen += 1;
    }
    assert!(seen >= 2);
}

#[test]
fn a_barren_species_seeds_nothing() {
    let mut barren = oak();
    barren.fertility = 0;
    let parent = tree(TreeState::Falling, 5.0, 10.0);
    let world = World::default();
    let mut buffer = CommandBuffer::new(&world);
    seed_new_trees(&at(0.0, 0.0), &parent, &barren, &mut buffer);
    assert_eq!(buffer.len(), 0);
    barren.fertility = -fx(3.0);
    seed_new_trees(&at(0.0, 0.0), &parent, &barren, &mut buffer);
    assert_eq!(buffer.len(), 0);
}

#[test]
fn place_tree_queues_one_seedling() {
    let mut world = World::default();
    let mut resources = Resources::default();
    let mut buffer = CommandBuffer::new(&world);
    place_tree(&mut buffer, at(1.0, 2.0), pine());
    assert_eq!(buffer.len(), 1);
    assert_eq!(count_trees(&world), 0);
    buffer.flush(&mut world, &mut resources);
    assert_eq!(buffer.len(), 0);
    let mut query = <(&Position, &TreeType, &TreeProperties)>::query();
    let found: Vec<_> = query.iter(&world).collect();
    assert_eq!(found.len(), 1);
    let (position, species, properties) = found[0];
    assert_eq!(*position, at(1.0, 2.0));
    assert_eq!(species.name, "pine");
    assert_eq!(species.fruit_name, None);
    assert_eq!(species.max_size, fx(30.0));
    assert_eq!((properties.age, properties.size), (0, 0));
    assert_eq!(properties.resources, fx(20.0));
    assert_eq!(properties.state, TreeState::Sleep);
}

#[test]
fn place_tree_zero_puts_a_seedling_at_the_origin() {
    let mut world = World::default();
    place_tree_zero(&mut world, &trees());
    let mut query = <(&Position, &TreeType, &TreeProperties)>::query();
    let found: Vec<_> = query.iter(&world).collect();
    assert_eq!(found.len(), 1);
    let (position, species, properties) = found[0];
    assert!(position.is_zero());
    assert_eq!(species.name, "oak");
    assert_eq!(species.growth_speed, fx(0.1));
    assert_eq!((properties.age, properties.size), (0, 0));
    assert_eq!(properties.resources, fx(20.0));
    assert_eq!(properties.state, TreeState::Sleep);
    place_tree_zero(&mut world, &trees());
    assert_eq!(count_trees(&world), 2);
}

#[test]
fn place_tree_test_puts_a_grown_tree_at_the_origin() {
    let mut world = World::default();
    place_tree_test(&mut world, &trees(), at(5.0, 5.0), fx(2400.0), fx(10.0));
    let mut query = <(&Position, &TreeType, &TreeProperties)>::query();
    let found: Vec<_> = query.iter(&world).collect();
    assert_eq!(found.len(), 1);
    let (position, species, properties) = found[0];
    assert!(position.is_zero());
    assert_eq!(species.name, "oak");
    assert_eq!(properties.age, fx(2400.0));
    assert_eq!(properties.size, fx(10.0));
    assert_eq!(properties.resources, fx(20.0));
    assert_eq!(properties.state, TreeState::Sleep);
}

#[test]
fn offspring_are_attached_and_detached_at_the_barrier() {
    let mut world = World::default();
    let mut resources = Resources::default();
    let oak = oak();
    let props = tree(TreeState::Blossom, 5.0, 5.0);
    let entity = world.push((at(0.0, 0.0), oak.clone(), tree(TreeState::Blossom, 5.0, 5.0)));
    let mut buffer = CommandBuffer::new(&world);
    place_offsprings(&entity, &props, &oak, &mut buffer);
    assert_eq!(offspring_of(&world, entity), None);
    buffer.flush(&mut world, &mut resources);
    assert_eq!(offspring_of(&world, entity), Some((50, 0)));
    remove_offsprings(&entity, &mut buffer);
    assert_eq!(offspring_of(&world, entity), Some((50, 0)));
    buffer.flush(&mut world, &mut resources);
    assert_eq!(offspring_of(&world, entity), None);
    assert_eq!(count_trees(&world), 1);
}

#[test]
fn changes_apply_in_the_order_queued() {
    let mut world = World::default();
    let mut resources = Resources::default();
    let oak = oak();
    let entity = world.push((at(0.0, 0.0), oak.clone(), tree(TreeState::Blossom, 5.0, 5.0)));
    let mut buffer = CommandBuffer::new(&world);
    remove_offsprings(&entity, &mut buffer);
    place_offsprings(&entity, &tree(TreeState::Blossom, 5.0, 2.0), &oak, &mut buffer);
    buffer.flush(&mut world, &mut resources);
    assert_eq!(offspring_of(&world, entity), Some((20, 0)));
    place_offsprings(&entity, &tree(TreeState::Blossom, 5.0, 3.0), &oak, &mut buffer);
    remove_offsprings(&entity, &mut buffer);
    buffer.flush(&mut world, &mut resources);
    assert_eq!(offspring_of(&world, entity), None);
}

#[test]
fn shed_count_grows_with_the_square_of_the_excess() {
    // nothing up to a maturity of 0.7
    assert_eq!(fruit_to_shed(1000, fx(0.0)), 0);
    assert_eq!(fruit_to_shed(1000, fx(0.7)), 0);
    assert_eq!(fruit_to_shed(1000, -fx(2.0)), 0);
    // u = (0.85 - 0.7) / 0.3 / 10 = 0.05, 1000 * u * u = 2.5
    assert_eq!(fruit_to_shed(1000, fx(0.85)), 2);
    // u = 0.1 / 0.3 / 10, 1000 * u * u = 1.11
    assert_eq!(fruit_to_shed(1000, fx(0.8)), 1);
    // from a maturity of 1.0 on: a hundredth
    assert_eq!(fruit_to_shed(1000, fx(1.0)), 10);
    assert_eq!(fruit_to_shed(1000, fx(1.6)), 10);
    assert_eq!(fruit_to_shed(1000, i64::MAX), 10);
    assert_eq!(fruit_to_shed(u16::MAX, fx(1.0)), 655);
    assert_eq!(fruit_to_shed(99, fx(1.0)), 0);
    assert_eq!(fruit_to_shed(100, fx(1.0)), 1);
    assert_eq!(fruit_to_shed(0, fx(1.0)), 0);
}

#[test]
fn fruit_is_shed_around_the_tree() {
    let mut world = World::default();
    let mut resources = Resources::default();
    let oak = oak();
    let props = tree(TreeState::Falling, 5.0, 10.0);
    let mut offspring = Offspring { amount: 1000, maturity: fx(1.0) };
    let mut buffer = CommandBuffer::new(&world);
    drop_fruits(&at(50.0, 50.0), &oak, &props, &mut offspring, &mut buffer);
    assert_eq!(offspring.amount, 990);
    assert_eq!(offspring.maturity, fx(1.0));
    assert_eq!(buffer.len(), 10);
    buffer.flush(&mut world, &mut resources);
    let mut query = <(&Fruit, &Position)>::query();
    let mut seen = 0;
    for (fruit, position) in query.iter(&world) {
        assert_eq!(fruit.name, "acorn");
        assert!(fx(43.0) <= position.0.x && position.0.x < fx(57.0));
        assert!(fx(43.0) <= position.0.y && position.0.y < fx(57.0));
        assert_eq!(position.0.z, 0);
        seen += 1;
    }
    assert_eq!(seen, 10);
    assert_eq!(count_trees(&world), 0);
}

#[test]
fn unripe_or_spent_offspring_shed_nothing() {
    let world = World::default();
    let oak = oak();
    let props = tree(TreeState::Ripening, 5.0, 10.0);
    let mut buffer = CommandBuffer::new(&world);
    let mut unripe = Offspring { amount: 1000, maturity: fx(0.7) };
    drop_fruits(&at(0.0, 0.0), &oak, &props, &mut unripe, &mut buffer);
    assert_eq!((unripe.amount, unripe.maturity), (1000, fx(0.7)));
    let mut spent = Offspring { amount: 0, maturity: fx(1.0) };
    drop_fruits(&at(0.0, 0.0), &oak, &props, &mut spent, &mut buffer);
    assert_eq!(spent.amount, 0);
    let mut few = Offspring { amount: 99, maturity: fx(1.0) };
    drop_fruits(&at(0.0, 0.0), &oak, &props, &mut few, &mut buffer);
    assert_eq!(few.amount, 99);
    assert_eq!(buffer.len(), 0);
}

#[test]
fn a_species_without_fruit_sheds_nothing() {
    let world = World::default();
    let pine = pine();
    let props = tree(TreeState::Falling, 15.0, 10.0);
    let mut offspring = Offspring { amount: 1000, maturity: fx(1.0) };
    let mut buffer = CommandBuffer::new(&world);
    drop_fruits(&at(0.0, 0.0), &pine, &props, &mut offspring, &mut buffer);
    assert_eq!(offspring.amount, 1000);
    assert_eq!(buffer.len(), 0);
}

#[test]
fn holding_never_increases_while_fruiting() {
    let world = World::default();
    let oak = oak();
    let props = tree(TreeState::Ripening, 5.0, 10.0);
    let mut buffer = CommandBuffer::new(&world);
    let mut offspring = oak.offspring(&props);
    assert_eq!(offspring.amount, 100);
    offspring.amount = 5000;
    let mut last = offspring.amount;
    let mut shed = 0;
    let mut year_time = fx(0.2);
    while year_time < fx(0.7) {
        update_offspring(&oak, &mut offspring, &timers(year_time, fx(5.0)));
        assert_eq!(offspring.amount, last);
        drop_fruits(&at(0.0, 0.0), &oak, &props, &mut offspring, &mut buffer);
        assert!(offspring.amount <= last);
        shed += (last - offspring.amount) as usize;
        last = offspring.amount;
        year_time += fx(0.01);
    }
    assert!(last < 5000);
    assert_eq!(buffer.len(), shed);
}

#[test]
fn offspring_maturity_is_the_place_in_the_ripening_window() {
    let oak = oak();
    let mut offspring = Offspring { amount: 7, maturity: 0 };
    update_offspring(&oak, &mut offspring, &timers(fx(0.2), 0));
    assert_eq!((offspring.amount, offspring.maturity), (7, fx(0.0)));
    update_offspring(&oak, &mut offspring, &timers(fx(0.35), 0));
    assert_eq!(offspring.maturity, fx(0.5));
    update_offspring(&oak, &mut offspring, &timers(fx(0.5), 0));
    assert_eq!(offspring.maturity, fx(1.0));
    // through the fall the maturity goes on rising
    update_offspring(&oak, &mut offspring, &timers(fx(0.65), 0));
    assert_eq!(offspring.maturity, fx(1.5));
    // before the window it is negative, and rounded down
    update_offspring(&oak, &mut offspring, &timers(fx(0.1), 0));
    assert_eq!(offspring.maturity, -333_334);
    update_offspring(&oak, &mut offspring, &timers(fx(0.3), 0));
    assert_eq!(offspring.maturity, 333_333);
    assert_eq!(offspring.amount, 7);
}

fn step(
    world: &World,
    entity: &Entity,
    species: &TreeType,
    properties: &mut TreeProperties,
    time: &Timers,
) -> CommandBuffer {
    let mut buffer = CommandBuffer::new(world);
    update_trees(entity, species, properties, &at(0.0, 0.0), &mut buffer, time, &settings());
    buffer
}

#[test]
fn a_tree_ages_and_takes_the_phase_of_the_year() {
    let mut world = World::default();
    let oak = oak();
    let entity = world.push((at(0.0, 0.0), oak.clone(), tree(TreeState::Sleep, 5.0, 5.0)));
    let mut props = tree(TreeState::Sleep, 5.0, 5.0);
    let buffer = step(&world, &entity, &oak, &mut props, &timers(fx(0.05), fx(5.0)));
    assert_eq!(props.age, fx(5.0 * 480.0 + 5.0));
    assert_eq!(props.state, TreeState::Sleep);
    assert_eq!(props.size, fx(5.0));
    assert_eq!(props.resources, fx(20.0));
    assert_eq!(props.negative_temprature_constant_time, 0);
    assert_eq!(buffer.len(), 0);
    let buffer = step(&world, &entity, &oak, &mut props, &timers(fx(0.13), fx(5.0)));
    assert_eq!(props.age, fx(5.0 * 480.0 + 10.0));
    assert_eq!(props.state, TreeState::Blossom);
    assert_eq!(buffer.len(), 0);
}

#[test]
fn a_tree_grows_while_it_blossoms_and_ripens() {
    let mut world = World::default();
    let oak = oak();
    let entity = world.push((at(0.0, 0.0), oak.clone(), tree(TreeState::Sleep, 5.0, 5.0)));
    for (year_time, grows) in
        [(fx(0.05), false), (fx(0.13), true), (fx(0.21), true), (fx(0.501), false), (fx(0.701), false)]
    {
        for old in [TreeState::Sleep, TreeState::Ripening] {
            let mut props = tree(old, 5.0, 5.0);
            step(&world, &entity, &oak, &mut props, &timers(year_time, fx(5.0)));
            // growth speed 0.1 per second over 5 seconds
            assert_eq!(props.size, if grows { fx(5.5) } else { fx(5.0) });
        }
    }
}

#[test]
fn growth_stops_above_the_size_limit() {
    let mut world = World::default();
    let oak = oak();
    let entity = world.push((at(0.0, 0.0), oak.clone(), tree(TreeState::Sleep, 5.0, 5.0)));
    // at the limit a tree still grows once
    let mut props = tree(TreeState::Ripening, 5.0, 10.0);
    step(&world, &entity, &oak, &mut props, &timers(fx(0.21), fx(5.0)));
    assert_eq!(props.size, fx(10.5));
    step(&world, &entity, &oak, &mut props, &timers(fx(0.21), fx(5.0)));
    assert_eq!(props.size, fx(10.5));
    let mut props = tree(TreeState::Ripening, 5.0, 10.000001);
    step(&world, &entity, &oak, &mut props, &timers(fx(0.21), fx(5.0)));
    assert_eq!(props.size, fx(10.000001));
}

#[test]
fn a_young_tree_ripens_through_the_blossom() {
    let mut world = World::default();
    let oak = oak();
    let entity = world.push((at(0.0, 0.0), oak.clone(), tree(TreeState::Sleep, 1.0, 1.0)));
    let mut props = tree(TreeState::Sleep, 1.0, 1.0);
    let buffer = step(&world, &entity, &oak, &mut props, &timers(fx(0.13), fx(5.0)));
    assert_eq!(props.state, TreeState::Ripening);
    assert_eq!(props.size, fx(1.5));
    assert_eq!(buffer.len(), 0);
    let buffer = step(&world, &entity, &oak, &mut props, &timers(fx(0.21), fx(5.0)));
    assert_eq!(props.state, TreeState::Ripening);
    // it never was in blossom, so it sets no offspring
    assert_eq!(buffer.len(), 0);
}

#[test]
fn a_tree_sets_offspring_on_passing_from_blossom_to_ripening() {
    let mut world = World::default();
    let mut resources = Resources::default();
    let oak = oak();
    let entity = world.push((at(0.0, 0.0), oak.clone(), tree(TreeState::Blossom, 5.0, 5.0)));
    let mut props = tree(TreeState::Blossom, 5.0, 5.0);
    let mut buffer = step(&world, &entity, &oak, &mut props, &timers(fx(0.21), fx(5.0)));
    assert_eq!(props.state, TreeState::Ripening);
    assert_eq!(buffer.len(), 1);
    buffer.flush(&mut world, &mut resources);
    // by the size before this step's growth: 100 * 5 / 10
    assert_eq!(offspring_of(&world, entity), Some((50, 0)));
    assert_eq!(props.size, fx(5.5));
}

#[test]
fn a_mature_tree_seeds_on_passing_from_fall_to_sleep() {
    for _ in 0..50 {
        let mut world = World::default();
        let mut resources = Resources::default();
        let oak = oak();
        let entity = world.push((
            at(0.0, 0.0),
            oak.clone(),
            tree(TreeState::Falling, 5.0, 10.0),
            Offspring { amount: 40, maturity: fx(1.6) },
        ));
        let mut props = tree(TreeState::Falling, 5.0, 10.0);
        let mut buffer = step(&world, &entity, &oak, &mut props, &timers(fx(0.701), fx(5.0)));
        assert_eq!(props.state, TreeState::Sleep);
        assert_eq!(props.size, fx(10.0));
        let queued = buffer.len();
        assert!(queued == 3 || queued == 4);
        buffer.flush(&mut world, &mut resources);
        assert_eq!(offspring_of(&world, entity), None);
        assert_eq!(count_trees(&world), queued);
    }
}

#[test]
fn a_young_tree_loses_its_offspring_without_seeding() {
    let mut world = World::default();
    let mut resources = Resources::default();
    let oak = oak();
    let entity = world.push((
        at(0.0, 0.0),
        oak.clone(),
        tree(TreeState::Falling, 1.0, 10.0),
        Offspring { amount: 40, maturity: fx(1.6) },
    ));
    let mut props = tree(TreeState::Falling, 1.0, 10.0);
    let mut buffer = step(&world, &entity, &oak, &mut props, &timers(fx(0.701), fx(5.0)));
    assert_eq!(props.state, TreeState::Sleep);
    assert_eq!(buffer.len(), 1);
    buffer.flush(&mut world, &mut resources);
    assert_eq!(offspring_of(&world, entity), None);
    assert_eq!(count_trees(&world), 1);
}

#[test]
fn a_tree_matures_by_the_age_it_reaches_in_the_step() {
    let mut world = World::default();
    let oak = oak();
    let entity = world.push((at(0.0, 0.0), oak.clone(), tree(TreeState::Sleep, 3.0, 1.0)));
    // a millionth of a second short of three years: not yet mature
    let mut props = tree(TreeState::Sleep, 3.0, 1.0);
    props.age -= 2;
    step(&world, &entity, &oak, &mut props, &timers(fx(0.13), 1));
    assert_eq!(props.state, TreeState::Ripening);
    // with the next millionth it is
    step(&world, &entity, &oak, &mut props, &timers(fx(0.13), 1));
    assert_eq!(props.state, TreeState::Blossom);
    assert_eq!(props.age, fx(3.0 * 480.0));
}

#[test]
fn age_and_size_saturate() {
    let mut world = World::default();
    let oak = oak();
    let entity = world.push((at(0.0, 0.0), oak.clone(), tree(TreeState::Sleep, 3.0, 1.0)));
    let mut props = tree(TreeState::Sleep, 3.0, 1.0);
    props.age = i64::MAX - 1;
    step(&world, &entity, &oak, &mut props, &timers(fx(0.21), fx(5.0)));
    assert_eq!(props.age, i64::MAX);
    let mut fast = oak.clone();
    fast.growth_speed = i64::MAX;
    fast.max_size = i64::MAX;
    let mut props = tree(TreeState::Sleep, 5.0, 1.0);
    props.size = i64::MAX - 1;
    step(&world, &entity, &fast, &mut props, &timers(fx(0.21), fx(5.0)));
    assert_eq!(props.size, i64::MAX);
}

#[test]
fn a_cloned_species_equals_its_source() {
    let oak = oak();
    let copy = oak.clone();
    assert_eq!(copy.name, oak.name);
    assert_eq!(copy.fruit_name, oak.fruit_name);
    assert_eq!(copy.maturity_years, oak.maturity_years);
    assert_eq!(copy.blossom_start_year_time, oak.blossom_start_year_time);
    assert_eq!(copy.ripening_start_year_time, oak.ripening_start_year_time);
    assert_eq!(copy.fall_start_year_time, oak.fall_start_year_time);
    assert_eq!(copy.sleep_start_year_time, oak.sleep_start_year_time);
    assert_eq!(copy.fertility, oak.fertility);
    assert_eq!(copy.fruit_amount, oak.fruit_amount);
    assert_eq!(copy.growth_speed, oak.growth_speed);
    assert_eq!(copy.max_size, oak.max_size);
    assert_eq!(pine().clone().fruit_name, None);
}
