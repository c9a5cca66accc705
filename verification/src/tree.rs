//! The life cycle of a tree: the phase of the year it is in, its growth,
//! its offspring, the fruit it sheds and the trees it seeds.
use legion::systems::CommandBuffer;
use legion::{Entity, World};
use rand::distributions::{Distribution, Uniform};
use vstd::prelude::*;
use crate::error::ConfigError;
use crate::fixed::{
    div_floor, lemma_product_fits, minus, over, plus, product, quotient, saturate, saturated,
    times, SCALE,
};
use crate::interpolations::{lerp_map, lerp_value};
use crate::movements::{Position, Vector3};
use crate::settings::Settings;
use crate::store::{
    push_tree, queue_attach, queue_detach, queue_fruit, queue_tree, queued, trees, Edit, Planted,
};
use crate::timer::Timers;

verus! {

/// How well a species grows by temperature: a curve over the range from
/// `starting_temp` to `ending_temp`.
pub struct GrowEffectiviness {
    pub starting_temp: i64,
    pub ending_temp: i64,
    pub distribution: Vec<i64>,
}

/// The fruit or offspring that a tree holds and has not yet released.  A
/// tree is fruiting exactly while it has this.
pub struct Offspring {
    pub amount: u16,
    /// How far the year is through the ripening window; `1.0` at its end.
    pub maturity: i64,
}

/// A fruit that a tree has shed.
pub struct Fruit {
    pub name: String,
}

/// The larger of the two.
pub fn max(v: i64, bound: i64) -> (r: i64)
    ensures
        r == if v > bound { v } else { bound },
{
    if v > bound {
        v
    } else {
        bound
    }
}

/// The smaller of the two.
pub fn min(v: i64, bound: i64) -> (r: i64)
    ensures
        r == if v < bound { v } else { bound },
{
    if v < bound {
        v
    } else {
        bound
    }
}

/// `v`, moved into the range from `minimun` to `maximum`.
pub fn clamp(v: i64, minimun: i64, maximum: i64) -> (r: i64)
    ensures
        r == clamped(v as int, minimun as int, maximum as int),
{
    max(min(v, maximum), minimun)
}

/// `v` cut down to `maximum`, then raised to `minimun`.
pub open spec fn clamped(v: int, minimun: int, maximum: int) -> int {
    let cut = if v < maximum { v } else { maximum };
    if cut > minimun { cut } else { minimun }
}

/// One kind of tree.  The four phase starts are fractions of the year and
/// divide it, cyclically, into blossom, ripening, fall and sleep.
pub struct TreeType {
    pub name: String,
    pub fruit_name: Option<String>,
    /// The age, in years, from which a tree blossoms and seeds.
    pub maturity_years: i64,
    pub blossom_start_year_time: i64,
    pub ripening_start_year_time: i64,
    pub fall_start_year_time: i64,
    pub sleep_start_year_time: i64,
    /// How many trees a tree seeds in a year, on average.
    pub fertility: i64,
    /// How much fruit a tree of full size bears.
    pub fruit_amount: i64,
    /// Growth in size per second.
    pub growth_speed: i64,
    pub max_size: i64,
}

impl Clone for TreeType {
    fn clone(&self) -> (r: Self)
        ensures
            r == *self,
    {
        TreeType {
            name: self.name.clone(),
            fruit_name: match &self.fruit_name {
                Some(fruit) => Some(fruit.clone()),
                None => None,
            },
            maturity_years: self.maturity_years,
            blossom_start_year_time: self.blossom_start_year_time,
            ripening_start_year_time: self.ripening_start_year_time,
            fall_start_year_time: self.fall_start_year_time,
            sleep_start_year_time: self.sleep_start_year_time,
            fertility: self.fertility,
            fruit_amount: self.fruit_amount,
            growth_speed: self.growth_speed,
            max_size: self.max_size,
        }
    }
}

/// The phase of its yearly cycle that a tree is in.
#[derive(Clone, Copy, Debug, PartialEq, Eq, Structural)]
pub enum TreeState {
    Sleep,
    Blossom,
    Ripening,
    Falling,
}

/// The mutable state of one tree.
pub struct TreeProperties {
    pub size: i64,
    /// Accumulated real seconds.
    pub age: i64,
    pub resources: i64,
    pub state: TreeState,
    pub negative_temprature_constant_time: i64,
}

/// The whole number of fruit that a yield of `fruit_amount` at full size
/// comes to at `size`: `fruit_amount * size / max_size`, rounded down and
/// kept within `u16`.
pub open spec fn fruit_count(fruit_amount: int, size: int, max_size: int) -> int {
    clamped((fruit_amount * size) / (max_size * SCALE), 0, u16::MAX as int)
}

/// The offspring that a tree of the given size sets: its share of the
/// species' yield, still unripe.
pub open spec fn fruit_set(tree: &TreeType, size: i64) -> Offspring {
    Offspring {
        amount: fruit_count(tree.fruit_amount as int, size as int, tree.max_size as int) as u16,
        maturity: 0,
    }
}

impl TreeType {
    /// The phase starts are in order and within the year.
    pub open spec fn has_ordered_phases(&self) -> bool {
        0 <= self.blossom_start_year_time < self.ripening_start_year_time
            < self.fall_start_year_time < self.sleep_start_year_time < SCALE
    }

    /// A species that the life cycle can run on.
    pub open spec fn is_valid(&self) -> bool {
        &&& self.has_ordered_phases()
        &&& self.max_size > 0
    }

    /// Decides [`TreeType::is_valid`].
    pub fn is_well_formed(&self) -> (ok: bool)
        ensures
            ok == self.is_valid(),
    {
        0 <= self.blossom_start_year_time && self.blossom_start_year_time
            < self.ripening_start_year_time && self.ripening_start_year_time
            < self.fall_start_year_time && self.fall_start_year_time < self.sleep_start_year_time
            && self.sleep_start_year_time < SCALE && self.max_size > 0
    }

    /// The offspring that a tree of this species sets at its present size,
    /// still unripe.
    pub fn offspring(&self, props: &TreeProperties) -> (r: Offspring)
        requires
            self.is_valid(),
        ensures
            r == fruit_set(self, props.size),
    {
        proof {
            lemma_product_fits(self.fruit_amount as int, props.size as int);
            lemma_product_fits(self.max_size as int, SCALE as int);
            assert(self.max_size * SCALE > 0) by (nonlinear_arith)
                requires
                    self.max_size > 0,
                    SCALE == 1_000_000,
            ;
        }
        let yield_by_size: i128 = (self.fruit_amount as i128) * (props.size as i128);
        let full: i128 = (self.max_size as i128) * (SCALE as i128);
        let amount: i128 = div_floor(yield_by_size, full);
        let amount: u16 = if amount < 0 {
            0
        } else if amount > u16::MAX as i128 {
            u16::MAX
        } else {
            amount as u16
        };
        Offspring { amount, maturity: 0 }
    }
}

impl GrowEffectiviness {
    /// The range of temperatures is not empty and the curve can be
    /// interpolated.
    pub open spec fn is_valid(&self) -> bool {
        &&& self.starting_temp < self.ending_temp
        &&& self.distribution.len() >= 2
    }

    /// Decides [`GrowEffectiviness::is_valid`].
    pub fn is_well_formed(&self) -> (ok: bool)
        ensures
            ok == self.is_valid(),
    {
        self.starting_temp < self.ending_temp && self.distribution.len() >= 2
    }
}

/// Where `temp` lies in the range from `starting_temp` to `ending_temp`,
/// as a fraction kept within `[0, 1]`.
pub open spec fn temperature_fraction(temp: int, starting_temp: int, ending_temp: int) -> int {
    clamped(quotient(temp - starting_temp, ending_temp - starting_temp), 0, SCALE as int)
}

/// How well a species grows at `temp`: its effectiveness curve, read at
/// the place of `temp` in the curve's range of temperatures.
pub fn map_to_effectiveness(temp: i64, effectiveness: &GrowEffectiviness) -> (r: i64)
    requires
        effectiveness.is_valid(),
    ensures
        r == lerp_value(
            temperature_fraction(
                temp as int,
                effectiveness.starting_temp as int,
                effectiveness.ending_temp as int,
            ),
            effectiveness.distribution@,
        ),
{
    let above: i128 = temp as i128 - effectiveness.starting_temp as i128;
    let range: i128 = effectiveness.ending_temp as i128 - effectiveness.starting_temp as i128;
    let t: i64 = clamp(over(above, range), 0, SCALE);
    lerp_map(t, effectiveness.distribution.as_slice())
}

/// The species of a configuration.
pub struct TreeConfig {
    pub spieces: Vec<TreeType>,
}

impl TreeConfig {
    /// Every species is valid.
    pub open spec fn is_valid(&self) -> bool {
        forall|index: int| 0 <= index < self.spieces.len() ==> (#[trigger] self.spieces[index]).is_valid()
    }

    /// Accepts the configurations in which every species is valid, and
    /// names the first malformed species of the others.
    pub fn validate(&self) -> (r: Result<(), ConfigError>)
        ensures
            r is Ok <==> self.is_valid(),
            r matches Err(e) ==> exists|index: int|
                {
                    &&& 0 <= index < self.spieces.len()
                    &&& e == (ConfigError::MalformedSpecies { species: index as usize })
                    &&& !(#[trigger] self.spieces[index]).is_valid()
                    &&& forall|earlier: int|
                        0 <= earlier < index ==> (#[trigger] self.spieces[earlier]).is_valid()
                },
    {
        let mut index: usize = 0;
        while index < self.spieces.len()
            invariant
                index <= self.spieces.len(),
                forall|earlier: int|
                    0 <= earlier < index ==> (#[trigger] self.spieces[earlier]).is_valid(),
            decreases self.spieces.len() - index,
        {
            if !self.spieces[index].is_well_formed() {
                return Err(ConfigError::MalformedSpecies { species: index });
            }
            index += 1;
        }
        Ok(())
    }
}

/// The phase that the thresholds of `tree` give to the time of year `t`.
pub open spec fn phase_at(t: int, tree: &TreeType) -> TreeState {
    if t < tree.blossom_start_year_time {
        TreeState::Sleep
    } else if t < tree.ripening_start_year_time {
        TreeState::Blossom
    } else if t < tree.fall_start_year_time {
        TreeState::Ripening
    } else if t < tree.sleep_start_year_time {
        TreeState::Falling
    } else {
        TreeState::Sleep
    }
}

/// The phase of a tree too young to blossom: it ripens through the
/// blossom.
pub open spec fn immature_phase_at(t: int, tree: &TreeType) -> TreeState {
    if phase_at(t, tree) is Blossom {
        TreeState::Ripening
    } else {
        phase_at(t, tree)
    }
}

/// `t` lies in the span that the six boundaries of `tree` cover: from one
/// year before the start of sleep to one year after the start of blossom.
pub open spec fn in_cycle(t: int, tree: &TreeType) -> bool {
    tree.sleep_start_year_time - SCALE <= t < tree.blossom_start_year_time + SCALE
}

/// Every time of the year lies in the cycle of a species with ordered
/// phases, so phase selection is total on `[0, 1)`.
pub proof fn lemma_year_in_cycle(t: int, tree: &TreeType)
    requires
        tree.has_ordered_phases(),
        0 <= t < SCALE,
    ensures
        in_cycle(t, tree),
{
}

/// Phase selection: finds which two of the six boundaries bracket `t`.
pub fn select_state(t: i64, tree: &TreeType) -> (r: TreeState)
    requires
        tree.has_ordered_phases(),
        in_cycle(t as int, tree),
    ensures
        r == phase_at(t as int, tree),
{
    let thresholds: [i64; 6] = [
        tree.sleep_start_year_time - SCALE,
        tree.blossom_start_year_time,
        tree.ripening_start_year_time,
        tree.fall_start_year_time,
        tree.sleep_start_year_time,
        tree.blossom_start_year_time + SCALE,
    ];
    let mut i: usize = 0;
    while i < thresholds.len() - 1
        invariant
            i <= 5,
            tree.has_ordered_phases(),
            thresholds@ == seq![
                (tree.sleep_start_year_time - SCALE) as i64,
                tree.blossom_start_year_time,
                tree.ripening_start_year_time,
                tree.fall_start_year_time,
                tree.sleep_start_year_time,
                (tree.blossom_start_year_time + SCALE) as i64,
            ],
            thresholds@[i as int] <= t,
            t < thresholds@[5],
        decreases 5 - i,
    {
        let lower = thresholds[i];
        let upper = thresholds[i + 1];
        if t >= lower && t < upper {
            return match i {
                0 => TreeState::Sleep,
                1 => TreeState::Blossom,
                2 => TreeState::Ripening,
                3 => TreeState::Falling,
                _ => TreeState::Sleep,
            };
        }
        i += 1;
    }
    // not reached: `t` lies below the last boundary
    TreeState::Sleep
}

/// The phase of a mature tree at the time of year `year_time`.
pub fn state_transition(year_time: i64, tree: &TreeType) -> (r: TreeState)
    requires
        tree.has_ordered_phases(),
        in_cycle(year_time as int, tree),
    ensures
        r == phase_at(year_time as int, tree),
{
    select_state(year_time, tree)
}

/// The phase of an immature tree at the time of year `year_time`: never
/// blossom.
pub fn inmature_state_transition(year_time: i64, tree: &TreeType) -> (r: TreeState)
    requires
        tree.has_ordered_phases(),
        in_cycle(year_time as int, tree),
    ensures
        r == immature_phase_at(year_time as int, tree),
        !(r is Blossom),
{
    match select_state(year_time, tree) {
        TreeState::Blossom => TreeState::Ripening,
        state => state,
    }
}

/// A tree too young to blossom is never given the blossom phase.
pub proof fn lemma_immature_never_blossoms(t: int, tree: &TreeType)
    ensures
        !(immature_phase_at(t, tree) is Blossom),
{
}

/// The state of a tree of a given age and size that has just been placed:
/// asleep, with resources of `20.0`.
pub open spec fn placed(age: i64, size: i64) -> TreeProperties {
    TreeProperties {
        age,
        resources: 20_000_000,
        size,
        state: TreeState::Sleep,
        negative_temprature_constant_time: 0,
    }
}

/// The state of a tree that has just been seeded: placed with no age and
/// no size.
pub open spec fn seedling() -> TreeProperties {
    placed(0, 0)
}

impl TreeProperties {
    /// The state of a tree of a given age and size that has just been
    /// placed.
    pub fn new(age: i64, size: i64) -> (r: TreeProperties)
        ensures
            r == placed(age, size),
    {
        TreeProperties {
            age,
            resources: 20 * SCALE,
            size,
            state: TreeState::Sleep,
            negative_temprature_constant_time: 0,
        }
    }
}

/// Puts a seedling of the first species at the origin.
pub fn place_tree_zero(world: &mut World, tc: &TreeConfig)
    requires
        tc.spieces.len() > 0,
    ensures
        trees(*final(world)) == trees(*old(world)).insert(
            Planted {
                position: Position(Vector3 { x: 0, y: 0, z: 0 }),
                species: tc.spieces[0],
                properties: seedling(),
            },
        ),
{
    let position = Position::zero();
    let my_tree = tc.spieces[0].clone();
    push_tree(world, position, my_tree, TreeProperties::new(0, 0));
}

/// Puts a tree of the first species, of the given age and size, at the
/// origin, whatever position is asked for.
pub fn place_tree_test(world: &mut World, tc: &TreeConfig, _p: Position, age: i64, size: i64)
    requires
        tc.spieces.len() > 0,
    ensures
        trees(*final(world)) == trees(*old(world)).insert(
            Planted {
                position: Position(Vector3 { x: 0, y: 0, z: 0 }),
                species: tc.spieces[0],
                properties: placed(age, size),
            },
        ),
{
    let position = Position::zero();
    let my_tree = tc.spieces[0].clone();
    push_tree(world, position, my_tree, TreeProperties::new(age, size));
}

/// Queues the creation of a seedling.
pub fn place_tree(pusher: &mut CommandBuffer, position: Position, my_tree: TreeType)
    ensures
        queued(*final(pusher)) == queued(*old(pusher)).push(
            Edit::Plant { position, species: my_tree, properties: seedling() },
        ),
{
    queue_tree(pusher, position, my_tree, TreeProperties::new(0, 0));
}

/// `rand::distributions::Uniform::from` makes a uniform distribution over
/// a half-open range, and panics where the range is empty; `sample` draws
/// a number of the range from it, here with the thread's generator.
#[verifier::external_body]
fn draw(low: i64, high: i64) -> (r: i64)
    requires
        low < high,
    ensures
        low <= r < high,
{
    Uniform::from(low..high).sample(&mut rand::thread_rng())
}

/// What a draw around `point` with half-width `thres` can give: a number
/// from `point - thres` up to, but not including, `point + thres`, both
/// ends saturating; and `point` itself where that range is empty.
pub open spec fn in_spread(point: int, thres: int, r: int) -> bool {
    if saturated(point - thres) < saturated(point + thres) {
        saturated(point - thres) <= r < saturated(point + thres)
    } else {
        r == point
    }
}

/// Draws a number uniformly around `point`, at most `thres` away from it.
pub fn get_uniform_around(point: i64, thres: i64) -> (r: i64)
    ensures
        in_spread(point as int, thres as int, r as int),
{
    let low = minus(point, thres);
    let high = plus(point, thres);
    if low < high {
        draw(low, high)
    } else {
        point
    }
}

/// How far from a tree of the given size its fruit and its seeds fall, at
/// most, along either axis: seven tenths of the size.
pub open spec fn reach(size: int) -> int {
    product(size, 700_000)
}

/// `from`, shifted by `dx` and `dy` on the ground.
pub open spec fn shifted(from: Position, dx: i64, dy: i64) -> Position {
    Position(from.0.sum(Vector3 { x: dx, y: dy, z: 0 }))
}

/// `place` can be drawn as a position around a tree of the given size at
/// `center`.
pub open spec fn is_around(center: Position, size: i64, place: Position) -> bool {
    exists|dx: i64, dy: i64|
        {
            &&& in_spread(0, reach(size as int), dx as int)
            &&& in_spread(0, reach(size as int), dy as int)
            &&& place == #[trigger] shifted(center, dx, dy)
        }
}

/// Draws a position around a tree, within its reach.
pub fn get_position_around_tree(
    position: &Position,
    tree_type: &TreeType,
    tree: &TreeProperties,
) -> (r: Position)
    ensures
        is_around(*position, tree.size, r),
{
    let radius = times(tree.size, 700_000);
    let dx = get_uniform_around(0, radius);
    let dy = get_uniform_around(0, radius);
    let random_shift = Position(Vector3::new(dx, dy, 0));
    let r = *position + random_shift;
    assert(r == shifted(*position, dx, dy));
    r
}

/// The whole trees that a drawn fertility comes to: the draw rounded down
/// and kept within `u16`.
pub open spec fn seed_count_of(sample: int) -> int {
    clamped(sample / (SCALE as int), 0, u16::MAX as int)
}

/// The number of trees to seed for a drawn fertility.
pub fn seed_count(sample: i64) -> (r: u16)
    ensures
        r == seed_count_of(sample as int),
{
    let whole: i128 = div_floor(sample as i128, SCALE as i128);
    if whole < 0 {
        0
    } else if whole > u16::MAX as i128 {
        u16::MAX
    } else {
        whole as u16
    }
}

/// A tree of the given fertility can seed `count` trees: some draw around
/// the fertility, at most a third of it away, comes to that number.
pub open spec fn can_seed(fertility: i64, count: int) -> bool {
    exists|sample: i64|
        in_spread(fertility as int, fertility as int / 3, sample as int) && count
            == #[trigger] seed_count_of(sample as int)
}

/// The number of trees seeded is near the fertility: it is no more than
/// the upper end of the draw's range, and less than one tree below the
/// lower end.  This holds of a fertility that is not negative and whose
/// range does not begin beyond what a `u16` counts.
pub proof fn lemma_seed_count_near_fertility(fertility: i64, count: int)
    requires
        can_seed(fertility, count),
        0 <= fertility,
        fertility - fertility / 3 - SCALE < u16::MAX * SCALE,
    ensures
        fertility - fertility / 3 - SCALE < count * SCALE <= fertility + fertility / 3,
{
    let sample = choose|sample: i64|
        in_spread(fertility as int, fertility as int / 3, sample as int) && count
            == #[trigger] seed_count_of(sample as int);
    vstd::arithmetic::div_mod::lemma_fundamental_div_mod(sample as int, SCALE as int);
    vstd::arithmetic::div_mod::lemma_mod_bound(sample as int, SCALE as int);
}

/// Where the lower end of the draw's range is a whole number of trees
/// that a `u16` counts, the number of trees seeded lies within the range:
/// from the fertility less a third of it to the fertility and a third of
/// it.
pub proof fn lemma_seed_count_within_spread(fertility: i64, count: int)
    requires
        can_seed(fertility, count),
        0 <= fertility,
        fertility - fertility / 3 <= u16::MAX * SCALE,
        (fertility - fertility / 3) % (SCALE as int) == 0,
    ensures
        fertility - fertility / 3 <= count * SCALE <= fertility + fertility / 3,
{
    let sample = choose|sample: i64|
        in_spread(fertility as int, fertility as int / 3, sample as int) && count
            == #[trigger] seed_count_of(sample as int);
    let low = fertility - fertility / 3;
    vstd::arithmetic::div_mod::lemma_fundamental_div_mod(sample as int, SCALE as int);
    vstd::arithmetic::div_mod::lemma_mod_bound(sample as int, SCALE as int);
    vstd::arithmetic::div_mod::lemma_fundamental_div_mod(low, SCALE as int);
    vstd::arithmetic::div_mod::lemma_div_is_ordered(low, sample as int, SCALE as int);
}

/// Every one of `edits` creates a seedling of the species `species`
/// around a tree of the given size at `center`.
pub open spec fn all_seedlings(
    edits: Seq<Edit>,
    center: Position,
    size: i64,
    species: TreeType,
) -> bool {
    forall|k: int|
        0 <= k < edits.len() ==> {
            &&& #[trigger] edits[k] matches Edit::Plant { position, species: kind, properties }
            &&& is_around(center, size, position)
            &&& kind == species
            &&& properties == seedling()
        }
}

/// Seeds new trees around a tree: draws their number around the species'
/// fertility, and queues the creation of each at a drawn position.
pub fn seed_new_trees(
    position: &Position,
    tree: &TreeProperties,
    tree_type: &TreeType,
    pusher: &mut CommandBuffer,
)
    ensures
        queued(*old(pusher)).is_prefix_of(queued(*final(pusher))),
        can_seed(tree_type.fertility, queued(*final(pusher)).len() - queued(*old(pusher)).len()),
        all_seedlings(
            queued(*final(pusher)).skip(queued(*old(pusher)).len() as int),
            *position,
            tree.size,
            *tree_type,
        ),
{
    let third: i64 = div_floor(tree_type.fertility as i128, 3) as i64;
    let sample = get_uniform_around(tree_type.fertility, third);
    let amount = seed_count(sample);
    let ghost before = queued(*pusher);
    let mut done: u16 = 0;
    while done < amount
        invariant
            done <= amount,
            before.is_prefix_of(queued(*pusher)),
            queued(*pusher).len() == before.len() + done,
            all_seedlings(queued(*pusher).skip(before.len() as int), *position, tree.size, *tree_type),
        decreases amount - done,
    {
        let new_position = get_position_around_tree(position, tree_type, tree);
        let ghost so_far = queued(*pusher);
        place_tree(pusher, new_position, tree_type.clone());
        proof {
            let now = queued(*pusher);
            let added = now.skip(before.len() as int);
            let earlier = so_far.skip(before.len() as int);
            assert forall|k: int| 0 <= k < added.len() implies {
                &&& #[trigger] added[k] matches Edit::Plant { position: place, species: kind, properties }
                &&& is_around(*position, tree.size, place)
                &&& kind == *tree_type
                &&& properties == seedling()
            } by {
                if k < earlier.len() {
                    assert(added[k] == earlier[k]);
                }
            }
            assert(before.is_prefix_of(now)) by {
                assert(now.subrange(0, before.len() as int) =~= so_far.subrange(
                    0,
                    before.len() as int,
                ));
            }
        }
        done += 1;
    }
}

/// Queues the attachment of the offspring that a tree sets.
pub fn place_offsprings(
    entity: &Entity,
    tree: &TreeProperties,
    tree_type: &TreeType,
    command_buffer: &mut CommandBuffer,
)
    requires
        tree_type.is_valid(),
    ensures
        queued(*final(command_buffer)) == queued(*old(command_buffer)).push(
            Edit::Attach { entity: *entity, offspring: fruit_set(tree_type, tree.size) },
        ),
{
    queue_attach(command_buffer, *entity, tree_type.offspring(tree));
}

/// Queues the removal of a tree's offspring.
pub fn remove_offsprings(entity: &Entity, command_buffer: &mut CommandBuffer)
    ensures
        queued(*final(command_buffer)) == queued(*old(command_buffer)).push(
            Edit::Detach { entity: *entity },
        ),
{
    queue_detach(command_buffer, *entity);
}

/// The fruit that a tree holding `amount` sheds in one step at the given
/// maturity.  Nothing up to a maturity of `0.7`; from there the share shed
/// grows with the square of the maturity's excess, up to a hundredth of
/// the holding from a maturity of `1.0` on.
pub open spec fn shed_count(amount: int, maturity: int) -> int {
    if maturity > 700_000 && amount > 0 {
        let excess = clamped(maturity - 700_000, 0, 300_000);
        let due = (amount * excess * excess) / 9_000_000_000_000;
        if due < amount {
            due
        } else {
            amount
        }
    } else {
        0
    }
}

/// A tree never sheds more than it holds, and never takes fruit back.
pub proof fn lemma_shed_within_holding(amount: int, maturity: int)
    requires
        0 <= amount,
    ensures
        0 <= shed_count(amount, maturity) <= amount,
{
    if maturity > 700_000 && amount > 0 {
        let excess = clamped(maturity - 700_000, 0, 300_000);
        assert(0 <= amount * excess * excess) by (nonlinear_arith)
            requires
                0 <= amount,
                0 <= excess,
        ;
        vstd::arithmetic::div_mod::lemma_div_pos_is_pos(
            amount * excess * excess,
            9_000_000_000_000,
        );
    }
}

/// Computes [`shed_count`].
pub fn fruit_to_shed(amount: u16, maturity: i64) -> (r: u16)
    ensures
        r == shed_count(amount as int, maturity as int),
        r <= amount,
{
    proof {
        lemma_shed_within_holding(amount as int, maturity as int);
    }
    if maturity > 700_000 && amount > 0 {
        let excess: i64 = clamp(saturate(maturity as i128 - 700_000), 0, 300_000);
        proof {
            assert(0 <= amount * excess <= 65_535 * 300_000 && 0 <= amount * excess * excess
                <= 65_535 * 300_000 * 300_000) by (nonlinear_arith)
                requires
                    0 <= amount <= 65_535,
                    0 <= excess <= 300_000,
            ;
        }
        let due: i64 = ((amount as i64) * excess * excess) / 9_000_000_000_000;
        if due < amount as i64 {
            due as u16
        } else {
            amount
        }
    } else {
        0
    }
}

/// Every one of `edits` creates the fruit `fruit` around a tree of the
/// given size at `center`.
pub open spec fn all_fruit(edits: Seq<Edit>, center: Position, size: i64, name: String) -> bool {
    forall|k: int|
        0 <= k < edits.len() ==> {
            &&& #[trigger] edits[k] matches Edit::Shed { fruit, position }
            &&& is_around(center, size, position)
            &&& fruit.name == name
        }
}

/// The fruit-shedding step of one fruiting tree: takes the fruit due off
/// the tree's holding and queues the creation of each at a drawn position
/// around the tree.  A species without fruit sheds nothing.
pub fn drop_fruits(
    position: &Position,
    tree_type: &TreeType,
    tree: &TreeProperties,
    offspring: &mut Offspring,
    command_buffer: &mut CommandBuffer,
)
    ensures
        final(offspring).maturity == old(offspring).maturity,
        final(offspring).amount <= old(offspring).amount,
        tree_type.fruit_name is None ==> {
            &&& final(offspring).amount == old(offspring).amount
            &&& queued(*final(command_buffer)) == queued(*old(command_buffer))
        },
        tree_type.fruit_name matches Some(name) ==> {
            &&& final(offspring).amount == old(offspring).amount - shed_count(
                old(offspring).amount as int,
                old(offspring).maturity as int,
            )
            &&& queued(*old(command_buffer)).is_prefix_of(queued(*final(command_buffer)))
            &&& queued(*final(command_buffer)).len() == queued(*old(command_buffer)).len()
                + shed_count(old(offspring).amount as int, old(offspring).maturity as int)
            &&& all_fruit(
                queued(*final(command_buffer)).skip(queued(*old(command_buffer)).len() as int),
                *position,
                tree.size,
                name,
            )
        },
{
    let ghost before = queued(*command_buffer);
    if let Some(fruit_name) = &tree_type.fruit_name {
        if offspring.maturity > 700_000 && offspring.amount > 0 {
            let amount = fruit_to_shed(offspring.amount, offspring.maturity);
            offspring.amount -= amount;
            let mut done: u16 = 0;
            while done < amount
                invariant
                    done <= amount,
                    before.is_prefix_of(queued(*command_buffer)),
                    queued(*command_buffer).len() == before.len() + done,
                    all_fruit(
                        queued(*command_buffer).skip(before.len() as int),
                        *position,
                        tree.size,
                        *fruit_name,
                    ),
                decreases amount - done,
            {
                let place = get_position_around_tree(position, tree_type, tree);
                let ghost so_far = queued(*command_buffer);
                queue_fruit(command_buffer, Fruit { name: fruit_name.clone() }, place);
                proof {
                    let now = queued(*command_buffer);
                    let added = now.skip(before.len() as int);
                    let earlier = so_far.skip(before.len() as int);
                    assert forall|k: int| 0 <= k < added.len() implies {
                        &&& #[trigger] added[k] matches Edit::Shed { fruit, position: spot }
                        &&& is_around(*position, tree.size, spot)
                        &&& fruit.name == *fruit_name
                    } by {
                        if k < earlier.len() {
                            assert(added[k] == earlier[k]);
                        }
                    }
                    assert(before.is_prefix_of(now)) by {
                        assert(now.subrange(0, before.len() as int) =~= so_far.subrange(
                            0,
                            before.len() as int,
                        ));
                    }
                }
                done += 1;
            }
        }
    }
}

/// How far the time of year `year_time` is through the ripening window of
/// `tree`: `0.0` at the start of ripening, `1.0` at the start of the fall.
pub open spec fn ripeness(year_time: int, tree: &TreeType) -> int {
    quotient(
        year_time - tree.ripening_start_year_time,
        tree.fall_start_year_time - tree.ripening_start_year_time,
    )
}

/// The offspring-maturity step of one fruiting tree.
pub fn update_offspring(tree_type: &TreeType, offspring: &mut Offspring, time: &Timers)
    requires
        tree_type.has_ordered_phases(),
    ensures
        final(offspring).maturity == ripeness(time.time_of_year as int, tree_type),
        final(offspring).amount == old(offspring).amount,
{
    let cur_time: i128 = time.time_of_year as i128 - tree_type.ripening_start_year_time as i128;
    let window: i128 = tree_type.fall_start_year_time as i128
        - tree_type.ripening_start_year_time as i128;
    let cur_time_normalized: i64 = over(cur_time, window);
    offspring.maturity = cur_time_normalized;
}

/// A tree of the given age, in real seconds, has reached the maturity age
/// of its species on the time scale of `settings`: its age in years is not
/// below `maturity_years`.
pub open spec fn is_mature(age: int, tree: &TreeType, settings: &Settings) -> bool {
    age * SCALE >= tree.maturity_years * settings.year_length()
}

/// Decides [`is_mature`].
pub fn mature(age: i64, tree: &TreeType, settings: &Settings) -> (r: bool)
    requires
        settings.is_valid(),
    ensures
        r == is_mature(age as int, tree, settings),
{
    let year: i128 = 4 * settings.wide_season_length();
    proof {
        lemma_product_fits(age as int, SCALE as int);
    }
    let years: i128 = div_floor((age as i128) * (SCALE as i128), year);
    proof {
        let a = age * SCALE;
        let m = tree.maturity_years as int;
        let y = year as int;
        let q = years as int;
        let r = a % y;
        vstd::arithmetic::div_mod::lemma_fundamental_div_mod(a, y);
        vstd::arithmetic::div_mod::lemma_mod_bound(a, y);
        assert((a >= m * y) <==> q >= m) by (nonlinear_arith)
            requires
                a == y * q + r,
                0 <= r < y,
        ;
    }
    years >= tree.maturity_years as i128
}

/// The state of a tree after one slow tick: older by the time since the
/// last slow tick, in the phase that the time of year gives to a tree of
/// its new age, and, if it is growing and not above the size limit of its
/// species, larger.
pub open spec fn stepped(
    before: TreeProperties,
    tree: &TreeType,
    time: &Timers,
    settings: &Settings,
) -> TreeProperties {
    let age = saturated(before.age + time.long.elapsed_seconds);
    let state = if is_mature(age, tree, settings) {
        phase_at(time.time_of_year as int, tree)
    } else {
        immature_phase_at(time.time_of_year as int, tree)
    };
    let size = if (state is Blossom || state is Ripening) && before.size <= tree.max_size {
        saturated(before.size + product(tree.growth_speed as int, time.long.elapsed_seconds as int))
    } else {
        before.size as int
    };
    TreeProperties {
        size: size as i64,
        age: age as i64,
        resources: before.resources,
        state,
        negative_temprature_constant_time: before.negative_temprature_constant_time,
    }
}

/// The life-cycle step of one tree.  The tree ages, takes the phase of
/// the time of year, and grows.  On passing from blossom to ripening it
/// sets offspring; on passing from fall to sleep it loses them and, if
/// mature, seeds new trees.  The structural changes are queued.
pub fn update_trees(
    entity: &Entity,
    tree_type: &TreeType,
    properties: &mut TreeProperties,
    position: &Position,
    command_buffer: &mut CommandBuffer,
    time: &Timers,
    settings: &Settings,
)
    requires
        tree_type.is_valid(),
        settings.is_valid(),
        time.wf(),
    ensures
        *final(properties) == stepped(*old(properties), tree_type, time, settings),
        old(properties).state is Blossom && final(properties).state is Ripening ==> queued(
            *final(command_buffer),
        ) == queued(*old(command_buffer)).push(
            Edit::Attach { entity: *entity, offspring: fruit_set(tree_type, old(properties).size) },
        ),
        old(properties).state is Falling && final(properties).state is Sleep ==> {
            let first = queued(*old(command_buffer)).push(Edit::Detach { entity: *entity });
            if is_mature(final(properties).age as int, tree_type, settings) {
                &&& first.is_prefix_of(queued(*final(command_buffer)))
                &&& can_seed(
                    tree_type.fertility,
                    queued(*final(command_buffer)).len() - first.len(),
                )
                &&& all_seedlings(
                    queued(*final(command_buffer)).skip(first.len() as int),
                    *position,
                    old(properties).size,
                    *tree_type,
                )
            } else {
                queued(*final(command_buffer)) == first
            }
        },
        !(old(properties).state is Blossom && final(properties).state is Ripening) && !(old(
            properties,
        ).state is Falling && final(properties).state is Sleep) ==> queued(*final(command_buffer))
            == queued(*old(command_buffer)),
{
    properties.age = plus(properties.age, time.long.elapsed_seconds);
    let grown_up = mature(properties.age, tree_type, settings);

    let new_state = if grown_up {
        state_transition(time.time_of_year, tree_type)
    } else {
        inmature_state_transition(time.time_of_year, tree_type)
    };

    if properties.state == TreeState::Blossom && new_state == TreeState::Ripening {
        place_offsprings(entity, properties, tree_type, command_buffer);
    }

    if properties.state == TreeState::Falling && new_state == TreeState::Sleep {
        remove_offsprings(entity, command_buffer);
        if grown_up {
            seed_new_trees(position, properties, tree_type, command_buffer);
        }
    }

    properties.state = new_state;
    if (new_state == TreeState::Blossom || new_state == TreeState::Ripening) && properties.size
        <= tree_type.max_size {
        properties.size = plus(properties.size, times(tree_type.growth_speed, time.long.elapsed_seconds));
    }
}

/// A tree that has not passed the maturity age of its species is never in
/// blossom after a step.
pub proof fn lemma_young_tree_never_blossoms(
    before: TreeProperties,
    tree: &TreeType,
    time: &Timers,
    settings: &Settings,
)
    requires
        !is_mature(stepped(before, tree, time, settings).age as int, tree, settings),
    ensures
        !(stepped(before, tree, time, settings).state is Blossom),
{
}

} // verus!
