//! Creatures as they enter the world: what each kind of encounter brings,
//! and where.

use crate::adult_whale::AdultWhale;
use crate::animation::Animation;
use crate::animation::AnimationPlayerState;
use crate::animation::SpriteAnimationPlayer;
use crate::animation::SLOW_WHALE_FRAME_MILLIS;
use crate::bird::Bird;
use crate::bird::BirdModel;
use crate::bird::BIRD_SPEED;
use crate::encounters::EncounterType;
use crate::encounters::SpawnEncounter;
use crate::geometry::along;
use crate::geometry::difference;
use crate::geometry::shifted;
use crate::geometry::Point;
use crate::rng::gen_range;
use crate::rng::pick;
use crate::units::narrow;
use crate::units::sat_sub;
use crate::units::saturated;
use crate::window::get_creature_path;
use crate::window::halved;
use crate::window::is_path;
use crate::window::path_range;
use vstd::prelude::*;

verus! {

/// The size of a creature, by which its path keeps off the corners of the
/// window.
pub const SPRITE_SIZE: i64 = 64_000_000;

/// How fast a ship sails.
pub const SHIP_SPEED: i64 = 320_000;

/// How fast an iceberg drifts.
pub const ICEBERG_SPEED: i64 = 240_000;

/// How fast an adult whale travels before it takes an interest.
pub const ADULT_WHALE_SPEED: i64 = 300_000;

/// How fast a fish sets out.
pub const FISH_SPEED: i64 = 100_000_000;

/// A school has a number of fish drawn from
/// `[SCHOOL_MIN_SIZE, SCHOOL_MAX_SIZE)`.
pub const SCHOOL_MIN_SIZE: i64 = 5;

pub const SCHOOL_MAX_SIZE: i64 = 35;

/// Each fish of a school sets out this far from the start of the path at
/// most, along each axis.
pub const SCHOOL_SPREAD: i64 = 15_000_000;

/// The collision group of a school where none could be picked.
pub const FALLBACK_COLLISION_GROUP: i64 = 18;

/// An iceberg keeps this far from the left and right edges.
pub const ICEBERG_INSET: i64 = 32_000_000;

/// An iceberg enters this far below the lower edge.
pub const ICEBERG_DEPTH: i64 = 48_000_000;

/// An iceberg shows a frame drawn from
/// `[ICEBERG_FIRST_FRAME, ICEBERG_END_FRAME)`.
pub const ICEBERG_FIRST_FRAME: i64 = 8;

pub const ICEBERG_END_FRAME: i64 = 14;

/// A school of fish as it enters the world.
#[derive(Debug)]
pub struct School {
    /// Where the path of the school starts and ends.
    pub path: (Point, Point),
    /// The frame that every fish starts its animation at.
    pub frame: usize,
    /// Schools of different groups swim through each other.
    pub collision_group: i64,
    /// Where each fish sets out; the first one leads.
    pub positions: Vec<Point>,
}

/// Whether `at` lies within the spread of a school that sets out at
/// `start`.
pub open spec fn is_in_school(start: Point, at: Point) -> bool {
    exists|dx: int, dy: int|
        -SCHOOL_SPREAD <= dx < SCHOOL_SPREAD && -SCHOOL_SPREAD <= dy < SCHOOL_SPREAD && at
            == #[trigger] shifted(start, dx, dy)
}

impl School {
    /// What holds of every school in a window that reaches `half` to each
    /// side.
    pub open spec fn wf(self, half: Point) -> bool {
        is_path(half, SPRITE_SIZE as int, self.path) && self.is_school()
    }

    /// What holds of every school, wherever its path leads.
    pub open spec fn is_school(self) -> bool {
        &&& self.frame < 8
        &&& 1 <= self.collision_group <= 4
        &&& SCHOOL_MIN_SIZE <= self.positions@.len() < SCHOOL_MAX_SIZE
        &&& forall|i: int|
            0 <= i < self.positions@.len() ==> is_in_school(self.path.0, #[trigger] self.positions@[i])
    }
}

/// A creature as it enters the world.
#[derive(Debug)]
pub enum NewCreature {
    /// A bird that flies along `path` at `BIRD_SPEED`.
    Bird { bird: Bird, path: (Point, Point), animation: SpriteAnimationPlayer },
    /// A school of fish.
    Fish { school: School, animation: SpriteAnimationPlayer },
    /// A ship that sails along `path` at `SHIP_SPEED`.
    Ship { path: (Point, Point), animation: SpriteAnimationPlayer },
    /// An iceberg that drifts upwards from `position` at `ICEBERG_SPEED`,
    /// showing the frame `index` of its atlas.
    Iceberg { position: Point, index: i64 },
    /// An adult whale that travels along `path` at `ADULT_WHALE_SPEED`.
    AdultWhale { whale: AdultWhale, path: (Point, Point), animation: SpriteAnimationPlayer },
}

impl NewCreature {
    /// The kind of encounter that brings this creature.
    pub open spec fn kind(self) -> EncounterType {
        match self {
            NewCreature::Bird { .. } => EncounterType::Bird,
            NewCreature::Fish { .. } => EncounterType::Fish,
            NewCreature::Ship { .. } => EncounterType::Ship,
            NewCreature::Iceberg { .. } => EncounterType::Iceberg,
            NewCreature::AdultWhale { .. } => EncounterType::AdultWhale,
        }
    }

    /// The velocity with which this creature sets out: along its path at
    /// the speed of its kind, and straight up for an iceberg.
    pub open spec fn initial_velocity(self) -> Point {
        match self {
            NewCreature::Bird { path, .. } => along(difference(path.1, path.0), BIRD_SPEED as int),
            NewCreature::Fish { school, .. } => along(
                difference(school.path.1, school.path.0),
                FISH_SPEED as int,
            ),
            NewCreature::Ship { path, .. } => along(difference(path.1, path.0), SHIP_SPEED as int),
            NewCreature::Iceberg { .. } => Point { x: 0, y: ICEBERG_SPEED },
            NewCreature::AdultWhale { path, .. } => along(
                difference(path.1, path.0),
                ADULT_WHALE_SPEED as int,
            ),
        }
    }

    /// What holds of every new creature in a window of the given size.
    pub open spec fn wf(self, size: Point) -> bool {
        let half = halved(size);
        match self {
            NewCreature::Bird { bird, path, animation } => {
                &&& bird@ == BirdModel::spawned(true) || bird@ == BirdModel::spawned(false)
                &&& is_path(half, SPRITE_SIZE as int, path)
                &&& animation@ == Animation::start(AnimationPlayerState::Bird, 250, false)
            },
            NewCreature::Fish { school, animation } => {
                &&& school.wf(half)
                &&& animation@ == (Animation {
                    frame: school.frame as int,
                    ..Animation::start(AnimationPlayerState::Fish, 200, false)
                })
            },
            NewCreature::Ship { path, animation } => {
                &&& is_path(half, SPRITE_SIZE as int, path)
                &&& animation@ == Animation::start(AnimationPlayerState::Ship, 250, false)
            },
            NewCreature::Iceberg { position, index } => {
                let range = path_range(half.x as int, ICEBERG_INSET as int);
                &&& range.0 <= position.x < range.1
                &&& position.y == saturated(-half.y - ICEBERG_DEPTH)
                &&& ICEBERG_FIRST_FRAME <= index < ICEBERG_END_FRAME
            },
            NewCreature::AdultWhale { whale, path, animation } => {
                &&& whale@ is Travelling
                &&& is_path(half, SPRITE_SIZE as int, path)
                &&& animation@ == Animation::start(
                    AnimationPlayerState::WhaleSwimming,
                    SLOW_WHALE_FRAME_MILLIS as int,
                    false,
                )
            },
        }
    }
}

impl NewCreature {
    /// The velocity with which this creature sets out.
    pub fn velocity(&self) -> (velocity: Point)
        ensures
            velocity == self.initial_velocity(),
    {
        match self {
            NewCreature::Bird { path, .. } => path.0.way_to(path.1).along(BIRD_SPEED),
            NewCreature::Fish { school, .. } => school.path.0.way_to(school.path.1).along(FISH_SPEED),
            NewCreature::Ship { path, .. } => path.0.way_to(path.1).along(SHIP_SPEED),
            NewCreature::Iceberg { .. } => Point { x: 0, y: ICEBERG_SPEED },
            NewCreature::AdultWhale { path, .. } => path.0.way_to(path.1).along(ADULT_WHALE_SPEED),
        }
    }
}

/// A school of fish that sets out along `path`.
pub fn spawn_school(path: (Point, Point)) -> (school: School)
    ensures
        school.is_school(),
        school.path == path,
{
    let frame = gen_range(0, 8) as usize;
    let groups: [i64; 4] = [1, 2, 3, 4];
    let collision_group = match pick(groups.as_slice()) {
        Some(group) => group,
        None => FALLBACK_COLLISION_GROUP,
    };
    assert(groups@.contains(collision_group) ==> 1 <= collision_group <= 4);
    let school_size = gen_range(SCHOOL_MIN_SIZE, SCHOOL_MAX_SIZE) as usize;
    let mut positions: Vec<Point> = Vec::new();
    let mut fish: usize = 0;
    while fish < school_size
        invariant
            fish <= school_size,
            positions@.len() == fish,
            forall|i: int|
                0 <= i < positions@.len() ==> is_in_school(path.0, #[trigger] positions@[i]),
        decreases school_size - fish,
    {
        let dx = gen_range(-SCHOOL_SPREAD, SCHOOL_SPREAD);
        let dy = gen_range(-SCHOOL_SPREAD, SCHOOL_SPREAD);
        let at = path.0.offset(dx, dy);
        assert(at == shifted(path.0, dx as int, dy as int));
        positions.push(at);
        fish += 1;
    }
    School { path, frame, collision_group, positions }
}

/// Where an iceberg enters a window of the given size, and the frame it
/// shows; none where the window is too narrow for it.
pub fn spawn_iceberg(win_size: Point) -> (iceberg: Option<NewCreature>)
    ensures
        iceberg is Some <==> ({
            let range = path_range(halved(win_size).x as int, ICEBERG_INSET as int);
            range.0 < range.1
        }),
        iceberg matches Some(new) ==> new is Iceberg && new.wf(win_size),
{
    let half_x = win_size.x / 2;
    let half_y = win_size.y / 2;
    let low = narrow(-(half_x as i128) + ICEBERG_INSET as i128);
    let high = sat_sub(half_x, ICEBERG_INSET);
    if low >= high {
        return None;
    }
    Some(
        NewCreature::Iceberg {
            position: Point {
                x: gen_range(low, high),
                y: narrow(-(half_y as i128) - ICEBERG_DEPTH as i128),
            },
            index: gen_range(ICEBERG_FIRST_FRAME, ICEBERG_END_FRAME),
        },
    )
}

/// Whether a window of the given size has room for the path of a creature
/// along either axis.
pub open spec fn has_room(size: Point) -> bool {
    let half = halved(size);
    let x_range = path_range(half.x as int, SPRITE_SIZE as int);
    let y_range = path_range(half.y as int, SPRITE_SIZE as int);
    x_range.0 < x_range.1 && y_range.0 < y_range.1
}

/// The creature that an encounter brings into a window of the given size.
/// A baby whale is not brought by an encounter, and nothing is brought into
/// a window that is too small for the creature's path.
pub fn spawn_creature(encounter: &SpawnEncounter, size: Point) -> (creature: Option<NewCreature>)
    ensures
        encounter.encounter_type == EncounterType::BabyWhale ==> creature is None,
        encounter.encounter_type != EncounterType::BabyWhale && has_room(size) ==> creature is Some,
        creature matches Some(new) ==> new.kind() == encounter.encounter_type && new.wf(size),
{
    match encounter.encounter_type {
        EncounterType::Bird => match get_creature_path(size, SPRITE_SIZE) {
            Some(path) => Some(
                NewCreature::Bird {
                    bird: Bird::spawn(),
                    path,
                    animation: SpriteAnimationPlayer::bird(),
                },
            ),
            None => None,
        },
        EncounterType::Fish => match get_creature_path(size, SPRITE_SIZE) {
            Some(path) => {
                let school = spawn_school(path);
                let mut animation = SpriteAnimationPlayer::fish();
                animation.set_frame(school.frame);
                Some(NewCreature::Fish { school, animation })
            },
            None => None,
        },
        EncounterType::Ship => match get_creature_path(size, SPRITE_SIZE) {
            Some(path) => Some(NewCreature::Ship { path, animation: SpriteAnimationPlayer::ship() }),
            None => None,
        },
        EncounterType::Iceberg => spawn_iceberg(size),
        EncounterType::AdultWhale => match get_creature_path(size, SPRITE_SIZE) {
            Some(path) => {
                let mut animation = SpriteAnimationPlayer::new();
                animation.set_frame_interval(SLOW_WHALE_FRAME_MILLIS);
                Some(NewCreature::AdultWhale { whale: AdultWhale::new(), path, animation })
            },
            None => None,
        },
        EncounterType::BabyWhale => None,
    }
}

} // verus!
