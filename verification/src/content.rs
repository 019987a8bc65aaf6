//! Level content: the deterministic layout of every level, and the resolution
//! of a level identity to its layout.
//!
//! Positions along the corridor are relative, in thousandths of the corridor
//! length (0 is the start, 1000 the end); lateral offsets of pickups use the
//! same scale, from -1000 (far left) to 1000 (far right). Spawn intervals are
//! in milliseconds. The authored tables are configuration, but they are not
//! left to the code alone: each level function carries a content predicate
//! that pins its corridor length, seed, and every placement, and resolution
//! carries those predicates with it, so the held level is provably the one
//! its identity names.
use vstd::prelude::*;

use crate::interlude::InterludeSpec;
use crate::level::{Decision, LevelId, MAX_STAGES};
use crate::logic::TargetRule;
use crate::num::Num;
use crate::spawner::MobSpawner;

verus! {

use vstd::string::StringExecFns;
use crate::interlude::{spec_is_exit, spec_steps, spec_steps_of};
use crate::num::{spec_reduced, NUM_MAG_LIMIT};

// The narrative text and images shown along the way; named so that the
// content predicates below can speak of the very same strings.
pub const TEXT_INTRO_1: &'static str = "You wake on cold stone. A corridor stretches ahead, and the door behind you is gone.";
pub const TEXT_INTRO_2: &'static str = "Somewhere in this fortress, the wizard is waiting. There is only one way to walk: forward.";
pub const TEXT_WIZARD_1: &'static str = "A voice crackles from nowhere: the numbers are the walls, it says, and the numbers are the key.";
pub const TEXT_WIZARD_2: &'static str = "Break every number down to one, says the voice, and nothing will stand between us.";
pub const TEXT_FORK0_1: &'static str = "At the end of the corridor, you see two possible paths. There appear to be no remarkable differences between the two.";
pub const TEXT_FORK0_2: &'static str = "Reluctantly, you tap into your precognitive skills, and choose.";
pub const TEXT_NOTE_1: &'static str = "The walls press closer here. You grip the cubes and keep your eyes ahead.";
pub const TEXT_FORK1_1: &'static str = "You see another fork up ahead. Given the complete lack of guidance or clues, you feel like you will have to search every path until you find the wizard.";
pub const TEXT_FORK1_LEFT: &'static str = "You went left before. Which way should you go this time?";
pub const TEXT_FORK1_RIGHT: &'static str = "You went right before. Which way should you go this time?";
pub const TEXT_CIRCLE_1: &'static str = "The corridor bends, and bends again, until you pass a scratch on the wall you are sure you made an hour ago.";
pub const TEXT_CIRCLE_2: &'static str = "You are walking in circles. Perhaps that was the plan all along. You sit down to rest, and the fortress hums around you.";
pub const TEXT_BEDROOM_1: &'static str = "The last door opens into a small bedroom, warm and impossibly familiar.";
pub const TEXT_BEDROOM_2: &'static str = "Your own blanket, your own shelf, your own window with the crack in the corner.";
pub const TEXT_BEDROOM_3: &'static str = "You lie down. Whatever the fortress wanted, it can wait until morning.";
pub const TEXT_DUNGEON_1: &'static str = "The stairs go down, and down, into a dungeon of rusted bars.";
pub const TEXT_DUNGEON_2: &'static str = "In the furthest cell sits the wizard, asleep over a book of tables.";
pub const TEXT_DUNGEON_3: &'static str = "He does not wake. The numbers on the walls glow softly and go out.";
pub const TEXT_DUNGEON_4: &'static str = "You take the book and leave him to his dreams.";
pub const TEXT_MIRROR_1: &'static str = "The corridor ends at a tall mirror in a silver frame.";
pub const TEXT_MIRROR_2: &'static str = "Your reflection arrives a heartbeat late.";
pub const TEXT_MIRROR_3: &'static str = "It smiles first.";
pub const TEXT_MIRROR_4: &'static str = "You raise a cube; it raises one too, and the numbers match exactly.";
pub const TEXT_MIRROR_5: &'static str = "The glass ripples like water, and one of you walks away.";

pub const IMG_INTRO_1: &'static str = "interlude-01.png";
pub const IMG_INTRO_2: &'static str = "interlude-02.png";
pub const IMG_CUBE: &'static str = "interlude-cube.png";
pub const IMG_BEDROOM: &'static str = "interlude-bedroom.png";
pub const IMG_DUNGEON_1: &'static str = "interlude-dungeon-1.png";
pub const IMG_DUNGEON_2: &'static str = "interlude-dungeon-2.png";
pub const IMG_MIRROR_1: &'static str = "interlude-mirror-1.png";
pub const IMG_MIRROR_2: &'static str = "interlude-mirror-2.png";

/// A placement: what stands where along the corridor.
#[derive(Debug)]
pub struct Thing {
    /// position relative to the length of the corridor, in thousandths,
    /// from 0 (start) to 1000 (end)
    pub at: u16,
    /// what should be at that position
    pub what: ThingKind,
}

/// The actual thing that should appear in the level.
#[derive(Debug)]
pub enum ThingKind {
    /// a pickup granting the attack number `num`, at lateral offset `x`
    /// (thousandths, -1000 to 1000)
    WeaponCube { x: i16, num: Num },
    /// a timed wave-spawning enemy generator
    MobSpawner(MobSpawner),
    /// a narrative or dialog sequence
    Interlude(InterludeSpec),
    /// a one-shot jump-scare trigger
    Dread,
    /// a recovery-from-dread trigger
    MoveOn,
}

pub open spec fn thing_wf(t: Thing) -> bool {
    &&& t.at <= 1000
    &&& match t.what {
        ThingKind::WeaponCube { x, num } => -1000 <= x <= 1000 && num.wf(),
        ThingKind::MobSpawner(sp) => sp.wf(),
        ThingKind::Interlude(_) => true,
        ThingKind::Dread => true,
        ThingKind::MoveOn => true,
    }
}

/// The thing does not end the game when dismissed.
pub open spec fn thing_no_exit(t: Thing) -> bool {
    match t.what {
        ThingKind::Interlude(it) => !spec_is_exit(it),
        _ => true,
    }
}

/// The full deterministic content of one level.
#[derive(Debug)]
pub struct LevelSpec {
    /// corridor length, in distance units
    pub corridor_length: u32,
    /// the seed defining reproducible behavior patterns in the level
    pub rng_seed: u64,
    /// the things in the level
    pub things: Vec<Thing>,
}

impl LevelSpec {
    pub open spec fn wf(self) -> bool {
        &&& self.corridor_length > 0
        &&& forall|i: int| 0 <= i < self.things@.len() ==> thing_wf(#[trigger] self.things@[i])
    }

    /// No thing in the level ends the game.
    pub open spec fn has_no_exit(self) -> bool {
        forall|i: int| 0 <= i < self.things@.len() ==> thing_no_exit(#[trigger] self.things@[i])
    }

    /// The level is an ending: its sole content is one interlude, at the very
    /// start, that exits the game when dismissed.
    pub open spec fn is_ending(self) -> bool {
        &&& self.things@.len() == 1
        &&& self.things@[0].at == 0
        &&& match self.things@[0].what {
            ThingKind::Interlude(it) => spec_is_exit(it),
            _ => false,
        }
    }

    /// How many interlude steps an ending shows before the game ends; the
    /// four authored endings differ in it.
    pub open spec fn ending_steps(self) -> nat {
        match self.things@[0].what {
            ThingKind::Interlude(it) => spec_steps(it).len(),
            _ => 0,
        }
    }
}

/// The number of farewell steps that the ending for a complete decision
/// pattern shows: the mirrored keep-one-direction patterns reach the bedroom,
/// the two zig-zags the dungeon, one lone pattern the mirror, and every other
/// pattern the fallback walk in circles.
pub open spec fn spec_terminal_steps(decisions: u8) -> nat {
    if decisions == 0b10000 || decisions == 0b01111 {
        3
    } else if decisions == 0b01010 || decisions == 0b10101 {
        4
    } else if decisions == 0b01001 {
        5
    } else {
        2
    }
}

/// No image beside an interlude step.
pub open spec fn no_image() -> Option<Seq<char>> {
    None
}

/// The rational a whole-number option denotes; out-of-range values (which the
/// authored tables never hold) fall back to one, as construction does.
pub open spec fn spec_whole_num(x: i32) -> Num {
    if -NUM_MAG_LIMIT <= x <= NUM_MAG_LIMIT {
        Num { numer: x, denom: 1 }
    } else {
        Num { numer: 1, denom: 1 }
    }
}

/// The rational a fraction option denotes; pairs that denote no representable
/// rational (which the authored tables never hold) fall back to one.
pub open spec fn spec_frac_num(p: (i32, i32)) -> Num {
    if p.1 != 0 && -NUM_MAG_LIMIT <= p.0 <= NUM_MAG_LIMIT && -NUM_MAG_LIMIT <= p.1
        <= NUM_MAG_LIMIT {
        spec_reduced(p.0 as int, p.1 as int)
    } else {
        Num { numer: 1, denom: 1 }
    }
}

/// A whole-number option table as rationals.
pub open spec fn spec_whole_nums(xs: Seq<i32>) -> Seq<Num> {
    xs.map_values(|x: i32| spec_whole_num(x))
}

/// A fraction option table as rationals.
pub open spec fn spec_frac_nums(xs: Seq<(i32, i32)>) -> Seq<Num> {
    xs.map_values(|p: (i32, i32)| spec_frac_num(p))
}

/// The placement is an interlude at `at` showing exactly `steps` and then
/// resuming the game.
pub open spec fn is_interlude(t: Thing, at: u16, steps: Seq<(Seq<char>, Option<Seq<char>>)>) -> bool {
    &&& t.at == at
    &&& match t.what {
        ThingKind::Interlude(it) => spec_steps(it) == steps && !spec_is_exit(it),
        _ => false,
    }
}

/// The placement is an interlude at `at` showing exactly `steps` and then
/// ending the game.
pub open spec fn is_exit_interlude(
    t: Thing,
    at: u16,
    steps: Seq<(Seq<char>, Option<Seq<char>>)>,
) -> bool {
    &&& t.at == at
    &&& match t.what {
        ThingKind::Interlude(it) => spec_steps(it) == steps && spec_is_exit(it),
        _ => false,
    }
}

/// The placement is a not-yet-active factorize spawner at `at` with exactly
/// this schedule, drawing from the given whole-number options.
pub open spec fn is_whole_spawner(
    t: Thing,
    at: u16,
    count: u32,
    interval_ms: u32,
    table: Seq<i32>,
) -> bool {
    &&& t.at == at
    &&& match t.what {
        ThingKind::MobSpawner(sp) => {
            &&& sp.count == count
            &&& sp.spawn_interval_ms == interval_ms
            &&& sp.last_spawn_ms == 0
            &&& !sp.active
            &&& sp.target_rule == TargetRule::Factorize
            &&& sp.target_options@ == spec_whole_nums(table)
        },
        _ => false,
    }
}

/// The placement is a not-yet-active factorize spawner at `at` with exactly
/// this schedule, drawing from the given fraction options.
pub open spec fn is_frac_spawner(
    t: Thing,
    at: u16,
    count: u32,
    interval_ms: u32,
    table: Seq<(i32, i32)>,
) -> bool {
    &&& t.at == at
    &&& match t.what {
        ThingKind::MobSpawner(sp) => {
            &&& sp.count == count
            &&& sp.spawn_interval_ms == interval_ms
            &&& sp.last_spawn_ms == 0
            &&& !sp.active
            &&& sp.target_rule == TargetRule::Factorize
            &&& sp.target_options@ == spec_frac_nums(table)
        },
        _ => false,
    }
}

/// The two placements show the same observable content.
pub open spec fn same_thing(a: Thing, b: Thing) -> bool {
    &&& a.at == b.at
    &&& match (a.what, b.what) {
        (
            ThingKind::WeaponCube { x: x1, num: n1 },
            ThingKind::WeaponCube { x: x2, num: n2 },
        ) => x1 == x2 && n1 == n2,
        (ThingKind::MobSpawner(s1), ThingKind::MobSpawner(s2)) => {
            &&& s1.count == s2.count
            &&& s1.spawn_interval_ms == s2.spawn_interval_ms
            &&& s1.last_spawn_ms == s2.last_spawn_ms
            &&& s1.active == s2.active
            &&& s1.target_rule == s2.target_rule
            &&& s1.target_options@ == s2.target_options@
        },
        (ThingKind::Interlude(i1), ThingKind::Interlude(i2)) => {
            spec_steps(i1) == spec_steps(i2) && spec_is_exit(i1) == spec_is_exit(i2)
        },
        (ThingKind::Dread, ThingKind::Dread) => true,
        (ThingKind::MoveOn, ThingKind::MoveOn) => true,
        _ => false,
    }
}

/// Append a placement, keeping every recorded guarantee of the list.
fn push_thing(things: &mut Vec<Thing>, t: Thing)
    requires
        forall|i: int| 0 <= i < old(things)@.len() ==> thing_wf(#[trigger] old(things)@[i]),
        forall|i: int| 0 <= i < old(things)@.len() ==> thing_no_exit(#[trigger] old(things)@[i]),
        thing_wf(t),
        thing_no_exit(t),
    ensures
        final(things)@ == old(things)@.push(t),
        forall|i: int| 0 <= i < final(things)@.len() ==> thing_wf(#[trigger] final(things)@[i]),
        forall|i: int| 0 <= i < final(things)@.len() ==> thing_no_exit(#[trigger] final(things)@[i]),
{
    things.push(t);
}

/// The given whole numbers as rationals, exactly as `spec_whole_nums` names
/// them.
fn whole_options(xs: Vec<i32>) -> (r: Vec<Num>)
    ensures
        r@ == spec_whole_nums(xs@),
        forall|i: int| 0 <= i < r@.len() ==> (#[trigger] r@[i]).wf(),
{
    let mut r: Vec<Num> = Vec::new();
    let mut i: usize = 0;
    while i < xs.len()
        invariant
            i <= xs@.len(),
            r@ =~= spec_whole_nums(xs@.subrange(0, i as int)),
            forall|j: int| 0 <= j < r@.len() ==> (#[trigger] r@[j]).wf(),
        decreases xs@.len() - i,
    {
        let x = xs[i];
        let n = if -NUM_MAG_LIMIT <= x && x <= NUM_MAG_LIMIT {
            Num::whole(x)
        } else {
            Num::one()
        };
        r.push(n);
        i = i + 1;
        proof {
            assert(r@ =~= spec_whole_nums(xs@.subrange(0, i as int)));
        }
    }
    proof {
        assert(xs@.subrange(0, xs@.len() as int) =~= xs@);
    }
    r
}

/// The given (numerator, denominator) pairs as reduced rationals, exactly as
/// `spec_frac_nums` names them.
fn frac_options(xs: Vec<(i32, i32)>) -> (r: Vec<Num>)
    ensures
        r@ == spec_frac_nums(xs@),
        forall|i: int| 0 <= i < r@.len() ==> (#[trigger] r@[i]).wf(),
{
    let mut r: Vec<Num> = Vec::new();
    let mut i: usize = 0;
    while i < xs.len()
        invariant
            i <= xs@.len(),
            r@ =~= spec_frac_nums(xs@.subrange(0, i as int)),
            forall|j: int| 0 <= j < r@.len() ==> (#[trigger] r@[j]).wf(),
        decreases xs@.len() - i,
    {
        let (n, d) = xs[i];
        let v = if d != 0 && -NUM_MAG_LIMIT <= n && n <= NUM_MAG_LIMIT && -NUM_MAG_LIMIT <= d && d
            <= NUM_MAG_LIMIT {
            Num::new(n, d)
        } else {
            Num::one()
        };
        r.push(v);
        i = i + 1;
        proof {
            assert(r@ =~= spec_frac_nums(xs@.subrange(0, i as int)));
        }
    }
    proof {
        assert(xs@.subrange(0, xs@.len() as int) =~= xs@);
    }
    r
}

/// One interlude step without an image.
fn msg(text: &str) -> (r: (String, Option<String>))
    ensures
        r.0@ == text@,
        r.1.is_none(),
{
    (String::from_str(text), None)
}

/// One interlude step with an image.
fn msg_img(text: &str, image: &str) -> (r: (String, Option<String>))
    ensures
        r.0@ == text@,
        r.1.is_some(),
        r.1->Some_0@ == image@,
{
    (String::from_str(text), Some(String::from_str(image)))
}

/// The introductory level, exactly as authored.
pub open spec fn is_level_0(s: LevelSpec) -> bool {
    &&& s.corridor_length == 150
    &&& s.rng_seed == 0x01
    &&& s.things@.len() == 8
    &&& is_interlude(s.things@[0], 0, seq![(TEXT_INTRO_1@, Some(IMG_INTRO_1@)), (TEXT_INTRO_2@, Some(IMG_INTRO_2@))])
    &&& s.things@[1] == (Thing { at: 300u16, what: ThingKind::Dread })
    &&& is_interlude(s.things@[2], 425, seq![(TEXT_WIZARD_1@, no_image()), (TEXT_WIZARD_2@, Some(IMG_CUBE@))])
    &&& s.things@[3] == (Thing { at: 500u16, what: ThingKind::MoveOn })
    &&& s.things@[4] == (Thing { at: 500u16, what: ThingKind::WeaponCube { x: 0i16, num: (Num { numer: 2i32, denom: 1i32 }) } })
    &&& is_whole_spawner(s.things@[5], 620, 5, 2000, seq![2i32])
    &&& is_whole_spawner(s.things@[6], 700, 1, 2000, seq![6i32])
    &&& is_interlude(s.things@[7], 950, seq![(TEXT_FORK0_1@, no_image()), (TEXT_FORK0_2@, no_image())])
}

/// The second level, exactly as authored; its closing interlude
/// recalls the decision that led here.
pub open spec fn is_level_1(decisions: u8, s: LevelSpec) -> bool {
    &&& s.corridor_length == 200
    &&& s.rng_seed == 0x3333_3333_fefe + (decisions as u64) * 997
    &&& s.things@.len() == 6
    &&& is_interlude(s.things@[0], 100, seq![(TEXT_NOTE_1@, no_image())])
    &&& s.things@[1] == (Thing { at: 150u16, what: ThingKind::WeaponCube { x: 1000i16, num: (Num { numer: 2i32, denom: 1i32 }) } })
    &&& s.things@[2] == (Thing { at: 200u16, what: ThingKind::WeaponCube { x: -1000i16, num: (Num { numer: 3i32, denom: 1i32 }) } })
    &&& is_whole_spawner(s.things@[3], 400, 10, 2000, seq![2i32, 3])
    &&& is_whole_spawner(s.things@[4], 650, 16, 1750, seq![2i32, 3, 4, 6, 9])
    &&& is_interlude(s.things@[5], 950, seq![(TEXT_FORK1_1@, no_image()), ((if decisions == 0 { TEXT_FORK1_LEFT@ } else { TEXT_FORK1_RIGHT@ }), no_image())])
}

/// The right-hand third level, exactly as authored; the trail picks
/// the harder variant.
pub open spec fn is_level_2r(decisions: u8, s: LevelSpec) -> bool {
    let harder = decisions == 0b11;
    {
        &&& s.corridor_length == 180
        &&& s.rng_seed == 0xc36b_58ca_1297_c528 + (decisions as u64) * 997
        &&& s.things@.len() == 7
        &&& s.things@[0] == (Thing { at: 90u16, what: ThingKind::WeaponCube { x: 1000i16, num: (Num { numer: 3i32, denom: 1i32 }) } })
        &&& s.things@[1] == (Thing { at: 100u16, what: ThingKind::WeaponCube { x: 0i16, num: (Num { numer: 5i32, denom: 1i32 }) } })
        &&& s.things@[2] == (Thing { at: 120u16, what: ThingKind::WeaponCube { x: -1000i16, num: (Num { numer: 7i32, denom: 1i32 }) } })
        &&& if harder { is_whole_spawner(s.things@[3], 360, 12, 1750, seq![10i32, 12, 15, 21, 25, 35, 49, 50, 54, 56, 63, 70, 72]) } else { is_whole_spawner(s.things@[3], 360, 10, 2000, seq![3i32, 5, 7, 10, 12, 15, 18, 21, 25, 27, 35]) }
        &&& if harder { is_whole_spawner(s.things@[4], 400, 20, 1700, seq![9i32, 10, 12, 15, 21, 25, 35, 49, 50, 54, 56, 60, 63, 70, 72, 84, 85, 87]) } else { is_whole_spawner(s.things@[4], 400, 15, 1800, seq![3i32, 5, 7, 9, 12, 14, 18, 24, 39, 49, 54, 56, 63]) }
        &&& s.things@[5] == (Thing { at: 600u16, what: ThingKind::WeaponCube { x: 0i16, num: (Num { numer: 2i32, denom: 1i32 }) } })
        &&& if harder { is_whole_spawner(s.things@[6], 750, 24, 1500, seq![4i32, 9, 12, 15, 21, 24, 27, 32, 33, 35, 39, 45, 49, 50, 54, 55, 56, 70, 77, 81, 87, 91, 98]) } else { is_whole_spawner(s.things@[6], 750, 20, 1750, seq![2i32, 3, 4, 5, 6, 9, 12, 15, 21, 24, 32, 45, 49, 50, 51, 55]) }
    }
}

/// The left-hand third level, exactly as authored; the trail picks
/// the harder variant.
pub open spec fn is_level_2l(decisions: u8, s: LevelSpec) -> bool {
    let harder = decisions == 0b01;
    {
        &&& s.corridor_length == 180
        &&& s.rng_seed == 0x3434_3434_1297_c528 + (decisions as u64) * 997
        &&& s.things@.len() == 7
        &&& s.things@[0] == (Thing { at: 90u16, what: ThingKind::WeaponCube { x: 1000i16, num: (Num { numer: 4i32, denom: 1i32 }) } })
        &&& s.things@[1] == (Thing { at: 100u16, what: ThingKind::WeaponCube { x: 0i16, num: (Num { numer: 6i32, denom: 1i32 }) } })
        &&& s.things@[2] == (Thing { at: 120u16, what: ThingKind::WeaponCube { x: -1000i16, num: (Num { numer: 7i32, denom: 1i32 }) } })
        &&& if harder { is_whole_spawner(s.things@[3], 300, 15, 1800, seq![6i32, 7, 8, 12, 16, 20, 24, 28, 32, 35, 36, 49, 54, 56, 63, 64, 77, 80]) } else { is_whole_spawner(s.things@[3], 300, 10, 2000, seq![4i32, 6, 7, 8, 12, 14, 16, 24, 35, 36]) }
        &&& if harder { is_whole_spawner(s.things@[4], 350, 18, 1750, seq![12i32, 14, 18, 20, 28, 32, 35, 54, 64, 40, 42, 63, 66, 70, 77, 80, 84, 88, 91, 96, 98]) } else { is_whole_spawner(s.things@[4], 350, 15, 1800, seq![6i32, 7, 12, 18, 28, 20, 32, 35, 40, 42, 49, 54, 66, 70]) }
        &&& s.things@[5] == (Thing { at: 650u16, what: ThingKind::WeaponCube { x: 0i16, num: (Num { numer: 11i32, denom: 1i32 }) } })
        &&& if harder { is_whole_spawner(s.things@[6], 750, 24, 1600, seq![6i32, 12, 7, 8, 11, 16, 21, 22, 24, 32, 33, 36, 49, 55, 56, 60, 64, 70, 77, 84, 91, 99, 121]) } else { is_whole_spawner(s.things@[6], 750, 18, 1700, seq![6i32, 7, 8, 11, 12, 7, 8, 16, 22, 21, 24, 32, 36, 49, 55, 63]) }
    }
}

/// The fourth level, where fractions start appearing, exactly as
/// authored.
pub open spec fn is_level_3(decisions: u8, s: LevelSpec) -> bool {
    let harder = decisions == 0b001;
    {
        &&& s.corridor_length == 180
        &&& s.rng_seed == 0x3454_4321_ffff + (decisions as u64) * 997
        &&& s.things@.len() == 6
        &&& s.things@[0] == (Thing { at: 100u16, what: ThingKind::WeaponCube { x: 500i16, num: spec_reduced(1, 3) } })
        &&& s.things@[1] == (Thing { at: 150u16, what: ThingKind::WeaponCube { x: -500i16, num: spec_reduced(1, 4) } })
        &&& is_frac_spawner(s.things@[2], 225, 12, 2000, seq![(1i32, 3i32), (2, 6), (3, 9), (6, 18), (1, 4), (4, 16), (5, 20), (6, 24)])
        &&& if harder { is_frac_spawner(s.things@[3], 300, 18, 1720, seq![(4i32, 12i32), (6, 18), (7, 21), (8, 24), (9, 27), (12, 36), (15, 45), (3, 12), (5, 20), (6, 24), (7, 28), (8, 32), (9, 36), (12, 48), (15, 60)]) } else { is_frac_spawner(s.things@[3], 300, 15, 1900, seq![(1i32, 3i32), (2, 6), (4, 12), (6, 18), (7, 21), (8, 24), (9, 27), (1, 4), (3, 12), (5, 20), (6, 24), (7, 28), (8, 32), (9, 36)]) }
        &&& s.things@[4] == (Thing { at: 500u16, what: ThingKind::WeaponCube { x: 500i16, num: spec_reduced(3, 4) } })
        &&& if harder { is_frac_spawner(s.things@[5], 720, 25, 1700, seq![(2i32, 6i32), (3, 9), (4, 12), (6, 18), (7, 21), (9, 27), (10, 30), (16, 48), (24, 72), (3, 12), (6, 24), (8, 32), (9, 36), (10, 40), (12, 48), (24, 96), (3, 4), (6, 8), (9, 12), (12, 16), (15, 20), (18, 24), (21, 28), (24, 32), (33, 44)]) } else { is_frac_spawner(s.things@[5], 720, 20, 1800, seq![(1i32, 3i32), (2, 6), (3, 9), (4, 12), (6, 18), (7, 21), (1, 4), (6, 24), (8, 32), (9, 36), (3, 4), (6, 8), (9, 12), (12, 16), (15, 20), (18, 24)]) }
    }
}

/// The right-hand fifth level, the hardest one, exactly as authored;
/// its harder variant grants one extra cube.
pub open spec fn is_level_4r(decisions: u8, s: LevelSpec) -> bool {
    let harder = decisions == 0b1001;
    {
        &&& s.corridor_length == 250
        &&& s.rng_seed == 0x1ab2_4547_fdab
        &&& s.things@.len() == (if harder { 9nat } else { 8nat })
        &&& s.things@[0] == (Thing { at: 90u16, what: ThingKind::WeaponCube { x: 1000i16, num: spec_reduced(1, 2) } })
        &&& s.things@[1] == (Thing { at: 120u16, what: ThingKind::WeaponCube { x: 500i16, num: spec_reduced(1, 5) } })
        &&& s.things@[2] == (Thing { at: 150u16, what: ThingKind::WeaponCube { x: 0i16, num: spec_reduced(1, 7) } })
        &&& s.things@[3] == (Thing { at: 180u16, what: ThingKind::WeaponCube { x: -500i16, num: spec_reduced(1, 8) } })
        &&& is_frac_spawner(s.things@[4], 260, 14, 1700, seq![(1i32, 2i32), (2, 4), (4, 8), (6, 12), (8, 16), (10, 20), (16, 32), (3, 15), (4, 20), (5, 25), (6, 30), (7, 35), (8, 40), (1, 7), (2, 14), (3, 21), (4, 28), (5, 35), (6, 42), (7, 49), (8, 56), (9, 63), (11, 77), (1, 8), (2, 16), (3, 24), (4, 32), (5, 40), (6, 48), (7, 56), (8, 64), (9, 72)])
        &&& is_frac_spawner(s.things@[5], 320, 16, 1700, seq![(1i32, 2i32), (2, 4), (4, 8), (6, 12), (8, 16), (10, 20), (16, 32), (3, 15), (4, 20), (5, 25), (6, 30), (7, 35), (8, 40), (1, 7), (2, 14), (3, 21), (4, 28), (5, 35), (6, 42), (7, 49), (8, 56), (9, 63), (11, 77), (1, 8), (2, 16), (3, 24), (4, 32), (5, 40), (6, 48), (7, 56), (8, 64), (9, 72)])
        &&& s.things@[6] == (Thing { at: 550u16, what: ThingKind::WeaponCube { x: 0i16, num: (Num { numer: 2i32, denom: 1i32 }) } })
        &&& if harder { is_frac_spawner(s.things@[7], 700, 32, 1550, seq![(4i32, 2i32), (12, 6), (18, 9), (24, 12), (16, 4), (120, 1), (2, 10), (5, 25), (6, 30), (7, 35), (8, 40), (10, 50), (11, 55), (3, 21), (4, 28), (6, 42), (8, 56), (2, 16), (3, 24), (5, 40), (6, 48), (7, 56), (8, 64), (9, 72), (12, 96), (14, 16), (21, 24), (28, 32), (35, 40), (42, 48), (49, 56), (56, 64), (63, 72), (84, 96)]) } else { is_frac_spawner(s.things@[7], 700, 25, 1680, seq![(4i32, 2i32), (12, 6), (18, 9), (24, 12), (2, 10), (5, 25), (6, 30), (7, 35), (10, 50), (1, 7), (2, 14), (3, 21), (6, 42), (8, 56), (1, 8), (2, 16), (3, 24), (5, 40), (6, 48), (8, 64)]) }
        &&& (harder ==> s.things@[8] == (Thing { at: 500u16, what: ThingKind::WeaponCube { x: 500i16, num: spec_reduced(7, 8) } }))
    }
}

/// The left-hand fifth level, exactly as authored.
pub open spec fn is_level_4l(decisions: u8, s: LevelSpec) -> bool {
    &&& s.corridor_length == 250
    &&& s.rng_seed == 0x5c98_a112_fabf_551d + (decisions as u64) * 997
    &&& s.things@.len() == 7
    &&& s.things@[0] == (Thing { at: 90u16, what: ThingKind::WeaponCube { x: 1000i16, num: spec_reduced(1, 3) } })
    &&& s.things@[1] == (Thing { at: 120u16, what: ThingKind::WeaponCube { x: 500i16, num: spec_reduced(1, 4) } })
    &&& s.things@[2] == (Thing { at: 150u16, what: ThingKind::WeaponCube { x: 0i16, num: spec_reduced(1, 5) } })
    &&& s.things@[3] == (Thing { at: 180u16, what: ThingKind::WeaponCube { x: -500i16, num: spec_reduced(1, 6) } })
    &&& is_frac_spawner(s.things@[4], 275, 22, 1720, seq![(1i32, 3i32), (2, 6), (3, 9), (4, 12), (5, 15), (6, 18), (7, 21), (8, 24), (1, 4), (2, 8), (3, 12), (4, 16), (5, 20), (6, 24), (7, 28), (8, 32), (1, 5), (2, 10), (3, 15), (4, 20), (5, 25), (6, 30), (7, 35), (8, 40), (1, 6), (2, 12), (3, 18), (4, 24), (5, 30), (6, 36), (7, 42), (8, 48)])
    &&& s.things@[5] == (Thing { at: 500u16, what: ThingKind::WeaponCube { x: 0i16, num: (Num { numer: 2i32, denom: 1i32 }) } })
    &&& is_frac_spawner(s.things@[6], 700, 24, 1700, seq![(4i32, 2i32), (12, 6), (18, 9), (16, 4), (24, 12), (48, 1), (1, 3), (2, 6), (3, 9), (4, 12), (5, 15), (6, 18), (7, 21), (8, 24), (9, 27), (1, 4), (2, 8), (3, 12), (4, 16), (5, 20), (6, 24), (7, 28), (8, 32), (9, 36), (1, 5), (2, 10), (3, 15), (4, 20), (9, 45), (10, 50), (11, 55), (1, 6), (2, 12), (3, 18), (4, 24), (5, 30), (6, 36), (7, 42), (8, 48), (9, 54), (10, 60), (11, 66)])
}

/// Ending 1: walk in circles, exactly as authored.
pub open spec fn is_ending_circle(s: LevelSpec) -> bool {
    &&& s.corridor_length == 1000
    &&& s.rng_seed == 0
    &&& s.things@.len() == 1
    &&& is_exit_interlude(s.things@[0], 0, seq![(TEXT_CIRCLE_1@, no_image()), (TEXT_CIRCLE_2@, no_image())])
}

/// Ending 2: the bedroom, exactly as authored.
pub open spec fn is_ending_bedroom(s: LevelSpec) -> bool {
    &&& s.corridor_length == 1000
    &&& s.rng_seed == 0
    &&& s.things@.len() == 1
    &&& is_exit_interlude(s.things@[0], 0, seq![(TEXT_BEDROOM_1@, Some(IMG_BEDROOM@)), (TEXT_BEDROOM_2@, no_image()), (TEXT_BEDROOM_3@, no_image())])
}

/// Ending 3: the dungeon, exactly as authored.
pub open spec fn is_ending_dungeon(s: LevelSpec) -> bool {
    &&& s.corridor_length == 1000
    &&& s.rng_seed == 0
    &&& s.things@.len() == 1
    &&& is_exit_interlude(s.things@[0], 0, seq![(TEXT_DUNGEON_1@, Some(IMG_DUNGEON_1@)), (TEXT_DUNGEON_2@, Some(IMG_DUNGEON_2@)), (TEXT_DUNGEON_3@, no_image()), (TEXT_DUNGEON_4@, no_image())])
}

/// Ending 4: the mirror, exactly as authored.
pub open spec fn is_ending_mirror(s: LevelSpec) -> bool {
    &&& s.corridor_length == 1000
    &&& s.rng_seed == 0
    &&& s.things@.len() == 1
    &&& is_exit_interlude(s.things@[0], 0, seq![(TEXT_MIRROR_1@, no_image()), (TEXT_MIRROR_2@, no_image()), (TEXT_MIRROR_3@, Some(IMG_MIRROR_1@)), (TEXT_MIRROR_4@, no_image()), (TEXT_MIRROR_5@, Some(IMG_MIRROR_2@))])
}

/// The content that resolution owes each legal identity: the dispatch on
/// stage and decision pattern, with every branch pinned to its authored
/// level.
pub open spec fn spec_resolved(id: LevelId, s: LevelSpec) -> bool {
    if id.stage == 0 {
        is_level_0(s)
    } else if id.stage == 1 {
        is_level_1(id.decisions, s)
    } else if id.stage == 2 {
        if (id.decisions >> 1u8) == 0 {
            is_level_2l(id.decisions, s)
        } else {
            is_level_2r(id.decisions, s)
        }
    } else if id.stage == 3 {
        is_level_3(id.decisions, s)
    } else if id.stage == 4 {
        if (id.decisions >> 3u8) == 0 {
            is_level_4l(id.decisions, s)
        } else {
            is_level_4r(id.decisions, s)
        }
    } else if id.stage == 5 {
        if id.decisions == 0b10000 || id.decisions == 0b01111 {
            is_ending_bedroom(s)
        } else if id.decisions == 0b01010 || id.decisions == 0b10101 {
            is_ending_dungeon(s)
        } else if id.decisions == 0b01001 {
            is_ending_mirror(s)
        } else {
            is_ending_circle(s)
        }
    } else {
        false
    }
}

impl LevelSpec {
    fn level_0() -> (s: LevelSpec)
        ensures
            s.wf(),
            s.things@.len() > 0,
            s.has_no_exit(),
            is_level_0(s),
    {
        let mut things: Vec<Thing> = Vec::new();
        // starting story
        let intro_items = vec![msg_img(TEXT_INTRO_1, IMG_INTRO_1), msg_img(TEXT_INTRO_2, IMG_INTRO_2)];
        let intro = InterludeSpec::from_sequence(intro_items);
        proof {
            assert(spec_steps(intro) =~= seq![(TEXT_INTRO_1@, Some(IMG_INTRO_1@)), (TEXT_INTRO_2@, Some(IMG_INTRO_2@))]);
        }
        push_thing(&mut things, Thing { at: 0, what: ThingKind::Interlude(intro) });
        // teeny jumpscare
        push_thing(&mut things, Thing { at: 300, what: ThingKind::Dread });
        // message from the wizard
        let wizard_items = vec![msg(TEXT_WIZARD_1), msg_img(TEXT_WIZARD_2, IMG_CUBE)];
        let wizard = InterludeSpec::from_sequence(wizard_items);
        proof {
            assert(spec_steps(wizard) =~= seq![(TEXT_WIZARD_1@, no_image()), (TEXT_WIZARD_2@, Some(IMG_CUBE@))]);
        }
        push_thing(&mut things, Thing { at: 425, what: ThingKind::Interlude(wizard) });
        // recover from dread
        push_thing(&mut things, Thing { at: 500, what: ThingKind::MoveOn });
        // add a weapon cube
        push_thing(&mut things, Thing { at: 500, what: ThingKind::WeaponCube { x: 0, num: Num::whole(2) } });
        // a mob spawner that spawns a few mobs
        let sp_few_tbl: Vec<i32> = vec![2i32];
        proof {
            assert(sp_few_tbl@ =~= seq![2i32]);
        }
        let sp_few = MobSpawner::new(5, 2000, whole_options(sp_few_tbl));
        push_thing(&mut things, Thing { at: 620, what: ThingKind::MobSpawner(sp_few) });
        // a mob spawner that spawns a single mob
        let sp_one_tbl: Vec<i32> = vec![6i32];
        proof {
            assert(sp_one_tbl@ =~= seq![6i32]);
        }
        let sp_one = MobSpawner::new(1, 2000, whole_options(sp_one_tbl));
        push_thing(&mut things, Thing { at: 700, what: ThingKind::MobSpawner(sp_one) });
        // an interlude just before the fork
        let fork_items = vec![msg(TEXT_FORK0_1), msg(TEXT_FORK0_2)];
        let fork = InterludeSpec::from_sequence(fork_items);
        proof {
            assert(spec_steps(fork) =~= seq![(TEXT_FORK0_1@, no_image()), (TEXT_FORK0_2@, no_image())]);
        }
        push_thing(&mut things, Thing { at: 950, what: ThingKind::Interlude(fork) });
        LevelSpec { corridor_length: 150, rng_seed: 0x01, things }
    }

    fn level_1(level: LevelId) -> (s: LevelSpec)
        ensures
            s.wf(),
            s.things@.len() > 0,
            s.has_no_exit(),
            is_level_1(level.decisions, s),
    {
        let mut things: Vec<Thing> = Vec::new();
        // another message
        let note_items = vec![msg(TEXT_NOTE_1)];
        let note = InterludeSpec::from_sequence(note_items);
        proof {
            assert(spec_steps(note) =~= seq![(TEXT_NOTE_1@, no_image())]);
        }
        push_thing(&mut things, Thing { at: 100, what: ThingKind::Interlude(note) });
        // give two cubes to the player
        push_thing(&mut things, Thing { at: 150, what: ThingKind::WeaponCube { x: 1000, num: Num::whole(2) } });
        push_thing(&mut things, Thing { at: 200, what: ThingKind::WeaponCube { x: -1000, num: Num::whole(3) } });
        // mob spawner with 2s and 3s
        let sp_easy_tbl: Vec<i32> = vec![2i32, 3];
        proof {
            assert(sp_easy_tbl@ =~= seq![2i32, 3]);
        }
        let sp_easy = MobSpawner::new(10, 2000, whole_options(sp_easy_tbl));
        push_thing(&mut things, Thing { at: 400, what: ThingKind::MobSpawner(sp_easy) });
        // a bit more difficult
        let sp_hard_tbl: Vec<i32> = vec![2i32, 3, 4, 6, 9];
        proof {
            assert(sp_hard_tbl@ =~= seq![2i32, 3, 4, 6, 9]);
        }
        let sp_hard = MobSpawner::new(16, 1750, whole_options(sp_hard_tbl));
        push_thing(&mut things, Thing { at: 650, what: ThingKind::MobSpawner(sp_hard) });
        // another interlude just before the fork
        let question = if level.decisions == 0 {
            msg(TEXT_FORK1_LEFT)
        } else {
            msg(TEXT_FORK1_RIGHT)
        };
        let fork_items = vec![msg(TEXT_FORK1_1), question];
        let fork = InterludeSpec::from_sequence(fork_items);
        proof {
            if level.decisions == 0 {
                assert(spec_steps(fork) =~= seq![(TEXT_FORK1_1@, no_image()), (TEXT_FORK1_LEFT@, no_image())]);
            } else {
                assert(spec_steps(fork) =~= seq![(TEXT_FORK1_1@, no_image()), (TEXT_FORK1_RIGHT@, no_image())]);
            }
        }
        push_thing(&mut things, Thing { at: 950, what: ThingKind::Interlude(fork) });
        LevelSpec { corridor_length: 200, rng_seed: 0x3333_3333_fefe + (level.decisions as u64) * 997, things }
    }

    fn level_2r(level: LevelId) -> (s: LevelSpec)
        ensures
            s.wf(),
            s.things@.len() > 0,
            s.has_no_exit(),
            is_level_2r(level.decisions, s),
    {
        let harder = level.decisions == 0b11;
        let mut things: Vec<Thing> = Vec::new();
        // give three cubes to the player
        push_thing(&mut things, Thing { at: 90, what: ThingKind::WeaponCube { x: 1000, num: Num::whole(3) } });
        push_thing(&mut things, Thing { at: 100, what: ThingKind::WeaponCube { x: 0, num: Num::whole(5) } });
        push_thing(&mut things, Thing { at: 120, what: ThingKind::WeaponCube { x: -1000, num: Num::whole(7) } });
        // one mob spawner after another
        let spawner_1 = if harder {
            let sp_tbl: Vec<i32> = vec![10i32, 12, 15, 21, 25, 35, 49, 50, 54, 56, 63, 70, 72];
            proof {
                assert(sp_tbl@ =~= seq![10i32, 12, 15, 21, 25, 35, 49, 50, 54, 56, 63, 70, 72]);
            }
            let sp = MobSpawner::new(12, 1750, whole_options(sp_tbl));
            sp
        } else {
            let sp_tbl: Vec<i32> = vec![3i32, 5, 7, 10, 12, 15, 18, 21, 25, 27, 35];
            proof {
                assert(sp_tbl@ =~= seq![3i32, 5, 7, 10, 12, 15, 18, 21, 25, 27, 35]);
            }
            let sp = MobSpawner::new(10, 2000, whole_options(sp_tbl));
            sp
        };
        push_thing(&mut things, Thing { at: 360, what: ThingKind::MobSpawner(spawner_1) });
        let spawner_2 = if harder {
            let sp_tbl: Vec<i32> = vec![9i32, 10, 12, 15, 21, 25, 35, 49, 50, 54, 56, 60, 63, 70, 72, 84, 85, 87];
            proof {
                assert(sp_tbl@ =~= seq![9i32, 10, 12, 15, 21, 25, 35, 49, 50, 54, 56, 60, 63, 70, 72, 84, 85, 87]);
            }
            let sp = MobSpawner::new(20, 1700, whole_options(sp_tbl));
            sp
        } else {
            let sp_tbl: Vec<i32> = vec![3i32, 5, 7, 9, 12, 14, 18, 24, 39, 49, 54, 56, 63];
            proof {
                assert(sp_tbl@ =~= seq![3i32, 5, 7, 9, 12, 14, 18, 24, 39, 49, 54, 56, 63]);
            }
            let sp = MobSpawner::new(15, 1800, whole_options(sp_tbl));
            sp
        };
        push_thing(&mut things, Thing { at: 400, what: ThingKind::MobSpawner(spawner_2) });
        // add cube 2
        push_thing(&mut things, Thing { at: 600, what: ThingKind::WeaponCube { x: 0, num: Num::whole(2) } });
        // a stronger mob spawner
        let spawner_3 = if harder {
            let sp_tbl: Vec<i32> = vec![4i32, 9, 12, 15, 21, 24, 27, 32, 33, 35, 39, 45, 49, 50, 54, 55, 56, 70, 77, 81, 87, 91, 98];
            proof {
                assert(sp_tbl@ =~= seq![4i32, 9, 12, 15, 21, 24, 27, 32, 33, 35, 39, 45, 49, 50, 54, 55, 56, 70, 77, 81, 87, 91, 98]);
            }
            let sp = MobSpawner::new(24, 1500, whole_options(sp_tbl));
            sp
        } else {
            let sp_tbl: Vec<i32> = vec![2i32, 3, 4, 5, 6, 9, 12, 15, 21, 24, 32, 45, 49, 50, 51, 55];
            proof {
                assert(sp_tbl@ =~= seq![2i32, 3, 4, 5, 6, 9, 12, 15, 21, 24, 32, 45, 49, 50, 51, 55]);
            }
            let sp = MobSpawner::new(20, 1750, whole_options(sp_tbl));
            sp
        };
        push_thing(&mut things, Thing { at: 750, what: ThingKind::MobSpawner(spawner_3) });
        LevelSpec { corridor_length: 180, rng_seed: 0xc36b_58ca_1297_c528 + (level.decisions as u64) * 997, things }
    }

    fn level_2l(level: LevelId) -> (s: LevelSpec)
        ensures
            s.wf(),
            s.things@.len() > 0,
            s.has_no_exit(),
            is_level_2l(level.decisions, s),
    {
        let harder = level.decisions == 0b01;
        let mut things: Vec<Thing> = Vec::new();
        // give three cubes to the player
        push_thing(&mut things, Thing { at: 90, what: ThingKind::WeaponCube { x: 1000, num: Num::whole(4) } });
        push_thing(&mut things, Thing { at: 100, what: ThingKind::WeaponCube { x: 0, num: Num::whole(6) } });
        push_thing(&mut things, Thing { at: 120, what: ThingKind::WeaponCube { x: -1000, num: Num::whole(7) } });
        // one mob spawner after another
        let spawner_1 = if harder {
            let sp_tbl: Vec<i32> = vec![6i32, 7, 8, 12, 16, 20, 24, 28, 32, 35, 36, 49, 54, 56, 63, 64, 77, 80];
            proof {
                assert(sp_tbl@ =~= seq![6i32, 7, 8, 12, 16, 20, 24, 28, 32, 35, 36, 49, 54, 56, 63, 64, 77, 80]);
            }
            let sp = MobSpawner::new(15, 1800, whole_options(sp_tbl));
            sp
        } else {
            let sp_tbl: Vec<i32> = vec![4i32, 6, 7, 8, 12, 14, 16, 24, 35, 36];
            proof {
                assert(sp_tbl@ =~= seq![4i32, 6, 7, 8, 12, 14, 16, 24, 35, 36]);
            }
            let sp = MobSpawner::new(10, 2000, whole_options(sp_tbl));
            sp
        };
        push_thing(&mut things, Thing { at: 300, what: ThingKind::MobSpawner(spawner_1) });
        let spawner_2 = if harder {
            let sp_tbl: Vec<i32> = vec![12i32, 14, 18, 20, 28, 32, 35, 54, 64, 40, 42, 63, 66, 70, 77, 80, 84, 88, 91, 96, 98];
            proof {
                assert(sp_tbl@ =~= seq![12i32, 14, 18, 20, 28, 32, 35, 54, 64, 40, 42, 63, 66, 70, 77, 80, 84, 88, 91, 96, 98]);
            }
            let sp = MobSpawner::new(18, 1750, whole_options(sp_tbl));
            sp
        } else {
            let sp_tbl: Vec<i32> = vec![6i32, 7, 12, 18, 28, 20, 32, 35, 40, 42, 49, 54, 66, 70];
            proof {
                assert(sp_tbl@ =~= seq![6i32, 7, 12, 18, 28, 20, 32, 35, 40, 42, 49, 54, 66, 70]);
            }
            let sp = MobSpawner::new(15, 1800, whole_options(sp_tbl));
            sp
        };
        push_thing(&mut things, Thing { at: 350, what: ThingKind::MobSpawner(spawner_2) });
        // add cube 11
        push_thing(&mut things, Thing { at: 650, what: ThingKind::WeaponCube { x: 0, num: Num::whole(11) } });
        // a stronger mob spawner
        let spawner_3 = if harder {
            let sp_tbl: Vec<i32> = vec![6i32, 12, 7, 8, 11, 16, 21, 22, 24, 32, 33, 36, 49, 55, 56, 60, 64, 70, 77, 84, 91, 99, 121];
            proof {
                assert(sp_tbl@ =~= seq![6i32, 12, 7, 8, 11, 16, 21, 22, 24, 32, 33, 36, 49, 55, 56, 60, 64, 70, 77, 84, 91, 99, 121]);
            }
            let sp = MobSpawner::new(24, 1600, whole_options(sp_tbl));
            sp
        } else {
            let sp_tbl: Vec<i32> = vec![6i32, 7, 8, 11, 12, 7, 8, 16, 22, 21, 24, 32, 36, 49, 55, 63];
            proof {
                assert(sp_tbl@ =~= seq![6i32, 7, 8, 11, 12, 7, 8, 16, 22, 21, 24, 32, 36, 49, 55, 63]);
            }
            let sp = MobSpawner::new(18, 1700, whole_options(sp_tbl));
            sp
        };
        push_thing(&mut things, Thing { at: 750, what: ThingKind::MobSpawner(spawner_3) });
        LevelSpec { corridor_length: 180, rng_seed: 0x3434_3434_1297_c528 + (level.decisions as u64) * 997, things }
    }

    fn level_3(level: LevelId) -> (s: LevelSpec)
        ensures
            s.wf(),
            s.things@.len() > 0,
            s.has_no_exit(),
            is_level_3(level.decisions, s),
    {
        let harder = level.decisions == 0b001;
        let mut things: Vec<Thing> = Vec::new();
        // spawn a 1/3 cube
        push_thing(&mut things, Thing { at: 100, what: ThingKind::WeaponCube { x: 500, num: Num::new(1, 3) } });
        // spawn a 1/4 cube
        push_thing(&mut things, Thing { at: 150, what: ThingKind::WeaponCube { x: -500, num: Num::new(1, 4) } });
        // a mob spawner with equivalent fractions
        let spawner_1_tbl: Vec<(i32, i32)> = vec![(1i32, 3i32), (2, 6), (3, 9), (6, 18), (1, 4), (4, 16), (5, 20), (6, 24)];
        proof {
            assert(spawner_1_tbl@ =~= seq![(1i32, 3i32), (2, 6), (3, 9), (6, 18), (1, 4), (4, 16), (5, 20), (6, 24)]);
        }
        let spawner_1 = MobSpawner::new(12, 2000, frac_options(spawner_1_tbl));
        push_thing(&mut things, Thing { at: 225, what: ThingKind::MobSpawner(spawner_1) });
        // another mob spawner wave
        let spawner_2 = if harder {
            let sp_tbl: Vec<(i32, i32)> = vec![(4i32, 12i32), (6, 18), (7, 21), (8, 24), (9, 27), (12, 36), (15, 45), (3, 12), (5, 20), (6, 24), (7, 28), (8, 32), (9, 36), (12, 48), (15, 60)];
            proof {
                assert(sp_tbl@ =~= seq![(4i32, 12i32), (6, 18), (7, 21), (8, 24), (9, 27), (12, 36), (15, 45), (3, 12), (5, 20), (6, 24), (7, 28), (8, 32), (9, 36), (12, 48), (15, 60)]);
            }
            let sp = MobSpawner::new(18, 1720, frac_options(sp_tbl));
            sp
        } else {
            let sp_tbl: Vec<(i32, i32)> = vec![(1i32, 3i32), (2, 6), (4, 12), (6, 18), (7, 21), (8, 24), (9, 27), (1, 4), (3, 12), (5, 20), (6, 24), (7, 28), (8, 32), (9, 36)];
            proof {
                assert(sp_tbl@ =~= seq![(1i32, 3i32), (2, 6), (4, 12), (6, 18), (7, 21), (8, 24), (9, 27), (1, 4), (3, 12), (5, 20), (6, 24), (7, 28), (8, 32), (9, 36)]);
            }
            let sp = MobSpawner::new(15, 1900, frac_options(sp_tbl));
            sp
        };
        push_thing(&mut things, Thing { at: 300, what: ThingKind::MobSpawner(spawner_2) });
        // spawn a 3/4 cube
        push_thing(&mut things, Thing { at: 500, what: ThingKind::WeaponCube { x: 500, num: Num::new(3, 4) } });
        // a heavier spawner
        let spawner_3 = if harder {
            let sp_tbl: Vec<(i32, i32)> = vec![(2i32, 6i32), (3, 9), (4, 12), (6, 18), (7, 21), (9, 27), (10, 30), (16, 48), (24, 72), (3, 12), (6, 24), (8, 32), (9, 36), (10, 40), (12, 48), (24, 96), (3, 4), (6, 8), (9, 12), (12, 16), (15, 20), (18, 24), (21, 28), (24, 32), (33, 44)];
            proof {
                assert(sp_tbl@ =~= seq![(2i32, 6i32), (3, 9), (4, 12), (6, 18), (7, 21), (9, 27), (10, 30), (16, 48), (24, 72), (3, 12), (6, 24), (8, 32), (9, 36), (10, 40), (12, 48), (24, 96), (3, 4), (6, 8), (9, 12), (12, 16), (15, 20), (18, 24), (21, 28), (24, 32), (33, 44)]);
            }
            let sp = MobSpawner::new(25, 1700, frac_options(sp_tbl));
            sp
        } else {
            let sp_tbl: Vec<(i32, i32)> = vec![(1i32, 3i32), (2, 6), (3, 9), (4, 12), (6, 18), (7, 21), (1, 4), (6, 24), (8, 32), (9, 36), (3, 4), (6, 8), (9, 12), (12, 16), (15, 20), (18, 24)];
            proof {
                assert(sp_tbl@ =~= seq![(1i32, 3i32), (2, 6), (3, 9), (4, 12), (6, 18), (7, 21), (1, 4), (6, 24), (8, 32), (9, 36), (3, 4), (6, 8), (9, 12), (12, 16), (15, 20), (18, 24)]);
            }
            let sp = MobSpawner::new(20, 1800, frac_options(sp_tbl));
            sp
        };
        push_thing(&mut things, Thing { at: 720, what: ThingKind::MobSpawner(spawner_3) });
        LevelSpec { corridor_length: 180, rng_seed: 0x3454_4321_ffff + (level.decisions as u64) * 997, things }
    }

    fn level_4r(level: LevelId) -> (s: LevelSpec)
        ensures
            s.wf(),
            s.things@.len() > 0,
            s.has_no_exit(),
            is_level_4r(level.decisions, s),
    {
        let harder = level.decisions == 0b1001;
        let mut things: Vec<Thing> = Vec::new();
        // spawn 4 fraction cubes
        push_thing(&mut things, Thing { at: 90, what: ThingKind::WeaponCube { x: 1000, num: Num::new(1, 2) } });
        push_thing(&mut things, Thing { at: 120, what: ThingKind::WeaponCube { x: 500, num: Num::new(1, 5) } });
        push_thing(&mut things, Thing { at: 150, what: ThingKind::WeaponCube { x: 0, num: Num::new(1, 7) } });
        push_thing(&mut things, Thing { at: 180, what: ThingKind::WeaponCube { x: -500, num: Num::new(1, 8) } });
        // spawn a mob spawner
        let spawner_1_tbl: Vec<(i32, i32)> = vec![(1i32, 2i32), (2, 4), (4, 8), (6, 12), (8, 16), (10, 20), (16, 32), (3, 15), (4, 20), (5, 25), (6, 30), (7, 35), (8, 40), (1, 7), (2, 14), (3, 21), (4, 28), (5, 35), (6, 42), (7, 49), (8, 56), (9, 63), (11, 77), (1, 8), (2, 16), (3, 24), (4, 32), (5, 40), (6, 48), (7, 56), (8, 64), (9, 72)];
        proof {
            assert(spawner_1_tbl@ =~= seq![(1i32, 2i32), (2, 4), (4, 8), (6, 12), (8, 16), (10, 20), (16, 32), (3, 15), (4, 20), (5, 25), (6, 30), (7, 35), (8, 40), (1, 7), (2, 14), (3, 21), (4, 28), (5, 35), (6, 42), (7, 49), (8, 56), (9, 63), (11, 77), (1, 8), (2, 16), (3, 24), (4, 32), (5, 40), (6, 48), (7, 56), (8, 64), (9, 72)]);
        }
        let spawner_1 = MobSpawner::new(14, 1700, frac_options(spawner_1_tbl));
        push_thing(&mut things, Thing { at: 260, what: ThingKind::MobSpawner(spawner_1) });
        // spawn another mob spawner
        let spawner_2_tbl: Vec<(i32, i32)> = vec![(1i32, 2i32), (2, 4), (4, 8), (6, 12), (8, 16), (10, 20), (16, 32), (3, 15), (4, 20), (5, 25), (6, 30), (7, 35), (8, 40), (1, 7), (2, 14), (3, 21), (4, 28), (5, 35), (6, 42), (7, 49), (8, 56), (9, 63), (11, 77), (1, 8), (2, 16), (3, 24), (4, 32), (5, 40), (6, 48), (7, 56), (8, 64), (9, 72)];
        proof {
            assert(spawner_2_tbl@ =~= seq![(1i32, 2i32), (2, 4), (4, 8), (6, 12), (8, 16), (10, 20), (16, 32), (3, 15), (4, 20), (5, 25), (6, 30), (7, 35), (8, 40), (1, 7), (2, 14), (3, 21), (4, 28), (5, 35), (6, 42), (7, 49), (8, 56), (9, 63), (11, 77), (1, 8), (2, 16), (3, 24), (4, 32), (5, 40), (6, 48), (7, 56), (8, 64), (9, 72)]);
        }
        let spawner_2 = MobSpawner::new(16, 1700, frac_options(spawner_2_tbl));
        push_thing(&mut things, Thing { at: 320, what: ThingKind::MobSpawner(spawner_2) });
        // spawn a 2 cube
        push_thing(&mut things, Thing { at: 550, what: ThingKind::WeaponCube { x: 0, num: Num::whole(2) } });
        // final mob spawner
        let spawner_3 = if harder {
            let sp_tbl: Vec<(i32, i32)> = vec![(4i32, 2i32), (12, 6), (18, 9), (24, 12), (16, 4), (120, 1), (2, 10), (5, 25), (6, 30), (7, 35), (8, 40), (10, 50), (11, 55), (3, 21), (4, 28), (6, 42), (8, 56), (2, 16), (3, 24), (5, 40), (6, 48), (7, 56), (8, 64), (9, 72), (12, 96), (14, 16), (21, 24), (28, 32), (35, 40), (42, 48), (49, 56), (56, 64), (63, 72), (84, 96)];
            proof {
                assert(sp_tbl@ =~= seq![(4i32, 2i32), (12, 6), (18, 9), (24, 12), (16, 4), (120, 1), (2, 10), (5, 25), (6, 30), (7, 35), (8, 40), (10, 50), (11, 55), (3, 21), (4, 28), (6, 42), (8, 56), (2, 16), (3, 24), (5, 40), (6, 48), (7, 56), (8, 64), (9, 72), (12, 96), (14, 16), (21, 24), (28, 32), (35, 40), (42, 48), (49, 56), (56, 64), (63, 72), (84, 96)]);
            }
            let sp = MobSpawner::new(32, 1550, frac_options(sp_tbl));
            sp
        } else {
            let sp_tbl: Vec<(i32, i32)> = vec![(4i32, 2i32), (12, 6), (18, 9), (24, 12), (2, 10), (5, 25), (6, 30), (7, 35), (10, 50), (1, 7), (2, 14), (3, 21), (6, 42), (8, 56), (1, 8), (2, 16), (3, 24), (5, 40), (6, 48), (8, 64)];
            proof {
                assert(sp_tbl@ =~= seq![(4i32, 2i32), (12, 6), (18, 9), (24, 12), (2, 10), (5, 25), (6, 30), (7, 35), (10, 50), (1, 7), (2, 14), (3, 21), (6, 42), (8, 56), (1, 8), (2, 16), (3, 24), (5, 40), (6, 48), (8, 64)]);
            }
            let sp = MobSpawner::new(25, 1680, frac_options(sp_tbl));
            sp
        };
        push_thing(&mut things, Thing { at: 700, what: ThingKind::MobSpawner(spawner_3) });
        if harder {
            // also spawn a 7/8 cube
            push_thing(&mut things, Thing { at: 500, what: ThingKind::WeaponCube { x: 500, num: Num::new(7, 8) } });
        }
        LevelSpec { corridor_length: 250, rng_seed: 0x1ab2_4547_fdab, things }
    }

    fn level_4l(level: LevelId) -> (s: LevelSpec)
        ensures
            s.wf(),
            s.things@.len() > 0,
            s.has_no_exit(),
            is_level_4l(level.decisions, s),
    {
        let mut things: Vec<Thing> = Vec::new();
        // spawn 4 fraction cubes
        push_thing(&mut things, Thing { at: 90, what: ThingKind::WeaponCube { x: 1000, num: Num::new(1, 3) } });
        push_thing(&mut things, Thing { at: 120, what: ThingKind::WeaponCube { x: 500, num: Num::new(1, 4) } });
        push_thing(&mut things, Thing { at: 150, what: ThingKind::WeaponCube { x: 0, num: Num::new(1, 5) } });
        push_thing(&mut things, Thing { at: 180, what: ThingKind::WeaponCube { x: -500, num: Num::new(1, 6) } });
        // a mob spawner with equivalent fractions
        let spawner_1_tbl: Vec<(i32, i32)> = vec![(1i32, 3i32), (2, 6), (3, 9), (4, 12), (5, 15), (6, 18), (7, 21), (8, 24), (1, 4), (2, 8), (3, 12), (4, 16), (5, 20), (6, 24), (7, 28), (8, 32), (1, 5), (2, 10), (3, 15), (4, 20), (5, 25), (6, 30), (7, 35), (8, 40), (1, 6), (2, 12), (3, 18), (4, 24), (5, 30), (6, 36), (7, 42), (8, 48)];
        proof {
            assert(spawner_1_tbl@ =~= seq![(1i32, 3i32), (2, 6), (3, 9), (4, 12), (5, 15), (6, 18), (7, 21), (8, 24), (1, 4), (2, 8), (3, 12), (4, 16), (5, 20), (6, 24), (7, 28), (8, 32), (1, 5), (2, 10), (3, 15), (4, 20), (5, 25), (6, 30), (7, 35), (8, 40), (1, 6), (2, 12), (3, 18), (4, 24), (5, 30), (6, 36), (7, 42), (8, 48)]);
        }
        let spawner_1 = MobSpawner::new(22, 1720, frac_options(spawner_1_tbl));
        push_thing(&mut things, Thing { at: 275, what: ThingKind::MobSpawner(spawner_1) });
        // spawn a 2 cube
        push_thing(&mut things, Thing { at: 500, what: ThingKind::WeaponCube { x: 0, num: Num::whole(2) } });
        // mob spawner
        let spawner_2_tbl: Vec<(i32, i32)> = vec![(4i32, 2i32), (12, 6), (18, 9), (16, 4), (24, 12), (48, 1), (1, 3), (2, 6), (3, 9), (4, 12), (5, 15), (6, 18), (7, 21), (8, 24), (9, 27), (1, 4), (2, 8), (3, 12), (4, 16), (5, 20), (6, 24), (7, 28), (8, 32), (9, 36), (1, 5), (2, 10), (3, 15), (4, 20), (9, 45), (10, 50), (11, 55), (1, 6), (2, 12), (3, 18), (4, 24), (5, 30), (6, 36), (7, 42), (8, 48), (9, 54), (10, 60), (11, 66)];
        proof {
            assert(spawner_2_tbl@ =~= seq![(4i32, 2i32), (12, 6), (18, 9), (16, 4), (24, 12), (48, 1), (1, 3), (2, 6), (3, 9), (4, 12), (5, 15), (6, 18), (7, 21), (8, 24), (9, 27), (1, 4), (2, 8), (3, 12), (4, 16), (5, 20), (6, 24), (7, 28), (8, 32), (9, 36), (1, 5), (2, 10), (3, 15), (4, 20), (9, 45), (10, 50), (11, 55), (1, 6), (2, 12), (3, 18), (4, 24), (5, 30), (6, 36), (7, 42), (8, 48), (9, 54), (10, 60), (11, 66)]);
        }
        let spawner_2 = MobSpawner::new(24, 1700, frac_options(spawner_2_tbl));
        push_thing(&mut things, Thing { at: 700, what: ThingKind::MobSpawner(spawner_2) });
        LevelSpec { corridor_length: 250, rng_seed: 0x5c98_a112_fabf_551d + (level.decisions as u64) * 997, things }
    }

    /// Helper for the levels which just end the game: a single exit interlude
    /// at the start of a long, empty corridor.
    fn ending_level_impl(interludes: Vec<(String, Option<String>)>) -> (s: LevelSpec)
        requires
            interludes@.len() > 0,
        ensures
            s.wf(),
            s.is_ending(),
            s.corridor_length == 1000,
            s.rng_seed == 0,
            is_exit_interlude(s.things@[0], 0, spec_steps_of(interludes@)),
            s.ending_steps() == interludes@.len(),
    {
        let seq_spec = InterludeSpec::from_sequence_and_exit(interludes);
        let mut things: Vec<Thing> = Vec::new();
        things.push(Thing { at: 0, what: ThingKind::Interlude(seq_spec) });
        LevelSpec { corridor_length: 1000, rng_seed: 0, things }
    }

    fn ending_circle() -> (s: LevelSpec)
        ensures
            s.wf(),
            s.is_ending(),
            s.ending_steps() == 2,
            is_ending_circle(s),
    {
        // Ending 1: walk in circles
        let items = vec![msg(TEXT_CIRCLE_1), msg(TEXT_CIRCLE_2)];
        let s = Self::ending_level_impl(items);
        proof {
            assert(spec_steps_of(items@) =~= seq![(TEXT_CIRCLE_1@, no_image()), (TEXT_CIRCLE_2@, no_image())]);
        }
        s
    }

    fn ending_bedroom() -> (s: LevelSpec)
        ensures
            s.wf(),
            s.is_ending(),
            s.ending_steps() == 3,
            is_ending_bedroom(s),
    {
        // Ending 2: the bedroom
        let items = vec![msg_img(TEXT_BEDROOM_1, IMG_BEDROOM), msg(TEXT_BEDROOM_2), msg(TEXT_BEDROOM_3)];
        let s = Self::ending_level_impl(items);
        proof {
            assert(spec_steps_of(items@) =~= seq![(TEXT_BEDROOM_1@, Some(IMG_BEDROOM@)), (TEXT_BEDROOM_2@, no_image()), (TEXT_BEDROOM_3@, no_image())]);
        }
        s
    }

    fn ending_dungeon() -> (s: LevelSpec)
        ensures
            s.wf(),
            s.is_ending(),
            s.ending_steps() == 4,
            is_ending_dungeon(s),
    {
        // Ending 3: the dungeon
        let items = vec![msg_img(TEXT_DUNGEON_1, IMG_DUNGEON_1), msg_img(TEXT_DUNGEON_2, IMG_DUNGEON_2), msg(TEXT_DUNGEON_3), msg(TEXT_DUNGEON_4)];
        let s = Self::ending_level_impl(items);
        proof {
            assert(spec_steps_of(items@) =~= seq![(TEXT_DUNGEON_1@, Some(IMG_DUNGEON_1@)), (TEXT_DUNGEON_2@, Some(IMG_DUNGEON_2@)), (TEXT_DUNGEON_3@, no_image()), (TEXT_DUNGEON_4@, no_image())]);
        }
        s
    }

    fn ending_mirror() -> (s: LevelSpec)
        ensures
            s.wf(),
            s.is_ending(),
            s.ending_steps() == 5,
            is_ending_mirror(s),
    {
        // Ending 4: the mirror
        let items = vec![msg(TEXT_MIRROR_1), msg(TEXT_MIRROR_2), msg_img(TEXT_MIRROR_3, IMG_MIRROR_1), msg(TEXT_MIRROR_4), msg_img(TEXT_MIRROR_5, IMG_MIRROR_2)];
        let s = Self::ending_level_impl(items);
        proof {
            assert(spec_steps_of(items@) =~= seq![(TEXT_MIRROR_1@, no_image()), (TEXT_MIRROR_2@, no_image()), (TEXT_MIRROR_3@, Some(IMG_MIRROR_1@)), (TEXT_MIRROR_4@, no_image()), (TEXT_MIRROR_5@, Some(IMG_MIRROR_2@))]);
        }
        s
    }

    /// Resolve a level identity to its full, deterministic content.
    ///
    /// Total over the legal domain: every well-formed identity maps to the
    /// well-formed level that `spec_resolved` pins for it, placement by
    /// placement. Levels before the terminal stage never end the game; every
    /// terminal-stage identity resolves to an ending whose farewell length
    /// names it.
    pub fn resolve(id: LevelId) -> (s: LevelSpec)
        requires
            id.wf(),
        ensures
            s.wf(),
            spec_resolved(id, s),
            id.stage < MAX_STAGES ==> s.things@.len() > 0 && s.has_no_exit(),
            id.stage == MAX_STAGES ==> s.is_ending() && s.ending_steps() == spec_terminal_steps(
                id.decisions,
            ),
    {
        if id.stage == 0 {
            // starting level
            Self::level_0()
        } else if id.stage == 1 {
            Self::level_1(id)
        } else if id.stage == 2 {
            if (id.decisions >> 1) == 0 {
                // stage 2, went left last
                Self::level_2l(id)
            } else {
                // stage 2, went right last
                Self::level_2r(id)
            }
        } else if id.stage == 3 {
            Self::level_3(id)
        } else if id.stage == 4 {
            if (id.decisions >> 3) == 0 {
                // stage 4, went left last
                Self::level_4l(id)
            } else {
                // stage 4, went right last
                Self::level_4r(id)
            }
        } else {
            // terminal stage: dispatch on the complete decision pattern
            if id.decisions == 0b10000 || id.decisions == 0b01111 {
                // keep going left then right, or keep going right then left
                Self::ending_bedroom()
            } else if id.decisions == 0b01010 || id.decisions == 0b10101 {
                // zig-zag
                Self::ending_dungeon()
            } else if id.decisions == 0b01001 {
                // the mirror
                Self::ending_mirror()
            } else {
                // fallback for the remaining terminal patterns
                Self::ending_circle()
            }
        }
    }
}

/// Law: level resolution is a pure function of the identity. Any two level
/// specifications that resolve one identity agree on the corridor, the seed,
/// and every placement's observable content, so replaying the same decision
/// path reproduces the identical level.
#[verifier::rlimit(100)]
pub proof fn lemma_resolution_deterministic(id: LevelId, s1: LevelSpec, s2: LevelSpec)
    requires
        id.wf(),
        spec_resolved(id, s1),
        spec_resolved(id, s2),
    ensures
        s1.corridor_length == s2.corridor_length,
        s1.rng_seed == s2.rng_seed,
        s1.things@.len() == s2.things@.len(),
        forall|i: int|
            0 <= i < s1.things@.len() ==> same_thing(#[trigger] s1.things@[i], s2.things@[i]),
{
    assert forall|i: int|
        0 <= i < s1.things@.len() implies same_thing(s1.things@[i], s2.things@[i]) by {
        if i == 0 {
        } else if i == 1 {
        } else if i == 2 {
        } else if i == 3 {
        } else if i == 4 {
        } else if i == 5 {
        } else if i == 6 {
        } else if i == 7 {
        } else {
        }
    }
}

impl Default for LevelSpec {
    /// The default level content: exactly the stage-0 introductory level.
    fn default() -> (r: LevelSpec)
        ensures
            r.wf(),
            is_level_0(r),
    {
        LevelSpec::level_0()
    }
}

/// The active level: its identity and its resolved content.
#[derive(Debug)]
pub struct CurrentLevel {
    pub id: LevelId,
    pub resolved: LevelSpec,
}

impl CurrentLevel {
    /// The identity is legal and the held content is exactly what resolution
    /// owes that identity.
    pub open spec fn wf(self) -> bool {
        &&& self.id.wf()
        &&& self.resolved.wf()
        &&& spec_resolved(self.id, self.resolved)
    }
}

impl Default for CurrentLevel {
    /// The default (stage 0) level at game start: the introductory level.
    fn default() -> (r: CurrentLevel)
        ensures
            r.wf(),
            r.id == (LevelId { stage: 0u8, decisions: 0u8 }),
            is_level_0(r.resolved),
    {
        let id = LevelId { stage: 0, decisions: 0 };
        proof {
            assert(0u8 >> 0u8 == 0u8) by (bit_vector);
        }
        CurrentLevel { id, resolved: LevelSpec::resolve(id) }
    }
}

impl CurrentLevel {
    /// Apply a branch decision: on success the identity advances and the held
    /// content is replaced by exactly the new identity's level; at the stage
    /// ceiling nothing changes and the caller's transition request is
    /// refused.
    pub fn advance(&mut self, decision: Decision) -> (ok: bool)
        requires
            old(self).wf(),
        ensures
            final(self).wf(),
            ok == (old(self).id.stage < MAX_STAGES),
            (final(self).id, ok) == old(self).id.spec_add_decision(decision),
            ok ==> spec_resolved(final(self).id, final(self).resolved),
            !ok ==> *final(self) == *old(self),
    {
        if self.id.add_decision(decision) {
            self.resolved = LevelSpec::resolve(self.id);
            true
        } else {
            false
        }
    }

    /// Return to the default (stage 0) level, as when the game is reset: the
    /// held content becomes the introductory level again.
    pub fn reset(&mut self)
        ensures
            final(self).wf(),
            final(self).id == (LevelId { stage: 0u8, decisions: 0u8 }),
            is_level_0(final(self).resolved),
    {
        *self = CurrentLevel::default();
    }
}

} // verus!
