use fortress_core::content::{CurrentLevel, LevelSpec, Thing, ThingKind};
use fortress_core::level::{Decision, LevelId, MAX_STAGES};

fn ending_message(spec: &LevelSpec) -> String {
    assert_eq!(spec.things.len(), 1);
    match &spec.things[0].what {
        ThingKind::Interlude(it) => it.message.clone(),
        other => panic!("an ending should hold a single interlude, found {other:?}"),
    }
}

#[test]
fn resolution_is_total_over_legal_identities() {
    for stage in 0..=MAX_STAGES {
        for decisions in 0u8..(1u8 << stage) {
            let id = LevelId { stage, decisions };
            let spec = LevelSpec::resolve(id);
            assert!(spec.corridor_length > 0, "empty corridor for {stage}/{decisions:05b}");
            assert!(!spec.things.is_empty(), "no content for {stage}/{decisions:05b}");
            for Thing { at, what } in &spec.things {
                assert!(*at <= 1000);
                if let ThingKind::MobSpawner(sp) = what {
                    assert!(!sp.target_options.is_empty());
                    assert!(sp.spawn_interval_ms >= 1);
                }
            }
        }
    }
}

#[test]
fn levels_before_the_end_never_exit() {
    for stage in 0..MAX_STAGES {
        for decisions in 0u8..(1u8 << stage) {
            let spec = LevelSpec::resolve(LevelId { stage, decisions });
            for thing in &spec.things {
                if let ThingKind::Interlude(it) = &thing.what {
                    assert!(!it.is_exit(), "level {stage}/{decisions:05b} can end the game");
                }
            }
        }
    }
}

#[test]
fn every_terminal_pattern_is_an_ending() {
    for decisions in 0u8..(1u8 << MAX_STAGES) {
        let spec = LevelSpec::resolve(LevelId { stage: MAX_STAGES, decisions });
        assert_eq!(spec.things.len(), 1, "ending {decisions:05b} has extra content");
        let thing = &spec.things[0];
        assert_eq!(thing.at, 0);
        match &thing.what {
            ThingKind::Interlude(it) => assert!(it.is_exit()),
            other => panic!("ending {decisions:05b} holds {other:?}"),
        }
    }
}

#[test]
fn all_left_resolves_to_an_exit_interlude() {
    let mut current = CurrentLevel::default();
    for _ in 0..MAX_STAGES {
        assert!(current.advance(Decision::Left));
    }
    assert_eq!(current.id, LevelId { stage: MAX_STAGES, decisions: 0 });
    assert_eq!(current.resolved.things.len(), 1);
    match &current.resolved.things[0].what {
        ThingKind::Interlude(it) => assert!(it.is_exit()),
        other => panic!("expected an exit interlude, found {other:?}"),
    }
}

#[test]
fn special_patterns_select_their_endings() {
    let circle = ending_message(&LevelSpec::resolve(LevelId { stage: 5, decisions: 0b00000 }));
    let bedroom_a = ending_message(&LevelSpec::resolve(LevelId { stage: 5, decisions: 0b10000 }));
    let bedroom_b = ending_message(&LevelSpec::resolve(LevelId { stage: 5, decisions: 0b01111 }));
    let dungeon_a = ending_message(&LevelSpec::resolve(LevelId { stage: 5, decisions: 0b01010 }));
    let dungeon_b = ending_message(&LevelSpec::resolve(LevelId { stage: 5, decisions: 0b10101 }));
    let mirror = ending_message(&LevelSpec::resolve(LevelId { stage: 5, decisions: 0b01001 }));
    // mirrored keep-one-direction patterns share the bedroom ending
    assert_eq!(bedroom_a, bedroom_b);
    // the two zig-zags share the dungeon ending
    assert_eq!(dungeon_a, dungeon_b);
    // the named endings are all distinct from the fallback and each other
    assert_ne!(bedroom_a, circle);
    assert_ne!(dungeon_a, circle);
    assert_ne!(mirror, circle);
    assert_ne!(bedroom_a, dungeon_a);
    assert_ne!(bedroom_a, mirror);
    assert_ne!(dungeon_a, mirror);
    // an unnamed terminal pattern falls back to the circle ending
    let other = ending_message(&LevelSpec::resolve(LevelId { stage: 5, decisions: 0b00110 }));
    assert_eq!(other, circle);
}

#[test]
fn decisions_select_level_variants() {
    // at stage 2, the previous decision picks the left or right variant
    let left = LevelSpec::resolve(LevelId { stage: 2, decisions: 0b00 });
    let right = LevelSpec::resolve(LevelId { stage: 2, decisions: 0b10 });
    assert_ne!(left.rng_seed, right.rng_seed);
    // seeds also vary within a variant by the decision trail
    let harder = LevelSpec::resolve(LevelId { stage: 2, decisions: 0b01 });
    assert_ne!(left.rng_seed, harder.rng_seed);
}

#[test]
fn advance_and_reset_manage_the_current_level() {
    let mut current = CurrentLevel::default();
    assert_eq!(current.id, LevelId { stage: 0, decisions: 0 });
    let stage0_seed = current.resolved.rng_seed;
    assert!(current.advance(Decision::Right));
    assert_eq!(current.id, LevelId { stage: 1, decisions: 0b1 });
    assert_ne!(current.resolved.rng_seed, stage0_seed);
    for d in [Decision::Left, Decision::Right, Decision::Left, Decision::Right] {
        assert!(current.advance(d));
    }
    assert_eq!(current.id.stage, MAX_STAGES);
    // past the ceiling, the request is refused and the level is kept
    let seed_at_end = current.resolved.rng_seed;
    assert!(!current.advance(Decision::Left));
    assert_eq!(current.id.stage, MAX_STAGES);
    assert_eq!(current.resolved.rng_seed, seed_at_end);
    // reset returns to the very first level
    current.reset();
    assert_eq!(current.id, LevelId { stage: 0, decisions: 0 });
    assert_eq!(current.resolved.rng_seed, stage0_seed);
}

#[test]
fn the_introductory_level_is_pinned() {
    let spec = LevelSpec::resolve(LevelId { stage: 0, decisions: 0 });
    assert_eq!(spec.corridor_length, 150);
    assert_eq!(spec.rng_seed, 0x01);
    assert_eq!(spec.things.len(), 8);
    let at: Vec<u16> = spec.things.iter().map(|t| t.at).collect();
    assert_eq!(at, vec![0, 300, 425, 500, 500, 620, 700, 950]);
    assert!(matches!(spec.things[1].what, ThingKind::Dread));
    assert!(matches!(spec.things[3].what, ThingKind::MoveOn));
    match &spec.things[4].what {
        ThingKind::WeaponCube { x, num } => {
            assert_eq!(*x, 0);
            assert_eq!(num.numer, 2);
            assert_eq!(num.denom, 1);
        }
        other => panic!("expected the weapon cube, found {other:?}"),
    }
    match &spec.things[5].what {
        ThingKind::MobSpawner(sp) => {
            assert_eq!(sp.count, 5);
            assert_eq!(sp.spawn_interval_ms, 2000);
            assert!(!sp.active, "placed spawners start disabled");
            assert_eq!(sp.last_spawn_ms, 0);
            assert_eq!(sp.target_options.len(), 1);
            assert_eq!(sp.target_options[0].numer, 2);
            assert_eq!(sp.target_options[0].denom, 1);
        }
        other => panic!("expected the first spawner, found {other:?}"),
    }
    match &spec.things[0].what {
        ThingKind::Interlude(it) => {
            assert!(!it.is_exit());
            assert_eq!(it.image.as_deref(), Some("interlude-01.png"));
        }
        other => panic!("expected the opening interlude, found {other:?}"),
    }
}

#[test]
fn resolution_is_reproducible() {
    // resolving the same identity twice yields the same observable level
    for stage in 0..=MAX_STAGES {
        for decisions in 0u8..(1u8 << stage) {
            let id = LevelId { stage, decisions };
            let a = LevelSpec::resolve(id);
            let b = LevelSpec::resolve(id);
            assert_eq!(a.corridor_length, b.corridor_length);
            assert_eq!(a.rng_seed, b.rng_seed);
            assert_eq!(a.things.len(), b.things.len());
            for (ta, tb) in a.things.iter().zip(b.things.iter()) {
                assert_eq!(ta.at, tb.at);
                match (&ta.what, &tb.what) {
                    (ThingKind::MobSpawner(sa), ThingKind::MobSpawner(sb)) => {
                        assert_eq!(sa.count, sb.count);
                        assert_eq!(sa.spawn_interval_ms, sb.spawn_interval_ms);
                        assert_eq!(sa.target_options, sb.target_options);
                    }
                    (ThingKind::Interlude(ia), ThingKind::Interlude(ib)) => {
                        assert_eq!(ia.message, ib.message);
                        assert_eq!(ia.is_exit(), ib.is_exit());
                    }
                    (ThingKind::WeaponCube { x: xa, num: na }, ThingKind::WeaponCube { x: xb, num: nb }) => {
                        assert_eq!(xa, xb);
                        assert_eq!(na, nb);
                    }
                    (ThingKind::Dread, ThingKind::Dread) => {}
                    (ThingKind::MoveOn, ThingKind::MoveOn) => {}
                    (la, lb) => panic!("placement kinds differ: {la:?} vs {lb:?}"),
                }
            }
        }
    }
}

#[test]
fn the_harder_variant_follows_the_trail() {
    // at the right-hand third level the all-right trail is the harder one
    let normal = LevelSpec::resolve(LevelId { stage: 2, decisions: 0b10 });
    let harder = LevelSpec::resolve(LevelId { stage: 2, decisions: 0b11 });
    let counts = |s: &LevelSpec| -> Vec<u32> {
        s.things
            .iter()
            .filter_map(|t| match &t.what {
                ThingKind::MobSpawner(sp) => Some(sp.count),
                _ => None,
            })
            .collect()
    };
    assert_eq!(counts(&normal), vec![10, 15, 20]);
    assert_eq!(counts(&harder), vec![12, 20, 24]);
    // the hardest level grants an extra cube on its harder trail
    let plain = LevelSpec::resolve(LevelId { stage: 4, decisions: 0b1000 });
    let extra = LevelSpec::resolve(LevelId { stage: 4, decisions: 0b1001 });
    assert_eq!(plain.things.len(), 8);
    assert_eq!(extra.things.len(), 9);
}
