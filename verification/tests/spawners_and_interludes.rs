use fortress_core::interlude::{InterludeEffect, InterludeSpec};
use fortress_core::logic::TargetRule;
use fortress_core::num::Num;
use fortress_core::spawner::MobSpawner;
use tinyrand::Seeded;

fn rng(seed: u64) -> tinyrand::SplitMix {
    tinyrand::SplitMix::seed(seed)
}

#[test]
fn spawner_spawns_on_the_interval_until_done() {
    let mut sp = MobSpawner::new(2, 1000, vec![Num::whole(7)]);
    let mut r = rng(42);
    assert!(!sp.active);
    // inactive spawners never spawn
    assert!(sp.spawn_step(10_000, &mut r).is_none());
    sp.activate(5000);
    // the first mob is due immediately
    let t = sp.spawn_step(5000, &mut r).expect("first spawn is due");
    assert_eq!(t.num, Num::whole(7));
    assert_eq!(t.rule, TargetRule::Factorize);
    assert_eq!(sp.count, 1);
    // and the next one only after the interval
    assert!(sp.spawn_step(5500, &mut r).is_none());
    let t = sp.spawn_step(6000, &mut r).expect("second spawn after the interval");
    assert_eq!(t.num, Num::whole(7));
    assert_eq!(sp.count, 0);
    assert!(sp.done());
    // nothing is left to spawn
    assert!(sp.spawn_step(60_000, &mut r).is_none());
}

#[test]
fn spawner_draws_numbers_from_its_options() {
    let options = vec![Num::whole(2), Num::whole(3), Num::new(1, 4)];
    let mut sp = MobSpawner::new(30, 1000, options.clone());
    let mut r = rng(7);
    sp.activate(0);
    let mut now = 0i64;
    let mut seen_all = [false; 3];
    while !sp.done() {
        let t = sp.spawn_step(now, &mut r).expect("a spawn is due every second");
        let idx = options.iter().position(|o| *o == t.num).expect("number drawn from options");
        seen_all[idx] = true;
        now += 1000;
    }
    // thirty draws out of three options: all of them appear
    assert!(seen_all.iter().all(|s| *s), "draws are spread over the options");
}

#[test]
fn seeded_spawning_is_reproducible() {
    let options = vec![Num::whole(2), Num::whole(3), Num::whole(5), Num::whole(7)];
    let mut a = MobSpawner::new(12, 500, options.clone());
    let mut b = MobSpawner::new(12, 500, options);
    let mut ra = rng(0xfeed);
    let mut rb = rng(0xfeed);
    a.activate(0);
    b.activate(0);
    for step in 0..12i64 {
        let ta = a.spawn_step(step * 500, &mut ra).expect("spawn due");
        let tb = b.spawn_step(step * 500, &mut rb).expect("spawn due");
        assert_eq!(ta.num, tb.num, "same seed gives the same spawn sequence");
    }
}

#[test]
fn spawner_keeps_its_target_rule() {
    let mut sp =
        MobSpawner::new_with_target_rule(1, 1000, vec![Num::new(1, 3)], TargetRule::Equal);
    let mut r = rng(1);
    sp.activate(1000);
    let t = sp.spawn_step(1000, &mut r).expect("spawn due");
    assert_eq!(t.rule, TargetRule::Equal);
    assert_eq!(t.num, Num::new(2, 6));
}

#[test]
fn hurry_brings_the_next_spawn_forward() {
    let mut sp = MobSpawner::new(3, 2000, vec![Num::whole(2)]);
    // inactive spawners are not hurried
    assert!(!sp.hurry(10_000));
    sp.activate(0);
    let mut r = rng(3);
    assert!(sp.spawn_step(0, &mut r).is_some());
    // nothing is due yet, but hurrying reschedules the next spawn
    assert!(sp.spawn_step(100, &mut r).is_none());
    assert!(sp.hurry(100));
    assert!(sp.spawn_step(100, &mut r).is_none());
    assert!(sp.spawn_step(250, &mut r).is_some());
    // a finished spawner is not hurried
    assert!(sp.spawn_step(10_000, &mut r).is_some());
    assert!(sp.done());
    assert!(!sp.hurry(20_000));
}

#[test]
fn interlude_sequences_chain_their_steps() {
    let seq = InterludeSpec::from_sequence(vec![
        ("first".to_string(), Some("one.png".to_string())),
        ("second".to_string(), None),
    ]);
    assert!(!seq.is_exit());
    assert_eq!(seq.message, "first");
    assert_eq!(seq.image.as_deref(), Some("one.png"));
    match &seq.effect {
        InterludeEffect::Next(next) => {
            assert_eq!(next.message, "second");
            assert_eq!(next.image, None);
            assert!(matches!(next.effect, InterludeEffect::Resume));
        }
        other => panic!("expected a chained step, found {other:?}"),
    }
}

#[test]
fn exit_sequences_end_the_game() {
    let seq = InterludeSpec::from_sequence_and_exit(vec![
        ("a".to_string(), None),
        ("b".to_string(), None),
        ("c".to_string(), None),
    ]);
    assert!(seq.is_exit());
    let mut cur = &seq;
    let mut messages = vec![cur.message.clone()];
    while let InterludeEffect::Next(next) = &cur.effect {
        cur = next;
        messages.push(cur.message.clone());
    }
    assert_eq!(messages, vec!["a", "b", "c"]);
    assert!(matches!(cur.effect, InterludeEffect::Exit));
}

#[test]
fn single_interludes_resume_the_game() {
    let one = InterludeSpec::new_single("hello".to_string(), None);
    assert!(!one.is_exit());
    assert_eq!(one.message, "hello");
    assert!(matches!(one.effect, InterludeEffect::Resume));
}
