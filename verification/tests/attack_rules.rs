use fortress_core::logic::{test_attack, test_attack_on, AttackTest, Target, TargetRule};
use fortress_core::num::Num;

fn frac(n: i32, d: i32) -> Num {
    Num::new(n, d)
}

fn whole(n: i32) -> Num {
    Num::whole(n)
}

#[test]
fn rational_equality_ignores_representation() {
    assert_eq!(frac(1, 3), frac(2, 6));
    assert_eq!(frac(2, 4), frac(1, 2));
    assert_eq!(frac(-2, 6), frac(1, -3));
    assert_eq!(frac(12, 4), whole(3));
    assert_ne!(frac(1, 3), frac(1, 2));
    assert_ne!(frac(2, 6), frac(-1, 3));
}

#[test]
fn construction_reduces_to_lowest_terms() {
    let n = frac(2, 6);
    assert_eq!(n.numer, 1);
    assert_eq!(n.denom, 3);
    let n = frac(-8, 12);
    assert_eq!(n.numer, -2);
    assert_eq!(n.denom, 3);
    let n = frac(7, -21);
    assert_eq!(n.numer, -1);
    assert_eq!(n.denom, 3);
    let n = frac(5, 5);
    assert_eq!(n.numer, 1);
    assert_eq!(n.denom, 1);
    let n = frac(0, -4);
    assert_eq!(n.numer, 0);
    assert_eq!(n.denom, 1);
}

#[test]
fn construction_matches_reference_rationals() {
    let cases = [(2, 6), (-8, 12), (7, -21), (5, 5), (0, -4), (121, 11), (-3, -9), (17, 4)];
    for &(n, d) in cases.iter() {
        let mine = frac(n, d);
        let reference = num_rational::Ratio::<i32>::new(n, d);
        assert_eq!(mine.numer, *reference.numer());
        assert_eq!(mine.denom, *reference.denom());
    }
}

#[test]
fn factorize_exact_match_kills() {
    for n in [whole(1), whole(2), whole(-7), frac(1, 3), frac(-5, 4), whole(0)] {
        assert_eq!(test_attack(TargetRule::Factorize, n, n), AttackTest::Effective(None));
    }
    // equivalent fractions count as an exact match
    assert_eq!(
        test_attack(TargetRule::Factorize, frac(2, 6), frac(1, 3)),
        AttackTest::Effective(None)
    );
}

#[test]
fn factorize_target_of_one_dies_to_anything() {
    for n in [whole(1), whole(2), whole(-7), whole(100), frac(1, 2)] {
        assert_eq!(test_attack(TargetRule::Factorize, n, whole(1)), AttackTest::Effective(None));
    }
}

#[test]
fn factorize_integer_division_reduces_target() {
    assert_eq!(
        test_attack(TargetRule::Factorize, whole(2), whole(6)),
        AttackTest::Effective(Some(whole(3)))
    );
    assert_eq!(
        test_attack(TargetRule::Factorize, whole(3), whole(9)),
        AttackTest::Effective(Some(whole(3)))
    );
    // target is not an integer, not one, and differs from the attack
    assert_eq!(test_attack(TargetRule::Factorize, whole(2), frac(1, 3)), AttackTest::Failed);
    // an attack of one reduces the target to itself
    assert_eq!(
        test_attack(TargetRule::Factorize, whole(1), whole(6)),
        AttackTest::Effective(Some(whole(6)))
    );
    // negative divisors work on the exact value
    assert_eq!(
        test_attack(TargetRule::Factorize, whole(-2), whole(6)),
        AttackTest::Effective(Some(whole(-3)))
    );
    // non-divisors fail
    assert_eq!(test_attack(TargetRule::Factorize, whole(4), whole(6)), AttackTest::Failed);
    // an attack of zero does nothing to a nonzero target
    assert_eq!(test_attack(TargetRule::Factorize, whole(0), whole(6)), AttackTest::Failed);
}

#[test]
fn factorize_fraction_target_resists_whole_attacks() {
    // a reduced fraction target is never an integer multiple of a whole
    // attack; only an exact match (or a target of one) can destroy it
    for a in [whole(2), whole(3), whole(-6), whole(30)] {
        assert_eq!(test_attack(TargetRule::Factorize, a, frac(6, 5)), AttackTest::Failed);
    }
    // the zero target is a multiple of every nonzero whole attack
    assert_eq!(
        test_attack(TargetRule::Factorize, whole(3), whole(0)),
        AttackTest::Effective(Some(whole(0)))
    );
}

#[test]
fn factorize_non_integer_attack_fails() {
    assert_eq!(test_attack(TargetRule::Factorize, frac(1, 2), whole(7)), AttackTest::Failed);
    assert_eq!(test_attack(TargetRule::Factorize, frac(2, 3), whole(4)), AttackTest::Failed);
}

#[test]
fn equal_rule_compares_exact_values() {
    assert_eq!(test_attack(TargetRule::Equal, frac(1, 3), frac(2, 6)), AttackTest::Effective(None));
    assert_eq!(test_attack(TargetRule::Equal, frac(1, 3), frac(1, 2)), AttackTest::Failed);
    assert_eq!(test_attack(TargetRule::Equal, whole(4), whole(4)), AttackTest::Effective(None));
    assert_eq!(test_attack(TargetRule::Equal, whole(4), whole(2)), AttackTest::Failed);
}

#[test]
fn invulnerable_rule_always_fails() {
    for x in [whole(0), whole(1), frac(1, 3), whole(-5)] {
        for y in [whole(0), whole(1), frac(1, 3), whole(-5)] {
            assert_eq!(test_attack(TargetRule::Invulnerable, x, y), AttackTest::Failed);
        }
    }
}

#[test]
fn attack_on_target_uses_its_rule() {
    let t = Target { num: whole(6), rule: TargetRule::Factorize };
    assert_eq!(test_attack_on(&t, whole(2)), AttackTest::Effective(Some(whole(3))));
    let t = Target { num: whole(6), rule: TargetRule::Equal };
    assert_eq!(test_attack_on(&t, whole(2)), AttackTest::Failed);
    let t = Target { num: whole(6), rule: TargetRule::Invulnerable };
    assert_eq!(test_attack_on(&t, whole(6)), AttackTest::Failed);
}

#[test]
fn factorize_agrees_with_reference_rationals() {
    // compare the factorize rule against the same computation carried out
    // with the reference rational library
    for tn in -12..=12i32 {
        for td in 1..=4i32 {
            for a in -6..=6i32 {
                let target = frac(tn, td);
                let attack = whole(a);
                let got = test_attack(TargetRule::Factorize, attack, target);
                let rt = num_rational::Ratio::<i32>::new(tn, td);
                let ra = num_rational::Ratio::<i32>::new(a, 1);
                let expected = if rt == num_rational::Ratio::<i32>::new(1, 1) || rt == ra {
                    AttackTest::Effective(None)
                } else if a == 0 {
                    // the reference library cannot take a remainder by zero;
                    // a zero attack never divides a nonzero target
                    AttackTest::Failed
                } else if (rt % ra) == num_rational::Ratio::<i32>::new(0, 1) {
                    let q = rt / ra;
                    AttackTest::Effective(Some(frac(*q.numer(), *q.denom())))
                } else {
                    AttackTest::Failed
                };
                assert_eq!(got, expected, "attack {a} against {tn}/{td}");
            }
        }
    }
}
