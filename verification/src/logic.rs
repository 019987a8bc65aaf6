//! The attack rule engine.
//!
//! The player attacks a target by throwing a number at it. Whether the attack
//! is effective — and what happens to the target's number — is decided here,
//! as a pure function of the target's rule, the attack value and the target
//! value.
use vstd::prelude::*;

use crate::num::Num;

verus! {

use crate::num::{num_eq, spec_is_multiple_of};

/// The rule governing how attacks resolve against a target.
#[derive(Debug, Default, Clone, Copy, PartialEq, Eq, Structural)]
pub enum TargetRule {
    /// The default rule for most targets.
    /// The attack number must be a whole factor of the target, further
    /// decomposing the target number until it reaches 1.
    ///
    /// If the target number is 1, or exactly equal to the attack,
    /// any such attack destroys it outright.
    #[default]
    Factorize,
    /// The attack number must be exactly equal to the target.
    ///
    /// Equivalent fractions are considered equal.
    Equal,
    /// Any attack fails.
    /// Usually a temporary state, or a rule for temporary obstacles.
    Invulnerable,
}

/// The outcome of resolving one attack.
#[derive(Debug, Clone, Copy, PartialEq)]
pub enum AttackTest {
    /// The attack was effective: the target becomes the given number
    /// (`Some`), or is damaged (`None`).
    Effective(Option<Num>),
    /// The attack was ineffective; the attacker takes retaliatory damage.
    Failed,
}

/// An entity's attackable state: its number and the rule that governs it.
#[derive(Debug, Clone, Copy)]
pub struct Target {
    /// the number affecting how the target should be attacked
    pub num: Num,
    /// the rule for attacking the target
    pub rule: TargetRule,
}

impl Target {
    pub open spec fn wf(self) -> bool {
        self.num.wf()
    }
}

/// Under the factorize rule, a whole attack reduces the target when the
/// target is a (nonzero) integer multiple of it.
pub open spec fn factorize_reduces(attack: Num, target: Num) -> bool {
    attack.numer != 0 && spec_is_multiple_of(target, attack)
}

/// What `test_attack` returns, case by case. The quotient in the reduction
/// case is pinned by its defining equation `target == q * attack`.
pub open spec fn spec_attack_outcome(
    rule: TargetRule,
    attack: Num,
    target: Num,
    r: AttackTest,
) -> bool {
    match rule {
        TargetRule::Invulnerable => r == AttackTest::Failed,
        TargetRule::Equal => r == (if num_eq(attack, target) {
            AttackTest::Effective(None::<Num>)
        } else {
            AttackTest::Failed
        }),
        TargetRule::Factorize => {
            if target.numer == target.denom || num_eq(attack, target) {
                r == AttackTest::Effective(None::<Num>)
            } else if attack.denom != 1 {
                r == AttackTest::Failed
            } else if factorize_reduces(attack, target) {
                match r {
                    AttackTest::Effective(q_opt) => match q_opt {
                        Some(q) => {
                            &&& q.wf()
                            &&& q.denom == 1
                            &&& target.numer as int == q.numer as int * attack.numer as int
                                * target.denom as int
                        },
                        None => false,
                    },
                    AttackTest::Failed => false,
                }
            } else {
                r == AttackTest::Failed
            }
        },
    }
}

/// Test an attack to see what effect it has on a target value under the
/// given rule. Pure and total: the same inputs always give the same outcome.
pub fn test_attack(rule: TargetRule, attack: Num, target: Num) -> (r: AttackTest)
    requires
        attack.wf(),
        target.wf(),
    ensures
        spec_attack_outcome(rule, attack, target, r),
{
    match rule {
        TargetRule::Equal => {
            if attack == target {
                AttackTest::Effective(None)
            } else {
                AttackTest::Failed
            }
        },
        TargetRule::Factorize => {
            if target.is_one() || target == attack {
                AttackTest::Effective(None)
            } else if !attack.is_integer() {
                AttackTest::Failed
            } else {
                match target.div_by_whole(&attack) {
                    Some(q) => AttackTest::Effective(Some(q)),
                    None => AttackTest::Failed,
                }
            }
        },
        TargetRule::Invulnerable => AttackTest::Failed,
    }
}

/// Resolve an attack against a live target.
pub fn test_attack_on(target: &Target, attack: Num) -> (r: AttackTest)
    requires
        target.wf(),
        attack.wf(),
    ensures
        spec_attack_outcome(target.rule, attack, target.num, r),
{
    test_attack(target.rule, attack, target.num)
}

/// Law: under the factorize rule, an attack that exactly matches the target
/// destroys it outright, for every well-formed value.
pub proof fn lemma_factorize_exact_match_kills(n: Num, r: AttackTest)
    requires
        n.wf(),
        spec_attack_outcome(TargetRule::Factorize, n, n, r),
    ensures
        r == AttackTest::Effective(None::<Num>),
{
    assert(num_eq(n, n));
}

/// Law: under the factorize rule, a target of one is destroyed by any attack.
pub proof fn lemma_factorize_target_one_killed(attack: Num, target: Num, r: AttackTest)
    requires
        attack.wf(),
        target.wf(),
        target.numer == target.denom,
        spec_attack_outcome(TargetRule::Factorize, attack, target, r),
    ensures
        r == AttackTest::Effective(None::<Num>),
{
}

/// Law: under the equal rule, the attack is effective exactly when attack and
/// target denote the same rational value.
pub proof fn lemma_equal_rule_is_value_equality(attack: Num, target: Num, r: AttackTest)
    requires
        attack.wf(),
        target.wf(),
        spec_attack_outcome(TargetRule::Equal, attack, target, r),
    ensures
        r == AttackTest::Effective(None::<Num>) <==> num_eq(attack, target),
        r == AttackTest::Failed <==> !num_eq(attack, target),
{
}

/// Law: an invulnerable target shrugs off every attack.
pub proof fn lemma_invulnerable_always_fails(attack: Num, target: Num, r: AttackTest)
    requires
        spec_attack_outcome(TargetRule::Invulnerable, attack, target, r),
    ensures
        r == AttackTest::Failed,
{
}

} // verus!
