//! Level identity: a stage counter and the trail of left/right decisions.
//!
//! Levels are identified by an increasing stage number starting from 0, and a
//! small bit vector of the decisions made so far, starting from the least
//! significant bit, where 0 is left and 1 is right. For example,
//! `LevelId { stage: 2, decisions: 0b10 }` means the third stage, where the
//! player went left and then right.
use vstd::prelude::*;

verus! {

use vstd::string::StringExecFns;

/// The number of branch decisions in one full run; advancing past it is
/// refused.
pub const MAX_STAGES: u8 = 5;

/// A branch decision at the end of a corridor.
#[derive(Debug, Clone, Copy, PartialEq, Eq, Structural)]
pub enum Decision {
    Left,
    Right,
}

/// Identifies a level by how the player got there.
#[derive(Debug, Clone, Copy, PartialEq, Eq, Structural)]
pub struct LevelId {
    pub stage: u8,
    pub decisions: u8,
}

impl Default for LevelId {
    /// The starting level: stage 0, no decisions.
    fn default() -> (r: LevelId)
        ensures
            r == (LevelId { stage: 0u8, decisions: 0u8 }),
    {
        LevelId { stage: 0, decisions: 0 }
    }
}

impl LevelId {
    /// Only bits below `stage` may be set, and the stage never exceeds the
    /// ceiling.
    pub open spec fn wf(self) -> bool {
        self.stage <= MAX_STAGES && (self.decisions >> self.stage) == 0
    }

    /// The decision recorded for a past stage, if that stage was reached.
    pub open spec fn spec_decision_at(self, i: int) -> Option<Decision> {
        if 0 <= i < self.stage {
            if (self.decisions >> (i as u8)) & 1 == 1 {
                Some(Decision::Right)
            } else {
                Some(Decision::Left)
            }
        } else {
            None
        }
    }

    /// Functional account of `add_decision`: the new identity, and whether
    /// the advance was accepted.
    pub open spec fn spec_add_decision(self, decision: Decision) -> (LevelId, bool) {
        if self.stage >= MAX_STAGES {
            (self, false)
        } else {
            (
                LevelId {
                    stage: (self.stage + 1) as u8,
                    decisions: if decision == Decision::Right {
                        self.decisions | (1u8 << self.stage)
                    } else {
                        self.decisions
                    },
                },
                true,
            )
        }
    }

    /// Record a decision and move to the next stage. At the stage ceiling the
    /// request is refused and the identity is left unchanged, so callers can
    /// gate a level-load transition on the result.
    pub fn add_decision(&mut self, decision: Decision) -> (ok: bool)
        requires
            old(self).wf(),
        ensures
            final(self).wf(),
            (*final(self), ok) == old(self).spec_add_decision(decision),
            ok == (old(self).stage < MAX_STAGES),
            !ok ==> *final(self) == *old(self),
            ok ==> final(self).stage == old(self).stage + 1,
            ok ==> final(self).spec_decision_at(old(self).stage as int) == Some(decision),
            forall|i: int|
                0 <= i < old(self).stage ==> final(self).spec_decision_at(i)
                    == old(self).spec_decision_at(i),
    {
        if self.stage >= MAX_STAGES {
            return false;
        }
        let ghost d = self.decisions;
        let ghost s = self.stage;
        if decision == Decision::Right {
            self.decisions = self.decisions | (1u8 << self.stage);
        }
        self.stage = self.stage + 1;
        proof {
            assert(((d | (1u8 << s)) >> ((s + 1) as u8)) == 0 && ((d | (1u8 << s)) >> s) & 1 == 1)
                by (bit_vector)
                requires
                    d >> s == 0,
                    s < 5u8,
            ;
            assert((d >> ((s + 1) as u8)) == 0 && (d >> s) & 1 == 0) by (bit_vector)
                requires
                    d >> s == 0,
                    s < 5u8,
            ;
            assert(forall|i: u8| i < s ==> ((d | (1u8 << s)) >> i) & 1 == (d >> i) & 1)
                by (bit_vector)
                requires
                    s < 5u8,
            ;
            assert forall|i: int| 0 <= i < s implies self.spec_decision_at(i)
                == old(self).spec_decision_at(i) by {
                let iu = i as u8;
                assert(iu < s);
            }
        }
        true
    }

    /// The decision recorded for a given historical stage index, or nothing
    /// if that stage has not been reached yet.
    pub fn decision_at(&self, stage: u8) -> (r: Option<Decision>)
        requires
            self.wf(),
        ensures
            r == self.spec_decision_at(stage as int),
    {
        if stage < self.stage {
            if (self.decisions >> stage) & 1 == 1 {
                Some(Decision::Right)
            } else {
                Some(Decision::Left)
            }
        } else {
            None
        }
    }
}

/// Law: once the stage ceiling is reached, adding a decision changes nothing
/// and reports failure — so however many times it is attempted, the stage
/// stays pinned at the ceiling.
pub proof fn lemma_ceiling_pins_stage(id: LevelId, decision: Decision)
    requires
        id.wf(),
        id.stage == MAX_STAGES,
    ensures
        id.spec_add_decision(decision) == (id, false),
{
}

/// The digit for a stage number, which is at most `MAX_STAGES`.
pub open spec fn spec_stage_char(s: u8) -> char {
    if s == 0 {
        '0'
    } else if s == 1 {
        '1'
    } else if s == 2 {
        '2'
    } else if s == 3 {
        '3'
    } else if s == 4 {
        '4'
    } else {
        '5'
    }
}

/// The `<`/`>` arrows for the first `n` recorded decisions, earliest first.
pub open spec fn spec_arrows(d: u8, n: int) -> Seq<char>
    decreases n,
{
    if n <= 0 {
        Seq::empty()
    } else {
        spec_arrows(d, n - 1).push(
            if (d >> ((n - 1) as u8)) & 1 == 1 {
                '>'
            } else {
                '<'
            },
        )
    }
}

impl LevelId {
    /// The rendered form of the identity: the stage number followed, when any
    /// decision was made, by the parenthesized decision arrows.
    pub open spec fn spec_text(self) -> Seq<char> {
        if self.stage == 0 {
            seq![spec_stage_char(self.stage)]
        } else {
            seq![spec_stage_char(self.stage)] + seq!['('] + spec_arrows(
                self.decisions,
                self.stage as int,
            ) + seq![')']
        }
    }

    /// Render the identity, such as `3(<><)` for stage 3 after going left,
    /// right, then left.
    pub fn display_text(&self) -> (r: String)
        requires
            self.wf(),
        ensures
            r@ == self.spec_text(),
    {
        proof {
            reveal_strlit("0");
            reveal_strlit("1");
            reveal_strlit("2");
            reveal_strlit("3");
            reveal_strlit("4");
            reveal_strlit("5");
            reveal_strlit("(");
            reveal_strlit(")");
            reveal_strlit("<");
            reveal_strlit(">");
        }
        let mut out = String::new();
        if self.stage == 0 {
            out.append("0");
        } else if self.stage == 1 {
            out.append("1");
        } else if self.stage == 2 {
            out.append("2");
        } else if self.stage == 3 {
            out.append("3");
        } else if self.stage == 4 {
            out.append("4");
        } else {
            out.append("5");
        }
        if self.stage == 0 {
            assert(out@ =~= self.spec_text());
            return out;
        }
        out.append("(");
        let mut i: u8 = 0;
        while i < self.stage
            invariant
                self.wf(),
                0 < self.stage,
                i <= self.stage,
                out@ =~= seq![spec_stage_char(self.stage)] + seq!['('] + spec_arrows(
                    self.decisions,
                    i as int,
                ),
        decreases self.stage - i,
        {
            if (self.decisions >> i) & 1 == 1 {
                out.append(">");
            } else {
                out.append("<");
            }
            proof {
                reveal_strlit("<");
                reveal_strlit(">");
                let c = if (self.decisions >> i) & 1 == 1 {
                    '>'
                } else {
                    '<'
                };
                assert(spec_arrows(self.decisions, i as int + 1) == spec_arrows(
                    self.decisions,
                    i as int,
                ).push(c));
            }
            i = i + 1;
        }
        out.append(")");
        assert(out@ =~= self.spec_text());
        out
    }
}

} // verus!
