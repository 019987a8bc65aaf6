//! Cheat codes: a rolling buffer of typed letters, and the rules that decide
//! what a recognized code does to the game state.
use vstd::prelude::*;

use crate::content::CurrentLevel;
use crate::level::Decision;

verus! {

use vstd::string::StrSliceExecFns;

/// Most letters the buffer remembers; older ones fall off the front.
pub const TEXT_BUFFER_CAPACITY: usize = 32;

/// Long-lasting cheat effects.
#[derive(Debug, Clone, Copy, PartialEq, Eq, Structural)]
pub struct Cheats {
    pub used_cheats: bool,
    pub invulnerability: bool,
}

impl Default for Cheats {
    fn default() -> (r: Cheats)
        ensures
            r == (Cheats { used_cheats: false, invulnerability: false }),
    {
        Cheats { used_cheats: false, invulnerability: false }
    }
}

/// `b` ends with `s`.
pub open spec fn ends_with(b: Seq<char>, s: Seq<char>) -> bool {
    s.len() <= b.len() && b.skip(b.len() - s.len()) == s
}

/// The letters the player typed most recently.
#[derive(Debug)]
pub struct TextBuffer {
    pub buffer: Vec<char>,
}

impl TextBuffer {
    pub open spec fn wf(self) -> bool {
        self.buffer@.len() <= TEXT_BUFFER_CAPACITY
    }

    /// An empty buffer.
    pub fn new() -> (r: TextBuffer)
        ensures
            r.wf(),
            r.buffer@ == Seq::<char>::empty(),
    {
        TextBuffer { buffer: Vec::new() }
    }

    /// Whether the typed text ends with the given code.
    pub fn has_typed(&self, cheat: &str) -> (r: bool)
        ensures
            r == ends_with(self.buffer@, cheat@),
    {
        let n = cheat.unicode_len();
        if n > self.buffer.len() {
            return false;
        }
        let offset = self.buffer.len() - n;
        let mut j: usize = 0;
        while j < n
            invariant
                n == cheat@.len(),
                n <= self.buffer@.len(),
                self.buffer@.len() <= usize::MAX,
                offset == self.buffer@.len() - n,
                j <= n,
                forall|k: int| 0 <= k < j ==> self.buffer@[offset + k] == cheat@[k],
            decreases n - j,
        {
            if cheat.get_char(j) != self.buffer[offset + j] {
                proof {
                    assert(self.buffer@.skip(offset as int)[j as int] != cheat@[j as int]);
                }
                return false;
            }
            j = j + 1;
        }
        proof {
            assert(self.buffer@.skip(offset as int) =~= cheat@);
        }
        true
    }

    /// Forget everything typed so far.
    pub fn clear(&mut self)
        ensures
            final(self).wf(),
            final(self).buffer@ == Seq::<char>::empty(),
    {
        self.buffer.clear();
    }

    /// Remember one more letter, dropping the oldest one when full.
    pub fn push(&mut self, c: char)
        requires
            old(self).wf(),
        ensures
            final(self).wf(),
            final(self).buffer@ == if old(self).buffer@.len() < TEXT_BUFFER_CAPACITY {
                old(self).buffer@.push(c)
            } else {
                old(self).buffer@.push(c).skip(1)
            },
    {
        self.buffer.push(c);
        if self.buffer.len() > TEXT_BUFFER_CAPACITY {
            self.buffer.remove(0);
            proof {
                assert(self.buffer@ =~= old(self).buffer@.push(c).skip(1));
            }
        }
    }
}

/// What the buffer holds after a cheat check: recognized codes consume it.
pub open spec fn spec_cheat_outcome(
    b: Seq<char>,
    in_live: bool,
    old_cheats: Cheats,
    old_level: CurrentLevel,
    new_buffer: Seq<char>,
    new_cheats: Cheats,
    new_level_id: crate::level::LevelId,
    load_level: bool,
) -> bool {
    if ends_with(b, "iddqd"@) {
        &&& new_cheats == (Cheats {
            used_cheats: true,
            invulnerability: !old_cheats.invulnerability,
        })
        &&& new_buffer == Seq::<char>::empty()
        &&& new_level_id == old_level.id
        &&& !load_level
    } else if ends_with(b, "nothingleftforme"@) {
        &&& new_buffer == Seq::<char>::empty()
        &&& if in_live {
            &&& new_cheats == (Cheats { used_cheats: true, ..old_cheats })
            &&& (new_level_id, load_level) == old_level.id.spec_add_decision(Decision::Left)
        } else {
            &&& new_cheats == old_cheats
            &&& new_level_id == old_level.id
            &&& !load_level
        }
    } else if ends_with(b, "thisisdownrightridiculous"@) {
        if in_live {
            &&& new_buffer == Seq::<char>::empty()
            &&& new_cheats == (Cheats { used_cheats: true, ..old_cheats })
            &&& (new_level_id, load_level) == old_level.id.spec_add_decision(Decision::Right)
        } else {
            &&& new_buffer == b
            &&& new_cheats == old_cheats
            &&& new_level_id == old_level.id
            &&& !load_level
        }
    } else {
        &&& new_buffer == b
        &&& new_cheats == old_cheats
        &&& new_level_id == old_level.id
        &&& !load_level
    }
}

/// Check the typed buffer for a cheat code and apply its effect: `iddqd`
/// toggles invulnerability; `nothingleftforme` and `thisisdownrightridiculous`
/// advance the level left or right while the game is live. The result says
/// whether the caller should load the next level.
pub fn check_cheat(
    buffer: &mut TextBuffer,
    cheats: &mut Cheats,
    level: &mut CurrentLevel,
    in_live: bool,
) -> (load_level: bool)
    requires
        old(level).wf(),
    ensures
        final(level).wf(),
        !load_level ==> *final(level) == *old(level),
        spec_cheat_outcome(
            old(buffer).buffer@,
            in_live,
            *old(cheats),
            *old(level),
            final(buffer).buffer@,
            *final(cheats),
            final(level).id,
            load_level,
        ),
{
    if buffer.has_typed("iddqd") {
        cheats.invulnerability = !cheats.invulnerability;
        cheats.used_cheats = true;
        buffer.clear();
        false
    } else if buffer.has_typed("nothingleftforme") {
        let mut load = false;
        if in_live {
            load = level.advance(Decision::Left);
            cheats.used_cheats = true;
        }
        buffer.clear();
        load
    } else if buffer.has_typed("thisisdownrightridiculous") {
        if in_live {
            let load = level.advance(Decision::Right);
            cheats.used_cheats = true;
            buffer.clear();
            load
        } else {
            false
        }
    } else {
        false
    }
}

} // verus!
