//! Interlude messages: story, explanations and dialog shown to the player.
//!
//! An interlude is a chain of steps, each with a message and an optional
//! image. Dismissing the last step either resumes the game or — for the
//! endings — exits back to the menu.
use vstd::prelude::*;

verus! {

/// What happens when the player dismisses an interlude step.
#[derive(Debug)]
pub enum InterludeEffect {
    /// Show the next interlude step
    Next(Box<InterludeSpec>),
    /// Resume the game
    Resume,
    /// Return to the main menu, ending the run
    Exit,
}

/// Complete specification for an interlude step and what follows it.
#[derive(Debug)]
pub struct InterludeSpec {
    /// the text message shown in this step
    pub message: String,
    /// path of the image to present alongside this step
    pub image: Option<String>,
    /// what should happen when the player dismisses this step
    pub effect: InterludeEffect,
}

/// View of an optional image path.
pub open spec fn spec_image_view(i: Option<String>) -> Option<Seq<char>> {
    match i {
        Some(p) => Some(p@),
        None => None,
    }
}

/// The steps of the chain, in presentation order: message and image of each.
pub open spec fn spec_steps(s: InterludeSpec) -> Seq<(Seq<char>, Option<Seq<char>>)>
    decreases s,
{
    let head = (s.message@, spec_image_view(s.image));
    match s.effect {
        InterludeEffect::Next(b) => seq![head] + spec_steps(*b),
        InterludeEffect::Resume => seq![head],
        InterludeEffect::Exit => seq![head],
    }
}

/// Whether reaching the end of this interlude chain ends the game.
pub open spec fn spec_is_exit(s: InterludeSpec) -> bool
    decreases s,
{
    match s.effect {
        InterludeEffect::Next(b) => spec_is_exit(*b),
        InterludeEffect::Resume => false,
        InterludeEffect::Exit => true,
    }
}

/// The step view of one (message, image) input pair.
pub open spec fn spec_step_of(p: (String, Option<String>)) -> (Seq<char>, Option<Seq<char>>) {
    (p.0@, spec_image_view(p.1))
}

/// The step views of a whole input sequence.
pub open spec fn spec_steps_of(items: Seq<(String, Option<String>)>) -> Seq<
    (Seq<char>, Option<Seq<char>>),
> {
    items.map_values(|p: (String, Option<String>)| spec_step_of(p))
}

impl InterludeSpec {
    /// Build a chain from the given steps; dismissing the last one resumes
    /// the game.
    pub fn from_sequence(items: Vec<(String, Option<String>)>) -> (r: InterludeSpec)
        requires
            items@.len() > 0,
        ensures
            spec_steps(r) == spec_steps_of(items@),
            !spec_is_exit(r),
    {
        Self::from_sequence_impl(items, false)
    }

    /// Build a chain from the given steps; dismissing the last one ends the
    /// game.
    pub fn from_sequence_and_exit(items: Vec<(String, Option<String>)>) -> (r: InterludeSpec)
        requires
            items@.len() > 0,
        ensures
            spec_steps(r) == spec_steps_of(items@),
            spec_is_exit(r),
    {
        Self::from_sequence_impl(items, true)
    }

    fn from_sequence_impl(items: Vec<(String, Option<String>)>, exit: bool) -> (r: InterludeSpec)
        requires
            items@.len() > 0,
        ensures
            spec_steps(r) == spec_steps_of(items@),
            spec_is_exit(r) == exit,
    {
        let ghost all = items@;
        let mut v = items;
        let last = v.pop().unwrap();
        let (message, image) = last;
        let mut cur = InterludeSpec {
            message,
            image,
            effect: if exit {
                InterludeEffect::Exit
            } else {
                InterludeEffect::Resume
            },
        };
        proof {
            assert(spec_steps(cur) =~= spec_steps_of(
                all.subrange(v@.len() as int, all.len() as int),
            ));
        }
        while v.len() > 0
            invariant
                v@ == all.subrange(0, v@.len() as int),
                v@.len() < all.len(),
                spec_steps(cur) =~= spec_steps_of(all.subrange(v@.len() as int, all.len() as int)),
                spec_is_exit(cur) == exit,
            decreases v@.len(),
        {
            let ghost n = v@.len() as int;
            let prev = v.pop().unwrap();
            let (message, image) = prev;
            cur = InterludeSpec { message, image, effect: InterludeEffect::Next(Box::new(cur)) };
            proof {
                assert(v@ =~= all.subrange(0, v@.len() as int));
                assert(spec_steps(cur) =~= spec_steps_of(all.subrange(n - 1, all.len() as int)));
            }
        }
        proof {
            assert(all.subrange(0, all.len() as int) =~= all);
        }
        cur
    }

    /// A single step that resumes the game when dismissed.
    pub fn new_single(message: String, image: Option<String>) -> (r: InterludeSpec)
        ensures
            spec_steps(r) =~= seq![(message@, spec_image_view(image))],
            !spec_is_exit(r),
    {
        InterludeSpec { message, image, effect: InterludeEffect::Resume }
    }

    /// Whether reaching this interlude also means the end of the game.
    pub fn is_exit(&self) -> (r: bool)
        ensures
            r == spec_is_exit(*self),
        decreases *self,
    {
        match &self.effect {
            InterludeEffect::Exit => true,
            InterludeEffect::Resume => false,
            InterludeEffect::Next(next) => next.is_exit(),
        }
    }
}

} // verus!
