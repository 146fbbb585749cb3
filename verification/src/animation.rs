//! Frame-by-frame state machines: typed text, the defeated heart, the game over screen
//! and the jumping frog bullet. Timers are the host's; it tells each step whether a
//! timer fired.
use vstd::prelude::*;
use crate::scripts::opt_view;
use crate::text::{take_chars};

verus! {

/// Text typed one character at a time.
pub struct Typewriter {
    pub full_text: String,
    pub visible_chars: usize,
    pub finished: bool,
}

/// A typewriter about to type `text`, showing nothing yet.
pub open spec fn fresh_typewriter(text: String) -> Typewriter {
    Typewriter { full_text: text, visible_chars: 0, finished: false }
}

/// One frame of typing: the typewriter afterwards and the text to show, if it changed. A
/// finished typewriter stays as it is; `skip` shows the whole text and finishes; a `tick`
/// shows one more character, or finishes once all are shown.
pub open spec fn typewriter_next(tw: Typewriter, skip: bool, tick: bool) -> (Typewriter, Option<Seq<char>>) {
    let n = tw.full_text@.len();
    if tw.finished {
        (tw, None)
    } else if skip {
        (Typewriter { visible_chars: n as usize, finished: true, ..tw }, Some(tw.full_text@))
    } else if tick && tw.visible_chars < n {
        (
            Typewriter { visible_chars: (tw.visible_chars + 1) as usize, ..tw },
            Some(tw.full_text@.take(tw.visible_chars + 1)),
        )
    } else if tick {
        (Typewriter { finished: true, ..tw }, None)
    } else {
        (tw, None)
    }
}

/// The typewriter after `ticks` frames in which the typing timer fired and nothing was
/// skipped.
pub open spec fn typed(tw: Typewriter, ticks: nat) -> Typewriter
    decreases ticks,
{
    if ticks == 0 {
        tw
    } else {
        typewriter_next(typed(tw, (ticks - 1) as nat), false, true).0
    }
}

/// A new typewriter for `text`.
pub fn new_typewriter(text: String) -> (t: Typewriter)
    ensures
        t == fresh_typewriter(text),
{
    Typewriter { full_text: text, visible_chars: 0, finished: false }
}

/// One frame of typing. `skip` is the key that shows the whole text at once, `tick` tells
/// whether the typing timer fired. Returns the text to show when it changed.
pub fn typewriter_step(tw: &mut Typewriter, skip: bool, tick: bool) -> (shown: Option<String>)
    ensures
        (*final(tw), opt_view(shown)) == typewriter_next(*old(tw), skip, tick),
        final(tw).full_text == old(tw).full_text,
        old(tw).finished ==> *final(tw) == *old(tw) && shown is None,
        !old(tw).finished && skip ==> final(tw).finished && final(tw).visible_chars
            == old(tw).full_text@.len() && shown is Some && shown->0@ == old(tw).full_text@,
        !old(tw).finished && !skip && tick && old(tw).visible_chars < old(tw).full_text@.len()
            ==> !final(tw).finished && final(tw).visible_chars == old(tw).visible_chars + 1
            && shown is Some && shown->0@ == old(tw).full_text@.take(
            final(tw).visible_chars as int,
        ),
        !old(tw).finished && !skip && tick && old(tw).visible_chars >= old(tw).full_text@.len()
            ==> final(tw).finished && final(tw).visible_chars == old(tw).visible_chars
            && shown is None,
        !old(tw).finished && !skip && !tick ==> *final(tw) == *old(tw) && shown is None,
{
    if tw.finished {
        return None;
    }
    let count = tw.full_text.as_str().unicode_len();
    if skip {
        tw.visible_chars = count;
        tw.finished = true;
        return Some(tw.full_text.clone());
    }
    if tick {
        if tw.visible_chars < count {
            tw.visible_chars = tw.visible_chars + 1;
            return Some(take_chars(tw.full_text.as_str(), tw.visible_chars));
        } else {
            tw.finished = true;
        }
    }
    None
}

/// Typing a text tick by tick shows it one more character per tick: after `k` ticks the
/// first `k` characters are shown and typing goes on; the tick after the last character
/// finishes the typewriter with the whole text shown.
pub proof fn law_typing_reveals_prefixes(text: String, k: nat)
    requires
        text@.len() <= usize::MAX,
        k <= text@.len(),
    ensures
        typed(fresh_typewriter(text), k).visible_chars == k,
        !typed(fresh_typewriter(text), k).finished,
        k > 0 ==> typewriter_next(typed(fresh_typewriter(text), (k - 1) as nat), false, true).1
            == Some(text@.take(k as int)),
        typed(fresh_typewriter(text), text@.len() + 1).finished,
        typed(fresh_typewriter(text), text@.len() + 1).visible_chars == text@.len(),
{
    lemma_typed_prefix(text, k);
    lemma_typed_prefix(text, text@.len());
    if k > 0 {
        lemma_typed_prefix(text, (k - 1) as nat);
    }
    assert(typed(fresh_typewriter(text), text@.len() + 1) == typewriter_next(
        typed(fresh_typewriter(text), text@.len()),
        false,
        true,
    ).0);
}

/// After `k` ticks, no more than the text has characters, `k` characters are shown and the
/// typing goes on.
proof fn lemma_typed_prefix(text: String, k: nat)
    requires
        text@.len() <= usize::MAX,
        k <= text@.len(),
    ensures
        typed(fresh_typewriter(text), k).visible_chars == k,
        !typed(fresh_typewriter(text), k).finished,
        typed(fresh_typewriter(text), k).full_text == text,
    decreases k,
{
    if k > 0 {
        lemma_typed_prefix(text, (k - 1) as nat);
    }
}

/// The defeated heart: it waits, cracks, then shatters.
#[derive(Clone, Copy, Debug, PartialEq, Eq, Structural)]
pub enum HeartDefeatedState {
    InitialDelay,
    Cracked,
}

/// What the host does for the defeated heart this frame.
pub enum HeartStep {
    /// Keep waiting.
    Wait,
    /// Show the cracked heart, nudged left, and wait again.
    Crack,
    /// Burst into shards, start the game over screen, remove the heart.
    Shatter,
}

/// One frame of the defeated heart; `timer_done` tells whether its timer has run out.
pub fn heart_defeated_step(state: &mut HeartDefeatedState, timer_done: bool) -> (s: HeartStep)
    ensures
        !timer_done ==> *final(state) == *old(state) && s is Wait,
        timer_done && *old(state) == HeartDefeatedState::InitialDelay ==> *final(state)
            == HeartDefeatedState::Cracked && s is Crack,
        timer_done && *old(state) == HeartDefeatedState::Cracked ==> *final(state)
            == HeartDefeatedState::Cracked && s is Shatter,
{
    if !timer_done {
        return HeartStep::Wait;
    }
    match *state {
        HeartDefeatedState::InitialDelay => {
            *state = HeartDefeatedState::Cracked;
            HeartStep::Crack
        },
        HeartDefeatedState::Cracked => HeartStep::Shatter,
    }
}

/// The game over screen: a delay, the logo fading in, then rest.
#[derive(Clone, Copy, Debug, PartialEq, Eq, Structural)]
pub enum GameOverSequenceState {
    Delay,
    FadeIn,
    Finished,
}

/// What the host does for the game over screen this frame.
pub enum GameOverStep {
    /// Nothing.
    Wait,
    /// Show the logo, transparent, and restart the timer for the fade.
    ShowLogo,
    /// Set the logo's opacity to the timer's progress.
    Fade,
    /// Make the logo fully opaque; the sequence is over.
    Complete,
}

/// One frame of the game over screen; `timer_done` tells whether its timer has run out.
pub fn game_over_step(state: &mut GameOverSequenceState, timer_done: bool) -> (s: GameOverStep)
    ensures
        *old(state) == GameOverSequenceState::Delay ==> if timer_done {
            *final(state) == GameOverSequenceState::FadeIn && s is ShowLogo
        } else {
            *final(state) == GameOverSequenceState::Delay && s is Wait
        },
        *old(state) == GameOverSequenceState::FadeIn ==> if timer_done {
            *final(state) == GameOverSequenceState::Finished && s is Complete
        } else {
            *final(state) == GameOverSequenceState::FadeIn && s is Fade
        },
        *old(state) == GameOverSequenceState::Finished ==> *final(state)
            == GameOverSequenceState::Finished && s is Wait,
{
    match *state {
        GameOverSequenceState::Delay => {
            if timer_done {
                *state = GameOverSequenceState::FadeIn;
                GameOverStep::ShowLogo
            } else {
                GameOverStep::Wait
            }
        },
        GameOverSequenceState::FadeIn => {
            if timer_done {
                *state = GameOverSequenceState::Finished;
                GameOverStep::Complete
            } else {
                GameOverStep::Fade
            }
        },
        GameOverSequenceState::Finished => GameOverStep::Wait,
    }
}

/// The frog bullet: it waits, then jumps.
#[derive(Clone, Copy, Debug, PartialEq, Eq, Structural)]
pub enum LeapFrogState {
    Waiting,
    Jumping,
}

/// One frame of the frog bullet; `timer_just_done` tells whether its wait ended this
/// frame. Returns whether it starts its jump now (the host then sets its speed and sprite).
pub fn leapfrog_step(state: &mut LeapFrogState, timer_just_done: bool) -> (jump: bool)
    ensures
        jump == (*old(state) == LeapFrogState::Waiting && timer_just_done),
        *final(state) == if jump {
            LeapFrogState::Jumping
        } else {
            *old(state)
        },
{
    if *state == LeapFrogState::Waiting && timer_just_done {
        *state = LeapFrogState::Jumping;
        true
    } else {
        false
    }
}

} // verus!
