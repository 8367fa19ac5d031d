use vstd::prelude::*;
use vstd::arithmetic::div_mod::{lemma_mod_add_multiples_vanish, lemma_small_mod};

verus! {

/// The scan line a frame tick works on: the frame counter wrapped to the
/// image height. The frame counter itself only ever grows, so the active
/// row walks the image top to bottom and wraps around.
pub fn active_row(frame: usize, height: usize) -> (row: usize)
    requires
        height > 0,
    ensures
        row == frame % height,
        row < height,
{
    frame % height
}

/// The loop driver's termination decision: another tick runs exactly while
/// the presentation surface is still open and quit has not been pressed.
pub fn should_continue(open: bool, quit_pressed: bool) -> (c: bool)
    ensures
        c == (open && !quit_pressed),
{
    open && !quit_pressed
}

/// Frame-index progression law: the active row starts at the top, visits
/// each row once while the counter stays below the height, and advancing
/// the counter by `height` ticks brings the active row back to where it
/// was — so any given row is reconstructed exactly once per `height` ticks.
pub proof fn lemma_active_row_progression(frame: nat, height: nat)
    requires
        height > 0,
    ensures
        (0 as nat) % height == 0,
        frame < height ==> frame % height == frame,
        ((frame + height) as nat) % height == frame % height,
{
    lemma_small_mod(0, height);
    if frame < height {
        lemma_small_mod(frame, height);
    }
    lemma_mod_add_multiples_vanish(frame as int, height as int);
}

} // verus!
