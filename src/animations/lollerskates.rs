//! The lollerskater: a figure skating on the spot.
use vstd::prelude::*;
use crate::animations::{CLEAR_SCREEN, CyclicAnimation, CyclicView, HOME};

verus! {

/// The skater at rest.
pub const LOLLERSKATES_BASE: &'static str = "        /\\O\r\n         /\\/\r\n        /\\\r\n       /  \\\r\n      LOL LOL\r\n:-D LOLLERSKATES :-D\r\n";

/// The skater with one leg lifted.
pub const FRAME_STRIDE: &'static str = "\x1B[1;9H _\x1B[2;9H//|_\x1B[3;9H |\x1B[4;8H /| \x1B[5;7H LLOL   ";

/// The skater gliding.
pub const FRAME_GLIDE: &'static str = "\x1B[1;10H \x1B[2;9H /_ \x1B[3;11H\\\x1B[4;10H |\x1B[5;9HOLLOL";

/// The skater back at rest.
pub const FRAME_REST: &'static str = "\x1B[1;9H/\\\x1B[2;11H\\/\x1B[3;9H/\\ \x1B[4;8H/  \\\x1B[5;7HLOL LOL";

/// The pause after each frame, in milliseconds.
pub const LOLLERSKATES_DELAY_MILLIS: u64 = 100;

/// The lollerskater as a cyclic animation.
pub open spec fn lollerskates() -> CyclicView {
    CyclicView {
        intro: CLEAR_SCREEN@ + HOME@ + LOLLERSKATES_BASE@,
        frames: seq![FRAME_STRIDE@, FRAME_GLIDE@, FRAME_REST@],
        cursor: 0,
        delay_millis: LOLLERSKATES_DELAY_MILLIS,
    }
}

/// Builds the lollerskates animation.
pub fn animation() -> (r: CyclicAnimation)
    ensures
        r@ == lollerskates(),
        r@.wf(),
{
    let mut intro = String::from_str(CLEAR_SCREEN);
    intro.append(HOME);
    intro.append(LOLLERSKATES_BASE);
    let frames = vec![
        String::from_str(FRAME_STRIDE),
        String::from_str(FRAME_GLIDE),
        String::from_str(FRAME_REST),
    ];
    let r = CyclicAnimation::new(intro, frames, LOLLERSKATES_DELAY_MILLIS);
    assert(r@.frames =~= seq![FRAME_STRIDE@, FRAME_GLIDE@, FRAME_REST@]);
    r
}

} // verus!
