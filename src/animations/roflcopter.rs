//! The roflcopter: a helicopter whose rotor blades spin.
use vstd::prelude::*;
use crate::animations::{CLEAR_SCREEN, CyclicAnimation, CyclicView, HOME};

verus! {

/// The helicopter at rest.
pub const ROFLCOPTER_BASE: &'static str = "ROFL:ROFL:LOL:ROFL:ROFL\r\n           ^\r\n  L  /-----------\r\n LOL===       [] \\\r\n  L    \\          \\\r\n        \\__________]\r\n            I   I\r\n         -----------/\r\n";

/// Removes the upper rotors and turns the tail rotor vertical.
pub const FRAME_BLADES_VERTICAL: &'static str = "\x1B[H     \x1B[1;19H     \x1B[3;2H L \x1B[4;2H O \x1B[5;2H L ";

/// Puts the upper rotors back and turns the tail rotor horizontal.
pub const FRAME_BLADES_HORIZONTAL: &'static str = "\x1B[HROFL:\x1B[1;19H:ROFL\x1B[3;2H   \x1B[4;2HLOL\x1B[5;2H   ";

/// The roflcopter as a cyclic animation, played without pauses.
pub open spec fn roflcopter() -> CyclicView {
    CyclicView {
        intro: CLEAR_SCREEN@ + HOME@ + ROFLCOPTER_BASE@,
        frames: seq![FRAME_BLADES_VERTICAL@, FRAME_BLADES_HORIZONTAL@],
        cursor: 0,
        delay_millis: 0,
    }
}

/// Builds the roflcopter animation.
pub fn animation() -> (r: CyclicAnimation)
    ensures
        r@ == roflcopter(),
        r@.wf(),
{
    let mut intro = String::from_str(CLEAR_SCREEN);
    intro.append(HOME);
    intro.append(ROFLCOPTER_BASE);
    let frames = vec![String::from_str(FRAME_BLADES_VERTICAL), String::from_str(FRAME_BLADES_HORIZONTAL)];
    let r = CyclicAnimation::new(intro, frames, 0);
    proof {
        assert(r@.frames =~= seq![FRAME_BLADES_VERTICAL@, FRAME_BLADES_HORIZONTAL@]);
    }
    r
}

} // verus!
