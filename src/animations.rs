//! The animations a connection can be shown, and the registry that picks one by name.
pub mod lollercoaster;
pub mod lollerskates;
pub mod roflcopter;

use vstd::prelude::*;
use crate::coaster::Rollercoaster;
use crate::animations::lollercoaster::is_lollercoaster;
use crate::animations::lollerskates::lollerskates;
use crate::animations::roflcopter::roflcopter;

verus! {

/// Clears the screen.
pub const CLEAR_SCREEN: &'static str = "\x1B[2J";

/// Moves the cursor to the top left corner.
pub const HOME: &'static str = "\x1B[H";

/// The mathematical state of a cyclic animation.
pub struct CyclicView {
    pub intro: Seq<char>,
    pub frames: Seq<Seq<char>>,
    pub cursor: nat,
    pub delay_millis: u64,
}

impl CyclicView {
    pub open spec fn wf(self) -> bool {
        self.frames.len() > 0 && self.cursor < self.frames.len()
    }
}

/// A fixed list of frames played in a loop over a background painted once.
pub struct CyclicAnimation {
    intro: String,
    frames: Vec<String>,
    cursor: usize,
    delay_millis: u64,
}

impl View for CyclicAnimation {
    type V = CyclicView;

    closed spec fn view(&self) -> CyclicView {
        CyclicView {
            intro: self.intro@,
            frames: self.frames@.map_values(|f: String| f@),
            cursor: self.cursor as nat,
            delay_millis: self.delay_millis,
        }
    }
}

impl CyclicAnimation {
    /// An animation that first shows `intro`, then plays `frames` in a loop,
    /// pausing `delay_millis` milliseconds after each frame.
    pub fn new(intro: String, frames: Vec<String>, delay_millis: u64) -> (r: CyclicAnimation)
        requires
            frames@.len() > 0,
        ensures
            r@ == (CyclicView {
                intro: intro@,
                frames: frames@.map_values(|f: String| f@),
                cursor: 0,
                delay_millis,
            }),
            r@.wf(),
    {
        CyclicAnimation { intro, frames, cursor: 0, delay_millis }
    }

    /// The text that paints the background.
    pub fn intro(&self) -> (r: &String)
        ensures
            r@ == self@.intro,
    {
        &self.intro
    }

    /// The pause after each frame, in milliseconds.
    pub fn delay_millis(&self) -> (r: u64)
        ensures
            r == self@.delay_millis,
    {
        self.delay_millis
    }

    /// The number of frames in one cycle.
    pub fn frame_count(&self) -> (r: usize)
        ensures
            r == self@.frames.len(),
    {
        self.frames.len()
    }

    /// Returns the current frame and moves on to the next one, wrapping
    /// around after the last: the animation never ends on its own.
    pub fn next_frame(&mut self) -> (r: String)
        requires
            old(self)@.wf(),
        ensures
            r@ == old(self)@.frames[old(self)@.cursor as int],
            final(self)@ == (CyclicView { cursor: ((old(self)@.cursor + 1) % old(self)@.frames.len()) as nat, ..old(self)@ }),
            final(self)@.wf(),
    {
        let r = self.frames[self.cursor].clone();
        let ghost len = self.frames@.len() as int;
        let ghost c = self.cursor as int;
        assert(c < len);
        if self.cursor < self.frames.len() - 1 {
            self.cursor = self.cursor + 1;
            assert((c + 1) % len == c + 1) by (nonlinear_arith)
                requires
                    0 <= c + 1 < len,
            ;
        } else {
            self.cursor = 0;
            assert((c + 1) % len == 0) by (nonlinear_arith)
                requires
                    c + 1 == len,
                    len > 0,
            ;
        }
        r
    }
}

/// What is written instead of an animation whose name is not known.
pub const MISSING_ANIMATION_MESSAGE: &'static str = "Animation missing.";

/// The animations that can be configured.
#[derive(Clone, Copy, Debug, PartialEq, Eq, Structural)]
pub enum AnimationKind {
    Lollercoaster,
    Lollerskates,
    Roflcopter,
}

/// The animation configured under a name, if the name is known.
pub open spec fn kind_named(name: Seq<char>) -> Option<AnimationKind> {
    if name == "lollercoaster"@ {
        Some(AnimationKind::Lollercoaster)
    } else if name == "lollerskates"@ {
        Some(AnimationKind::Lollerskates)
    } else if name == "roflcopter"@ {
        Some(AnimationKind::Roflcopter)
    } else {
        None
    }
}

fn same_text(a: &str, b: &str) -> (r: bool)
    ensures
        r == (a@ == b@),
{
    let n = a.unicode_len();
    if n != b.unicode_len() {
        return false;
    }
    let mut i: usize = 0;
    while i < n
        invariant
            n == a@.len(),
            n == b@.len(),
            i <= n,
            a@.subrange(0, i as int) == b@.subrange(0, i as int),
        decreases n - i,
    {
        if a.get_char(i) != b.get_char(i) {
            assert(a@[i as int] != b@[i as int]);
            return false;
        }
        assert(a@.subrange(0, i + 1) =~= a@.subrange(0, i as int).push(a@[i as int]));
        assert(b@.subrange(0, i + 1) =~= b@.subrange(0, i as int).push(b@[i as int]));
        i = i + 1;
    }
    assert(a@ =~= a@.subrange(0, n as int));
    assert(b@ =~= b@.subrange(0, n as int));
    true
}

/// Looks up the animation configured under `name`.
pub fn resolve_animation(name: &str) -> (r: Option<AnimationKind>)
    ensures
        r == kind_named(name@),
{
    if same_text(name, "lollercoaster") {
        Some(AnimationKind::Lollercoaster)
    } else if same_text(name, "lollerskates") {
        Some(AnimationKind::Lollerskates)
    } else if same_text(name, "roflcopter") {
        Some(AnimationKind::Roflcopter)
    } else {
        None
    }
}

/// A ready-to-play animation.
pub enum Animation {
    /// A train driven over a canvas; replayed from the start after each run.
    Coaster(Rollercoaster),
    /// A fixed loop of frames.
    Cyclic(CyclicAnimation),
}

/// Builds the animation of a kind, at its start.
pub fn build_animation(kind: AnimationKind) -> (r: Animation)
    ensures
        kind == AnimationKind::Lollercoaster ==> (r matches Animation::Coaster(c) && is_lollercoaster(c@)),
        kind == AnimationKind::Lollerskates ==> (r matches Animation::Cyclic(a) && a@ == lollerskates()),
        kind == AnimationKind::Roflcopter ==> (r matches Animation::Cyclic(a) && a@ == roflcopter()),
{
    match kind {
        AnimationKind::Lollercoaster => Animation::Coaster(lollercoaster::coaster()),
        AnimationKind::Lollerskates => Animation::Cyclic(lollerskates::animation()),
        AnimationKind::Roflcopter => Animation::Cyclic(roflcopter::animation()),
    }
}

} // verus!
