//! The lollercoaster: a train of three characters riding a rollercoaster track.
use vstd::prelude::*;
use crate::coaster::{CoasterView, Rollercoaster};
use crate::movement::{decode_movements, is_script, script_movements};

verus! {

/// The title line above the track.
pub const LOLLERCOASTER_TITLE: &'static str = "                      THE ULTIMATE LOLLERCOASTER";

/// The ride, in keypad digits.
pub const LOLLERCOASTER_MOVEMENTS: &'static str = "6666666633336699966663222211222214444414447889666666666666666666669887441222236666699996666332121214777444412323236666666666666666666666";

/// The pause after each frame, in milliseconds.
pub const LOLLERCOASTER_DELAY_MILLIS: u64 = 50;

proof fn lemma_script_is_valid()
    ensures
        is_script(LOLLERCOASTER_MOVEMENTS@),
        LOLLERCOASTER_MOVEMENTS@.len() == 136,
{
    reveal_strlit("6666666633336699966663222211222214444414447889666666666666666666669887441222236666699996666332121214777444412323236666666666666666666666");
}

/// The track: the title line, then the drawing.
fn track_lines() -> (r: Vec<String>)
    ensures
        r@.len() == 22,
        r@[0]@ == LOLLERCOASTER_TITLE@,
{
    let r = vec![
        String::from_str(LOLLERCOASTER_TITLE),
        String::from_str("_____"),
        String::from_str("     \\         ___     (sponsored by LMAONADE)"),
        String::from_str("      \\       /   \\"),
        String::from_str("       \\     /    |"),
        String::from_str("        \\___/     |"),
        String::from_str("                  |      ___"),
        String::from_str("                  A     /   \\"),
        String::from_str("                  H    /     \\"),
        String::from_str("                  V    |     |     ___"),
        String::from_str("                  |    |     /    /   \\"),
        String::from_str("        __________|____|____/    /     \\"),
        String::from_str("       /          |    \\        /      |"),
        String::from_str("       |          /     \\______/       A"),
        String::from_str("       \\__<I>____/            ___      V"),
        String::from_str("                             /   \\     |"),
        String::from_str("                             |    \\    /"),
        String::from_str("                             A     \\__/"),
        String::from_str("                             V"),
        String::from_str("                             |"),
        String::from_str("                             \\"),
        String::from_str("                              \\___________________"),
    ];
    r
}

/// Whether a rollercoaster state is the lollercoaster before its first tick:
/// the train "LOL" about to enter the track from the left, just below the
/// title line, with the whole script ahead.
pub open spec fn is_lollercoaster(v: CoasterView) -> bool {
    &&& v.wf()
    &&& v.lines.len() == 22
    &&& v.lines[0] == LOLLERCOASTER_TITLE@
    &&& v.train == "LOL"@
    &&& v.start == seq![(1isize, -3isize), (1isize, -2isize), (1isize, -1isize)]
    &&& v.movements == script_movements(LOLLERCOASTER_MOVEMENTS@)
    &&& v.window == v.start
    &&& v.frame == 0
}

/// Builds the lollercoaster.
pub fn coaster() -> (r: Rollercoaster)
    ensures
        is_lollercoaster(r@),
{
    let lines = track_lines();
    let train = String::from_str("LOL");
    let start: Vec<(isize, isize)> = vec![(1, -3), (1, -2), (1, -1)];
    proof {
        lemma_script_is_valid();
        reveal_strlit("LOL");
        reveal_strlit("                      THE ULTIMATE LOLLERCOASTER");
        assert(start@ =~= seq![(1isize, -3isize), (1isize, -2isize), (1isize, -1isize)]);
        assert(lines@.map_values(|l: String| l@)[0] == LOLLERCOASTER_TITLE@);
    }
    let movements = decode_movements(LOLLERCOASTER_MOVEMENTS).unwrap();
    assert(movements@.len() == 136);
    Rollercoaster::new(lines, train, start, movements)
}

} // verus!
