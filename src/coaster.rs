//! The rollercoaster engine: a multi-character train driven over a canvas by a
//! movement script, rendered as minimal per-tick screen updates.
use vstd::prelude::*;
use crate::canvas::{Canvas, cell_of, painted, string_from_chars, valid_lines, width_of};
use crate::movement::{Movement, delta};

verus! {

/// The decimal digits of a natural number, most significant first.
pub open spec fn decimal(n: nat) -> Seq<char>
    decreases n,
{
    if n < 10 {
        seq![digit_char(n)]
    } else {
        decimal(n / 10) + seq![digit_char(n % 10)]
    }
}

/// The ASCII character of a decimal digit.
pub open spec fn digit_char(d: nat) -> char {
    (48 + d) as char
}

/// The escape sequence that moves the cursor to a zero-based cell
/// (the terminal counts rows and columns from one).
pub open spec fn cursor_to(row: int, col: int) -> Seq<char> {
    seq!['\x1B', '['] + decimal((row + 1) as nat) + seq![';'] + decimal((col + 1) as nat) + seq!['H']
}

/// The mathematical state of a rollercoaster.
pub struct CoasterView {
    pub lines: Seq<Seq<char>>,
    pub train: Seq<char>,
    pub start: Seq<(isize, isize)>,
    pub movements: Seq<Movement>,
    pub window: Seq<(isize, isize)>,
    pub frame: nat,
}

/// A coordinate that can still take `steps` unit moves without leaving `isize`.
pub open spec fn coord_fits(c: isize, steps: int) -> bool {
    -(isize::MAX as int) + steps <= c as int <= isize::MAX as int - steps
}

/// A position that can still take `steps` unit moves without leaving `isize`.
pub open spec fn pos_fits(p: (isize, isize), steps: int) -> bool {
    coord_fits(p.0, steps) && coord_fits(p.1, steps)
}

impl CoasterView {
    pub open spec fn width(self) -> nat {
        width_of(self.lines)
    }

    pub open spec fn height(self) -> nat {
        self.lines.len()
    }

    /// Whether a position lies on the canvas.
    pub open spec fn on_canvas(self, p: (isize, isize)) -> bool {
        0 <= p.0 < self.height() && 0 <= p.1 < self.width()
    }

    /// The steps left in the script.
    pub open spec fn remaining(self) -> int {
        self.movements.len() - self.frame
    }

    pub open spec fn wf(self) -> bool {
        &&& valid_lines(self.lines)
        &&& self.train.len() > 0
        &&& self.start.len() == self.train.len()
        &&& self.window.len() == self.train.len()
        &&& self.frame <= self.movements.len()
        &&& forall|i: int| 0 <= i < self.start.len() ==> pos_fits(#[trigger] self.start[i], self.movements.len() as int)
        &&& forall|i: int| 0 <= i < self.window.len() ==> pos_fits(#[trigger] self.window[i], self.remaining())
    }

    /// The window after one tick: the trailing position is dropped and the
    /// leading position, moved by the current movement, is put in front.
    pub open spec fn next_window(self) -> Seq<(isize, isize)> {
        let lead = self.window[0];
        let d = delta(self.movements[self.frame as int]);
        seq![((lead.0 + d.0) as isize, (lead.1 + d.1) as isize)] + self.window.drop_last()
    }

    /// The output that restores the canvas under the trailing train character,
    /// or nothing when that character is off the canvas.
    pub open spec fn erase(self) -> Seq<char> {
        let p = self.window.last();
        if self.on_canvas(p) {
            cursor_to(p.0 as int, p.1 as int) + seq![cell_of(self.lines, p.0 as int, p.1 as int)]
        } else {
            Seq::empty()
        }
    }

    /// The output that draws the train characters of `window` from index `i` on.
    /// `last` is the last cell drawn; a character right of it on the same row
    /// needs no cursor move. Off-canvas positions are skipped.
    pub open spec fn draw(self, window: Seq<(isize, isize)>, i: int, last: Option<(isize, isize)>) -> Seq<char>
        decreases window.len() - i,
    {
        if i < 0 || i >= window.len() {
            Seq::empty()
        } else {
            let p = window[i];
            if !self.on_canvas(p) {
                self.draw(window, i + 1, last)
            } else {
                let adjacent = last matches Some(q) && q.0 == p.0 && p.1 == q.1 + 1;
                (if adjacent { Seq::empty() } else { cursor_to(p.0 as int, p.1 as int) })
                    + seq![self.train[i]] + self.draw(window, i + 1, Some(p))
            }
        }
    }

    /// The output of the next tick.
    pub open spec fn frame_output(self) -> Seq<char> {
        self.erase() + self.draw(self.next_window(), 0, None)
    }

    /// The state after the next tick.
    pub open spec fn advanced(self) -> CoasterView {
        CoasterView { window: self.next_window(), frame: self.frame + 1, ..self }
    }

    /// Whether a tick still has a movement to play.
    pub open spec fn has_frame(self) -> bool {
        self.frame < self.movements.len()
    }

    /// The state after one call of `advance`: one tick while the script lasts,
    /// no change after its end.
    pub open spec fn tick(self) -> CoasterView {
        if self.has_frame() {
            self.advanced()
        } else {
            self
        }
    }

    /// The state after `k` calls of `advance`.
    pub open spec fn ticks(self, k: nat) -> CoasterView
        decreases k,
    {
        if k == 0 {
            self
        } else {
            self.ticks((k - 1) as nat).tick()
        }
    }

    /// The state that `reset` leads to.
    pub open spec fn restarted(self) -> CoasterView {
        CoasterView { window: self.start, frame: 0, ..self }
    }
}

/// Appends the decimal digits of `n` to `out`.
fn push_decimal(out: &mut Vec<char>, n: usize)
    ensures
        final(out)@ == old(out)@ + decimal(n as nat),
    decreases n,
{
    if n >= 10 {
        push_decimal(out, n / 10);
    }
    let d: u8 = (n % 10) as u8;
    out.push((48u8 + d) as char);
    assert(final(out)@ =~= old(out)@ + decimal(n as nat));
}

/// Appends the cursor move to a zero-based cell to `out`.
fn push_cursor_to(out: &mut Vec<char>, row: usize, col: usize)
    requires
        row < usize::MAX,
        col < usize::MAX,
    ensures
        final(out)@ == old(out)@ + cursor_to(row as int, col as int),
{
    out.push('\x1B');
    out.push('[');
    push_decimal(out, row + 1);
    out.push(';');
    push_decimal(out, col + 1);
    out.push('H');
    assert(final(out)@ =~= old(out)@ + cursor_to(row as int, col as int));
}

/// A copy of a list of positions.
fn copy_positions(v: &Vec<(isize, isize)>) -> (r: Vec<(isize, isize)>)
    ensures
        r@ == v@,
{
    let mut r: Vec<(isize, isize)> = Vec::new();
    let mut i: usize = 0;
    while i < v.len()
        invariant
            i <= v@.len(),
            r@ == v@.subrange(0, i as int),
        decreases v@.len() - i,
    {
        r.push(v[i]);
        assert(r@ =~= v@.subrange(0, i + 1));
        i = i + 1;
    }
    assert(r@ =~= v@);
    r
}

/// A train moving over a canvas along a scripted path.
pub struct Rollercoaster {
    canvas: Canvas,
    train: Vec<char>,
    train_start: Vec<(isize, isize)>,
    movements: Vec<Movement>,
    train_positions: Vec<(isize, isize)>,
    frame_index: usize,
}

impl View for Rollercoaster {
    type V = CoasterView;

    closed spec fn view(&self) -> CoasterView {
        CoasterView {
            lines: self.canvas@,
            train: self.train@,
            start: self.train_start@,
            movements: self.movements@,
            window: self.train_positions@,
            frame: self.frame_index as nat,
        }
    }
}

impl Rollercoaster {
    /// Builds a rollercoaster from its canvas lines, its train characters, the
    /// starting position of each train character (leading character first) and
    /// its movement script. The train starts at its starting positions.
    pub fn new(
        base_lines: Vec<String>,
        train: String,
        train_start: Vec<(isize, isize)>,
        movements: Vec<Movement>,
    ) -> (r: Rollercoaster)
        requires
            valid_lines(base_lines@.map_values(|l: String| l@)),
            train@.len() > 0,
            train@.len() == train_start@.len(),
            forall|i: int|
                0 <= i < train_start@.len() ==> pos_fits(#[trigger] train_start@[i], movements@.len() as int),
        ensures
            r@ == (CoasterView {
                lines: base_lines@.map_values(|l: String| l@),
                train: train@,
                start: train_start@,
                movements: movements@,
                window: train_start@,
                frame: 0,
            }),
            r@.wf(),
    {
        let canvas = Canvas::new(&base_lines);
        let positions = copy_positions(&train_start);
        let r = Rollercoaster {
            canvas,
            train: crate::canvas::chars_of(&train),
            train_start,
            movements,
            train_positions: positions,
            frame_index: 0,
        };
        r
    }

    /// The number of ticks in one run of the script.
    pub fn get_total_frames(&self) -> (r: usize)
        ensures
            r == self@.movements.len(),
    {
        self.movements.len()
    }

    /// The canvas as text, each line ended by a carriage return and a line feed.
    pub fn get_base_frame(&self) -> (r: String)
        ensures
            r@ == painted(self@.lines),
    {
        string_from_chars(self.canvas.painted())
    }

    /// The canvas width: the largest number of characters on a line.
    pub fn get_width(&self) -> (r: isize)
        requires
            self@.width() <= isize::MAX,
        ensures
            r == self@.width(),
    {
        self.canvas.width() as isize
    }

    /// The canvas height: the number of lines.
    pub fn get_height(&self) -> (r: isize)
        requires
            self@.height() <= isize::MAX,
        ensures
            r == self@.height(),
    {
        self.canvas.height() as isize
    }

    /// The current position of each train character, leading character first.
    pub fn train_positions(&self) -> (r: Vec<(isize, isize)>)
        ensures
            r@ == self@.window,
    {
        copy_positions(&self.train_positions)
    }

    /// The index of the movement that the next tick plays.
    pub fn frame_index(&self) -> (r: usize)
        ensures
            r == self@.frame,
    {
        self.frame_index
    }

    /// Puts the train back on its starting positions and rewinds the script.
    pub fn reset(&mut self)
        requires
            old(self)@.wf(),
        ensures
            final(self)@ == old(self)@.restarted(),
            final(self)@.wf(),
    {
        self.frame_index = 0;
        self.train_positions = copy_positions(&self.train_start);
        assert(self@.window =~= old(self)@.start);
    }

    /// Plays the next movement of the script and returns the screen updates
    /// that show it: the trailing train character is erased, and every train
    /// character on the canvas is drawn at its new place. Returns `None`,
    /// with nothing changed, once the whole script has been played.
    pub fn advance(&mut self) -> (r: Option<String>)
        requires
            old(self)@.wf(),
        ensures
            final(self)@ == old(self)@.tick(),
            final(self)@.wf(),
            old(self)@.has_frame() ==> (r matches Some(s) && s@ == old(self)@.frame_output()),
            !old(self)@.has_frame() ==> r is None,
    {
        if self.frame_index >= self.movements.len() {
            return None;
        }
        let ghost v = self@;
        let h = self.canvas.height();
        let w = self.canvas.width();
        let n = self.train_positions.len();
        let mut out: Vec<char> = Vec::new();

        // restore the canvas under the trailing character
        let tail = self.train_positions[n - 1];
        if 0 <= tail.0 && (tail.0 as usize) < h && 0 <= tail.1 && (tail.1 as usize) < w {
            push_cursor_to(&mut out, tail.0 as usize, tail.1 as usize);
            out.push(self.canvas.cell(tail.0 as usize, tail.1 as usize));
        }
        assert(out@ =~= v.erase());

        // move the window: drop the trailing position, push the new leading one
        let lead = self.train_positions[0];
        let d = self.movements[self.frame_index].to_coordinates();
        proof {
            assert(pos_fits(v.window[0], v.remaining()));
        }
        let new_lead = (lead.0 + d.0, lead.1 + d.1);
        self.train_positions.pop();
        self.train_positions.insert(0, new_lead);
        let ghost window = self.train_positions@;
        assert(window =~= v.next_window());

        // draw the train characters that are on the canvas
        let mut last: Option<(isize, isize)> = None;
        let mut i: usize = 0;
        while i < n
            invariant
                v.wf(),
                n == v.window.len(),
                self.train_positions@ == window,
                window.len() == n,
                self.train@ == v.train,
                h == v.height(),
                w == v.width(),
                i <= n,
                last matches Some(q) ==> v.on_canvas(q),
                out@ + v.draw(window, i as int, last) == v.frame_output(),
            decreases n - i,
        {
            let p = self.train_positions[i];
            if 0 <= p.0 && (p.0 as usize) < h && 0 <= p.1 && (p.1 as usize) < w {
                let ghost before = out@;
                let ghost prev = last;
                let adjacent = match last {
                    Some(q) => q.0 == p.0 && p.1 - 1 == q.1,
                    None => false,
                };
                if !adjacent {
                    push_cursor_to(&mut out, p.0 as usize, p.1 as usize);
                }
                out.push(self.train[i]);
                last = Some(p);
                assert(before + v.draw(window, i as int, prev) =~= out@ + v.draw(window, i + 1, last));
            } else {
                assert(v.draw(window, i as int, last) == v.draw(window, i + 1, last));
            }
            i = i + 1;
        }
        self.frame_index = self.frame_index + 1;
        proof {
            assert(out@ =~= v.frame_output());
            assert(self@.window =~= v.advanced().window);
            let nv = self@;
            assert forall|j: int| 0 <= j < nv.window.len() implies pos_fits(#[trigger] nv.window[j], nv.remaining()) by {
                if j > 0 {
                    assert(nv.window[j] == v.window[j - 1]);
                }
            }
        }
        Some(string_from_chars(out))
    }
}

/// From a rewound script, the `k`-th call of `advance` (counting from zero)
/// yields a frame exactly when `k` is below the script length: the script plays
/// once, and every call after its end reports the end until the next reset.
pub proof fn lemma_plays_script_once(v: CoasterView, k: nat)
    requires
        v.frame == 0,
    ensures
        v.ticks(k).movements == v.movements,
        v.ticks(k).frame == (if k < v.movements.len() { k } else { v.movements.len() }),
        v.ticks(k).has_frame() <==> k < v.movements.len(),
    decreases k,
{
    if k > 0 {
        lemma_plays_script_once(v, (k - 1) as nat);
    }
}

/// Ticks change only the window and the frame cursor, so resetting after any
/// number of calls of `advance` gives the same state as resetting at once.
pub proof fn lemma_reset_forgets_ticks(v: CoasterView, k: nat)
    ensures
        v.ticks(k).restarted() == v.restarted(),
    decreases k,
{
    if k > 0 {
        lemma_reset_forgets_ticks(v, (k - 1) as nat);
    }
}

} // verus!
