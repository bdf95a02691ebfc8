//! The static background an animation is drawn over.
use vstd::prelude::*;

verus! {

/// The width of a canvas: the largest number of characters on any line.
pub open spec fn width_of(lines: Seq<Seq<char>>) -> nat
    decreases lines.len(),
{
    if lines.len() == 0 {
        0
    } else {
        let w = width_of(lines.drop_last());
        if lines.last().len() > w {
            lines.last().len()
        } else {
            w
        }
    }
}

/// The character shown at a cell of the canvas: a space past the end of a short line.
pub open spec fn cell_of(lines: Seq<Seq<char>>, row: int, col: int) -> char {
    if col < lines[row].len() {
        lines[row][col]
    } else {
        ' '
    }
}

/// The canvas as it is painted: each line followed by a carriage return and a line feed.
pub open spec fn painted(lines: Seq<Seq<char>>) -> Seq<char>
    decreases lines.len(),
{
    if lines.len() == 0 {
        Seq::empty()
    } else {
        painted(lines.drop_last()) + lines.last() + seq!['\r', '\n']
    }
}

/// Whether a list of lines can serve as a canvas: at least one line, the first one not empty.
pub open spec fn valid_lines(lines: Seq<Seq<char>>) -> bool {
    lines.len() > 0 && lines[0].len() > 0
}

/// A fixed multi-line background.
pub struct Canvas {
    lines: Vec<Vec<char>>,
}

impl View for Canvas {
    type V = Seq<Seq<char>>;

    closed spec fn view(&self) -> Seq<Seq<char>> {
        self.lines@.map_values(|l: Vec<char>| l@)
    }
}

/// Relies on `String::from_iter`: collecting characters builds the string of exactly those characters.
#[verifier::external_body]
pub(crate) fn string_from_chars(chars: Vec<char>) -> (r: String)
    ensures
        r@ == chars@,
{
    String::from_iter(chars)
}

pub(crate) fn chars_of(s: &String) -> (r: Vec<char>)
    ensures
        r@ == s@,
{
    let text = s.as_str();
    let n = text.unicode_len();
    let mut r: Vec<char> = Vec::new();
    let mut i: usize = 0;
    while i < n
        invariant
            n == s@.len(),
            text@ == s@,
            i <= n,
            r@ == s@.subrange(0, i as int),
        decreases n - i,
    {
        r.push(text.get_char(i));
        proof {
            assert(r@ =~= s@.subrange(0, i + 1));
        }
        i = i + 1;
    }
    assert(r@ =~= s@);
    r
}

impl Canvas {
    /// Builds a canvas from its lines.
    pub fn new(lines: &Vec<String>) -> (r: Canvas)
        requires
            valid_lines(lines@.map_values(|l: String| l@)),
        ensures
            r@ == lines@.map_values(|l: String| l@),
    {
        let mut out: Vec<Vec<char>> = Vec::new();
        let mut i: usize = 0;
        while i < lines.len()
            invariant
                i <= lines@.len(),
                out@.len() == i,
                forall|j: int| 0 <= j < i ==> (#[trigger] out@[j])@ == lines@[j]@,
            decreases lines.len() - i,
        {
            let chars = chars_of(&lines[i]);
            out.push(chars);
            i = i + 1;
        }
        let r = Canvas { lines: out };
        assert(r@ =~= lines@.map_values(|l: String| l@));
        r
    }

    /// The number of lines.
    pub fn height(&self) -> (r: usize)
        ensures
            r == self@.len(),
    {
        self.lines.len()
    }

    /// The largest number of characters on any line.
    pub fn width(&self) -> (r: usize)
        ensures
            r == width_of(self@),
    {
        let mut w: usize = 0;
        let mut i: usize = 0;
        while i < self.lines.len()
            invariant
                i <= self@.len(),
                w == width_of(self@.subrange(0, i as int)),
            decreases self@.len() - i,
        {
            proof {
                let init = self@.subrange(0, i as int);
                let next = self@.subrange(0, i + 1);
                assert(next.drop_last() =~= init);
                assert(next.last() == self@[i as int]);
                assert(self@[i as int] == self.lines@[i as int]@);
            }
            let len = self.lines[i].len();
            if len > w {
                w = len;
            }
            i = i + 1;
        }
        assert(self@.subrange(0, i as int) =~= self@);
        w
    }

    /// The character at a cell; a space where the line is shorter than the column.
    pub fn cell(&self, row: usize, col: usize) -> (r: char)
        requires
            row < self@.len(),
        ensures
            r == cell_of(self@, row as int, col as int),
    {
        let line = &self.lines[row];
        if col < line.len() {
            line[col]
        } else {
            ' '
        }
    }

    /// The whole canvas as text, each line ended by a carriage return and a line feed.
    pub fn painted(&self) -> (r: Vec<char>)
        ensures
            r@ == painted(self@),
    {
        let mut out: Vec<char> = Vec::new();
        let mut i: usize = 0;
        while i < self.lines.len()
            invariant
                i <= self@.len(),
                out@ == painted(self@.subrange(0, i as int)),
            decreases self@.len() - i,
        {
            proof {
                let next = self@.subrange(0, i + 1);
                assert(next.drop_last() =~= self@.subrange(0, i as int));
                assert(next.last() == self.lines@[i as int]@);
            }
            let line = &self.lines[i];
            let mut j: usize = 0;
            let ghost before = out@;
            while j < line.len()
                invariant
                    j <= line@.len(),
                    out@ == before + line@.subrange(0, j as int),
                decreases line@.len() - j,
            {
                out.push(line[j]);
                proof {
                    assert(out@ =~= before + line@.subrange(0, j + 1));
                }
                j = j + 1;
            }
            assert(line@.subrange(0, j as int) =~= line@);
            out.push('\r');
            out.push('\n');
            proof {
                assert(out@ =~= painted(self@.subrange(0, i + 1)));
            }
            i = i + 1;
        }
        assert(self@.subrange(0, i as int) =~= self@);
        out
    }
}

} // verus!
