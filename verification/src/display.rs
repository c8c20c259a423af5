//! The simulated status display: a fixed-size character grid inside a
//! drawn border, mirroring what the panel driver paints in hardware
//! mode. Text is placed by character cell; writes are clipped to the
//! grid interior so the border is never overwritten.

use vstd::prelude::*;

verus! {

/// Draw color of the status screen. The simulated backend accepts a
/// color and ignores it; the hardware backend maps it to a pixel color.
#[derive(Clone, Copy, PartialEq, Eq, Structural, Debug)]
pub enum Color {
    White,
    Red,
    Green,
    Black,
}

/// Character cell width of a rendered glyph; pixel x-coordinates map to
/// grid columns by dividing by this.
pub const GLYPH_WIDTH: u32 = 10;

/// Character cell height of a rendered glyph; pixel y-coordinates map
/// to grid rows by dividing by this.
pub const GLYPH_HEIGHT: u32 = 20;

/// A full-width row `left fill ... fill right`.
pub open spec fn spec_border_row(w: int, left: char, fill: char, right: char) -> Seq<char> {
    Seq::new(w as nat, |i: int| if i == 0 {
        left
    } else if i == w - 1 {
        right
    } else {
        fill
    })
}

/// The blank bordered frame: box-drawing border, space-filled interior.
pub open spec fn spec_blank_grid(w: int, h: int) -> Seq<Seq<char>> {
    Seq::new(h as nat, |r: int| if r == 0 {
        spec_border_row(w, '╔', '═', '╗')
    } else if r == h - 1 {
        spec_border_row(w, '╚', '═', '╝')
    } else {
        spec_border_row(w, '║', ' ', '║')
    })
}

/// `row` with `t` written left to right from column `start`, clipped to
/// the interior columns `1 ..= w - 2`.
pub open spec fn spec_overwrite(row: Seq<char>, t: Seq<char>, start: int, w: int) -> Seq<char> {
    Seq::new(row.len(), |i: int| if start <= i <= w - 2 && i - start < t.len() {
        t[i - start]
    } else {
        row[i]
    })
}

/// Effect of one text draw on the grid: row `y` gets `t` from column
/// `x + 1` on, clipped to the interior; a target outside the interior
/// leaves the grid unchanged.
pub open spec fn spec_add_text(
    g: Seq<Seq<char>>,
    t: Seq<char>,
    x: int,
    y: int,
    w: int,
    h: int,
) -> Seq<Seq<char>> {
    if y < 1 || y > h - 2 || x > w - 3 {
        g
    } else {
        g.update(y, spec_overwrite(g[y], t, x + 1, w))
    }
}

/// One grid row followed by a line break, as it appears in the rendered
/// multi-line text.
pub open spec fn spec_row_text(row: Seq<char>) -> Seq<char> {
    row.push('\n')
}

/// The first `n` rows of the grid rendered as text.
pub open spec fn spec_content_upto(g: Seq<Seq<char>>, n: int) -> Seq<char>
    decreases n,
{
    if n <= 0 {
        Seq::<char>::empty()
    } else {
        spec_content_upto(g, n - 1) + spec_row_text(g[n - 1])
    }
}

/// The whole grid rendered as a multi-line string, one `'\n'` after
/// every row.
pub open spec fn spec_content(g: Seq<Seq<char>>) -> Seq<char> {
    spec_content_upto(g, g.len() as int)
}

/// In-memory character grid standing in for the physical panel.
pub struct MockDisplay {
    pub rows: Vec<Vec<char>>,
    pub width: u32,
    pub height: u32,
}

fn make_row(width: u32, left: char, fill: char, right: char) -> (v: Vec<char>)
    requires
        2 <= width,
    ensures
        v@ == spec_border_row(width as int, left, fill, right),
{
    let mut v: Vec<char> = Vec::new();
    v.push(left);
    let mut i: u32 = 1;
    while i < width - 1
        invariant
            2 <= width,
            1 <= i <= width - 1,
            v@.len() == i,
            v@[0] == left,
            forall|j: int| 1 <= j < i ==> v@[j] == fill,
        decreases width - 1 - i,
    {
        v.push(fill);
        i = i + 1;
    }
    v.push(right);
    proof {
        assert(v@ =~= spec_border_row(width as int, left, fill, right));
    }
    v
}

impl MockDisplay {
    /// The grid as a sequence of rows of characters.
    pub open spec fn grid(&self) -> Seq<Seq<char>> {
        self.rows@.map_values(|r: Vec<char>| r@)
    }

    pub open spec fn spec_width(&self) -> u32 {
        self.width
    }

    pub open spec fn spec_height(&self) -> u32 {
        self.height
    }

    /// Shape invariant: a border needs at least one interior row and
    /// column, and every row is exactly `width` characters.
    pub open spec fn wf(&self) -> bool {
        &&& 3 <= self.width
        &&& 3 <= self.height
        &&& self.rows@.len() == self.height as int
        &&& forall|r: int|
            0 <= r < self.height as int ==> (#[trigger] self.grid()[r]).len() == self.width as int
    }

    /// A fresh display showing the blank bordered frame.
    pub fn new(width: u32, height: u32) -> (d: Self)
        requires
            3 <= width,
            3 <= height,
        ensures
            d.wf(),
            d.spec_width() == width,
            d.spec_height() == height,
            d.grid() == spec_blank_grid(width as int, height as int),
    {
        let mut d = MockDisplay { rows: Vec::new(), width, height };
        d.clear();
        d
    }

    /// Resets the grid to the blank bordered frame; whatever was drawn
    /// before is gone.
    pub fn clear(&mut self)
        requires
            3 <= old(self).spec_width(),
            3 <= old(self).spec_height(),
        ensures
            final(self).wf(),
            final(self).spec_width() == old(self).spec_width(),
            final(self).spec_height() == old(self).spec_height(),
            final(self).grid() == spec_blank_grid(
                old(self).spec_width() as int,
                old(self).spec_height() as int,
            ),
    {
        let w = self.width;
        let h = self.height;
        let mut rows: Vec<Vec<char>> = Vec::new();
        rows.push(make_row(w, '╔', '═', '╗'));
        let mut r: u32 = 1;
        while r < h - 1
            invariant
                3 <= w,
                3 <= h,
                1 <= r <= h - 1,
                rows@.len() == r,
                rows@[0]@ == spec_border_row(w as int, '╔', '═', '╗'),
                forall|j: int|
                    1 <= j < r ==> (#[trigger] rows@[j])@ == spec_border_row(
                        w as int,
                        '║',
                        ' ',
                        '║',
                    ),
            decreases h - 1 - r,
        {
            rows.push(make_row(w, '║', ' ', '║'));
            r = r + 1;
        }
        rows.push(make_row(w, '╚', '═', '╝'));
        self.rows = rows;
        proof {
            assert(self.grid() =~~= spec_blank_grid(w as int, h as int));
        }
    }

    /// Writes `text` into row `y` starting at interior column `x + 1`,
    /// clipped so the border is never overwritten; a row outside the
    /// interior, or a starting column beyond the interior width, leaves
    /// the grid unchanged.
    pub fn add_text(&mut self, text: &str, x: u32, y: u32)
        requires
            old(self).wf(),
        ensures
            final(self).wf(),
            final(self).spec_width() == old(self).spec_width(),
            final(self).spec_height() == old(self).spec_height(),
            final(self).grid() == spec_add_text(
                old(self).grid(),
                text@,
                x as int,
                y as int,
                old(self).spec_width() as int,
                old(self).spec_height() as int,
            ),
    {
        let w = self.width;
        let h = self.height;
        if y < 1 || y >= h - 1 {
            return ;
        }
        if x > w - 3 {
            return ;
        }
        let len: usize = text.unicode_len();
        let start: u32 = x + 1;
        let ghost target = spec_overwrite(self.grid()[y as int], text@, start as int, w as int);
        let mut newrow: Vec<char> = Vec::new();
        let mut i: u32 = 0;
        while i < w
            invariant
                old(self) == self,
                self.wf(),
                w == self.spec_width(),
                h == self.spec_height(),
                1 <= y < h - 1,
                x <= w - 3,
                start == x + 1,
                len == text@.len(),
                target == spec_overwrite(self.grid()[y as int], text@, start as int, w as int),
                0 <= i <= w,
                newrow@.len() == i,
                forall|j: int| 0 <= j < i ==> newrow@[j] == target[j],
            decreases w - i,
        {
            let c: char = if i >= start && i <= w - 2 && ((i - start) as usize) < len {
                text.get_char((i - start) as usize)
            } else {
                let row: &Vec<char> = &self.rows[y as usize];
                row[i as usize]
            };
            newrow.push(c);
            i = i + 1;
        }
        proof {
            assert(newrow@ =~= target);
        }
        self.rows.set(y as usize, newrow);
        proof {
            assert(final(self).grid() =~~= spec_add_text(
                old(self).grid(),
                text@,
                x as int,
                y as int,
                w as int,
                h as int,
            ));
        }
    }

    /// The grid as a printable multi-line string.
    pub fn get_content(&self) -> (s: String)
        requires
            self.wf(),
        ensures
            s@ == spec_content(self.grid()),
    {
        let mut s = String::new();
        let mut r: u32 = 0;
        while r < self.height
            invariant
                self.wf(),
                0 <= r <= self.spec_height(),
                s@ == spec_content_upto(self.grid(), r as int),
            decreases self.spec_height() - r,
        {
            let mut c: u32 = 0;
            while c < self.width
                invariant
                    self.wf(),
                    0 <= r < self.spec_height(),
                    0 <= c <= self.spec_width(),
                    s@ == spec_content_upto(self.grid(), r as int) + self.grid()[r as int]
                        .subrange(0, c as int),
                decreases self.spec_width() - c,
            {
                let row: &Vec<char> = &self.rows[r as usize];
                let ch: char = row[c as usize];
                s.push(ch);
                proof {
                    let g = self.grid();
                    assert(s@ =~= spec_content_upto(g, r as int) + g[r as int].subrange(
                        0,
                        c as int + 1,
                    ));
                }
                c = c + 1;
            }
            s.push('\n');
            proof {
                let g = self.grid();
                assert(g[r as int].subrange(0, self.spec_width() as int) =~= g[r as int]);
                assert(s@ =~= spec_content_upto(g, r as int + 1));
            }
            r = r + 1;
        }
        s
    }
}

/// The simulation backend of the display abstraction: same draw calls
/// as the hardware panel, rendered into a [`MockDisplay`] grid.
pub struct SimulationDisplay {
    pub mock_display: MockDisplay,
}

impl SimulationDisplay {
    pub open spec fn wf(&self) -> bool {
        self.mock_display.wf()
    }

    pub open spec fn grid(&self) -> Seq<Seq<char>> {
        self.mock_display.grid()
    }

    pub open spec fn spec_width(&self) -> u32 {
        self.mock_display.spec_width()
    }

    pub open spec fn spec_height(&self) -> u32 {
        self.mock_display.spec_height()
    }

    /// A fresh simulated panel of `width` by `height` character cells,
    /// showing the blank bordered frame.
    pub fn new(width: u32, height: u32) -> (d: Self)
        requires
            3 <= width,
            3 <= height,
        ensures
            d.wf(),
            d.spec_width() == width,
            d.spec_height() == height,
            d.grid() == spec_blank_grid(width as int, height as int),
    {
        SimulationDisplay { mock_display: MockDisplay::new(width, height) }
    }

    /// Resets the frame; never fails on the simulated backend.
    pub fn clear(&mut self)
        requires
            old(self).wf(),
        ensures
            final(self).wf(),
            final(self).spec_width() == old(self).spec_width(),
            final(self).spec_height() == old(self).spec_height(),
            final(self).grid() == spec_blank_grid(
                old(self).spec_width() as int,
                old(self).spec_height() as int,
            ),
    {
        self.mock_display.clear();
    }

    /// Draws `text` at pixel coordinates `(x, y)`: the cell is found by
    /// integer division by the glyph size; the color is accepted and
    /// ignored. Never fails on the simulated backend.
    pub fn draw_text(&mut self, text: &str, x: u32, y: u32, color: Color)
        requires
            old(self).wf(),
        ensures
            final(self).wf(),
            final(self).spec_width() == old(self).spec_width(),
            final(self).spec_height() == old(self).spec_height(),
            final(self).grid() == spec_add_text(
                old(self).grid(),
                text@,
                x as int / GLYPH_WIDTH as int,
                y as int / GLYPH_HEIGHT as int,
                old(self).spec_width() as int,
                old(self).spec_height() as int,
            ),
    {
        let _ = color;
        self.mock_display.add_text(text, x / GLYPH_WIDTH, y / GLYPH_HEIGHT);
    }

    /// The rendered frame as text; the simulated backend always has
    /// content to report.
    pub fn get_display_content(&self) -> (r: Option<String>)
        requires
            self.wf(),
        ensures
            r is Some,
            r->0@ == spec_content(self.grid()),
    {
        Some(self.mock_display.get_content())
    }
}

/// Clearing wipes the draw history: two displays of the same dimensions
/// show exactly the same frame after a `clear`, whatever was drawn on
/// either before.
pub proof fn lemma_clear_erases_history(a: MockDisplay, b: MockDisplay)
    requires
        a.spec_width() == b.spec_width(),
        a.spec_height() == b.spec_height(),
    ensures
        spec_content(spec_blank_grid(a.spec_width() as int, a.spec_height() as int))
            == spec_content(spec_blank_grid(b.spec_width() as int, b.spec_height() as int)),
{
}

/// The rendered text of a grid of `w`-character rows is `w + 1`
/// characters per row, the line break included.
pub proof fn lemma_content_upto_len(g: Seq<Seq<char>>, w: int, n: int)
    requires
        forall|i: int| 0 <= i < g.len() ==> (#[trigger] g[i]).len() == w,
        0 <= n <= g.len(),
    ensures
        spec_content_upto(g, n).len() == n * (w + 1),
    decreases n,
{
    if n > 0 {
        lemma_content_upto_len(g, w, n - 1);
        assert(g[n - 1].len() == w);
        assert(spec_row_text(g[n - 1]).len() == w + 1);
        assert(spec_content_upto(g, n) == spec_content_upto(g, n - 1) + spec_row_text(g[n - 1]));
        assert((n - 1) * (w + 1) + (w + 1) == n * (w + 1)) by (nonlinear_arith);
    } else {
        assert(n * (w + 1) == 0) by (nonlinear_arith)
            requires
                n == 0,
        ;
    }
}

proof fn lemma_content_upto_index(g: Seq<Seq<char>>, w: int, n: int, r: int, c: int)
    requires
        forall|i: int| 0 <= i < g.len() ==> (#[trigger] g[i]).len() == w,
        0 <= r < n <= g.len(),
        0 <= c < w,
    ensures
        spec_content_upto(g, n)[r * (w + 1) + c] == g[r][c],
    decreases n,
{
    lemma_content_upto_len(g, w, n - 1);
    if r == n - 1 {
        assert(spec_row_text(g[n - 1])[c] == g[n - 1][c]);
    } else {
        lemma_content_upto_index(g, w, n - 1, r, c);
        assert(r * (w + 1) + c < (n - 1) * (w + 1)) by (nonlinear_arith)
            requires
                r <= n - 2,
                0 <= c < w,
                0 <= r,
        ;
    }
}

/// Where each cell of the grid sits in the rendered text: row `r`,
/// column `c` is character `r * (w + 1) + c`.
pub proof fn lemma_content_index(g: Seq<Seq<char>>, w: int, r: int, c: int)
    requires
        forall|i: int| 0 <= i < g.len() ==> (#[trigger] g[i]).len() == w,
        0 <= r < g.len(),
        0 <= c < w,
    ensures
        spec_content(g).len() == g.len() * (w + 1),
        spec_content(g)[r * (w + 1) + c] == g[r][c],
{
    lemma_content_upto_len(g, w, g.len() as int);
    lemma_content_upto_index(g, w, g.len() as int, r, c);
}

/// A draw whose starting column lies beyond the interior width leaves
/// the grid unchanged: with `w` columns the last interior column is
/// `w - 2`, so a start column past `w - 2` writes nothing.
pub proof fn lemma_draw_beyond_width_is_noop(
    g: Seq<Seq<char>>,
    t: Seq<char>,
    x: int,
    y: int,
    w: int,
    h: int,
)
    requires
        x + 1 > w - 2,
    ensures
        spec_add_text(g, t, x, y, w, h) == g,
{
}

} // verus!
