use vstd::prelude::*;
use crate::cell::glyph;
use crate::grid::Grid;
use crate::model::Model;

verus! {

/// A run of `n` border dashes.
pub open spec fn dashes(n: nat) -> Seq<char>
    decreases n,
{
    if n == 0 {
        Seq::empty()
    } else {
        dashes((n - 1) as nat).push('-')
    }
}

/// The decimal digit character for `d` in `0..10`.
pub open spec fn digit_char(d: int) -> char {
    if d == 0 {
        '0'
    } else if d == 1 {
        '1'
    } else if d == 2 {
        '2'
    } else if d == 3 {
        '3'
    } else if d == 4 {
        '4'
    } else if d == 5 {
        '5'
    } else if d == 6 {
        '6'
    } else if d == 7 {
        '7'
    } else if d == 8 {
        '8'
    } else {
        '9'
    }
}

/// The glyphs of the first `x` cells of row `y`.
pub open spec fn row_glyphs(m: Model, y: int, x: nat) -> Seq<char>
    decreases x,
{
    if x == 0 {
        Seq::empty()
    } else {
        row_glyphs(m, y, (x - 1) as nat).push(glyph(m.cell_at(x - 1, y).id))
    }
}

/// One rendered row: the last digit of its index, a bar, one glyph per
/// cell, a bar and a newline.
pub open spec fn grid_line(m: Model, y: int) -> Seq<char> {
    seq![digit_char(y % 10), '|'] + row_glyphs(m, y, m.w as nat) + seq!['|', '\n']
}

/// The first `rows` rendered rows, top first.
pub open spec fn grid_lines(m: Model, rows: nat) -> Seq<char>
    decreases rows,
{
    if rows == 0 {
        Seq::empty()
    } else {
        grid_lines(m, (rows - 1) as nat) + grid_line(m, rows - 1)
    }
}

/// The whole bordered rendering: a dash border, the rows, a dash border.
pub open spec fn spec_format(m: Model) -> Seq<char> {
    dashes((m.w + 3) as nat).push('\n') + grid_lines(m, m.h as nat) + dashes(
        (m.w + 3) as nat,
    ).push('\n')
}

/// Appends one glyph for a material.
fn push_glyph(s: &mut String, id: crate::cell::CellId)
    ensures
        final(s)@ == old(s)@.push(glyph(id)),
{
    proof {
        reveal_strlit(" ");
        reveal_strlit(".");
        reveal_strlit("~");
        reveal_strlit("#");
        reveal_strlit("*");
        reveal_strlit("X");
    }
    match id {
        crate::cell::CellId::Empty => s.append(" "),
        crate::cell::CellId::Sand => s.append("."),
        crate::cell::CellId::Water => s.append("~"),
        crate::cell::CellId::Wood => s.append("#"),
        crate::cell::CellId::Special => s.append("*"),
        crate::cell::CellId::Unavailable => s.append("X"),
    }
    proof {
        assert(final(s)@ =~= old(s)@.push(glyph(id)));
    }
}

/// Appends the last decimal digit of `y`.
fn push_digit(s: &mut String, y: usize)
    ensures
        final(s)@ == old(s)@.push(digit_char(y as int % 10)),
{
    proof {
        reveal_strlit("0");
        reveal_strlit("1");
        reveal_strlit("2");
        reveal_strlit("3");
        reveal_strlit("4");
        reveal_strlit("5");
        reveal_strlit("6");
        reveal_strlit("7");
        reveal_strlit("8");
        reveal_strlit("9");
    }
    match y % 10 {
        0 => s.append("0"),
        1 => s.append("1"),
        2 => s.append("2"),
        3 => s.append("3"),
        4 => s.append("4"),
        5 => s.append("5"),
        6 => s.append("6"),
        7 => s.append("7"),
        8 => s.append("8"),
        _ => s.append("9"),
    }
    proof {
        assert(final(s)@ =~= old(s)@.push(digit_char(y as int % 10)));
    }
}

/// Appends `n` border dashes.
fn push_dashes(s: &mut String, n: usize)
    ensures
        final(s)@ == old(s)@ + dashes(n as nat),
{
    let mut i: usize = 0;
    while i < n
        invariant
            i <= n,
            s@ == old(s)@ + dashes(i as nat),
        decreases n - i,
    {
        s.append("-");
        i = i + 1;
        proof {
            reveal_strlit("-");
            assert(s@ =~= old(s)@ + dashes(i as nat));
        }
    }
}

impl Grid {
    /// The deterministic bordered text rendering of the grid, one glyph per
    /// material, used for text-based regression checks.
    pub fn format(&self) -> (r: String)
        requires
            self.wf(),
        ensures
            r@ == spec_format(self@),
    {
        let mut s = String::new();
        let border = self.width + 3;
        push_dashes(&mut s, border);
        proof {
            reveal_strlit("\n");
            reveal_strlit("|");
            reveal_strlit("|\n");
        }
        s.append("\n");
        proof {
            assert(s@ =~= dashes((self@.w + 3) as nat).push('\n'));
        }
        let ghost head = s@;
        let mut y: usize = 0;
        while y < self.height
            invariant
                self.wf(),
                y <= self@.h,
                s@ == head + grid_lines(self@, y as nat),
                head == dashes((self@.w + 3) as nat).push('\n'),
            decreases self@.h - y,
        {
            let ghost line_start = s@;
            push_digit(&mut s, y);
            s.append("|");
            proof {
                reveal_strlit("|");
                assert(s@ =~= line_start + seq![digit_char(y as int % 10), '|']);
            }
            let ghost mid = s@;
            let mut x: usize = 0;
            while x < self.width
                invariant
                    self.wf(),
                    x <= self@.w,
                    y < self@.h,
                    s@ == mid + row_glyphs(self@, y as int, x as nat),
                    mid == line_start + seq![digit_char(y as int % 10), '|'],
                decreases self@.w - x,
            {
                let c = self.cell(x as i32, y as i32);
                push_glyph(&mut s, c.id);
                x = x + 1;
            }
            s.append("|\n");
            proof {
                reveal_strlit("|\n");
                assert(seq!['|', '\n'] =~= "|\n"@);
                assert(s@ =~= line_start + grid_line(self@, y as int));
                assert(s@ =~= head + grid_lines(self@, (y + 1) as nat));
            }
            y = y + 1;
        }
        push_dashes(&mut s, border);
        s.append("\n");
        proof {
            assert(s@ =~= spec_format(self@));
        }
        s
    }
}

} // verus!
