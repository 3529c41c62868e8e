//! Draw plans: the scene renderers compute plain cell lists — position,
//! character, colour — and the terminal plumbing paints them.

use vstd::prelude::*;

verus! {

/// The palette the scene draws with. The two wood tones carry their own
/// names; the terminal plumbing maps them to RGB values.
#[derive(Clone, Copy, Debug, PartialEq, Eq, Structural)]
pub enum SceneColor {
    White,
    Grey,
    DarkGrey,
    DarkRed,
    Cyan,
    Green,
    DarkGreen,
    Blue,
    DarkBlue,
    Yellow,
    Reset,
    /// Night foliage, as an RGB tone.
    DeepGreen,
    /// Light wood, as an RGB tone.
    Tan,
    /// Dark wood, as an RGB tone.
    Brown,
}

/// One character to paint at one cell.
#[derive(Clone, Copy, Debug, PartialEq, Eq, Structural)]
pub struct CellOp {
    pub x: u16,
    pub y: u16,
    pub ch: char,
    pub color: SceneColor,
}

/// The cells of one text line drawn left to right from `(x, y)`, all in
/// one colour.
pub open spec fn spec_line_cells(line: Seq<char>, x: int, y: int, color: SceneColor) -> Seq<CellOp>
    decreases line.len(),
{
    if line.len() == 0 {
        Seq::empty()
    } else {
        spec_line_cells(line.drop_last(), x, y, color) + seq![
            CellOp { x: (x + line.len() - 1) as u16, y: y as u16, ch: line.last(), color }
        ]
    }
}

/// The cells of a block of lines drawn top to bottom from `(x, y)`, all in
/// one colour.
pub open spec fn spec_block_cells(lines: Seq<Seq<char>>, x: int, y: int, color: SceneColor) -> Seq<
    CellOp,
>
    decreases lines.len(),
{
    if lines.len() == 0 {
        Seq::empty()
    } else {
        spec_block_cells(lines.drop_last(), x, y, color) + spec_line_cells(
            lines.last(),
            x,
            y + lines.len() - 1,
            color,
        )
    }
}

/// Append the cells of one text line to a plan.
pub fn push_line(out: &mut Vec<CellOp>, line: &str, x: u16, y: u16, color: SceneColor)
    requires
        x <= 40000,
        y <= 40000,
        line@.len() <= 1000,
    ensures
        final(out)@ =~= old(out)@ + spec_line_cells(line@, x as int, y as int, color),
{
    let len = line.unicode_len();
    proof {
        assert(line@.take(0) =~= Seq::<char>::empty());
    }
    let mut j: usize = 0;
    while j < len
        invariant
            0 <= j <= len,
            len == line@.len(),
            x <= 40000,
            y <= 40000,
            len <= 1000,
            out@ =~= old(out)@ + spec_line_cells(line@.take(j as int), x as int, y as int, color),
        decreases len - j,
    {
        let ch = line.get_char(j);
        out.push(CellOp { x: x + (j as u16), y, ch, color });
        proof {
            assert(line@.take(j + 1).drop_last() =~= line@.take(j as int));
            assert(line@.take(j + 1).last() == line@[j as int]);
        }
        j = j + 1;
    }
    proof {
        assert(line@.take(len as int) =~= line@);
    }
}

/// Append the cells of one block of lines to a plan.
pub fn push_block(
    out: &mut Vec<CellOp>,
    lines: &Vec<&'static str>,
    x: u16,
    y: u16,
    color: SceneColor,
)
    requires
        x <= 40000,
        y <= 39000,
        lines@.len() <= 1000,
        forall|i: int| 0 <= i < lines@.len() ==> (#[trigger] lines@[i])@.len() <= 1000,
    ensures
        final(out)@ =~= old(out)@ + spec_block_cells(
            lines@.map_values(|l: &'static str| l@),
            x as int,
            y as int,
            color,
        ),
{
    let ghost line_views = lines@.map_values(|l: &'static str| l@);
    proof {
        assert(line_views.take(0) =~= Seq::<Seq<char>>::empty());
    }
    let mut i: usize = 0;
    while i < lines.len()
        invariant
            0 <= i <= lines@.len(),
            x <= 40000,
            y <= 39000,
            lines@.len() <= 1000,
            forall|k: int| 0 <= k < lines@.len() ==> (#[trigger] lines@[k])@.len() <= 1000,
            line_views == lines@.map_values(|l: &'static str| l@),
            out@ =~= old(out)@ + spec_block_cells(
                line_views.take(i as int),
                x as int,
                y as int,
                color,
            ),
        decreases lines@.len() - i,
    {
        let line = lines[i];
        proof {
            assert(line_views[i as int] == line@);
        }
        push_line(out, line, x, y + (i as u16), color);
        proof {
            assert(line_views.take(i + 1).drop_last() =~= line_views.take(i as int));
            assert(line_views.take(i + 1).last() == line_views[i as int]);
            assert(spec_block_cells(line_views.take(i + 1), x as int, y as int, color)
                =~= spec_block_cells(line_views.take(i as int), x as int, y as int, color)
                + spec_line_cells(line_views[i as int], x as int, y as int + i, color));
        }
        i = i + 1;
    }
    proof {
        assert(line_views.take(lines@.len() as int) =~= line_views);
    }
}

} // verus!
