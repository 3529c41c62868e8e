//! The town house: its ASCII art and the coloured draw plan.

use vstd::prelude::*;

verus! {

/// The house of the town scene.
#[derive(Default)]
pub struct House;

/// The house art, line by line.
pub open spec fn spec_house_line(i: int) -> Seq<char> {
    if i == 0 {
        "          (                  "@
    } else if i == 1 {
        "                             "@
    } else if i == 2 {
        "            )                "@
    } else if i == 3 {
        "          ( _   _._          "@
    } else if i == 4 {
        "           |_|-'_~_`-._      "@
    } else if i == 5 {
        "        _.-'-_~_-~_-~-_`-._  "@
    } else if i == 6 {
        "    _.-'_~-_~-_-~-_~_~-_~-_`-._"@
    } else if i == 7 {
        "   ~~~~~~~~~~~~~~~~~~~~~~~~~~~~~"@
    } else if i == 8 {
        "     |  []  []   []   []  [] |"@
    } else if i == 9 {
        "     |           __    ___   |"@
    } else if i == 10 {
        "   ._|  []  []  | .|  [___]  |_._._._._._._._._._._._._._._._._."@
    } else if i == 11 {
        "   |=|________()|__|()_______|=|=|=|=|=|=|=|=|=|=|=|=|=|=|=|=|=|"@
    } else {
        " ^^^^^^^^^^^^^^^ === ^^^^^^^^^^^^^^^^^^^^^^^^^^^^^^^^^^^^^^^^^^^^^"@
    }
}

/// Reveal every house art literal, and give each line's length.
pub proof fn lemma_house_lines()
    ensures
        spec_house_line(0).len() == 29,
        spec_house_line(1).len() == 29,
        spec_house_line(2).len() == 29,
        spec_house_line(3).len() == 29,
        spec_house_line(4).len() == 29,
        spec_house_line(5).len() == 29,
        spec_house_line(6).len() == 31,
        spec_house_line(7).len() == 32,
        spec_house_line(8).len() == 30,
        spec_house_line(9).len() == 30,
        spec_house_line(10).len() == 64,
        spec_house_line(11).len() == 64,
        spec_house_line(12).len() == 66,
        forall|i: int| 0 <= i < 13 ==> #[trigger] spec_house_line(i).len() <= 66,
{
    reveal_strlit("          (                  ");
    reveal_strlit("                             ");
    reveal_strlit("            )                ");
    reveal_strlit("          ( _   _._          ");
    reveal_strlit("           |_|-'_~_`-._      ");
    reveal_strlit("        _.-'-_~_-~_-~-_`-._  ");
    reveal_strlit("    _.-'_~-_~-_-~-_~_~-_~-_`-._");
    reveal_strlit("   ~~~~~~~~~~~~~~~~~~~~~~~~~~~~~");
    reveal_strlit("     |  []  []   []   []  [] |");
    reveal_strlit("     |           __    ___   |");
    reveal_strlit("   ._|  []  []  | .|  [___]  |_._._._._._._._._._._._._._._._._.");
    reveal_strlit("   |=|________()|__|()_______|=|=|=|=|=|=|=|=|=|=|=|=|=|=|=|=|=|");
    reveal_strlit(" ^^^^^^^^^^^^^^^ === ^^^^^^^^^^^^^^^^^^^^^^^^^^^^^^^^^^^^^^^^^^^^^");
    assert forall|i: int| 0 <= i < 13 implies #[trigger] spec_house_line(i).len() <= 66 by {
        if i == 0 {
        } else if i == 1 {
        } else if i == 2 {
        } else if i == 3 {
        } else if i == 4 {
        } else if i == 5 {
        } else if i == 6 {
        } else if i == 7 {
        } else if i == 8 {
        } else if i == 9 {
        } else if i == 10 {
        } else if i == 11 {
        } else {
        }
    }
}

/// The colour of one art character, by its row: the smoke and roof rows
/// colour punctuation dark grey over grey smoke and a dark red roof; the
/// wall rows draw cyan windows, wood-toned timber and a brown door; the
/// ground row greens the grass around dark grey rails.
pub open spec fn spec_house_color(i: int, ch: char) -> crate::draw::SceneColor {
    if 0 <= i <= 6 {
        if i < 4 && (ch == '(' || ch == ')' || ch == '_') {
            crate::draw::SceneColor::DarkGrey
        } else if i < 4 {
            crate::draw::SceneColor::Grey
        } else {
            crate::draw::SceneColor::DarkRed
        }
    } else if i == 7 {
        crate::draw::SceneColor::DarkRed
    } else if 8 <= i <= 10 {
        if ch == '[' || ch == ']' {
            crate::draw::SceneColor::Cyan
        } else if ch == '|' || ch == '.' || ch == '_' {
            crate::draw::SceneColor::Tan
        } else if ch == '(' || ch == ')' {
            crate::draw::SceneColor::Brown
        } else if ch == '=' {
            crate::draw::SceneColor::DarkGrey
        } else {
            crate::draw::SceneColor::Tan
        }
    } else if i == 11 {
        if ch == '=' || ch == '|' {
            crate::draw::SceneColor::DarkGrey
        } else if ch == '(' || ch == ')' {
            crate::draw::SceneColor::Brown
        } else {
            crate::draw::SceneColor::Tan
        }
    } else {
        if ch == '^' {
            crate::draw::SceneColor::Green
        } else if ch == '=' {
            crate::draw::SceneColor::DarkGrey
        } else {
            crate::draw::SceneColor::Reset
        }
    }
}

/// The coloured cells of one house row drawn from `(x, y + i)`.
pub open spec fn spec_house_row_cells(i: int, x: int, y: int) -> Seq<crate::draw::CellOp> {
    spec_colored_line_cells(spec_house_line(i), i, x, y + i)
}

/// The coloured cells of one art line of row `i`.
pub open spec fn spec_colored_line_cells(line: Seq<char>, i: int, x: int, y: int) -> Seq<
    crate::draw::CellOp,
>
    decreases line.len(),
{
    if line.len() == 0 {
        Seq::empty()
    } else {
        spec_colored_line_cells(line.drop_last(), i, x, y) + seq![
            crate::draw::CellOp {
                x: (x + line.len() - 1) as u16,
                y: y as u16,
                ch: line.last(),
                color: spec_house_color(i, line.last()),
            }
        ]
    }
}

/// The whole house plan: rows `0..n` drawn from `(x, y)`.
pub open spec fn spec_house_cells_upto(n: int, x: int, y: int) -> Seq<crate::draw::CellOp>
    decreases n,
{
    if n <= 0 {
        Seq::empty()
    } else {
        spec_house_cells_upto(n - 1, x, y) + spec_house_row_cells(n - 1, x, y)
    }
}

/// The whole house plan drawn from `(x, y)`.
pub open spec fn spec_house_cells(x: int, y: int) -> Seq<crate::draw::CellOp> {
    spec_house_cells_upto(13, x, y)
}

impl House {
    /// The house art, top to bottom.
    pub fn get_ascii(&self) -> (r: Vec<&'static str>)
        ensures
            r@.len() == 13,
            forall|i: int| 0 <= i < 13 ==> (#[trigger] r@[i])@ == spec_house_line(i),
    {
        let mut v: Vec<&'static str> = Vec::new();
        v.push("          (                  ");
        v.push("                             ");
        v.push("            )                ");
        v.push("          ( _   _._          ");
        v.push("           |_|-'_~_`-._      ");
        v.push("        _.-'-_~_-~_-~-_`-._  ");
        v.push("    _.-'_~-_~-_-~-_~_~-_~-_`-._");
        v.push("   ~~~~~~~~~~~~~~~~~~~~~~~~~~~~~");
        v.push("     |  []  []   []   []  [] |");
        v.push("     |           __    ___   |");
        v.push("   ._|  []  []  | .|  [___]  |_._._._._._._._._._._._._._._._._.");
        v.push("   |=|________()|__|()_______|=|=|=|=|=|=|=|=|=|=|=|=|=|=|=|=|=|");
        v.push(" ^^^^^^^^^^^^^^^ === ^^^^^^^^^^^^^^^^^^^^^^^^^^^^^^^^^^^^^^^^^^^^^");
        v
    }

    /// The art's height in rows.
    pub fn height(&self) -> (r: u16)
        ensures
            r == 13,
    {
        let ascii = self.get_ascii();
        ascii.len() as u16
    }

    /// The art's width: the length of its longest line.
    pub fn width(&self) -> (r: u16)
        ensures
            r == 66,
    {
        proof {
            lemma_house_lines();
        }
        let ascii = self.get_ascii();
        let mut widest: usize = 0;
        let mut i: usize = 0;
        while i < ascii.len()
            invariant
                0 <= i <= 13,
                ascii@.len() == 13,
                forall|k: int| 0 <= k < 13 ==> (#[trigger] ascii@[k])@ == spec_house_line(k),
                widest <= 66,
                i >= 13 ==> widest == 66,
                forall|k: int| 0 <= k < i ==> spec_house_line(k).len() <= widest,
            decreases 13 - i,
        {
            proof {
                lemma_house_lines();
            }
            let len = ascii[i].unicode_len();
            if len > widest {
                widest = len;
            }
            i = i + 1;
        }
        proof {
            assert(spec_house_line(12).len() == 66);
        }
        widest as u16
    }

    /// The door's column offset inside the art.
    pub fn door_offset(&self) -> (r: u16)
        ensures
            r == 18,
    {
        18
    }

    /// The coloured draw plan of the house at `(x, y)`.
    pub fn render(&self, x: u16, y: u16) -> (r: Vec<crate::draw::CellOp>)
        requires
            x <= 40000,
            y <= 40000,
        ensures
            r@ =~= spec_house_cells(x as int, y as int),
    {
        proof {
            lemma_house_lines();
        }
        let ascii = self.get_ascii();
        let mut out: Vec<crate::draw::CellOp> = Vec::new();
        let mut i: usize = 0;
        while i < ascii.len()
            invariant
                0 <= i <= 13,
                ascii@.len() == 13,
                forall|k: int| 0 <= k < 13 ==> (#[trigger] ascii@[k])@ == spec_house_line(k),
                x <= 40000,
                y <= 40000,
                out@ =~= spec_house_cells_upto(i as int, x as int, y as int),
            decreases 13 - i,
        {
            proof {
                lemma_house_lines();
            }
            let line = ascii[i];
            let len = line.unicode_len();
            proof {
                assert(line@.take(0) =~= Seq::<char>::empty());
            }
            let mut j: usize = 0;
            while j < len
                invariant
                    0 <= j <= len,
                    0 <= i < 13,
                    len == line@.len(),
                    len <= 66,
                    line@ == spec_house_line(i as int),
                    x <= 40000,
                    y <= 40000,
                    out@ =~= spec_house_cells_upto(i as int, x as int, y as int)
                        + spec_colored_line_cells(
                        line@.take(j as int),
                        i as int,
                        x as int,
                        y as int + i,
                    ),
                decreases len - j,
            {
                let ch = line.get_char(j);
                let color = house_color(i, ch);
                out.push(
                    crate::draw::CellOp { x: x + (j as u16), y: y + (i as u16), ch, color },
                );
                proof {
                    assert(line@.take(j + 1).drop_last() =~= line@.take(j as int));
                    assert(line@.take(j + 1).last() == line@[j as int]);
                }
                j = j + 1;
            }
            proof {
                assert(line@.take(len as int) =~= line@);
            }
            i = i + 1;
        }
        out
    }
}

/// The colour of one art character, faithful to [`spec_house_color`].
fn house_color(i: usize, ch: char) -> (r: crate::draw::SceneColor)
    requires
        i < 13,
    ensures
        r == spec_house_color(i as int, ch),
{
    if i <= 6 {
        if i < 4 && (ch == '(' || ch == ')' || ch == '_') {
            crate::draw::SceneColor::DarkGrey
        } else if i < 4 {
            crate::draw::SceneColor::Grey
        } else {
            crate::draw::SceneColor::DarkRed
        }
    } else if i == 7 {
        crate::draw::SceneColor::DarkRed
    } else if i <= 10 {
        if ch == '[' || ch == ']' {
            crate::draw::SceneColor::Cyan
        } else if ch == '|' || ch == '.' || ch == '_' {
            crate::draw::SceneColor::Tan
        } else if ch == '(' || ch == ')' {
            crate::draw::SceneColor::Brown
        } else if ch == '=' {
            crate::draw::SceneColor::DarkGrey
        } else {
            crate::draw::SceneColor::Tan
        }
    } else if i == 11 {
        if ch == '=' || ch == '|' {
            crate::draw::SceneColor::DarkGrey
        } else if ch == '(' || ch == ')' {
            crate::draw::SceneColor::Brown
        } else {
            crate::draw::SceneColor::Tan
        }
    } else {
        if ch == '^' {
            crate::draw::SceneColor::Green
        } else if ch == '=' {
            crate::draw::SceneColor::DarkGrey
        } else {
            crate::draw::SceneColor::Reset
        }
    }
}

} // verus!
