//! City skylines: the art, its selection by city name, and the draw plan
//! that skips blank cells so the scene behind stays visible.

use vstd::prelude::*;

verus! {

/// The skylines the scene can draw.
#[derive(Clone, Copy, Debug, PartialEq, Eq, Structural)]
pub enum SkylineId {
    London,
    NewYork,
    Paris,
    Tokyo,
    Sydney,
    Dubai,
    SanFrancisco,
    Rome,
    GenericUrban,
    GenericRural,
}

/// The art of each skyline, line by line.
pub open spec fn spec_skyline_lines(id: SkylineId) -> Seq<Seq<char>> {
    match id {
        SkylineId::London => seq!["      |         "@, "  __  |   __    "@, " |::|_|__|  |_  "@, " |::|::::|  |:| "@],
        SkylineId::NewYork => seq!["  _   ||   _  "@, " | |_ || _| | "@, " |:::|||||::| "@, " |:::|||||::| "@],
        SkylineId::Paris => seq!["      A       "@, "     /_\\      "@, "    /:::\\     "@, "   /:::::\\    "@],
        SkylineId::Tokyo => seq!["     /\\       "@, "  __/::\\__ _  "@, " |::|::|::|:| "@, " |::|::|::|:| "@],
        SkylineId::Sydney => seq!["    ___       "@, "  _(((( _     "@, " ((((((((_    "@, "_))))))))))__ "@],
        SkylineId::Dubai => seq!["     /|       "@, "    /:|  _    "@, "   /::| |:|   "@, "  /:::|_|:|__ "@],
        SkylineId::SanFrancisco => seq!["   /\\   ___   "@, "  /::\\ |:::|  "@, " |====|=====| "@, " |::::|:::::| "@],
        SkylineId::Rome => seq!["    _____     "@, "  _|OOOOO|_   "@, " |OOOOOOOOO|  "@, " |OOOOOOOOO|  "@],
        SkylineId::GenericUrban => seq!["  _    __   _ "@, " | |_ |::| | |"@, " |:::||::|_|:|"@, " |:::||::|::|:"@],
        SkylineId::GenericRural => seq!["              "@, "   _          "@, "  /_\\   ^ ^   "@, " |___|  ^ ^   "@],
    }
}

/// The width of each skyline: all of an art's lines share one length.
pub open spec fn spec_skyline_width(id: SkylineId) -> int {
    match id {
        SkylineId::London => 16,
        SkylineId::NewYork => 14,
        SkylineId::Paris => 14,
        SkylineId::Tokyo => 14,
        SkylineId::Sydney => 14,
        SkylineId::Dubai => 14,
        SkylineId::SanFrancisco => 14,
        SkylineId::Rome => 14,
        SkylineId::GenericUrban => 14,
        SkylineId::GenericRural => 14,
    }
}

/// Reveal the skyline art literals: each art has 4 lines of its width.
pub proof fn lemma_skyline_lines(id: SkylineId)
    ensures
        spec_skyline_lines(id).len() == 4,
        3 <= spec_skyline_width(id) <= 40,
        forall|i: int| 0 <= i < 4 ==> (#[trigger] spec_skyline_lines(id)[i]).len()
            == spec_skyline_width(id),
{
    reveal_strlit("      |         ");
    reveal_strlit("  __  |   __    ");
    reveal_strlit(" |::|_|__|  |_  ");
    reveal_strlit(" |::|::::|  |:| ");
    reveal_strlit("  _   ||   _  ");
    reveal_strlit(" | |_ || _| | ");
    reveal_strlit(" |:::|||||::| ");
    reveal_strlit("      A       ");
    reveal_strlit("     /_\\      ");
    reveal_strlit("    /:::\\     ");
    reveal_strlit("   /:::::\\    ");
    reveal_strlit("     /\\       ");
    reveal_strlit("  __/::\\__ _  ");
    reveal_strlit(" |::|::|::|:| ");
    reveal_strlit("    ___       ");
    reveal_strlit("  _(((( _     ");
    reveal_strlit(" ((((((((_    ");
    reveal_strlit("_))))))))))__ ");
    reveal_strlit("     /|       ");
    reveal_strlit("    /:|  _    ");
    reveal_strlit("   /::| |:|   ");
    reveal_strlit("  /:::|_|:|__ ");
    reveal_strlit("   /\\   ___   ");
    reveal_strlit("  /::\\ |:::|  ");
    reveal_strlit(" |====|=====| ");
    reveal_strlit(" |::::|:::::| ");
    reveal_strlit("    _____     ");
    reveal_strlit("  _|OOOOO|_   ");
    reveal_strlit(" |OOOOOOOOO|  ");
    reveal_strlit("  _    __   _ ");
    reveal_strlit(" | |_ |::| | |");
    reveal_strlit(" |:::||::|_|:|");
    reveal_strlit(" |:::||::|::|:");
    reveal_strlit("              ");
    reveal_strlit("   _          ");
    reveal_strlit("  /_\\   ^ ^   ");
    reveal_strlit(" |___|  ^ ^   ");
    assert forall|i: int| 0 <= i < 4 implies (#[trigger] spec_skyline_lines(id)[i]).len()
        == spec_skyline_width(id) by {
        match id {
            SkylineId::London => {
                if i == 0 {
                } else if i == 1 {
                } else if i == 2 {
                } else {
                }
            },
            SkylineId::NewYork => {
                if i == 0 {
                } else if i == 1 {
                } else if i == 2 {
                } else {
                }
            },
            SkylineId::Paris => {
                if i == 0 {
                } else if i == 1 {
                } else if i == 2 {
                } else {
                }
            },
            SkylineId::Tokyo => {
                if i == 0 {
                } else if i == 1 {
                } else if i == 2 {
                } else {
                }
            },
            SkylineId::Sydney => {
                if i == 0 {
                } else if i == 1 {
                } else if i == 2 {
                } else {
                }
            },
            SkylineId::Dubai => {
                if i == 0 {
                } else if i == 1 {
                } else if i == 2 {
                } else {
                }
            },
            SkylineId::SanFrancisco => {
                if i == 0 {
                } else if i == 1 {
                } else if i == 2 {
                } else {
                }
            },
            SkylineId::Rome => {
                if i == 0 {
                } else if i == 1 {
                } else if i == 2 {
                } else {
                }
            },
            SkylineId::GenericUrban => {
                if i == 0 {
                } else if i == 1 {
                } else if i == 2 {
                } else {
                }
            },
            SkylineId::GenericRural => {
                if i == 0 {
                } else if i == 1 {
                } else if i == 2 {
                } else {
                }
            },
        }
    }
}

/// A selected skyline: its art and measured size.
pub struct Skyline {
    pub ascii: Vec<&'static str>,
    pub width: u16,
    pub height: u16,
}

/// The size fields of a skyline describe its art and stay small.
pub open spec fn spec_skyline_wf(s: Skyline) -> bool {
    &&& s.ascii@.len() == s.height
    &&& s.height <= 10
    &&& s.width <= 100
    &&& forall|i: int| 0 <= i < s.ascii@.len() ==> (#[trigger] s.ascii@[i])@.len() <= s.width
}

impl Skyline {
    /// Select the art for a skyline and measure it.
    pub fn new(id: SkylineId) -> (s: Self)
        ensures
            s.ascii@.map_values(|l: &'static str| l@) == spec_skyline_lines(id),
            s.height == 4,
            s.width == spec_skyline_width(id),
            spec_skyline_wf(s),
    {
        proof {
            lemma_skyline_lines(id);
        }
        let mut ascii: Vec<&'static str> = Vec::new();
        let width: u16;
        match id {
            SkylineId::London => {
                ascii.push("      |         ");
                ascii.push("  __  |   __    ");
                ascii.push(" |::|_|__|  |_  ");
                ascii.push(" |::|::::|  |:| ");
                width = 16;
            },
            SkylineId::NewYork => {
                ascii.push("  _   ||   _  ");
                ascii.push(" | |_ || _| | ");
                ascii.push(" |:::|||||::| ");
                ascii.push(" |:::|||||::| ");
                width = 14;
            },
            SkylineId::Paris => {
                ascii.push("      A       ");
                ascii.push("     /_\\      ");
                ascii.push("    /:::\\     ");
                ascii.push("   /:::::\\    ");
                width = 14;
            },
            SkylineId::Tokyo => {
                ascii.push("     /\\       ");
                ascii.push("  __/::\\__ _  ");
                ascii.push(" |::|::|::|:| ");
                ascii.push(" |::|::|::|:| ");
                width = 14;
            },
            SkylineId::Sydney => {
                ascii.push("    ___       ");
                ascii.push("  _(((( _     ");
                ascii.push(" ((((((((_    ");
                ascii.push("_))))))))))__ ");
                width = 14;
            },
            SkylineId::Dubai => {
                ascii.push("     /|       ");
                ascii.push("    /:|  _    ");
                ascii.push("   /::| |:|   ");
                ascii.push("  /:::|_|:|__ ");
                width = 14;
            },
            SkylineId::SanFrancisco => {
                ascii.push("   /\\   ___   ");
                ascii.push("  /::\\ |:::|  ");
                ascii.push(" |====|=====| ");
                ascii.push(" |::::|:::::| ");
                width = 14;
            },
            SkylineId::Rome => {
                ascii.push("    _____     ");
                ascii.push("  _|OOOOO|_   ");
                ascii.push(" |OOOOOOOOO|  ");
                ascii.push(" |OOOOOOOOO|  ");
                width = 14;
            },
            SkylineId::GenericUrban => {
                ascii.push("  _    __   _ ");
                ascii.push(" | |_ |::| | |");
                ascii.push(" |:::||::|_|:|");
                ascii.push(" |:::||::|::|:");
                width = 14;
            },
            SkylineId::GenericRural => {
                ascii.push("              ");
                ascii.push("   _          ");
                ascii.push("  /_\\   ^ ^   ");
                ascii.push(" |___|  ^ ^   ");
                width = 14;
            },
        }
        proof {
            assert(ascii@.map_values(|l: &'static str| l@) =~= spec_skyline_lines(id));
        }
        let s = Skyline { ascii, width, height: 4 };
        proof {
            assert(forall|i: int|
                0 <= i < s.ascii@.len() ==> (#[trigger] s.ascii@[i])@ == spec_skyline_lines(id)[i]);
        }
        s
    }

    /// The art's width in columns.
    pub fn width(&self) -> (r: u16)
        ensures
            r == self.width,
    {
        self.width
    }

    /// The art's height in rows.
    pub fn height(&self) -> (r: u16)
        ensures
            r == self.height,
    {
        self.height
    }

    /// The draw plan of the skyline at `(x, y)`: white by day, grey by
    /// night, with blank cells left undrawn.
    pub fn render(&self, x: u16, y: u16, is_day: bool) -> (r: Vec<crate::draw::CellOp>)
        requires
            x <= 30000,
            y <= 30000,
            spec_skyline_wf(*self),
        ensures
            r@ =~= spec_sky_block_cells(
                self.ascii@.map_values(|l: &'static str| l@),
                x as int,
                y as int,
                spec_sky_color(is_day),
            ),
    {
        let color = if is_day {
            crate::draw::SceneColor::White
        } else {
            crate::draw::SceneColor::Grey
        };
        let ghost line_views = self.ascii@.map_values(|l: &'static str| l@);
        let mut out: Vec<crate::draw::CellOp> = Vec::new();
        proof {
            assert(line_views.take(0) =~= Seq::<Seq<char>>::empty());
        }
        let mut i: usize = 0;
        while i < self.ascii.len()
            invariant
                0 <= i <= self.ascii@.len(),
                spec_skyline_wf(*self),
                color == spec_sky_color(is_day),
                line_views == self.ascii@.map_values(|l: &'static str| l@),
                x <= 30000,
                y <= 30000,
                out@ =~= spec_sky_block_cells(
                    line_views.take(i as int),
                    x as int,
                    y as int,
                    color,
                ),
            decreases self.ascii@.len() - i,
        {
            let line = self.ascii[i];
            let len = line.unicode_len();
            proof {
                assert(line_views[i as int] == line@);
                assert(line@.take(0) =~= Seq::<char>::empty());
            }
            let mut j: usize = 0;
            while j < len
                invariant
                    0 <= j <= len,
                    len == line@.len(),
                    len <= 100,
                    0 <= i < self.ascii@.len(),
                    x <= 30000,
                    y <= 30000,
                    i <= 10,
                    color == spec_sky_color(is_day),
                    line_views == self.ascii@.map_values(|l: &'static str| l@),
                    line@ == line_views[i as int],
                    out@ =~= spec_sky_block_cells(
                        line_views.take(i as int),
                        x as int,
                        y as int,
                        color,
                    ) + spec_sky_line_cells(line@.take(j as int), x as int, y as int + i, color),
                decreases len - j,
            {
                let ch = line.get_char(j);
                if ch != ' ' {
                    out.push(
                        crate::draw::CellOp { x: x + (j as u16), y: y + (i as u16), ch, color },
                    );
                }
                proof {
                    assert(line@.take(j + 1).drop_last() =~= line@.take(j as int));
                    assert(line@.take(j + 1).last() == line@[j as int]);
                }
                j = j + 1;
            }
            proof {
                assert(line@.take(len as int) =~= line@);
                assert(line_views.take(i + 1).drop_last() =~= line_views.take(i as int));
                assert(line_views.take(i + 1).last() == line_views[i as int]);
            }
            i = i + 1;
        }
        proof {
            assert(line_views.take(self.ascii@.len() as int) =~= line_views);
        }
        out
    }
}

/// The skyline's colour by daylight.
pub open spec fn spec_sky_color(is_day: bool) -> crate::draw::SceneColor {
    if is_day {
        crate::draw::SceneColor::White
    } else {
        crate::draw::SceneColor::Grey
    }
}

/// The cells of one skyline line, blanks left undrawn.
pub open spec fn spec_sky_line_cells(
    line: Seq<char>,
    x: int,
    y: int,
    color: crate::draw::SceneColor,
) -> Seq<crate::draw::CellOp>
    decreases line.len(),
{
    if line.len() == 0 {
        Seq::empty()
    } else {
        spec_sky_line_cells(line.drop_last(), x, y, color) + (if line.last() == ' ' {
            Seq::empty()
        } else {
            seq![
                crate::draw::CellOp {
                    x: (x + line.len() - 1) as u16,
                    y: y as u16,
                    ch: line.last(),
                    color,
                }
            ]
        })
    }
}

/// The cells of a skyline block, blanks left undrawn.
pub open spec fn spec_sky_block_cells(
    lines: Seq<Seq<char>>,
    x: int,
    y: int,
    color: crate::draw::SceneColor,
) -> Seq<crate::draw::CellOp>
    decreases lines.len(),
{
    if lines.len() == 0 {
        Seq::empty()
    } else {
        spec_sky_block_cells(lines.drop_last(), x, y, color) + spec_sky_line_cells(
            lines.last(),
            x,
            y + lines.len() - 1,
            color,
        )
    }
}

/// What dispatches on trusted lowercase folding: the result of
/// `str::to_lowercase`, which depends on the characters alone.
pub uninterp spec fn lower_of(s: Seq<char>) -> Seq<char>;

/// Relies on `str::to_lowercase`: Unicode lowercasing of the text, a
/// function of the characters alone.
#[verifier::external_body]
fn lowercase(s: &str) -> (r: String)
    ensures
        r@ == lower_of(s@),
{
    s.to_lowercase()
}

/// The skyline a lowercased city name selects, if any.
pub open spec fn spec_resolve_lowered(l: Seq<char>) -> Option<SkylineId> {
    if l == "london"@ {
        Some(SkylineId::London)
    } else if l == "new york"@ || l == "new york city"@ || l == "nyc"@ || l == "manhattan"@ {
        Some(SkylineId::NewYork)
    } else if l == "paris"@ {
        Some(SkylineId::Paris)
    } else if l == "tokyo"@ {
        Some(SkylineId::Tokyo)
    } else if l == "sydney"@ {
        Some(SkylineId::Sydney)
    } else if l == "dubai"@ {
        Some(SkylineId::Dubai)
    } else if l == "san francisco"@ || l == "sf"@ {
        Some(SkylineId::SanFrancisco)
    } else if l == "rome"@ || l == "roma"@ {
        Some(SkylineId::Rome)
    } else {
        None
    }
}

/// Resolve a city name, case-insensitively, to its skyline.
pub fn resolve_skyline(city: Option<&str>) -> (r: Option<SkylineId>)
    ensures
        match city {
            Some(c) => r == spec_resolve_lowered(lower_of(c@)),
            None => r is None,
        },
{
    let c = match city {
        Some(c) => c,
        None => {
            return None;
        },
    };
    let lowered = lowercase(c);
    let l = lowered.as_str();
    if crate::text::str_eq(l, "london") {
        Some(SkylineId::London)
    } else if crate::text::str_eq(l, "new york") || crate::text::str_eq(l, "new york city")
        || crate::text::str_eq(l, "nyc") || crate::text::str_eq(l, "manhattan") {
        Some(SkylineId::NewYork)
    } else if crate::text::str_eq(l, "paris") {
        Some(SkylineId::Paris)
    } else if crate::text::str_eq(l, "tokyo") {
        Some(SkylineId::Tokyo)
    } else if crate::text::str_eq(l, "sydney") {
        Some(SkylineId::Sydney)
    } else if crate::text::str_eq(l, "dubai") {
        Some(SkylineId::Dubai)
    } else if crate::text::str_eq(l, "san francisco") || crate::text::str_eq(l, "sf") {
        Some(SkylineId::SanFrancisco)
    } else if crate::text::str_eq(l, "rome") || crate::text::str_eq(l, "roma") {
        Some(SkylineId::Rome)
    } else {
        None
    }
}

} // verus!
