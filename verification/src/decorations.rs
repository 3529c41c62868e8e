//! The town scene's decorations — tree, fence, mailbox and bush — and
//! their placement around the house.

use vstd::prelude::*;

verus! {

/// The decorations of the town scene.
#[derive(Default)]
pub struct Decorations;

/// The tree art.
pub open spec fn spec_tree_lines() -> Seq<Seq<char>> {
    seq![
        "      ####      "@,
        "    ########    "@,
        "   ##########   "@,
        "    ########    "@,
        "      _||_      "@,
    ]
}

/// The bush art.
pub open spec fn spec_bush_lines() -> Seq<Seq<char>> {
    seq!["  ,.,  "@, " (,,,,)"@, "  \"||\" "@]
}

/// The fence art.
pub open spec fn spec_fence_lines() -> Seq<Seq<char>> {
    seq!["|--|--|--|--|"@, "|  |  |  |  |"@]
}

/// The mailbox art.
pub open spec fn spec_mailbox_lines() -> Seq<Seq<char>> {
    seq![" ___ "@, "|___|"@, "  |  "@]
}

/// Reveal the decoration art literals and bound their line lengths.
pub proof fn lemma_decoration_lines()
    ensures
        spec_tree_lines().len() == 5,
        spec_bush_lines().len() == 3,
        spec_fence_lines().len() == 2,
        spec_mailbox_lines().len() == 3,
        forall|i: int| 0 <= i < 5 ==> (#[trigger] spec_tree_lines()[i]).len() == 16,
        forall|i: int| 0 <= i < 3 ==> (#[trigger] spec_bush_lines()[i]).len() == 7,
        forall|i: int| 0 <= i < 2 ==> (#[trigger] spec_fence_lines()[i]).len() == 13,
        forall|i: int| 0 <= i < 3 ==> (#[trigger] spec_mailbox_lines()[i]).len() == 5,
{
    reveal_strlit("      ####      ");
    reveal_strlit("    ########    ");
    reveal_strlit("   ##########   ");
    reveal_strlit("      _||_      ");
    reveal_strlit("  ,.,  ");
    reveal_strlit(" (,,,,)");
    reveal_strlit("  \"||\" ");
    reveal_strlit("|--|--|--|--|");
    reveal_strlit("|  |  |  |  |");
    reveal_strlit(" ___ ");
    reveal_strlit("|___|");
    reveal_strlit("  |  ");
    assert forall|i: int| 0 <= i < 5 implies (#[trigger] spec_tree_lines()[i]).len() == 16 by {
        if i == 0 {
        } else if i == 1 {
        } else if i == 2 {
        } else if i == 3 {
        } else {
        }
    }
    assert forall|i: int| 0 <= i < 3 implies (#[trigger] spec_bush_lines()[i]).len() == 7 by {
        if i == 0 {
        } else if i == 1 {
        } else {
        }
    }
    assert forall|i: int| 0 <= i < 2 implies (#[trigger] spec_fence_lines()[i]).len() == 13 by {
        if i == 0 {
        } else {
        }
    }
    assert forall|i: int| 0 <= i < 3 implies (#[trigger] spec_mailbox_lines()[i]).len() == 5 by {
        if i == 0 {
        } else if i == 1 {
        } else {
        }
    }
}

/// The tree's colour by daylight.
pub open spec fn spec_tree_color(is_day: bool) -> crate::draw::SceneColor {
    if is_day {
        crate::draw::SceneColor::DarkGreen
    } else {
        crate::draw::SceneColor::DeepGreen
    }
}

/// The bush's colour by daylight.
pub open spec fn spec_bush_color(is_day: bool) -> crate::draw::SceneColor {
    if is_day {
        crate::draw::SceneColor::Green
    } else {
        crate::draw::SceneColor::DarkGreen
    }
}

/// The fence's colour by daylight.
pub open spec fn spec_fence_color(is_day: bool) -> crate::draw::SceneColor {
    if is_day {
        crate::draw::SceneColor::White
    } else {
        crate::draw::SceneColor::Grey
    }
}

/// The mailbox's colour by daylight.
pub open spec fn spec_mailbox_color(is_day: bool) -> crate::draw::SceneColor {
    if is_day {
        crate::draw::SceneColor::Blue
    } else {
        crate::draw::SceneColor::DarkBlue
    }
}

/// Saturating subtraction.
pub open spec fn spec_sat_sub(a: int, b: int) -> int {
    if a >= b {
        a - b
    } else {
        0
    }
}

/// The whole decoration plan: the tree left of the house when it fits, the
/// fence right of the house when inside the view, the mailbox right of the
/// path when inside the view, and the bush left of the path when it fits,
/// in that order.
pub open spec fn spec_decorations_cells(
    horizon_y: int,
    house_x: int,
    house_width: int,
    path_center: int,
    width: int,
    is_day: bool,
) -> Seq<crate::draw::CellOp> {
    let tree_x = spec_sat_sub(house_x, 20);
    let fence_x = house_x + house_width + 2;
    let mailbox_x = path_center + 6;
    let bush_x = spec_sat_sub(path_center, 10);
    (if tree_x > 0 {
        crate::draw::spec_block_cells(
            spec_tree_lines(),
            tree_x,
            spec_sat_sub(horizon_y, 5),
            spec_tree_color(is_day),
        )
    } else {
        Seq::empty()
    }) + (if fence_x < width {
        crate::draw::spec_block_cells(
            spec_fence_lines(),
            fence_x,
            spec_sat_sub(horizon_y, 2),
            spec_fence_color(is_day),
        )
    } else {
        Seq::empty()
    }) + (if mailbox_x < width {
        crate::draw::spec_block_cells(
            spec_mailbox_lines(),
            mailbox_x,
            horizon_y + 1,
            spec_mailbox_color(is_day),
        )
    } else {
        Seq::empty()
    }) + (if bush_x > 0 {
        crate::draw::spec_block_cells(
            spec_bush_lines(),
            bush_x,
            spec_sat_sub(horizon_y, 1),
            spec_bush_color(is_day),
        )
    } else {
        Seq::empty()
    })
}

impl Decorations {
    pub fn new() -> (r: Self) {
        Decorations
    }

    /// The tree art and its colour by daylight.
    fn get_tree(&self, is_day: bool) -> (r: (Vec<&'static str>, crate::draw::SceneColor))
        ensures
            r.0@.map_values(|l: &'static str| l@) =~= spec_tree_lines(),
            r.1 == spec_tree_color(is_day),
    {
        let mut v: Vec<&'static str> = Vec::new();
        v.push("      ####      ");
        v.push("    ########    ");
        v.push("   ##########   ");
        v.push("    ########    ");
        v.push("      _||_      ");
        let color = if is_day {
            crate::draw::SceneColor::DarkGreen
        } else {
            crate::draw::SceneColor::DeepGreen
        };
        (v, color)
    }

    /// The bush art and its colour by daylight.
    fn get_bush(&self, is_day: bool) -> (r: (Vec<&'static str>, crate::draw::SceneColor))
        ensures
            r.0@.map_values(|l: &'static str| l@) =~= spec_bush_lines(),
            r.1 == spec_bush_color(is_day),
    {
        let mut v: Vec<&'static str> = Vec::new();
        v.push("  ,.,  ");
        v.push(" (,,,,)");
        v.push("  \"||\" ");
        let color = if is_day {
            crate::draw::SceneColor::Green
        } else {
            crate::draw::SceneColor::DarkGreen
        };
        (v, color)
    }

    /// The fence art and its colour by daylight.
    fn get_fence(&self, is_day: bool) -> (r: (Vec<&'static str>, crate::draw::SceneColor))
        ensures
            r.0@.map_values(|l: &'static str| l@) =~= spec_fence_lines(),
            r.1 == spec_fence_color(is_day),
    {
        let mut v: Vec<&'static str> = Vec::new();
        v.push("|--|--|--|--|");
        v.push("|  |  |  |  |");
        let color = if is_day {
            crate::draw::SceneColor::White
        } else {
            crate::draw::SceneColor::Grey
        };
        (v, color)
    }

    /// The mailbox art and its colour by daylight.
    fn get_mailbox(&self, is_day: bool) -> (r: (Vec<&'static str>, crate::draw::SceneColor))
        ensures
            r.0@.map_values(|l: &'static str| l@) =~= spec_mailbox_lines(),
            r.1 == spec_mailbox_color(is_day),
    {
        let mut v: Vec<&'static str> = Vec::new();
        v.push(" ___ ");
        v.push("|___|");
        v.push("  |  ");
        let color = if is_day {
            crate::draw::SceneColor::Blue
        } else {
            crate::draw::SceneColor::DarkBlue
        };
        (v, color)
    }

    /// The decoration plan around the house.
    pub fn render(
        &self,
        horizon_y: u16,
        house_x: u16,
        house_width: u16,
        path_center: u16,
        width: u16,
        is_day: bool,
    ) -> (r: Vec<crate::draw::CellOp>)
        requires
            horizon_y <= 30000,
            house_x <= 30000,
            house_width <= 1000,
            path_center <= 30000,
            width <= 30000,
        ensures
            r@ =~= spec_decorations_cells(
                horizon_y as int,
                house_x as int,
                house_width as int,
                path_center as int,
                width as int,
                is_day,
            ),
    {
        proof {
            lemma_decoration_lines();
        }
        let mut out: Vec<crate::draw::CellOp> = Vec::new();

        let (tree_lines, tree_color) = self.get_tree(is_day);
        let tree_x = if house_x >= 20 {
            house_x - 20
        } else {
            0
        };
        let tree_y = if horizon_y >= 5 {
            horizon_y - 5
        } else {
            0
        };
        if tree_x > 0 {
            crate::draw::push_block(&mut out, &tree_lines, tree_x, tree_y, tree_color);
        }

        let (fence_lines, fence_color) = self.get_fence(is_day);
        let fence_x = house_x + house_width + 2;
        let fence_y = if horizon_y >= 2 {
            horizon_y - 2
        } else {
            0
        };
        if fence_x < width {
            crate::draw::push_block(&mut out, &fence_lines, fence_x, fence_y, fence_color);
        }

        let (mailbox_lines, mailbox_color) = self.get_mailbox(is_day);
        let mailbox_x = path_center + 6;
        let mailbox_y = horizon_y + 1;
        if mailbox_x < width {
            crate::draw::push_block(&mut out, &mailbox_lines, mailbox_x, mailbox_y, mailbox_color);
        }

        let (bush_lines, bush_color) = self.get_bush(is_day);
        let bush_x = if path_center >= 10 {
            path_center - 10
        } else {
            0
        };
        let bush_y = if horizon_y >= 1 {
            horizon_y - 1
        } else {
            0
        };
        if bush_x > 0 {
            crate::draw::push_block(&mut out, &bush_lines, bush_x, bush_y, bush_color);
        }
        out
    }
}

} // verus!
