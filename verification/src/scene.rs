//! The world scene: the town (house and decorations) or a city skyline,
//! placed against the terminal size, as one draw plan.

use vstd::prelude::*;

verus! {

/// Rows reserved for the ground strip at the bottom of the view.
pub const GROUND_HEIGHT: u16 = 7;

/// What fills the scene: the default town, or a resolved skyline.
pub enum SceneMode {
    /// Default house and decorations.
    Town,
    /// A city-specific or generic skyline.
    Skyline(crate::skyline::Skyline),
}

/// The scene and its view size.
pub struct WorldScene {
    pub mode: SceneMode,
    pub house: crate::house::House,
    pub decorations: crate::decorations::Decorations,
    pub width: u16,
    pub height: u16,
}

/// The scene's skyline, when it has one, is well measured.
pub open spec fn spec_scene_wf(scene: WorldScene) -> bool {
    scene.mode matches SceneMode::Skyline(s) ==> crate::skyline::spec_skyline_wf(s)
}

/// The draw plan of the town at the given view size: the house centred on
/// the horizon, the decorations placed around it and around the path at
/// its door.
pub open spec fn spec_town_cells(width: int, height: int, is_day: bool) -> Seq<
    crate::draw::CellOp,
> {
    let horizon_y = crate::decorations::spec_sat_sub(height, GROUND_HEIGHT as int);
    let house_x = crate::decorations::spec_sat_sub(width / 2, 33);
    let house_y = crate::decorations::spec_sat_sub(horizon_y, 13);
    crate::house::spec_house_cells(house_x, house_y) + crate::decorations::spec_decorations_cells(
        horizon_y,
        house_x,
        66,
        house_x + 18,
        width,
        is_day,
    )
}

/// The draw plan of a skyline at the given view size, centred on the
/// horizon.
pub open spec fn spec_skyline_scene_cells(
    s: crate::skyline::Skyline,
    width: int,
    height: int,
    is_day: bool,
) -> Seq<crate::draw::CellOp> {
    let horizon_y = crate::decorations::spec_sat_sub(height, GROUND_HEIGHT as int);
    let sky_x = crate::decorations::spec_sat_sub(width / 2, s.width as int / 2);
    let sky_y = crate::decorations::spec_sat_sub(horizon_y, s.height as int);
    crate::skyline::spec_sky_block_cells(
        s.ascii@.map_values(|l: &'static str| l@),
        sky_x,
        sky_y,
        crate::skyline::spec_sky_color(is_day),
    )
}

impl WorldScene {
    /// Build the scene for a view size and an optional city name: a known
    /// city gets its skyline, anything else the town.
    pub fn new(width: u16, height: u16, city: Option<&str>) -> (scene: WorldScene)
        ensures
            scene.width == width,
            scene.height == height,
            spec_scene_wf(scene),
            match city {
                Some(c) => match crate::skyline::spec_resolve_lowered(
                    crate::skyline::lower_of(c@),
                ) {
                    Some(id) => scene.mode matches SceneMode::Skyline(s)
                        && s.ascii@.map_values(|l: &'static str| l@)
                        == crate::skyline::spec_skyline_lines(id),
                    None => scene.mode is Town,
                },
                None => scene.mode is Town,
            },
    {
        let mode = match crate::skyline::resolve_skyline(city) {
            Some(id) => SceneMode::Skyline(crate::skyline::Skyline::new(id)),
            None => SceneMode::Town,
        };
        WorldScene {
            mode,
            house: crate::house::House,
            decorations: crate::decorations::Decorations::new(),
            width,
            height,
        }
    }

    /// Whether the town's chimney is part of the scene.
    pub fn has_chimney(&self) -> (r: bool)
        ensures
            r == (self.mode is Town),
    {
        matches!(self.mode, SceneMode::Town)
    }

    /// Track a resized view.
    pub fn update_size(&mut self, width: u16, height: u16)
        ensures
            final(self).width == width,
            final(self).height == height,
            final(self).mode == old(self).mode,
    {
        self.width = width;
        self.height = height;
    }

    /// The scene's draw plan for the current view size and daylight.
    pub fn render(&self, is_day: bool) -> (r: Vec<crate::draw::CellOp>)
        requires
            self.width <= 30000,
            self.height <= 30000,
            spec_scene_wf(*self),
        ensures
            match self.mode {
                SceneMode::Town => r@ =~= spec_town_cells(
                    self.width as int,
                    self.height as int,
                    is_day,
                ),
                SceneMode::Skyline(s) => r@ =~= spec_skyline_scene_cells(
                    s,
                    self.width as int,
                    self.height as int,
                    is_day,
                ),
            },
    {
        let horizon_y = if self.height >= GROUND_HEIGHT {
            self.height - GROUND_HEIGHT
        } else {
            0
        };
        match &self.mode {
            SceneMode::Town => {
                let house_width = self.house.width();
                let house_height = self.house.height();
                let half = self.width / 2;
                let house_x = if half >= house_width / 2 {
                    half - house_width / 2
                } else {
                    0
                };
                let house_y = if horizon_y >= house_height {
                    horizon_y - house_height
                } else {
                    0
                };
                let mut out = self.house.render(house_x, house_y);
                let path_center = house_x + self.house.door_offset();
                let mut decorations = self.decorations.render(
                    horizon_y,
                    house_x,
                    house_width,
                    path_center,
                    self.width,
                    is_day,
                );
                out.append(&mut decorations);
                out
            },
            SceneMode::Skyline(s) => {
                let half = self.width / 2;
                let sky_x = if half >= s.width() / 2 {
                    half - s.width() / 2
                } else {
                    0
                };
                let sky_y = if horizon_y >= s.height() {
                    horizon_y - s.height()
                } else {
                    0
                };
                s.render(sky_x, sky_y, is_day)
            },
        }
    }
}

} // verus!
