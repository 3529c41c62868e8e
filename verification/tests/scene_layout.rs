//! The world scene: house measurements, skyline resolution, and the draw
//! plans.

use weathr::decorations::Decorations;
use weathr::draw::SceneColor;
use weathr::house::House;
use weathr::scene::{SceneMode, WorldScene};
use weathr::skyline::{resolve_skyline, Skyline, SkylineId};

#[test]
fn house_measurements_match_its_art() {
    let house = House;
    let art = house.get_ascii();
    assert_eq!(art.len(), 13);
    assert_eq!(house.height(), 13);
    assert_eq!(house.width() as usize, art.iter().map(|l| l.len()).max().unwrap());
    assert_eq!(house.door_offset(), 18);
}

#[test]
fn house_plan_covers_every_art_character() {
    let house = House;
    let cells = house.render(10, 5);
    let art = house.get_ascii();
    let total: usize = art.iter().map(|l| l.len()).sum();
    assert_eq!(cells.len(), total);
    // The first cell is the art's top-left corner.
    assert_eq!(cells[0].x, 10);
    assert_eq!(cells[0].y, 5);
    assert_eq!(cells[0].ch, ' ');
    // Grass on the bottom row is green.
    let grass = cells
        .iter()
        .find(|c| c.y == 5 + 12 && c.ch == '^')
        .expect("the bottom row has grass");
    assert_eq!(grass.color, SceneColor::Green);
}

#[test]
fn known_cities_resolve_case_insensitively() {
    assert!(matches!(resolve_skyline(Some("LONDON")), Some(SkylineId::London)));
    assert!(matches!(resolve_skyline(Some("new york")), Some(SkylineId::NewYork)));
    assert!(matches!(resolve_skyline(Some("NYC")), Some(SkylineId::NewYork)));
    assert!(matches!(resolve_skyline(Some("sf")), Some(SkylineId::SanFrancisco)));
    assert!(matches!(resolve_skyline(Some("Roma")), Some(SkylineId::Rome)));
    assert!(resolve_skyline(Some("Berlin")).is_none());
    assert!(resolve_skyline(None).is_none());
}

#[test]
fn skyline_measures_its_art() {
    let s = Skyline::new(SkylineId::Tokyo);
    assert_eq!(s.height(), 4);
    assert_eq!(s.width() as usize, s.ascii.iter().map(|l| l.len()).max().unwrap());
}

#[test]
fn skyline_plan_skips_blank_cells() {
    let s = Skyline::new(SkylineId::London);
    let cells = s.render(0, 0, true);
    assert!(!cells.is_empty());
    assert!(cells.iter().all(|c| c.ch != ' '));
    assert!(cells.iter().all(|c| c.color == SceneColor::White));
    let night = s.render(0, 0, false);
    assert!(night.iter().all(|c| c.color == SceneColor::Grey));
}

#[test]
fn the_town_has_a_chimney_and_a_skyline_does_not() {
    let town = WorldScene::new(120, 40, None);
    assert!(town.has_chimney());
    assert!(matches!(town.mode, SceneMode::Town));
    let city = WorldScene::new(120, 40, Some("Tokyo"));
    assert!(!city.has_chimney());
    assert!(matches!(city.mode, SceneMode::Skyline(_)));
    let unknown = WorldScene::new(120, 40, Some("Springfield"));
    assert!(unknown.has_chimney());
}

#[test]
fn resizing_keeps_the_scene() {
    let mut scene = WorldScene::new(120, 40, Some("Paris"));
    scene.update_size(80, 24);
    assert_eq!(scene.width, 80);
    assert_eq!(scene.height, 24);
    assert!(!scene.has_chimney());
}

#[test]
fn town_plan_holds_house_and_decorations() {
    let scene = WorldScene::new(160, 50, None);
    let cells = scene.render(true);
    let house_total: usize = House.get_ascii().iter().map(|l| l.len()).sum();
    assert!(cells.len() > house_total, "decorations follow the house cells");
}

#[test]
fn decorations_move_with_the_house() {
    let decorations = Decorations::new();
    let with_room = decorations.render(40, 60, 66, 78, 200, true);
    assert!(!with_room.is_empty());
    // Squeezed against the left edge, the tree and bush are dropped.
    let squeezed = decorations.render(40, 10, 66, 5, 90, true);
    assert!(squeezed.len() < with_room.len());
}
