use hit_circles::circle::{Color, HitCircle, CIRCLE_RADIUS};
use hit_circles::geometry::Point;
use hit_circles::loader::{load, ConfigurationError, HitObject, HitObjectKind};

fn circle_at(x: i32, y: i32, start_time_ms: i64, new_combo: bool) -> HitObject {
    HitObject { position: Point { x, y }, start_time_ms, kind: HitObjectKind::Circle, new_combo }
}

fn other(kind: HitObjectKind, start_time_ms: i64, new_combo: bool) -> HitObject {
    HitObject { position: Point { x: 7, y: 7 }, start_time_ms, kind, new_combo }
}

fn two_colors() -> Vec<Color> {
    vec![Color { red: 255, green: 0, blue: 0 }, Color { red: 0, green: 0, blue: 255 }]
}

#[test]
fn tags_and_colors_cycle_over_combos() {
    let combos = [0usize, 3, 5];
    let objects: Vec<HitObject> = (0..7usize)
        .map(|i| circle_at(i as i32 * 1_000, 0, i as i64 * 100, combos.contains(&i)))
        .collect();
    let palette = two_colors();
    let roster = load(&objects, &palette).unwrap();
    let tags: Vec<u64> = roster.circles().iter().map(|c| c.combo_tag).collect();
    let colors: Vec<Color> = roster.circles().iter().map(|c| c.color).collect();
    let (c0, c1) = (palette[0], palette[1]);
    assert_eq!(tags, vec![1, 2, 3, 1, 2, 1, 2]);
    assert_eq!(colors, vec![c0, c0, c0, c1, c1, c0, c0]);
}

#[test]
fn first_circle_opens_the_first_combo_without_a_flag() {
    let objects = vec![
        circle_at(0, 0, 0, false),
        circle_at(1, 1, 10, false),
        circle_at(2, 2, 20, true),
    ];
    let palette = two_colors();
    let roster = load(&objects, &palette).unwrap();
    let circles = roster.circles();
    assert_eq!(circles[0].combo_tag, 1);
    assert_eq!(circles[0].color, palette[0]);
    assert_eq!(circles[1].combo_tag, 2);
    assert_eq!(circles[1].color, palette[0]);
    assert_eq!(circles[2].combo_tag, 1);
    assert_eq!(circles[2].color, palette[1]);
}

#[test]
fn palette_wraps_around() {
    let objects: Vec<HitObject> = (0..5).map(|i| circle_at(i, i, 0, true)).collect();
    let palette = vec![
        Color { red: 1, green: 1, blue: 1 },
        Color { red: 2, green: 2, blue: 2 },
        Color { red: 3, green: 3, blue: 3 },
    ];
    let roster = load(&objects, &palette).unwrap();
    let reds: Vec<u8> = roster.circles().iter().map(|c| c.color.red).collect();
    assert_eq!(reds, vec![1, 2, 3, 1, 2]);
    assert!(roster.circles().iter().all(|c| c.combo_tag == 1));
}

#[test]
fn single_color_palette_colors_every_combo_alike() {
    let objects = vec![circle_at(0, 0, 0, true), circle_at(1, 1, 0, true), circle_at(2, 2, 0, false)];
    let palette = vec![Color { red: 9, green: 8, blue: 7 }];
    let roster = load(&objects, &palette).unwrap();
    assert!(roster.circles().iter().all(|c| c.color == palette[0]));
    let tags: Vec<u64> = roster.circles().iter().map(|c| c.combo_tag).collect();
    assert_eq!(tags, vec![1, 1, 2]);
}

#[test]
fn empty_palette_is_rejected() {
    let objects = vec![circle_at(0, 0, 0, true)];
    assert_eq!(load(&objects, &Vec::new()).err(), Some(ConfigurationError::EmptyPalette));
    assert_eq!(load(&Vec::new(), &Vec::new()).err(), Some(ConfigurationError::EmptyPalette));
}

#[test]
fn empty_timeline_gives_an_empty_roster() {
    let roster = load(&Vec::new(), &two_colors()).unwrap();
    assert!(roster.is_empty());
    assert_eq!(roster.len(), 0);
    assert_eq!(roster.get(0), None);
}

#[test]
fn other_kinds_are_skipped_and_open_no_combo() {
    let objects = vec![
        other(HitObjectKind::Spinner, 0, true),
        circle_at(10, 20, 100, true),
        other(HitObjectKind::Slider, 150, true),
        circle_at(30, 40, 200, false),
        other(HitObjectKind::Hold, 250, true),
        circle_at(50, 60, 300, true),
    ];
    let palette = two_colors();
    let roster = load(&objects, &palette).unwrap();
    assert_eq!(roster.len(), 3);
    let expected = vec![
        HitCircle {
            id: 0,
            position: Point { x: 10, y: 20 },
            radius: CIRCLE_RADIUS,
            combo_tag: 1,
            color: palette[0],
            start_time_ms: 100,
            active: false,
        },
        HitCircle {
            id: 1,
            position: Point { x: 30, y: 40 },
            radius: CIRCLE_RADIUS,
            combo_tag: 2,
            color: palette[0],
            start_time_ms: 200,
            active: false,
        },
        HitCircle {
            id: 2,
            position: Point { x: 50, y: 60 },
            radius: CIRCLE_RADIUS,
            combo_tag: 1,
            color: palette[1],
            start_time_ms: 300,
            active: false,
        },
    ];
    assert_eq!(roster.circles(), &expected);
    assert_eq!(roster.get(1), Some(expected[1]));
    assert_eq!(roster.get(3), None);
}

#[test]
fn circle_radius_is_forty_units() {
    assert_eq!(CIRCLE_RADIUS, 40_000);
}
