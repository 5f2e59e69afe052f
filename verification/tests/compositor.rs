use hit_circles::approach::ApproachCircle;
use hit_circles::circle::{Color, CIRCLE_RADIUS};
use hit_circles::compositor::{
    approach_color, ink_color, label_origin, label_text, render, DrawCommand, APPROACH_WIDTH, OUTLINE_MARGIN,
    OUTLINE_WIDTH, OVERLAP_SHIFT,
};
use hit_circles::engine::activate_due;
use hit_circles::geometry::{Point, RenderPoint};
use hit_circles::loader::{load, HitObject, HitObjectKind};
use hit_circles::roster::Roster;

const RED: Color = Color { red: 255, green: 0, blue: 0 };
const BLUE: Color = Color { red: 0, green: 0, blue: 255 };

fn roster_at(spots: &[(i32, i32, i64, bool)]) -> Roster {
    let objects: Vec<HitObject> = spots
        .iter()
        .map(|&(x, y, start_time_ms, new_combo)| HitObject {
            position: Point { x, y },
            start_time_ms,
            kind: HitObjectKind::Circle,
            new_combo,
        })
        .collect();
    load(&objects, &vec![RED, BLUE]).unwrap()
}

fn drawn(center: RenderPoint, color: Color, tag: u64, ring: Option<u64>) -> Vec<DrawCommand> {
    let black = Color { red: 0, green: 0, blue: 0 };
    let green = Color { red: 0, green: 255, blue: 0 };
    let mut commands = vec![
        DrawCommand::Stroke { center, radius: 40_500, width: 500, color: black },
        DrawCommand::Fill { center, radius: 40_000, color },
    ];
    if let Some(radius) = ring {
        commands.push(DrawCommand::Stroke { center, radius, width: 1_000, color: green });
    }
    commands.push(DrawCommand::Label { center, tag, color: black });
    commands
}

#[test]
fn drawing_constants_are_as_documented() {
    assert_eq!(OUTLINE_MARGIN, 500);
    assert_eq!(OUTLINE_WIDTH, 500);
    assert_eq!(APPROACH_WIDTH, 1_000);
    assert_eq!(OVERLAP_SHIFT, 8_000);
    assert_eq!(ink_color(), Color { red: 0, green: 0, blue: 0 });
    assert_eq!(approach_color(), Color { red: 0, green: 255, blue: 0 });
}

#[test]
fn nothing_is_drawn_before_activation() {
    let roster = roster_at(&[(0, 0, 10, true), (5, 5, 20, false)]);
    let approach = ApproachCircle::new(100_000, 10);
    assert_eq!(render(&roster, &approach), Vec::new());
    assert_eq!(render(&roster_at(&[]), &approach), Vec::new());
}

#[test]
fn active_circles_are_drawn_topmost_first() {
    let mut roster = roster_at(&[
        (10_000, 20_000, 0, true),
        (300_000, 40_000, 5_000, false),
        (50_000, 60_000, 0, true),
    ]);
    activate_due(&mut roster, 100);
    let approach = ApproachCircle::new(90_000, 10);
    let mut expected = drawn(RenderPoint { x: 50_000, y: 60_000 }, BLUE, 1, Some(90_000));
    expected.extend(drawn(RenderPoint { x: 10_000, y: 20_000 }, RED, 1, Some(90_000)));
    assert_eq!(render(&roster, &approach), expected);
}

#[test]
fn a_circle_under_another_at_the_same_position_is_moved_aside() {
    let mut roster = roster_at(&[
        (0, 0, 0, true),
        (0, 0, 0, false),
        (0, 0, 0, false),
        (7, 0, 0, false),
        (0, 0, 0, false),
    ]);
    activate_due(&mut roster, 0);
    let approach = ApproachCircle::new(CIRCLE_RADIUS, 10);
    let mut expected = drawn(RenderPoint { x: 0, y: 0 }, RED, 5, None);
    expected.extend(drawn(RenderPoint { x: 7, y: 0 }, RED, 4, None));
    expected.extend(drawn(RenderPoint { x: 0, y: 0 }, RED, 3, None));
    expected.extend(drawn(RenderPoint { x: -8_000, y: -8_000 }, RED, 2, None));
    expected.extend(drawn(RenderPoint { x: -8_000, y: -8_000 }, RED, 1, None));
    assert_eq!(render(&roster, &approach), expected);
}

#[test]
fn an_inactive_circle_between_two_twins_does_not_separate_them() {
    let mut roster = roster_at(&[(1_000, 2_000, 0, true), (1_000, 2_000, 900, false), (1_000, 2_000, 0, false)]);
    activate_due(&mut roster, 10);
    let approach = ApproachCircle::new(CIRCLE_RADIUS + 1, 10);
    let mut expected = drawn(RenderPoint { x: 1_000, y: 2_000 }, RED, 3, Some(40_001));
    expected.extend(drawn(RenderPoint { x: -7_000, y: -6_000 }, RED, 1, Some(40_001)));
    assert_eq!(render(&roster, &approach), expected);
}

#[test]
fn moving_aside_cannot_overflow() {
    let mut roster = roster_at(&[(i32::MIN, i32::MIN, 0, true), (i32::MIN, i32::MIN, 0, false)]);
    activate_due(&mut roster, 0);
    let approach = ApproachCircle::new(CIRCLE_RADIUS, 10);
    let low = i32::MIN as i64;
    let mut expected = drawn(RenderPoint { x: low, y: low }, RED, 2, None);
    expected.extend(drawn(RenderPoint { x: low - 8_000, y: low - 8_000 }, RED, 1, None));
    assert_eq!(render(&roster, &approach), expected);
}

#[test]
fn rendering_reads_without_changing_anything() {
    let mut roster = roster_at(&[(0, 0, 0, true), (0, 0, 50, false)]);
    activate_due(&mut roster, 10);
    let approach = ApproachCircle::new(77_000, 10);
    let before = roster.circles().clone();
    let first = render(&roster, &approach);
    let second = render(&roster, &approach);
    assert_eq!(first, second);
    assert_eq!(first.len(), 4);
    assert_eq!(roster.circles(), &before);
    assert_eq!(approach.radius(), 77_000);
}

#[test]
fn a_label_is_centred_on_its_circle() {
    let center = RenderPoint { x: 100_000, y: 50_000 };
    assert_eq!(label_origin(center, 12_000, 20_000), RenderPoint { x: 94_000, y: 40_000 });
    assert_eq!(label_origin(center, 0, 0), center);
    assert_eq!(label_origin(center, 7, 9), RenderPoint { x: 99_997, y: 49_996 });
    assert_eq!(
        label_origin(RenderPoint { x: -8_000, y: -8_000 }, u32::MAX, 1),
        RenderPoint { x: -8_000 - 2_147_483_647, y: -8_000 }
    );
}

#[test]
fn a_label_shows_the_tag_in_decimal() {
    assert_eq!(label_text(0), "0");
    assert_eq!(label_text(7), "7");
    assert_eq!(label_text(9), "9");
    assert_eq!(label_text(10), "10");
    assert_eq!(label_text(123), "123");
    assert_eq!(label_text(4_005), "4005");
    assert_eq!(label_text(9_876_543_210), "9876543210");
    assert_eq!(label_text(u64::MAX), "18446744073709551615");
}
