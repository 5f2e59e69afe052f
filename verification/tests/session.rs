use hit_circles::circle::{Color, CIRCLE_RADIUS};
use hit_circles::clock::Tick;
use hit_circles::compositor::DrawCommand;
use hit_circles::geometry::{Point, RenderPoint};
use hit_circles::loader::{ConfigurationError, HitObject, HitObjectKind};
use hit_circles::session::{Key, KeyOutcome, Session, APPROACH_LEAD, CLOSING_SPEED};

fn circle_at(x: i32, y: i32, start_time_ms: i64) -> HitObject {
    HitObject {
        position: Point { x, y },
        start_time_ms,
        kind: HitObjectKind::Circle,
        new_combo: false,
    }
}

fn three_circles() -> Session {
    let objects =
        vec![circle_at(0, 0, 0), circle_at(100_000, 100_000, 1_000), circle_at(0, 0, 2_000)];
    Session::new(&objects, &vec![Color { red: 10, green: 20, blue: 30 }]).unwrap()
}

fn ids(session: &Session) -> Vec<usize> {
    session.roster().circles().iter().map(|c| c.id).collect()
}

#[test]
fn three_circles_end_to_end() {
    let mut session = three_circles();
    assert_eq!(session.roster().len(), 3);
    session.advance(2_500);
    assert!(session.roster().circles().iter().all(|c| c.active));
    let hit = session.detect_circle(Point { x: 0, y: 0 }).unwrap();
    assert_eq!(hit.id, 2);
    assert_eq!(hit.combo_tag, 3);
    assert_eq!(hit.start_time_ms, 2_000);
    assert_eq!(hit.position, Point { x: 0, y: 0 });
    let left = session.roster().circles();
    assert_eq!(left.len(), 2);
    assert_eq!((left[0].id, left[0].position), (0, Point { x: 0, y: 0 }));
    assert_eq!((left[1].id, left[1].position), (1, Point { x: 100_000, y: 100_000 }));
}

#[test]
fn a_session_needs_a_palette() {
    let objects = vec![circle_at(0, 0, 0)];
    assert_eq!(Session::new(&objects, &Vec::new()).err(), Some(ConfigurationError::EmptyPalette));
}

#[test]
fn a_session_opens_at_time_zero_with_the_ring_wide_open() {
    let session = three_circles();
    assert_eq!(session.elapsed_ms(), 0);
    assert_eq!(APPROACH_LEAD, 60_000);
    assert_eq!(CLOSING_SPEED, 10);
    assert_eq!(session.approach_circle().radius(), 100_000);
    assert_eq!(session.approach_circle().closing_speed(), 10);
    assert!(session.roster().circles().iter().all(|c| !c.active));
    assert_eq!(session.draw(), Vec::new());
}

#[test]
fn advancing_steps_the_roster_and_the_ring() {
    let mut session = three_circles();
    assert_eq!(session.advance(16), Tick { elapsed_ms: 16, delta_ms: 16 });
    assert_eq!(session.approach_circle().radius(), 99_840);
    let active: Vec<bool> = session.roster().circles().iter().map(|c| c.active).collect();
    assert_eq!(active, vec![true, false, false]);
    assert_eq!(session.advance(10), Tick { elapsed_ms: 16, delta_ms: 0 });
    assert_eq!(session.approach_circle().radius(), 99_840);
    assert_eq!(session.advance(1_016), Tick { elapsed_ms: 1_016, delta_ms: 1_000 });
    assert_eq!(session.approach_circle().radius(), 89_840);
    let active: Vec<bool> = session.roster().circles().iter().map(|c| c.active).collect();
    assert_eq!(active, vec![true, true, false]);
    assert_eq!(session.advance(i64::MAX).elapsed_ms, i64::MAX);
    assert_eq!(session.approach_circle().radius(), CIRCLE_RADIUS);
    assert_eq!(session.elapsed_ms(), i64::MAX);
}

#[test]
fn the_ring_waits_for_the_first_active_circle() {
    let objects = vec![circle_at(0, 0, 500)];
    let mut session = Session::new(&objects, &vec![Color { red: 1, green: 1, blue: 1 }]).unwrap();
    session.advance(499);
    assert_eq!(session.approach_circle().radius(), 100_000);
    session.advance(500);
    assert_eq!(session.approach_circle().radius(), 99_990);
}

fn ring_after(elapsed_ms: i64) -> u32 {
    let shrunk = 100_000 - 10 * elapsed_ms.min(6_000);
    shrunk as u32
}

#[test]
fn updating_follows_the_session_timer() {
    let mut session = three_circles();
    let first = session.update();
    assert!(first.elapsed_ms >= 0);
    assert_eq!(first.delta_ms, first.elapsed_ms);
    assert!(session.roster().circles()[0].active);
    assert_eq!(session.roster().circles()[1].active, first.elapsed_ms >= 1_000);
    assert_eq!(session.approach_circle().radius(), ring_after(first.elapsed_ms));
    let second = session.update();
    assert!(second.elapsed_ms >= first.elapsed_ms);
    assert_eq!(second.delta_ms, second.elapsed_ms - first.elapsed_ms);
    assert_eq!(session.elapsed_ms(), second.elapsed_ms);
    assert_eq!(session.approach_circle().radius(), ring_after(second.elapsed_ms));
    assert_eq!(session.roster().len(), 3);
}

#[test]
fn escape_asks_to_quit_and_changes_nothing() {
    let mut session = three_circles();
    session.advance(2_500);
    assert_eq!(session.key_down_event(Some(Key::Escape), Point { x: 0, y: 0 }), KeyOutcome::Quit);
    assert_eq!(ids(&session), vec![0, 1, 2]);
}

#[test]
fn both_hit_keys_resolve_at_the_pointer() {
    let mut session = three_circles();
    session.advance(2_500);
    match session.key_down_event(Some(Key::A), Point { x: 1_000, y: -1_000 }) {
        KeyOutcome::Hit(circle) => assert_eq!(circle.id, 2),
        outcome => panic!("expected a hit, got {:?}", outcome),
    }
    assert_eq!(ids(&session), vec![0, 1]);
    match session.key_down_event(Some(Key::D), Point { x: 100_000, y: 100_000 }) {
        KeyOutcome::Hit(circle) => assert_eq!(circle.id, 1),
        outcome => panic!("expected a hit, got {:?}", outcome),
    }
    assert_eq!(ids(&session), vec![0]);
    assert_eq!(session.key_down_event(Some(Key::A), Point { x: 500_000, y: 0 }), KeyOutcome::Miss);
    assert_eq!(ids(&session), vec![0]);
}

#[test]
fn other_keys_are_ignored() {
    let mut session = three_circles();
    session.advance(2_500);
    assert_eq!(session.key_down_event(Some(Key::Other), Point { x: 0, y: 0 }), KeyOutcome::Ignored);
    assert_eq!(session.key_down_event(None, Point { x: 0, y: 0 }), KeyOutcome::Ignored);
    assert_eq!(ids(&session), vec![0, 1, 2]);
}

#[test]
fn a_miss_through_the_session_changes_nothing() {
    let mut session = three_circles();
    session.advance(1_500);
    let before = session.roster().circles().clone();
    let radius = session.approach_circle().radius();
    assert_eq!(session.detect_circle(Point { x: 300_000, y: 300_000 }), None);
    assert_eq!(session.roster().circles(), &before);
    assert_eq!(session.approach_circle().radius(), radius);
    assert_eq!(session.elapsed_ms(), 1_500);
}

#[test]
fn the_frame_shows_the_active_circles() {
    let mut session = three_circles();
    session.advance(2_500);
    let commands = session.draw();
    assert_eq!(commands.len(), 12);
    let black = Color { red: 0, green: 0, blue: 0 };
    let top = RenderPoint { x: 0, y: 0 };
    assert_eq!(
        commands[0],
        DrawCommand::Stroke { center: top, radius: 40_500, width: 500, color: black }
    );
    assert_eq!(
        commands[1],
        DrawCommand::Fill { center: top, radius: 40_000, color: Color { red: 10, green: 20, blue: 30 } }
    );
    assert_eq!(
        commands[2],
        DrawCommand::Stroke {
            center: top,
            radius: 75_000,
            width: 1_000,
            color: Color { red: 0, green: 255, blue: 0 },
        }
    );
    assert_eq!(commands[3], DrawCommand::Label { center: top, tag: 3, color: black });
    assert_eq!(
        commands[7],
        DrawCommand::Label { center: RenderPoint { x: 100_000, y: 100_000 }, tag: 2, color: black }
    );
    assert_eq!(commands[11], DrawCommand::Label { center: top, tag: 1, color: black });
}
