use whiteboard::board::Whiteboard;
use whiteboard::geometry::rect_contains;
use whiteboard::geometry::Color;
use whiteboard::geometry::Rect;
use whiteboard::geometry::Rectangle;
use whiteboard::geometry::Vertex;
use whiteboard::hit::hit_text;
use whiteboard::input::detect_double_click;
use whiteboard::input::ClickRecord;
use whiteboard::input::Event;
use whiteboard::input::Key;
use whiteboard::is_persian;
use whiteboard::render::stroke_segment_vertices;
use whiteboard::scene::TextAnnotation;

fn black() -> Color {
    Color { r: 0, g: 0, b: 0, a: 255 }
}

fn text_with_bounds(x: i32, y: i32, width: i32, height: i32) -> TextAnnotation {
    TextAnnotation {
        x,
        y,
        color: black(),
        content: Vec::new(),
        pending: false,
        bounds: Rect { x, y, width, height },
        font_size: 16,
    }
}

#[test]
fn rectangle_emits_exactly_eight_vertices_for_four_edges() {
    let r = Rectangle { first_x: 0, first_y: 0, last_x: 10, last_y: 10, color: black() };
    let vs = r.to_vertices();
    assert_eq!(vs.len(), 8);
    let expect = [(0, 10), (10, 10), (10, 10), (10, 0), (10, 0), (0, 0), (0, 0), (0, 10)];
    for (v, &(x, y)) in vs.iter().zip(expect.iter()) {
        assert_eq!((v.x, v.y), (x, y));
        assert_eq!(v.color, black());
    }
    // Each consecutive pair is one axis-aligned edge.
    for k in 0..4 {
        let a = &vs[2 * k];
        let b = &vs[2 * k + 1];
        assert!(a.x == b.x || a.y == b.y);
    }
}

#[test]
fn stroke_of_three_points_emits_two_segments() {
    let pts = vec![
        Vertex { x: 0, y: 0, color: black() },
        Vertex { x: 1, y: 1, color: black() },
        Vertex { x: 2, y: 2, color: black() },
    ];
    let out = stroke_segment_vertices(&pts);
    assert_eq!(out.len(), 4);
    assert_eq!((out[0].x, out[0].y), (0, 0));
    assert_eq!((out[1].x, out[1].y), (1, 1));
    assert_eq!((out[2].x, out[2].y), (1, 1));
    assert_eq!((out[3].x, out[3].y), (2, 2));
}

#[test]
fn degenerate_strokes_emit_nothing() {
    let one = vec![Vertex { x: 3, y: 4, color: black() }];
    assert_eq!(stroke_segment_vertices(&one).len(), 0);
    let none: Vec<Vertex> = Vec::new();
    assert_eq!(stroke_segment_vertices(&none).len(), 0);
}

#[test]
fn stroke_batch_includes_the_stroke_in_progress() {
    let mut board = Whiteboard::new(0);
    board.handle_event(Event::LeftPressed, 0);
    board.handle_event(Event::PointerMoved { x: 0, y: 0 }, 1);
    board.handle_event(Event::PointerMoved { x: 5, y: 5 }, 2);
    // Still dragging: the live stroke is drawn without being committed.
    assert_eq!(board.scene().stroke_count(), 0);
    assert_eq!(board.stroke_batch().len(), 2);
    board.handle_event(Event::LeftReleased, 3);
    assert_eq!(board.scene().stroke_count(), 1);
    assert_eq!(board.stroke_batch().len(), 2);
}

#[test]
fn shape_batch_includes_the_drag_preview() {
    let mut board = Whiteboard::new(0);
    board.handle_event(Event::KeyPressed { key: Key::Character('s') }, 0);
    board.handle_event(Event::PointerMoved { x: 1, y: 1 }, 1);
    board.handle_event(Event::LeftPressed, 2);
    board.handle_event(Event::PointerMoved { x: 9, y: 9 }, 3);
    // Live preview: eight vertices while nothing is committed.
    assert_eq!(board.scene().shape_count(), 0);
    assert_eq!(board.shape_batch().len(), 8);
    board.handle_event(Event::LeftReleased, 4);
    assert_eq!(board.scene().shape_count(), 1);
    assert_eq!(board.shape_batch().len(), 8);
}

#[test]
fn text_requests_carry_caret_only_while_pending_and_visible() {
    let mut board = Whiteboard::new(0);
    board.handle_event(Event::PointerMoved { x: 30, y: 20 }, 0);
    board.handle_event(Event::RightPressed, 1);
    board.handle_event(Event::KeyPressed { key: Key::Character('a') }, 2);
    // Caret hidden: the request carries the bare content.
    let reqs = board.text_requests(800, 600);
    assert_eq!(reqs.len(), 1);
    assert_eq!(reqs[0].content, vec!['a']);
    assert_eq!((reqs[0].x, reqs[0].y), (30, 20));
    assert_eq!(
        (reqs[0].bounds.x, reqs[0].bounds.y, reqs[0].bounds.width, reqs[0].bounds.height),
        (0, 0, 800, 600)
    );
    // After the blink interval the caret is appended.
    board.handle_event(Event::Tick, 600);
    let reqs = board.text_requests(800, 600);
    assert_eq!(reqs[0].content, vec!['a', '|']);
    // A committed text never carries a caret.
    board.handle_event(Event::KeyPressed { key: Key::Enter }, 601);
    board.handle_event(Event::Tick, 1200);
    let reqs = board.text_requests(800, 600);
    assert_eq!(reqs.len(), 1);
    assert_eq!(reqs[0].content, vec!['a']);
}

#[test]
fn hit_test_returns_first_match_in_collection_order() {
    let texts = vec![
        text_with_bounds(0, 0, 100, 100),
        text_with_bounds(50, 50, 100, 100),
    ];
    assert_eq!(hit_text(&texts, 60, 60), Some(0));
    assert_eq!(hit_text(&texts, 120, 120), Some(1));
    assert_eq!(hit_text(&texts, 300, 300), None);
}

#[test]
fn hit_test_bounds_are_inclusive() {
    let r = Rect { x: 10, y: 20, width: 30, height: 40 };
    assert!(rect_contains(&r, 10, 20));
    assert!(rect_contains(&r, 40, 60));
    assert!(!rect_contains(&r, 41, 60));
    assert!(!rect_contains(&r, 9, 30));
}

#[test]
fn double_click_needs_both_time_and_distance() {
    let last = Some(ClickRecord { time_ms: 1000, x: 100, y: 100 });
    // Exactly at the limits: 500 ms and 25 px squared (a 3-4-5 triangle).
    assert!(detect_double_click(&last, 1500, 103, 104));
    // One millisecond too late.
    assert!(!detect_double_click(&last, 1501, 103, 104));
    // One pixel squared too far.
    assert!(!detect_double_click(&last, 1500, 105, 101));
    // No click history.
    assert!(!detect_double_click(&None, 1500, 100, 100));
}

#[test]
fn persian_characters_are_recognized() {
    assert!(is_persian('\u{0627}')); // alef
    assert!(is_persian('\u{0750}'));
    assert!(!is_persian('a'));
    assert!(!is_persian('\u{05FF}'));
    assert!(!is_persian('\u{0780}'));
}
