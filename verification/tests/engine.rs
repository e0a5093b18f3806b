use whiteboard::board::Whiteboard;
use whiteboard::geometry::Color;
use whiteboard::input::Event;
use whiteboard::input::Key;
use whiteboard::session::EditTarget;

fn black() -> Color {
    Color { r: 0, g: 0, b: 0, a: 255 }
}

/// Drag one freehand stroke through the given points, starting at `t` and
/// taking one millisecond per event.
fn draw_stroke(board: &mut Whiteboard, points: &[(i32, i32)], t: u64) -> u64 {
    let mut now = t;
    board.handle_event(Event::LeftPressed, now);
    now += 1;
    for &(x, y) in points {
        board.handle_event(Event::PointerMoved { x, y }, now);
        now += 1;
    }
    board.handle_event(Event::LeftReleased, now);
    now + 1
}

/// Press Ctrl+Z once (press and release both keys).
fn undo_chord(board: &mut Whiteboard, t: u64) -> u64 {
    board.handle_event(Event::KeyPressed { key: Key::Control }, t);
    board.handle_event(Event::KeyPressed { key: Key::Character('z') }, t + 1);
    board.handle_event(Event::KeyReleased { key: Key::Character('z') }, t + 2);
    board.handle_event(Event::KeyReleased { key: Key::Control }, t + 3);
    t + 4
}

/// Create a fresh text at the cursor with a single right-click and type the
/// given characters; does not commit.
fn start_text(board: &mut Whiteboard, x: i32, y: i32, content: &str, t: u64) -> u64 {
    let mut now = t;
    board.handle_event(Event::PointerMoved { x, y }, now);
    now += 1;
    board.handle_event(Event::RightPressed, now);
    now += 1;
    for c in content.chars() {
        board.handle_event(Event::KeyPressed { key: Key::Character(c) }, now);
        board.handle_event(Event::KeyReleased { key: Key::Character(c) }, now + 1);
        now += 2;
    }
    now
}

#[test]
fn stroke_commit_pairs_action_with_collection() {
    let mut board = Whiteboard::new(0);
    let t = draw_stroke(&mut board, &[(1, 1), (2, 2), (3, 3)], 0);
    assert_eq!(board.scene().stroke_count(), 1);
    assert_eq!(board.action_count(), 1);
    let stroke = &board.scene().strokes()[0];
    let expect = [(1, 1), (2, 2), (3, 3)];
    for (v, &(x, y)) in stroke.iter().zip(expect.iter()) {
        assert_eq!((v.x, v.y), (x, y));
        assert_eq!(v.color, black());
    }
    draw_stroke(&mut board, &[(9, 9), (8, 8)], t);
    assert_eq!(board.scene().stroke_count(), 2);
    assert_eq!(board.action_count(), 2);
}

#[test]
fn empty_stroke_is_not_committed() {
    let mut board = Whiteboard::new(0);
    board.handle_event(Event::LeftPressed, 0);
    board.handle_event(Event::LeftReleased, 1);
    assert_eq!(board.scene().stroke_count(), 0);
    assert_eq!(board.action_count(), 0);
}

#[test]
fn undo_two_strokes_empties_scene_and_log() {
    let mut board = Whiteboard::new(0);
    let t = draw_stroke(&mut board, &[(1, 1), (2, 2)], 0);
    let t = draw_stroke(&mut board, &[(5, 5), (6, 6)], t);
    let t = undo_chord(&mut board, t);
    assert_eq!(board.scene().stroke_count(), 1);
    assert_eq!(board.action_count(), 1);
    undo_chord(&mut board, t);
    assert_eq!(board.scene().stroke_count(), 0);
    assert_eq!(board.action_count(), 0);
}

#[test]
fn undo_on_empty_log_is_a_no_op() {
    let mut board = Whiteboard::new(0);
    undo_chord(&mut board, 0);
    assert_eq!(board.action_count(), 0);
    board.undo();
    assert_eq!(board.action_count(), 0);
    assert_eq!(board.scene().stroke_count(), 0);
    assert_eq!(board.scene().shape_count(), 0);
    assert_eq!(board.scene().text_count(), 0);
}

#[test]
fn undo_dispatches_on_action_kind() {
    // One stroke, then one committed text; a single undo removes the text
    // and leaves the stroke.
    let mut board = Whiteboard::new(0);
    let t = draw_stroke(&mut board, &[(1, 1), (2, 2)], 0);
    let t = start_text(&mut board, 40, 40, "x", t);
    board.handle_event(Event::KeyPressed { key: Key::Enter }, t);
    assert_eq!(board.action_count(), 2);
    assert_eq!(board.scene().text_count(), 1);
    undo_chord(&mut board, t + 1);
    assert_eq!(board.scene().text_count(), 0);
    assert_eq!(board.scene().stroke_count(), 1);
    assert_eq!(board.scene().strokes()[0].len(), 2);
    assert_eq!(board.action_count(), 1);
}

#[test]
fn log_length_equals_collections_at_every_point() {
    let mut board = Whiteboard::new(0);
    let check = |b: &Whiteboard| {
        assert_eq!(
            b.action_count(),
            b.scene().stroke_count() + b.scene().shape_count() + b.scene().text_count()
        );
    };
    check(&board);
    let t = draw_stroke(&mut board, &[(1, 1), (2, 2)], 0);
    check(&board);
    let t = start_text(&mut board, 40, 40, "hi", t);
    check(&board); // a pending fresh text is not in the collections yet
    board.handle_event(Event::KeyPressed { key: Key::Enter }, t);
    check(&board);
    let t = undo_chord(&mut board, t + 1);
    check(&board);
    undo_chord(&mut board, t);
    check(&board);
}

#[test]
fn typing_then_enter_commits_content_with_one_action() {
    let mut board = Whiteboard::new(0);
    let t = start_text(&mut board, 30, 20, "hi", 0);
    assert!(board.is_editing());
    assert_eq!(board.scene().text_count(), 0);
    assert_eq!(board.action_count(), 0);
    board.handle_event(Event::KeyPressed { key: Key::Enter }, t);
    assert!(!board.is_editing());
    assert_eq!(board.scene().text_count(), 1);
    let texts = board.scene().texts();
    assert_eq!(texts[0].content, vec!['h', 'i']);
    assert!(!texts[0].pending);
    assert_eq!(texts[0].x, 30);
    assert_eq!(texts[0].y, 20);
    assert_eq!(board.action_count(), 1);
}

#[test]
fn backspace_round_trip_restores_empty_text() {
    let mut board = Whiteboard::new(0);
    let t = start_text(&mut board, 30, 20, "", 0);
    board.handle_event(Event::KeyPressed { key: Key::Character('q') }, t);
    match board.editing_target() {
        Some(EditTarget::Fresh(text)) => assert_eq!(text.content, vec!['q']),
        _ => panic!("expected a fresh edit target"),
    }
    board.handle_event(Event::KeyPressed { key: Key::Backspace }, t + 1);
    match board.editing_target() {
        Some(EditTarget::Fresh(text)) => assert!(text.content.is_empty()),
        _ => panic!("expected a fresh edit target"),
    }
    // A further backspace is a no-op: no underflow, no panic.
    board.handle_event(Event::KeyPressed { key: Key::Backspace }, t + 2);
    match board.editing_target() {
        Some(EditTarget::Fresh(text)) => assert!(text.content.is_empty()),
        _ => panic!("expected a fresh edit target"),
    }
}

#[test]
fn delete_key_removes_one_character_like_backspace() {
    let mut board = Whiteboard::new(0);
    let t = start_text(&mut board, 30, 20, "ab", 0);
    board.handle_event(Event::KeyPressed { key: Key::Delete }, t);
    match board.editing_target() {
        Some(EditTarget::Fresh(text)) => assert_eq!(text.content, vec!['a']),
        _ => panic!("expected a fresh edit target"),
    }
}

#[test]
fn right_click_while_editing_commits() {
    let mut board = Whiteboard::new(0);
    let t = start_text(&mut board, 30, 20, "ok", 0);
    // A second right-click far away and long after the first is a single
    // click, which commits the pending text.
    board.handle_event(Event::PointerMoved { x: 300, y: 300 }, t + 1000);
    board.handle_event(Event::RightPressed, t + 1001);
    assert!(!board.is_editing());
    assert_eq!(board.scene().text_count(), 1);
    assert_eq!(board.scene().texts()[0].content, vec!['o', 'k']);
    assert!(!board.scene().texts()[0].pending);
    assert_eq!(board.action_count(), 1);
}

#[test]
fn double_click_hit_reopens_text_with_content_intact() {
    let mut board = Whiteboard::new(0);
    let t = start_text(&mut board, 30, 20, "x", 0);
    board.handle_event(Event::KeyPressed { key: Key::Enter }, t);
    board.set_text_bounds(0, whiteboard::geometry::Rect { x: 10, y: 10, width: 100, height: 30 });
    // Two quick right-clicks inside the bounds.
    board.handle_event(Event::PointerMoved { x: 50, y: 15 }, t + 100);
    board.handle_event(Event::RightPressed, t + 101);
    board.handle_event(Event::RightPressed, t + 200);
    assert!(board.is_editing());
    assert!(matches!(board.editing_target(), Some(EditTarget::Existing(0))));
    let texts = board.scene().texts();
    assert!(texts[0].pending);
    assert_eq!(texts[0].content, vec!['x']);
}

#[test]
fn double_click_miss_creates_new_pending_text_at_click_point() {
    let mut board = Whiteboard::new(0);
    let t = start_text(&mut board, 30, 20, "x", 0);
    board.handle_event(Event::KeyPressed { key: Key::Enter }, t);
    board.set_text_bounds(0, whiteboard::geometry::Rect { x: 10, y: 10, width: 100, height: 30 });
    // Two quick right-clicks outside every box.
    board.handle_event(Event::PointerMoved { x: 400, y: 400 }, t + 100);
    board.handle_event(Event::RightPressed, t + 101);
    board.handle_event(Event::RightPressed, t + 200);
    assert!(board.is_editing());
    match board.editing_target() {
        Some(EditTarget::Fresh(text)) => {
            assert!(text.content.is_empty());
            assert!(text.pending);
            assert_eq!(text.x, 400);
            assert_eq!(text.y, 400);
        },
        _ => panic!("expected a fresh edit target"),
    }
}

#[test]
fn recommitting_a_reopened_text_adds_no_action() {
    let mut board = Whiteboard::new(0);
    let t = start_text(&mut board, 30, 20, "x", 0);
    board.handle_event(Event::KeyPressed { key: Key::Enter }, t);
    board.set_text_bounds(0, whiteboard::geometry::Rect { x: 10, y: 10, width: 100, height: 30 });
    board.handle_event(Event::PointerMoved { x: 50, y: 15 }, t + 100);
    board.handle_event(Event::RightPressed, t + 101);
    board.handle_event(Event::RightPressed, t + 200);
    let actions_while_editing = board.action_count();
    board.handle_event(Event::KeyPressed { key: Key::Enter }, t + 300);
    assert!(!board.is_editing());
    assert_eq!(board.action_count(), actions_while_editing);
    assert!(!board.scene().texts()[0].pending);
    assert_eq!(
        board.action_count(),
        board.scene().stroke_count() + board.scene().shape_count() + board.scene().text_count()
    );
}

#[test]
fn undo_that_removes_the_edited_text_ends_the_session() {
    let mut board = Whiteboard::new(0);
    let t = start_text(&mut board, 30, 20, "x", 0);
    board.handle_event(Event::KeyPressed { key: Key::Enter }, t);
    // Re-open the text that is also the most recent Text commit.
    board.set_text_bounds(0, whiteboard::geometry::Rect { x: 10, y: 10, width: 100, height: 30 });
    board.handle_event(Event::PointerMoved { x: 50, y: 15 }, t + 100);
    board.handle_event(Event::RightPressed, t + 101);
    board.handle_event(Event::RightPressed, t + 200);
    // The double-click's first click left a committed empty text behind; the
    // last Text commit is that one, so undo it first.
    let texts_before = board.scene().text_count();
    let t2 = undo_chord(&mut board, t + 300);
    assert_eq!(board.scene().text_count(), texts_before - 1);
    assert!(board.is_editing());
    // Now the edited text is the most recent commit: undoing it ends the
    // session.
    undo_chord(&mut board, t2);
    assert_eq!(board.scene().text_count(), texts_before - 2);
    assert!(!board.is_editing());
}

#[test]
fn shape_modifier_drag_commits_rectangle() {
    let mut board = Whiteboard::new(0);
    board.handle_event(Event::PointerMoved { x: 5, y: 6 }, 0);
    board.handle_event(Event::KeyPressed { key: Key::Character('s') }, 1);
    board.handle_event(Event::LeftPressed, 2);
    board.handle_event(Event::PointerMoved { x: 20, y: 30 }, 3);
    board.handle_event(Event::LeftReleased, 4);
    assert_eq!(board.scene().shape_count(), 1);
    assert_eq!(board.scene().stroke_count(), 0);
    assert_eq!(board.action_count(), 1);
    let r = board.scene().shapes()[0];
    assert_eq!((r.first_x, r.first_y, r.last_x, r.last_y), (5, 6, 20, 30));
    assert_eq!(r.color, black());
}

#[test]
fn focus_loss_clears_held_keys() {
    let mut board = Whiteboard::new(0);
    board.handle_event(Event::KeyPressed { key: Key::Character('s') }, 0);
    board.handle_event(Event::FocusChanged { focused: false }, 1);
    board.handle_event(Event::FocusChanged { focused: true }, 2);
    // The modifier must not be stuck: this drag is a stroke, not a shape.
    board.handle_event(Event::PointerMoved { x: 5, y: 6 }, 3);
    board.handle_event(Event::LeftPressed, 4);
    board.handle_event(Event::PointerMoved { x: 20, y: 30 }, 5);
    board.handle_event(Event::LeftReleased, 6);
    assert_eq!(board.scene().shape_count(), 0);
    assert_eq!(board.scene().stroke_count(), 1);
}

#[test]
fn focus_loss_commits_pending_text() {
    let mut board = Whiteboard::new(0);
    let t = start_text(&mut board, 30, 20, "hi", 0);
    board.handle_event(Event::FocusChanged { focused: false }, t);
    assert!(!board.is_editing());
    assert_eq!(board.scene().text_count(), 1);
    assert_eq!(board.scene().texts()[0].content, vec!['h', 'i']);
    assert_eq!(board.action_count(), 1);
}

#[test]
fn undo_chord_fires_on_control_pressed_last() {
    let mut board = Whiteboard::new(0);
    let t = draw_stroke(&mut board, &[(1, 1), (2, 2)], 0);
    board.handle_event(Event::KeyPressed { key: Key::Character('z') }, t);
    board.handle_event(Event::KeyPressed { key: Key::Control }, t + 1);
    assert_eq!(board.scene().stroke_count(), 0);
    assert_eq!(board.action_count(), 0);
}

#[test]
fn undo_chord_works_while_editing_and_types_no_z() {
    let mut board = Whiteboard::new(0);
    let t = draw_stroke(&mut board, &[(1, 1), (2, 2)], 0);
    let t = start_text(&mut board, 40, 40, "a", t);
    board.handle_event(Event::KeyPressed { key: Key::Control }, t);
    board.handle_event(Event::KeyPressed { key: Key::Character('z') }, t + 1);
    // The stroke is undone and no 'z' lands in the text.
    assert_eq!(board.scene().stroke_count(), 0);
    match board.editing_target() {
        Some(EditTarget::Fresh(text)) => assert_eq!(text.content, vec!['a']),
        _ => panic!("expected a fresh edit target"),
    }
}

#[test]
fn caret_blinks_only_after_the_interval() {
    let mut board = Whiteboard::new(0);
    let t = start_text(&mut board, 30, 20, "", 10);
    assert!(!board.caret_visible());
    let redraw = board.handle_event(Event::Tick, t); // still inside the interval
    assert!(!redraw);
    board.handle_event(Event::Tick, 499);
    assert!(!board.caret_visible());
    let redraw = board.handle_event(Event::Tick, 500);
    assert!(redraw);
    assert!(board.caret_visible());
    board.handle_event(Event::Tick, 999);
    assert!(board.caret_visible());
    board.handle_event(Event::Tick, 1000);
    assert!(!board.caret_visible());
}

#[test]
fn caret_does_not_blink_without_a_session() {
    let mut board = Whiteboard::new(0);
    let redraw = board.handle_event(Event::Tick, 5000);
    assert!(!redraw);
    assert!(!board.caret_visible());
}

#[test]
fn left_press_while_editing_commits_and_starts_drawing() {
    let mut board = Whiteboard::new(0);
    let t = start_text(&mut board, 30, 20, "hi", 0);
    board.handle_event(Event::LeftPressed, t);
    assert!(!board.is_editing());
    assert_eq!(board.scene().text_count(), 1);
    board.handle_event(Event::PointerMoved { x: 7, y: 8 }, t + 1);
    board.handle_event(Event::LeftReleased, t + 2);
    assert_eq!(board.scene().stroke_count(), 1);
    assert_eq!(board.action_count(), 2);
}

#[test]
fn right_click_during_a_drag_changes_nothing_but_the_click_history() {
    let mut board = Whiteboard::new(0);
    board.handle_event(Event::LeftPressed, 0);
    board.handle_event(Event::PointerMoved { x: 3, y: 3 }, 1);
    let redraw = board.handle_event(Event::RightPressed, 2);
    assert!(!redraw);
    assert!(!board.is_editing());
    board.handle_event(Event::PointerMoved { x: 4, y: 4 }, 3);
    board.handle_event(Event::LeftReleased, 4);
    assert_eq!(board.scene().stroke_count(), 1);
    assert_eq!(board.scene().text_count(), 0);
    assert_eq!(board.action_count(), 1);
}

#[test]
fn pointer_move_while_idle_requests_no_redraw() {
    let mut board = Whiteboard::new(0);
    let redraw = board.handle_event(Event::PointerMoved { x: 9, y: 9 }, 0);
    assert!(!redraw);
    assert_eq!(board.action_count(), 0);
}

#[test]
fn set_color_applies_to_new_strokes() {
    let mut board = Whiteboard::new(0);
    let red = Color { r: 255, g: 0, b: 0, a: 255 };
    board.set_color(red);
    draw_stroke(&mut board, &[(1, 1), (2, 2)], 0);
    assert_eq!(board.scene().strokes()[0][0].color, red);
}

#[test]
fn set_font_size_applies_to_new_texts() {
    let mut board = Whiteboard::new(0);
    board.set_font_size(32);
    let t = start_text(&mut board, 30, 20, "a", 0);
    board.handle_event(Event::KeyPressed { key: Key::Enter }, t);
    assert_eq!(board.scene().texts()[0].font_size, 32);
}
