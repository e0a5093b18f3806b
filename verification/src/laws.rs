//! Laws of the engine that cut across several operations, stated and proved
//! once: undo drains the scene, the action log counts every annotation,
//! double-clicks re-open or create texts as promised, and backspace after an
//! insertion is an exact round trip.

use vstd::prelude::*;

use crate::board::fresh_text_at;
use crate::board::BoardView;
use crate::board::GestureView;
use crate::input::ClickRecord;
use crate::input::Event;
use crate::hit::hit_index;
use crate::hit::lemma_hit_index_first_match;
use crate::input::is_double_click;
use crate::scene::count_actions;
use crate::scene::lemma_count_push;
use crate::scene::lemma_counts_partition_log;
use crate::scene::lemma_log_length;
use crate::scene::Action;
use crate::scene::SceneView;
use crate::scene::TextView;
use crate::session::session_blinked;
use crate::session::TargetView;

verus! {

/// The scene after `n` undos in a row.
pub open spec fn undone_times(v: SceneView, n: nat) -> SceneView
    decreases n,
{
    if n == 0 {
        v
    } else {
        undone_times(v.undone(), (n - 1) as nat)
    }
}

/// One undo keeps the scene well-formed.
pub proof fn lemma_undone_wf(v: SceneView)
    requires
        v.wf(),
    ensures
        v.undone().wf(),
{
    if v.actions.len() > 0 {
        assert(count_actions(v.actions, Action::Stroke) == count_actions(
            v.actions.drop_last(),
            Action::Stroke,
        ) + if v.actions.last() == Action::Stroke {
            1nat
        } else {
            0nat
        });
        assert(count_actions(v.actions, Action::Shape) == count_actions(
            v.actions.drop_last(),
            Action::Shape,
        ) + if v.actions.last() == Action::Shape {
            1nat
        } else {
            0nat
        });
        assert(count_actions(v.actions, Action::Text) == count_actions(
            v.actions.drop_last(),
            Action::Text,
        ) + if v.actions.last() == Action::Text {
            1nat
        } else {
            0nat
        });
    }
}

/// Undoing as many times as the log is long returns any well-formed scene
/// to the empty scene: nothing drawn, nothing logged.
pub proof fn lemma_undo_drains_scene(v: SceneView)
    requires
        v.wf(),
    ensures
        undone_times(v, v.actions.len()) == SceneView::empty(),
    decreases v.actions.len(),
{
    if v.actions.len() == 0 {
        lemma_log_length(v);
        assert(v =~= SceneView::empty());
    } else {
        lemma_undone_wf(v);
        lemma_undo_drains_scene(v.undone());
        assert(v.undone().actions.len() == v.actions.len() - 1);
    }
}

/// A scene holding nothing but fully committed strokes is emptied — strokes
/// and log alike — by exactly as many undos as there are strokes.
pub proof fn lemma_undo_drains_strokes(v: SceneView)
    requires
        v.wf(),
        v.shapes.len() == 0,
        v.texts.len() == 0,
    ensures
        v.actions.len() == v.strokes.len(),
        undone_times(v, v.strokes.len()) == SceneView::empty(),
{
    lemma_counts_partition_log(v.actions);
    lemma_undo_drains_scene(v);
}

/// At every well-formed board, the action log is exactly as long as the
/// three collections taken together: one log entry per committed annotation.
pub proof fn lemma_board_log_length(b: BoardView)
    requires
        b.wf(),
    ensures
        b.scene.actions.len() == b.scene.strokes.len() + b.scene.shapes.len()
            + b.scene.texts.len(),
{
    lemma_log_length(b.scene);
}

/// Committing the current edit keeps the board well-formed: a fresh text
/// enters the collection and the log together, and a re-opened one changes
/// neither length.
pub proof fn lemma_commit_edit_wf(b: BoardView)
    requires
        b.wf(),
    ensures
        b.commit_edit().wf(),
{
    match b.session.editing {
        Some(TargetView::Fresh(_)) => {
            lemma_count_push(b.scene.actions, Action::Text, Action::Stroke);
            lemma_count_push(b.scene.actions, Action::Text, Action::Shape);
            lemma_count_push(b.scene.actions, Action::Text, Action::Text);
        },
        _ => {
        },
    }
}

/// Undo keeps the board well-formed: the matching collection shrinks with
/// the log, and a session aimed at the removed text ends.
pub proof fn lemma_after_undo_wf(b: BoardView)
    requires
        b.wf(),
    ensures
        b.after_undo().wf(),
{
    lemma_undone_wf(b.scene);
}

/// Every event of the transition function keeps the board well-formed; in
/// particular the log invariant holds at every observable point.
pub proof fn lemma_step_preserves_wf(b: BoardView, ev: Event, now: u64)
    requires
        b.wf(),
    ensures
        b.step(ev, now).0.wf(),
{
    match ev {
        Event::PointerMoved { .. } => {
        },
        Event::LeftPressed => {
            lemma_commit_edit_wf(b);
        },
        Event::LeftReleased => {
            match b.gesture {
                GestureView::Stroke(pts) => {
                    if pts.len() > 0 {
                        lemma_count_push(b.scene.actions, Action::Stroke, Action::Stroke);
                        lemma_count_push(b.scene.actions, Action::Stroke, Action::Shape);
                        lemma_count_push(b.scene.actions, Action::Stroke, Action::Text);
                    }
                },
                GestureView::Shape { .. } => {
                    lemma_count_push(b.scene.actions, Action::Shape, Action::Stroke);
                    lemma_count_push(b.scene.actions, Action::Shape, Action::Shape);
                    lemma_count_push(b.scene.actions, Action::Shape, Action::Text);
                },
                GestureView::Idle => {
                },
            }
        },
        Event::RightPressed => {
            let clicked = BoardView {
                last_click: Some(
                    ClickRecord { time_ms: now, x: b.cursor_x, y: b.cursor_y },
                ),
                ..b
            };
            lemma_commit_edit_wf(clicked);
            if b.gesture is Idle && is_double_click(b.last_click, now, b.cursor_x, b.cursor_y) {
                lemma_hit_index_first_match(b.scene.texts, b.cursor_x as int, b.cursor_y as int);
            }
        },
        Event::KeyPressed { key } => {
            let s1 = BoardView { session: session_blinked(b.session, now), ..b };
            let held = s1.held.insert(key);
            let after = BoardView { held, ..s1 };
            lemma_after_undo_wf(after);
            lemma_commit_edit_wf(after);
        },
        Event::KeyReleased { .. } => {
        },
        Event::FocusChanged { focused } => {
            let s1 = BoardView { session: session_blinked(b.session, now), ..b };
            if !focused {
                lemma_commit_edit_wf(s1);
            }
        },
        Event::Tick => {
        },
    }
}

/// A double-click that lands inside the bounds of an existing text — the
/// first containing box in collection order — re-opens that text: the
/// session targets its index, its `pending` flag is set, and its content is
/// exactly what it was.
pub proof fn lemma_double_click_hit_reopens(b: BoardView, now: u64, i: int)
    requires
        b.wf(),
        b.gesture is Idle,
        is_double_click(b.last_click, now, b.cursor_x, b.cursor_y),
        hit_index(b.scene.texts, b.cursor_x as int, b.cursor_y as int) == Some(i),
    ensures
        b.step_right_pressed(now).1,
        b.step_right_pressed(now).0.session.editing == Some(TargetView::Existing(i as usize)),
        b.step_right_pressed(now).0.scene.texts[i].pending,
        b.step_right_pressed(now).0.scene.texts[i].content == b.scene.texts[i].content,
{
    lemma_hit_index_first_match(b.scene.texts, b.cursor_x as int, b.cursor_y as int);
}

/// A double-click that lands outside every text's bounds creates a fresh,
/// empty, pending annotation at the click position, and the session targets
/// it.
pub proof fn lemma_double_click_miss_creates(b: BoardView, now: u64)
    requires
        b.wf(),
        b.gesture is Idle,
        is_double_click(b.last_click, now, b.cursor_x, b.cursor_y),
        hit_index(b.scene.texts, b.cursor_x as int, b.cursor_y as int) is None,
    ensures
        b.step_right_pressed(now).1,
        b.step_right_pressed(now).0.session.editing == Some(
            TargetView::Fresh(fresh_text_at(b.cursor_x, b.cursor_y, b.color, b.font_size)),
        ),
{
}

/// Inserting one character into the edited text and then removing one is an
/// exact round trip: the whole board comes back, and the removal reports
/// success.
pub proof fn lemma_insert_remove_round_trip(b: BoardView, c: char)
    requires
        b.wf(),
        b.session.editing is Some,
    ensures
        b.insert_char(c).remove_char().0 == b,
        b.insert_char(c).remove_char().1,
{
    match b.session.editing {
        Some(TargetView::Existing(i)) => {
            let t0 = b.scene.texts[i as int];
            let pushed = TextView { content: t0.content.push(c), ..t0 };
            assert(b.insert_char(c).scene.texts[i as int] == pushed);
            assert(t0.content.push(c).drop_last() =~= t0.content);
            assert((TextView { content: pushed.content.drop_last(), ..pushed }) =~= t0);
            assert(b.insert_char(c).remove_char().0.scene.texts =~= b.scene.texts);
            assert(b.insert_char(c).remove_char().0 =~= b);
        },
        Some(TargetView::Fresh(t)) => {
            assert(t.content.push(c).drop_last() =~= t.content);
            assert((TextView { content: t.content.push(c).drop_last(), ..t }) =~= t);
            assert(b.insert_char(c).remove_char().0 =~= b);
        },
        None => {
        },
    }
}

/// Removing a character from an edited text whose content is already empty
/// is a no-op: the board is unchanged and the removal reports failure, with
/// no underflow.
pub proof fn lemma_remove_char_empty_no_op(b: BoardView)
    requires
        b.edited_content().len() == 0,
    ensures
        b.remove_char().0 == b,
        !b.remove_char().1,
{
}

} // verus!
