//! The whiteboard document and its event interpreter.
//!
//! A [`Whiteboard`] owns the scene, the text edit session, the in-progress
//! drag gesture, the held-keys set, the cursor position and the right-click
//! history. [`Whiteboard::handle_event`] consumes one event at a time and
//! returns whether a redraw is due; its whole effect is pinned down by the
//! mathematical transition function [`BoardView::step`].
//!
//! The interpreter is in one of four states: idle, drawing a stroke,
//! dragging a rectangle, or editing text. Committing a fresh text pushes the
//! annotation and its log entry together; re-committing a re-opened text
//! only clears its `pending` flag, since the annotation already has its log
//! entry. The scene's log invariant therefore holds after every event.

use vstd::prelude::*;

use crate::geometry::Color;
use crate::geometry::Rect;
use crate::geometry::Rectangle;
use crate::geometry::Vertex;
use crate::hit::hit_index;
use crate::hit::hit_text;
use crate::input::is_double_click;
use crate::input::ClickRecord;
use crate::input::Event;
use crate::input::HeldKeys;
use crate::input::Key;
use crate::render::build_shape_batch;
use crate::render::build_stroke_batch;
use crate::render::build_text_requests;
use crate::render::request_of;
use crate::render::request_views;
use crate::render::requests_of;
use crate::render::shapes_vertices;
use crate::render::stroke_segments;
use crate::render::strokes_segments;
use crate::render::RequestView;
use crate::render::TextRequest;
use crate::scene::Action;
use crate::scene::SceneModel;
use crate::scene::SceneView;
use crate::scene::TextAnnotation;
use crate::scene::TextView;
use crate::session::blink_due;
use crate::session::session_blinked;
use crate::session::EditTarget;
use crate::session::SessionView;
use crate::session::TargetView;
use crate::session::TextEditSession;

verus! {

/// The key that turns a left drag into a rectangle drag while held.
pub const SHAPE_MODIFIER_CHAR: char = 's';

/// The character that, together with a held Control, pops the action log.
pub const UNDO_CHAR: char = 'z';

/// The in-progress drag gesture, if any.
pub enum Gesture {
    /// No button held.
    Idle,
    /// Freehand drawing: the points gathered so far.
    Stroke(Vec<Vertex>),
    /// Rectangle drag: the corner where the drag started and the corner
    /// under the pointer now.
    Shape { first_x: i32, first_y: i32, last_x: i32, last_y: i32 },
}

/// The mathematical value of a [`Gesture`].
pub ghost enum GestureView {
    Idle,
    Stroke(Seq<Vertex>),
    Shape { first_x: i32, first_y: i32, last_x: i32, last_y: i32 },
}

impl View for Gesture {
    type V = GestureView;

    open spec fn view(&self) -> GestureView {
        match self {
            Gesture::Idle => GestureView::Idle,
            Gesture::Stroke(pts) => GestureView::Stroke(pts@),
            Gesture::Shape { first_x, first_y, last_x, last_y } => GestureView::Shape {
                first_x: *first_x,
                first_y: *first_y,
                last_x: *last_x,
                last_y: *last_y,
            },
        }
    }
}

/// The mathematical value of a [`Whiteboard`].
#[verifier::ext_equal]
pub ghost struct BoardView {
    pub scene: SceneView,
    pub session: SessionView,
    pub gesture: GestureView,
    pub held: Set<Key>,
    pub cursor_x: i32,
    pub cursor_y: i32,
    pub last_click: Option<ClickRecord>,
    pub color: Color,
    pub font_size: i32,
}

/// A fresh, empty, pending annotation anchored at a click position.
pub open spec fn fresh_text_at(x: i32, y: i32, color: Color, font_size: i32) -> TextView {
    TextView {
        x,
        y,
        color,
        content: Seq::empty(),
        pending: true,
        bounds: Rect { x: 0, y: 0, width: 0, height: 0 },
        font_size,
    }
}

impl BoardView {
    /// The document as it starts: nothing drawn, nothing held, black pen,
    /// 16-pixel font, caret timer at `now_ms`.
    pub open spec fn initial(now_ms: u64) -> BoardView {
        BoardView {
            scene: SceneView::empty(),
            session: SessionView { editing: None, last_toggle_ms: now_ms, caret_visible: false },
            gesture: GestureView::Idle,
            held: Set::empty(),
            cursor_x: 0,
            cursor_y: 0,
            last_click: None,
            color: Color { r: 0, g: 0, b: 0, a: 255 },
            font_size: 16,
        }
    }

    /// Everything the engine keeps true between events: the scene's log
    /// invariant, a valid index for a re-opened text, and no edit session
    /// while a drag is in progress.
    pub open spec fn wf(self) -> bool {
        &&& self.scene.wf()
        &&& (self.session.editing matches Some(TargetView::Existing(i)) ==> (i as int)
            < self.scene.texts.len())
        &&& (!(self.gesture is Idle) ==> self.session.editing is None)
    }

    /// Commit the current edit, if any, and leave the session empty. A fresh
    /// annotation enters the scene and the log together; a re-opened one
    /// only has its `pending` flag cleared, because it already has its log
    /// entry.
    pub open spec fn commit_edit(self) -> BoardView {
        match self.session.editing {
            None => self,
            Some(TargetView::Existing(i)) => BoardView {
                scene: SceneView {
                    texts: self.scene.texts.update(
                        i as int,
                        self.scene.texts[i as int].committed(),
                    ),
                    ..self.scene
                },
                session: SessionView { editing: None, ..self.session },
                ..self
            },
            Some(TargetView::Fresh(t)) => BoardView {
                scene: SceneView {
                    texts: self.scene.texts.push(t.committed()),
                    actions: self.scene.actions.push(Action::Text),
                    ..self.scene
                },
                session: SessionView { editing: None, ..self.session },
                ..self
            },
        }
    }

    /// Undo the latest commit. If that removed the very text a session was
    /// re-editing, the session ends; an edit of a fresh, uncommitted
    /// annotation is untouched.
    pub open spec fn after_undo(self) -> BoardView {
        let editing = match self.session.editing {
            Some(TargetView::Existing(i)) => {
                if self.scene.actions.len() > 0 && self.scene.actions.last() == Action::Text && i
                    as int == self.scene.texts.len() - 1 {
                    None
                } else {
                    self.session.editing
                }
            },
            other => other,
        };
        BoardView {
            scene: self.scene.undone(),
            session: SessionView { editing, ..self.session },
            ..self
        }
    }

    /// Append one character to the content of the session's target.
    pub open spec fn insert_char(self, c: char) -> BoardView {
        match self.session.editing {
            None => self,
            Some(TargetView::Existing(i)) => BoardView {
                scene: SceneView {
                    texts: self.scene.texts.update(
                        i as int,
                        (TextView {
                            content: self.scene.texts[i as int].content.push(c),
                            ..self.scene.texts[i as int]
                        }),
                    ),
                    ..self.scene
                },
                ..self
            },
            Some(TargetView::Fresh(t)) => BoardView {
                session: SessionView {
                    editing: Some(TargetView::Fresh((TextView { content: t.content.push(c), ..t }))),
                    ..self.session
                },
                ..self
            },
        }
    }

    /// The content of the text the session is editing; empty with no
    /// session.
    pub open spec fn edited_content(self) -> Seq<char> {
        match self.session.editing {
            Some(TargetView::Existing(i)) => self.scene.texts[i as int].content,
            Some(TargetView::Fresh(t)) => t.content,
            None => Seq::empty(),
        }
    }

    /// Remove the last character of the session's target, if it has one;
    /// the returned flag says whether anything was removed.
    pub open spec fn remove_char(self) -> (BoardView, bool) {
        match self.session.editing {
            None => (self, false),
            Some(TargetView::Existing(i)) => {
                if self.scene.texts[i as int].content.len() > 0 {
                    (
                        BoardView {
                            scene: SceneView {
                                texts: self.scene.texts.update(
                                    i as int,
                                    (TextView {
                                        content: self.scene.texts[i as int].content.drop_last(),
                                        ..self.scene.texts[i as int]
                                    }),
                                ),
                                ..self.scene
                            },
                            ..self
                        },
                        true,
                    )
                } else {
                    (self, false)
                }
            },
            Some(TargetView::Fresh(t)) => {
                if t.content.len() > 0 {
                    (
                        BoardView {
                            session: SessionView {
                                editing: Some(
                                    TargetView::Fresh(
                                        (TextView { content: t.content.drop_last(), ..t }),
                                    ),
                                ),
                                ..self.session
                            },
                            ..self
                        },
                        true,
                    )
                } else {
                    (self, false)
                }
            },
        }
    }

    /// The pointer moved: remember the position and extend the gesture. A
    /// stroke gains a point; a rectangle drag keeps its first corner and
    /// replaces the latest one.
    pub open spec fn step_pointer_moved(self, x: i32, y: i32) -> (BoardView, bool) {
        let moved = BoardView { cursor_x: x, cursor_y: y, ..self };
        match self.gesture {
            GestureView::Idle => (moved, false),
            GestureView::Stroke(pts) => (
                BoardView {
                    gesture: GestureView::Stroke(pts.push(Vertex { x, y, color: self.color })),
                    ..moved
                },
                true,
            ),
            GestureView::Shape { first_x, first_y, .. } => (
                BoardView {
                    gesture: GestureView::Shape { first_x, first_y, last_x: x, last_y: y },
                    ..moved
                },
                true,
            ),
        }
    }

    /// The left button went down: any edit commits (leaving text-edit mode),
    /// then a rectangle drag starts at the cursor if the shape modifier is
    /// held, else an empty stroke starts.
    pub open spec fn step_left_pressed(self) -> (BoardView, bool) {
        let b = self.commit_edit();
        let gesture = if b.held.contains(Key::Character(SHAPE_MODIFIER_CHAR)) {
            GestureView::Shape {
                first_x: b.cursor_x,
                first_y: b.cursor_y,
                last_x: b.cursor_x,
                last_y: b.cursor_y,
            }
        } else {
            GestureView::Stroke(Seq::empty())
        };
        (BoardView { gesture, ..b }, self.session.editing is Some)
    }

    /// The left button came up: a non-empty stroke or the dragged rectangle
    /// is committed, and the interpreter returns to idle.
    pub open spec fn step_left_released(self) -> (BoardView, bool) {
        match self.gesture {
            GestureView::Idle => (self, false),
            GestureView::Stroke(pts) => {
                let scene = if pts.len() > 0 {
                    SceneView {
                        strokes: self.scene.strokes.push(pts),
                        actions: self.scene.actions.push(Action::Stroke),
                        ..self.scene
                    }
                } else {
                    self.scene
                };
                (BoardView { scene, gesture: GestureView::Idle, ..self }, true)
            },
            GestureView::Shape { first_x, first_y, last_x, last_y } => {
                let r = Rectangle { first_x, first_y, last_x, last_y, color: self.color };
                (
                    BoardView {
                        scene: SceneView {
                            shapes: self.scene.shapes.push(r),
                            actions: self.scene.actions.push(Action::Shape),
                            ..self.scene
                        },
                        gesture: GestureView::Idle,
                        ..self
                    },
                    true,
                )
            },
        }
    }

    /// The right button went down. A double-click that lands on an existing
    /// text re-opens that text for editing; a double-click miss, or a single
    /// click while not editing, starts a fresh text at the cursor; a single
    /// click while editing commits. The click is recorded either way, and a
    /// right-click during a drag gesture does nothing else.
    pub open spec fn step_right_pressed(self, now: u64) -> (BoardView, bool) {
        let x = self.cursor_x;
        let y = self.cursor_y;
        let dc = is_double_click(self.last_click, now, x, y);
        let clicked = BoardView {
            last_click: Some(ClickRecord { time_ms: now, x, y }),
            ..self
        };
        if !(self.gesture is Idle) {
            (clicked, false)
        } else {
            let hit = if dc {
                hit_index(self.scene.texts, x as int, y as int)
            } else {
                None
            };
            match hit {
                Some(i) => {
                    let b = clicked.commit_edit();
                    (
                        BoardView {
                            scene: SceneView {
                                texts: b.scene.texts.update(
                                    i,
                                    (TextView { pending: true, ..b.scene.texts[i] }),
                                ),
                                ..b.scene
                            },
                            session: SessionView {
                                editing: Some(TargetView::Existing(i as usize)),
                                ..b.session
                            },
                            ..b
                        },
                        true,
                    )
                },
                None => {
                    if dc || self.session.editing is None {
                        let b = clicked.commit_edit();
                        (
                            BoardView {
                                session: SessionView {
                                    editing: Some(
                                        TargetView::Fresh(
                                            fresh_text_at(x, y, self.color, self.font_size),
                                        ),
                                    ),
                                    ..b.session
                                },
                                ..b
                            },
                            true,
                        )
                    } else {
                        (clicked.commit_edit(), true)
                    }
                },
            }
        }
    }

    /// A key went down: the blink timer is polled, the key joins the held
    /// set, and then either the undo chord fires, or — while editing — the
    /// key types, commits (Enter) or deletes one character (Backspace or
    /// Delete, a no-op on empty content).
    pub open spec fn step_key_pressed(self, key: Key, now: u64) -> (BoardView, bool) {
        let blinked = blink_due(self.session, now);
        let s1 = BoardView { session: session_blinked(self.session, now), ..self };
        let b = BoardView { held: s1.held.insert(key), ..s1 };
        if b.held.contains(Key::Control) && b.held.contains(Key::Character(UNDO_CHAR)) {
            (b.after_undo(), true)
        } else if b.session.editing is Some {
            match key {
                Key::Character(c) => (b.insert_char(c), true),
                Key::Enter => (b.commit_edit(), true),
                Key::Backspace | Key::Delete => {
                    let (nb, removed) = b.remove_char();
                    (nb, removed || blinked)
                },
                _ => (b, blinked),
            }
        } else {
            (b, blinked)
        }
    }

    /// A key came up: it leaves the held set.
    pub open spec fn step_key_released(self, key: Key) -> (BoardView, bool) {
        (BoardView { held: self.held.remove(key), ..self }, false)
    }

    /// Focus changed: the blink timer is polled; on focus loss the held
    /// keys are forgotten and any edit commits.
    pub open spec fn step_focus_changed(self, focused: bool, now: u64) -> (BoardView, bool) {
        let blinked = blink_due(self.session, now);
        let s1 = BoardView { session: session_blinked(self.session, now), ..self };
        if focused {
            (s1, blinked)
        } else {
            let b = s1.commit_edit();
            (
                BoardView { held: Set::empty(), ..b },
                blinked || self.session.editing is Some,
            )
        }
    }

    /// An idle tick: the blink timer is polled.
    pub open spec fn step_tick(self, now: u64) -> (BoardView, bool) {
        (
            BoardView { session: session_blinked(self.session, now), ..self },
            blink_due(self.session, now),
        )
    }

    /// The transition function of the interpreter: the document after one
    /// event, and whether that event asks for a redraw.
    pub open spec fn step(self, ev: Event, now: u64) -> (BoardView, bool) {
        match ev {
            Event::PointerMoved { x, y } => self.step_pointer_moved(x, y),
            Event::LeftPressed => self.step_left_pressed(),
            Event::LeftReleased => self.step_left_released(),
            Event::RightPressed => self.step_right_pressed(now),
            Event::KeyPressed { key } => self.step_key_pressed(key, now),
            Event::KeyReleased { key } => self.step_key_released(key),
            Event::FocusChanged { focused } => self.step_focus_changed(focused, now),
            Event::Tick => self.step_tick(now),
        }
    }
}

/// The line-list vertex batch a board draws for strokes: every committed
/// stroke, then the stroke being drawn right now.
pub open spec fn stroke_batch_view(b: BoardView) -> Seq<Vertex> {
    strokes_segments(b.scene.strokes) + match b.gesture {
        GestureView::Stroke(pts) => stroke_segments(pts),
        _ => Seq::<Vertex>::empty(),
    }
}

/// The line-list vertex batch a board draws for rectangles: every committed
/// rectangle, then the live preview of a rectangle drag.
pub open spec fn shape_batch_view(b: BoardView) -> Seq<Vertex> {
    shapes_vertices(b.scene.shapes) + match b.gesture {
        GestureView::Shape { first_x, first_y, last_x, last_y } => crate::geometry::rect_vertices(
            Rectangle { first_x, first_y, last_x, last_y, color: b.color },
        ),
        _ => Seq::<Vertex>::empty(),
    }
}

/// The text-layout requests a board emits: one per annotation in collection
/// order, then one for the fresh annotation under edit, if any.
pub open spec fn text_requests_view(b: BoardView, viewport_width: i32, viewport_height: i32) -> Seq<
    RequestView,
> {
    requests_of(b.scene.texts, b.session.caret_visible, viewport_width, viewport_height) + match b
        .session.editing {
        Some(TargetView::Fresh(t)) => seq![
            request_of(t, b.session.caret_visible, viewport_width, viewport_height),
        ],
        _ => Seq::<RequestView>::empty(),
    }
}

/// The whiteboard document: the scene and everything the interpreter needs
/// between events. One per window, owned by the host's event loop.
pub struct Whiteboard {
    pub(crate) scene: SceneModel,
    pub(crate) session: TextEditSession,
    pub(crate) gesture: Gesture,
    pub(crate) held: HeldKeys,
    pub(crate) cursor_x: i32,
    pub(crate) cursor_y: i32,
    pub(crate) last_click: Option<ClickRecord>,
    pub(crate) color: Color,
    pub(crate) font_size: i32,
}

impl View for Whiteboard {
    type V = BoardView;

    closed spec fn view(&self) -> BoardView {
        BoardView {
            scene: self.scene@,
            session: self.session@,
            gesture: self.gesture@,
            held: self.held@,
            cursor_x: self.cursor_x,
            cursor_y: self.cursor_y,
            last_click: self.last_click,
            color: self.color,
            font_size: self.font_size,
        }
    }
}

impl Whiteboard {
    /// The representation invariant: the view is well-formed and the
    /// held-keys set carries no duplicates.
    pub closed spec fn inv(self) -> bool {
        &&& self@.wf()
        &&& self.held.wf()
    }

    /// The invariant is a statement about the view as well.
    pub proof fn lemma_inv_wf(self)
        requires
            self.inv(),
        ensures
            self@.wf(),
    {
    }

    /// A new document with an empty scene.
    pub fn new(now_ms: u64) -> (w: Whiteboard)
        ensures
            w@ == BoardView::initial(now_ms),
            w.inv(),
    {
        let w = Whiteboard {
            scene: SceneModel::new(),
            session: TextEditSession::new(now_ms),
            gesture: Gesture::Idle,
            held: HeldKeys::new(),
            cursor_x: 0,
            cursor_y: 0,
            last_click: None,
            color: Color { r: 0, g: 0, b: 0, a: 255 },
            font_size: 16,
        };
        proof {
            assert(w@ =~= BoardView::initial(now_ms));
        }
        w
    }

    /// Commit the current edit, if any; returns whether there was one.
    fn commit_edit_now(&mut self) -> (changed: bool)
        requires
            old(self).inv(),
        ensures
            final(self).inv(),
            final(self)@ == old(self)@.commit_edit(),
            changed == (old(self)@.session.editing is Some),
    {
        let target = self.session.editing.take();
        match target {
            None => {
                proof {
                    assert(self@ =~= old(self)@.commit_edit());
                }
                false
            },
            Some(EditTarget::Existing(i)) => {
                self.scene.set_text_pending(i, false);
                proof {
                    assert(self@ =~= old(self)@.commit_edit());
                }
                true
            },
            Some(EditTarget::Fresh(t)) => {
                self.scene.commit_text(t);
                proof {
                    assert(self@ =~= old(self)@.commit_edit());
                }
                true
            },
        }
    }

    /// Pop the action log and the matching collection, as the undo chord
    /// and the host's undo control both do. If that removed the text a
    /// session was re-editing, the session ends.
    pub fn undo(&mut self)
        requires
            old(self).inv(),
        ensures
            final(self).inv(),
            final(self)@ == old(self)@.after_undo(),
    {
        let drop_target = match &self.session.editing {
            Some(EditTarget::Existing(i)) => {
                match self.scene.last_action() {
                    Some(Action::Text) => *i == self.scene.text_count() - 1,
                    _ => false,
                }
            },
            _ => false,
        };
        self.scene.undo();
        if drop_target {
            self.session.editing = None;
        }
        proof {
            assert(self@ =~= old(self)@.after_undo());
        }
    }

    fn insert_char_now(&mut self, c: char)
        requires
            old(self).inv(),
        ensures
            final(self).inv(),
            final(self)@ == old(self)@.insert_char(c),
    {
        match &mut self.session.editing {
            None => {
                proof {
                    assert(self@ =~= old(self)@.insert_char(c));
                }
            },
            Some(EditTarget::Fresh(t)) => {
                t.content.push(c);
                proof {
                    assert(self@ =~= old(self)@.insert_char(c));
                }
            },
            Some(EditTarget::Existing(i)) => {
                let idx = *i;
                self.scene.text_push_char(idx, c);
                proof {
                    assert(self@ =~= old(self)@.insert_char(c));
                }
            },
        }
    }

    fn remove_char_now(&mut self) -> (removed: bool)
        requires
            old(self).inv(),
        ensures
            final(self).inv(),
            final(self)@ == old(self)@.remove_char().0,
            removed == old(self)@.remove_char().1,
    {
        match &mut self.session.editing {
            None => {
                proof {
                    assert(self@ =~= old(self)@.remove_char().0);
                }
                false
            },
            Some(EditTarget::Fresh(t)) => {
                let removed = match t.content.pop() {
                    Some(_) => true,
                    None => false,
                };
                proof {
                    assert(self@ =~= old(self)@.remove_char().0);
                }
                removed
            },
            Some(EditTarget::Existing(i)) => {
                let idx = *i;
                let removed = self.scene.text_pop_char(idx);
                proof {
                    assert(self@ =~= old(self)@.remove_char().0);
                }
                removed
            },
        }
    }

    fn on_pointer_moved(&mut self, x: i32, y: i32) -> (redraw: bool)
        requires
            old(self).inv(),
        ensures
            final(self).inv(),
            final(self)@ == old(self)@.step_pointer_moved(x, y).0,
            redraw == old(self)@.step_pointer_moved(x, y).1,
    {
        self.cursor_x = x;
        self.cursor_y = y;
        match &mut self.gesture {
            Gesture::Idle => {
                proof {
                    assert(self@ =~= old(self)@.step_pointer_moved(x, y).0);
                }
                false
            },
            Gesture::Stroke(pts) => {
                pts.push(Vertex { x, y, color: self.color });
                proof {
                    assert(self@ =~= old(self)@.step_pointer_moved(x, y).0);
                }
                true
            },
            Gesture::Shape { last_x, last_y, .. } => {
                *last_x = x;
                *last_y = y;
                proof {
                    assert(self@ =~= old(self)@.step_pointer_moved(x, y).0);
                }
                true
            },
        }
    }

    fn on_left_pressed(&mut self) -> (redraw: bool)
        requires
            old(self).inv(),
        ensures
            final(self).inv(),
            final(self)@ == old(self)@.step_left_pressed().0,
            redraw == old(self)@.step_left_pressed().1,
    {
        let changed = self.commit_edit_now();
        if self.held.holds(Key::Character(SHAPE_MODIFIER_CHAR)) {
            self.gesture = Gesture::Shape {
                first_x: self.cursor_x,
                first_y: self.cursor_y,
                last_x: self.cursor_x,
                last_y: self.cursor_y,
            };
        } else {
            self.gesture = Gesture::Stroke(Vec::new());
        }
        proof {
            assert(self@ =~= old(self)@.step_left_pressed().0);
        }
        changed
    }

    fn on_left_released(&mut self) -> (redraw: bool)
        requires
            old(self).inv(),
        ensures
            final(self).inv(),
            final(self)@ == old(self)@.step_left_released().0,
            redraw == old(self)@.step_left_released().1,
    {
        let mut g = Gesture::Idle;
        core::mem::swap(&mut g, &mut self.gesture);
        match g {
            Gesture::Idle => {
                proof {
                    assert(self@ =~= old(self)@.step_left_released().0);
                }
                false
            },
            Gesture::Stroke(pts) => {
                if pts.len() > 0 {
                    self.scene.commit_stroke(pts);
                }
                proof {
                    assert(self@ =~= old(self)@.step_left_released().0);
                }
                true
            },
            Gesture::Shape { first_x, first_y, last_x, last_y } => {
                self.scene.commit_shape(
                    Rectangle { first_x, first_y, last_x, last_y, color: self.color },
                );
                proof {
                    assert(self@ =~= old(self)@.step_left_released().0);
                }
                true
            },
        }
    }

    fn on_right_pressed(&mut self, now_ms: u64) -> (redraw: bool)
        requires
            old(self).inv(),
        ensures
            final(self).inv(),
            final(self)@ == old(self)@.step_right_pressed(now_ms).0,
            redraw == old(self)@.step_right_pressed(now_ms).1,
    {
        let x = self.cursor_x;
        let y = self.cursor_y;
        let dc = crate::input::detect_double_click(&self.last_click, now_ms, x, y);
        self.last_click = Some(ClickRecord { time_ms: now_ms, x, y });
        let gesture_active = match &self.gesture {
            Gesture::Idle => false,
            _ => true,
        };
        if gesture_active {
            proof {
                assert(self@ =~= old(self)@.step_right_pressed(now_ms).0);
            }
            return false;
        }
        let hit = if dc {
            hit_text(self.scene.texts(), x, y)
        } else {
            None
        };
        match hit {
            Some(i) => {
                self.commit_edit_now();
                self.scene.set_text_pending(i, true);
                self.session.editing = Some(EditTarget::Existing(i));
                proof {
                    assert(self@ =~= old(self)@.step_right_pressed(now_ms).0);
                }
                true
            },
            None => {
                let editing = match &self.session.editing {
                    Some(_) => true,
                    None => false,
                };
                self.commit_edit_now();
                if dc || !editing {
                    let mut t = TextAnnotation::null(self.color, self.font_size);
                    t.x = x;
                    t.y = y;
                    self.session.editing = Some(EditTarget::Fresh(t));
                }
                proof {
                    assert(self@ =~= old(self)@.step_right_pressed(now_ms).0);
                }
                true
            },
        }
    }

    fn on_key_pressed(&mut self, key: Key, now_ms: u64) -> (redraw: bool)
        requires
            old(self).inv(),
        ensures
            final(self).inv(),
            final(self)@ == old(self)@.step_key_pressed(key, now_ms).0,
            redraw == old(self)@.step_key_pressed(key, now_ms).1,
    {
        let blinked = self.session.poll_blink(now_ms);
        self.held.press(key);
        if self.held.holds(Key::Control) && self.held.holds(Key::Character(UNDO_CHAR)) {
            self.undo();
            proof {
                assert(self@ =~= old(self)@.step_key_pressed(key, now_ms).0);
            }
            return true;
        }
        let editing = match &self.session.editing {
            Some(_) => true,
            None => false,
        };
        if editing {
            match key {
                Key::Character(c) => {
                    self.insert_char_now(c);
                    proof {
                        assert(self@ =~= old(self)@.step_key_pressed(key, now_ms).0);
                    }
                    true
                },
                Key::Enter => {
                    self.commit_edit_now();
                    proof {
                        assert(self@ =~= old(self)@.step_key_pressed(key, now_ms).0);
                    }
                    true
                },
                Key::Backspace | Key::Delete => {
                    let removed = self.remove_char_now();
                    proof {
                        assert(self@ =~= old(self)@.step_key_pressed(key, now_ms).0);
                    }
                    removed || blinked
                },
                _ => {
                    proof {
                        assert(self@ =~= old(self)@.step_key_pressed(key, now_ms).0);
                    }
                    blinked
                },
            }
        } else {
            proof {
                assert(self@ =~= old(self)@.step_key_pressed(key, now_ms).0);
            }
            blinked
        }
    }

    fn on_key_released(&mut self, key: Key) -> (redraw: bool)
        requires
            old(self).inv(),
        ensures
            final(self).inv(),
            final(self)@ == old(self)@.step_key_released(key).0,
            redraw == old(self)@.step_key_released(key).1,
    {
        self.held.release(key);
        proof {
            assert(self@ =~= old(self)@.step_key_released(key).0);
        }
        false
    }

    fn on_focus_changed(&mut self, focused: bool, now_ms: u64) -> (redraw: bool)
        requires
            old(self).inv(),
        ensures
            final(self).inv(),
            final(self)@ == old(self)@.step_focus_changed(focused, now_ms).0,
            redraw == old(self)@.step_focus_changed(focused, now_ms).1,
    {
        let blinked = self.session.poll_blink(now_ms);
        if focused {
            proof {
                assert(self@ =~= old(self)@.step_focus_changed(focused, now_ms).0);
            }
            blinked
        } else {
            let committed = self.commit_edit_now();
            self.held.clear();
            proof {
                assert(self@ =~= old(self)@.step_focus_changed(focused, now_ms).0);
            }
            blinked || committed
        }
    }

    fn on_tick(&mut self, now_ms: u64) -> (redraw: bool)
        requires
            old(self).inv(),
        ensures
            final(self).inv(),
            final(self)@ == old(self)@.step_tick(now_ms).0,
            redraw == old(self)@.step_tick(now_ms).1,
    {
        let blinked = self.session.poll_blink(now_ms);
        proof {
            assert(self@ =~= old(self)@.step_tick(now_ms).0);
        }
        blinked
    }

    /// Consume one event at time `now_ms` (milliseconds of a monotonic
    /// clock) and say whether the host should redraw. The document changes
    /// exactly as [`BoardView::step`] says.
    pub fn handle_event(&mut self, ev: Event, now_ms: u64) -> (redraw: bool)
        requires
            old(self).inv(),
        ensures
            final(self).inv(),
            final(self)@ == old(self)@.step(ev, now_ms).0,
            redraw == old(self)@.step(ev, now_ms).1,
    {
        match ev {
            Event::PointerMoved { x, y } => self.on_pointer_moved(x, y),
            Event::LeftPressed => self.on_left_pressed(),
            Event::LeftReleased => self.on_left_released(),
            Event::RightPressed => self.on_right_pressed(now_ms),
            Event::KeyPressed { key } => self.on_key_pressed(key, now_ms),
            Event::KeyReleased { key } => self.on_key_released(key),
            Event::FocusChanged { focused } => self.on_focus_changed(focused, now_ms),
            Event::Tick => self.on_tick(now_ms),
        }
    }

    /// Build the line-list vertex batch for strokes, the one being drawn
    /// included.
    pub fn stroke_batch(&self) -> (out: Vec<Vertex>)
        ensures
            out@ == stroke_batch_view(self@),
    {
        match &self.gesture {
            Gesture::Stroke(pts) => {
                let out = build_stroke_batch(self.scene.strokes(), pts);
                proof {
                    assert(out@ =~= stroke_batch_view(self@));
                }
                out
            },
            _ => {
                let none: Vec<Vertex> = Vec::new();
                let out = build_stroke_batch(self.scene.strokes(), &none);
                proof {
                    assert(out@ =~= stroke_batch_view(self@));
                }
                out
            },
        }
    }

    /// Build the line-list vertex batch for rectangles, the live preview of
    /// a rectangle drag included.
    pub fn shape_batch(&self) -> (out: Vec<Vertex>)
        ensures
            out@ == shape_batch_view(self@),
    {
        let preview = match &self.gesture {
            Gesture::Shape { first_x, first_y, last_x, last_y } => Some(
                Rectangle {
                    first_x: *first_x,
                    first_y: *first_y,
                    last_x: *last_x,
                    last_y: *last_y,
                    color: self.color,
                },
            ),
            _ => None,
        };
        let out = build_shape_batch(self.scene.shapes(), preview);
        proof {
            assert(out@ =~= shape_batch_view(self@));
        }
        out
    }

    /// Build the text-layout requests for the host's text engine: one per
    /// annotation, the fresh one under edit included, each clipped to the
    /// viewport and carrying a caret glyph while pending and visible.
    pub fn text_requests(&self, viewport_width: i32, viewport_height: i32) -> (out: Vec<
        TextRequest,
    >)
        ensures
            request_views(out@) == text_requests_view(self@, viewport_width, viewport_height),
    {
        let fresh = match &self.session.editing {
            Some(EditTarget::Fresh(t)) => Some(t),
            _ => None,
        };
        let out = build_text_requests(
            self.scene.texts(),
            fresh,
            self.session.caret_visible,
            viewport_width,
            viewport_height,
        );
        proof {
            assert(request_views(out@) =~= text_requests_view(
                self@,
                viewport_width,
                viewport_height,
            ));
        }
        out
    }

    /// The scene, for hosts and tests that read the committed annotations.
    pub fn scene(&self) -> (s: &SceneModel)
        ensures
            s@ == self@.scene,
    {
        &self.scene
    }

    /// The action log length, for enabling an undo control.
    pub fn action_count(&self) -> (n: usize)
        ensures
            n == self@.scene.actions.len(),
    {
        self.scene.action_count()
    }

    /// Whether a text annotation is being edited right now.
    pub fn is_editing(&self) -> (b: bool)
        ensures
            b == (self@.session.editing is Some),
    {
        match &self.session.editing {
            Some(_) => true,
            None => false,
        }
    }

    /// Whether the caret is on right now.
    pub fn caret_visible(&self) -> (b: bool)
        ensures
            b == self@.session.caret_visible,
    {
        self.session.caret_visible
    }

    /// The current edit target, if any.
    pub fn editing_target(&self) -> (t: &Option<EditTarget>)
        ensures
            ((*t) is Some) == (self@.session.editing is Some),
            (*t) matches Some(tt) ==> self@.session.editing == Some(tt@),
    {
        &self.session.editing
    }

    /// Refresh the cached bounding box of one committed text annotation with
    /// the extents the host's text engine measured; hit testing reads these
    /// boxes.
    pub fn set_text_bounds(&mut self, i: usize, bounds: Rect)
        requires
            old(self).inv(),
            i < old(self)@.scene.texts.len(),
        ensures
            final(self).inv(),
            final(self)@ == (BoardView {
                scene: SceneView {
                    texts: old(self)@.scene.texts.update(
                        i as int,
                        (TextView { bounds, ..old(self)@.scene.texts[i as int] }),
                    ),
                    ..old(self)@.scene
                },
                ..old(self)@
            }),
    {
        self.scene.set_text_bounds(i, bounds);
        proof {
            assert(self@ =~= (BoardView {
                scene: SceneView {
                    texts: old(self)@.scene.texts.update(
                        i as int,
                        (TextView { bounds, ..old(self)@.scene.texts[i as int] }),
                    ),
                    ..old(self)@.scene
                },
                ..old(self)@
            }));
        }
    }

    /// Change the pen color used for strokes, rectangles and new texts.
    pub fn set_color(&mut self, color: Color)
        requires
            old(self).inv(),
        ensures
            final(self).inv(),
            final(self)@ == (BoardView { color, ..old(self)@ }),
    {
        self.color = color;
        proof {
            assert(self@ =~= (BoardView { color, ..old(self)@ }));
        }
    }

    /// Change the font size used for new texts.
    pub fn set_font_size(&mut self, font_size: i32)
        requires
            old(self).inv(),
        ensures
            final(self).inv(),
            final(self)@ == (BoardView { font_size, ..old(self)@ }),
    {
        self.font_size = font_size;
        proof {
            assert(self@ =~= (BoardView { font_size, ..old(self)@ }));
        }
    }
}

} // verus!
