//! The scene: three ordered collections of annotations plus the action log
//! that makes every commit undoable.
//!
//! The log holds one tag per committed annotation, in commit order. Undo pops
//! the tail of the log and the tail of the matching collection, so the log
//! length always equals the combined size of the three collections. All
//! additions go through the `commit_*` operations and all removals through
//! [`SceneModel::undo`]; nothing else changes a collection's length.

use vstd::prelude::*;

use crate::geometry::Color;
use crate::geometry::Rect;
use crate::geometry::Rectangle;
use crate::geometry::Vertex;

verus! {

/// A text annotation: a top-left anchor in device pixels, a color, the
/// character content, the `pending` flag (true while the text is under
/// active edit), the cached bounding box reported by the host's text engine,
/// and the font size in pixels.
#[derive(Debug)]
pub struct TextAnnotation {
    pub x: i32,
    pub y: i32,
    pub color: Color,
    pub content: Vec<char>,
    pub pending: bool,
    pub bounds: Rect,
    pub font_size: i32,
}

/// The mathematical value of a [`TextAnnotation`].
#[verifier::ext_equal]
pub ghost struct TextView {
    pub x: i32,
    pub y: i32,
    pub color: Color,
    pub content: Seq<char>,
    pub pending: bool,
    pub bounds: Rect,
    pub font_size: i32,
}

impl View for TextAnnotation {
    type V = TextView;

    open spec fn view(&self) -> TextView {
        TextView {
            x: self.x,
            y: self.y,
            color: self.color,
            content: self.content@,
            pending: self.pending,
            bounds: self.bounds,
            font_size: self.font_size,
        }
    }
}

impl TextView {
    /// The same annotation with editing finished.
    pub open spec fn committed(self) -> TextView {
        TextView { pending: false, ..self }
    }
}

impl TextAnnotation {
    /// A fresh, empty, pending annotation with no meaningful position or
    /// bounds yet.
    pub fn null(color: Color, font_size: i32) -> (t: TextAnnotation)
        ensures
            t@ == (TextView {
                x: 0,
                y: 0,
                color,
                content: Seq::<char>::empty(),
                pending: true,
                bounds: Rect { x: 0, y: 0, width: 0, height: 0 },
                font_size,
            }),
    {
        TextAnnotation {
            x: 0,
            y: 0,
            color,
            content: Vec::new(),
            pending: true,
            bounds: Rect { x: 0, y: 0, width: 0, height: 0 },
            font_size,
        }
    }
}

/// The tag recorded in the action log for one committed annotation. Undo
/// dispatches on it by exhaustive match, so an annotation kind cannot be
/// added without extending undo.
#[derive(Clone, Copy, PartialEq, Eq, Structural, Debug)]
pub enum Action {
    Stroke,
    Shape,
    Text,
}

/// How many entries of `log` carry the tag `kind`.
pub open spec fn count_actions(log: Seq<Action>, kind: Action) -> nat
    decreases log.len(),
{
    if log.len() == 0 {
        0
    } else {
        count_actions(log.drop_last(), kind) + if log.last() == kind {
            1nat
        } else {
            0nat
        }
    }
}

/// Appending one entry raises the count of its own tag by one and leaves the
/// other counts unchanged.
pub proof fn lemma_count_push(log: Seq<Action>, entry: Action, kind: Action)
    ensures
        count_actions(log.push(entry), kind) == count_actions(log, kind) + if entry == kind {
            1nat
        } else {
            0nat
        },
{
    assert(log.push(entry).drop_last() =~= log);
    assert(log.push(entry).last() == entry);
}

/// Every log entry carries exactly one of the three tags, so the three
/// counts partition the log.
pub proof fn lemma_counts_partition_log(log: Seq<Action>)
    ensures
        count_actions(log, Action::Stroke) + count_actions(log, Action::Shape) + count_actions(
            log,
            Action::Text,
        ) == log.len(),
    decreases log.len(),
{
    if log.len() > 0 {
        lemma_counts_partition_log(log.drop_last());
    }
}

/// The mathematical value of a [`SceneModel`].
#[verifier::ext_equal]
pub ghost struct SceneView {
    pub strokes: Seq<Seq<Vertex>>,
    pub shapes: Seq<Rectangle>,
    pub texts: Seq<TextView>,
    pub actions: Seq<Action>,
}

impl SceneView {
    /// The scene with nothing drawn and an empty log.
    pub open spec fn empty() -> SceneView {
        SceneView {
            strokes: Seq::empty(),
            shapes: Seq::empty(),
            texts: Seq::empty(),
            actions: Seq::empty(),
        }
    }

    /// The log invariant: each collection is exactly as long as the number
    /// of log entries tagged for it.
    pub open spec fn wf(self) -> bool {
        &&& count_actions(self.actions, Action::Stroke) == self.strokes.len()
        &&& count_actions(self.actions, Action::Shape) == self.shapes.len()
        &&& count_actions(self.actions, Action::Text) == self.texts.len()
    }

    /// What undo does: pop the log tail and the tail of the matching
    /// collection; the identity on a scene with an empty log.
    pub open spec fn undone(self) -> SceneView {
        if self.actions.len() == 0 {
            self
        } else {
            let rest = self.actions.drop_last();
            match self.actions.last() {
                Action::Stroke => SceneView { strokes: self.strokes.drop_last(), actions: rest, ..self },
                Action::Shape => SceneView { shapes: self.shapes.drop_last(), actions: rest, ..self },
                Action::Text => SceneView { texts: self.texts.drop_last(), actions: rest, ..self },
            }
        }
    }
}

/// A well-formed scene's action log is exactly as long as the three
/// collections taken together.
pub proof fn lemma_log_length(v: SceneView)
    requires
        v.wf(),
    ensures
        v.actions.len() == v.strokes.len() + v.shapes.len() + v.texts.len(),
{
    lemma_counts_partition_log(v.actions);
}

/// The scene: strokes, rectangles and text annotations, plus the action log.
pub struct SceneModel {
    pub(crate) strokes: Vec<Vec<Vertex>>,
    pub(crate) shapes: Vec<Rectangle>,
    pub(crate) texts: Vec<TextAnnotation>,
    pub(crate) actions: Vec<Action>,
}

impl View for SceneModel {
    type V = SceneView;

    closed spec fn view(&self) -> SceneView {
        SceneView {
            strokes: self.strokes@.map_values(|s: Vec<Vertex>| s@),
            shapes: self.shapes@,
            texts: self.texts@.map_values(|t: TextAnnotation| t@),
            actions: self.actions@,
        }
    }
}

impl SceneModel {
    /// An empty scene.
    pub fn new() -> (s: SceneModel)
        ensures
            s@ == SceneView::empty(),
            s@.wf(),
    {
        let s = SceneModel {
            strokes: Vec::new(),
            shapes: Vec::new(),
            texts: Vec::new(),
            actions: Vec::new(),
        };
        proof {
            assert(s@ =~= SceneView::empty());
        }
        s
    }

    /// Append a finished stroke and, atomically, its log entry.
    pub fn commit_stroke(&mut self, stroke: Vec<Vertex>)
        requires
            old(self)@.wf(),
            stroke@.len() > 0,
        ensures
            final(self)@.wf(),
            final(self)@ == (SceneView {
                strokes: old(self)@.strokes.push(stroke@),
                actions: old(self)@.actions.push(Action::Stroke),
                ..old(self)@
            }),
    {
        proof {
            lemma_count_push(self@.actions, Action::Stroke, Action::Stroke);
            lemma_count_push(self@.actions, Action::Stroke, Action::Shape);
            lemma_count_push(self@.actions, Action::Stroke, Action::Text);
        }
        self.strokes.push(stroke);
        self.actions.push(Action::Stroke);
        proof {
            assert(self@.strokes =~= old(self)@.strokes.push(self.strokes@.last()@));
        }
    }

    /// Append a finished rectangle and, atomically, its log entry.
    pub fn commit_shape(&mut self, shape: Rectangle)
        requires
            old(self)@.wf(),
        ensures
            final(self)@.wf(),
            final(self)@ == (SceneView {
                shapes: old(self)@.shapes.push(shape),
                actions: old(self)@.actions.push(Action::Shape),
                ..old(self)@
            }),
    {
        proof {
            lemma_count_push(self@.actions, Action::Shape, Action::Stroke);
            lemma_count_push(self@.actions, Action::Shape, Action::Shape);
            lemma_count_push(self@.actions, Action::Shape, Action::Text);
        }
        self.shapes.push(shape);
        self.actions.push(Action::Shape);
    }

    /// Append a text annotation, cleared of its `pending` flag, and,
    /// atomically, its log entry. This is the single point at which a text
    /// enters the log.
    pub fn commit_text(&mut self, text: TextAnnotation)
        requires
            old(self)@.wf(),
        ensures
            final(self)@.wf(),
            final(self)@ == (SceneView {
                texts: old(self)@.texts.push(text@.committed()),
                actions: old(self)@.actions.push(Action::Text),
                ..old(self)@
            }),
    {
        proof {
            lemma_count_push(self@.actions, Action::Text, Action::Stroke);
            lemma_count_push(self@.actions, Action::Text, Action::Shape);
            lemma_count_push(self@.actions, Action::Text, Action::Text);
        }
        let mut text = text;
        text.pending = false;
        self.texts.push(text);
        self.actions.push(Action::Text);
        proof {
            assert(self@.texts =~= old(self)@.texts.push(self.texts@.last()@));
        }
    }

    /// How many commits the log holds, for enabling an undo control.
    pub fn action_count(&self) -> (n: usize)
        ensures
            n == self@.actions.len(),
    {
        self.actions.len()
    }

    /// The tag of the most recent commit, if any.
    pub fn last_action(&self) -> (a: Option<Action>)
        ensures
            match a {
                Some(tag) => self@.actions.len() > 0 && tag == self@.actions.last(),
                None => self@.actions.len() == 0,
            },
    {
        if self.actions.len() == 0 {
            None
        } else {
            Some(self.actions[self.actions.len() - 1])
        }
    }

    /// How many strokes the scene holds.
    pub fn stroke_count(&self) -> (n: usize)
        ensures
            n == self@.strokes.len(),
    {
        self.strokes.len()
    }

    /// How many rectangles the scene holds.
    pub fn shape_count(&self) -> (n: usize)
        ensures
            n == self@.shapes.len(),
    {
        self.shapes.len()
    }

    /// How many text annotations the scene holds.
    pub fn text_count(&self) -> (n: usize)
        ensures
            n == self@.texts.len(),
    {
        self.texts.len()
    }

    /// The committed strokes, in draw order.
    pub fn strokes(&self) -> (r: &Vec<Vec<Vertex>>)
        ensures
            r@.map_values(|s: Vec<Vertex>| s@) == self@.strokes,
    {
        &self.strokes
    }

    /// The committed rectangles, in draw order.
    pub fn shapes(&self) -> (r: &Vec<Rectangle>)
        ensures
            r@ == self@.shapes,
    {
        &self.shapes
    }

    /// The text annotations, in creation order.
    pub fn texts(&self) -> (r: &Vec<TextAnnotation>)
        ensures
            r@.map_values(|t: TextAnnotation| t@) == self@.texts,
    {
        &self.texts
    }

    /// Set or clear the `pending` flag of one text annotation, leaving the
    /// rest of it and the log untouched.
    pub(crate) fn set_text_pending(&mut self, i: usize, pending: bool)
        requires
            old(self)@.wf(),
            i < old(self)@.texts.len(),
        ensures
            final(self)@.wf(),
            final(self)@ == (SceneView {
                texts: old(self)@.texts.update(
                    i as int,
                    (TextView { pending, ..old(self)@.texts[i as int] }),
                ),
                ..old(self)@
            }),
    {
        let t = &mut self.texts[i];
        t.pending = pending;
        proof {
            assert(self@.texts =~= old(self)@.texts.update(
                i as int,
                (TextView { pending, ..old(self)@.texts[i as int] }),
            ));
            assert(self@ =~= (SceneView { texts: self@.texts, ..old(self)@ }));
        }
    }

    /// Refresh the cached bounding box of one text annotation with the
    /// extents the host's text engine measured.
    pub fn set_text_bounds(&mut self, i: usize, bounds: Rect)
        requires
            old(self)@.wf(),
            i < old(self)@.texts.len(),
        ensures
            final(self)@.wf(),
            final(self)@ == (SceneView {
                texts: old(self)@.texts.update(
                    i as int,
                    (TextView { bounds, ..old(self)@.texts[i as int] }),
                ),
                ..old(self)@
            }),
    {
        let t = &mut self.texts[i];
        t.bounds = bounds;
        proof {
            assert(self@.texts =~= old(self)@.texts.update(
                i as int,
                (TextView { bounds, ..old(self)@.texts[i as int] }),
            ));
            assert(self@ =~= (SceneView { texts: self@.texts, ..old(self)@ }));
        }
    }

    /// Append one character to the content of one text annotation.
    pub(crate) fn text_push_char(&mut self, i: usize, c: char)
        requires
            old(self)@.wf(),
            i < old(self)@.texts.len(),
        ensures
            final(self)@.wf(),
            final(self)@ == (SceneView {
                texts: old(self)@.texts.update(
                    i as int,
                    (TextView {
                        content: old(self)@.texts[i as int].content.push(c),
                        ..old(self)@.texts[i as int]
                    }),
                ),
                ..old(self)@
            }),
    {
        let t = &mut self.texts[i];
        t.content.push(c);
        proof {
            assert(self@.texts =~= old(self)@.texts.update(
                i as int,
                (TextView {
                    content: old(self)@.texts[i as int].content.push(c),
                    ..old(self)@.texts[i as int]
                }),
            ));
            assert(self@ =~= (SceneView { texts: self@.texts, ..old(self)@ }));
        }
    }

    /// Remove the last character of one text annotation's content; a no-op
    /// on empty content. Returns whether a character was removed.
    pub(crate) fn text_pop_char(&mut self, i: usize) -> (removed: bool)
        requires
            old(self)@.wf(),
            i < old(self)@.texts.len(),
        ensures
            final(self)@.wf(),
            removed == (old(self)@.texts[i as int].content.len() > 0),
            removed ==> final(self)@ == (SceneView {
                texts: old(self)@.texts.update(
                    i as int,
                    (TextView {
                        content: old(self)@.texts[i as int].content.drop_last(),
                        ..old(self)@.texts[i as int]
                    }),
                ),
                ..old(self)@
            }),
            !removed ==> final(self)@ == old(self)@,
    {
        let t = &mut self.texts[i];
        let removed = match t.content.pop() {
            Some(_) => true,
            None => false,
        };
        proof {
            if old(self)@.texts[i as int].content.len() > 0 {
                assert(self@.texts[i as int].content =~= old(self)@.texts[
                    i as int
                ].content.drop_last());
                assert(self@.texts =~= old(self)@.texts.update(
                    i as int,
                    (TextView {
                        content: old(self)@.texts[i as int].content.drop_last(),
                        ..old(self)@.texts[i as int]
                    }),
                ));
                assert(self@ =~= (SceneView { texts: self@.texts, ..old(self)@ }));
            } else {
                assert(self@.texts =~= old(self)@.texts);
                assert(self@ =~= old(self)@);
            }
        }
        removed
    }

    /// Undo the most recent commit: pop the log tail and the tail of the
    /// matching collection. A no-op on an empty log.
    pub fn undo(&mut self)
        requires
            old(self)@.wf(),
        ensures
            final(self)@.wf(),
            final(self)@ == old(self)@.undone(),
    {
        match self.actions.pop() {
            None => {
                proof {
                    assert(self@ =~= old(self)@.undone());
                }
            },
            Some(action) => {
                proof {
                    assert(old(self)@.actions.drop_last() =~= self@.actions);
                }
                match action {
                    Action::Stroke => {
                        let _ = self.strokes.pop();
                        proof {
                            assert(old(self)@.strokes.drop_last() =~= self@.strokes);
                        }
                    },
                    Action::Shape => {
                        let _ = self.shapes.pop();
                        proof {
                            assert(old(self)@.shapes.drop_last() =~= self@.shapes);
                        }
                    },
                    Action::Text => {
                        let _ = self.texts.pop();
                        proof {
                            assert(old(self)@.texts.drop_last() =~= self@.texts);
                        }
                    },
                }
                proof {
                    assert(self@ =~= old(self)@.undone());
                }
            },
        }
    }
}

} // verus!
