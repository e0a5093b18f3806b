//! Building renderer input from the scene: line-list vertex batches for
//! strokes and rectangles, and text-layout requests for the host's text
//! engine.
//!
//! Strokes and rectangles become pairs of vertices for a line-list
//! primitive: a stroke of `n >= 2` points yields `n - 1` adjacent-point
//! segments, and a rectangle yields its four edges as four independent
//! segments. In-progress gestures are appended transiently so the user sees
//! a live preview; the committed collections are never touched.

use vstd::prelude::*;

use crate::geometry::rect_vertices;
use crate::geometry::Color;
use crate::geometry::Rect;
use crate::geometry::Rectangle;
use crate::geometry::Vertex;
use crate::scene::TextAnnotation;
use crate::scene::TextView;

verus! {

/// The glyph appended to a pending text while the caret is visible.
pub const CARET_CHAR: char = '|';

/// One text-layout request for the host's text engine: the characters to
/// shape, the top-left anchor in device pixels, the default color, and the
/// clip bounds, clamped to the viewport.
pub struct TextRequest {
    pub content: Vec<char>,
    pub x: i32,
    pub y: i32,
    pub color: Color,
    pub font_size: i32,
    pub bounds: Rect,
}

/// The mathematical value of a [`TextRequest`].
#[verifier::ext_equal]
pub ghost struct RequestView {
    pub content: Seq<char>,
    pub x: i32,
    pub y: i32,
    pub color: Color,
    pub font_size: i32,
    pub bounds: Rect,
}

impl View for TextRequest {
    type V = RequestView;

    open spec fn view(&self) -> RequestView {
        RequestView {
            content: self.content@,
            x: self.x,
            y: self.y,
            color: self.color,
            font_size: self.font_size,
            bounds: self.bounds,
        }
    }
}

/// The line-list vertices of one stroke: each adjacent pair of points as an
/// independent two-vertex segment, so a stroke of fewer than two points
/// emits nothing.
pub open spec fn stroke_segments(s: Seq<Vertex>) -> Seq<Vertex> {
    if s.len() < 2 {
        Seq::empty()
    } else {
        Seq::new((2 * (s.len() - 1)) as nat, |k: int| s[k / 2 + k % 2])
    }
}

/// The concatenated line-list vertices of a sequence of strokes, in draw
/// order.
pub open spec fn strokes_segments(ss: Seq<Seq<Vertex>>) -> Seq<Vertex>
    decreases ss.len(),
{
    if ss.len() == 0 {
        Seq::empty()
    } else {
        strokes_segments(ss.drop_last()) + stroke_segments(ss.last())
    }
}

/// The concatenated edge vertices of a sequence of rectangles, in draw
/// order, eight per rectangle.
pub open spec fn shapes_vertices(ss: Seq<Rectangle>) -> Seq<Vertex>
    decreases ss.len(),
{
    if ss.len() == 0 {
        Seq::empty()
    } else {
        shapes_vertices(ss.drop_last()) + rect_vertices(ss.last())
    }
}

/// The layout request for one annotation: its content, with a trailing
/// caret glyph while it is pending and the caret is visible, anchored at its
/// position and clipped to the viewport.
pub open spec fn request_of(t: TextView, caret_on: bool, viewport_width: i32, viewport_height: i32) -> RequestView {
    RequestView {
        content: if t.pending && caret_on {
            t.content.push(CARET_CHAR)
        } else {
            t.content
        },
        x: t.x,
        y: t.y,
        color: t.color,
        font_size: t.font_size,
        bounds: Rect { x: 0, y: 0, width: viewport_width, height: viewport_height },
    }
}

/// The line-list vertices of one stroke.
pub fn stroke_segment_vertices(pts: &Vec<Vertex>) -> (out: Vec<Vertex>)
    ensures
        out@ == stroke_segments(pts@),
{
    let mut out: Vec<Vertex> = Vec::new();
    if pts.len() < 2 {
        proof {
            assert(out@ =~= stroke_segments(pts@));
        }
        return out;
    }
    let mut j: usize = 0;
    while j < pts.len() - 1
        invariant
            pts@.len() >= 2,
            j <= pts@.len() - 1,
            out@ == Seq::new((2 * j) as nat, |k: int| pts@[k / 2 + k % 2]),
        decreases pts@.len() - j,
    {
        out.push(pts[j]);
        out.push(pts[j + 1]);
        proof {
            assert(out@ =~= Seq::new((2 * (j + 1)) as nat, |k: int| pts@[k / 2 + k % 2]));
        }
        j += 1;
    }
    proof {
        assert(out@ =~= stroke_segments(pts@));
    }
    out
}

/// The line-list batch for all committed strokes followed by the stroke
/// being drawn right now (pass an empty one when no stroke is in progress).
pub fn build_stroke_batch(strokes: &Vec<Vec<Vertex>>, current: &Vec<Vertex>) -> (out: Vec<Vertex>)
    ensures
        out@ == strokes_segments(strokes@.map_values(|s: Vec<Vertex>| s@)) + stroke_segments(
            current@,
        ),
{
    let ghost all = strokes@.map_values(|s: Vec<Vertex>| s@);
    let mut out: Vec<Vertex> = Vec::new();
    let mut i: usize = 0;
    while i < strokes.len()
        invariant
            all == strokes@.map_values(|s: Vec<Vertex>| s@),
            i <= all.len(),
            out@ == strokes_segments(all.take(i as int)),
        decreases all.len() - i,
    {
        let mut seg = stroke_segment_vertices(&strokes[i]);
        out.append(&mut seg);
        proof {
            assert(all.take(i + 1).drop_last() =~= all.take(i as int));
            assert(all.take(i + 1).last() == all[i as int]);
        }
        i += 1;
    }
    proof {
        assert(all.take(all.len() as int) =~= all);
    }
    let mut seg = stroke_segment_vertices(current);
    out.append(&mut seg);
    out
}

/// The line-list batch for all committed rectangles followed by the live
/// preview of a rectangle drag, when there is one.
pub fn build_shape_batch(shapes: &Vec<Rectangle>, preview: Option<Rectangle>) -> (out: Vec<Vertex>)
    ensures
        out@ == shapes_vertices(shapes@) + match preview {
            Some(r) => rect_vertices(r),
            None => Seq::<Vertex>::empty(),
        },
{
    let mut out: Vec<Vertex> = Vec::new();
    let mut i: usize = 0;
    while i < shapes.len()
        invariant
            i <= shapes@.len(),
            out@ == shapes_vertices(shapes@.take(i as int)),
        decreases shapes@.len() - i,
    {
        let mut edge = shapes[i].to_vertices();
        out.append(&mut edge);
        proof {
            assert(shapes@.take(i + 1).drop_last() =~= shapes@.take(i as int));
            assert(shapes@.take(i + 1).last() == shapes@[i as int]);
        }
        i += 1;
    }
    proof {
        assert(shapes@.take(shapes@.len() as int) =~= shapes@);
    }
    match preview {
        Some(r) => {
            let mut edge = r.to_vertices();
            out.append(&mut edge);
        },
        None => {
            proof {
                assert(out@ =~= out@ + Seq::<Vertex>::empty());
            }
        },
    }
    out
}

/// A private copy of a character vector.
fn copied_chars(v: &Vec<char>) -> (out: Vec<char>)
    ensures
        out@ == v@,
{
    let mut out: Vec<char> = Vec::new();
    let mut k: usize = 0;
    while k < v.len()
        invariant
            k <= v@.len(),
            out@ == v@.take(k as int),
        decreases v@.len() - k,
    {
        out.push(v[k]);
        proof {
            assert(out@ =~= v@.take(k + 1));
        }
        k += 1;
    }
    proof {
        assert(v@.take(v@.len() as int) =~= v@);
    }
    out
}

/// The layout request for one annotation.
fn request_for(t: &TextAnnotation, caret_on: bool, viewport_width: i32, viewport_height: i32) -> (r:
    TextRequest)
    ensures
        r@ == request_of(t@, caret_on, viewport_width, viewport_height),
{
    let mut content = copied_chars(&t.content);
    if t.pending && caret_on {
        content.push(CARET_CHAR);
    }
    TextRequest {
        content,
        x: t.x,
        y: t.y,
        color: t.color,
        font_size: t.font_size,
        bounds: Rect { x: 0, y: 0, width: viewport_width, height: viewport_height },
    }
}

/// The views of a vector of requests.
pub open spec fn request_views(rs: Seq<TextRequest>) -> Seq<RequestView> {
    rs.map_values(|r: TextRequest| r@)
}

/// The layout requests for a sequence of annotations, in order.
pub open spec fn requests_of(
    ts: Seq<TextView>,
    caret_on: bool,
    viewport_width: i32,
    viewport_height: i32,
) -> Seq<RequestView> {
    ts.map_values(|t: TextView| request_of(t, caret_on, viewport_width, viewport_height))
}

/// One layout request per annotation, in collection order, followed by one
/// for the fresh annotation under edit, when there is one.
pub fn build_text_requests(
    texts: &Vec<TextAnnotation>,
    fresh: Option<&TextAnnotation>,
    caret_on: bool,
    viewport_width: i32,
    viewport_height: i32,
) -> (out: Vec<TextRequest>)
    ensures
        request_views(out@) == requests_of(
            texts@.map_values(|t: TextAnnotation| t@),
            caret_on,
            viewport_width,
            viewport_height,
        ) + match fresh {
            Some(t) => seq![request_of(t@, caret_on, viewport_width, viewport_height)],
            None => Seq::<RequestView>::empty(),
        },
{
    let ghost base = requests_of(
        texts@.map_values(|t: TextAnnotation| t@),
        caret_on,
        viewport_width,
        viewport_height,
    );
    let mut out: Vec<TextRequest> = Vec::new();
    let mut i: usize = 0;
    while i < texts.len()
        invariant
            base == requests_of(
                texts@.map_values(|t: TextAnnotation| t@),
                caret_on,
                viewport_width,
                viewport_height,
            ),
            i <= base.len(),
            out@.len() == i,
            request_views(out@) == base.take(i as int),
        decreases base.len() - i,
    {
        let ghost pre = out@;
        let r = request_for(&texts[i], caret_on, viewport_width, viewport_height);
        out.push(r);
        proof {
            assert forall|k: int| 0 <= k < i implies #[trigger] request_views(out@)[k]
                == base[k] by {
                assert(out@[k] == pre[k]);
                assert(request_views(pre)[k] == pre[k]@);
                assert(request_views(pre)[k] == base.take(i as int)[k]);
            }
            assert(request_views(out@) =~= base.take(i + 1));
        }
        i += 1;
    }
    proof {
        assert(base.take(base.len() as int) =~= base);
    }
    match fresh {
        Some(t) => {
            let ghost pre = out@;
            let r = request_for(t, caret_on, viewport_width, viewport_height);
            out.push(r);
            proof {
                assert forall|k: int| 0 <= k < pre.len() implies #[trigger] request_views(out@)[k]
                    == base[k] by {
                    assert(out@[k] == pre[k]);
                    assert(request_views(pre)[k] == pre[k]@);
                }
                assert(request_views(out@) =~= base + seq![
                    request_of(t@, caret_on, viewport_width, viewport_height),
                ]);
            }
        },
        None => {
            proof {
                assert(request_views(out@) =~= base + Seq::<RequestView>::empty());
            }
        },
    }
    out
}

} // verus!
