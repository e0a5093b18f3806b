//! Hit testing: which text annotation, if any, a click lands on.
//!
//! The query walks the text collection in order and compares the point
//! against each annotation's cached bounding box; the first containing box
//! wins.

use vstd::prelude::*;

use crate::geometry::rect_contains;
use crate::geometry::rect_contains_spec;
use crate::scene::TextAnnotation;
use crate::scene::TextView;

verus! {

/// The index of the first annotation whose bounds contain the point, in
/// collection order; none if no box contains it.
pub open spec fn hit_index(texts: Seq<TextView>, x: int, y: int) -> Option<int>
    decreases texts.len(),
{
    if texts.len() == 0 {
        None
    } else if rect_contains_spec(texts.first().bounds, x, y) {
        Some(0)
    } else {
        match hit_index(texts.drop_first(), x, y) {
            Some(i) => Some(i + 1),
            None => None,
        }
    }
}

/// What it means for `i` to be the winning index: the point lies in the
/// bounds of the text at `i` and in none of the earlier ones.
pub open spec fn is_first_hit(texts: Seq<TextView>, x: int, y: int, i: int) -> bool {
    &&& 0 <= i < texts.len()
    &&& rect_contains_spec(texts[i].bounds, x, y)
    &&& forall|j: int| 0 <= j < i ==> !rect_contains_spec(texts[j].bounds, x, y)
}

/// [`hit_index`] returns exactly the first containing box, and returns none
/// exactly when no box contains the point.
pub proof fn lemma_hit_index_first_match(texts: Seq<TextView>, x: int, y: int)
    ensures
        match hit_index(texts, x, y) {
            Some(i) => is_first_hit(texts, x, y, i),
            None => forall|j: int|
                0 <= j < texts.len() ==> !rect_contains_spec(texts[j].bounds, x, y),
        },
    decreases texts.len(),
{
    if texts.len() > 0 && !rect_contains_spec(texts.first().bounds, x, y) {
        lemma_hit_index_first_match(texts.drop_first(), x, y);
        let rest = texts.drop_first();
        match hit_index(rest, x, y) {
            Some(i) => {
                assert(texts[i + 1] == rest[i]);
                assert(forall|j: int| 0 <= j < i + 1 ==> texts[j] == if j == 0 {
                    texts.first()
                } else {
                    rest[j - 1]
                });
            },
            None => {
                assert(forall|j: int| 1 <= j < texts.len() ==> texts[j] == rest[j - 1]);
            },
        }
    }
}

/// A winning index is unique, so any index satisfying [`is_first_hit`] is
/// the one [`hit_index`] returns.
pub proof fn lemma_first_hit_is_hit_index(texts: Seq<TextView>, x: int, y: int, i: int)
    requires
        is_first_hit(texts, x, y, i),
    ensures
        hit_index(texts, x, y) == Some(i),
{
    lemma_hit_index_first_match(texts, x, y);
    match hit_index(texts, x, y) {
        Some(k) => {
            if k < i {
                assert(rect_contains_spec(texts[k].bounds, x, y));
            }
            if i < k {
                assert(rect_contains_spec(texts[i].bounds, x, y));
            }
        },
        None => {
            assert(rect_contains_spec(texts[i].bounds, x, y));
        },
    }
}

/// Walk the annotations in collection order and return the index of the
/// first whose cached bounds contain the point.
pub fn hit_text(texts: &Vec<TextAnnotation>, x: i32, y: i32) -> (r: Option<usize>)
    ensures
        ({
            let tv = texts@.map_values(|t: TextAnnotation| t@);
            match r {
                Some(i) => i < texts@.len() && hit_index(tv, x as int, y as int) == Some(i as int),
                None => hit_index(tv, x as int, y as int) is None,
            }
        }),
{
    let ghost tv = texts@.map_values(|t: TextAnnotation| t@);
    let mut i: usize = 0;
    while i < texts.len()
        invariant
            i <= texts@.len(),
            tv == texts@.map_values(|t: TextAnnotation| t@),
            forall|j: int| 0 <= j < i ==> !rect_contains_spec(tv[j].bounds, x as int, y as int),
        decreases texts@.len() - i,
    {
        if rect_contains(&texts[i].bounds, x, y) {
            proof {
                lemma_first_hit_is_hit_index(tv, x as int, y as int, i as int);
            }
            return Some(i);
        }
        i += 1;
    }
    proof {
        lemma_hit_index_first_match(tv, x as int, y as int);
        if hit_index(tv, x as int, y as int) is Some {
            let k = hit_index(tv, x as int, y as int)->Some_0;
            assert(!rect_contains_spec(tv[k].bounds, x as int, y as int));
        }
    }
    None
}

} // verus!
