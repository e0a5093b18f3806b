//! Raw input vocabulary: logical keys, events, click history and the set of
//! currently held keys.
//!
//! The host translates its window-system events into these plain values. All
//! positions are device pixels and all times are milliseconds of a monotonic
//! clock.

use vstd::prelude::*;

use crate::geometry::square_distance;

verus! {

/// Two right-clicks at most this far apart in time count as a double-click.
pub const DOUBLE_CLICK_WINDOW_MS: u64 = 500;

/// Two right-clicks within this squared distance (5 pixels, squared to avoid
/// a square root) count as a double-click.
pub const DOUBLE_CLICK_DISTANCE_SQUARED: i64 = 25;

/// A logical key, as far as the engine cares to distinguish them. Character
/// keys carry the character they would insert.
#[derive(Clone, Copy, PartialEq, Eq, Structural, Debug)]
pub enum Key {
    Character(char),
    Control,
    Shift,
    Alt,
    Enter,
    Backspace,
    Delete,
    Space,
    Tab,
}

/// One event handed to the engine. Button and key events act at the cursor
/// position of the latest `PointerMoved`.
#[derive(Clone, Copy, PartialEq, Eq, Structural, Debug)]
pub enum Event {
    /// The pointer moved to a new device-pixel position.
    PointerMoved { x: i32, y: i32 },
    /// The left button went down.
    LeftPressed,
    /// The left button came up.
    LeftReleased,
    /// The right button went down.
    RightPressed,
    /// A key went down.
    KeyPressed { key: Key },
    /// A key came up.
    KeyReleased { key: Key },
    /// The window gained or lost keyboard focus.
    FocusChanged { focused: bool },
    /// A generic idle tick, used to drive caret blinking between events.
    Tick,
}

/// When and where the previous right-click landed.
#[derive(Clone, Copy, PartialEq, Eq, Structural, Debug)]
pub struct ClickRecord {
    pub time_ms: u64,
    pub x: i32,
    pub y: i32,
}

/// Whether a right-click at `(x, y)` at time `now` forms a double-click with
/// the previous one: at most 500 ms later and at most 5 pixels away. With no
/// click history there is no double-click.
pub open spec fn is_double_click(last: Option<ClickRecord>, now: u64, x: i32, y: i32) -> bool {
    match last {
        None => false,
        Some(c) => {
            &&& c.time_ms <= now
            &&& now - c.time_ms <= DOUBLE_CLICK_WINDOW_MS
            &&& square_distance(c.x as int, c.y as int, x as int, y as int)
                <= DOUBLE_CLICK_DISTANCE_SQUARED
        },
    }
}

/// Compare a right-click at `(x, y)` at time `now` against the recorded
/// previous one, exactly as [`is_double_click`] says.
pub fn detect_double_click(last: &Option<ClickRecord>, now: u64, x: i32, y: i32) -> (b: bool)
    ensures
        b == is_double_click(*last, now, x, y),
{
    match last {
        None => false,
        Some(c) => c.time_ms <= now && now - c.time_ms <= DOUBLE_CLICK_WINDOW_MS
            && crate::geometry::within_square_distance(c.x, c.y, x, y, DOUBLE_CLICK_DISTANCE_SQUARED),
    }
}

/// The set of keys currently held down, fed by press and release events.
/// Backs the shape-modifier check and the undo chord, and is cleared on
/// focus loss so that no stale modifier survives a focus change.
pub struct HeldKeys {
    keys: Vec<Key>,
}

impl View for HeldKeys {
    type V = Set<Key>;

    closed spec fn view(&self) -> Set<Key> {
        self.keys@.to_set()
    }
}

impl HeldKeys {
    /// The keys are recorded without duplicates.
    pub closed spec fn wf(self) -> bool {
        forall|p: int, q: int| 0 <= p < q < self.keys@.len() ==> self.keys@[p] != self.keys@[q]
    }

    /// No key held.
    pub fn new() -> (h: HeldKeys)
        ensures
            h@ == Set::<Key>::empty(),
            h.wf(),
    {
        let h = HeldKeys { keys: Vec::new() };
        proof {
            assert(h@ =~= Set::<Key>::empty());
        }
        h
    }

    /// Whether the key is currently held.
    pub fn holds(&self, key: Key) -> (b: bool)
        ensures
            b == self@.contains(key),
    {
        let mut i: usize = 0;
        while i < self.keys.len()
            invariant
                i <= self.keys@.len(),
                forall|j: int| 0 <= j < i ==> self.keys@[j] != key,
            decreases self.keys@.len() - i,
        {
            if self.keys[i] == key {
                return true;
            }
            i += 1;
        }
        proof {
            if self.keys@.contains(key) {
                let w = choose|w: int| 0 <= w < self.keys@.len() && self.keys@[w] == key;
                assert(self.keys@[w] != key);
            }
        }
        false
    }

    /// Record a key going down.
    pub fn press(&mut self, key: Key)
        requires
            old(self).wf(),
        ensures
            final(self).wf(),
            final(self)@ == old(self)@.insert(key),
    {
        if !self.holds(key) {
            self.keys.push(key);
            proof {
                assert forall|a: Key| #[trigger] self.keys@.contains(a) <==> (old(
                    self,
                ).keys@.contains(a) || a == key) by {
                    if self.keys@.contains(a) {
                        let w = choose|w: int| 0 <= w < self.keys@.len() && self.keys@[w] == a;
                        if w < old(self).keys@.len() {
                            assert(old(self).keys@[w] == a);
                        }
                    }
                    if old(self).keys@.contains(a) {
                        let w = choose|w: int|
                            0 <= w < old(self).keys@.len() && old(self).keys@[w] == a;
                        assert(self.keys@[w] == a);
                    }
                    if a == key {
                        assert(self.keys@.last() == key);
                    }
                }
                assert(self@ =~= old(self)@.insert(key));
                assert forall|p: int, q: int|
                    0 <= p < q < self.keys@.len() implies self.keys@[p] != self.keys@[q] by {
                    if q == self.keys@.len() - 1 {
                        assert(old(self).keys@[p] == self.keys@[p]);
                        assert(!old(self).keys@.contains(key));
                    }
                }
            }
        } else {
            proof {
                assert(self@ =~= old(self)@.insert(key));
            }
        }
    }

    /// Record a key coming up.
    pub fn release(&mut self, key: Key)
        requires
            old(self).wf(),
        ensures
            final(self).wf(),
            final(self)@ == old(self)@.remove(key),
    {
        let mut i: usize = 0;
        while i < self.keys.len()
            invariant
                old(self).wf(),
                i <= self.keys@.len(),
                self.keys@ == old(self).keys@,
                forall|j: int| 0 <= j < i ==> self.keys@[j] != key,
            decreases self.keys@.len() - i,
        {
            if self.keys[i] == key {
                self.keys.swap_remove(i);
                proof {
                    let pre = old(self).keys@;
                    let post = self.keys@;
                    assert(post =~= pre.update(i as int, pre[pre.len() - 1]).drop_last());
                    assert forall|a: Key| #[trigger] post.contains(a) <==> (pre.contains(a) && a
                        != key) by {
                        if post.contains(a) {
                            let w = choose|w: int| 0 <= w < post.len() && post[w] == a;
                            let ww: int = if w == i { pre.len() - 1 } else { w };
                            assert(pre[ww] == a);
                            assert(pre.contains(a));
                            if a == key {
                                assert(pre[ww] == key && pre[i as int] == key && ww != i);
                                if ww < i {
                                    assert(pre[ww] != pre[i as int]);
                                } else {
                                    assert(pre[i as int] != pre[ww]);
                                }
                            }
                        }
                        if pre.contains(a) && a != key {
                            let w = choose|w: int| 0 <= w < pre.len() && pre[w] == a;
                            assert(w != i);
                            if w == pre.len() - 1 {
                                assert(post[i as int] == a);
                            } else {
                                assert(post[w] == a);
                            }
                        }
                    }
                    assert(self@ =~= old(self)@.remove(key));
                    assert forall|p: int, q: int|
                        0 <= p < q < post.len() implies post[p] != post[q] by {
                        let pp: int = if p == i { pre.len() - 1 } else { p };
                        let qq: int = if q == i { pre.len() - 1 } else { q };
                        assert(post[p] == pre[pp]);
                        assert(post[q] == pre[qq]);
                        assert(pp != qq);
                        if pp < qq {
                            assert(pre[pp] != pre[qq]);
                        } else {
                            assert(pre[qq] != pre[pp]);
                        }
                    }
                }
                return ;
            }
            i += 1;
        }
        proof {
            if self.keys@.contains(key) {
                let w = choose|w: int| 0 <= w < self.keys@.len() && self.keys@[w] == key;
                assert(self.keys@[w] != key);
            }
            assert(self@ =~= old(self)@.remove(key));
        }
    }

    /// Forget every held key, as on focus loss.
    pub fn clear(&mut self)
        ensures
            final(self).wf(),
            final(self)@ == Set::<Key>::empty(),
    {
        self.keys.clear();
        proof {
            assert(self@ =~= Set::<Key>::empty());
        }
    }
}

} // verus!
