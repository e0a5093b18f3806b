//! The text edit session: which annotation is receiving keyboard input, and
//! the caret-blink timer.
//!
//! A session targets either an existing annotation in the scene (re-opened by
//! double-click) or a fresh annotation that has not been committed yet. A
//! fresh annotation lives here, not in the scene, until it is committed; the
//! scene's log invariant therefore holds at every point, pending edits
//! included. Caret blinking is centralized in [`TextEditSession::poll_blink`],
//! called from idle ticks, focus changes and key presses alike, so that all
//! call sites share one timer and one visibility flag.

use vstd::prelude::*;

use crate::scene::TextAnnotation;
use crate::scene::TextView;

verus! {

/// How long the caret stays on or off before it flips, in milliseconds.
pub const CARET_BLINK_INTERVAL_MS: u64 = 500;

/// What a text edit session is aimed at.
pub enum EditTarget {
    /// A committed annotation of the scene, re-opened for editing, by index
    /// into the text collection.
    Existing(usize),
    /// A freshly created annotation that is not part of the scene yet.
    Fresh(TextAnnotation),
}

/// The mathematical value of an [`EditTarget`].
pub ghost enum TargetView {
    Existing(usize),
    Fresh(TextView),
}

impl View for EditTarget {
    type V = TargetView;

    open spec fn view(&self) -> TargetView {
        match self {
            EditTarget::Existing(i) => TargetView::Existing(*i),
            EditTarget::Fresh(t) => TargetView::Fresh(t@),
        }
    }
}

/// The edit session: the current target, if any, and the blink timer.
pub struct TextEditSession {
    pub editing: Option<EditTarget>,
    pub last_toggle_ms: u64,
    pub caret_visible: bool,
}

/// The mathematical value of a [`TextEditSession`].
#[verifier::ext_equal]
pub ghost struct SessionView {
    pub editing: Option<TargetView>,
    pub last_toggle_ms: u64,
    pub caret_visible: bool,
}

impl View for TextEditSession {
    type V = SessionView;

    open spec fn view(&self) -> SessionView {
        SessionView {
            editing: match self.editing {
                None => None,
                Some(t) => Some(t@),
            },
            last_toggle_ms: self.last_toggle_ms,
            caret_visible: self.caret_visible,
        }
    }
}

/// Whether a poll at time `now` flips the caret: only while editing, and
/// only once the blink interval has elapsed since the last flip.
pub open spec fn blink_due(session: SessionView, now: u64) -> bool {
    &&& session.editing is Some
    &&& session.last_toggle_ms <= now
    &&& now - session.last_toggle_ms >= CARET_BLINK_INTERVAL_MS
}

/// The session after a poll at time `now`: flipped and reset when the blink
/// was due, unchanged otherwise.
pub open spec fn session_blinked(session: SessionView, now: u64) -> SessionView {
    if blink_due(session, now) {
        SessionView { last_toggle_ms: now, caret_visible: !session.caret_visible, ..session }
    } else {
        session
    }
}

impl TextEditSession {
    /// A session with no target; the caret starts hidden with its timer at
    /// `now`.
    pub fn new(now_ms: u64) -> (s: TextEditSession)
        ensures
            s@ == (SessionView { editing: None, last_toggle_ms: now_ms, caret_visible: false }),
    {
        TextEditSession { editing: None, last_toggle_ms: now_ms, caret_visible: false }
    }

    /// The one blink timer: if the interval has elapsed while editing, flip
    /// the caret and restart the interval. Returns whether the caret flipped,
    /// which is the caller's cue to redraw.
    pub fn poll_blink(&mut self, now_ms: u64) -> (toggled: bool)
        ensures
            toggled == blink_due(old(self)@, now_ms),
            final(self)@ == session_blinked(old(self)@, now_ms),
    {
        let editing = match &self.editing {
            Some(_) => true,
            None => false,
        };
        if editing && self.last_toggle_ms <= now_ms && now_ms - self.last_toggle_ms
            >= CARET_BLINK_INTERVAL_MS {
            self.caret_visible = !self.caret_visible;
            self.last_toggle_ms = now_ms;
            true
        } else {
            false
        }
    }
}

} // verus!
