//! What the listener threads do with a notification from the input method,
//! once they hold the state's lock.
//!
//! Receiving the notification and waking the user-interface thread are the
//! caller's business; the functions here turn a payload into a new state and
//! a queued intent.

use crate::candidates::{candidate_views, Candidate, CandidateView, UpdateView};
use crate::state::{IMWindowState, StateView};
use crate::text::with_cursor_marker;
use vstd::prelude::*;

verus! {

/// One run of text of a notification, with its formatting attribute.
#[derive(Debug, PartialEq, Eq)]
pub struct TextSegment {
    pub text: String,
    pub attribute: i32,
}

/// What a `TextSegment` holds.
pub struct SegmentView {
    pub text: Seq<char>,
    pub attribute: i32,
}

impl View for TextSegment {
    type V = SegmentView;

    open spec fn view(&self) -> SegmentView {
        SegmentView { text: self.text@, attribute: self.attribute }
    }
}

impl TextSegment {
    /// Builds a segment.
    pub fn new(text: &str, attribute: i32) -> (segment: TextSegment)
        ensures
            segment@ == (SegmentView { text: text@, attribute }),
    {
        TextSegment { text: String::from_str(text), attribute }
    }
}

/// The views of a list of segments, in order.
pub open spec fn segment_views(list: Seq<TextSegment>) -> Seq<SegmentView> {
    list.map_values(|s: TextSegment| s@)
}

/// The texts of `segments` one after the other, attributes dropped.
pub open spec fn joined(segments: Seq<SegmentView>) -> Seq<char>
    decreases segments.len(),
{
    if segments.len() == 0 {
        Seq::empty()
    } else {
        joined(segments.drop_last()) + segments.last().text
    }
}

/// The payload of a composition update.
#[derive(Debug)]
pub struct CompositionUpdate {
    pub candidates: Vec<Candidate>,
    pub preedit_segments: Vec<TextSegment>,
    /// Byte offset of the cursor in the joined pre-edit text; negative when
    /// there is none.
    pub preedit_cursor: i32,
    pub aux_segments: Vec<TextSegment>,
    pub has_prev: bool,
    pub has_next: bool,
    /// Index of the highlighted candidate; negative when there is none.
    pub cursor_index: i32,
}

/// What a `CompositionUpdate` holds.
pub struct CompositionView {
    pub candidates: Seq<CandidateView>,
    pub preedit_segments: Seq<SegmentView>,
    pub preedit_cursor: i32,
    pub aux_segments: Seq<SegmentView>,
    pub has_prev: bool,
    pub has_next: bool,
    pub cursor_index: i32,
}

impl View for CompositionUpdate {
    type V = CompositionView;

    open spec fn view(&self) -> CompositionView {
        CompositionView {
            candidates: candidate_views(self.candidates@),
            preedit_segments: segment_views(self.preedit_segments@),
            preedit_cursor: self.preedit_cursor,
            aux_segments: segment_views(self.aux_segments@),
            has_prev: self.has_prev,
            has_next: self.has_next,
            cursor_index: self.cursor_index,
        }
    }
}

/// The selection that the reported candidate cursor stands for: a negative
/// cursor selects the first candidate.
pub open spec fn selection_of(cursor_index: i32) -> nat {
    if cursor_index >= 0 {
        cursor_index as nat
    } else {
        0
    }
}

/// The content of the state after a composition update, queue aside.
///
/// Pre-edit and auxiliary segments are joined, the cursor glyph goes into
/// the pre-edit text, and the candidate list is replaced after the selection
/// is taken over, so that a selection beyond the list returns to its start.
pub open spec fn composition_content(state: StateView, update: CompositionView) -> StateView {
    (StateView {
        preedit_text: with_cursor_marker(
            joined(update.preedit_segments),
            update.preedit_cursor as int,
        ),
        aux_up_str: joined(update.aux_segments),
        has_prev: update.has_prev,
        has_next: update.has_next,
        selected_index: selection_of(update.cursor_index),
        ..state
    }).with_candidates(update.candidates)
}

/// The intent that a composition update queues: to show the overlay when
/// there is an auxiliary label or a candidate, to hide it otherwise.
pub open spec fn composition_intent(content: StateView) -> UpdateView {
    if content.aux_up_str.len() > 0 || content.candidates.len() > 0 {
        UpdateView::Show
    } else {
        UpdateView::Hide
    }
}

/// The state after a composition update.
pub open spec fn composition_applied(state: StateView, update: CompositionView) -> StateView {
    let content = composition_content(state, update);
    content.enqueue(composition_intent(content))
}

/// The state after a commit event: text that is not empty is queued for
/// insertion, an empty commit changes nothing.
pub open spec fn commit_applied(state: StateView, text: Seq<char>) -> StateView {
    if text.len() > 0 {
        state.enqueue(UpdateView::Insert(text))
    } else {
        state
    }
}

/// Joins the texts of `segments`.
pub fn join_segments(segments: &Vec<TextSegment>) -> (text: String)
    ensures
        text@ == joined(segment_views(segments@)),
{
    let ghost views = segment_views(segments@);
    let mut text = String::new();
    let mut i: usize = 0;
    assert(views.subrange(0, 0) =~= Seq::empty());
    while i < segments.len()
        invariant
            i <= segments.len(),
            views == segment_views(segments@),
            text@ == joined(views.subrange(0, i as int)),
        decreases segments.len() - i,
    {
        text.append(segments[i].text.as_str());
        assert(views.subrange(0, i + 1).drop_last() =~= views.subrange(0, i as int));
        assert(views.subrange(0, i + 1).last() == segments@[i as int]@);
        i += 1;
    }
    assert(views.subrange(0, i as int) =~= views);
    text
}

impl IMWindowState {
    /// Takes over a composition update and queues the intent to show or to
    /// hide the overlay.
    pub fn receive_composition(&mut self, update: &CompositionUpdate)
        ensures
            final(self)@ == composition_applied(old(self)@, update@),
            final(self).wf(),
    {
        let preedit = join_segments(&update.preedit_segments);
        self.set_preedit(preedit.as_str(), update.preedit_cursor);
        self.aux_up_str = join_segments(&update.aux_segments);
        self.has_prev = update.has_prev;
        self.has_next = update.has_next;
        self.selected_index = if update.cursor_index >= 0 {
            update.cursor_index as usize
        } else {
            0
        };
        self.update_candidates(update.candidates.as_slice());
        if !self.aux_up_str.as_str().is_empty() || self.candidates.len() > 0 {
            self.mark_for_show();
        } else {
            self.mark_for_hide();
        }
    }

    /// Takes over a commit event: queues the insertion of `text` unless it
    /// is empty.
    pub fn receive_commit(&mut self, text: &str)
        ensures
            final(self)@ == commit_applied(old(self)@, text@),
            old(self).wf() ==> final(self).wf(),
    {
        if !text.is_empty() {
            self.mark_for_insert(String::from_str(text));
        }
    }
}

} // verus!
