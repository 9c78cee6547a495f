//! The shared composition state: what the input method last reported, and the
//! queue of intents that the user-interface thread has yet to apply.
//!
//! Listener threads change the state and enqueue intents while they hold the
//! state's lock; the user-interface thread alone dequeues.

use crate::candidates::{
    candidate_views, update_views, Candidate, CandidateView, UpdateType, UpdateVariant, UpdateView,
};
use crate::text::{insert_cursor_marker, with_cursor_marker};
use std::collections::VecDeque;
use vstd::prelude::*;

verus! {

/// State of the candidate overlay.
#[derive(Debug)]
pub struct IMWindowState {
    /// Current input method candidates.
    pub candidates: Vec<Candidate>,
    /// Index of the currently selected candidate.
    pub selected_index: usize,
    /// Current pre-edit text, cursor glyph included.
    pub preedit_text: String,
    /// Auxiliary status text, such as the name of the active input method.
    pub aux_up_str: String,
    /// Whether there is a previous page of candidates.
    pub has_prev: bool,
    /// Whether there is a next page of candidates.
    pub has_next: bool,
    /// Whether the overlay was last made visible.
    pub is_visible: bool,
    /// Intents that await application, oldest first.
    pub update_queue: VecDeque<UpdateType>,
    /// One-shot filter: the next dequeued intent of this kind is dropped.
    pub skip_next: Option<UpdateVariant>,
}

/// The mathematical content of an `IMWindowState`.
pub struct StateView {
    pub candidates: Seq<CandidateView>,
    pub selected_index: nat,
    pub preedit_text: Seq<char>,
    pub aux_up_str: Seq<char>,
    pub has_prev: bool,
    pub has_next: bool,
    pub is_visible: bool,
    pub update_queue: Seq<UpdateView>,
    pub skip_next: Option<UpdateVariant>,
}

impl StateView {
    /// The state at load time: nothing to show, nothing queued.
    pub open spec fn empty() -> StateView {
        StateView {
            candidates: Seq::empty(),
            selected_index: 0,
            preedit_text: Seq::empty(),
            aux_up_str: Seq::empty(),
            has_prev: false,
            has_next: false,
            is_visible: false,
            update_queue: Seq::empty(),
            skip_next: None,
        }
    }

    /// The selection points into the candidate list whenever there is one.
    pub open spec fn wf(self) -> bool {
        self.candidates.len() > 0 ==> self.selected_index < self.candidates.len()
    }

    /// Only the auxiliary label is there to show.
    pub open spec fn is_showing_current_im(self) -> bool {
        self.aux_up_str.len() > 0 && self.preedit_text.len() == 0 && self.candidates.len() == 0
    }

    /// The state after the candidate list is replaced by `list`: a selection
    /// that no longer points into a non-empty list goes back to the first
    /// candidate.
    pub open spec fn with_candidates(self, list: Seq<CandidateView>) -> StateView {
        StateView {
            candidates: list,
            selected_index: if list.len() > 0 && self.selected_index >= list.len() {
                0
            } else {
                self.selected_index
            },
            ..self
        }
    }

    /// The state after `intent` is appended to the queue.
    pub open spec fn enqueue(self, intent: UpdateView) -> StateView {
        StateView { update_queue: self.update_queue.push(intent), ..self }
    }

    /// The state after the oldest intent is taken off the queue.
    pub open spec fn dequeue(self) -> StateView
        recommends
            self.update_queue.len() > 0,
    {
        StateView { update_queue: self.update_queue.drop_first(), ..self }
    }

    /// The state after every intent of `intents` is appended in order.
    pub open spec fn enqueue_all(self, intents: Seq<UpdateView>) -> StateView
        decreases intents.len(),
    {
        if intents.len() == 0 {
            self
        } else {
            self.enqueue(intents.first()).enqueue_all(intents.drop_first())
        }
    }

    /// The intents that `count` successive dequeues return, oldest first.
    pub open spec fn popped(self, count: nat) -> Seq<UpdateView>
        decreases count,
    {
        if count == 0 || self.update_queue.len() == 0 {
            Seq::empty()
        } else {
            seq![self.update_queue.first()] + self.dequeue().popped((count - 1) as nat)
        }
    }

    /// The state that `count` successive dequeues leave.
    pub open spec fn after_pops(self, count: nat) -> StateView
        decreases count,
    {
        if count == 0 || self.update_queue.len() == 0 {
            self
        } else {
            self.dequeue().after_pops((count - 1) as nat)
        }
    }
}

impl View for IMWindowState {
    type V = StateView;

    open spec fn view(&self) -> StateView {
        StateView {
            candidates: candidate_views(self.candidates@),
            selected_index: self.selected_index as nat,
            preedit_text: self.preedit_text@,
            aux_up_str: self.aux_up_str@,
            has_prev: self.has_prev,
            has_next: self.has_next,
            is_visible: self.is_visible,
            update_queue: update_views(self.update_queue@),
            skip_next: self.skip_next,
        }
    }
}

impl Clone for IMWindowState {
    fn clone(&self) -> (copy: IMWindowState)
        ensures
            copy@ == self@,
    {
        let copy = IMWindowState {
            candidates: self.candidates.clone(),
            selected_index: self.selected_index,
            preedit_text: self.preedit_text.clone(),
            aux_up_str: self.aux_up_str.clone(),
            has_prev: self.has_prev,
            has_next: self.has_next,
            is_visible: self.is_visible,
            update_queue: self.update_queue.clone(),
            skip_next: self.skip_next,
        };
        assert(copy.candidates@ =~= self.candidates@);
        assert(copy.update_queue@ =~= self.update_queue@);
        copy
    }
}

impl IMWindowState {
    /// The selection points into the candidate list whenever there is one.
    pub open spec fn wf(&self) -> bool {
        self@.wf()
    }

    /// Creates the empty state.
    pub fn new() -> (state: IMWindowState)
        ensures
            state@ == StateView::empty(),
            state.wf(),
    {
        let state = IMWindowState {
            candidates: Vec::new(),
            selected_index: 0,
            preedit_text: String::new(),
            aux_up_str: String::new(),
            has_prev: false,
            has_next: false,
            is_visible: false,
            update_queue: VecDeque::new(),
            skip_next: None,
        };
        assert(state@.candidates =~= Seq::empty());
        assert(state@.update_queue =~= Seq::empty());
        state
    }

    /// Says whether only the auxiliary label is there to show, in which case
    /// the overlay shrinks to the compact status indicator.
    pub fn is_showing_current_im(&self) -> (compact: bool)
        ensures
            compact == self@.is_showing_current_im(),
    {
        !self.aux_up_str.as_str().is_empty() && self.preedit_text.as_str().is_empty()
            && self.candidates.len() == 0
    }

    /// Replaces the candidate list.
    ///
    /// When the new list is not empty and the selection no longer points into
    /// it, the selection returns to the first candidate. Visibility and the
    /// queue are left alone.
    pub fn update_candidates(&mut self, candidates: &[Candidate])
        ensures
            final(self)@ == old(self)@.with_candidates(candidate_views(candidates@)),
            final(self).wf(),
    {
        let mut list: Vec<Candidate> = Vec::new();
        let mut i: usize = 0;
        while i < candidates.len()
            invariant
                i <= candidates.len(),
                list@ == candidates@.subrange(0, i as int),
            decreases candidates.len() - i,
        {
            list.push(candidates[i].clone());
            assert(list@ =~= candidates@.subrange(0, i + 1));
            i += 1;
        }
        assert(list@ =~= candidates@);
        self.candidates = list;
        if self.candidates.len() > 0 && self.selected_index >= self.candidates.len() {
            self.selected_index = 0;
        }
    }

    /// Stores `text` as the pre-edit text, with the cursor glyph at byte
    /// `cursor_offset`.
    ///
    /// An offset that is negative, past the end of `text` or inside one of its
    /// characters is ignored: the text is stored without a glyph.
    pub fn set_preedit(&mut self, text: &str, cursor_offset: i32)
        ensures
            final(self)@ == (StateView {
                preedit_text: with_cursor_marker(text@, cursor_offset as int),
                ..old(self)@
            }),
            old(self).wf() ==> final(self).wf(),
    {
        self.preedit_text = insert_cursor_marker(text, cursor_offset);
    }

    /// Queues the intent to make the overlay visible.
    pub fn mark_for_show(&mut self)
        ensures
            final(self)@ == old(self)@.enqueue(UpdateView::Show),
            old(self).wf() ==> final(self).wf(),
    {
        self.update_queue.push_back(UpdateType::Show);
        assert(final(self)@.update_queue =~= old(self)@.update_queue.push(UpdateView::Show));
    }

    /// Queues the intent to take the overlay off the screen.
    pub fn mark_for_hide(&mut self)
        ensures
            final(self)@ == old(self)@.enqueue(UpdateView::Hide),
            old(self).wf() ==> final(self).wf(),
    {
        self.update_queue.push_back(UpdateType::Hide);
        assert(final(self)@.update_queue =~= old(self)@.update_queue.push(UpdateView::Hide));
    }

    /// Queues the intent to put `text` into the document.
    pub fn mark_for_insert(&mut self, text: String)
        ensures
            final(self)@ == old(self)@.enqueue(UpdateView::Insert(text@)),
            old(self).wf() ==> final(self).wf(),
    {
        self.update_queue.push_back(UpdateType::Insert(text));
        assert(final(self)@.update_queue =~= old(self)@.update_queue.push(
            UpdateView::Insert(text@),
        ));
    }

    /// Queues the intent to redraw the overlay.
    pub fn mark_for_update(&mut self)
        ensures
            final(self)@ == old(self)@.enqueue(UpdateView::UpdateContent),
            old(self).wf() ==> final(self).wf(),
    {
        self.update_queue.push_back(UpdateType::UpdateContent);
        assert(final(self)@.update_queue =~= old(self)@.update_queue.push(
            UpdateView::UpdateContent,
        ));
    }

    /// Arms the one-shot filter for intents of kind `variant`.
    ///
    /// A filter that was armed and not yet used is overwritten.
    pub fn mark_for_skip_next(&mut self, variant: UpdateVariant)
        ensures
            final(self)@ == (StateView { skip_next: Some(variant), ..old(self)@ }),
            old(self).wf() ==> final(self).wf(),
    {
        self.skip_next = Some(variant);
    }

    /// Takes the oldest intent off the queue, if there is one.
    pub fn pop_update(&mut self) -> (head: Option<UpdateType>)
        ensures
            old(self)@.update_queue.len() == 0 ==> head is None && final(self)@ == old(self)@,
            old(self)@.update_queue.len() > 0 ==> head is Some && head->0@ == old(
                self,
            )@.update_queue.first() && final(self)@ == old(self)@.dequeue(),
            old(self).wf() ==> final(self).wf(),
    {
        let head = self.update_queue.pop_front();
        proof {
            if old(self).update_queue@.len() > 0 {
                assert(final(self)@.update_queue =~= old(self)@.update_queue.drop_first());
            } else {
                assert(final(self)@.update_queue =~= old(self)@.update_queue);
            }
        }
        head
    }

    /// Takes every queued intent off the queue, oldest first.
    ///
    /// The user-interface thread calls this once per wake-up: wake-ups may
    /// coalesce, so a pass that took one intent only could leave others
    /// waiting for a wake-up that never comes.
    pub fn drain_updates(&mut self) -> (drained: Vec<UpdateType>)
        ensures
            update_views(drained@) == old(self)@.update_queue,
            final(self)@ == (StateView { update_queue: Seq::empty(), ..old(self)@ }),
            old(self).wf() ==> final(self).wf(),
    {
        let mut drained: Vec<UpdateType> = Vec::new();
        loop
            invariant
                update_views(drained@) + self@.update_queue == old(self)@.update_queue,
                self@ == (StateView { update_queue: self@.update_queue, ..old(self)@ }),
            ensures
                self@.update_queue.len() == 0,
            decreases self@.update_queue.len(),
        {
            let ghost before = self@.update_queue;
            let ghost taken = update_views(drained@);
            match self.pop_update() {
                Some(intent) => {
                    drained.push(intent);
                    assert(update_views(drained@) =~= taken.push(before.first()));
                    assert(update_views(drained@) + self@.update_queue =~= taken + before);
                },
                None => {
                    break ;
                },
            }
        }
        assert(update_views(drained@) =~= old(self)@.update_queue);
        assert(self@.update_queue =~= Seq::empty());
        drained
    }
}

/// First in, first out: when `intents` are enqueued in order behind what the
/// queue already holds, dequeuing returns first what was there and then
/// `intents`, in exactly that order, and once all of them are out the queue
/// is empty and nothing else has changed.
pub proof fn queue_is_fifo(state: StateView, intents: Seq<UpdateView>)
    ensures
        state.enqueue_all(intents).update_queue == state.update_queue + intents,
        state.enqueue_all(intents).popped(state.update_queue.len() + intents.len())
            == state.update_queue + intents,
        state.enqueue_all(intents).after_pops(state.update_queue.len() + intents.len()) == (
        StateView { update_queue: Seq::empty(), ..state }),
{
    enqueue_all_appends(state, intents);
    let filled = state.enqueue_all(intents);
    pops_return_queue(filled, filled.update_queue.len());
    assert(filled.update_queue.subrange(0, filled.update_queue.len() as int)
        =~= filled.update_queue);
    assert(filled.update_queue.subrange(
        filled.update_queue.len() as int,
        filled.update_queue.len() as int,
    ) =~= Seq::empty());
}

/// Starting from an empty queue, the intents come out as they went in.
pub proof fn empty_queue_returns_marks_in_order(intents: Seq<UpdateView>)
    ensures
        StateView::empty().enqueue_all(intents).popped(intents.len()) == intents,
        StateView::empty().enqueue_all(intents).after_pops(intents.len()) == StateView::empty(),
{
    queue_is_fifo(StateView::empty(), intents);
    assert(StateView::empty().update_queue + intents =~= intents);
}

/// Enqueuing a run of intents appends the run to the queue and touches
/// nothing else.
pub proof fn enqueue_all_appends(state: StateView, intents: Seq<UpdateView>)
    ensures
        state.enqueue_all(intents) == (StateView {
            update_queue: state.update_queue + intents,
            ..state
        }),
    decreases intents.len(),
{
    if intents.len() == 0 {
        assert(state.update_queue + intents =~= state.update_queue);
    } else {
        enqueue_all_appends(state.enqueue(intents.first()), intents.drop_first());
        assert(state.update_queue.push(intents.first()) + intents.drop_first()
            =~= state.update_queue + intents);
    }
}

/// `count` dequeues return the first `count` queued intents in order and
/// leave the rest of the queue, touching nothing else.
pub proof fn pops_return_queue(state: StateView, count: nat)
    requires
        count <= state.update_queue.len(),
    ensures
        state.popped(count) == state.update_queue.subrange(0, count as int),
        state.after_pops(count) == (StateView {
            update_queue: state.update_queue.subrange(
                count as int,
                state.update_queue.len() as int,
            ),
            ..state
        }),
    decreases count,
{
    if count == 0 {
        assert(state.update_queue.subrange(0, 0) =~= Seq::empty());
        assert(state.update_queue.subrange(0, state.update_queue.len() as int)
            =~= state.update_queue);
    } else {
        pops_return_queue(state.dequeue(), (count - 1) as nat);
        assert(seq![state.update_queue.first()] + state.update_queue.drop_first().subrange(
            0,
            count - 1,
        ) =~= state.update_queue.subrange(0, count as int));
        assert(state.update_queue.drop_first().subrange(
            count - 1,
            state.update_queue.len() - 1,
        ) =~= state.update_queue.subrange(count as int, state.update_queue.len() as int));
    }
}

} // verus!
