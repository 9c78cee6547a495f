//! The values exchanged between the input-method listeners and the overlay.

use vstd::prelude::*;

verus! {

/// One selectable choice offered by the input method.
#[derive(Debug, PartialEq, Eq)]
pub struct Candidate {
    /// The short selector shown in front of the choice.
    pub display: String,
    /// The text that is inserted when the choice is taken.
    pub text: String,
}

/// What a `Candidate` holds, as sequences of characters.
pub struct CandidateView {
    pub display: Seq<char>,
    pub text: Seq<char>,
}

impl View for Candidate {
    type V = CandidateView;

    open spec fn view(&self) -> CandidateView {
        CandidateView { display: self.display@, text: self.text@ }
    }
}

impl Candidate {
    /// Builds a candidate from its selector and its payload.
    pub fn new(display: &str, text: &str) -> (candidate: Candidate)
        ensures
            candidate@ == (CandidateView { display: display@, text: text@ }),
    {
        Candidate { display: String::from_str(display), text: String::from_str(text) }
    }
}

impl Clone for Candidate {
    fn clone(&self) -> (copy: Candidate)
        ensures
            copy == *self,
    {
        Candidate { display: self.display.clone(), text: self.text.clone() }
    }
}

/// The views of a list of candidates, in order.
pub open spec fn candidate_views(list: Seq<Candidate>) -> Seq<CandidateView> {
    list.map_values(|c: Candidate| c@)
}

/// An intent queued for the overlay.
#[derive(Debug, PartialEq, Eq)]
pub enum UpdateType {
    /// Make the overlay visible.
    Show,
    /// Take the overlay off the screen.
    Hide,
    /// Put the given text into the document.
    Insert(String),
    /// Redraw the overlay from the current state.
    UpdateContent,
}

/// The kind of an `UpdateType`, without its payload.
#[derive(Clone, Copy, Debug, PartialEq, Eq, Structural)]
pub enum UpdateVariant {
    Show,
    Hide,
    Insert,
    UpdateContent,
}

/// What an `UpdateType` holds, with the payload as a sequence of characters.
pub enum UpdateView {
    Show,
    Hide,
    Insert(Seq<char>),
    UpdateContent,
}

impl UpdateView {
    /// The kind of this intent.
    pub open spec fn variant(self) -> UpdateVariant {
        match self {
            UpdateView::Show => UpdateVariant::Show,
            UpdateView::Hide => UpdateVariant::Hide,
            UpdateView::Insert(_) => UpdateVariant::Insert,
            UpdateView::UpdateContent => UpdateVariant::UpdateContent,
        }
    }
}

impl View for UpdateType {
    type V = UpdateView;

    open spec fn view(&self) -> UpdateView {
        match self {
            UpdateType::Show => UpdateView::Show,
            UpdateType::Hide => UpdateView::Hide,
            UpdateType::Insert(text) => UpdateView::Insert(text@),
            UpdateType::UpdateContent => UpdateView::UpdateContent,
        }
    }
}

impl UpdateType {
    /// Reports the kind of this intent, whatever its payload.
    pub fn variant(&self) -> (kind: UpdateVariant)
        ensures
            kind == self@.variant(),
    {
        match self {
            UpdateType::Show => UpdateVariant::Show,
            UpdateType::Hide => UpdateVariant::Hide,
            UpdateType::Insert(_) => UpdateVariant::Insert,
            UpdateType::UpdateContent => UpdateVariant::UpdateContent,
        }
    }
}

impl Clone for UpdateType {
    fn clone(&self) -> (copy: UpdateType)
        ensures
            copy == *self,
    {
        match self {
            UpdateType::Show => UpdateType::Show,
            UpdateType::Hide => UpdateType::Hide,
            UpdateType::Insert(text) => UpdateType::Insert(text.clone()),
            UpdateType::UpdateContent => UpdateType::UpdateContent,
        }
    }
}

/// The views of a run of queued intents, in order.
pub open spec fn update_views(list: Seq<UpdateType>) -> Seq<UpdateView> {
    list.map_values(|u: UpdateType| u@)
}

} // verus!
