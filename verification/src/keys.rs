//! The keys that the plugin takes over in insert mode, and what pressing one
//! of them leads to.
//!
//! The recognised keys form a closed set: confirm, cancel, and the keys that
//! are passed through to the input method as a modifier state and a key
//! symbol. The decision for a key press is a value; talking to the input
//! method and to the editor is left to the caller.

use crate::candidates::UpdateView;
use crate::state::{IMWindowState, StateView};
use crate::text::{
    lowercase, payload_of, push_char, same_text, strip_cursor_and_blanks, to_lower,
};
use vstd::prelude::*;

verus! {

/// Modifier state: no modifier held.
pub const STATE_NONE: u32 = 0;

/// Modifier state: shift held.
pub const STATE_SHIFT: u32 = 1;

/// Modifier state: control held.
pub const STATE_CTRL: u32 = 4;

/// Modifier state: alt held.
pub const STATE_ALT: u32 = 8;

/// Key symbol of the backspace key.
pub const KEY_DELETE: u32 = 0xff08;

/// Key symbol of the tabulator key.
pub const KEY_TAB: u32 = 0xff09;

/// Key symbol of the left arrow.
pub const KEY_LEFT: u32 = 0xff51;

/// Key symbol of the right arrow.
pub const KEY_RIGHT: u32 = 0xff53;

/// A key press as the input method takes it: modifier bits and key symbol.
#[derive(Clone, Copy, Debug, PartialEq, Eq, Structural)]
pub struct KeyChord {
    pub state: u32,
    pub keyval: u32,
}

/// A key that the plugin takes over.
#[derive(Clone, Copy, Debug, PartialEq, Eq, Structural)]
pub enum SpecialKey {
    /// The return key: take the pre-edit text as it stands.
    Confirm,
    /// The escape key: give the composition up.
    Cancel,
    /// A key that the input method handles itself.
    Passthrough(KeyChord),
}

/// The key that a key name in lower case stands for, if the plugin takes it
/// over.
pub open spec fn classify_spec(lowered: Seq<char>) -> Option<SpecialKey> {
    if lowered == "<cr>"@ {
        Some(SpecialKey::Confirm)
    } else if lowered == "<esc>"@ {
        Some(SpecialKey::Cancel)
    } else if lowered == "<bs>"@ {
        Some(SpecialKey::Passthrough(KeyChord { state: STATE_NONE, keyval: KEY_DELETE }))
    } else if lowered == "<c-w>"@ || lowered == "\u{8}"@ {
        Some(SpecialKey::Passthrough(KeyChord { state: STATE_CTRL, keyval: KEY_DELETE }))
    } else if lowered == "<left>"@ {
        Some(SpecialKey::Passthrough(KeyChord { state: STATE_NONE, keyval: KEY_LEFT }))
    } else if lowered == "<right>"@ {
        Some(SpecialKey::Passthrough(KeyChord { state: STATE_NONE, keyval: KEY_RIGHT }))
    } else if lowered == "<c-left>"@ {
        Some(SpecialKey::Passthrough(KeyChord { state: STATE_CTRL, keyval: KEY_LEFT }))
    } else if lowered == "<c-right>"@ {
        Some(SpecialKey::Passthrough(KeyChord { state: STATE_CTRL, keyval: KEY_RIGHT }))
    } else if lowered == "<tab>"@ {
        Some(SpecialKey::Passthrough(KeyChord { state: STATE_NONE, keyval: KEY_TAB }))
    } else if lowered == "<s-tab>"@ {
        Some(SpecialKey::Passthrough(KeyChord { state: STATE_SHIFT, keyval: KEY_TAB }))
    } else {
        None
    }
}

/// Finds the key that a key name in lower case stands for.
pub fn classify_key(lowered: &str) -> (key: Option<SpecialKey>)
    ensures
        key == classify_spec(lowered@),
{
    if same_text(lowered, "<cr>") {
        Some(SpecialKey::Confirm)
    } else if same_text(lowered, "<esc>") {
        Some(SpecialKey::Cancel)
    } else if same_text(lowered, "<bs>") {
        Some(SpecialKey::Passthrough(KeyChord { state: STATE_NONE, keyval: KEY_DELETE }))
    } else if same_text(lowered, "<c-w>") || same_text(lowered, "\u{8}") {
        Some(SpecialKey::Passthrough(KeyChord { state: STATE_CTRL, keyval: KEY_DELETE }))
    } else if same_text(lowered, "<left>") {
        Some(SpecialKey::Passthrough(KeyChord { state: STATE_NONE, keyval: KEY_LEFT }))
    } else if same_text(lowered, "<right>") {
        Some(SpecialKey::Passthrough(KeyChord { state: STATE_NONE, keyval: KEY_RIGHT }))
    } else if same_text(lowered, "<c-left>") {
        Some(SpecialKey::Passthrough(KeyChord { state: STATE_CTRL, keyval: KEY_LEFT }))
    } else if same_text(lowered, "<c-right>") {
        Some(SpecialKey::Passthrough(KeyChord { state: STATE_CTRL, keyval: KEY_RIGHT }))
    } else if same_text(lowered, "<tab>") {
        Some(SpecialKey::Passthrough(KeyChord { state: STATE_NONE, keyval: KEY_TAB }))
    } else if same_text(lowered, "<s-tab>") {
        Some(SpecialKey::Passthrough(KeyChord { state: STATE_SHIFT, keyval: KEY_TAB }))
    } else {
        None
    }
}

/// Says whether the plugin takes over the key that `name` stands for,
/// whatever the case of the letters in `name`.
///
/// A mapping that the buffer already has for such a key is worth keeping:
/// it is what the key falls back to while the overlay is hidden.
pub fn is_handled_key(name: &str) -> (handled: bool)
    ensures
        handled == classify_spec(lowercase(name@)) is Some,
{
    let lowered = to_lower(name);
    classify_key(lowered.as_str()).is_some()
}

/// How the editor writes the modifier of a forwarded key: a prefix for
/// control, alt or shift held alone, nothing for any other state.
pub open spec fn modifier_prefix_spec(states: u32) -> Seq<char> {
    if states == STATE_CTRL {
        "<C-"@
    } else if states == STATE_ALT {
        "<M-"@
    } else if states == STATE_SHIFT {
        "<S-"@
    } else {
        ""@
    }
}

/// The character that the low byte of a key symbol stands for.
pub open spec fn symbol_char(sym: u32) -> char {
    ((sym % 256) as u8) as char
}

/// The editor's name for a key that the input method hands back: the
/// modifier prefix and the character of the symbol's low byte. A key
/// release has no name.
pub open spec fn forwarded_key_spec(sym: u32, states: u32, is_release: bool) -> Option<Seq<char>> {
    if is_release {
        None
    } else {
        Some(modifier_prefix_spec(states).push(symbol_char(sym)))
    }
}

/// Gives the modifier prefix of a forwarded key.
pub fn modifier_prefix(states: u32) -> (prefix: &'static str)
    ensures
        prefix@ == modifier_prefix_spec(states),
{
    if states == STATE_CTRL {
        "<C-"
    } else if states == STATE_ALT {
        "<M-"
    } else if states == STATE_SHIFT {
        "<S-"
    } else {
        ""
    }
}

/// Names a key that the input method hands back.
pub fn forwarded_key_name(sym: u32, states: u32, is_release: bool) -> (name: Option<String>)
    ensures
        match name {
            Some(key) => forwarded_key_spec(sym, states, is_release) == Some(key@),
            None => forwarded_key_spec(sym, states, is_release) is None,
        },
{
    if is_release {
        return None;
    }
    let mut key = String::from_str(modifier_prefix(states));
    let low: u8 = (sym % 256) as u8;
    push_char(&mut key, low as char);
    Some(key)
}

/// What the buffer had mapped to a key before the plugin took it over.
#[derive(Debug, PartialEq, Eq)]
pub struct OriginalKeymap {
    /// Whether the mapping runs a callback.
    pub has_callback: bool,
    /// The keys that the mapping stands for, where it has no callback.
    pub rhs: Option<String>,
}

/// What an `OriginalKeymap` holds.
pub struct KeymapView {
    pub has_callback: bool,
    pub rhs: Option<Seq<char>>,
}

impl View for OriginalKeymap {
    type V = KeymapView;

    open spec fn view(&self) -> KeymapView {
        KeymapView {
            has_callback: self.has_callback,
            rhs: match self.rhs {
                Some(keys) => Some(keys@),
                None => None,
            },
        }
    }
}

/// The view of a mapping that may be missing.
pub open spec fn keymap_view(original: Option<&OriginalKeymap>) -> Option<KeymapView> {
    match original {
        Some(mapping) => Some(mapping@),
        None => None,
    }
}

/// What the caller is to do about a key press.
#[derive(Debug, PartialEq, Eq)]
pub enum KeyAction {
    /// Run the callback of the buffer's own mapping; should it fail, feed
    /// `fallback` to the editor without remapping.
    CallOriginal { fallback: String },
    /// Feed these keys to the editor without remapping.
    FeedKeys(String),
    /// Do nothing.
    Nothing,
    /// Hand the key to the input method, then queue a redraw and run the
    /// processor.
    Forward(KeyChord),
    /// The pre-edit text has been queued for insertion: reset the input
    /// context and schedule a run of the processor.
    Commit,
    /// Reset the input context and schedule a run of the processor.
    Cancel,
    /// Reset the input context and feed these keys to the editor.
    CancelAndFeed(String),
}

/// What a `KeyAction` holds, with text as sequences of characters.
pub enum ActionView {
    CallOriginal { fallback: Seq<char> },
    FeedKeys(Seq<char>),
    Nothing,
    Forward(KeyChord),
    Commit,
    Cancel,
    CancelAndFeed(Seq<char>),
}

impl View for KeyAction {
    type V = ActionView;

    open spec fn view(&self) -> ActionView {
        match self {
            KeyAction::CallOriginal { fallback } => ActionView::CallOriginal {
                fallback: fallback@,
            },
            KeyAction::FeedKeys(keys) => ActionView::FeedKeys(keys@),
            KeyAction::Nothing => ActionView::Nothing,
            KeyAction::Forward(chord) => ActionView::Forward(*chord),
            KeyAction::Commit => ActionView::Commit,
            KeyAction::Cancel => ActionView::Cancel,
            KeyAction::CancelAndFeed(keys) => ActionView::CancelAndFeed(keys@),
        }
    }
}

/// While the overlay is hidden a key does what it did before: the buffer's
/// own mapping where there is one, the plain key otherwise.
pub open spec fn hidden_action(keycode: Seq<char>, original: Option<KeymapView>) -> ActionView {
    match original {
        Some(mapping) => if mapping.has_callback {
            ActionView::CallOriginal { fallback: keycode }
        } else {
            match mapping.rhs {
                Some(keys) => ActionView::FeedKeys(keys),
                None => ActionView::Nothing,
            }
        },
        None => ActionView::FeedKeys(keycode),
    }
}

/// Whether a key press commits the pre-edit text: the overlay is visible
/// with more than the status indicator in it, the plugin is loaded for the
/// buffer, and the key is the confirm key.
pub open spec fn commits(state: StateView, initialized: bool, key: Option<SpecialKey>) -> bool {
    state.is_visible && initialized && key == Some(SpecialKey::Confirm)
        && !state.is_showing_current_im()
}

/// The action that a key press leads to.
pub open spec fn key_action(
    state: StateView,
    initialized: bool,
    keycode: Seq<char>,
    key: Option<SpecialKey>,
    original: Option<KeymapView>,
) -> ActionView {
    if !state.is_visible {
        hidden_action(keycode, original)
    } else if !initialized {
        ActionView::Nothing
    } else {
        match key {
            Some(SpecialKey::Passthrough(chord)) => ActionView::Forward(chord),
            Some(SpecialKey::Confirm) => if state.is_showing_current_im() {
                ActionView::FeedKeys("<CR>"@)
            } else {
                ActionView::Commit
            },
            Some(SpecialKey::Cancel) => if state.is_showing_current_im() {
                ActionView::CancelAndFeed("<Esc>"@)
            } else {
                ActionView::Cancel
            },
            None => ActionView::Nothing,
        }
    }
}

/// The state after a key press: a commit queues the pre-edit text, without
/// its spaces and cursor glyph, for insertion; nothing else changes it.
pub open spec fn state_after_key(
    state: StateView,
    initialized: bool,
    key: Option<SpecialKey>,
) -> StateView {
    if commits(state, initialized, key) {
        state.enqueue(UpdateView::Insert(payload_of(state.preedit_text)))
    } else {
        state
    }
}

impl IMWindowState {
    /// Decides what a press of the key named `keycode` leads to, given the
    /// key that the name stands for.
    ///
    /// `initialized` says whether the plugin is loaded for the buffer,
    /// `original` is the mapping that the buffer had for the key.
    pub fn decide_key(
        &mut self,
        initialized: bool,
        keycode: &str,
        key: Option<SpecialKey>,
        original: Option<&OriginalKeymap>,
    ) -> (action: KeyAction)
        ensures
            action@ == key_action(old(self)@, initialized, keycode@, key, keymap_view(original)),
            final(self)@ == state_after_key(old(self)@, initialized, key),
            old(self).wf() ==> final(self).wf(),
    {
        if !self.is_visible {
            return match original {
                Some(mapping) => {
                    if mapping.has_callback {
                        KeyAction::CallOriginal { fallback: String::from_str(keycode) }
                    } else {
                        match &mapping.rhs {
                            Some(keys) => KeyAction::FeedKeys(keys.clone()),
                            None => KeyAction::Nothing,
                        }
                    }
                },
                None => KeyAction::FeedKeys(String::from_str(keycode)),
            };
        }
        if !initialized {
            return KeyAction::Nothing;
        }
        match key {
            Some(SpecialKey::Passthrough(chord)) => KeyAction::Forward(chord),
            Some(SpecialKey::Confirm) => {
                if self.is_showing_current_im() {
                    KeyAction::FeedKeys(String::from_str("<CR>"))
                } else {
                    let payload = strip_cursor_and_blanks(self.preedit_text.as_str());
                    self.mark_for_insert(payload);
                    KeyAction::Commit
                }
            },
            Some(SpecialKey::Cancel) => {
                if self.is_showing_current_im() {
                    KeyAction::CancelAndFeed(String::from_str("<Esc>"))
                } else {
                    KeyAction::Cancel
                }
            },
            None => KeyAction::Nothing,
        }
    }

    /// Decides what a press of the key named `keycode` leads to.
    ///
    /// The name is taken in any case of its letters. `initialized` says
    /// whether the plugin is loaded for the buffer, `original` is the mapping
    /// that the buffer had for the key.
    pub fn handle_special_key(
        &mut self,
        initialized: bool,
        keycode: &str,
        original: Option<&OriginalKeymap>,
    ) -> (action: KeyAction)
        ensures
            action@ == key_action(
                old(self)@,
                initialized,
                keycode@,
                classify_spec(lowercase(keycode@)),
                keymap_view(original),
            ),
            final(self)@ == state_after_key(
                old(self)@,
                initialized,
                classify_spec(lowercase(keycode@)),
            ),
            old(self).wf() ==> final(self).wf(),
    {
        let lowered = to_lower(keycode);
        let key = classify_key(lowered.as_str());
        self.decide_key(initialized, keycode, key, original)
    }
}

} // verus!
