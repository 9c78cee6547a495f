//! The plugin's session: its configuration, what it has set up for each
//! buffer, and the state of the overlay.
//!
//! A session is an ordinary value that the entry points are handed. The
//! connections to the input method and the editor's handles live with the
//! caller; the session records what has been set up for which buffer.

use crate::state::IMWindowState;
use std::collections::HashMap;
use vstd::prelude::*;

verus! {

broadcast use vstd::std_specs::hash::group_hash_axioms;

/// What the user configured.
#[derive(Debug, PartialEq, Eq)]
pub struct PluginConfig {
    /// The key that switches the plugin on and off for the current buffer.
    pub on_key: Option<String>,
}

impl Clone for PluginConfig {
    fn clone(&self) -> (copy: PluginConfig)
        ensures
            copy == *self,
    {
        PluginConfig {
            on_key: match &self.on_key {
                Some(key) => Some(key.clone()),
                None => None,
            },
        }
    }
}

/// What the plugin has set up for one buffer.
#[derive(Clone, Copy, Debug, PartialEq, Eq, Structural)]
pub struct BufferRecord {
    /// Whether a controller and an input context are at hand.
    pub connected: bool,
    /// Whether the plugin's key mappings were put on the buffer.
    pub keymaps_registered: bool,
    /// The group that the buffer's autocommands belong to.
    pub augroup_id: Option<u32>,
}

/// The record of a buffer that nothing has been set up for.
pub open spec fn blank_record() -> BufferRecord {
    BufferRecord { connected: false, keymaps_registered: false, augroup_id: None }
}

/// The record of buffer `buf` in `records`.
pub open spec fn record_of(records: Map<i32, BufferRecord>, buf: i32) -> BufferRecord {
    if records.contains_key(buf) {
        records[buf]
    } else {
        blank_record()
    }
}

/// The plugin's session.
pub struct Fcitx5Plugin {
    pub config: Option<PluginConfig>,
    /// What has been set up, by buffer handle.
    pub buffers: HashMap<i32, BufferRecord>,
    /// The state of the candidate overlay.
    pub candidate_state: IMWindowState,
}

impl Fcitx5Plugin {
    /// The record of buffer `buf`.
    pub open spec fn record(&self, buf: i32) -> BufferRecord {
        record_of(self.buffers@, buf)
    }

    /// Creates a session with no configuration, no buffer and an empty
    /// overlay.
    pub fn new() -> (plugin: Fcitx5Plugin)
        ensures
            plugin.config is None,
            plugin.buffers@ == Map::<i32, BufferRecord>::empty(),
            plugin.candidate_state@ == crate::state::StateView::empty(),
            plugin.candidate_state.wf(),
    {
        Fcitx5Plugin { config: None, buffers: HashMap::new(), candidate_state: IMWindowState::new() }
    }

    /// Looks up the record of buffer `buf`.
    pub fn lookup(&self, buf: i32) -> (record: BufferRecord)
        ensures
            record == self.record(buf),
    {
        match self.buffers.get(&buf) {
            Some(record) => *record,
            None => BufferRecord { connected: false, keymaps_registered: false, augroup_id: None },
        }
    }

    /// Says whether the plugin is loaded for buffer `buf`: whether it has a
    /// controller and an input context for it.
    pub fn initialized(&self, buf: i32) -> (loaded: bool)
        ensures
            loaded == self.record(buf).connected,
    {
        self.lookup(buf).connected
    }

    /// Records that a controller and an input context were obtained for
    /// buffer `buf`.
    pub fn connect(&mut self, buf: i32)
        ensures
            final(self).buffers@ == old(self).buffers@.insert(
                buf,
                BufferRecord { connected: true, ..old(self).record(buf) },
            ),
            final(self).config == old(self).config,
            final(self).candidate_state == old(self).candidate_state,
    {
        let record = self.lookup(buf);
        self.buffers.insert(
            buf,
            BufferRecord {
                connected: true,
                keymaps_registered: record.keymaps_registered,
                augroup_id: record.augroup_id,
            },
        );
    }

    /// Records that the controller and the input context of buffer `buf`
    /// were let go, and says whether there were any.
    pub fn disconnect(&mut self, buf: i32) -> (was_connected: bool)
        ensures
            was_connected == old(self).record(buf).connected,
            final(self).buffers@ == old(self).buffers@.insert(
                buf,
                BufferRecord { connected: false, ..old(self).record(buf) },
            ),
            final(self).config == old(self).config,
            final(self).candidate_state == old(self).candidate_state,
    {
        let record = self.lookup(buf);
        self.buffers.insert(
            buf,
            BufferRecord {
                connected: false,
                keymaps_registered: record.keymaps_registered,
                augroup_id: record.augroup_id,
            },
        );
        record.connected
    }

    /// Says whether the key mappings are still to be put on buffer `buf`:
    /// the plugin is loaded for it and has not mapped its keys before.
    pub fn keymaps_pending(&self, buf: i32) -> (pending: bool)
        ensures
            pending == (self.record(buf).connected && !self.record(buf).keymaps_registered),
    {
        let record = self.lookup(buf);
        record.connected && !record.keymaps_registered
    }

    /// Records that the key mappings were put on buffer `buf`.
    pub fn mark_keymaps_registered(&mut self, buf: i32)
        ensures
            final(self).buffers@ == old(self).buffers@.insert(
                buf,
                BufferRecord { keymaps_registered: true, ..old(self).record(buf) },
            ),
            final(self).config == old(self).config,
            final(self).candidate_state == old(self).candidate_state,
    {
        let record = self.lookup(buf);
        self.buffers.insert(
            buf,
            BufferRecord {
                connected: record.connected,
                keymaps_registered: true,
                augroup_id: record.augroup_id,
            },
        );
    }

    /// Records `augroup_id` as the autocommand group of buffer `buf` and
    /// gives back the group that was recorded before, which the caller is to
    /// delete.
    pub fn replace_augroup(&mut self, buf: i32, augroup_id: u32) -> (previous: Option<u32>)
        ensures
            previous == old(self).record(buf).augroup_id,
            final(self).buffers@ == old(self).buffers@.insert(
                buf,
                BufferRecord { augroup_id: Some(augroup_id), ..old(self).record(buf) },
            ),
            final(self).config == old(self).config,
            final(self).candidate_state == old(self).candidate_state,
    {
        let record = self.lookup(buf);
        self.buffers.insert(
            buf,
            BufferRecord {
                connected: record.connected,
                keymaps_registered: record.keymaps_registered,
                augroup_id: Some(augroup_id),
            },
        );
        record.augroup_id
    }

    /// Forgets the autocommand group of buffer `buf` and gives it back for
    /// the caller to delete.
    pub fn take_augroup(&mut self, buf: i32) -> (previous: Option<u32>)
        ensures
            previous == old(self).record(buf).augroup_id,
            final(self).buffers@ == old(self).buffers@.insert(
                buf,
                BufferRecord { augroup_id: None, ..old(self).record(buf) },
            ),
            final(self).config == old(self).config,
            final(self).candidate_state == old(self).candidate_state,
    {
        let record = self.lookup(buf);
        self.buffers.insert(
            buf,
            BufferRecord {
                connected: record.connected,
                keymaps_registered: record.keymaps_registered,
                augroup_id: None,
            },
        );
        record.augroup_id
    }
}

/// Gives access to the overlay's state alone.
pub fn get_candidate_state(plugin: &Fcitx5Plugin) -> (state: &IMWindowState)
    ensures
        *state == plugin.candidate_state,
{
    &plugin.candidate_state
}

} // verus!
