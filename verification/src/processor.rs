//! The update processor: what the user-interface thread does with the queued
//! intents.
//!
//! The processor decides; it does not touch the editor. Each decision is a
//! list of `HostCommand`s that the caller carries out with the editor's own
//! primitives, after it has let go of the state's lock.

use crate::candidates::{update_views, UpdateType, UpdateVariant, UpdateView};
use crate::render::{
    display_width, line_views, next_part, plan_height, plan_spec, plan_width, prev_part, PlanView,
    RenderPlan,
};
use crate::state::{IMWindowState, StateView};
use crate::text::byte_len;
use vstd::prelude::*;
use vstd::string::StringSliceAdditionalSpecFns;

verus! {

/// What the editor says of a buffer or window handle that the plugin keeps.
#[derive(Clone, Copy, Debug, PartialEq, Eq, Structural)]
pub enum HandleStatus {
    /// No handle is kept.
    Absent,
    /// A handle is kept, but the editor no longer knows it.
    Stale,
    /// A handle is kept and the editor accepts it.
    Live,
}

/// The editor-side facts that the processor's decisions depend on.
#[derive(Clone, Copy, Debug, PartialEq, Eq, Structural)]
pub struct HostStatus {
    /// The scratch buffer behind the overlay.
    pub buffer: HandleStatus,
    /// The floating window.
    pub window: HandleStatus,
    /// The width of the floating window as the editor reports it.
    pub displayed_width: Option<u32>,
}

impl HostStatus {
    /// The width that is on screen: that of a live window, if it is known.
    pub open spec fn shown_width(self) -> Option<u32> {
        if self.window is Live {
            self.displayed_width
        } else {
            None
        }
    }

    /// Reports the width that is on screen.
    pub fn on_screen_width(&self) -> (width: Option<u32>)
        ensures
            width == self.shown_width(),
    {
        match self.window {
            HandleStatus::Live => self.displayed_width,
            _ => None,
        }
    }
}

/// Size and decoration of the floating window.
#[derive(Clone, Copy, Debug, PartialEq, Eq, Structural)]
pub struct WindowLayout {
    pub width: u32,
    pub height: u32,
    /// Whether the window carries a title. The compact status indicator
    /// carries none.
    pub titled: bool,
}

/// The layout for a window of the given size: a title goes on every window
/// wider than two columns and taller than one row.
pub open spec fn layout_of(width: nat, height: nat) -> WindowLayout {
    WindowLayout { width: width as u32, height: height as u32, titled: width > 2 && height > 1 }
}

/// Gives the layout for a window of the given size.
pub fn window_layout(width: u32, height: u32) -> (layout: WindowLayout)
    ensures
        layout == layout_of(width as nat, height as nat),
{
    WindowLayout { width, height, titled: width > 2 && height > 1 }
}

/// One thing for the caller to do with the editor.
#[derive(Debug, PartialEq, Eq)]
pub enum HostCommand {
    /// Create the scratch buffer and keep its handle.
    CreateBuffer,
    /// Replace the buffer's content by these lines.
    WriteLines(Vec<String>),
    /// Open the floating window on the buffer and keep its handle.
    OpenWindow(WindowLayout),
    /// Give the open window this layout.
    ReconfigureWindow(WindowLayout),
    /// Close the window and let go of its handle.
    CloseWindow,
    /// Let go of a window handle that the editor no longer knows.
    ForgetWindow,
    /// Schedule the insertion of this text at the cursor of the focused
    /// document, move the cursor past it and mark an undo break.
    InsertText(String),
}

/// What a `HostCommand` holds, with text as sequences of characters.
pub enum CommandView {
    CreateBuffer,
    WriteLines(Seq<Seq<char>>),
    OpenWindow(WindowLayout),
    ReconfigureWindow(WindowLayout),
    CloseWindow,
    ForgetWindow,
    InsertText(Seq<char>),
}

impl View for HostCommand {
    type V = CommandView;

    open spec fn view(&self) -> CommandView {
        match self {
            HostCommand::CreateBuffer => CommandView::CreateBuffer,
            HostCommand::WriteLines(lines) => CommandView::WriteLines(line_views(lines@)),
            HostCommand::OpenWindow(layout) => CommandView::OpenWindow(*layout),
            HostCommand::ReconfigureWindow(layout) => CommandView::ReconfigureWindow(*layout),
            HostCommand::CloseWindow => CommandView::CloseWindow,
            HostCommand::ForgetWindow => CommandView::ForgetWindow,
            HostCommand::InsertText(text) => CommandView::InsertText(text@),
        }
    }
}

/// The views of a list of commands, in order.
pub open spec fn command_views(commands: Seq<HostCommand>) -> Seq<CommandView> {
    commands.map_values(|c: HostCommand| c@)
}

/// A buffer is created unless a live one is at hand.
pub open spec fn buffer_commands(buffer: HandleStatus) -> Seq<CommandView> {
    if buffer is Live {
        Seq::empty()
    } else {
        seq![CommandView::CreateBuffer]
    }
}

/// What is done about the window when the overlay is to be on screen: a
/// live window is given the layout; a handle that the editor no longer knows
/// is let go, and nothing is opened in its place until the overlay is next
/// shown or redrawn; a window is opened where no handle is kept.
pub open spec fn window_command(layout: WindowLayout, window: HandleStatus) -> CommandView {
    match window {
        HandleStatus::Live => CommandView::ReconfigureWindow(layout),
        HandleStatus::Stale => CommandView::ForgetWindow,
        HandleStatus::Absent => CommandView::OpenWindow(layout),
    }
}

/// Showing: make sure of the buffer, write the lines, then see to the
/// window.
pub open spec fn show_commands(plan: PlanView, host: HostStatus) -> Seq<CommandView> {
    buffer_commands(host.buffer) + seq![
        CommandView::WriteLines(plan.lines),
        window_command(layout_of(plan.width, plan.height), host.window),
    ]
}

/// Hiding: close a live window, forget a stale handle, and do nothing where
/// no handle is kept.
pub open spec fn hide_commands(host: HostStatus) -> Seq<CommandView> {
    match host.window {
        HandleStatus::Live => seq![CommandView::CloseWindow],
        HandleStatus::Stale => seq![CommandView::ForgetWindow],
        HandleStatus::Absent => Seq::empty(),
    }
}

/// Redrawing: make sure of the buffer and write the lines; the window is
/// seen to only while the overlay is visible.
pub open spec fn refresh_commands(plan: PlanView, visible: bool, host: HostStatus) -> Seq<
    CommandView,
> {
    buffer_commands(host.buffer) + seq![CommandView::WriteLines(plan.lines)] + (if visible {
        seq![window_command(layout_of(plan.width, plan.height), host.window)]
    } else {
        Seq::empty()
    })
}

/// The commands that applying `update` takes, given the plan built from the
/// state as the update leaves it.
pub open spec fn commands_for_spec(
    update: UpdateView,
    plan: PlanView,
    visible: bool,
    host: HostStatus,
) -> Seq<CommandView> {
    match update {
        UpdateView::Show => show_commands(plan, host),
        UpdateView::Hide => hide_commands(host),
        UpdateView::UpdateContent => refresh_commands(plan, visible, host),
        UpdateView::Insert(text) => seq![CommandView::InsertText(text)],
    }
}

/// Whether the one-shot filter of `state` drops `update`.
pub open spec fn is_suppressed(state: StateView, update: UpdateView) -> bool {
    state.skip_next == Some(update.variant())
}

/// The state after one dequeued intent has gone through the processor.
///
/// An intent that the filter matches clears the filter and changes nothing
/// else; `Show` and `Hide` set the visibility; the others leave the state
/// as it is.
pub open spec fn step_state(state: StateView, update: UpdateView) -> StateView {
    if is_suppressed(state, update) {
        StateView { skip_next: None, ..state }
    } else {
        match update {
            UpdateView::Show => StateView { is_visible: true, ..state },
            UpdateView::Hide => StateView { is_visible: false, ..state },
            _ => state,
        }
    }
}

/// The commands that one dequeued intent gives rise to. `prev_width` and
/// `next_width` are the display widths of the two paging indicators.
pub open spec fn step_commands(
    state: StateView,
    update: UpdateView,
    host: HostStatus,
    prev_width: nat,
    next_width: nat,
) -> Seq<CommandView> {
    if is_suppressed(state, update) {
        Seq::empty()
    } else {
        let after = step_state(state, update);
        commands_for_spec(
            update,
            plan_spec(after, host.shown_width(), prev_width, next_width),
            after.is_visible,
            host,
        )
    }
}

/// What the editor holds once `command` has been carried out.
pub open spec fn host_after(host: HostStatus, command: CommandView) -> HostStatus {
    match command {
        CommandView::CreateBuffer => HostStatus { buffer: HandleStatus::Live, ..host },
        CommandView::OpenWindow(layout) => HostStatus {
            window: HandleStatus::Live,
            displayed_width: Some(layout.width),
            ..host
        },
        CommandView::ReconfigureWindow(layout) => HostStatus {
            displayed_width: Some(layout.width),
            ..host
        },
        CommandView::CloseWindow => HostStatus {
            window: HandleStatus::Absent,
            displayed_width: None,
            ..host
        },
        CommandView::ForgetWindow => HostStatus {
            window: HandleStatus::Absent,
            displayed_width: None,
            ..host
        },
        _ => host,
    }
}

/// What the editor holds once every command of `commands` has been carried
/// out in order.
pub open spec fn host_after_all(host: HostStatus, commands: Seq<CommandView>) -> HostStatus
    decreases commands.len(),
{
    if commands.len() == 0 {
        host
    } else {
        host_after(host_after_all(host, commands.drop_last()), commands.last())
    }
}

/// The state after the processor has gone through `updates` in order.
pub open spec fn pass_state(state: StateView, updates: Seq<UpdateView>) -> StateView
    decreases updates.len(),
{
    if updates.len() == 0 {
        state
    } else {
        step_state(pass_state(state, updates.drop_last()), updates.last())
    }
}

/// The commands of a whole pass over `updates`, each intent decided against
/// the editor as the commands before it leave it. `prev_width` and
/// `next_width` are the display widths of the two paging indicators.
pub open spec fn pass_commands(
    state: StateView,
    updates: Seq<UpdateView>,
    host: HostStatus,
    prev_width: nat,
    next_width: nat,
) -> Seq<CommandView>
    decreases updates.len(),
{
    if updates.len() == 0 {
        Seq::empty()
    } else {
        let before = pass_commands(state, updates.drop_last(), host, prev_width, next_width);
        let reached = pass_state(state, updates.drop_last());
        before + step_commands(
            reached,
            updates.last(),
            host_after_all(host, before),
            prev_width,
            next_width,
        )
    }
}

/// How often a failed write to the buffer is tried again.
pub const MAX_WRITE_RETRIES: u32 = 3;

/// What to do after an attempt to write to the buffer.
#[derive(Clone, Copy, Debug, PartialEq, Eq, Structural)]
pub enum WriteStep {
    /// The write went through.
    Done,
    /// Pause briefly, then try again.
    Retry,
    /// Log the failure and go on without the write.
    GiveUp,
}

/// The step after an attempt, `retries` attempts having been repeats
/// already: a failure is tried again until `MAX_WRITE_RETRIES` repeats are
/// used up.
pub open spec fn write_step_spec(retries: nat, succeeded: bool) -> WriteStep {
    if succeeded {
        WriteStep::Done
    } else if retries < MAX_WRITE_RETRIES {
        WriteStep::Retry
    } else {
        WriteStep::GiveUp
    }
}

/// The number of attempts made from the point where `retries` repeats are
/// used up, when every attempt fails.
pub open spec fn attempts_when_failing(retries: nat) -> nat
    decreases MAX_WRITE_RETRIES - retries,
{
    if write_step_spec(retries, false) == WriteStep::Retry {
        1 + attempts_when_failing(retries + 1)
    } else {
        1
    }
}

/// Decides the step after an attempt to write to the buffer.
///
/// The editor may refuse a write while it guards against concurrent
/// modification; such a refusal is passing, so the write is repeated a
/// bounded number of times and then dropped.
pub fn next_write_step(retries: u32, succeeded: bool) -> (step: WriteStep)
    ensures
        step == write_step_spec(retries as nat, succeeded),
{
    if succeeded {
        WriteStep::Done
    } else if retries < MAX_WRITE_RETRIES {
        WriteStep::Retry
    } else {
        WriteStep::GiveUp
    }
}

/// A write that the editor refuses every time is attempted once and then
/// `MAX_WRITE_RETRIES` times more.
pub proof fn failing_write_is_bounded()
    ensures
        attempts_when_failing(0) == MAX_WRITE_RETRIES + 1,
{
    reveal_with_fuel(attempts_when_failing, 5);
}

/// The one-shot filter is used up by the first intent that it matches: once
/// it is armed for `variant`, the next intent of that kind is dropped, with
/// no command issued and nothing but the filter changed, whatever the
/// intent's payload; the filter is then unset, and a second intent of the
/// same kind is applied as if no filter had been armed.
pub proof fn skip_next_consumes_once(
    state: StateView,
    variant: UpdateVariant,
    first: UpdateView,
    second: UpdateView,
    host: HostStatus,
    prev_width: nat,
    next_width: nat,
)
    requires
        first.variant() == variant,
        second.variant() == variant,
    ensures
        ({
            let armed = StateView { skip_next: Some(variant), ..state };
            let cleared = StateView { skip_next: None, ..state };
            &&& step_commands(armed, first, host, prev_width, next_width) == Seq::<
                CommandView,
            >::empty()
            &&& step_state(armed, first) == cleared
            &&& !is_suppressed(cleared, second)
            &&& step_commands(cleared, second, host, prev_width, next_width) == commands_for_spec(
                second,
                plan_spec(step_state(cleared, second), host.shown_width(), prev_width, next_width),
                step_state(cleared, second).is_visible,
                host,
            )
            &&& (second matches UpdateView::Insert(text) ==> step_commands(
                cleared,
                second,
                host,
                prev_width,
                next_width,
            ) == seq![CommandView::InsertText(text)])
        }),
{
}

/// An intent of another kind than the one the filter is armed for goes
/// through and leaves the filter armed.
pub proof fn skip_next_waits_for_its_kind(state: StateView, variant: UpdateVariant, other: UpdateView)
    requires
        other.variant() != variant,
    ensures
        !is_suppressed(StateView { skip_next: Some(variant), ..state }, other),
        step_state(StateView { skip_next: Some(variant), ..state }, other).skip_next == Some(
            variant,
        ),
{
}

/// Where inserted text goes and where the cursor stands afterwards.
///
/// Lines count from zero, the editor's cursor rows from one; columns are
/// byte offsets into the line.
#[derive(Clone, Copy, Debug, PartialEq, Eq, Structural)]
pub struct InsertPlan {
    /// The line that the text goes into.
    pub line: usize,
    /// The column at which the text starts.
    pub column: usize,
    /// The cursor row once the text is in.
    pub cursor_row: usize,
    /// The cursor column once the text is in: just past the inserted text.
    pub cursor_column: usize,
}

/// The plan for inserting text of `len` bytes at a cursor that stands in
/// row `row`, column `column`: the text goes in at the cursor, which then
/// moves past it. Positions stop at the largest `usize`.
pub open spec fn insert_plan_spec(row: nat, column: nat, len: nat) -> InsertPlan {
    InsertPlan {
        line: if row > 0 {
            (row - 1) as usize
        } else {
            0
        },
        column: column as usize,
        cursor_row: row as usize,
        cursor_column: if column + len > usize::MAX {
            usize::MAX
        } else {
            (column + len) as usize
        },
    }
}

/// Plans the insertion of `text` at a cursor in row `row`, column `column`.
pub fn plan_insert(row: usize, column: usize, text: &str) -> (plan: InsertPlan)
    ensures
        plan == insert_plan_spec(row as nat, column as nat, byte_len(text@)),
{
    InsertPlan {
        line: row.saturating_sub(1),
        column,
        cursor_row: row,
        cursor_column: column.saturating_add(text.as_bytes().len()),
    }
}

/// Tells the editor's state after one command.
pub fn track_command(host: HostStatus, command: &HostCommand) -> (next: HostStatus)
    ensures
        next == host_after(host, command@),
{
    match command {
        HostCommand::CreateBuffer => HostStatus {
            buffer: HandleStatus::Live,
            window: host.window,
            displayed_width: host.displayed_width,
        },
        HostCommand::OpenWindow(layout) => HostStatus {
            buffer: host.buffer,
            window: HandleStatus::Live,
            displayed_width: Some(layout.width),
        },
        HostCommand::ReconfigureWindow(layout) => HostStatus {
            buffer: host.buffer,
            window: host.window,
            displayed_width: Some(layout.width),
        },
        HostCommand::CloseWindow => HostStatus {
            buffer: host.buffer,
            window: HandleStatus::Absent,
            displayed_width: None,
        },
        HostCommand::ForgetWindow => HostStatus {
            buffer: host.buffer,
            window: HandleStatus::Absent,
            displayed_width: None,
        },
        _ => host,
    }
}

/// Decides what is done about the window when the overlay is to be on
/// screen with the given layout.
pub fn window_step(layout: WindowLayout, window: HandleStatus) -> (command: HostCommand)
    ensures
        command@ == window_command(layout, window),
{
    match window {
        HandleStatus::Live => HostCommand::ReconfigureWindow(layout),
        HandleStatus::Stale => HostCommand::ForgetWindow,
        HandleStatus::Absent => HostCommand::OpenWindow(layout),
    }
}

/// Turns one intent and the plan built for it into commands.
///
/// `plan` is the render plan of the state as the intent leaves it, `visible`
/// that state's visibility.
pub fn commands_for(update: UpdateType, plan: RenderPlan, visible: bool, host: &HostStatus) -> (commands:
    Vec<HostCommand>)
    ensures
        command_views(commands@) == commands_for_spec(update@, plan@, visible, *host),
{
    let mut commands: Vec<HostCommand> = Vec::new();
    let layout = window_layout(plan.width, plan.height);
    assert(command_views(commands@) =~= Seq::empty());
    match update {
        UpdateType::Show => {
            match host.buffer {
                HandleStatus::Live => {},
                _ => {
                    commands.push(HostCommand::CreateBuffer);
                },
            }
            assert(command_views(commands@) =~= buffer_commands(host.buffer));
            commands.push(HostCommand::WriteLines(plan.lines));
            commands.push(window_step(layout, host.window));
            assert(command_views(commands@) =~= show_commands(plan@, *host));
        },
        UpdateType::Hide => {
            match host.window {
                HandleStatus::Live => {
                    commands.push(HostCommand::CloseWindow);
                },
                HandleStatus::Stale => {
                    commands.push(HostCommand::ForgetWindow);
                },
                HandleStatus::Absent => {},
            }
            assert(command_views(commands@) =~= hide_commands(*host));
        },
        UpdateType::UpdateContent => {
            match host.buffer {
                HandleStatus::Live => {},
                _ => {
                    commands.push(HostCommand::CreateBuffer);
                },
            }
            assert(command_views(commands@) =~= buffer_commands(host.buffer));
            commands.push(HostCommand::WriteLines(plan.lines));
            if visible {
                commands.push(window_step(layout, host.window));
            }
            assert(command_views(commands@) =~= refresh_commands(plan@, visible, *host));
        },
        UpdateType::Insert(text) => {
            commands.push(HostCommand::InsertText(text));
            assert(command_views(commands@) =~= seq![CommandView::InsertText(text@)]);
        },
    }
    commands
}

impl IMWindowState {
    /// Sets the overlay's window up for the current state: decides whether
    /// the window is reconfigured, its stale handle let go, or a window
    /// opened, with the size that the state calls for.
    ///
    /// Without a live buffer there is nothing to put in a window, and
    /// nothing is done.
    pub fn display_window(&self, host: &HostStatus) -> (command: Option<HostCommand>)
        ensures
            host.buffer is Live ==> command is Some && command->0@ == window_command(
                layout_of(
                    plan_width(self@, host.shown_width()) as nat,
                    plan_height(self@) as nat,
                ),
                host.window,
            ),
            !(host.buffer is Live) ==> command is None,
    {
        match host.buffer {
            HandleStatus::Live => {
                let (width, height) = self.calculate_window_dimensions(host.on_screen_width());
                Some(window_step(window_layout(width, height), host.window))
            },
            _ => None,
        }
    }

    /// Says whether the one-shot filter drops `update`, and disarms the
    /// filter when it does.
    pub fn consume_skip(&mut self, update: &UpdateType) -> (dropped: bool)
        ensures
            dropped == is_suppressed(old(self)@, update@),
            dropped ==> final(self)@ == (StateView { skip_next: None, ..old(self)@ }),
            !dropped ==> final(self)@ == old(self)@,
            old(self).wf() ==> final(self).wf(),
    {
        let kind = update.variant();
        match self.skip_next {
            Some(armed) => {
                if armed == kind {
                    self.skip_next = None;
                    true
                } else {
                    false
                }
            },
            None => false,
        }
    }

    /// Applies one dequeued intent: updates the state and says what the
    /// caller is to do with the editor.
    ///
    /// An intent that the one-shot filter matches is dropped, whatever its
    /// payload: the filter is cleared and no command is issued. Otherwise
    /// `Show` and `Hide` set the visibility, and the plan for the commands is
    /// built from the state as it then stands.
    pub fn apply_update(&mut self, update: UpdateType, host: &HostStatus) -> (commands: Vec<
        HostCommand,
    >)
        ensures
            final(self)@ == step_state(old(self)@, update@),
            command_views(commands@) == step_commands(
                old(self)@,
                update@,
                *host,
                display_width(prev_part(old(self).has_prev)),
                display_width(next_part(old(self).has_next)),
            ),
            old(self).wf() ==> final(self).wf(),
    {
        if self.consume_skip(&update) {
            let commands: Vec<HostCommand> = Vec::new();
            assert(command_views(commands@) =~= Seq::empty());
            return commands;
        }
        match update {
            UpdateType::Show => {
                self.is_visible = true;
            },
            UpdateType::Hide => {
                self.is_visible = false;
            },
            _ => {},
        }
        let plan = self.build_render_plan(host.on_screen_width());
        commands_for(update, plan, self.is_visible, host)
    }

    /// Runs one pass of the processor: takes every queued intent and applies
    /// them in order.
    ///
    /// Each intent is decided against the editor as the commands before it
    /// leave it, starting from `host`. The commands of the whole pass come
    /// back in the order in which they are to be carried out. Wake-ups may
    /// coalesce, so the pass never leaves an intent behind: the queue is
    /// empty when it returns.
    pub fn process_updates(&mut self, host: HostStatus) -> (commands: Vec<HostCommand>)
        ensures
            final(self)@.update_queue == Seq::<UpdateView>::empty(),
            final(self)@ == pass_state(
                StateView { update_queue: Seq::empty(), ..old(self)@ },
                old(self)@.update_queue,
            ),
            command_views(commands@) == pass_commands(
                StateView { update_queue: Seq::empty(), ..old(self)@ },
                old(self)@.update_queue,
                host,
                display_width(prev_part(old(self).has_prev)),
                display_width(next_part(old(self).has_next)),
            ),
            old(self).wf() ==> final(self).wf(),
    {
        let ghost start = StateView { update_queue: Seq::empty(), ..old(self)@ };
        let ghost queued = old(self)@.update_queue;
        let ghost prev_width = display_width(prev_part(old(self).has_prev));
        let ghost next_width = display_width(next_part(old(self).has_next));
        let updates = self.drain_updates();
        let mut commands: Vec<HostCommand> = Vec::new();
        let mut current = host;
        let mut i: usize = 0;
        let total = updates.len();
        assert(queued.subrange(0, 0) =~= Seq::empty());
        assert(command_views(commands@) =~= Seq::empty());
        while i < total
            invariant
                i <= total,
                total == updates.len(),
                update_views(updates@) == queued,
                self@ == pass_state(start, queued.subrange(0, i as int)),
                self@.update_queue == Seq::<UpdateView>::empty(),
                self.has_prev == old(self).has_prev,
                self.has_next == old(self).has_next,
                prev_width == display_width(prev_part(old(self).has_prev)),
                next_width == display_width(next_part(old(self).has_next)),
                command_views(commands@) == pass_commands(
                    start,
                    queued.subrange(0, i as int),
                    host,
                    prev_width,
                    next_width,
                ),
                current == host_after_all(host, command_views(commands@)),
                old(self).wf() ==> self.wf(),
            decreases total - i,
        {
            let ghost done = queued.subrange(0, i as int);
            let ghost before = command_views(commands@);
            let update = updates[i].clone();
            assert(update@ == queued[i as int]);
            assert(queued.subrange(0, i + 1).drop_last() =~= done);
            assert(queued.subrange(0, i + 1).last() == update@);
            let mut produced = self.apply_update(update, &current);
            let ghost step = command_views(produced@);
            let mut j: usize = 0;
            assert(before + step.subrange(0, 0) =~= before);
            while j < produced.len()
                invariant
                    j <= produced.len(),
                    command_views(produced@) == step,
                    current == host_after_all(host, before + step.subrange(0, j as int)),
                decreases produced.len() - j,
            {
                current = track_command(current, &produced[j]);
                assert((before + step.subrange(0, j + 1)).drop_last() =~= before + step.subrange(
                    0,
                    j as int,
                ));
                assert((before + step.subrange(0, j + 1)).last() == step[j as int]);
                j += 1;
            }
            assert(step.subrange(0, j as int) =~= step);
            commands.append(&mut produced);
            assert(command_views(commands@) =~= before + step);
            i += 1;
        }
        assert(queued.subrange(0, total as int) =~= queued);
        commands
    }
}

} // verus!
