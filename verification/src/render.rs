//! Render plans: the size of the overlay and the lines of text in it, as a
//! function of the composition state alone.

use crate::candidates::{candidate_views, Candidate, CandidateView};
use crate::layout::{
    hysteresis_is_idempotent, long_content_is_capped, raw_width, width_gap, window_height,
    window_height_spec, window_width, window_width_spec, COMPACT_HEIGHT, COMPACT_WIDTH,
    HYSTERESIS, MAX_WIDTH, MIN_WIDTH,
};
use crate::state::{IMWindowState, StateView};
use crate::text::{blank_run, byte_len, run_of, separator_line, SEPARATOR_GLYPH};
use unicode_width::UnicodeWidthStr;
use vstd::prelude::*;
use vstd::string::StringSliceAdditionalSpecFns;

verus! {

/// Columns that the selection marker and the two spaces of a candidate line
/// take.
pub const MARKER_WIDTH: usize = 3;

/// Columns that the keyboard icon in front of the pre-edit text takes.
pub const ICON_WIDTH: usize = 4;

/// The glyph in front of the selected candidate.
pub const SELECTION_MARKER: char = '\u{25ba}';

/// What the overlay should show: its size in columns and rows, and its text.
#[derive(Debug, PartialEq, Eq)]
pub struct RenderPlan {
    pub width: u32,
    pub height: u32,
    pub lines: Vec<String>,
}

/// The mathematical content of a `RenderPlan`.
pub struct PlanView {
    pub width: nat,
    pub height: nat,
    pub lines: Seq<Seq<char>>,
}

/// The views of a list of lines, in order.
pub open spec fn line_views(lines: Seq<String>) -> Seq<Seq<char>> {
    lines.map_values(|line: String| line@)
}

impl View for RenderPlan {
    type V = PlanView;

    open spec fn view(&self) -> PlanView {
        PlanView {
            width: self.width as nat,
            height: self.height as nat,
            lines: line_views(self.lines@),
        }
    }
}

/// The number of terminal columns that `text` takes, as the `unicode-width`
/// crate measures it outside an East Asian context.
pub uninterp spec fn display_width(text: Seq<char>) -> nat;

/// Measures `text` with `unicode_width::UnicodeWidthStr::width`.
///
/// The contract only gives the result its name: the measure depends on the
/// text alone, and the Unicode tables behind it are not restated here.
#[verifier::external_body]
fn measure(text: &str) -> (columns: usize)
    ensures
        columns == display_width(text@),
{
    UnicodeWidthStr::width(text)
}

/// Columns that one candidate needs: selector, payload, marker and spaces.
pub open spec fn candidate_footprint(candidate: CandidateView) -> nat {
    byte_len(candidate.display) + byte_len(candidate.text) + MARKER_WIDTH as nat
}

/// Columns that the pre-edit line needs: the text and the icon before it.
pub open spec fn preedit_footprint(preedit: Seq<char>) -> nat {
    byte_len(preedit) + ICON_WIDTH as nat
}

/// The largest footprint among `list`, zero for an empty list.
pub open spec fn max_footprint(list: Seq<CandidateView>) -> nat
    decreases list.len(),
{
    if list.len() == 0 {
        0
    } else {
        let rest = max_footprint(list.drop_last());
        let last = candidate_footprint(list.last());
        if rest >= last {
            rest
        } else {
            last
        }
    }
}

/// Columns that the widest line of the content needs.
pub open spec fn needed_len(state: StateView) -> nat {
    let widest = max_footprint(state.candidates);
    let preedit = preedit_footprint(state.preedit_text);
    if widest >= preedit {
        widest
    } else {
        preedit
    }
}

/// `n`, or the largest `usize` where `n` exceeds it.
pub open spec fn saturated(n: nat) -> int {
    if n > usize::MAX {
        usize::MAX as int
    } else {
        n as int
    }
}

/// The width of the plan: two columns for the compact status indicator, the
/// tiered width of the content otherwise.
pub open spec fn plan_width(state: StateView, displayed: Option<u32>) -> int {
    if state.is_showing_current_im() {
        COMPACT_WIDTH as int
    } else {
        window_width_spec(needed_len(state) as int, displayed)
    }
}

/// The height of the plan: one row for the compact status indicator;
/// otherwise header, candidates and footer, within the permitted range.
pub open spec fn plan_height(state: StateView) -> int {
    if state.is_showing_current_im() {
        COMPACT_HEIGHT as int
    } else {
        window_height_spec(
            state.preedit_text.len() > 0 || state.aux_up_str.len() > 0,
            state.candidates.len() as int,
            state.has_prev || state.has_next,
        )
    }
}

/// A horizontal rule of `width` columns.
pub open spec fn separator(width: nat) -> Seq<char> {
    run_of(SEPARATOR_GLYPH, width)
}

/// The auxiliary label, followed by a rule when more content follows.
pub open spec fn aux_block(state: StateView, width: nat) -> Seq<Seq<char>> {
    if state.aux_up_str.len() == 0 {
        Seq::empty()
    } else if state.preedit_text.len() > 0 || state.candidates.len() > 0 {
        seq![state.aux_up_str, separator(width)]
    } else {
        seq![state.aux_up_str]
    }
}

/// What stands in front of the pre-edit text: a space, the keyboard icon
/// with its variation selector, and two spaces.
pub open spec fn preedit_prefix() -> Seq<char> {
    seq![' ', '\u{f11c}', '\u{fe0f}', ' ', ' ']
}

/// The pre-edit line.
pub open spec fn preedit_line(preedit: Seq<char>) -> Seq<char> {
    preedit_prefix() + preedit
}

/// The pre-edit line and the rule under it, when there is pre-edit text.
pub open spec fn preedit_block(state: StateView, width: nat) -> Seq<Seq<char>> {
    if state.preedit_text.len() == 0 {
        Seq::empty()
    } else {
        seq![preedit_line(state.preedit_text), separator(width)]
    }
}

/// One candidate line: the marker or a space, then selector and payload,
/// each after one space.
pub open spec fn candidate_line(candidate: CandidateView, selected: bool) -> Seq<char> {
    seq![
        if selected {
            SELECTION_MARKER
        } else {
            ' '
        },
        ' ',
    ] + candidate.display + seq![' '] + candidate.text
}

/// One line per candidate, the marker on the selected one.
pub open spec fn candidate_lines(list: Seq<CandidateView>, selected_index: nat) -> Seq<Seq<char>> {
    Seq::new(list.len(), |i: int| candidate_line(list[i], i == selected_index))
}

/// The left paging indicator, or blanks of the same length.
pub open spec fn prev_part(has_prev: bool) -> Seq<char> {
    if has_prev {
        seq!['\u{25c4}', ' ', 'P', 'r', 'e', 'v']
    } else {
        run_of(' ', 6)
    }
}

/// The right paging indicator, or blanks of the same length.
pub open spec fn next_part(has_next: bool) -> Seq<char> {
    if has_next {
        seq!['N', 'e', 'x', 't', ' ', '\u{25ba}']
    } else {
        run_of(' ', 6)
    }
}

/// Blanks between the two paging indicators: what is left of `width` once
/// both indicators, `prev_width` and `next_width` columns wide, are placed.
pub open spec fn paging_gap(width: nat, prev_width: nat, next_width: nat) -> nat {
    if width > prev_width + next_width {
        (width - prev_width - next_width) as nat
    } else {
        0
    }
}

/// The paging line: the left indicator, blanks, and the right indicator
/// flush with the right edge.
pub open spec fn paging_line_spec(
    width: nat,
    has_prev: bool,
    has_next: bool,
    prev_width: nat,
    next_width: nat,
) -> Seq<char> {
    prev_part(has_prev) + run_of(' ', paging_gap(width, prev_width, next_width)) + next_part(
        has_next,
    )
}

/// A rule and the paging line, when there is another page either way.
pub open spec fn paging_block(
    state: StateView,
    width: nat,
    prev_width: nat,
    next_width: nat,
) -> Seq<Seq<char>> {
    if state.has_prev || state.has_next {
        seq![
            separator(width),
            paging_line_spec(width, state.has_prev, state.has_next, prev_width, next_width),
        ]
    } else {
        Seq::empty()
    }
}

/// The lines of the overlay, top to bottom: auxiliary label, pre-edit text,
/// candidates, paging footer. `prev_width` and `next_width` are the display
/// widths of the two paging indicators.
pub open spec fn plan_lines(
    state: StateView,
    width: nat,
    prev_width: nat,
    next_width: nat,
) -> Seq<Seq<char>> {
    aux_block(state, width) + preedit_block(state, width) + candidate_lines(
        state.candidates,
        state.selected_index,
    ) + paging_block(state, width, prev_width, next_width)
}

/// The whole plan for `state` while `displayed` is the width on screen.
pub open spec fn plan_spec(
    state: StateView,
    displayed: Option<u32>,
    prev_width: nat,
    next_width: nat,
) -> PlanView {
    PlanView {
        width: plan_width(state, displayed) as nat,
        height: plan_height(state) as nat,
        lines: plan_lines(state, plan_width(state, displayed) as nat, prev_width, next_width),
    }
}

/// Outside the compact status indicator, whose width is fixed, a plan built
/// while a width `shown` within the permitted range is on screen keeps
/// `shown` whenever the content's raw width is less than `HYSTERESIS` away
/// from it.
pub proof fn plan_keeps_displayed_width(state: StateView, shown: u32)
    requires
        !state.is_showing_current_im(),
        MIN_WIDTH <= shown <= MAX_WIDTH,
        width_gap(raw_width(needed_len(state) as int), shown as int) < HYSTERESIS,
    ensures
        plan_width(state, Some(shown)) == shown,
{
    hysteresis_is_idempotent(needed_len(state), shown);
}

/// Gives the left paging indicator.
pub fn prev_label(has_prev: bool) -> (label: &'static str)
    ensures
        label@ == prev_part(has_prev),
{
    if has_prev {
        proof {
            reveal_strlit("\u{25c4} Prev");
        }
        assert("\u{25c4} Prev"@ =~= prev_part(true));
        "\u{25c4} Prev"
    } else {
        proof {
            reveal_strlit("      ");
        }
        assert("      "@ =~= prev_part(false));
        "      "
    }
}

/// Gives the right paging indicator.
pub fn next_label(has_next: bool) -> (label: &'static str)
    ensures
        label@ == next_part(has_next),
{
    if has_next {
        proof {
            reveal_strlit("Next \u{25ba}");
        }
        assert("Next \u{25ba}"@ =~= next_part(true));
        "Next \u{25ba}"
    } else {
        proof {
            reveal_strlit("      ");
        }
        assert("      "@ =~= next_part(false));
        "      "
    }
}

/// Builds the paging line for an overlay of `width` columns, given the
/// display widths of the two indicators.
pub fn paging_line(
    width: u32,
    has_prev: bool,
    has_next: bool,
    prev_width: usize,
    next_width: usize,
) -> (line: String)
    ensures
        line@ == paging_line_spec(
            width as nat,
            has_prev,
            has_next,
            prev_width as nat,
            next_width as nat,
        ),
{
    let used: usize = prev_width.saturating_add(next_width);
    let gap: usize = (width as usize).saturating_sub(used);
    let mut line = String::from_str(prev_label(has_prev));
    let fill = blank_run(gap);
    line.append(fill.as_str());
    line.append(next_label(has_next));
    line
}

/// Builds the line of one candidate.
pub fn format_candidate(candidate: &Candidate, selected: bool) -> (line: String)
    ensures
        line@ == candidate_line(candidate@, selected),
{
    proof {
        reveal_strlit("\u{25ba} ");
        reveal_strlit("  ");
        reveal_strlit(" ");
    }
    let mut line = if selected {
        String::from_str("\u{25ba} ")
    } else {
        String::from_str("  ")
    };
    line.append(candidate.display.as_str());
    line.append(" ");
    line.append(candidate.text.as_str());
    assert(line@ =~= candidate_line(candidate@, selected));
    line
}

/// Builds the pre-edit line.
pub fn format_preedit(preedit: &str) -> (line: String)
    ensures
        line@ == preedit_line(preedit@),
{
    proof {
        reveal_strlit(" \u{f11c}\u{fe0f}  ");
    }
    let mut line = String::from_str(" \u{f11c}\u{fe0f}  ");
    assert(line@ =~= preedit_prefix());
    line.append(preedit);
    line
}

impl IMWindowState {
    /// Computes the columns that the widest line of the content needs,
    /// stopping at the largest `usize`.
    pub fn needed_len(&self) -> (len: usize)
        ensures
            len == saturated(needed_len(self@)),
    {
        let ghost views = candidate_views(self.candidates@);
        let mut widest: usize = 0;
        let mut i: usize = 0;
        assert(views.subrange(0, 0) =~= Seq::empty());
        while i < self.candidates.len()
            invariant
                i <= self.candidates.len(),
                views == candidate_views(self.candidates@),
                widest == saturated(max_footprint(views.subrange(0, i as int))),
            decreases self.candidates.len() - i,
        {
            let candidate = &self.candidates[i];
            let footprint: usize = candidate.display.as_str().as_bytes().len().saturating_add(
                candidate.text.as_str().as_bytes().len(),
            ).saturating_add(MARKER_WIDTH);
            assert(views.subrange(0, i + 1).drop_last() =~= views.subrange(0, i as int));
            assert(views.subrange(0, i + 1).last() == candidate@);
            assert(footprint == saturated(candidate_footprint(candidate@)));
            if footprint > widest {
                widest = footprint;
            }
            i += 1;
        }
        assert(views.subrange(0, i as int) =~= views);
        let preedit: usize = self.preedit_text.as_str().as_bytes().len().saturating_add(
            ICON_WIDTH,
        );
        if widest >= preedit {
            widest
        } else {
            preedit
        }
    }

    /// Computes the size of the overlay, columns first.
    ///
    /// `displayed_width` is the width of the window that is on screen, or
    /// `None` when there is none.
    pub fn calculate_window_dimensions(&self, displayed_width: Option<u32>) -> (size: (u32, u32))
        ensures
            size.0 == plan_width(self@, displayed_width),
            size.1 == plan_height(self@),
    {
        if self.is_showing_current_im() {
            return (COMPACT_WIDTH, COMPACT_HEIGHT);
        }
        let needed = self.needed_len();
        proof {
            if needed_len(self@) > usize::MAX {
                long_content_is_capped(needed as int, displayed_width);
                long_content_is_capped(needed_len(self@) as int, displayed_width);
            }
        }
        let width = window_width(needed, displayed_width);
        let header = !self.preedit_text.as_str().is_empty() || !self.aux_up_str.as_str().is_empty();
        let height = window_height(header, self.candidates.len(), self.has_prev || self.has_next);
        (width, height)
    }

    /// Builds the lines of the overlay for a window of `width` columns, given
    /// the display widths of the two paging indicators.
    pub fn render_lines(&self, width: u32, prev_width: usize, next_width: usize) -> (lines: Vec<
        String,
    >)
        ensures
            line_views(lines@) == plan_lines(
                self@,
                width as nat,
                prev_width as nat,
                next_width as nat,
            ),
    {
        let ghost views = candidate_views(self.candidates@);
        let mut lines: Vec<String> = Vec::new();
        let has_preedit = !self.preedit_text.as_str().is_empty();
        if !self.aux_up_str.as_str().is_empty() {
            lines.push(self.aux_up_str.clone());
            if has_preedit || self.candidates.len() > 0 {
                lines.push(separator_line(width));
            }
        }
        assert(line_views(lines@) =~= aux_block(self@, width as nat));
        if has_preedit {
            lines.push(format_preedit(self.preedit_text.as_str()));
            lines.push(separator_line(width));
        }
        assert(line_views(lines@) =~= aux_block(self@, width as nat) + preedit_block(
            self@,
            width as nat,
        ));
        let ghost head = line_views(lines@);
        let mut i: usize = 0;
        assert(line_views(lines@) =~= head + candidate_lines(
            views.subrange(0, 0),
            self.selected_index as nat,
        ));
        while i < self.candidates.len()
            invariant
                i <= self.candidates.len(),
                views == candidate_views(self.candidates@),
                line_views(lines@) == head + candidate_lines(
                    views.subrange(0, i as int),
                    self.selected_index as nat,
                ),
            decreases self.candidates.len() - i,
        {
            let ghost before = line_views(lines@);
            let line = format_candidate(&self.candidates[i], i == self.selected_index);
            let ghost shown = line@;
            lines.push(line);
            assert(line_views(lines@) =~= before.push(shown));
            assert(views[i as int] == self.candidates@[i as int]@);
            assert(candidate_lines(views.subrange(0, i + 1), self.selected_index as nat)
                =~= candidate_lines(views.subrange(0, i as int), self.selected_index as nat).push(
                shown,
            ));
            assert(line_views(lines@) =~= head + candidate_lines(
                views.subrange(0, i + 1),
                self.selected_index as nat,
            ));
            i += 1;
        }
        assert(views.subrange(0, i as int) =~= views);
        if self.has_prev || self.has_next {
            lines.push(separator_line(width));
            lines.push(paging_line(width, self.has_prev, self.has_next, prev_width, next_width));
        }
        assert(line_views(lines@) =~= plan_lines(
            self@,
            width as nat,
            prev_width as nat,
            next_width as nat,
        ));
        lines
    }

    /// Builds the render plan for the current state.
    ///
    /// `displayed_width` is the width of the window that is on screen, or
    /// `None` when there is none. The plan depends on nothing else.
    pub fn build_render_plan(&self, displayed_width: Option<u32>) -> (plan: RenderPlan)
        ensures
            plan@ == plan_spec(
                self@,
                displayed_width,
                display_width(prev_part(self.has_prev)),
                display_width(next_part(self.has_next)),
            ),
    {
        let (width, height) = self.calculate_window_dimensions(displayed_width);
        let prev_width = measure(prev_label(self.has_prev));
        let next_width = measure(next_label(self.has_next));
        let lines = self.render_lines(width, prev_width, next_width);
        RenderPlan { width, height, lines }
    }
}

} // verus!
