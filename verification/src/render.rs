//! What is shown of the state: the texts, where their colours go, and where
//! on the screen they stand. Drawing them is left to the caller.

use crate::command::{views, Command, CommandView};
use crate::model::StateView;
use crate::state::State;
use crate::text::{decimal, format_index, format_number, format_status, signed_decimal};
use vstd::prelude::*;
use vstd::string::*;

verus! {

/// A stretch of a text in one colour of the palette, from `start` up to
/// but without `end`, or to the end of the text where `end` is `None`.
#[derive(Clone, Copy, Debug, PartialEq, Eq, Structural)]
pub struct ColorRange {
    pub color: usize,
    pub start: usize,
    pub end: Option<usize>,
}

/// A text with its colours; in a list, with its depth.
#[derive(Clone, Debug, PartialEq, Eq)]
pub struct StyledText {
    pub text: String,
    pub selected: bool,
    pub indent: usize,
    pub color_ranges: Vec<ColorRange>,
}

/// The mathematical value of a [`StyledText`].
pub struct StyledTextView {
    pub text: Seq<char>,
    pub selected: bool,
    pub indent: usize,
    pub color_ranges: Seq<ColorRange>,
}

impl View for StyledText {
    type V = StyledTextView;

    open spec fn view(&self) -> StyledTextView {
        StyledTextView {
            text: self.text@,
            selected: self.selected,
            indent: self.indent,
            color_ranges: self.color_ranges@,
        }
    }
}

impl StyledTextView {
    /// The text without colours, not selected, at depth zero.
    pub open spec fn plain(text: Seq<char>) -> StyledTextView {
        StyledTextView { text, selected: false, indent: 0, color_ranges: Seq::empty() }
    }

    /// One more stretch of colour.
    pub open spec fn color_range(self, color: usize, start: usize, end: Option<usize>)
        -> StyledTextView {
        StyledTextView {
            color_ranges: self.color_ranges.push(ColorRange { color, start, end }),
            ..self
        }
    }

    /// The text marked as selected.
    pub open spec fn selected(self) -> StyledTextView {
        StyledTextView { selected: true, ..self }
    }

    /// The text at the given depth.
    pub open spec fn indent(self, indent: usize) -> StyledTextView {
        StyledTextView { indent, ..self }
    }
}

impl StyledText {
    /// The text without colours, not selected, at depth zero.
    pub fn new(text: String) -> (styled: StyledText)
        ensures
            styled@ == StyledTextView::plain(text@),
    {
        StyledText { text, selected: false, indent: 0, color_ranges: Vec::new() }
    }

    /// Adds a stretch of colour.
    pub fn color_range(self, color: usize, start: usize, end: Option<usize>) -> (styled:
        StyledText)
        ensures
            styled@ == self@.color_range(color, start, end),
    {
        let mut styled = self;
        styled.color_ranges.push(ColorRange { color, start, end });
        styled
    }

    /// Marks the text as selected.
    pub fn selected(self) -> (styled: StyledText)
        ensures
            styled@ == self@.selected(),
    {
        let mut styled = self;
        styled.selected = true;
        styled
    }

    /// Puts the text at the given depth.
    pub fn indent(self, indent: usize) -> (styled: StyledText)
        ensures
            styled@ == self@.indent(indent),
    {
        let mut styled = self;
        styled.indent = indent;
        styled
    }
}

/// The values of a list of texts, in order.
pub open spec fn text_views(texts: Seq<StyledText>) -> Seq<StyledTextView> {
    Seq::new(texts.len(), |i: int| texts[i]@)
}

/// A position on the screen: `n`, or the last position where `n` is beyond
/// it.
pub open spec fn clip(n: int) -> usize {
    if n > usize::MAX {
        usize::MAX
    } else {
        n as usize
    }
}

/// The position `b` places after `a`, or the last position.
fn plus(a: usize, b: usize) -> (r: usize)
    ensures
        r == clip(a + b),
{
    a.saturating_add(b)
}

/// The whole seconds from `start` to `end`, each taken as `now` where it is
/// absent. Timestamps count milliseconds; an end before the start gives
/// zero.
pub open spec fn elapsed_seconds(start: Option<u64>, end: Option<u64>, now: u64) -> u64 {
    let start = match start {
        Some(t) => t,
        None => now,
    };
    let end = match end {
        Some(t) => t,
        None => now,
    };
    if end >= start {
        ((end - start) / 1000) as u64
    } else {
        0
    }
}

/// The whole seconds from `start` to `end`, each taken as `now` where it is
/// absent.
pub fn seconds_between(start: Option<u64>, end: Option<u64>, now: u64) -> (seconds: u64)
    ensures
        seconds == elapsed_seconds(start, end, now),
{
    let start = match start {
        Some(t) => t,
        None => now,
    };
    let end = match end {
        Some(t) => t,
        None => now,
    };
    if end >= start {
        (end - start) / 1000
    } else {
        0
    }
}

/// What a command is counted as.
#[derive(Clone, Copy, Debug, PartialEq, Eq, Structural)]
pub enum Tally {
    /// The exit status is the success code.
    Successful,
    /// Exited, and not with the success code.
    Failed,
    /// Not exited.
    Pending,
}

/// Whether the command is counted under the tally.
pub open spec fn tallied(command: CommandView, tally: Tally) -> bool {
    match tally {
        Tally::Successful => command.exit_status == Some(0i32),
        Tally::Failed => command.exited && command.exit_status != Some(0i32),
        Tally::Pending => !command.exited,
    }
}

/// The number of commands counted under the tally.
pub open spec fn tally_count(commands: Seq<CommandView>, tally: Tally) -> nat
    decreases commands.len(),
{
    if commands.len() == 0 {
        0
    } else {
        tally_count(commands.drop_last(), tally) + if tallied(commands.last(), tally) {
            1nat
        } else {
            0nat
        }
    }
}

/// Counts the commands under the tally.
pub fn count_commands(commands: &Vec<Command>, tally: Tally) -> (count: usize)
    ensures
        count == tally_count(views(commands@), tally),
{
    let mut count: usize = 0;
    let mut i: usize = 0;
    while i < commands.len()
        invariant
            i <= commands.len(),
            count <= i,
            count == tally_count(views(commands@).take(i as int), tally),
        decreases commands.len() - i,
    {
        let ghost next = views(commands@).take(i as int + 1);
        assert(next.drop_last() =~= views(commands@).take(i as int));
        let command = &commands[i];
        let counted = match tally {
            Tally::Successful => command.succeeded(),
            Tally::Failed => command.exited && !command.succeeded(),
            Tally::Pending => !command.exited,
        };
        if counted {
            count += 1;
        }
        i += 1;
    }
    assert(views(commands@).take(i as int) =~= views(commands@));
    count
}

/// The counts of a title: in brackets, the successful, the failed and the
/// pending commands.
pub open spec fn counts_text(successful: nat, failed: nat, pending: nat) -> Seq<char> {
    "(Success: "@ + decimal(successful) + ", Failure: "@ + decimal(failed) + ", Pending: "@
        + decimal(pending) + ")"@
}

/// The title while the sequencer tracks the command at `index`.
pub open spec fn running_title(index: usize, successful: nat, failed: nat, pending: nat)
    -> StyledTextView {
    let s = decimal(successful).len() as int;
    let f = decimal(failed).len() as int;
    let p = decimal(pending).len() as int;
    StyledTextView::plain(
        "Running "@ + decimal((index + 1) as nat) + "/"@ + decimal(
            clip((successful + failed + pending) as int) as nat,
        ) + " commands "@ + counts_text(successful, failed, pending),
    ).color_range(1, 0, Some(20)).color_range(2, 31, Some(clip(31 + s))).color_range(
        3,
        clip(42 + s),
        Some(clip(42 + f + 1)),
    ).color_range(1, clip(54 + f), Some(clip(54 + p + 1)))
}

/// The title once every command is over.
pub open spec fn done_title(successful: nat, failed: nat, pending: nat) -> StyledTextView {
    let s = decimal(successful).len() as int;
    let f = decimal(failed).len() as int;
    let p = decimal(pending).len() as int;
    StyledTextView::plain(
        "Done running commands. "@ + counts_text(successful, failed, pending),
    ).color_range(1, 0, Some(22)).color_range(2, 33, Some(clip(33 + s))).color_range(
        3,
        clip(44 + s),
        Some(clip(44 + f + 1)),
    ).color_range(1, clip(56 + f), Some(clip(56 + p + 1)))
}

/// The title while no command is tracked and not every one is over.
pub open spec fn waiting_title(successful: nat, failed: nat, pending: nat) -> StyledTextView {
    let s = decimal(successful).len() as int;
    let f = decimal(failed).len() as int;
    let p = decimal(pending).len() as int;
    StyledTextView::plain(
        "Running commands. "@ + counts_text(successful, failed, pending),
    ).color_range(1, 0, Some(17)).color_range(2, clip(27 + s), Some(clip(27 + s + 1))).color_range(
        3,
        clip(39 + s),
        Some(clip(40 + f)),
    ).color_range(1, clip(51 + f), Some(clip(51 + p + 1)))
}

/// The title of a state.
pub open spec fn title_of(state: StateView) -> StyledTextView {
    let successful = tally_count(state.commands, Tally::Successful);
    let failed = tally_count(state.commands, Tally::Failed);
    let pending = tally_count(state.commands, Tally::Pending);
    match state.running {
        Some(index) => running_title(index, successful, failed, pending),
        None => if state.all_over() {
            done_title(successful, failed, pending)
        } else {
            waiting_title(successful, failed, pending)
        },
    }
}

/// Writes the counts of a title.
fn counts_string(successful: &String, failed: &String, pending: &String) -> (text: String)
    ensures
        text@ == "(Success: "@ + successful@ + ", Failure: "@ + failed@ + ", Pending: "@
            + pending@ + ")"@,
{
    let mut text = String::from_str("(Success: ");
    text.append(successful.as_str());
    text.append(", Failure: ");
    text.append(failed.as_str());
    text.append(", Pending: ");
    text.append(pending.as_str());
    text.append(")");
    text
}

/// The title: how far the run is, and how many commands succeeded, failed
/// and are pending.
pub fn render_title(state: &State) -> (title: StyledText)
    requires
        state.wf(),
    ensures
        title@ == title_of(state@),
{
    let commands = state.commands();
    let successful = count_commands(commands, Tally::Successful);
    let failed = count_commands(commands, Tally::Failed);
    let pending = count_commands(commands, Tally::Pending);
    let successful_text = format_index(successful);
    let failed_text = format_index(failed);
    let pending_text = format_index(pending);
    let s = successful_text.as_str().unicode_len();
    let f = failed_text.as_str().unicode_len();
    let p = pending_text.as_str().unicode_len();
    let counts = counts_string(&successful_text, &failed_text, &pending_text);
    match state.running_command_index() {
        Some(index) => {
            assert(views(commands@).len() == commands.len());
            let total = plus(plus(successful, failed), pending);
            let mut text = String::from_str("Running ");
            text.append(format_index(index + 1).as_str());
            text.append("/");
            text.append(format_index(total).as_str());
            text.append(" commands ");
            text.append(counts.as_str());
            StyledText::new(text).color_range(1, 0, Some(20)).color_range(
                2,
                31,
                Some(plus(31, s)),
            ).color_range(3, plus(42, s), Some(plus(plus(42, f), 1))).color_range(
                1,
                plus(54, f),
                Some(plus(plus(54, p), 1)),
            )
        },
        None => {
            if state.all_commands_exited() {
                let mut text = String::from_str("Done running commands. ");
                text.append(counts.as_str());
                StyledText::new(text).color_range(1, 0, Some(22)).color_range(
                    2,
                    33,
                    Some(plus(33, s)),
                ).color_range(3, plus(44, s), Some(plus(plus(44, f), 1))).color_range(
                    1,
                    plus(56, f),
                    Some(plus(plus(56, p), 1)),
                )
            } else {
                let mut text = String::from_str("Running commands. ");
                text.append(counts.as_str());
                StyledText::new(text).color_range(1, 0, Some(17)).color_range(
                    2,
                    plus(27, s),
                    Some(plus(plus(27, s), 1)),
                ).color_range(3, plus(39, s), Some(plus(40, f))).color_range(
                    1,
                    plus(51, f),
                    Some(plus(plus(51, p), 1)),
                )
            }
        },
    }
}

/// The line of a command in the list: the command line, and what is known
/// of its run.
pub open spec fn command_title(command: CommandView, is_running: bool, now: u64)
    -> StyledTextView {
    let len = command.command_line.len() as int;
    let named = command.command_line;
    if is_running {
        StyledTextView::plain(
            named + " (Running for "@ + decimal(
                elapsed_seconds(command.start_time, None, now) as nat,
            ) + "s)"@,
        ).color_range(0, 0, Some(clip(len + 1))).color_range(1, clip(len + 1), None)
    } else if let Some(status) = command.exit_status {
        StyledTextView::plain(
            named + " [EXIT CODE: "@ + signed_decimal(status as int) + "]"@,
        ).color_range(0, 0, Some(clip(len + 1))).color_range(
            if status == 0 {
                2
            } else {
                3
            },
            clip(len + 13),
            Some(clip(len + 14)),
        )
    } else if command.exited {
        StyledTextView::plain(named + " [EXITED]"@).color_range(
            0,
            0,
            Some(clip(len + 1)),
        ).color_range(3, clip(len + 2), Some(clip(len + 8)))
    } else if command.pane_closed_by_user {
        StyledTextView::plain(named + " [CLOSED]"@).color_range(
            0,
            0,
            Some(clip(len + 1)),
        ).color_range(3, clip(len + 2), Some(clip(len + 8)))
    } else {
        StyledTextView::plain(named).color_range(0, 0, Some(clip(len + 1)))
    }
}

/// The line under a selected command that tells how long it has run.
pub open spec fn duration_line(command: CommandView, is_running: bool, now: u64)
    -> StyledTextView {
    let seconds = decimal(elapsed_seconds(command.start_time, command.end_time, now) as nat);
    StyledTextView::plain(
        if is_running {
            "Running for: "@ + seconds + "s"@
        } else {
            "Done after: "@ + seconds + "s"@
        },
    ).indent(1).selected()
}

/// The line under a selected command that tells what Tab does.
pub open spec fn hint_line(command: CommandView) -> StyledTextView {
    StyledTextView::plain(
        if command.pane_id is Some {
            "<TAB> - open terminal"@
        } else {
            "<TAB> - re-run in new terminal"@
        },
    ).color_range(2, 0, Some(5)).indent(1).selected()
}

/// The lines of a command in the list: one, or three where it is selected.
pub open spec fn command_lines_of(
    command: CommandView,
    is_running: bool,
    is_selected: bool,
    now: u64,
) -> Seq<StyledTextView> {
    if is_selected {
        seq![
            command_title(command, is_running, now).selected(),
            duration_line(command, is_running, now),
            hint_line(command),
        ]
    } else {
        seq![command_title(command, is_running, now)]
    }
}

/// The line of a command in the list.
fn render_command_title(command: &Command, is_running: bool, now: u64) -> (title: StyledText)
    ensures
        title@ == command_title(command@, is_running, now),
{
    let len = command.command_line.as_str().unicode_len();
    let mut text = command.command_line.clone();
    if is_running {
        text.append(" (Running for ");
        text.append(format_number(seconds_between(command.start_time, None, now)).as_str());
        text.append("s)");
        StyledText::new(text).color_range(0, 0, Some(plus(len, 1))).color_range(
            1,
            plus(len, 1),
            None,
        )
    } else {
        match command.exit_status {
            Some(status) => {
                text.append(" [EXIT CODE: ");
                text.append(format_status(status).as_str());
                text.append("]");
                let color: usize = if status == 0 {
                    2
                } else {
                    3
                };
                StyledText::new(text).color_range(0, 0, Some(plus(len, 1))).color_range(
                    color,
                    plus(len, 13),
                    Some(plus(len, 14)),
                )
            },
            None => {
                if command.exited {
                    text.append(" [EXITED]");
                    StyledText::new(text).color_range(0, 0, Some(plus(len, 1))).color_range(
                        3,
                        plus(len, 2),
                        Some(plus(len, 8)),
                    )
                } else if command.pane_closed_by_user {
                    text.append(" [CLOSED]");
                    StyledText::new(text).color_range(0, 0, Some(plus(len, 1))).color_range(
                        3,
                        plus(len, 2),
                        Some(plus(len, 8)),
                    )
                } else {
                    StyledText::new(text).color_range(0, 0, Some(plus(len, 1)))
                }
            },
        }
    }
}

/// The lines of a command in the list: its line, and, where it is
/// selected, how long it has run and what Tab does.
pub fn render_command(command: &Command, is_running: bool, is_selected: bool, now: u64) -> (lines:
    Vec<StyledText>)
    ensures
        text_views(lines@) == command_lines_of(command@, is_running, is_selected, now),
{
    let title = render_command_title(command, is_running, now);
    let mut lines: Vec<StyledText> = Vec::new();
    if is_selected {
        let seconds = format_number(seconds_between(command.start_time, command.end_time, now));
        let mut duration = if is_running {
            String::from_str("Running for: ")
        } else {
            String::from_str("Done after: ")
        };
        duration.append(seconds.as_str());
        duration.append("s");
        let hint = if command.pane_id.is_some() {
            String::from_str("<TAB> - open terminal")
        } else {
            String::from_str("<TAB> - re-run in new terminal")
        };
        lines.push(title.selected());
        lines.push(StyledText::new(duration).indent(1).selected());
        lines.push(StyledText::new(hint).color_range(2, 0, Some(5)).indent(1).selected());
    } else {
        lines.push(title);
    }
    lines
}

/// The lines of the list: those of each command in order, the command
/// under the cursor being selected.
pub open spec fn list_of(state: StateView, now: u64) -> Seq<StyledTextView>
    decreases state.commands.len(),
{
    if state.commands.len() == 0 {
        Seq::empty()
    } else {
        let last = state.commands.len() - 1;
        let command = state.commands.last();
        list_of(StateView { commands: state.commands.drop_last(), ..state }, now)
            + command_lines_of(
            command,
            command.is_running(),
            state.selected matches Some(i) && i == last,
            now,
        )
    }
}

/// The seconds that the run has taken: from the start of the first command
/// to the end of the last one, each taken as `now` where it is absent.
pub open spec fn run_seconds(state: StateView, now: u64) -> u64 {
    if state.commands.len() == 0 {
        0
    } else {
        elapsed_seconds(state.commands.first().start_time, state.commands.last().end_time, now)
    }
}

/// The seconds that the run has taken.
pub fn total_run_time(state: &State, now: u64) -> (seconds: u64)
    ensures
        seconds == run_seconds(state@, now),
{
    let commands = state.commands();
    if commands.len() == 0 {
        0
    } else {
        let first = &commands[0];
        let last = &commands[commands.len() - 1];
        seconds_between(first.start_time, last.end_time, now)
    }
}

/// The status line: the seconds that the run has taken, the shell and the
/// working directory.
pub open spec fn status_of(state: StateView, now: u64) -> StyledTextView {
    let seconds = decimal(run_seconds(state, now) as nat);
    let t = seconds.len() as int;
    let s = state.shell.len() as int;
    let f = state.folder.len() as int;
    StyledTextView::plain(
        "Elapsed: "@ + seconds + "s Shell: "@ + state.shell + " Folder: "@ + state.folder,
    ).color_range(1, 9, Some(clip(10 + t))).color_range(
        1,
        clip(18 + t),
        Some(clip(19 + t + s)),
    ).color_range(1, clip(26 + t + s), Some(clip(27 + t + s + f)))
}

/// The status line.
pub fn render_status(state: &State, now: u64) -> (status: StyledText)
    ensures
        status@ == status_of(state@, now),
{
    let seconds = format_number(total_run_time(state, now));
    let t = seconds.as_str().unicode_len();
    let s = state.shell().as_str().unicode_len();
    let f = state.folder().as_str().unicode_len();
    let mut text = String::from_str("Elapsed: ");
    text.append(seconds.as_str());
    text.append("s Shell: ");
    text.append(state.shell().as_str());
    text.append(" Folder: ");
    text.append(state.folder().as_str());
    StyledText::new(text).color_range(1, 9, Some(plus(10, t))).color_range(
        1,
        plus(18, t),
        Some(plus(plus(19, t), s)),
    ).color_range(1, plus(plus(26, t), s), Some(plus(plus(plus(27, t), s), f)))
}

/// What a piece of the help line is drawn as.
#[derive(Clone, Copy, Debug, PartialEq, Eq, Structural)]
pub enum Shape {
    Text,
    Ribbon,
}

/// A text at its place on the screen.
#[derive(Clone, Debug, PartialEq, Eq)]
pub struct Placed {
    pub shape: Shape,
    pub text: StyledText,
    pub x: usize,
    pub y: usize,
}

/// The mathematical value of a [`Placed`].
pub struct PlacedView {
    pub shape: Shape,
    pub text: StyledTextView,
    pub x: usize,
    pub y: usize,
}

impl View for Placed {
    type V = PlacedView;

    open spec fn view(&self) -> PlacedView {
        PlacedView { shape: self.shape, text: self.text@, x: self.x, y: self.y }
    }
}

/// The values of a list of placed texts, in order.
pub open spec fn placed_views(items: Seq<Placed>) -> Seq<PlacedView> {
    Seq::new(items.len(), |i: int| items[i]@)
}

/// The name of a key in the help line, coloured throughout.
pub open spec fn key_label(name: Seq<char>, x: usize, y: usize) -> PlacedView {
    PlacedView {
        shape: Shape::Text,
        text: StyledTextView::plain(name).color_range(2, 0, None),
        x,
        y,
    }
}

/// What a key does, in the help line; selected while the setting is on.
pub open spec fn key_ribbon(name: Seq<char>, on: bool, x: usize, y: usize) -> PlacedView {
    PlacedView {
        shape: Shape::Ribbon,
        text: if on {
            StyledTextView::plain(name).selected()
        } else {
            StyledTextView::plain(name)
        },
        x,
        y,
    }
}

/// The line below the commands at which the help stands.
pub open spec fn help_line(state: StateView) -> usize {
    clip(8 + state.commands.len() as int)
}

/// The help line: each key with what it does, from left to right.
pub open spec fn help_of(state: StateView) -> Seq<PlacedView> {
    let y = help_line(state);
    seq![
        key_label("ENTER"@, 1, y),
        key_ribbon("Restart"@, false, 7, y),
        key_label("SPACE"@, 19, y),
        key_ribbon("Pause After Command"@, state.paused, 25, y),
        key_label("f"@, 49, y),
        key_ribbon("Stop on Failure"@, state.stop_on_failure, 51, y),
    ]
}

/// The name of a key in the help line.
fn help_label(name: &str, x: usize, y: usize) -> (placed: Placed)
    ensures
        placed@ == key_label(name@, x, y),
{
    Placed {
        shape: Shape::Text,
        text: StyledText::new(String::from_str(name)).color_range(2, 0, None),
        x,
        y,
    }
}

/// What a key does, in the help line.
fn help_ribbon(name: &str, on: bool, x: usize, y: usize) -> (placed: Placed)
    ensures
        placed@ == key_ribbon(name@, on, x, y),
{
    let text = StyledText::new(String::from_str(name));
    Placed {
        shape: Shape::Ribbon,
        text: if on {
            text.selected()
        } else {
            text
        },
        x,
        y,
    }
}

/// The help line: Enter restarts, Space pauses after the command, `f`
/// stops on failure.
pub fn render_help(state: &State) -> (help: Vec<Placed>)
    ensures
        placed_views(help@) == help_of(state@),
{
    let commands = state.commands();
    let y = plus(8, commands.len());
    let mut help: Vec<Placed> = Vec::new();
    help.push(help_label("ENTER", 1, y));
    help.push(help_ribbon("Restart", false, 7, y));
    help.push(help_label("SPACE", 19, y));
    help.push(help_ribbon("Pause After Command", state.is_paused(), 25, y));
    help.push(help_label("f", 49, y));
    help.push(help_ribbon("Stop on Failure", state.stops_on_failure(), 51, y));
    help
}

/// Everything that is shown: the title at column 1 of line 1, the list
/// from column 0 of line 3 with the width of the screen, the status line,
/// and the help line.
#[derive(Clone, Debug, PartialEq, Eq)]
pub struct Frame {
    pub title: Placed,
    pub list: Vec<StyledText>,
    pub list_x: usize,
    pub list_y: usize,
    pub list_width: usize,
    pub status: Placed,
    pub help: Vec<Placed>,
}

/// The mathematical value of a [`Frame`].
pub struct FrameView {
    pub title: PlacedView,
    pub list: Seq<StyledTextView>,
    pub list_x: usize,
    pub list_y: usize,
    pub list_width: usize,
    pub status: PlacedView,
    pub help: Seq<PlacedView>,
}

impl View for Frame {
    type V = FrameView;

    open spec fn view(&self) -> FrameView {
        FrameView {
            title: self.title@,
            list: text_views(self.list@),
            list_x: self.list_x,
            list_y: self.list_y,
            list_width: self.list_width,
            status: self.status@,
            help: placed_views(self.help@),
        }
    }
}

/// What is shown of a state at time `now` on a screen of `cols` columns.
pub open spec fn frame_of(state: StateView, cols: usize, now: u64) -> FrameView {
    FrameView {
        title: PlacedView { shape: Shape::Text, text: title_of(state), x: 1, y: 1 },
        list: list_of(state, now),
        list_x: 0,
        list_y: 3,
        list_width: cols,
        status: PlacedView {
            shape: Shape::Text,
            text: status_of(state, now),
            x: 1,
            y: clip(6 + state.commands.len() as int),
        },
        help: help_of(state),
    }
}

/// The lines of the list.
fn render_list(state: &State, now: u64) -> (list: Vec<StyledText>)
    ensures
        text_views(list@) == list_of(state@, now),
{
    let commands = state.commands();
    let selected = state.selected_index();
    let mut list: Vec<StyledText> = Vec::new();
    let mut i: usize = 0;
    while i < commands.len()
        invariant
            i <= commands.len(),
            views(commands@) == state@.commands,
            selected == state@.selected,
            text_views(list@) == list_of(
                StateView { commands: state@.commands.take(i as int), ..state@ },
                now,
            ),
        decreases commands.len() - i,
    {
        let ghost before = StateView { commands: state@.commands.take(i as int), ..state@ };
        let ghost after = StateView { commands: state@.commands.take(i as int + 1), ..state@ };
        assert(after.commands.drop_last() =~= before.commands);
        let command = &commands[i];
        let is_selected = match selected {
            Some(s) => s == i,
            None => false,
        };
        let mut lines = render_command(command, command.is_running(), is_selected, now);
        list.append(&mut lines);
        i += 1;
    }
    assert(state@.commands.take(i as int) =~= state@.commands);
    list
}

/// Everything that is shown of the state at time `now`, for a screen of
/// `cols` columns.
pub fn render(state: &State, cols: usize, now: u64) -> (frame: Frame)
    requires
        state.wf(),
    ensures
        frame@ == frame_of(state@, cols, now),
{
    let commands = state.commands();
    Frame {
        title: Placed { shape: Shape::Text, text: render_title(state), x: 1, y: 1 },
        list: render_list(state, now),
        list_x: 0,
        list_y: 3,
        list_width: cols,
        status: Placed {
            shape: Shape::Text,
            text: render_status(state, now),
            x: 1,
            y: plus(6, commands.len()),
        },
        help: render_help(state),
    }
}

} // verus!
