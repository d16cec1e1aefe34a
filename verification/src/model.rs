//! The sequencer as mathematics: the value of the state, and for every
//! event the state that follows and the requests that go to the host.

use crate::action::{ActionView, EventKind, Permission, SessionRequestView};
use crate::command::{CommandView, PaneId};
use crate::config::{
    configured_command_lines, configured_completion_titles, configured_folder, configured_shell,
    configured_stop_on_failure,
};
use crate::context::{context_of, correlation_of, entries_view, value_of, Correlation};
use crate::event::{inventory_view, BareKey, Event, Key};
use crate::text::{joined, split, trimmed};
use vstd::prelude::*;

verus! {

/// The value of a session that is to run again once the sequence is done:
/// its title, and its handle as last seen in the host's inventory.
pub struct CompletionPaneView {
    pub title: Seq<char>,
    pub pane: Option<PaneId>,
}

/// The value of the sequencer's state.
pub struct StateView {
    /// The epoch of the current run.
    pub epoch: usize,
    /// The commands, in the order in which they run.
    pub commands: Seq<CommandView>,
    /// The editor sessions that are open.
    pub edit_panes: Seq<u32>,
    pub shell: Seq<char>,
    pub folder: Seq<char>,
    /// The index of the command that the sequencer has started last.
    pub running: Option<usize>,
    /// The index under the user's cursor.
    pub selected: Option<usize>,
    pub paused: bool,
    pub stop_on_failure: bool,
    pub completion_panes: Seq<CompletionPaneView>,
}

/// A state together with the requests that led to it.
pub struct Step {
    pub state: StateView,
    pub actions: Seq<ActionView>,
}

/// What the sequencer decides when asked to go on.
#[derive(Clone, Copy, Debug, PartialEq, Eq, Structural)]
pub enum Decision {
    /// The run is paused: nothing happens.
    Paused,
    /// The current command failed and failures stop the run.
    HaltOnFailure,
    /// The command at this index starts.
    Start(usize),
    /// No command is left and every one succeeded.
    Complete,
    /// No command is left and not every one succeeded.
    EndedWithFailures,
}

/// For a command with a session: reveal it if the command counts as failed,
/// hide it if the command exited with the success code.
pub open spec fn triage_of(command: CommandView) -> Seq<ActionView> {
    match command.pane_id {
        Some(pane) => if command.failed() {
            seq![ActionView::ShowSession(pane)]
        } else {
            seq![ActionView::HideSession(pane)]
        },
        None => Seq::empty(),
    }
}

/// The failure-triage view: the session of every failed command revealed,
/// that of every successful one hidden, in the order of the commands.
/// Commands without a session ask nothing.
pub open spec fn triage_actions(commands: Seq<CommandView>) -> Seq<ActionView>
    decreases commands.len(),
{
    if commands.len() == 0 {
        Seq::empty()
    } else {
        triage_actions(commands.drop_last()) + triage_of(commands.last())
    }
}

/// For a command with a terminal session: close it.
pub open spec fn close_of(command: CommandView) -> Seq<ActionView> {
    match command.pane_id {
        Some(PaneId::Terminal(id)) => seq![ActionView::CloseSession(id)],
        _ => Seq::empty(),
    }
}

/// Every terminal session of the commands closed, in their order.
pub open spec fn close_actions(commands: Seq<CommandView>) -> Seq<ActionView>
    decreases commands.len(),
{
    if commands.len() == 0 {
        Seq::empty()
    } else {
        close_actions(commands.drop_last()) + close_of(commands.last())
    }
}

/// For a completion session with a known terminal handle: run it again.
pub open spec fn rerun_of(pane: CompletionPaneView) -> Seq<ActionView> {
    match pane.pane {
        Some(PaneId::Terminal(id)) => seq![ActionView::RerunSession(id)],
        _ => Seq::empty(),
    }
}

/// Every completion session with a known handle run again, in their order.
pub open spec fn rerun_actions(panes: Seq<CompletionPaneView>) -> Seq<ActionView>
    decreases panes.len(),
{
    if panes.len() == 0 {
        Seq::empty()
    } else {
        rerun_actions(panes.drop_last()) + rerun_of(panes.last())
    }
}

/// The index of the first command that is bound to the session.
pub open spec fn first_bound_to(commands: Seq<CommandView>, pane: PaneId) -> Option<int>
    decreases commands.len(),
{
    if commands.len() == 0 {
        None
    } else if commands[0].pane_id == Some(pane) {
        Some(0)
    } else {
        match first_bound_to(commands.skip(1), pane) {
            Some(i) => Some(i + 1),
            None => None,
        }
    }
}

/// `panes` without any occurrence of `id`.
pub open spec fn without_pane(panes: Seq<u32>, id: u32) -> Seq<u32>
    decreases panes.len(),
{
    if panes.len() == 0 {
        panes
    } else if panes.last() == id {
        without_pane(panes.drop_last(), id)
    } else {
        without_pane(panes.drop_last(), id).push(panes.last())
    }
}

/// The lines that hold at least one character, in order.
pub open spec fn nonempty_lines(lines: Seq<Seq<char>>) -> Seq<Seq<char>>
    decreases lines.len(),
{
    if lines.len() == 0 {
        lines
    } else if lines.last().len() == 0 {
        nonempty_lines(lines.drop_last())
    } else {
        nonempty_lines(lines.drop_last()).push(lines.last())
    }
}

/// One pending command for each command line.
pub open spec fn pending_commands(lines: Seq<Seq<char>>) -> Seq<CommandView> {
    Seq::new(lines.len(), |i: int| CommandView::pending(lines[i]))
}

/// The commands that an edited text holds: one for each non-empty line of
/// the text without its surrounding whitespace.
pub open spec fn edited_commands(text: Seq<char>) -> Seq<CommandView> {
    pending_commands(nonempty_lines(split(trimmed(text), seq!['\n'])))
}

/// The command lines, in order.
pub open spec fn command_lines(commands: Seq<CommandView>) -> Seq<Seq<char>> {
    Seq::new(commands.len(), |i: int| commands[i].command_line)
}

/// Every command back in its pending state.
pub open spec fn reset_all(commands: Seq<CommandView>) -> Seq<CommandView> {
    Seq::new(commands.len(), |i: int| commands[i].reset())
}

/// The handle of the last session of the inventory with the given title.
pub open spec fn last_with_title(panes: Seq<(Seq<char>, u32)>, title: Seq<char>) -> Option<u32>
    decreases panes.len(),
{
    if panes.len() == 0 {
        None
    } else if panes.last().0 == title {
        Some(panes.last().1)
    } else {
        last_with_title(panes.drop_last(), title)
    }
}

/// A completion session after an inventory: bound to the last session that
/// bears its title, unchanged where none does.
pub open spec fn observed(pane: CompletionPaneView, inventory: Seq<(Seq<char>, u32)>)
    -> CompletionPaneView {
    match last_with_title(inventory, pane.title) {
        Some(id) => CompletionPaneView { pane: Some(PaneId::Terminal(id)), ..pane },
        None => pane,
    }
}

/// One completion session without a handle for each title.
pub open spec fn unbound_panes(titles: Seq<Seq<char>>) -> Seq<CompletionPaneView> {
    Seq::new(titles.len(), |i: int| CompletionPaneView { title: titles[i], pane: None })
}

/// What is asked of the host at startup: the capabilities, the events, and
/// the timer.
pub open spec fn startup_actions() -> Seq<ActionView> {
    seq![
        ActionView::RequestPermissions(permissions()),
        ActionView::Subscribe(subscriptions()),
        ActionView::SetTimer,
    ]
}

/// The key that marks the context of an editor session.
pub open spec fn marker_key() -> Seq<char> {
    "edit_pane_marker"@
}

/// The context that marks an editor session.
pub open spec fn marker_context() -> Seq<(Seq<char>, Seq<char>)> {
    seq![(marker_key(), Seq::<char>::empty())]
}

/// The capabilities that the sequencer asks for.
pub open spec fn permissions() -> Seq<Permission> {
    seq![
        Permission::ReadApplicationState,
        Permission::ChangeApplicationState,
        Permission::RunCommands,
        Permission::OpenFiles,
    ]
}

/// The kinds of events that the sequencer asks for.
pub open spec fn subscriptions() -> Seq<EventKind> {
    seq![
        EventKind::PermissionRequestResult,
        EventKind::CommandPaneOpened,
        EventKind::CommandPaneExited,
        EventKind::CommandPaneReRun,
        EventKind::EditPaneOpened,
        EventKind::EditPaneExited,
        EventKind::Key,
        EventKind::Timer,
        EventKind::PaneClosed,
        EventKind::PaneUpdate,
    ]
}

impl StateView {
    /// The state before anything is loaded.
    pub open spec fn initial() -> StateView {
        StateView {
            epoch: 0,
            commands: Seq::empty(),
            edit_panes: Seq::empty(),
            shell: Seq::empty(),
            folder: Seq::empty(),
            running: None,
            selected: None,
            paused: false,
            stop_on_failure: false,
            completion_panes: Seq::empty(),
        }
    }

    /// The state that a configuration describes: its commands, all
    /// pending, its completion sessions, none yet seen, and its settings.
    pub open spec fn loaded(config: Seq<(Seq<char>, Seq<char>)>) -> StateView {
        StateView {
            commands: pending_commands(configured_command_lines(config)),
            completion_panes: unbound_panes(configured_completion_titles(config)),
            shell: configured_shell(config),
            folder: configured_folder(config),
            stop_on_failure: configured_stop_on_failure(config),
            ..StateView::initial()
        }
    }

    /// The running index designates a command, no command has an exit
    /// status before it has exited, and no two completion sessions bear the
    /// same title.
    pub open spec fn wf(self) -> bool {
        &&& self.running matches Some(i) ==> i < self.commands.len()
        &&& forall|i: int|
            0 <= i < self.commands.len() ==> (#[trigger] self.commands[i]).consistent()
        &&& forall|i: int, j: int|
            0 <= i < j < self.completion_panes.len() ==> self.completion_panes[i].title
                != self.completion_panes[j].title
    }

    /// Every command has left the running state.
    pub open spec fn all_over(self) -> bool {
        forall|i: int| 0 <= i < self.commands.len() ==> (#[trigger] self.commands[i]).is_over()
    }

    /// Every command has the success code as its exit status.
    pub open spec fn all_succeeded(self) -> bool {
        forall|i: int| 0 <= i < self.commands.len() ==> (#[trigger] self.commands[i]).succeeded()
    }

    /// The command that the sequencer started last counts as failed.
    pub open spec fn current_command_failed(self) -> bool {
        match self.running {
            Some(i) => i < self.commands.len() && self.commands[i as int].failed(),
            None => false,
        }
    }

    /// The state with one command replaced.
    pub open spec fn with_command(self, index: int, command: CommandView) -> StateView {
        StateView { commands: self.commands.update(index, command), ..self }
    }

    /// The state at the start of the next run: no command running, the
    /// epoch one higher.
    pub open spec fn next_run(self, commands: Seq<CommandView>) -> StateView {
        StateView { commands, running: None, epoch: (self.epoch + 1) as usize, ..self }
    }

    /// The request that starts the command at `index`: the shell with the
    /// command line as its script, in the working directory, stamped with
    /// the index and the current epoch.
    pub open spec fn session_request(self, index: usize) -> SessionRequestView {
        SessionRequestView {
            shell: self.shell,
            args: seq!["-ic"@, self.commands[index as int].command_line],
            folder: self.folder,
            context: context_of(Correlation { command_index: index, epoch: self.epoch }),
        }
    }

    /// What ends a successful run: the completion sessions run again, the
    /// commands' sessions close, and the sequencer closes itself.
    pub open spec fn run_end_actions(self) -> Seq<ActionView> {
        rerun_actions(self.completion_panes) + close_actions(self.commands)
            + seq![ActionView::CloseSelf]
    }

    /// The sequencer's decision. It reads the two flags, the running index
    /// and the commands, and nothing else.
    pub open spec fn decision(self) -> Decision {
        if self.paused {
            Decision::Paused
        } else if self.current_command_failed() && self.stop_on_failure {
            Decision::HaltOnFailure
        } else {
            let next: int = match self.running {
                Some(i) => i + 1,
                None => 0,
            };
            if next < self.commands.len() {
                Decision::Start(next as usize)
            } else if self.all_succeeded() {
                Decision::Complete
            } else {
                Decision::EndedWithFailures
            }
        }
    }

    /// The sequencer goes on: it carries out its decision.
    pub open spec fn advance(self) -> Step {
        match self.decision() {
            Decision::Paused => Step { state: self, actions: Seq::empty() },
            Decision::HaltOnFailure => Step {
                state: self,
                actions: triage_actions(self.commands),
            },
            Decision::Start(next) => Step {
                state: StateView { running: Some(next), ..self },
                actions: seq![ActionView::StartSession(self.session_request(next))],
            },
            Decision::Complete => Step {
                state: StateView { running: None, ..self },
                actions: self.run_end_actions(),
            },
            Decision::EndedWithFailures => Step {
                state: StateView { running: None, ..self },
                actions: triage_actions(self.commands),
            },
        }
    }

    /// Nothing changes and nothing is asked of the host.
    pub open spec fn unchanged(self) -> Step {
        Step { state: self, actions: Seq::empty() }
    }

    /// An event of an earlier run: nothing changes, and the event is
    /// reported.
    pub open spec fn stale(self) -> Step {
        Step { state: self, actions: seq![ActionView::ReportStaleEvent] }
    }

    /// The host confirms a command session.
    pub open spec fn command_pane_opened(
        self,
        pane_id: u32,
        context: Seq<(Seq<char>, Seq<char>)>,
        now: u64,
    ) -> Step {
        match correlation_of(context) {
            Some(c) => if c.epoch != self.epoch {
                self.stale()
            } else if c.command_index < self.commands.len() {
                let index = c.command_index as int;
                Step {
                    state: self.with_command(index, self.commands[index].opened(pane_id, now)),
                    actions: Seq::empty(),
                }
            } else {
                self.unchanged()
            },
            None => self.unchanged(),
        }
    }

    /// Whether the confirmation of a command session changes what is shown.
    pub open spec fn command_pane_opened_renders(
        self,
        context: Seq<(Seq<char>, Seq<char>)>,
    ) -> bool {
        match correlation_of(context) {
            Some(c) => c.epoch == self.epoch && c.command_index < self.commands.len(),
            None => false,
        }
    }

    /// The host reports the end of a command session.
    pub open spec fn command_pane_exited(
        self,
        exit_code: Option<i32>,
        context: Seq<(Seq<char>, Seq<char>)>,
        now: u64,
    ) -> Step {
        match correlation_of(context) {
            Some(c) => if c.epoch != self.epoch {
                self.stale()
            } else if c.command_index < self.commands.len() {
                let index = c.command_index as int;
                let recorded = self.with_command(
                    index,
                    self.commands[index].finished(exit_code, now),
                );
                if self.running == Some(c.command_index) {
                    recorded.advance()
                } else if recorded.all_succeeded() {
                    Step { state: recorded, actions: recorded.run_end_actions() }
                } else {
                    recorded.unchanged()
                }
            } else {
                self.unchanged()
            },
            None => self.unchanged(),
        }
    }

    /// The commands after the user closed a session: the first command
    /// bound to it is reset and marked as closed by the user.
    pub open spec fn close_bound_command(self, pane: PaneId) -> StateView {
        match first_bound_to(self.commands, pane) {
            Some(i) => self.with_command(i, self.commands[i].closed_by_user()),
            None => self,
        }
    }

    /// An editor session is over: it leaves the list of open editors, and
    /// the edited text is asked for.
    pub open spec fn editor_session_over(self, pane_id: u32) -> Step {
        Step {
            state: StateView { edit_panes: without_pane(self.edit_panes, pane_id), ..self },
            actions: seq![ActionView::ReadEditFile],
        }
    }

    /// The user closed a session.
    pub open spec fn pane_closed(self, pane: PaneId) -> Step {
        let closed = self.close_bound_command(pane);
        match pane {
            PaneId::Terminal(id) => if closed.edit_panes.contains(id) {
                closed.editor_session_over(id)
            } else {
                closed.unchanged()
            },
            PaneId::Plugin(_) => closed.unchanged(),
        }
    }

    /// An editor session opened.
    pub open spec fn edit_pane_opened(self, pane_id: u32, context: Seq<(Seq<char>, Seq<char>)>)
        -> Step {
        if value_of(context, marker_key()) is Some {
            Step {
                state: StateView { edit_panes: self.edit_panes.push(pane_id), ..self },
                actions: Seq::empty(),
            }
        } else {
            self.unchanged()
        }
    }

    /// An editor session ended.
    pub open spec fn edit_pane_exited(self, pane_id: u32, context: Seq<(Seq<char>, Seq<char>)>)
        -> Step {
        if value_of(context, marker_key()) is Some {
            self.editor_session_over(pane_id)
        } else {
            self.unchanged()
        }
    }

    /// The edited text arrived, or could not be read. With a text: every
    /// session closes, the commands are replaced, a new run starts, and the
    /// file is removed. Without: nothing changes.
    pub open spec fn editor_closed(self, contents: Option<Seq<char>>) -> Step {
        match contents {
            Some(text) => {
                let started = self.next_run(edited_commands(text)).advance();
                Step {
                    state: started.state,
                    actions: close_actions(self.commands) + started.actions
                        + seq![ActionView::RemoveEditFile],
                }
            },
            None => self.unchanged(),
        }
    }

    /// The user asks for the editor: the command lines are written out.
    pub open spec fn open_editor(self) -> Step {
        Step {
            state: self,
            actions: seq![
                ActionView::WriteEditFile(joined(command_lines(self.commands), seq!['\n'])),
            ],
        }
    }

    /// The run starts over: every session closes, every command is reset,
    /// and a new run starts.
    pub open spec fn restart_run(self) -> Step {
        let started = self.next_run(reset_all(self.commands)).advance();
        Step { state: started.state, actions: close_actions(self.commands) + started.actions }
    }

    /// The cursor moves down: from none to the first command, past the last
    /// to none.
    pub open spec fn move_selection_down(self) -> StateView {
        let selected = match self.selected {
            None => if self.commands.len() > 0 {
                Some(0usize)
            } else {
                None
            },
            Some(i) => if i + 1 < self.commands.len() {
                Some((i + 1) as usize)
            } else {
                None
            },
        };
        StateView { selected, ..self }
    }

    /// The cursor moves up: from none to the last command, past the first to
    /// none.
    pub open spec fn move_selection_up(self) -> StateView {
        let selected = match self.selected {
            None => if self.commands.len() > 0 {
                Some((self.commands.len() - 1) as usize)
            } else {
                None
            },
            Some(i) => if i > 0 {
                Some((i - 1) as usize)
            } else {
                None
            },
        };
        StateView { selected, ..self }
    }

    /// The user asks for the selected command: its session comes to the
    /// foreground, or, where it has none, the command is reset and started
    /// outside the sequence.
    pub open spec fn focus_selected(self) -> Step {
        match self.selected {
            Some(i) => if i < self.commands.len() {
                match self.commands[i as int].pane_id {
                    Some(PaneId::Terminal(id)) => Step {
                        state: self,
                        actions: seq![ActionView::FocusSession(id)],
                    },
                    _ => Step {
                        state: self.with_command(i as int, self.commands[i as int].reset()),
                        actions: seq![ActionView::StartSession(self.session_request(i))],
                    },
                }
            } else {
                self.unchanged()
            },
            None => self.unchanged(),
        }
    }

    /// The sequencer goes on unless every command is over.
    pub open spec fn resume(self) -> Step {
        if self.all_over() {
            self.unchanged()
        } else {
            self.advance()
        }
    }

    /// The user flips the pause flag. Switching it off resumes the run.
    pub open spec fn toggle_pause(self) -> Step {
        let flipped = StateView { paused: !self.paused, ..self };
        if flipped.paused {
            flipped.unchanged()
        } else {
            flipped.resume()
        }
    }

    /// The user flips the stop-on-failure flag. Switching it off resumes the
    /// run.
    pub open spec fn toggle_stop_on_failure(self) -> Step {
        let flipped = StateView { stop_on_failure: !self.stop_on_failure, ..self };
        if flipped.stop_on_failure {
            flipped.unchanged()
        } else {
            flipped.resume()
        }
    }

    /// The host answers the request for capabilities. Granted while no
    /// command runs, it starts a run under a new epoch.
    pub open spec fn permission_result(self, granted: bool) -> Step {
        if granted && self.running is None {
            StateView { epoch: (self.epoch + 1) as usize, ..self }.advance()
        } else {
            self.unchanged()
        }
    }

    /// The outcome of writing the file of editable commands is known: where
    /// it was written, the editor opens on it, marked as such.
    pub open spec fn edit_file_written(self, written: bool) -> Step {
        if written {
            Step { state: self, actions: seq![ActionView::OpenEditor(marker_context())] }
        } else {
            self.unchanged()
        }
    }

    /// A key was pressed. Only keys without modifiers count.
    pub open spec fn key_pressed(self, key: Key) -> Step {
        if !key.no_modifiers {
            self.unchanged()
        } else {
            match key.bare_key {
                BareKey::Down => self.move_selection_down().unchanged(),
                BareKey::Up => self.move_selection_up().unchanged(),
                BareKey::Tab => self.focus_selected(),
                BareKey::Enter => self.restart_run(),
                BareKey::Char(c) => if c == ' ' {
                    self.toggle_pause()
                } else if c == 'f' {
                    self.toggle_stop_on_failure()
                } else if c == 'e' {
                    self.open_editor()
                } else {
                    self.unchanged()
                },
                BareKey::Other => self.unchanged(),
            }
        }
    }

    /// Whether the event starts a new run, and so needs a free epoch.
    pub open spec fn starts_run(self, event: Event) -> bool {
        match event {
            Event::PermissionRequestResult(granted) => granted && self.running is None,
            Event::Key(key) => key.no_modifiers && key.bare_key == BareKey::Enter,
            _ => false,
        }
    }

    /// The state and the requests that follow from an event at time `now`.
    pub open spec fn update(self, event: Event, now: u64) -> Step {
        match event {
            Event::PaneUpdate(panes) => self.pane_update(inventory_view(panes@)).unchanged(),
            Event::Timer => Step { state: self, actions: seq![ActionView::SetTimer] },
            Event::PermissionRequestResult(granted) => self.permission_result(granted),
            Event::CommandPaneOpened(pane_id, context) => self.command_pane_opened(
                pane_id,
                entries_view(context@),
                now,
            ),
            Event::CommandPaneExited(_, exit_code, context) => self.command_pane_exited(
                exit_code,
                entries_view(context@),
                now,
            ),
            Event::CommandPaneReRun(pane_id, context) => self.command_pane_opened(
                pane_id,
                entries_view(context@),
                now,
            ),
            Event::EditPaneOpened(pane_id, context) => self.edit_pane_opened(
                pane_id,
                entries_view(context@),
            ),
            Event::EditPaneExited(pane_id, _, context) => self.edit_pane_exited(
                pane_id,
                entries_view(context@),
            ),
            Event::PaneClosed(pane) => self.pane_closed(pane),
            Event::Key(key) => self.key_pressed(key),
            Event::Other => self.unchanged(),
        }
    }

    /// Whether what is shown has to be drawn again after the event.
    pub open spec fn renders(self, event: Event) -> bool {
        match event {
            Event::PaneUpdate(_) => false,
            Event::Timer => true,
            Event::PermissionRequestResult(_) => true,
            Event::CommandPaneOpened(_, context) => self.command_pane_opened_renders(
                entries_view(context@),
            ),
            Event::CommandPaneExited(_, _, _) => true,
            Event::CommandPaneReRun(_, context) => self.command_pane_opened_renders(
                entries_view(context@),
            ),
            Event::EditPaneOpened(_, _) => false,
            Event::EditPaneExited(_, _, _) => false,
            Event::PaneClosed(pane) => first_bound_to(self.commands, pane) is Some,
            Event::Key(key) => key.no_modifiers && match key.bare_key {
                BareKey::Down => true,
                BareKey::Up => true,
                BareKey::Tab => true,
                BareKey::Enter => true,
                BareKey::Char(c) => c == ' ' || c == 'f' || c == 'e',
                BareKey::Other => false,
            },
            Event::Other => false,
        }
    }

    /// The host reports its inventory: each completion session learns the
    /// handle of the last session that bears its title.
    pub open spec fn pane_update(self, inventory: Seq<(Seq<char>, u32)>) -> StateView {
        StateView {
            completion_panes: Seq::new(
                self.completion_panes.len(),
                |i: int| observed(self.completion_panes[i], inventory),
            ),
            ..self
        }
    }
}

} // verus!
