//! The sequencer's state and the handlers that move it from event to event.

use crate::action::{
    action_views, append_actions, Action, ActionView, EventKind, Permission, SessionRequest,
};
use crate::command::{views, Command, CommandView, PaneId};
use crate::config::{
    admitted_node_names, configured_completion_titles, lemma_distinct,
    parse_commands_from_configuration, parse_other_configuration,
    parse_panes_to_run_on_completion_from_configuration, trimmed_all,
};
use crate::context::{entries_view, lookup, same_text, value_of, Correlation, Entry};
use crate::epoch::RunEpoch;
use crate::event::{inventory_view, BareKey, Event, Key, PaneInfo};
use crate::model::{
    close_actions, command_lines, edited_commands, first_bound_to, last_with_title,
    marker_context, marker_key, nonempty_lines, observed, pending_commands, permissions,
    rerun_actions, reset_all, startup_actions, subscriptions, triage_actions,
    unbound_panes, without_pane, CompletionPaneView, Decision, StateView,
};
use crate::text::{join, joined, split, split_on, string_views, trim, trimmed};
use vstd::prelude::*;
use vstd::string::*;

verus! {

/// A session that is to run again once the sequence is done.
#[derive(Clone, Debug, PartialEq, Eq)]
pub struct CompletionPane {
    pub title: String,
    pub pane: Option<PaneId>,
}

impl View for CompletionPane {
    type V = CompletionPaneView;

    open spec fn view(&self) -> CompletionPaneView {
        CompletionPaneView { title: self.title@, pane: self.pane }
    }
}

/// The values of a list of completion sessions, in order.
pub open spec fn pane_views(panes: Seq<CompletionPane>) -> Seq<CompletionPaneView> {
    Seq::new(panes.len(), |i: int| panes[i]@)
}

/// The sequencer's state: one aggregate that every handler takes by
/// exclusive reference.
#[derive(Debug)]
pub struct State {
    current_run_index: RunEpoch,
    commands_to_run: Vec<Command>,
    active_edit_pane_ids: Vec<u32>,
    shell: String,
    folder: String,
    running_command_index: Option<usize>,
    selected_index: Option<usize>,
    paused: bool,
    stop_on_failure: bool,
    panes_to_run_on_completion: Vec<CompletionPane>,
}

impl View for State {
    type V = StateView;

    closed spec fn view(&self) -> StateView {
        StateView {
            epoch: self.current_run_index@,
            commands: views(self.commands_to_run@),
            edit_panes: self.active_edit_pane_ids@,
            shell: self.shell@,
            folder: self.folder@,
            running: self.running_command_index,
            selected: self.selected_index,
            paused: self.paused,
            stop_on_failure: self.stop_on_failure,
            completion_panes: pane_views(self.panes_to_run_on_completion@),
        }
    }
}

/// The requests of the failure-triage view: the session of every failed
/// command is revealed, that of every command that exited with the success
/// code is hidden.
pub fn show_failed_commands(commands: &Vec<Command>) -> (actions: Vec<Action>)
    ensures
        action_views(actions@) == triage_actions(views(commands@)),
{
    let mut actions: Vec<Action> = Vec::new();
    let mut i: usize = 0;
    while i < commands.len()
        invariant
            i <= commands.len(),
            action_views(actions@) == triage_actions(views(commands@).take(i as int)),
        decreases commands.len() - i,
    {
        assert(views(commands@).take(i as int + 1).drop_last() =~= views(commands@).take(
            i as int,
        ));
        let command = &commands[i];
        match command.pane_id {
            Some(pane) => {
                let action = if command.failed() {
                    Action::ShowSession(pane)
                } else {
                    Action::HideSession(pane)
                };
                actions.push(action);
            },
            None => {},
        }
        i += 1;
    }
    assert(views(commands@).take(i as int) =~= views(commands@));
    actions
}

/// The requests that close every terminal session of the commands.
pub fn kill_all_commands(commands: &Vec<Command>) -> (actions: Vec<Action>)
    ensures
        action_views(actions@) == close_actions(views(commands@)),
{
    let mut actions: Vec<Action> = Vec::new();
    let mut i: usize = 0;
    while i < commands.len()
        invariant
            i <= commands.len(),
            action_views(actions@) == close_actions(views(commands@).take(i as int)),
        decreases commands.len() - i,
    {
        assert(views(commands@).take(i as int + 1).drop_last() =~= views(commands@).take(
            i as int,
        ));
        match commands[i].pane_id {
            Some(PaneId::Terminal(id)) => {
                actions.push(Action::CloseSession(id));
            },
            _ => {},
        }
        i += 1;
    }
    assert(views(commands@).take(i as int) =~= views(commands@));
    actions
}

/// The requests that run the completion sessions again.
fn rerun_completion_panes(panes: &Vec<CompletionPane>) -> (actions: Vec<Action>)
    ensures
        action_views(actions@) == rerun_actions(pane_views(panes@)),
{
    let mut actions: Vec<Action> = Vec::new();
    let mut i: usize = 0;
    while i < panes.len()
        invariant
            i <= panes.len(),
            action_views(actions@) == rerun_actions(pane_views(panes@).take(i as int)),
        decreases panes.len() - i,
    {
        assert(pane_views(panes@).take(i as int + 1).drop_last() =~= pane_views(panes@).take(
            i as int,
        ));
        match panes[i].pane {
            Some(PaneId::Terminal(id)) => {
                actions.push(Action::RerunSession(id));
            },
            _ => {},
        }
        i += 1;
    }
    assert(pane_views(panes@).take(i as int) =~= pane_views(panes@));
    actions
}

/// No requests.
fn no_actions() -> (actions: Vec<Action>)
    ensures
        action_views(actions@) == Seq::<ActionView>::empty(),
{
    Vec::new()
}

/// One request.
fn one_action(action: Action) -> (actions: Vec<Action>)
    ensures
        action_views(actions@) == seq![action@],
{
    let mut actions: Vec<Action> = Vec::new();
    actions.push(action);
    actions
}

/// Whether the context marks an editor session.
fn has_marker(context: &Vec<Entry>) -> (marked: bool)
    ensures
        marked == (value_of(entries_view(context@), marker_key()) is Some),
{
    lookup(context, "edit_pane_marker").is_some()
}

/// The commands of an edited text: one for each non-empty line of the text
/// without its surrounding whitespace.
pub fn commands_from_edited(text: &str) -> (commands: Vec<Command>)
    ensures
        views(commands@) == edited_commands(text@),
{
    let body = trim(text);
    proof {
        reveal_strlit("\n");
        assert("\n"@ =~= seq!['\n']);
    }
    let lines = split_on(body.as_str(), "\n");
    let ghost all = split(trimmed(text@), seq!['\n']);
    let mut commands: Vec<Command> = Vec::new();
    let mut i: usize = 0;
    while i < lines.len()
        invariant
            i <= lines.len(),
            string_views(lines@) == all,
            views(commands@) == pending_commands(nonempty_lines(all.take(i as int))),
        decreases lines.len() - i,
    {
        let ghost before = all.take(i as int);
        let ghost after = all.take(i as int + 1);
        assert(after.drop_last() =~= before);
        if lines[i].as_str().unicode_len() > 0 {
            let ghost old_commands = commands@;
            commands.push(Command::new(lines[i].as_str()));
            assert(views(commands@) =~= views(old_commands).push(
                CommandView::pending(after.last()),
            ));
        }
        i += 1;
    }
    assert(all.take(i as int) =~= all);
    commands
}

/// The file of editable commands: the command lines, one per line.
fn command_lines_text(commands: &Vec<Command>) -> (text: String)
    ensures
        text@ == joined(command_lines(views(commands@)), seq!['\n']),
{
    let mut lines: Vec<String> = Vec::new();
    let mut i: usize = 0;
    while i < commands.len()
        invariant
            i <= commands.len(),
            string_views(lines@) == command_lines(views(commands@)).take(i as int),
        decreases commands.len() - i,
    {
        let ghost before = lines@;
        let line = commands[i].command_line.clone();
        lines.push(line);
        i += 1;
        assert(string_views(lines@) =~= string_views(before).push(line@));
    }
    proof {
        reveal_strlit("\n");
        assert("\n"@ =~= seq!['\n']);
        assert(command_lines(views(commands@)).take(i as int) =~= command_lines(
            views(commands@),
        ));
    }
    join(&lines, "\n")
}

/// Returns every command to its pending state.
fn reset_commands(commands: &mut Vec<Command>)
    ensures
        views(final(commands)@) == reset_all(views(old(commands)@)),
{
    let mut i: usize = 0;
    while i < commands.len()
        invariant
            i <= commands.len(),
            commands.len() == old(commands).len(),
            forall|k: int| 0 <= k < i ==> (#[trigger] commands@[k])@ == old(commands)@[k]@.reset(),
            forall|k: int|
                i <= k < commands.len() ==> (#[trigger] commands@[k]) == old(commands)@[k],
        decreases commands.len() - i,
    {
        commands[i].reset();
        i += 1;
    }
}

/// The handle of the last session of the inventory with the given title.
fn find_last_with_title(inventory: &Vec<PaneInfo>, title: &str) -> (found: Option<u32>)
    ensures
        found == last_with_title(inventory_view(inventory@), title@),
{
    let mut i: usize = inventory.len();
    assert(inventory_view(inventory@).take(i as int) =~= inventory_view(inventory@));
    while i > 0
        invariant
            i <= inventory.len(),
            last_with_title(inventory_view(inventory@), title@) == last_with_title(
                inventory_view(inventory@).take(i as int),
                title@,
            ),
        decreases i,
    {
        let ghost seen = inventory_view(inventory@).take(i as int);
        assert(seen.drop_last() =~= inventory_view(inventory@).take(i as int - 1));
        i -= 1;
        if same_text(inventory[i].title.as_str(), title) {
            return Some(inventory[i].id);
        }
    }
    None
}

/// Each completion session learns the handle of the last session of the
/// inventory that bears its title.
fn observe_inventory(panes: &mut Vec<CompletionPane>, inventory: &Vec<PaneInfo>)
    ensures
        final(panes).len() == old(panes).len(),
        forall|k: int|
            0 <= k < old(panes).len() ==> (#[trigger] final(panes)@[k])@ == observed(
                old(panes)@[k]@,
                inventory_view(inventory@),
            ),
{
    let mut i: usize = 0;
    while i < panes.len()
        invariant
            i <= panes.len(),
            panes.len() == old(panes).len(),
            forall|k: int|
                0 <= k < i ==> (#[trigger] panes@[k])@ == observed(
                    old(panes)@[k]@,
                    inventory_view(inventory@),
                ),
            forall|k: int| i <= k < panes.len() ==> (#[trigger] panes@[k]) == old(panes)@[k],
        decreases panes.len() - i,
    {
        match find_last_with_title(inventory, panes[i].title.as_str()) {
            Some(id) => {
                panes[i].pane = Some(PaneId::Terminal(id));
            },
            None => {},
        }
        i += 1;
    }
}

/// One completion session without a handle for each title.
fn completion_panes_from(titles: Vec<String>) -> (panes: Vec<CompletionPane>)
    ensures
        pane_views(panes@) == unbound_panes(string_views(titles@)),
{
    let mut panes: Vec<CompletionPane> = Vec::new();
    let mut i: usize = 0;
    while i < titles.len()
        invariant
            i <= titles.len(),
            panes.len() == i,
            forall|k: int|
                0 <= k < i ==> (#[trigger] panes@[k])@ == (CompletionPaneView {
                    title: titles@[k]@,
                    pane: None,
                }),
        decreases titles.len() - i,
    {
        panes.push(CompletionPane { title: titles[i].clone(), pane: None });
        i += 1;
    }
    panes
}

/// The capabilities that the sequencer asks for.
fn permission_list() -> (list: Vec<Permission>)
    ensures
        list@ == permissions(),
{
    let mut list: Vec<Permission> = Vec::new();
    list.push(Permission::ReadApplicationState);
    list.push(Permission::ChangeApplicationState);
    list.push(Permission::RunCommands);
    list.push(Permission::OpenFiles);
    list
}

/// The kinds of events that the sequencer asks for.
fn subscription_list() -> (list: Vec<EventKind>)
    ensures
        list@ == subscriptions(),
{
    let mut list: Vec<EventKind> = Vec::new();
    list.push(EventKind::PermissionRequestResult);
    list.push(EventKind::CommandPaneOpened);
    list.push(EventKind::CommandPaneExited);
    list.push(EventKind::CommandPaneReRun);
    list.push(EventKind::EditPaneOpened);
    list.push(EventKind::EditPaneExited);
    list.push(EventKind::Key);
    list.push(EventKind::Timer);
    list.push(EventKind::PaneClosed);
    list.push(EventKind::PaneUpdate);
    list
}

/// The index of the first command that is bound to the session.
fn find_bound(commands: &Vec<Command>, pane_id: PaneId) -> (found: Option<usize>)
    ensures
        match found {
            Some(i) => i < commands.len() && first_bound_to(views(commands@), pane_id) == Some(
                i as int,
            ),
            None => first_bound_to(views(commands@), pane_id) is None,
        },
{
    let mut i: usize = 0;
    assert(views(commands@).skip(0) =~= views(commands@));
    while i < commands.len()
        invariant
            i <= commands.len(),
            first_bound_to(views(commands@), pane_id) == match first_bound_to(
                views(commands@).skip(i as int),
                pane_id,
            ) {
                Some(k) => Some(k + i),
                None => None,
            },
        decreases commands.len() - i,
    {
        assert(views(commands@).skip(i as int).skip(1) =~= views(commands@).skip(i as int + 1));
        let bound = match commands[i].pane_id {
            Some(pane) => pane == pane_id,
            None => false,
        };
        if bound {
            return Some(i);
        }
        i += 1;
    }
    None
}

/// Whether `id` is among the panes.
fn contains_pane(panes: &Vec<u32>, id: u32) -> (found: bool)
    ensures
        found == panes@.contains(id),
{
    let mut i: usize = 0;
    while i < panes.len()
        invariant
            i <= panes.len(),
            forall|j: int| 0 <= j < i ==> panes@[j] != id,
        decreases panes.len() - i,
    {
        if panes[i] == id {
            return true;
        }
        i += 1;
    }
    false
}

/// Removes every occurrence of `id`.
fn remove_pane(panes: &mut Vec<u32>, id: u32)
    ensures
        final(panes)@ == without_pane(old(panes)@, id),
{
    let mut kept: Vec<u32> = Vec::new();
    let mut i: usize = 0;
    while i < panes.len()
        invariant
            i <= panes.len(),
            kept@ == without_pane(panes@.take(i as int), id),
        decreases panes.len() - i,
    {
        assert(panes@.take(i as int + 1).drop_last() =~= panes@.take(i as int));
        if panes[i] != id {
            kept.push(panes[i]);
        }
        i += 1;
    }
    assert(panes@.take(i as int) =~= panes@);
    *panes = kept;
}

/// No title of a configuration occurs twice.
proof fn lemma_titles_distinct(config: Seq<(Seq<char>, Seq<char>)>)
    ensures
        forall|i: int, j: int|
            0 <= i < j < configured_completion_titles(config).len()
                ==> configured_completion_titles(config)[i] != configured_completion_titles(
                config,
            )[j],
{
    match value_of(config, "panes_to_run_on_completion"@) {
        Some(text) => match admitted_node_names(text) {
            Some(names) => {
                lemma_distinct(trimmed_all(names));
            },
            None => {},
        },
        None => {},
    }
}

impl Default for State {
    /// The state before anything is loaded.
    fn default() -> (state: State)
        ensures
            state@ == StateView::initial(),
            state.wf(),
    {
        State::new()
    }
}

/// The text as a sequence of characters, where there is one.
pub open spec fn text_view(text: Option<&str>) -> Option<Seq<char>> {
    match text {
        Some(text) => Some(text@),
        None => None,
    }
}

impl State {
    /// The running index designates a command, no command has an exit
    /// status before it has exited, and no two completion sessions bear the
    /// same title.
    pub open spec fn wf(&self) -> bool {
        self@.wf()
    }

    /// The state before anything is loaded: no commands, epoch zero.
    pub fn new() -> (state: State)
        ensures
            state@ == StateView::initial(),
            state.wf(),
    {
        let state = State {
            current_run_index: RunEpoch::new(),
            commands_to_run: Vec::new(),
            active_edit_pane_ids: Vec::new(),
            shell: String::new(),
            folder: String::new(),
            running_command_index: None,
            selected_index: None,
            paused: false,
            stop_on_failure: false,
            panes_to_run_on_completion: Vec::new(),
        };
        assert(state@.commands =~= Seq::empty());
        assert(state@.completion_panes =~= Seq::empty());
        state
    }

    /// The state that a configuration describes, and what is asked of the
    /// host at startup. No run starts before the host grants the
    /// capabilities.
    pub fn load(configuration: &Vec<Entry>) -> (result: (State, Vec<Action>))
        ensures
            result.0.wf(),
            result.0@ == StateView::loaded(entries_view(configuration@)),
            action_views(result.1@) == startup_actions(),
    {
        let commands = parse_commands_from_configuration(configuration);
        let titles = parse_panes_to_run_on_completion_from_configuration(configuration);
        let (shell, folder, stop_on_failure) = parse_other_configuration(configuration);
        proof {
            lemma_titles_distinct(entries_view(configuration@));
        }
        let state = State {
            current_run_index: RunEpoch::new(),
            commands_to_run: commands,
            active_edit_pane_ids: Vec::new(),
            shell,
            folder,
            running_command_index: None,
            selected_index: None,
            paused: false,
            stop_on_failure,
            panes_to_run_on_completion: completion_panes_from(titles),
        };
        let mut actions: Vec<Action> = Vec::new();
        actions.push(Action::RequestPermissions(permission_list()));
        actions.push(Action::Subscribe(subscription_list()));
        actions.push(Action::SetTimer);
        (state, actions)
    }

    /// Whether every command has left the running state.
    pub fn all_commands_exited(&self) -> (all: bool)
        ensures
            all == self@.all_over(),
    {
        let mut i: usize = 0;
        while i < self.commands_to_run.len()
            invariant
                i <= self.commands_to_run.len(),
                forall|j: int| 0 <= j < i ==> (#[trigger] self@.commands[j]).is_over(),
            decreases self.commands_to_run.len() - i,
        {
            if !self.commands_to_run[i].is_over() {
                assert(!self@.commands[i as int].is_over());
                return false;
            }
            i += 1;
        }
        true
    }

    /// Whether every command has the success code as its exit status.
    pub fn all_commands_exited_successfully(&self) -> (all: bool)
        ensures
            all == self@.all_succeeded(),
    {
        let mut i: usize = 0;
        while i < self.commands_to_run.len()
            invariant
                i <= self.commands_to_run.len(),
                forall|j: int| 0 <= j < i ==> (#[trigger] self@.commands[j]).succeeded(),
            decreases self.commands_to_run.len() - i,
        {
            if !self.commands_to_run[i].succeeded() {
                assert(!self@.commands[i as int].succeeded());
                return false;
            }
            i += 1;
        }
        true
    }

    /// Whether the command that the sequencer started last counts as failed.
    pub fn current_command_failed(&self) -> (failed: bool)
        ensures
            failed == self@.current_command_failed(),
    {
        match self.running_command_index {
            Some(i) => i < self.commands_to_run.len() && self.commands_to_run[i].failed(),
            None => false,
        }
    }

    /// What the sequencer would do if asked to go on now.
    pub fn decision(&self) -> (decision: Decision)
        requires
            self.wf(),
        ensures
            decision == self@.decision(),
    {
        if self.paused {
            return Decision::Paused;
        }
        if self.current_command_failed() && self.stop_on_failure {
            return Decision::HaltOnFailure;
        }
        assert(self@.commands.len() == self.commands_to_run.len());
        let next: usize = match self.running_command_index {
            Some(i) => i + 1,
            None => 0,
        };
        if next < self.commands_to_run.len() {
            Decision::Start(next)
        } else if self.all_commands_exited_successfully() {
            Decision::Complete
        } else {
            Decision::EndedWithFailures
        }
    }

    /// The request that starts the command at `index`, stamped with the
    /// index and the current epoch.
    fn run_command(&self, index: usize) -> (action: Action)
        requires
            index < self@.commands.len(),
        ensures
            action@ == ActionView::StartSession(self@.session_request(index)),
    {
        let mut args: Vec<String> = Vec::new();
        args.push(String::from_str("-ic"));
        args.push(self.commands_to_run[index].command_line.clone());
        let correlation = Correlation {
            command_index: index,
            epoch: self.current_run_index.current(),
        };
        let request = SessionRequest {
            shell: self.shell.clone(),
            args,
            folder: self.folder.clone(),
            context: correlation.to_context(),
        };
        assert(request@.args =~= self@.session_request(index).args);
        Action::StartSession(request)
    }

    /// The requests that end a successful run: the completion sessions run
    /// again, the commands' sessions close, and the sequencer closes itself.
    pub fn handle_run_end(&self) -> (actions: Vec<Action>)
        ensures
            action_views(actions@) == self@.run_end_actions(),
    {
        let mut actions = rerun_completion_panes(&self.panes_to_run_on_completion);
        append_actions(&mut actions, kill_all_commands(&self.commands_to_run));
        actions.push(Action::CloseSelf);
        actions
    }

    /// The sequencer goes on: unless paused or halted by a failure, it
    /// starts the next command, or, where none is left, ends the run.
    pub fn run_next_command(&mut self) -> (actions: Vec<Action>)
        requires
            old(self).wf(),
        ensures
            final(self).wf(),
            final(self)@ == old(self)@.advance().state,
            action_views(actions@) == old(self)@.advance().actions,
    {
        match self.decision() {
            Decision::Paused => {
                let actions: Vec<Action> = Vec::new();
                actions
            },
            Decision::HaltOnFailure => show_failed_commands(&self.commands_to_run),
            Decision::Start(next) => {
                let action = self.run_command(next);
                self.running_command_index = Some(next);
                let mut actions: Vec<Action> = Vec::new();
                actions.push(action);
                actions
            },
            Decision::Complete => {
                let actions = self.handle_run_end();
                self.running_command_index = None;
                actions
            },
            Decision::EndedWithFailures => {
                self.running_command_index = None;
                show_failed_commands(&self.commands_to_run)
            },
        }
    }

    /// The host confirms a command session. Where the event belongs to the
    /// current run and to a command, the command is bound to the session
    /// and counts as running from `now`. The flag tells whether what is
    /// shown has changed.
    pub fn handle_command_pane_opened(
        &mut self,
        terminal_pane_id: u32,
        context: &Vec<Entry>,
        now: u64,
    ) -> (result: (bool, Vec<Action>))
        requires
            old(self).wf(),
        ensures
            final(self).wf(),
            final(self)@ == old(self)@.command_pane_opened(
                terminal_pane_id,
                entries_view(context@),
                now,
            ).state,
            action_views(result.1@) == old(self)@.command_pane_opened(
                terminal_pane_id,
                entries_view(context@),
                now,
            ).actions,
            result.0 == old(self)@.command_pane_opened_renders(entries_view(context@)),
    {
        match Correlation::from_context(context) {
            Some(correlation) => {
                if !self.current_run_index.is_current(correlation.epoch) {
                    (false, one_action(Action::ReportStaleEvent))
                } else if correlation.command_index < self.commands_to_run.len() {
                    let index = correlation.command_index;
                    self.commands_to_run[index].pane_id = Some(PaneId::Terminal(terminal_pane_id));
                    self.commands_to_run[index].start_time = Some(now);
                    self.commands_to_run[index].end_time = None;
                    assert(self@.commands =~= old(self)@.commands.update(
                        index as int,
                        old(self)@.commands[index as int].opened(terminal_pane_id, now),
                    ));
                    (true, no_actions())
                } else {
                    (false, no_actions())
                }
            },
            None => (false, no_actions()),
        }
    }

    /// The host reports the end of a command session. Where the event
    /// belongs to the current run and to a command, the exit is recorded.
    /// If that command is the one the sequencer started last, the sequencer
    /// goes on; otherwise the run ends if every command has now succeeded.
    pub fn handle_command_pane_exited(
        &mut self,
        exit_code: Option<i32>,
        context: &Vec<Entry>,
        now: u64,
    ) -> (actions: Vec<Action>)
        requires
            old(self).wf(),
        ensures
            final(self).wf(),
            final(self)@ == old(self)@.command_pane_exited(
                exit_code,
                entries_view(context@),
                now,
            ).state,
            action_views(actions@) == old(self)@.command_pane_exited(
                exit_code,
                entries_view(context@),
                now,
            ).actions,
    {
        match Correlation::from_context(context) {
            Some(correlation) => {
                if !self.current_run_index.is_current(correlation.epoch) {
                    one_action(Action::ReportStaleEvent)
                } else if correlation.command_index < self.commands_to_run.len() {
                    let index = correlation.command_index;
                    self.commands_to_run[index].exit_status = exit_code;
                    self.commands_to_run[index].exited = true;
                    self.commands_to_run[index].end_time = Some(now);
                    assert(self@.commands =~= old(self)@.commands.update(
                        index as int,
                        old(self)@.commands[index as int].finished(exit_code, now),
                    ));
                    if self.running_command_index == Some(index) {
                        self.run_next_command()
                    } else if self.all_commands_exited_successfully() {
                        self.handle_run_end()
                    } else {
                        no_actions()
                    }
                } else {
                    no_actions()
                }
            },
            None => no_actions(),
        }
    }

    /// An editor session is over: it leaves the list of open editors, and
    /// the edited text is asked for.
    fn editor_session_over(&mut self, pane_id: u32) -> (actions: Vec<Action>)
        requires
            old(self).wf(),
        ensures
            final(self).wf(),
            final(self)@ == old(self)@.editor_session_over(pane_id).state,
            action_views(actions@) == old(self)@.editor_session_over(pane_id).actions,
    {
        remove_pane(&mut self.active_edit_pane_ids, pane_id);
        one_action(Action::ReadEditFile)
    }

    /// The user closed a session. The first command bound to it is reset
    /// and marked as closed by the user; the sequence does not go on by
    /// itself. If the session was an editor, the edited text is asked for.
    /// The flag tells whether a command was bound to the session.
    pub fn handle_pane_closed(&mut self, pane_id: PaneId) -> (result: (bool, Vec<Action>))
        requires
            old(self).wf(),
        ensures
            final(self).wf(),
            final(self)@ == old(self)@.pane_closed(pane_id).state,
            action_views(result.1@) == old(self)@.pane_closed(pane_id).actions,
            result.0 == (first_bound_to(old(self)@.commands, pane_id) is Some),
    {
        let should_render = match find_bound(&self.commands_to_run, pane_id) {
            Some(i) => {
                self.commands_to_run[i].reset();
                self.commands_to_run[i].pane_closed_by_user = true;
                assert(self@.commands =~= old(self)@.commands.update(
                    i as int,
                    old(self)@.commands[i as int].closed_by_user(),
                ));
                true
            },
            None => false,
        };
        let actions = match pane_id {
            PaneId::Terminal(terminal_pane_id) => {
                if contains_pane(&self.active_edit_pane_ids, terminal_pane_id) {
                    self.editor_session_over(terminal_pane_id)
                } else {
                    no_actions()
                }
            },
            PaneId::Plugin(_) => no_actions(),
        };
        (should_render, actions)
    }

    /// An editor session opened. It is noted if its context bears the
    /// marker.
    pub fn handle_edit_pane_opened(&mut self, terminal_pane_id: u32, context: &Vec<Entry>)
        requires
            old(self).wf(),
        ensures
            final(self).wf(),
            final(self)@ == old(self)@.edit_pane_opened(
                terminal_pane_id,
                entries_view(context@),
            ).state,
    {
        if has_marker(context) {
            self.active_edit_pane_ids.push(terminal_pane_id);
        }
    }

    /// An editor session ended. If its context bears the marker, it leaves
    /// the list of open editors and the edited text is asked for.
    pub fn handle_edit_pane_exited(
        &mut self,
        terminal_pane_id: u32,
        context: &Vec<Entry>,
    ) -> (actions: Vec<Action>)
        requires
            old(self).wf(),
        ensures
            final(self).wf(),
            final(self)@ == old(self)@.edit_pane_exited(
                terminal_pane_id,
                entries_view(context@),
            ).state,
            action_views(actions@) == old(self)@.edit_pane_exited(
                terminal_pane_id,
                entries_view(context@),
            ).actions,
    {
        if has_marker(context) {
            self.editor_session_over(terminal_pane_id)
        } else {
            no_actions()
        }
    }

    /// Starts a run under the next epoch with the commands as they stand:
    /// no command counts as running, and the sequencer goes on.
    fn start_next_run(&mut self) -> (actions: Vec<Action>)
        requires
            old(self)@.epoch < usize::MAX,
            old(self)@.next_run(old(self)@.commands).wf(),
        ensures
            final(self).wf(),
            final(self)@ == old(self)@.next_run(old(self)@.commands).advance().state,
            action_views(actions@) == old(self)@.next_run(old(self)@.commands).advance().actions,
    {
        self.running_command_index = None;
        self.current_run_index.advance();
        self.run_next_command()
    }

    /// The edited text arrived (`Some`), or could not be read (`None`).
    /// With a text, every session closes, the commands are replaced by
    /// those of the text, a new run starts under the next epoch, and the
    /// file is removed. Without, nothing changes.
    pub fn handle_editor_closed(&mut self, contents: Option<&str>) -> (actions: Vec<Action>)
        requires
            old(self).wf(),
            contents is Some ==> old(self)@.epoch < usize::MAX,
        ensures
            final(self).wf(),
            final(self)@ == old(self)@.editor_closed(text_view(contents)).state,
            action_views(actions@) == old(self)@.editor_closed(text_view(contents)).actions,
    {
        match contents {
            Some(new_commands) => {
                let mut actions = kill_all_commands(&self.commands_to_run);
                self.commands_to_run = commands_from_edited(new_commands);
                let started = self.start_next_run();
                append_actions(&mut actions, started);
                actions.push(Action::RemoveEditFile);
                actions
            },
            None => no_actions(),
        }
    }

    /// The user asks for the editor: the command lines are to be written
    /// to the file of editable commands, one per line.
    pub fn open_editor(&self) -> (actions: Vec<Action>)
        ensures
            action_views(actions@) == self@.open_editor().actions,
    {
        one_action(Action::WriteEditFile(command_lines_text(&self.commands_to_run)))
    }

    /// The outcome of writing the file of editable commands is known.
    /// Where it was written, the editor opens on it, with the marker in
    /// its context; where not, nothing is asked.
    pub fn handle_edit_file_written(&self, written: bool) -> (actions: Vec<Action>)
        ensures
            action_views(actions@) == self@.edit_file_written(written).actions,
    {
        if written {
            let mut context: Vec<Entry> = Vec::new();
            context.push(Entry { key: String::from_str("edit_pane_marker"), value: String::new() });
            assert(entries_view(context@) =~= marker_context());
            one_action(Action::OpenEditor(context))
        } else {
            no_actions()
        }
    }

    /// The run starts over: every session closes, every command returns to
    /// its pending state, and a new run starts under the next epoch.
    pub fn restart_run(&mut self) -> (actions: Vec<Action>)
        requires
            old(self).wf(),
            old(self)@.epoch < usize::MAX,
        ensures
            final(self).wf(),
            final(self)@ == old(self)@.restart_run().state,
            action_views(actions@) == old(self)@.restart_run().actions,
    {
        let mut actions = kill_all_commands(&self.commands_to_run);
        reset_commands(&mut self.commands_to_run);
        let started = self.start_next_run();
        append_actions(&mut actions, started);
        actions
    }

    /// Moves the cursor down: from none to the first command, and past the
    /// last command to none.
    pub fn move_selection_down(&mut self)
        requires
            old(self).wf(),
        ensures
            final(self).wf(),
            final(self)@ == old(self)@.move_selection_down(),
    {
        let len = self.commands_to_run.len();
        self.selected_index = match self.selected_index {
            None => if len > 0 {
                Some(0)
            } else {
                None
            },
            Some(current) => if len > 0 && current < len - 1 {
                Some(current + 1)
            } else {
                None
            },
        };
    }

    /// Moves the cursor up: from none to the last command, and past the
    /// first command to none.
    pub fn move_selection_up(&mut self)
        requires
            old(self).wf(),
        ensures
            final(self).wf(),
            final(self)@ == old(self)@.move_selection_up(),
    {
        let len = self.commands_to_run.len();
        self.selected_index = match self.selected_index {
            None => if len > 0 {
                Some(len - 1)
            } else {
                None
            },
            Some(current) => if current > 0 {
                Some(current - 1)
            } else {
                None
            },
        };
    }

    /// The command under the cursor, where the cursor designates one.
    pub fn get_focused_command(&self) -> (focused: Option<&Command>)
        ensures
            match focused {
                Some(command) => self@.selected matches Some(i) && i < self@.commands.len()
                    && command@ == self@.commands[i as int],
                None => !(self@.selected matches Some(i) && i < self@.commands.len()),
            },
    {
        match self.selected_index {
            Some(selected) => {
                if selected < self.commands_to_run.len() {
                    Some(&self.commands_to_run[selected])
                } else {
                    None
                }
            },
            None => None,
        }
    }

    /// The user asks for the selected command. Where it has a terminal
    /// session, that session comes to the foreground. Where it has none,
    /// the command is reset and started outside the sequence, stamped with
    /// its index and the current epoch; the sequencer's own index stays.
    pub fn focus_selected_terminal(&mut self) -> (actions: Vec<Action>)
        requires
            old(self).wf(),
        ensures
            final(self).wf(),
            final(self)@ == old(self)@.focus_selected().state,
            action_views(actions@) == old(self)@.focus_selected().actions,
    {
        match self.selected_index {
            Some(selected) => {
                if selected < self.commands_to_run.len() {
                    match self.commands_to_run[selected].pane_id {
                        Some(PaneId::Terminal(pane_id)) => one_action(
                            Action::FocusSession(pane_id),
                        ),
                        _ => {
                            let action = self.run_command(selected);
                            self.commands_to_run[selected].reset();
                            assert(self@.commands =~= old(self)@.commands.update(
                                selected as int,
                                old(self)@.commands[selected as int].reset(),
                            ));
                            one_action(action)
                        },
                    }
                } else {
                    no_actions()
                }
            },
            None => no_actions(),
        }
    }

    /// The sequencer goes on unless every command is over.
    fn resume(&mut self) -> (actions: Vec<Action>)
        requires
            old(self).wf(),
        ensures
            final(self).wf(),
            final(self)@ == old(self)@.resume().state,
            action_views(actions@) == old(self)@.resume().actions,
    {
        if self.all_commands_exited() {
            no_actions()
        } else {
            self.run_next_command()
        }
    }

    /// Flips the pause flag. Switching it off resumes the run unless every
    /// command is over.
    pub fn toggle_pause(&mut self) -> (actions: Vec<Action>)
        requires
            old(self).wf(),
        ensures
            final(self).wf(),
            final(self)@ == old(self)@.toggle_pause().state,
            action_views(actions@) == old(self)@.toggle_pause().actions,
    {
        self.paused = !self.paused;
        if self.paused {
            no_actions()
        } else {
            self.resume()
        }
    }

    /// Flips the stop-on-failure flag. Switching it off resumes the run
    /// unless every command is over.
    pub fn toggle_stop_on_failure(&mut self) -> (actions: Vec<Action>)
        requires
            old(self).wf(),
        ensures
            final(self).wf(),
            final(self)@ == old(self)@.toggle_stop_on_failure().state,
            action_views(actions@) == old(self)@.toggle_stop_on_failure().actions,
    {
        self.stop_on_failure = !self.stop_on_failure;
        if self.stop_on_failure {
            no_actions()
        } else {
            self.resume()
        }
    }

    /// The host answers the request for capabilities. Granted while no
    /// command runs, it starts a run under the next epoch.
    pub fn handle_permission_result(&mut self, granted: bool) -> (actions: Vec<Action>)
        requires
            old(self).wf(),
            granted && old(self)@.running is None ==> old(self)@.epoch < usize::MAX,
        ensures
            final(self).wf(),
            final(self)@ == old(self)@.permission_result(granted).state,
            action_views(actions@) == old(self)@.permission_result(granted).actions,
    {
        if granted && self.running_command_index.is_none() {
            self.current_run_index.advance();
            self.run_next_command()
        } else {
            no_actions()
        }
    }

    /// The host reports its inventory. Each completion session learns the
    /// handle of the last session that bears its title.
    pub fn log_pane_ids_as_needed(&mut self, panes: &Vec<PaneInfo>)
        requires
            old(self).wf(),
        ensures
            final(self).wf(),
            final(self)@ == old(self)@.pane_update(inventory_view(panes@)),
    {
        observe_inventory(&mut self.panes_to_run_on_completion, panes);
        assert(self@.completion_panes =~= old(self)@.pane_update(
            inventory_view(panes@),
        ).completion_panes);
    }

    /// A key was pressed. Only keys without modifiers count: Down and Up
    /// move the cursor, Tab asks for the selected command, Enter starts the
    /// run over, Space flips the pause flag, `f` flips the stop-on-failure
    /// flag, and `e` asks for the editor.
    pub fn handle_key(&mut self, key: Key) -> (actions: Vec<Action>)
        requires
            old(self).wf(),
            key.no_modifiers && key.bare_key == BareKey::Enter ==> old(self)@.epoch < usize::MAX,
        ensures
            final(self).wf(),
            final(self)@ == old(self)@.key_pressed(key).state,
            action_views(actions@) == old(self)@.key_pressed(key).actions,
    {
        if !key.no_modifiers {
            return no_actions();
        }
        match key.bare_key {
            BareKey::Down => {
                self.move_selection_down();
                no_actions()
            },
            BareKey::Up => {
                self.move_selection_up();
                no_actions()
            },
            BareKey::Tab => self.focus_selected_terminal(),
            BareKey::Enter => self.restart_run(),
            BareKey::Char(c) => {
                if c == ' ' {
                    self.toggle_pause()
                } else if c == 'f' {
                    self.toggle_stop_on_failure()
                } else if c == 'e' {
                    self.open_editor()
                } else {
                    no_actions()
                }
            },
            BareKey::Other => no_actions(),
        }
    }

    /// Takes one event of the host, at time `now` of the caller's clock.
    /// Returns whether what is shown has to be drawn again, and the
    /// requests to send to the host, in order.
    pub fn update(&mut self, event: &Event, now: u64) -> (result: (bool, Vec<Action>))
        requires
            old(self).wf(),
            old(self)@.starts_run(*event) ==> old(self)@.epoch < usize::MAX,
        ensures
            final(self).wf(),
            final(self)@ == old(self)@.update(*event, now).state,
            action_views(result.1@) == old(self)@.update(*event, now).actions,
            result.0 == old(self)@.renders(*event),
    {
        match event {
            Event::PaneUpdate(panes) => {
                self.log_pane_ids_as_needed(panes);
                (false, no_actions())
            },
            Event::Timer => (true, one_action(Action::SetTimer)),
            Event::PermissionRequestResult(granted) => {
                let actions = self.handle_permission_result(*granted);
                (true, actions)
            },
            Event::CommandPaneOpened(terminal_pane_id, context) => {
                self.handle_command_pane_opened(*terminal_pane_id, context, now)
            },
            Event::CommandPaneExited(_terminal_pane_id, exit_code, context) => {
                let actions = self.handle_command_pane_exited(*exit_code, context, now);
                (true, actions)
            },
            Event::CommandPaneReRun(terminal_pane_id, context) => {
                self.handle_command_pane_opened(*terminal_pane_id, context, now)
            },
            Event::EditPaneOpened(terminal_pane_id, context) => {
                self.handle_edit_pane_opened(*terminal_pane_id, context);
                (false, no_actions())
            },
            Event::EditPaneExited(terminal_pane_id, _exit_code, context) => {
                let actions = self.handle_edit_pane_exited(*terminal_pane_id, context);
                (false, actions)
            },
            Event::PaneClosed(pane_id) => self.handle_pane_closed(*pane_id),
            Event::Key(key) => {
                let should_render = key.no_modifiers && match key.bare_key {
                    BareKey::Down => true,
                    BareKey::Up => true,
                    BareKey::Tab => true,
                    BareKey::Enter => true,
                    BareKey::Char(c) => c == ' ' || c == 'f' || c == 'e',
                    BareKey::Other => false,
                };
                let actions = self.handle_key(*key);
                (should_render, actions)
            },
            Event::Other => (false, no_actions()),
        }
    }

    /// Whether the event starts a new run, and so needs a free epoch.
    pub fn starts_run(&self, event: &Event) -> (starts: bool)
        ensures
            starts == self@.starts_run(*event),
    {
        match event {
            Event::PermissionRequestResult(granted) => *granted
                && self.running_command_index.is_none(),
            Event::Key(key) => key.no_modifiers && match key.bare_key {
                BareKey::Enter => true,
                _ => false,
            },
            _ => false,
        }
    }

    /// The epoch of the current run.
    pub fn epoch(&self) -> (epoch: usize)
        ensures
            epoch == self@.epoch,
    {
        self.current_run_index.current()
    }

    /// Whether the epoch counter has room for one more run.
    pub fn can_start_run(&self) -> (room: bool)
        ensures
            room == (self@.epoch < usize::MAX),
    {
        self.current_run_index.can_advance()
    }

    /// The commands, in the order in which they run.
    pub fn commands(&self) -> (commands: &Vec<Command>)
        ensures
            views(commands@) == self@.commands,
    {
        &self.commands_to_run
    }

    /// The index of the command that the sequencer started last.
    pub fn running_command_index(&self) -> (index: Option<usize>)
        ensures
            index == self@.running,
    {
        self.running_command_index
    }

    /// The index under the user's cursor.
    pub fn selected_index(&self) -> (index: Option<usize>)
        ensures
            index == self@.selected,
    {
        self.selected_index
    }

    /// Whether the run is paused.
    pub fn is_paused(&self) -> (paused: bool)
        ensures
            paused == self@.paused,
    {
        self.paused
    }

    /// Whether a failed command stops the run.
    pub fn stops_on_failure(&self) -> (stops: bool)
        ensures
            stops == self@.stop_on_failure,
    {
        self.stop_on_failure
    }

    /// The shell that runs the commands.
    pub fn shell(&self) -> (shell: &String)
        ensures
            shell@ == self@.shell,
    {
        &self.shell
    }

    /// The working directory of the commands.
    pub fn folder(&self) -> (folder: &String)
        ensures
            folder@ == self@.folder,
    {
        &self.folder
    }

    /// The editor sessions that are open.
    pub fn active_edit_pane_ids(&self) -> (panes: &Vec<u32>)
        ensures
            panes@ == self@.edit_panes,
    {
        &self.active_edit_pane_ids
    }

    /// The sessions that run again after a successful run.
    pub fn panes_to_run_on_completion(&self) -> (panes: &Vec<CompletionPane>)
        ensures
            pane_views(panes@) == self@.completion_panes,
    {
        &self.panes_to_run_on_completion
    }
}

} // verus!
