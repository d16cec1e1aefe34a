//! What holds of the sequencer whatever the events and their order.

use crate::action::ActionView;
use crate::command::{CommandView, PaneId};
use crate::context::{correlation_of, entries_view, lemma_correlation_roundtrip, Correlation};
use crate::event::{BareKey, Event, Key};
use crate::model::{
    close_actions, command_lines, edited_commands, first_bound_to, nonempty_lines,
    rerun_actions, reset_all, triage_actions, triage_of, CompletionPaneView, Decision,
    StateView,
};
use crate::text::{is_whitespace, joined, lemma_joined_first_line, lemma_split_joined};
use vstd::prelude::*;

verus! {

/// The command at `index` is the one that the sequencer tracks as running:
/// the running index designates it, and it has started in a session and has
/// not exited.
pub open spec fn tracked_as_running(state: StateView, index: int) -> bool {
    &&& 0 <= index < state.commands.len()
    &&& state.running matches Some(running) && running == index
    &&& !state.commands[index].exited
    &&& state.commands[index].start_time is Some
    &&& state.commands[index].pane_id is Some
}

/// The action starts a session.
pub open spec fn is_start(action: ActionView) -> bool {
    action is StartSession
}

/// The action is the request to start some command of the state, stamped
/// with that command's index and the state's epoch.
pub open spec fn stamped_for(state: StateView, action: ActionView) -> bool {
    exists|index: usize|
        index < state.commands.len() && action == ActionView::StartSession(
            #[trigger] state.session_request(index),
        )
}

/// At most one action starts a session, and that one is stamped for the
/// state.
pub open spec fn starts_at_most_one(state: StateView, actions: Seq<ActionView>) -> bool {
    &&& forall|k: int|
        0 <= k < actions.len() && is_start(#[trigger] actions[k]) ==> stamped_for(
            state,
            actions[k],
        )
    &&& forall|k: int, l: int|
        0 <= k < l < actions.len() ==> !(is_start(#[trigger] actions[k]) && is_start(
            #[trigger] actions[l],
        ))
}

/// No action starts a session.
pub open spec fn starts_none(actions: Seq<ActionView>) -> bool {
    forall|k: int| 0 <= k < actions.len() ==> !is_start(#[trigger] actions[k])
}

/// The failure-triage view starts nothing.
pub proof fn lemma_triage_starts_none(commands: Seq<CommandView>)
    ensures
        starts_none(triage_actions(commands)),
    decreases commands.len(),
{
    if commands.len() > 0 {
        lemma_triage_starts_none(commands.drop_last());
    }
}

/// Closing the sessions starts nothing.
pub proof fn lemma_close_starts_none(commands: Seq<CommandView>)
    ensures
        starts_none(close_actions(commands)),
    decreases commands.len(),
{
    if commands.len() > 0 {
        lemma_close_starts_none(commands.drop_last());
    }
}

/// Running the completion sessions again starts nothing.
pub proof fn lemma_rerun_starts_none(panes: Seq<CompletionPaneView>)
    ensures
        starts_none(rerun_actions(panes)),
    decreases panes.len(),
{
    if panes.len() > 0 {
        lemma_rerun_starts_none(panes.drop_last());
    }
}

/// The end of a successful run starts nothing.
pub proof fn lemma_run_end_starts_none(state: StateView)
    ensures
        starts_none(state.run_end_actions()),
{
    lemma_rerun_starts_none(state.completion_panes);
    lemma_close_starts_none(state.commands);
}

/// At most one command is tracked as running.
pub proof fn lemma_one_tracked_command(state: StateView, i: int, j: int)
    requires
        tracked_as_running(state, i),
        tracked_as_running(state, j),
    ensures
        i == j,
{
}

/// When the sequencer goes on, the state stays well-formed, it starts at
/// most one session, and a session that it starts is the one of the command
/// that it tracks from then on.
pub proof fn lemma_advance_starts_tracked(state: StateView)
    requires
        state.wf(),
    ensures
        state.advance().state.wf(),
        starts_at_most_one(state.advance().state, state.advance().actions),
        forall|k: int|
            0 <= k < state.advance().actions.len() && is_start(
                #[trigger] state.advance().actions[k],
            ) ==> {
                &&& state.advance().state.running matches Some(next)
                &&& state.advance().actions[k] == ActionView::StartSession(
                    state.advance().state.session_request(next),
                )
            },
{
    let after = state.advance();
    lemma_triage_starts_none(state.commands);
    lemma_run_end_starts_none(state);
    match state.decision() {
        Decision::Start(next) => {
            assert(after.state.session_request(next) == state.session_request(next));
        },
        _ => {},
    }
}

/// Every action that starts a session is the request for the command that
/// the state's running index designates, stamped with the state's epoch.
pub open spec fn starts_only_tracked(state: StateView, actions: Seq<ActionView>) -> bool {
    forall|k: int|
        0 <= k < actions.len() && is_start(#[trigger] actions[k]) ==> {
            &&& state.running matches Some(next)
            &&& next < state.commands.len()
            &&& actions[k] == ActionView::StartSession(state.session_request(next))
        }
}

/// What the sequencer starts when it goes on is tracked.
proof fn lemma_advance_only_tracked(state: StateView)
    requires
        state.wf(),
    ensures
        state.advance().state.wf(),
        starts_at_most_one(state.advance().state, state.advance().actions),
        starts_only_tracked(state.advance().state, state.advance().actions),
{
    lemma_advance_starts_tracked(state);
}

/// The start of a new run keeps the state well-formed, and what it starts
/// is tracked.
proof fn lemma_new_run_only_tracked(
    state: StateView,
    commands: Seq<CommandView>,
    before: Seq<ActionView>,
    after: Seq<ActionView>,
)
    requires
        state.wf(),
        forall|i: int| 0 <= i < commands.len() ==> (#[trigger] commands[i]).consistent(),
        starts_none(before),
        starts_none(after),
    ensures
        ({
            let started = state.next_run(commands).advance();
            &&& started.state.wf()
            &&& starts_at_most_one(started.state, before + started.actions + after)
            &&& starts_only_tracked(started.state, before + started.actions + after)
        }),
{
    lemma_advance_only_tracked(state.next_run(commands));
}

/// Whatever the edited text, or without one, the state stays well-formed,
/// at most one session starts, and it is the one of the command that the
/// sequencer tracks from then on.
pub proof fn lemma_editor_closed_starts_tracked(state: StateView, contents: Option<Seq<char>>)
    requires
        state.wf(),
    ensures
        state.editor_closed(contents).state.wf(),
        starts_at_most_one(
            state.editor_closed(contents).state,
            state.editor_closed(contents).actions,
        ),
        starts_only_tracked(
            state.editor_closed(contents).state,
            state.editor_closed(contents).actions,
        ),
{
    match contents {
        Some(text) => {
            lemma_close_starts_none(state.commands);
            lemma_new_run_only_tracked(
                state,
                edited_commands(text),
                close_actions(state.commands),
                seq![ActionView::RemoveEditFile],
            );
        },
        None => {},
    }
}

/// Whatever the event, the state stays well-formed: the running index
/// designates a command, so that the sequencer tracks one command at most.
pub proof fn lemma_update_preserves_wf(state: StateView, event: Event, now: u64)
    requires
        state.wf(),
    ensures
        state.update(event, now).state.wf(),
{
    lemma_update_starts(state, event, now);
}

/// Whatever the event, at most one session starts, and the request that
/// starts it is stamped with the index of its command and the epoch of the
/// state that follows.
pub proof fn lemma_update_starts_at_most_one(state: StateView, event: Event, now: u64)
    requires
        state.wf(),
    ensures
        starts_at_most_one(state.update(event, now).state, state.update(event, now).actions),
{
    lemma_update_starts(state, event, now);
}

/// Whether the event is the key that asks for the selected command.
pub open spec fn is_manual_rerun(event: Event) -> bool {
    event matches Event::Key(key) && key.no_modifiers && key.bare_key == BareKey::Tab
}

/// Only the key that asks for the selected command starts a session
/// outside the sequence. After every other event, a session that starts is
/// the one of the command that the sequencer tracks.
pub proof fn lemma_only_manual_rerun_starts_untracked(state: StateView, event: Event, now: u64)
    requires
        state.wf(),
        !is_manual_rerun(event),
    ensures
        starts_only_tracked(state.update(event, now).state, state.update(event, now).actions),
{
    lemma_update_starts(state, event, now);
}

/// A manual rerun leaves the sequencer's running index and the epoch as
/// they are.
pub proof fn lemma_manual_rerun_keeps_cursor(state: StateView)
    ensures
        state.focus_selected().state.running == state.running,
        state.focus_selected().state.epoch == state.epoch,
        state.focus_selected().state.commands.len() == state.commands.len(),
{
}

/// The first command bound to a session, where there is one, is a command
/// of the list, is bound to the session, and no command before it is.
pub proof fn lemma_first_bound_to(commands: Seq<CommandView>, pane: PaneId)
    ensures
        match first_bound_to(commands, pane) {
            Some(i) => {
                &&& 0 <= i < commands.len()
                &&& commands[i].pane_id == Some(pane)
                &&& forall|k: int| 0 <= k < i ==> (#[trigger] commands[k]).pane_id != Some(pane)
            },
            None => forall|k: int|
                0 <= k < commands.len() ==> (#[trigger] commands[k]).pane_id != Some(pane),
        },
    decreases commands.len(),
{
    if commands.len() > 0 && commands[0].pane_id != Some(pane) {
        let rest = commands.skip(1);
        lemma_first_bound_to(rest, pane);
        match first_bound_to(rest, pane) {
            Some(i) => {
                assert forall|k: int| 0 <= k < i + 1 implies (#[trigger] commands[k]).pane_id
                    != Some(pane) by {
                    if k > 0 {
                        assert(rest[k - 1] == commands[k]);
                    }
                }
            },
            None => {
                assert forall|k: int| 0 <= k < commands.len() implies (
                #[trigger] commands[k]).pane_id != Some(pane) by {
                    if k > 0 {
                        assert(rest[k - 1] == commands[k]);
                    }
                }
            },
        }
    }
}

/// The epoch never falls. It rises, by one, exactly on the events that
/// start a new run.
pub proof fn lemma_epoch_only_grows(state: StateView, event: Event, now: u64)
    requires
        state.starts_run(event) ==> state.epoch < usize::MAX,
    ensures
        state.update(event, now).state.epoch == if state.starts_run(event) {
            state.epoch + 1
        } else {
            state.epoch as int
        },
{
}

/// After the user closed a session the sequence does not go on by itself:
/// the running index and the epoch stay, and no session starts.
pub proof fn lemma_pane_closed_does_not_advance(state: StateView, pane: PaneId)
    ensures
        state.pane_closed(pane).state.running == state.running,
        state.pane_closed(pane).state.epoch == state.epoch,
        state.pane_closed(pane).state.commands.len() == state.commands.len(),
        starts_none(state.pane_closed(pane).actions),
{
    lemma_first_bound_to(state.commands, pane);
}

/// What the failure-triage view asks for one command: nothing without a
/// session; to reveal the session where the command has not exited with the
/// success code, be it that it exited with another code, with none, or not
/// at all; to hide it where the command exited with the success code.
pub proof fn lemma_triage_of_command(command: CommandView)
    requires
        command.consistent(),
    ensures
        command.pane_id is None ==> triage_of(command) == Seq::<ActionView>::empty(),
        command.pane_id matches Some(pane) ==> {
            &&& command.exited && command.exit_status != Some(0i32) ==> triage_of(command)
                == seq![ActionView::ShowSession(pane)]
            &&& !command.exited ==> triage_of(command) == seq![ActionView::ShowSession(pane)]
            &&& command.exit_status == Some(0i32) ==> triage_of(command) == seq![
                ActionView::HideSession(pane),
            ]
        },
{
}

/// The failure-triage view holds, for every command with a session, what
/// is asked for that command.
pub proof fn lemma_triage_covers_every_session(commands: Seq<CommandView>, i: int)
    requires
        0 <= i < commands.len(),
        commands[i].pane_id is Some,
    ensures
        triage_actions(commands).contains(triage_of(commands[i])[0]),
    decreases commands.len(),
{
    let front = triage_actions(commands.drop_last());
    let last = triage_of(commands.last());
    if i == commands.len() - 1 {
        assert((front + last)[front.len() as int] == last[0]);
    } else {
        lemma_triage_covers_every_session(commands.drop_last(), i);
        let k = choose|k: int| 0 <= k < front.len() && front[k] == triage_of(commands[i])[0];
        assert((front + last)[k] == front[k]);
    }
}

/// Where the user closes the session of the command that the sequencer
/// tracks, that command is reset and marked as closed by the user, and the
/// run is stuck there: the running index stays on it and nothing starts.
pub proof fn lemma_closed_running_command_is_stuck(state: StateView, pane: PaneId)
    requires
        state.wf(),
        state.running matches Some(i) && first_bound_to(state.commands, pane) == Some(i as int),
    ensures
        ({
            let i = state.running->0 as int;
            let after = state.pane_closed(pane);
            &&& after.state.running == state.running
            &&& after.state.epoch == state.epoch
            &&& after.state.commands == state.commands.update(
                i,
                state.commands[i].closed_by_user(),
            )
            &&& after.state.commands[i].pane_closed_by_user
            &&& !after.state.commands[i].exited
            &&& after.state.commands[i].pane_id is None
            &&& after.state.commands[i].start_time is None
            &&& starts_none(after.actions)
            &&& !tracked_as_running(after.state, i)
        }),
{
    lemma_first_bound_to(state.commands, pane);
}

/// Starting the run over frees it wherever it was stuck. Unless the run is
/// paused, and where there is a command at all, every session closes, every
/// command is pending again, the first command is tracked, and the one
/// session that starts is that of the first command, stamped with the next
/// epoch. The counter of epochs must have room for that epoch.
pub proof fn lemma_restart_starts_over(state: StateView)
    requires
        state.wf(),
        !state.paused,
        state.commands.len() >= 1,
        state.epoch < usize::MAX,
    ensures
        ({
            let after = state.restart_run();
            &&& after.state.wf()
            &&& after.state.running == Some(0usize)
            &&& after.state.epoch == state.epoch + 1
            &&& after.state.commands == reset_all(state.commands)
            &&& forall|i: int|
                0 <= i < state.commands.len() ==> (#[trigger] after.state.commands[i])
                    == CommandView::pending(state.commands[i].command_line)
            &&& after.actions == close_actions(state.commands) + seq![
                ActionView::StartSession(after.state.session_request(0)),
            ]
            &&& after.state.session_request(0).args[1] == state.commands[0].command_line
            &&& correlation_of(after.state.session_request(0).context) == Some(
                Correlation { command_index: 0, epoch: (state.epoch + 1) as usize },
            )
        }),
{
    lemma_request_reads_back(state.next_run(reset_all(state.commands)).advance().state, 0);
}

/// A command without a session, such as one whose session the user closed,
/// runs again when the user asks for it under the cursor: it is reset, its
/// session starts, stamped with its index and the current epoch, and the
/// sequencer's own index stays where it was.
pub proof fn lemma_manual_rerun_frees_closed_command(state: StateView)
    requires
        state.selected matches Some(i) && i < state.commands.len()
            && state.commands[i as int].pane_id is None,
    ensures
        ({
            let i = state.selected->0;
            let after = state.focus_selected();
            &&& after.state.running == state.running
            &&& after.state.epoch == state.epoch
            &&& after.state.commands == state.commands.update(
                i as int,
                CommandView::pending(state.commands[i as int].command_line),
            )
            &&& after.actions == seq![ActionView::StartSession(state.session_request(i))]
            &&& correlation_of(state.session_request(i).context) == Some(
                Correlation { command_index: i, epoch: state.epoch },
            )
        }),
{
    lemma_request_reads_back(state, state.selected->0);
}

/// Lines of which none is empty are all kept.
proof fn lemma_nonempty_lines_kept(lines: Seq<Seq<char>>)
    requires
        forall|i: int| 0 <= i < lines.len() ==> (#[trigger] lines[i]).len() > 0,
    ensures
        nonempty_lines(lines) == lines,
    decreases lines.len(),
{
    if lines.len() > 0 {
        let front = lines.drop_last();
        assert forall|i: int| 0 <= i < front.len() implies (#[trigger] front[i]).len() > 0 by {}
        lemma_nonempty_lines_kept(front);
    }
}

/// What the editor is given is read back as the same command lines, all
/// pending, if the file comes back untouched: this holds of command lines
/// that are not empty and hold no line break, the first not beginning and
/// the last not ending with whitespace.
pub proof fn lemma_unedited_commands_read_back(state: StateView)
    requires
        state.commands.len() > 0,
        forall|i: int|
            0 <= i < state.commands.len() ==> (#[trigger] state.commands[i]).command_line.len() > 0
                && !state.commands[i].command_line.contains('\n'),
        !is_whitespace(state.commands.first().command_line.first()),
        !is_whitespace(state.commands.last().command_line.last()),
    ensures
        state.open_editor().actions == seq![
            ActionView::WriteEditFile(joined(command_lines(state.commands), seq!['\n'])),
        ],
        edited_commands(joined(command_lines(state.commands), seq!['\n'])) == reset_all(
            state.commands,
        ),
{
    let lines = command_lines(state.commands);
    assert forall|i: int| 0 <= i < lines.len() implies !(#[trigger] lines[i]).contains('\n')
        && lines[i].len() > 0 by {}
    lemma_split_joined(lines, '\n');
    lemma_nonempty_lines_kept(lines);
    lemma_joined_ends(lines, seq!['\n']);
}

/// Joined lines, the first of which is not empty, begin as the first line
/// does; joined lines, the last of which is not empty, end as the last
/// line does.
proof fn lemma_joined_ends(lines: Seq<Seq<char>>, sep: Seq<char>)
    requires
        lines.len() > 0,
        lines.first().len() > 0,
        lines.last().len() > 0,
    ensures
        joined(lines, sep).len() > 0,
        joined(lines, sep).first() == lines.first().first(),
        joined(lines, sep).last() == lines.last().last(),
{
    if lines.len() >= 2 {
        lemma_joined_first_line(lines, sep);
    }
}

/// The three claims about an event at once.
proof fn lemma_update_starts(state: StateView, event: Event, now: u64)
    requires
        state.wf(),
    ensures
        state.update(event, now).state.wf(),
        starts_at_most_one(state.update(event, now).state, state.update(event, now).actions),
        !is_manual_rerun(event) ==> starts_only_tracked(
            state.update(event, now).state,
            state.update(event, now).actions,
        ),
{
    let after = state.update(event, now);
    match event {
        Event::PaneUpdate(panes) => {
            assert forall|i: int| 0 <= i < state.completion_panes.len() implies (
            #[trigger] after.state.completion_panes[i]).title
                == state.completion_panes[i].title by {}
        },
        Event::PermissionRequestResult(granted) => {
            if granted && state.running is None {
                lemma_advance_only_tracked(
                    StateView { epoch: (state.epoch + 1) as usize, ..state },
                );
            }
        },
        Event::CommandPaneExited(_, exit_code, context) => {
            lemma_exit_starts(state, exit_code, entries_view(context@), now);
        },
        Event::PaneClosed(pane) => {
            lemma_first_bound_to(state.commands, pane);
        },
        Event::Key(key) => {
            lemma_key_starts(state, key);
        },
        _ => {},
    }
}

/// The claims about the end of a command session.
proof fn lemma_exit_starts(
    state: StateView,
    exit_code: Option<i32>,
    context: Seq<(Seq<char>, Seq<char>)>,
    now: u64,
)
    requires
        state.wf(),
    ensures
        ({
            let after = state.command_pane_exited(exit_code, context, now);
            &&& after.state.wf()
            &&& starts_at_most_one(after.state, after.actions)
            &&& starts_only_tracked(after.state, after.actions)
        }),
{
    match correlation_of(context) {
        Some(c) => {
            if c.epoch == state.epoch && c.command_index < state.commands.len() {
                let index = c.command_index as int;
                let recorded = state.with_command(
                    index,
                    state.commands[index].finished(exit_code, now),
                );
                lemma_advance_only_tracked(recorded);
                lemma_run_end_starts_none(recorded);
            }
        },
        None => {},
    }
}

/// The claims about a key.
proof fn lemma_key_starts(state: StateView, key: Key)
    requires
        state.wf(),
    ensures
        ({
            let after = state.key_pressed(key);
            &&& after.state.wf()
            &&& starts_at_most_one(after.state, after.actions)
            &&& !(key.no_modifiers && key.bare_key == BareKey::Tab) ==> starts_only_tracked(
                after.state,
                after.actions,
            )
        }),
{
    if key.no_modifiers {
        match key.bare_key {
            BareKey::Tab => {
                let after = state.focus_selected();
                if let Some(i) = state.selected {
                    if i < state.commands.len() {
                        assert(after.state.session_request(i) == state.session_request(i));
                    }
                }
            },
            BareKey::Enter => {
                lemma_close_starts_none(state.commands);
                lemma_new_run_only_tracked(
                    state,
                    reset_all(state.commands),
                    close_actions(state.commands),
                    Seq::empty(),
                );
            },
            BareKey::Char(c) => {
                if c == ' ' {
                    lemma_advance_only_tracked(StateView { paused: !state.paused, ..state });
                } else if c == 'f' {
                    lemma_advance_only_tracked(
                        StateView { stop_on_failure: !state.stop_on_failure, ..state },
                    );
                }
            },
            _ => {},
        }
    }
}

/// The sequencer's decision depends on the two flags, the running index,
/// and of each command on whether it exited and with which status: two
/// states that agree on these decide alike.
pub proof fn lemma_decision_deterministic(a: StateView, b: StateView)
    requires
        a.paused == b.paused,
        a.stop_on_failure == b.stop_on_failure,
        a.running == b.running,
        a.commands.len() == b.commands.len(),
        forall|i: int|
            0 <= i < a.commands.len() ==> a.commands[i].exited == b.commands[i].exited
                && a.commands[i].exit_status == b.commands[i].exit_status,
    ensures
        a.decision() == b.decision(),
{
    assert(a.all_succeeded() == b.all_succeeded()) by {
        if a.all_succeeded() {
            assert forall|i: int| 0 <= i < b.commands.len() implies (
            #[trigger] b.commands[i]).succeeded() by {}
        }
        if b.all_succeeded() {
            assert forall|i: int| 0 <= i < a.commands.len() implies (
            #[trigger] a.commands[i]).succeeded() by {}
        }
    }
}

/// States that decide alike and agree on what a request is made of go on
/// alike: the same running index afterwards, and the same requests.
pub proof fn lemma_advance_deterministic(a: StateView, b: StateView)
    requires
        a.paused == b.paused,
        a.stop_on_failure == b.stop_on_failure,
        a.running == b.running,
        a.commands == b.commands,
        a.completion_panes == b.completion_panes,
        a.shell == b.shell,
        a.folder == b.folder,
        a.epoch == b.epoch,
    ensures
        a.advance().state.running == b.advance().state.running,
        a.advance().actions == b.advance().actions,
{
}

/// An event of a command session whose epoch is not the current one
/// changes nothing: the state stays as it is, nothing is drawn, and the one
/// thing that leaves is the report of the stale event.
pub proof fn lemma_stale_event_ignored(
    state: StateView,
    pane_id: u32,
    exit_code: Option<i32>,
    context: Seq<(Seq<char>, Seq<char>)>,
    now: u64,
)
    requires
        correlation_of(context) matches Some(c) && c.epoch != state.epoch,
    ensures
        state.command_pane_opened(pane_id, context, now).state == state,
        state.command_pane_opened(pane_id, context, now).actions == seq![
            ActionView::ReportStaleEvent,
        ],
        !state.command_pane_opened_renders(context),
        state.command_pane_exited(exit_code, context, now).state == state,
        state.command_pane_exited(exit_code, context, now).actions == seq![
            ActionView::ReportStaleEvent,
        ],
{
}

/// The correlation record that a lifecycle event of a command session
/// carries; `None` for every other event and for a context without one.
pub open spec fn event_correlation(event: Event) -> Option<Correlation> {
    match event {
        Event::CommandPaneOpened(_, context) => correlation_of(
            entries_view(context@),
        ),
        Event::CommandPaneExited(_, _, context) => correlation_of(
            entries_view(context@),
        ),
        Event::CommandPaneReRun(_, context) => correlation_of(
            entries_view(context@),
        ),
        _ => None,
    }
}

/// A lifecycle event whose epoch is not the current one leaves the state
/// as it is. The one thing that leaves is the report of the stale event.
pub proof fn lemma_stale_update_ignored(state: StateView, event: Event, now: u64)
    requires
        event_correlation(event) matches Some(c) && c.epoch != state.epoch,
    ensures
        state.update(event, now).state == state,
        state.update(event, now).actions == seq![ActionView::ReportStaleEvent],
{
}

/// An event whose context lacks the index or the epoch, or holds one that
/// is no number, changes nothing and asks nothing.
pub proof fn lemma_malformed_event_ignored(
    state: StateView,
    pane_id: u32,
    exit_code: Option<i32>,
    context: Seq<(Seq<char>, Seq<char>)>,
    now: u64,
)
    requires
        correlation_of(context) is None,
    ensures
        state.command_pane_opened(pane_id, context, now) == state.unchanged(),
        !state.command_pane_opened_renders(context),
        state.command_pane_exited(exit_code, context, now) == state.unchanged(),
{
}

/// The context of a request reads back as the index of its command and the
/// epoch in which it was made.
pub proof fn lemma_request_reads_back(state: StateView, index: usize)
    ensures
        correlation_of(state.session_request(index).context) == Some(
            Correlation { command_index: index, epoch: state.epoch },
        ),
{
    lemma_correlation_roundtrip(Correlation { command_index: index, epoch: state.epoch });
}

/// Once the run has started over, the events of every request of the run
/// before are stale: they leave the new state as it is.
pub proof fn lemma_restart_outdates_requests(
    state: StateView,
    index: usize,
    pane_id: u32,
    exit_code: Option<i32>,
    now: u64,
)
    requires
        state.epoch < usize::MAX,
    ensures
        ({
            let context = state.session_request(index).context;
            let after = state.restart_run().state;
            &&& after.epoch == state.epoch + 1
            &&& after.command_pane_opened(pane_id, context, now).state == after
            &&& after.command_pane_exited(exit_code, context, now).state == after
        }),
{
    lemma_request_reads_back(state, index);
}

/// Once edited commands have replaced the list, the events of every
/// request of the run before are stale: they leave the new state as it is.
pub proof fn lemma_edit_outdates_requests(
    state: StateView,
    text: Seq<char>,
    index: usize,
    pane_id: u32,
    exit_code: Option<i32>,
    now: u64,
)
    requires
        state.epoch < usize::MAX,
    ensures
        ({
            let context = state.session_request(index).context;
            let after = state.editor_closed(Some(text)).state;
            &&& after.epoch == state.epoch + 1
            &&& after.command_pane_opened(pane_id, context, now).state == after
            &&& after.command_pane_exited(exit_code, context, now).state == after
        }),
{
    lemma_request_reads_back(state, index);
}

} // verus!
