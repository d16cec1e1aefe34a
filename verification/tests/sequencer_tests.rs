use multitask::action::{Action, EventKind, Permission, SessionRequest};
use multitask::command::PaneId;
use multitask::context::{Correlation, Entry};
use multitask::event::{BareKey, Event, Key, PaneInfo};
use multitask::model::Decision;
use multitask::state::State;

fn loaded(commands: &[&str], stop_on_failure: bool) -> State {
    let text: Vec<String> = commands.iter().map(|c| format!("{:?}", c)).collect();
    let config = vec![
        Entry { key: "commands".to_string(), value: text.join("\n") },
        Entry { key: "stop_on_failure".to_string(), value: stop_on_failure.to_string() },
    ];
    State::load(&config).0
}

fn granted(state: &mut State) -> Vec<Action> {
    state.update(&Event::PermissionRequestResult(true), 0).1
}

fn stamp(command_index: usize, epoch: usize) -> Vec<Entry> {
    Correlation { command_index, epoch }.to_context()
}

fn press(bare_key: BareKey) -> Event {
    Event::Key(Key { bare_key, no_modifiers: true })
}

fn start_of(state: &State, index: usize) -> Action {
    Action::StartSession(SessionRequest {
        shell: state.shell().clone(),
        args: vec!["-ic".to_string(), state.commands()[index].command_line.clone()],
        folder: state.folder().clone(),
        context: stamp(index, state.epoch()),
    })
}

fn started(actions: &Vec<Action>) -> Vec<String> {
    actions
        .iter()
        .filter_map(|a| match a {
            Action::StartSession(request) => Some(request.args[1].clone()),
            _ => None,
        })
        .collect()
}

#[test]
fn load_asks_for_permissions_events_and_the_timer() {
    let (state, actions) = State::load(&Vec::new());
    assert_eq!(
        actions,
        vec![
            Action::RequestPermissions(vec![
                Permission::ReadApplicationState,
                Permission::ChangeApplicationState,
                Permission::RunCommands,
                Permission::OpenFiles,
            ]),
            Action::Subscribe(vec![
                EventKind::PermissionRequestResult,
                EventKind::CommandPaneOpened,
                EventKind::CommandPaneExited,
                EventKind::CommandPaneReRun,
                EventKind::EditPaneOpened,
                EventKind::EditPaneExited,
                EventKind::Key,
                EventKind::Timer,
                EventKind::PaneClosed,
                EventKind::PaneUpdate,
            ]),
            Action::SetTimer,
        ]
    );
    assert_eq!(state.epoch(), 0);
    assert_eq!(state.running_command_index(), None);
    assert_eq!(state.selected_index(), None);
    assert!(!state.is_paused());
    assert!(!state.stops_on_failure());
    assert_eq!(state.shell(), "bash");
    assert_eq!(state.folder(), ".");
    assert!(state.commands().is_empty());
}

#[test]
fn new_state_is_empty() {
    let state = State::new();
    assert_eq!(state.epoch(), 0);
    assert!(state.commands().is_empty());
    assert!(state.active_edit_pane_ids().is_empty());
    assert!(state.panes_to_run_on_completion().is_empty());
    assert_eq!(state.running_command_index(), None);
    assert_eq!(state.decision(), Decision::Complete);
}

#[test]
fn default_state_is_the_new_state() {
    let state = State::default();
    assert_eq!(state.epoch(), 0);
    assert!(state.commands().is_empty());
    assert_eq!(state.running_command_index(), None);
    assert_eq!(state.shell(), "");
}

#[test]
fn nothing_starts_before_permission_is_granted() {
    let mut state = loaded(&["echo a"], false);
    let (render, actions) = state.update(&Event::PermissionRequestResult(false), 0);
    assert!(render);
    assert!(actions.is_empty());
    assert_eq!(state.running_command_index(), None);
    assert_eq!(state.epoch(), 0);
}

#[test]
fn granted_permission_starts_the_first_command_under_epoch_one() {
    let mut state = loaded(&["echo a", "echo b"], false);
    let actions = granted(&mut state);
    assert_eq!(state.epoch(), 1);
    assert_eq!(state.running_command_index(), Some(0));
    assert_eq!(actions, vec![start_of(&state, 0)]);
    assert_eq!(
        actions,
        vec![Action::StartSession(SessionRequest {
            shell: "bash".to_string(),
            args: vec!["-ic".to_string(), "echo a".to_string()],
            folder: ".".to_string(),
            context: vec![
                Entry { key: "command_index".to_string(), value: "0".to_string() },
                Entry { key: "current_run_index".to_string(), value: "1".to_string() },
            ],
        })]
    );
}

#[test]
fn granted_permission_while_running_changes_nothing() {
    let mut state = loaded(&["echo a", "echo b"], false);
    granted(&mut state);
    let actions = granted(&mut state);
    assert!(actions.is_empty());
    assert_eq!(state.epoch(), 1);
    assert_eq!(state.running_command_index(), Some(0));
}

#[test]
fn three_commands_succeed_in_order() {
    let mut state = loaded(&["echo a", "echo b", "echo c"], false);
    let mut all_actions = granted(&mut state);
    for index in 0..3usize {
        assert_eq!(state.running_command_index(), Some(index));
        let pane = 10 + index as u32;
        let (render, actions) =
            state.update(&Event::CommandPaneOpened(pane, stamp(index, 1)), 100 * index as u64);
        assert!(render);
        assert!(actions.is_empty());
        assert!(state.commands()[index].is_running());
        let (render, actions) = state.update(
            &Event::CommandPaneExited(pane, Some(0), stamp(index, 1)),
            100 * index as u64 + 50,
        );
        assert!(render);
        all_actions.extend(actions);
    }
    for command in state.commands() {
        assert!(command.exited);
        assert_eq!(command.exit_status, Some(0));
    }
    assert_eq!(state.running_command_index(), None);
    assert_eq!(started(&all_actions), vec!["echo a", "echo b", "echo c"]);
    let closes = all_actions.iter().filter(|a| **a == Action::CloseSelf).count();
    assert_eq!(closes, 1);
    assert_eq!(
        all_actions[3..].to_vec(),
        vec![
            Action::CloseSession(10),
            Action::CloseSession(11),
            Action::CloseSession(12),
            Action::CloseSelf,
        ]
    );
}

#[test]
fn stop_on_failure_halts_at_the_failed_command() {
    let mut state = loaded(&["ok", "fail", "ok2"], true);
    assert!(state.stops_on_failure());
    granted(&mut state);
    state.update(&Event::CommandPaneOpened(20, stamp(0, 1)), 1);
    let (_, actions) = state.update(&Event::CommandPaneExited(20, Some(0), stamp(0, 1)), 2);
    assert_eq!(started(&actions), vec!["fail"]);
    state.update(&Event::CommandPaneOpened(21, stamp(1, 1)), 3);
    let (_, actions) = state.update(&Event::CommandPaneExited(21, Some(1), stamp(1, 1)), 4);
    assert_eq!(state.running_command_index(), Some(1));
    assert_eq!(state.decision(), Decision::HaltOnFailure);
    assert_eq!(state.commands()[2].start_time, None);
    assert_eq!(state.commands()[2].pane_id, None);
    assert!(started(&actions).is_empty());
    assert_eq!(
        actions,
        vec![
            Action::HideSession(PaneId::Terminal(20)),
            Action::ShowSession(PaneId::Terminal(21)),
        ]
    );
}

#[test]
fn pause_holds_the_sequence_until_resumed() {
    let mut state = loaded(&["one", "two", "three"], false);
    granted(&mut state);
    state.update(&Event::CommandPaneOpened(30, stamp(0, 1)), 1);
    state.update(&Event::CommandPaneExited(30, Some(0), stamp(0, 1)), 2);
    state.update(&Event::CommandPaneOpened(31, stamp(1, 1)), 3);
    assert_eq!(state.running_command_index(), Some(1));

    let (render, actions) = state.update(&press(BareKey::Char(' ')), 4);
    assert!(render);
    assert!(actions.is_empty());
    assert!(state.is_paused());

    let (_, actions) = state.update(&Event::CommandPaneExited(31, Some(0), stamp(1, 1)), 5);
    assert!(actions.is_empty());
    assert_eq!(state.running_command_index(), Some(1));
    assert!(state.commands()[1].exited);
    assert_eq!(state.commands()[2].start_time, None);
    assert_eq!(state.decision(), Decision::Paused);

    let (_, actions) = state.update(&press(BareKey::Char(' ')), 6);
    assert!(!state.is_paused());
    assert_eq!(state.running_command_index(), Some(2));
    assert_eq!(actions, vec![start_of(&state, 2)]);
}

#[test]
fn closing_the_running_session_leaves_the_command_stuck() {
    let mut state = loaded(&["one", "two"], false);
    granted(&mut state);
    state.update(&Event::CommandPaneOpened(40, stamp(0, 1)), 1);
    let (render, actions) = state.update(&Event::PaneClosed(PaneId::Terminal(40)), 2);
    assert!(render);
    assert!(actions.is_empty());
    let command = &state.commands()[0];
    assert!(command.pane_closed_by_user);
    assert!(!command.exited);
    assert_eq!(command.pane_id, None);
    assert_eq!(command.start_time, None);
    assert_eq!(command.end_time, None);
    assert_eq!(command.exit_status, None);
    assert_eq!(command.command_line, "one");
    assert_eq!(state.running_command_index(), Some(0));
    assert_eq!(state.commands()[1].start_time, None);

    // a manual rerun starts it again, outside the sequence
    state.update(&press(BareKey::Down), 3);
    assert_eq!(state.selected_index(), Some(0));
    let (_, actions) = state.update(&press(BareKey::Tab), 4);
    assert_eq!(actions, vec![start_of(&state, 0)]);
    assert!(!state.commands()[0].pane_closed_by_user);
    assert_eq!(state.running_command_index(), Some(0));
    assert_eq!(state.epoch(), 1);
}

#[test]
fn closed_session_then_restart_starts_over() {
    let mut state = loaded(&["one", "two"], false);
    granted(&mut state);
    state.update(&Event::CommandPaneOpened(40, stamp(0, 1)), 1);
    state.update(&Event::PaneClosed(PaneId::Terminal(40)), 2);
    let (render, actions) = state.update(&press(BareKey::Enter), 3);
    assert!(render);
    assert_eq!(state.epoch(), 2);
    assert_eq!(state.running_command_index(), Some(0));
    assert_eq!(actions, vec![start_of(&state, 0)]);
    assert!(!state.commands()[0].pane_closed_by_user);
}

#[test]
fn live_edit_replaces_the_list_mid_run() {
    let mut state = loaded(&["a", "b", "c", "d"], false);
    granted(&mut state);
    for index in 0..2usize {
        let pane = 50 + index as u32;
        state.update(&Event::CommandPaneOpened(pane, stamp(index, 1)), 1);
        state.update(&Event::CommandPaneExited(pane, Some(0), stamp(index, 1)), 2);
    }
    state.update(&Event::CommandPaneOpened(52, stamp(2, 1)), 3);
    assert_eq!(state.running_command_index(), Some(2));
    assert!(state.commands()[2].is_running());

    let actions = state.handle_editor_closed(Some("x\ny\n"));
    assert_eq!(state.epoch(), 2);
    assert_eq!(state.commands().len(), 2);
    assert_eq!(state.commands()[0].command_line, "x");
    assert_eq!(state.commands()[1].command_line, "y");
    assert_eq!(state.running_command_index(), Some(0));
    assert_eq!(
        actions,
        vec![
            Action::CloseSession(50),
            Action::CloseSession(51),
            Action::CloseSession(52),
            start_of(&state, 0),
            Action::RemoveEditFile,
        ]
    );

    // the exit of the old command 2 arrives late and is discarded
    let before = state.commands().clone();
    let (_, actions) = state.update(&Event::CommandPaneExited(52, Some(0), stamp(2, 1)), 4);
    assert_eq!(actions, vec![Action::ReportStaleEvent]);
    assert_eq!(state.commands(), &before);
    assert_eq!(state.running_command_index(), Some(0));
    assert_eq!(state.epoch(), 2);
    let (render, actions) = state.update(&Event::CommandPaneOpened(52, stamp(1, 1)), 5);
    assert!(!render);
    assert_eq!(actions, vec![Action::ReportStaleEvent]);
    assert_eq!(state.commands(), &before);
}

#[test]
fn decision_starts_the_first_command_when_none_runs() {
    let state = loaded(&["a", "b"], false);
    assert_eq!(state.decision(), Decision::Start(0));
}

#[test]
fn decision_is_complete_without_commands() {
    let mut state = loaded(&[], false);
    assert_eq!(state.decision(), Decision::Complete);
    let actions = granted(&mut state);
    assert_eq!(actions, vec![Action::CloseSelf]);
    assert_eq!(state.running_command_index(), None);
}

#[test]
fn run_without_stop_on_failure_goes_past_a_failure_and_ends_in_triage() {
    let mut state = loaded(&["ok", "fail"], false);
    granted(&mut state);
    state.update(&Event::CommandPaneOpened(60, stamp(0, 1)), 1);
    let (_, actions) = state.update(&Event::CommandPaneExited(60, Some(2), stamp(0, 1)), 2);
    assert_eq!(started(&actions), vec!["fail"]);
    state.update(&Event::CommandPaneOpened(61, stamp(1, 1)), 3);
    assert_eq!(state.decision(), Decision::EndedWithFailures);
    let (_, actions) = state.update(&Event::CommandPaneExited(61, Some(0), stamp(1, 1)), 4);
    assert_eq!(state.running_command_index(), None);
    assert_eq!(
        actions,
        vec![
            Action::ShowSession(PaneId::Terminal(60)),
            Action::HideSession(PaneId::Terminal(61)),
        ]
    );
}

#[test]
fn exit_without_a_code_is_a_failure() {
    let mut state = loaded(&["killed", "next"], true);
    granted(&mut state);
    state.update(&Event::CommandPaneOpened(70, stamp(0, 1)), 1);
    let (_, actions) = state.update(&Event::CommandPaneExited(70, None, stamp(0, 1)), 2);
    assert!(state.commands()[0].exited);
    assert_eq!(state.commands()[0].exit_status, None);
    assert!(state.commands()[0].failed());
    assert!(!state.commands()[0].succeeded());
    assert!(state.current_command_failed());
    assert_eq!(state.running_command_index(), Some(0));
    // a command that exited without a code has failed: its session is revealed
    assert_eq!(actions, vec![Action::ShowSession(PaneId::Terminal(70))]);
}

#[test]
fn triage_reveals_every_session_but_those_that_succeeded() {
    let mut state = loaded(&["ok", "killed", "bad", "running", "unstarted"], true);
    granted(&mut state);
    state.update(&Event::CommandPaneOpened(1, stamp(0, 1)), 1);
    state.update(&Event::CommandPaneExited(1, Some(0), stamp(0, 1)), 2);
    state.update(&Event::CommandPaneOpened(2, stamp(1, 1)), 3);
    // commands started by hand, outside the sequence
    state.update(&Event::CommandPaneOpened(3, stamp(2, 1)), 4);
    state.update(&Event::CommandPaneExited(3, Some(7), stamp(2, 1)), 5);
    state.update(&Event::CommandPaneOpened(4, stamp(3, 1)), 6);
    let (_, actions) = state.update(&Event::CommandPaneExited(2, None, stamp(1, 1)), 7);
    assert_eq!(state.running_command_index(), Some(1));
    assert_eq!(
        actions,
        vec![
            Action::HideSession(PaneId::Terminal(1)),
            Action::ShowSession(PaneId::Terminal(2)),
            Action::ShowSession(PaneId::Terminal(3)),
            Action::ShowSession(PaneId::Terminal(4)),
        ]
    );
}

#[test]
fn turning_stop_on_failure_off_resumes_the_run() {
    let mut state = loaded(&["fail", "next"], true);
    granted(&mut state);
    state.update(&Event::CommandPaneOpened(80, stamp(0, 1)), 1);
    state.update(&Event::CommandPaneExited(80, Some(1), stamp(0, 1)), 2);
    assert_eq!(state.running_command_index(), Some(0));
    let (render, actions) = state.update(&press(BareKey::Char('f')), 3);
    assert!(render);
    assert!(!state.stops_on_failure());
    assert_eq!(state.running_command_index(), Some(1));
    assert_eq!(actions, vec![start_of(&state, 1)]);
    // turning it on again starts nothing
    let (_, actions) = state.update(&press(BareKey::Char('f')), 4);
    assert!(state.stops_on_failure());
    assert!(actions.is_empty());
}

#[test]
fn toggles_start_nothing_once_every_command_is_over() {
    let mut state = loaded(&["only"], false);
    state.update(&press(BareKey::Char(' ')), 0);
    assert!(state.is_paused());
    granted(&mut state);
    assert_eq!(state.running_command_index(), None);
    // a manual run of the only command, which then fails
    state.update(&press(BareKey::Down), 1);
    let (_, actions) = state.update(&press(BareKey::Tab), 2);
    assert_eq!(started(&actions), vec!["only"]);
    state.update(&Event::CommandPaneOpened(90, stamp(0, 1)), 3);
    state.update(&Event::CommandPaneExited(90, Some(1), stamp(0, 1)), 4);
    assert!(state.all_commands_exited());
    let (_, actions) = state.update(&press(BareKey::Char(' ')), 5);
    assert!(!state.is_paused());
    assert!(actions.is_empty());
    let (_, actions) = state.update(&press(BareKey::Char('f')), 6);
    assert!(actions.is_empty());
    let (_, actions) = state.update(&press(BareKey::Char('f')), 7);
    assert!(actions.is_empty());
}

#[test]
fn completion_panes_run_again_at_the_end_of_a_successful_run() {
    let config = vec![
        Entry { key: "commands".to_string(), value: "\"only\"".to_string() },
        Entry { key: "panes_to_run_on_completion".to_string(), value: "server\nlogs\nabsent".to_string() },
    ];
    let mut state = State::load(&config).0;
    let inventory = vec![
        PaneInfo { title: "logs".to_string(), id: 3 },
        PaneInfo { title: "other".to_string(), id: 4 },
        PaneInfo { title: "server".to_string(), id: 5 },
        PaneInfo { title: "logs".to_string(), id: 6 },
    ];
    let (render, actions) = state.update(&Event::PaneUpdate(inventory), 0);
    assert!(!render);
    assert!(actions.is_empty());
    let panes = state.panes_to_run_on_completion();
    assert_eq!(panes.len(), 3);
    assert_eq!(panes[0].title, "server");
    assert_eq!(panes[0].pane, Some(PaneId::Terminal(5)));
    assert_eq!(panes[1].title, "logs");
    assert_eq!(panes[1].pane, Some(PaneId::Terminal(6)));
    assert_eq!(panes[2].title, "absent");
    assert_eq!(panes[2].pane, None);

    granted(&mut state);
    state.update(&Event::CommandPaneOpened(9, stamp(0, 1)), 1);
    let (_, actions) = state.update(&Event::CommandPaneExited(9, Some(0), stamp(0, 1)), 2);
    assert_eq!(
        actions,
        vec![
            Action::RerunSession(5),
            Action::RerunSession(6),
            Action::CloseSession(9),
            Action::CloseSelf,
        ]
    );
}

#[test]
fn an_inventory_without_a_title_keeps_the_known_handle() {
    let config = vec![Entry {
        key: "panes_to_run_on_completion".to_string(),
        value: "server".to_string(),
    }];
    let mut state = State::load(&config).0;
    state.log_pane_ids_as_needed(&vec![PaneInfo { title: "server".to_string(), id: 1 }]);
    state.log_pane_ids_as_needed(&vec![PaneInfo { title: "else".to_string(), id: 2 }]);
    assert_eq!(state.panes_to_run_on_completion()[0].pane, Some(PaneId::Terminal(1)));
}

#[test]
fn manual_rerun_that_completes_the_set_ends_the_run() {
    let mut state = loaded(&["first", "second"], false);
    granted(&mut state);
    state.update(&Event::CommandPaneOpened(1, stamp(0, 1)), 1);
    state.update(&Event::CommandPaneExited(1, Some(1), stamp(0, 1)), 2);
    state.update(&Event::CommandPaneOpened(2, stamp(1, 1)), 3);
    state.update(&Event::CommandPaneExited(2, Some(0), stamp(1, 1)), 4);
    assert_eq!(state.running_command_index(), None);
    // the user closes the failed session and runs the command again by hand
    state.update(&Event::PaneClosed(PaneId::Terminal(1)), 5);
    state.update(&press(BareKey::Down), 6);
    let (_, actions) = state.update(&press(BareKey::Tab), 7);
    assert_eq!(actions, vec![start_of(&state, 0)]);
    state.update(&Event::CommandPaneOpened(3, stamp(0, 1)), 8);
    let (_, actions) = state.update(&Event::CommandPaneExited(3, Some(0), stamp(0, 1)), 9);
    assert!(state.all_commands_exited_successfully());
    assert_eq!(
        actions,
        vec![Action::CloseSession(3), Action::CloseSession(2), Action::CloseSelf]
    );
}

#[test]
fn an_out_of_sequence_exit_that_leaves_failures_asks_nothing() {
    let mut state = loaded(&["first", "second"], false);
    granted(&mut state);
    state.update(&Event::CommandPaneOpened(1, stamp(0, 1)), 1);
    // an exit for a command that the sequencer does not track
    let (render, actions) = state.update(&Event::CommandPaneExited(5, Some(0), stamp(1, 1)), 2);
    assert!(render);
    assert!(actions.is_empty());
    assert!(state.commands()[1].exited);
    assert_eq!(state.running_command_index(), Some(0));
}

#[test]
fn timer_is_armed_again_and_draws() {
    let mut state = loaded(&["a"], false);
    let (render, actions) = state.update(&Event::Timer, 5);
    assert!(render);
    assert_eq!(actions, vec![Action::SetTimer]);
}

#[test]
fn other_events_change_nothing() {
    let mut state = loaded(&["a"], false);
    let (render, actions) = state.update(&Event::Other, 5);
    assert!(!render);
    assert!(actions.is_empty());
    assert_eq!(state.running_command_index(), None);
}
