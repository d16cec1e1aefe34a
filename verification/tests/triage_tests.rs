use multitask::action::Action;
use multitask::command::{Command, PaneId};
use multitask::context::{Correlation, Entry};
use multitask::event::{Event, PaneInfo};
use multitask::state::{kill_all_commands, show_failed_commands, State};

fn bound(line: &str, pane: PaneId) -> Command {
    let mut command = Command::new(line);
    command.pane_id = Some(pane);
    command.start_time = Some(1);
    command
}

fn exited(line: &str, pane: PaneId, status: Option<i32>) -> Command {
    let mut command = bound(line, pane);
    command.exited = true;
    command.exit_status = status;
    command.end_time = Some(2);
    command
}

#[test]
fn a_session_that_exited_without_a_code_is_revealed() {
    let commands = vec![exited("killed", PaneId::Terminal(11), None)];
    assert_eq!(
        show_failed_commands(&commands),
        vec![Action::ShowSession(PaneId::Terminal(11))]
    );
}

#[test]
fn triage_reveals_the_failed_and_hides_the_successful() {
    let commands = vec![
        exited("ok", PaneId::Terminal(1), Some(0)),
        exited("bad", PaneId::Terminal(2), Some(1)),
        Command::new("unstarted"),
        exited("negative", PaneId::Plugin(3), Some(-1)),
        exited("killed", PaneId::Terminal(4), None),
        bound("running", PaneId::Terminal(5)),
        exited("ok too", PaneId::Terminal(6), Some(0)),
    ];
    let before = commands.clone();
    assert_eq!(
        show_failed_commands(&commands),
        vec![
            Action::HideSession(PaneId::Terminal(1)),
            Action::ShowSession(PaneId::Terminal(2)),
            Action::ShowSession(PaneId::Plugin(3)),
            Action::ShowSession(PaneId::Terminal(4)),
            Action::ShowSession(PaneId::Terminal(5)),
            Action::HideSession(PaneId::Terminal(6)),
        ]
    );
    assert_eq!(commands, before);
}

#[test]
fn triage_of_commands_without_sessions_asks_nothing() {
    assert!(show_failed_commands(&vec![Command::new("a"), Command::new("b")]).is_empty());
    assert!(show_failed_commands(&Vec::new()).is_empty());
}

#[test]
fn only_terminal_sessions_are_closed() {
    let commands = vec![
        exited("ok", PaneId::Terminal(1), Some(0)),
        Command::new("unstarted"),
        bound("plugin", PaneId::Plugin(3)),
        bound("running", PaneId::Terminal(5)),
    ];
    assert_eq!(
        kill_all_commands(&commands),
        vec![Action::CloseSession(1), Action::CloseSession(5)]
    );
}

#[test]
fn run_end_reruns_closes_and_closes_itself() {
    let config = vec![
        Entry { key: "commands".to_string(), value: "\"a\"\n\"b\"".to_string() },
        Entry { key: "panes_to_run_on_completion".to_string(), value: "watch".to_string() },
    ];
    let mut state = State::load(&config).0;
    state.log_pane_ids_as_needed(&vec![PaneInfo { title: "watch".to_string(), id: 40 }]);
    state.update(&Event::PermissionRequestResult(true), 0);
    let context = Correlation { command_index: 0, epoch: 1 }.to_context();
    state.update(&Event::CommandPaneOpened(7, context), 1);
    assert_eq!(
        state.handle_run_end(),
        vec![Action::RerunSession(40), Action::CloseSession(7), Action::CloseSelf]
    );
}
