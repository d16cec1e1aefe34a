use multitask::command::{Command, PaneId};

#[test]
fn new_command_is_pending() {
    let command = Command::new("echo a");
    assert_eq!(command.command_line, "echo a");
    assert_eq!(command.start_time, None);
    assert_eq!(command.end_time, None);
    assert_eq!(command.pane_id, None);
    assert_eq!(command.exit_status, None);
    assert!(!command.exited);
    assert!(!command.pane_closed_by_user);
}

#[test]
fn reset_clears_everything_but_the_command_line() {
    let mut command = Command::new("make test");
    command.start_time = Some(10);
    command.end_time = Some(20);
    command.pane_id = Some(PaneId::Terminal(7));
    command.exit_status = Some(3);
    command.exited = true;
    command.pane_closed_by_user = true;
    command.reset();
    assert_eq!(command.command_line, "make test");
    assert_eq!(command.start_time, None);
    assert_eq!(command.end_time, None);
    assert_eq!(command.pane_id, None);
    assert_eq!(command.exit_status, None);
    assert!(!command.exited);
    assert!(!command.pane_closed_by_user);
}
