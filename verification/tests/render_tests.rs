use multitask::command::{Command, PaneId};
use multitask::context::{Correlation, Entry};
use multitask::event::{BareKey, Event, Key};
use multitask::render::{
    count_commands, render, render_command, render_help, render_status, render_title,
    seconds_between, total_run_time, ColorRange, Placed, Shape, StyledText, Tally,
};
use multitask::state::State;

fn shown(commands: &[&str]) -> State {
    let text: Vec<String> = commands.iter().map(|c| format!("{:?}", c)).collect();
    let config = vec![
        Entry { key: "commands".to_string(), value: text.join("\n") },
        Entry { key: "folder".to_string(), value: "/srv".to_string() },
    ];
    State::load(&config).0
}

fn echo(command_index: usize, epoch: usize) -> Vec<Entry> {
    Correlation { command_index, epoch }.to_context()
}

fn range(color: usize, start: usize, end: usize) -> ColorRange {
    ColorRange { color, start, end: Some(end) }
}

fn plain(text: &str) -> StyledText {
    StyledText::new(text.to_string())
}

#[test]
fn styled_text_builders() {
    let text = plain("abc").color_range(2, 0, Some(1)).color_range(3, 1, None).indent(2).selected();
    assert_eq!(text.text, "abc");
    assert!(text.selected);
    assert_eq!(text.indent, 2);
    assert_eq!(
        text.color_ranges,
        vec![range(2, 0, 1), ColorRange { color: 3, start: 1, end: None }]
    );
    let bare = plain("x");
    assert!(!bare.selected);
    assert_eq!(bare.indent, 0);
    assert!(bare.color_ranges.is_empty());
}

#[test]
fn seconds_between_counts_whole_seconds() {
    assert_eq!(seconds_between(Some(1_000), Some(3_999), 0), 2);
    assert_eq!(seconds_between(Some(1_000), None, 61_000), 60);
    assert_eq!(seconds_between(None, Some(9_000), 4_000), 5);
    assert_eq!(seconds_between(None, None, 4_000), 0);
}

#[test]
fn seconds_between_is_zero_when_the_end_is_first() {
    assert_eq!(seconds_between(Some(5_000), Some(1_000), 0), 0);
    assert_eq!(seconds_between(Some(5_000), None, 1_000), 0);
}

#[test]
fn commands_are_counted_by_tally() {
    let mut ok = Command::new("ok");
    ok.exited = true;
    ok.exit_status = Some(0);
    let mut bad = Command::new("bad");
    bad.exited = true;
    bad.exit_status = Some(2);
    let mut killed = Command::new("killed");
    killed.exited = true;
    let fresh = Command::new("fresh");
    let commands = vec![ok, bad, killed, fresh, Command::new("fresh2")];
    assert_eq!(count_commands(&commands, Tally::Successful), 1);
    assert_eq!(count_commands(&commands, Tally::Failed), 2);
    assert_eq!(count_commands(&commands, Tally::Pending), 2);
    assert_eq!(count_commands(&Vec::new(), Tally::Pending), 0);
}

#[test]
fn title_while_waiting() {
    let state = shown(&["a", "b"]);
    let title = render_title(&state);
    assert_eq!(title.text, "Running commands. (Success: 0, Failure: 0, Pending: 2)");
    assert_eq!(
        title.color_ranges,
        vec![range(1, 0, 17), range(2, 28, 29), range(3, 40, 41), range(1, 52, 53)]
    );
    assert!(!title.selected);
}

#[test]
fn title_while_running() {
    let mut state = shown(&["a", "b", "c"]);
    state.update(&Event::PermissionRequestResult(true), 0);
    state.update(&Event::CommandPaneOpened(1, echo(0, 1)), 0);
    state.update(&Event::CommandPaneExited(1, Some(0), echo(0, 1)), 10);
    let title = render_title(&state);
    assert_eq!(title.text, "Running 2/3 commands (Success: 1, Failure: 0, Pending: 2)");
    assert_eq!(
        title.color_ranges,
        vec![range(1, 0, 20), range(2, 31, 32), range(3, 43, 44), range(1, 55, 56)]
    );
}

#[test]
fn title_when_done() {
    let mut state = shown(&["a", "b"]);
    state.update(&Event::PermissionRequestResult(true), 0);
    state.update(&Event::CommandPaneOpened(1, echo(0, 1)), 0);
    state.update(&Event::CommandPaneExited(1, Some(1), echo(0, 1)), 10);
    state.update(&Event::CommandPaneOpened(2, echo(1, 1)), 20);
    state.update(&Event::CommandPaneExited(2, Some(0), echo(1, 1)), 30);
    assert_eq!(state.running_command_index(), None);
    let title = render_title(&state);
    assert_eq!(title.text, "Done running commands. (Success: 1, Failure: 1, Pending: 0)");
    assert_eq!(
        title.color_ranges,
        vec![range(1, 0, 22), range(2, 33, 34), range(3, 45, 46), range(1, 57, 58)]
    );
}

#[test]
fn pending_command_line() {
    let lines = render_command(&Command::new("make"), false, false, 0);
    assert_eq!(lines, vec![plain("make").color_range(0, 0, Some(5))]);
}

#[test]
fn running_command_line() {
    let mut command = Command::new("make");
    command.start_time = Some(2_000);
    command.pane_id = Some(PaneId::Terminal(1));
    let lines = render_command(&command, true, false, 14_500);
    assert_eq!(
        lines,
        vec![plain("make (Running for 12s)").color_range(0, 0, Some(5)).color_range(1, 5, None)]
    );
}

#[test]
fn exited_command_lines() {
    let mut command = Command::new("make");
    command.exited = true;
    command.exit_status = Some(0);
    assert_eq!(
        render_command(&command, false, false, 0),
        vec![plain("make [EXIT CODE: 0]").color_range(0, 0, Some(5)).color_range(2, 17, Some(18))]
    );
    command.exit_status = Some(101);
    assert_eq!(
        render_command(&command, false, false, 0),
        vec![plain("make [EXIT CODE: 101]").color_range(0, 0, Some(5)).color_range(3, 17, Some(18))]
    );
    command.exit_status = Some(-9);
    assert_eq!(render_command(&command, false, false, 0)[0].text, "make [EXIT CODE: -9]");
    command.exit_status = Some(i32::MIN);
    assert_eq!(
        render_command(&command, false, false, 0)[0].text,
        "make [EXIT CODE: -2147483648]"
    );
    command.exit_status = None;
    assert_eq!(
        render_command(&command, false, false, 0),
        vec![plain("make [EXITED]").color_range(0, 0, Some(5)).color_range(3, 6, Some(12))]
    );
}

#[test]
fn closed_command_line() {
    let mut command = Command::new("make");
    command.pane_closed_by_user = true;
    assert_eq!(
        render_command(&command, false, false, 0),
        vec![plain("make [CLOSED]").color_range(0, 0, Some(5)).color_range(3, 6, Some(12))]
    );
}

#[test]
fn selected_command_has_three_lines() {
    let mut command = Command::new("ls");
    command.start_time = Some(1_000);
    command.end_time = Some(4_200);
    command.exited = true;
    command.exit_status = Some(0);
    command.pane_id = Some(PaneId::Terminal(3));
    let lines = render_command(&command, false, true, 9_000);
    assert_eq!(
        lines,
        vec![
            plain("ls [EXIT CODE: 0]").color_range(0, 0, Some(3)).color_range(2, 15, Some(16)).selected(),
            plain("Done after: 3s").indent(1).selected(),
            plain("<TAB> - open terminal").color_range(2, 0, Some(5)).indent(1).selected(),
        ]
    );
    let fresh = Command::new("ls");
    let lines = render_command(&fresh, false, true, 9_000);
    assert_eq!(lines[1], plain("Done after: 0s").indent(1).selected());
    assert_eq!(
        lines[2],
        plain("<TAB> - re-run in new terminal").color_range(2, 0, Some(5)).indent(1).selected()
    );
    let mut running = Command::new("ls");
    running.start_time = Some(1_000);
    let lines = render_command(&running, true, true, 8_000);
    assert_eq!(lines[1], plain("Running for: 7s").indent(1).selected());
}

#[test]
fn run_time_spans_the_first_start_and_the_last_end() {
    let mut state = shown(&["a", "b"]);
    assert_eq!(total_run_time(&state, 5_000), 0);
    state.update(&Event::PermissionRequestResult(true), 0);
    state.update(&Event::CommandPaneOpened(1, echo(0, 1)), 1_000);
    assert_eq!(total_run_time(&state, 5_500), 4);
    state.update(&Event::CommandPaneExited(1, Some(0), echo(0, 1)), 6_000);
    state.update(&Event::CommandPaneOpened(2, echo(1, 1)), 6_100);
    state.update(&Event::CommandPaneExited(2, Some(0), echo(1, 1)), 9_999);
    assert_eq!(total_run_time(&state, 60_000), 8);
    assert_eq!(total_run_time(&State::new(), 60_000), 0);
}

#[test]
fn status_line() {
    let mut state = shown(&["a"]);
    state.update(&Event::PermissionRequestResult(true), 0);
    state.update(&Event::CommandPaneOpened(1, echo(0, 1)), 0);
    let status = render_status(&state, 123_000);
    assert_eq!(status.text, "Elapsed: 123s Shell: bash Folder: /srv");
    assert_eq!(status.color_ranges, vec![range(1, 9, 13), range(1, 21, 26), range(1, 33, 38)]);
}

#[test]
fn help_line() {
    let mut state = shown(&["a", "b"]);
    let label = |name: &str, x: usize| Placed {
        shape: Shape::Text,
        text: plain(name).color_range(2, 0, None),
        x,
        y: 10,
    };
    let ribbon = |name: &str, on: bool, x: usize| Placed {
        shape: Shape::Ribbon,
        text: if on { plain(name).selected() } else { plain(name) },
        x,
        y: 10,
    };
    assert_eq!(
        render_help(&state),
        vec![
            label("ENTER", 1),
            ribbon("Restart", false, 7),
            label("SPACE", 19),
            ribbon("Pause After Command", false, 25),
            label("f", 49),
            ribbon("Stop on Failure", false, 51),
        ]
    );
    state.toggle_pause();
    state.toggle_stop_on_failure();
    let help = render_help(&state);
    assert_eq!(help[3], ribbon("Pause After Command", true, 25));
    assert_eq!(help[5], ribbon("Stop on Failure", true, 51));
    assert_eq!(help[1], ribbon("Restart", false, 7));
}

#[test]
fn frame_places_everything() {
    let mut state = shown(&["a", "b"]);
    state.update(&Event::PermissionRequestResult(true), 0);
    state.update(&Event::CommandPaneOpened(1, echo(0, 1)), 0);
    state.update(&Event::Key(Key { bare_key: BareKey::Down, no_modifiers: true }), 0);
    let frame = render(&state, 80, 3_000);
    assert_eq!(frame.title.shape, Shape::Text);
    assert_eq!((frame.title.x, frame.title.y), (1, 1));
    assert_eq!(frame.title.text, render_title(&state));
    assert_eq!((frame.list_x, frame.list_y, frame.list_width), (0, 3, 80));
    assert_eq!(frame.list.len(), 4);
    assert_eq!(frame.list[0].text, "a (Running for 3s)");
    assert!(frame.list[0].selected);
    assert_eq!(frame.list[1].text, "Running for: 3s");
    assert_eq!(frame.list[2].text, "<TAB> - open terminal");
    assert_eq!(frame.list[3], plain("b").color_range(0, 0, Some(2)));
    assert_eq!((frame.status.x, frame.status.y), (1, 8));
    assert_eq!(frame.status.text, render_status(&state, 3_000));
    assert_eq!(frame.help, render_help(&state));
}

#[test]
fn frame_of_an_empty_state() {
    let frame = render(&State::new(), 40, 0);
    assert_eq!(
        frame.title.text.text,
        "Done running commands. (Success: 0, Failure: 0, Pending: 0)"
    );
    assert!(frame.list.is_empty());
    assert_eq!(frame.status.y, 6);
    assert_eq!(frame.status.text.text, "Elapsed: 0s Shell:  Folder: ");
    assert_eq!(frame.help[0].y, 8);
}
