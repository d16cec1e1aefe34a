//! The command record: one shell command and what has been observed of it.

use vstd::prelude::*;
use vstd::string::*;

verus! {

/// The handle of a session of the host.
#[derive(Clone, Copy, Debug, PartialEq, Eq, Structural)]
pub enum PaneId {
    Terminal(u32),
    Plugin(u32),
}

/// One command of the sequence and its observed lifecycle.
///
/// Both timestamps absent: never run. Start present and end absent: running.
/// Both present: finished. Timestamps count milliseconds on the caller's clock.
#[derive(Clone, Debug, PartialEq, Eq)]
pub struct Command {
    pub command_line: String,
    pub start_time: Option<u64>,
    pub end_time: Option<u64>,
    pub pane_id: Option<PaneId>,
    pub exit_status: Option<i32>,
    pub exited: bool,
    pub pane_closed_by_user: bool,
}

/// The mathematical value of a [`Command`].
pub struct CommandView {
    pub command_line: Seq<char>,
    pub start_time: Option<u64>,
    pub end_time: Option<u64>,
    pub pane_id: Option<PaneId>,
    pub exit_status: Option<i32>,
    pub exited: bool,
    pub pane_closed_by_user: bool,
}

impl CommandView {
    /// A command that has not run: nothing observed, both flags false.
    pub open spec fn pending(command_line: Seq<char>) -> CommandView {
        CommandView {
            command_line,
            start_time: None,
            end_time: None,
            pane_id: None,
            exit_status: None,
            exited: false,
            pane_closed_by_user: false,
        }
    }

    /// The record back in its pending state, with the same command line.
    pub open spec fn reset(self) -> CommandView {
        CommandView::pending(self.command_line)
    }

    /// The record after the user closed its session.
    pub open spec fn closed_by_user(self) -> CommandView {
        CommandView { pane_closed_by_user: true, ..self.reset() }
    }

    /// The record after the host confirmed its session at time `now`.
    pub open spec fn opened(self, pane_id: u32, now: u64) -> CommandView {
        CommandView {
            pane_id: Some(PaneId::Terminal(pane_id)),
            start_time: Some(now),
            end_time: None,
            ..self
        }
    }

    /// The record after the host reported the end of its session at time `now`.
    pub open spec fn finished(self, exit_code: Option<i32>, now: u64) -> CommandView {
        CommandView { exit_status: exit_code, exited: true, end_time: Some(now), ..self }
    }

    /// Started and not yet finished.
    pub open spec fn is_running(self) -> bool {
        self.start_time is Some && self.end_time is None
    }

    /// The exit status is the success code.
    pub open spec fn succeeded(self) -> bool {
        self.exit_status == Some(0i32)
    }

    /// Not a command that exited with the success code.
    pub open spec fn failed(self) -> bool {
        !(self.exited && self.exit_status == Some(0i32))
    }

    /// An exit status is present only once the command has exited.
    pub open spec fn consistent(self) -> bool {
        self.exit_status is Some ==> self.exited
    }

    /// Left the running state: exited, or closed by the user.
    pub open spec fn is_over(self) -> bool {
        self.exited || self.pane_closed_by_user
    }
}

impl View for Command {
    type V = CommandView;

    open spec fn view(&self) -> CommandView {
        CommandView {
            command_line: self.command_line@,
            start_time: self.start_time,
            end_time: self.end_time,
            pane_id: self.pane_id,
            exit_status: self.exit_status,
            exited: self.exited,
            pane_closed_by_user: self.pane_closed_by_user,
        }
    }
}

/// The values of a list of commands, in order.
pub open spec fn views(commands: Seq<Command>) -> Seq<CommandView> {
    Seq::new(commands.len(), |i: int| commands[i]@)
}

impl Command {
    /// A pending command with the given command line.
    pub fn new(command_line: &str) -> (command: Command)
        ensures
            command@ == CommandView::pending(command_line@),
    {
        Command {
            command_line: String::from_str(command_line),
            start_time: None,
            end_time: None,
            pane_id: None,
            exit_status: None,
            exited: false,
            pane_closed_by_user: false,
        }
    }

    /// Returns the command to its pending state. Only the command line stays.
    pub fn reset(&mut self)
        ensures
            final(self)@ == old(self)@.reset(),
            final(self).command_line == old(self).command_line,
    {
        self.start_time = None;
        self.end_time = None;
        self.pane_id = None;
        self.exit_status = None;
        self.exited = false;
        self.pane_closed_by_user = false;
    }

    /// Whether the command has started and not yet finished.
    pub fn is_running(&self) -> (running: bool)
        ensures
            running == self@.is_running(),
    {
        self.start_time.is_some() && self.end_time.is_none()
    }

    /// Whether the exit status is the success code.
    pub fn succeeded(&self) -> (ok: bool)
        ensures
            ok == self@.succeeded(),
    {
        match self.exit_status {
            Some(status) => status == 0,
            None => false,
        }
    }

    /// Whether the command counts as failed: it is not one that exited with
    /// the success code.
    pub fn failed(&self) -> (failed: bool)
        ensures
            failed == self@.failed(),
    {
        !(self.exited && self.succeeded())
    }

    /// Whether the command has left the running state.
    pub fn is_over(&self) -> (over: bool)
        ensures
            over == self@.is_over(),
    {
        self.exited || self.pane_closed_by_user
    }
}

/// Resetting twice is resetting once, and a reset record holds nothing but
/// its command line.
pub proof fn lemma_reset_idempotent(command: CommandView)
    ensures
        command.reset().reset() == command.reset(),
        command.reset().command_line == command.command_line,
        command.reset().start_time is None,
        command.reset().end_time is None,
        command.reset().pane_id is None,
        command.reset().exit_status is None,
        !command.reset().exited,
        !command.reset().pane_closed_by_user,
{
}

} // verus!
