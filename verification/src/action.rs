//! The requests that a handler leaves for the caller to send to the host.

use crate::command::PaneId;
use crate::context::{entries_view, Entry};
use crate::text::string_views;
use vstd::prelude::*;

verus! {

/// A capability that is asked of the host at startup.
#[derive(Clone, Copy, Debug, PartialEq, Eq, Structural)]
pub enum Permission {
    ReadApplicationState,
    ChangeApplicationState,
    RunCommands,
    OpenFiles,
}

/// A kind of event that the host is asked to deliver.
#[derive(Clone, Copy, Debug, PartialEq, Eq, Structural)]
pub enum EventKind {
    PermissionRequestResult,
    CommandPaneOpened,
    CommandPaneExited,
    CommandPaneReRun,
    EditPaneOpened,
    EditPaneExited,
    Key,
    Timer,
    PaneClosed,
    PaneUpdate,
}

/// What the host needs to start a session: the program and its arguments,
/// the working directory, and the context that its events will echo.
#[derive(Clone, Debug, PartialEq, Eq)]
pub struct SessionRequest {
    pub shell: String,
    pub args: Vec<String>,
    pub folder: String,
    pub context: Vec<Entry>,
}

/// The mathematical value of a [`SessionRequest`].
pub struct SessionRequestView {
    pub shell: Seq<char>,
    pub args: Seq<Seq<char>>,
    pub folder: Seq<char>,
    pub context: Seq<(Seq<char>, Seq<char>)>,
}

impl View for SessionRequest {
    type V = SessionRequestView;

    open spec fn view(&self) -> SessionRequestView {
        SessionRequestView {
            shell: self.shell@,
            args: string_views(self.args@),
            folder: self.folder@,
            context: entries_view(self.context@),
        }
    }
}

/// One request to the host.
#[derive(Clone, Debug, PartialEq, Eq)]
pub enum Action {
    /// Ask for these capabilities.
    RequestPermissions(Vec<Permission>),
    /// Ask for these kinds of events.
    Subscribe(Vec<EventKind>),
    /// Arm the timer that refreshes the elapsed time.
    SetTimer,
    /// Start a session for a command, in a floating pane.
    StartSession(SessionRequest),
    /// Close a terminal session.
    CloseSession(u32),
    /// Bring a terminal session to the foreground, floating if hidden.
    FocusSession(u32),
    /// Run the command of a terminal session again.
    RerunSession(u32),
    /// Reveal a session, floating if hidden.
    ShowSession(PaneId),
    /// Hide a session.
    HideSession(PaneId),
    /// Close the sequencer itself.
    CloseSelf,
    /// Write this text to the file of editable commands.
    WriteEditFile(String),
    /// Open the file of editable commands in an editor, with this context.
    OpenEditor(Vec<Entry>),
    /// Read the file of editable commands and hand its text back.
    ReadEditFile,
    /// Remove the file of editable commands.
    RemoveEditFile,
    /// Report that an event of an earlier run was ignored.
    ReportStaleEvent,
}

/// The mathematical value of an [`Action`].
pub enum ActionView {
    RequestPermissions(Seq<Permission>),
    Subscribe(Seq<EventKind>),
    SetTimer,
    StartSession(SessionRequestView),
    CloseSession(u32),
    FocusSession(u32),
    RerunSession(u32),
    ShowSession(PaneId),
    HideSession(PaneId),
    CloseSelf,
    WriteEditFile(Seq<char>),
    OpenEditor(Seq<(Seq<char>, Seq<char>)>),
    ReadEditFile,
    RemoveEditFile,
    ReportStaleEvent,
}

impl View for Action {
    type V = ActionView;

    open spec fn view(&self) -> ActionView {
        match *self {
            Action::RequestPermissions(permissions) => ActionView::RequestPermissions(
                permissions@,
            ),
            Action::Subscribe(kinds) => ActionView::Subscribe(kinds@),
            Action::SetTimer => ActionView::SetTimer,
            Action::StartSession(request) => ActionView::StartSession(request@),
            Action::CloseSession(id) => ActionView::CloseSession(id),
            Action::FocusSession(id) => ActionView::FocusSession(id),
            Action::RerunSession(id) => ActionView::RerunSession(id),
            Action::ShowSession(pane) => ActionView::ShowSession(pane),
            Action::HideSession(pane) => ActionView::HideSession(pane),
            Action::CloseSelf => ActionView::CloseSelf,
            Action::WriteEditFile(text) => ActionView::WriteEditFile(text@),
            Action::OpenEditor(context) => ActionView::OpenEditor(entries_view(context@)),
            Action::ReadEditFile => ActionView::ReadEditFile,
            Action::RemoveEditFile => ActionView::RemoveEditFile,
            Action::ReportStaleEvent => ActionView::ReportStaleEvent,
        }
    }
}

/// The values of a list of actions, in order.
pub open spec fn action_views(actions: Seq<Action>) -> Seq<ActionView> {
    Seq::new(actions.len(), |i: int| actions[i]@)
}

/// Moves the actions of `more` to the end of `actions`.
pub fn append_actions(actions: &mut Vec<Action>, more: Vec<Action>)
    ensures
        action_views(final(actions)@) == action_views(old(actions)@) + action_views(more@),
{
    let mut more = more;
    actions.append(&mut more);
}

} // verus!
