//! The events that the host delivers.

use crate::command::PaneId;
use crate::context::Entry;
use vstd::prelude::*;

verus! {

/// A key without its modifiers.
#[derive(Clone, Copy, Debug, PartialEq, Eq, Structural)]
pub enum BareKey {
    Down,
    Up,
    Tab,
    Enter,
    Char(char),
    Other,
}

/// A key press.
#[derive(Clone, Copy, Debug, PartialEq, Eq, Structural)]
pub struct Key {
    pub bare_key: BareKey,
    pub no_modifiers: bool,
}

/// One session of the host's inventory.
#[derive(Clone, Debug, PartialEq, Eq)]
pub struct PaneInfo {
    pub title: String,
    pub id: u32,
}

/// The inventory as pairs of title and handle, in order.
pub open spec fn inventory_view(panes: Seq<PaneInfo>) -> Seq<(Seq<char>, u32)> {
    Seq::new(panes.len(), |i: int| (panes[i].title@, panes[i].id))
}

/// One event of the host.
#[derive(Clone, Debug, PartialEq, Eq)]
pub enum Event {
    /// The inventory of live sessions.
    PaneUpdate(Vec<PaneInfo>),
    /// The timer fired.
    Timer,
    /// The answer to the request for capabilities: whether they were granted.
    PermissionRequestResult(bool),
    /// A command session opened: its handle and the context of its request.
    CommandPaneOpened(u32, Vec<Entry>),
    /// A command session ended: its handle, its exit code if it has one, and
    /// the context of its request.
    CommandPaneExited(u32, Option<i32>, Vec<Entry>),
    /// A command session runs again.
    CommandPaneReRun(u32, Vec<Entry>),
    /// An editor session opened.
    EditPaneOpened(u32, Vec<Entry>),
    /// An editor session ended.
    EditPaneExited(u32, Option<i32>, Vec<Entry>),
    /// The user closed a session.
    PaneClosed(PaneId),
    /// A key was pressed.
    Key(Key),
    /// Any other event.
    Other,
}

} // verus!
