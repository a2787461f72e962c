//! The messages that drive the application state machine.

use vstd::prelude::*;
use crate::app::state::{InputMode, Screen};
use crate::calendar::CalendarDate;
use crate::domain::ExportData;

verus! {

/// `Clone::clone` for `Result`, which derived clones of messages call.
/// Nothing is stated of the copy.
pub assume_specification<T: Clone, E: Clone>[ <Result<T, E> as Clone>::clone ](
    r: &Result<T, E>,
) -> Result<T, E>;

/// Every user interaction, navigation command, data change and lifecycle
/// event the application reacts to.
#[derive(Debug, Clone, PartialEq)]
pub enum Message {
    /// Move the selection cursor up by one item.
    NavigateUp,
    /// Move the selection cursor down by one item.
    NavigateDown,
    /// Move the selected calendar date back by one day.
    PreviousDay,
    /// Move the selected calendar date forward by one day.
    NextDay,
    /// Reset the selected calendar date to today.
    GoToday,
    /// Jump the selection cursor to the top of the active list.
    GoTop,
    /// Jump the selection cursor to the bottom of the active list.
    GoBottom,
    /// Show or hide the metrics sidebar.
    ToggleSidebar,
    /// Switch the active screen.
    SwitchScreen(Screen),
    /// Switch to the Settings screen.
    OpenSettings,
    /// Switch to the Main screen.
    CloseSettings,
    /// Show or hide the keyboard shortcuts help overlay.
    ToggleHelp,
    /// Terminate the application.
    Quit,
    /// Toggle the completion of the habit with this id on the selected date.
    ToggleHabit(i64),
    /// Add a habit with this name.
    AddHabit(String),
    /// Archive (soft-delete) the habit with this id.
    ArchiveHabit(i64),
    /// Rename the habit with this id.
    RenameHabit(i64, String),
    /// Move the habit with this id up (`true`) or down (`false`).
    ReorderHabit(i64, bool),
    /// Toggle the completion of the to-do with this id.
    ToggleTodo(i64),
    /// Create a to-do.
    AddTodo { title: String, notes: Option<String>, due_date: Option<CalendarDate> },
    /// Delete the to-do with this id.
    DeleteTodo(i64),
    /// Replace the notes of the to-do with this id.
    UpdateTodoNotes(i64, String),
    /// Toggle the item under the selection cursor.
    ToggleSelected,
    /// Complete the item under the selection cursor.
    CompleteSelected,
    /// Ask to delete the item under the selection cursor.
    DeleteSelected,
    /// Archive the habit under the selection cursor (Settings).
    ArchiveSelected,
    /// Move the habit under the selection cursor up (`true`) or down.
    ReorderSelected(bool),
    /// Edit the item under the selection cursor.
    StartEdit,
    /// Edit the notes of the to-do under the selection cursor.
    StartEditNotes,
    /// Rename the habit under the selection cursor (Settings).
    StartRename,
    /// Write a JSON backup to disk.
    ExportData,
    /// Restore a full backup.
    ImportData(Box<ExportData>),
    /// A backup export finished, with its destination or an error.
    DataExported(Result<String, String>),
    /// Set the keyboard input mode.
    SetInputMode(InputMode),
    /// The main text input changed.
    InputChanged(String),
    /// The notes input changed.
    NotesChanged(String),
    /// The due date input changed.
    DueDateChanged(Option<CalendarDate>),
    /// Confirm deleting the to-do with this id.
    ConfirmDelete(i64),
    /// Dismiss the active modal, input or screen.
    CancelModal,
    /// Commit the active text input.
    SubmitInput,
    /// A storage error to show in the status bar.
    DbError(String),
    /// Clear the status message.
    ClearStatusMessage,
    /// Initial data load.
    Init,
    /// Periodic clock tick.
    Tick,
}

} // verus!
