//! Habitodo: habit and to-do tracking logic.
//!
//! The library holds the calendar model, the domain records, the keyboard
//! shortcut table, the application state machine and the pure parts of the
//! storage layer. Storage, rendering and process plumbing live in the
//! application crate around it.

pub mod calendar;
pub mod queries;
pub mod domain;
pub mod text;
pub mod app;
pub mod keybindings;
pub mod presentation;
pub mod cli;

use vstd::prelude::*;

verus! {

/// Command-line usage and the full keybindings cheat sheet.
pub const HELP_TEXT: &'static str = "Habitodo 0.1.0
Native dark-mode habit and to-do tracking application.

USAGE:
    habitodo [OPTIONS]

OPTIONS:
    -h, --help       Print help information and keybindings cheat sheet
    -V, --version    Print version information
    --verify         Execute self-verification diagnostics against in-memory SQLite

KEYBINDINGS:
    Global:
        q            Quit application
        s, Tab       Toggle metrics sidebar
        ?            Toggle keyboard shortcuts help modal

    Main Dashboard Navigation:
        j, Down      Move selection cursor down
        k, Up        Move selection cursor up
        h, Left      Previous day
        l, Right     Next day
        t            Jump to today
        g            Jump to top of list
        G            Jump to bottom of list

    Main Dashboard Actions:
        Space        Toggle completion of selected habit / to-do
        x            Complete / dismiss selected item
        i            Add new to-do task (inline input)
        Enter        Edit selected item
        d            Delete selected to-do (prompts confirmation)
        n            Edit attached notes for selected to-do
        o            Open Settings screen
        Esc          Cancel modal / dismiss input

    Settings Screen:
        j, Down      Move selection cursor down
        k, Up        Move selection cursor up
        g            Jump to top of habit list
        G            Jump to bottom of habit list
        K            Reorder habit up (priority increase)
        J            Reorder habit down (priority decrease)
        i            Add new habit (inline input)
        r            Rename selected habit
        d            Archive selected habit (soft-delete)
        e            Export backup data to JSON file
        o, Esc       Return to Main dashboard

    Modal & Text Input:
        Enter        Submit input / confirm deletion
        Esc, n       Cancel input / cancel deletion
        y, Enter     Confirm deletion (in delete dialog)";

/// Version banner.
pub const VERSION_TEXT: &'static str = "habitodo 0.1.0";

/// Formatted command-line usage and full keybindings cheat sheet.
pub fn help_text() -> (r: &'static str)
    ensures
        r@ == HELP_TEXT@,
{
    HELP_TEXT
}

/// Version information string.
pub fn version_text() -> (r: &'static str)
    ensures
        r@ == VERSION_TEXT@,
{
    VERSION_TEXT
}

} // verus!
