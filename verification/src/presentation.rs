//! What the screens show, computed from plain values: the shortcut bar's
//! entries, the colour tiers and calendar grid of the monthly heatmap, the
//! overdue marker of a to-do, and the day's progress counts.

use vstd::prelude::*;
use crate::app::message::Message;
use crate::app::state::{AppState, InputMode, Screen};
use crate::keybindings::{key_is, named_is, spec_handle_key, Key, Modifiers, NamedKey};
use crate::calendar::{
    date_before, days_in_month, from_ymd_opt, is_before, month_length, weekday_from_monday,
    weekday_index, CalendarDate,
};
use crate::domain::{Habit, Todo};
use crate::text::{contains_text, occurs_in};

verus! {

/// Shade of a heatmap cell, from no completion to every habit completed.
#[derive(Debug, Clone, Copy, PartialEq, Eq, Structural)]
pub enum HeatTier {
    /// Nothing completed that day.
    Empty,
    /// Under half of the habits completed (or no active habits to compare with).
    Low,
    /// At least half of the habits completed.
    Medium,
    /// At least three quarters of the habits completed.
    High,
    /// Every habit completed.
    Full,
}

/// Tier of a day with `count` completions among `total` active habits.
pub open spec fn spec_heat_tier(count: int, total: int) -> HeatTier {
    if count == 0 {
        HeatTier::Empty
    } else if total == 0 {
        HeatTier::Low
    } else if count >= total {
        HeatTier::Full
    } else if 4 * count >= 3 * total {
        HeatTier::High
    } else if 2 * count >= total {
        HeatTier::Medium
    } else {
        HeatTier::Low
    }
}

/// Colour tier of a heatmap cell: by the share `count / total_habits` of
/// completed habits, with thresholds 1, 3/4 and 1/2.
pub fn heat_tier(count: usize, total_habits: usize) -> (r: HeatTier)
    ensures
        r == spec_heat_tier(count as int, total_habits as int),
{
    if count == 0 {
        HeatTier::Empty
    } else if total_habits == 0 {
        HeatTier::Low
    } else {
        let c: u128 = count as u128;
        let t: u128 = total_habits as u128;
        if c >= t {
            HeatTier::Full
        } else if 4 * c >= 3 * t {
            HeatTier::High
        } else if 2 * c >= t {
            HeatTier::Medium
        } else {
            HeatTier::Low
        }
    }
}


/// Entries of the bottom shortcut bar, as (keys, action) pairs: the help
/// overlay's, else the open input's or dialog's, else the screen's.
pub open spec fn spec_shortcut_items(
    show_help: bool,
    mode: InputMode,
    screen: Screen,
) -> Seq<(&'static str, &'static str)> {
    if show_help {
        seq![("Esc / ?", "Close Help")]
    } else {
        match mode {
            InputMode::ConfirmDelete(_) => seq![("y / Enter", "Confirm Delete"), ("n / Esc", "Cancel")],
            InputMode::AddingTodo => seq![("Enter", "Save Task"), ("Esc", "Cancel")],
            InputMode::EditingTodo(_) => seq![("Enter", "Save Title"), ("Esc", "Cancel")],
            InputMode::EditingNotes(_) => seq![("Enter", "Save Notes"), ("Esc", "Cancel")],
            InputMode::AddingHabit => seq![("Enter", "Save Habit"), ("Esc", "Cancel")],
            InputMode::RenamingHabit(_) => seq![("Enter", "Save Name"), ("Esc", "Cancel")],
            InputMode::Normal => match screen {
                Screen::Main => seq![
                    ("j/k", "Navigate"),
                    ("Space", "Toggle"),
                    ("h/l", "+/-Day"),
                    ("t", "Today"),
                    ("i", "Add To-Do"),
                    ("Enter", "Edit"),
                    ("n", "Notes"),
                    ("d", "Delete"),
                    ("s/Tab", "Sidebar"),
                    ("o", "Settings"),
                    ("?", "Help"),
                    ("q", "Quit"),
                ],
                Screen::Settings => seq![
                    ("j/k", "Navigate"),
                    ("i", "Add Habit"),
                    ("r", "Rename"),
                    ("J/K", "Reorder"),
                    ("d", "Archive"),
                    ("e", "Export JSON"),
                    ("Esc", "Back"),
                ],
            },
        }
    }
}

/// The shortcuts that apply in `state`, in the order the bottom bar shows them.
pub fn shortcut_bar_items(state: &AppState) -> (r: Vec<(&'static str, &'static str)>)
    ensures
        r@ == spec_shortcut_items(state.show_help, state.input_mode, state.screen),
{
    let mut items: Vec<(&'static str, &'static str)> = Vec::new();
    if state.show_help {
        items.push(("Esc / ?", "Close Help"));
    } else {
        match state.input_mode {
            InputMode::ConfirmDelete(_) => {
                items.push(("y / Enter", "Confirm Delete"));
                items.push(("n / Esc", "Cancel"));
            },
            InputMode::AddingTodo => {
                items.push(("Enter", "Save Task"));
                items.push(("Esc", "Cancel"));
            },
            InputMode::EditingTodo(_) => {
                items.push(("Enter", "Save Title"));
                items.push(("Esc", "Cancel"));
            },
            InputMode::EditingNotes(_) => {
                items.push(("Enter", "Save Notes"));
                items.push(("Esc", "Cancel"));
            },
            InputMode::AddingHabit => {
                items.push(("Enter", "Save Habit"));
                items.push(("Esc", "Cancel"));
            },
            InputMode::RenamingHabit(_) => {
                items.push(("Enter", "Save Name"));
                items.push(("Esc", "Cancel"));
            },
            InputMode::Normal => match state.screen {
                Screen::Main => {
                    items.push(("j/k", "Navigate"));
                    items.push(("Space", "Toggle"));
                    items.push(("h/l", "+/-Day"));
                    items.push(("t", "Today"));
                    items.push(("i", "Add To-Do"));
                    items.push(("Enter", "Edit"));
                    items.push(("n", "Notes"));
                    items.push(("d", "Delete"));
                    items.push(("s/Tab", "Sidebar"));
                    items.push(("o", "Settings"));
                    items.push(("?", "Help"));
                    items.push(("q", "Quit"));
                },
                Screen::Settings => {
                    items.push(("j/k", "Navigate"));
                    items.push(("i", "Add Habit"));
                    items.push(("r", "Rename"));
                    items.push(("J/K", "Reorder"));
                    items.push(("d", "Archive"));
                    items.push(("e", "Export JSON"));
                    items.push(("Esc", "Back"));
                },
            },
        }
    }
    items
}

/// Cell `i` (row-major, seven per row, Monday first) of a month grid whose
/// first day falls `offset` cells in: the day of the month, or blank padding.
pub open spec fn grid_cell(offset: int, days: int, i: int) -> Option<u32> {
    if offset <= i < offset + days {
        Some((i - offset + 1) as u32)
    } else {
        None
    }
}

/// Number of week rows needed for `days` days starting `offset` cells in.
pub open spec fn grid_row_count(offset: int, days: int) -> int {
    (offset + days + 6) / 7
}

/// The rows of seven cells spell out `grid_cell` for every cell.
pub open spec fn is_month_grid(rows: Seq<Vec<Option<u32>>>, offset: int, days: int) -> bool {
    &&& rows.len() == grid_row_count(offset, days)
    &&& forall|r: int| 0 <= r < rows.len() ==> (#[trigger] rows[r])@.len() == 7
    &&& forall|r: int, c: int|
        0 <= r < rows.len() && 0 <= c < 7 ==> #[trigger] rows[r]@[c] == grid_cell(
            offset,
            days,
            7 * r + c,
        )
}

/// Calendar grid of a month of `days` days whose first day is weekday
/// `start_offset` (Monday 0): rows of seven cells, blank before the first
/// day and after the last, as many rows as the days need.
pub fn month_grid(start_offset: u32, days: u32) -> (rows: Vec<Vec<Option<u32>>>)
    requires
        start_offset < 7,
    ensures
        is_month_grid(rows@, start_offset as int, days as int),
{
    let end: u64 = start_offset as u64 + days as u64;
    let mut rows: Vec<Vec<Option<u32>>> = Vec::new();
    let mut first: u64 = 0;
    while first < end
        invariant
            end == start_offset + days,
            first == 7 * rows@.len(),
            first < end + 7,
            forall|r: int| 0 <= r < rows@.len() ==> (#[trigger] rows@[r])@.len() == 7,
            forall|r: int, c: int|
                0 <= r < rows@.len() && 0 <= c < 7 ==> #[trigger] rows@[r]@[c] == grid_cell(
                    start_offset as int,
                    days as int,
                    7 * r + c,
                ),
        decreases end + 7 - first,
    {
        let mut row: Vec<Option<u32>> = Vec::new();
        let mut c: u64 = 0;
        while c < 7
            invariant
                c <= 7,
                row@.len() == c,
                end == start_offset + days,
                first < end,
                forall|k: int|
                    0 <= k < c ==> #[trigger] row@[k] == grid_cell(
                        start_offset as int,
                        days as int,
                        first + k,
                    ),
            decreases 7 - c,
        {
            let i: u64 = first + c;
            if start_offset as u64 <= i && i < end {
                row.push(Some((i - start_offset as u64 + 1) as u32));
            } else {
                row.push(None);
            }
            c = c + 1;
        }
        let ghost old_rows = rows@;
        rows.push(row);
        proof {
            assert forall|r: int, c2: int|
                0 <= r < rows@.len() && 0 <= c2 < 7 implies #[trigger] rows@[r]@[c2]
                == grid_cell(start_offset as int, days as int, 7 * r + c2) by {
                if r < old_rows.len() {
                    assert(rows@[r] == old_rows[r]);
                } else {
                    assert(r == old_rows.len());
                }
            }
        }
        first = first + 7;
    }
    rows
}

/// Calendar grid of the month containing `date`, laid out by
/// [`month_grid`] from the weekday of the month's first day.
pub fn month_grid_of(date: CalendarDate) -> (rows: Vec<Vec<Option<u32>>>)
    requires
        date.wf(),
    ensures
        is_month_grid(
            rows@,
            weekday_from_monday(CalendarDate { year: date.year, month: date.month, day: 1 }) as int,
            days_in_month(date.year as int, date.month as int),
        ),
{
    let first = CalendarDate { year: date.year, month: date.month, day: 1 };
    let offset = weekday_index(first);
    let days = month_length(date.year, date.month);
    month_grid(offset, days)
}

/// The to-do has a due date before `today` and is still open.
pub open spec fn spec_is_overdue(todo: Todo, today: CalendarDate) -> bool {
    &&& todo.due_date matches Some(due) && date_before(due, today)
    &&& !todo.completed
}

/// Whether the to-do's due-date badge shows it as overdue on `today`.
pub fn is_overdue(todo: &Todo, today: CalendarDate) -> (r: bool)
    ensures
        r == spec_is_overdue(*todo, today),
{
    match todo.due_date {
        Some(due) => is_before(due, today) && !todo.completed,
        None => false,
    }
}

/// Number of habits in `habits` marked completed.
pub open spec fn completed_count(habits: Seq<(Habit, bool)>) -> nat
    decreases habits.len(),
{
    if habits.len() == 0 {
        0
    } else {
        completed_count(habits.drop_last()) + if habits.last().1 {
            1nat
        } else {
            0nat
        }
    }
}

/// The day's progress: how many of the listed habits are completed, and how
/// many there are.
pub fn habit_progress(habits: &Vec<(Habit, bool)>) -> (r: (usize, usize))
    ensures
        r.0 == completed_count(habits@),
        r.1 == habits@.len(),
        r.0 <= r.1,
{
    let mut done: usize = 0;
    let mut k: usize = 0;
    while k < habits.len()
        invariant
            k <= habits@.len(),
            done == completed_count(habits@.subrange(0, k as int)),
            done <= k,
        decreases habits.len() - k,
    {
        proof {
            assert(habits@.subrange(0, k + 1).drop_last() == habits@.subrange(0, k as int));
        }
        if habits[k].1 {
            done = done + 1;
        }
        k = k + 1;
    }
    proof {
        assert(habits@.subrange(0, habits@.len() as int) == habits@);
    }
    (done, habits.len())
}

/// Number of to-dos in `todos` still open.
pub open spec fn pending_count(todos: Seq<Todo>) -> nat
    decreases todos.len(),
{
    if todos.len() == 0 {
        0
    } else {
        pending_count(todos.drop_last()) + if todos.last().completed {
            0nat
        } else {
            1nat
        }
    }
}

/// The to-do list's badge counts: how many to-dos are open, and how many
/// there are.
pub fn todo_progress(todos: &Vec<Todo>) -> (r: (usize, usize))
    ensures
        r.0 == pending_count(todos@),
        r.1 == todos@.len(),
        r.0 <= r.1,
{
    let mut open: usize = 0;
    let mut k: usize = 0;
    while k < todos.len()
        invariant
            k <= todos@.len(),
            open == pending_count(todos@.subrange(0, k as int)),
            open <= k,
        decreases todos.len() - k,
    {
        proof {
            assert(todos@.subrange(0, k + 1).drop_last() == todos@.subrange(0, k as int));
        }
        if !todos[k].completed {
            open = open + 1;
        }
        k = k + 1;
    }
    proof {
        assert(todos@.subrange(0, todos@.len() as int) == todos@);
    }
    (open, todos.len())
}

/// A status line text reads as a failure: it mentions "error", "Error" or
/// "failed".
pub open spec fn spec_status_is_error(status: Seq<char>) -> bool {
    occurs_in("error"@, status) || occurs_in("Error"@, status) || occurs_in("failed"@, status)
}

/// Whether the status line shows `status` in the failure colours.
pub fn status_is_error(status: &str) -> (r: bool)
    ensures
        r == spec_status_is_error(status@),
{
    contains_text(status, "error") || contains_text(status, "Error") || contains_text(
        status,
        "failed",
    )
}

/// Key press number `j` among those the shortcut-bar text `keys` names:
/// `a/b` names two keys, "Space", "Enter" and "Esc" name those keys, and
/// any other text names the character key that types it.
pub open spec fn bar_key(keys: Seq<char>, j: int, k: Key) -> bool {
    if keys == "j/k"@ {
        (j == 0 && key_is(k, "j"@)) || (j == 1 && key_is(k, "k"@))
    } else if keys == "h/l"@ {
        (j == 0 && key_is(k, "h"@)) || (j == 1 && key_is(k, "l"@))
    } else if keys == "J/K"@ {
        (j == 0 && key_is(k, "J"@)) || (j == 1 && key_is(k, "K"@))
    } else if keys == "s/Tab"@ {
        (j == 0 && key_is(k, "s"@)) || (j == 1 && named_is(k, NamedKey::Tab))
    } else if keys == "y / Enter"@ {
        (j == 0 && key_is(k, "y"@)) || (j == 1 && named_is(k, NamedKey::Enter))
    } else if keys == "n / Esc"@ {
        (j == 0 && key_is(k, "n"@)) || (j == 1 && named_is(k, NamedKey::Escape))
    } else if keys == "Space"@ {
        j == 0 && named_is(k, NamedKey::Space)
    } else if keys == "Enter"@ {
        j == 0 && named_is(k, NamedKey::Enter)
    } else if keys == "Esc"@ {
        j == 0 && named_is(k, NamedKey::Escape)
    } else {
        j == 0 && key_is(k, keys)
    }
}

/// The message the shortcut-bar action `label` stands for, for its key
/// number `j` (two-key entries go down/back first, then up/forward).
pub open spec fn bar_action(label: Seq<char>, j: int, mode: InputMode) -> Option<Message> {
    if label == "Navigate"@ {
        Some(if j == 0 { Message::NavigateDown } else { Message::NavigateUp })
    } else if label == "+/-Day"@ {
        Some(if j == 0 { Message::PreviousDay } else { Message::NextDay })
    } else if label == "Reorder"@ {
        Some(Message::ReorderSelected(j != 0))
    } else if label == "Toggle"@ {
        Some(Message::ToggleSelected)
    } else if label == "Today"@ {
        Some(Message::GoToday)
    } else if label == "Add To-Do"@ {
        Some(Message::SetInputMode(InputMode::AddingTodo))
    } else if label == "Add Habit"@ {
        Some(Message::SetInputMode(InputMode::AddingHabit))
    } else if label == "Edit"@ {
        Some(Message::StartEdit)
    } else if label == "Notes"@ {
        Some(Message::StartEditNotes)
    } else if label == "Delete"@ {
        Some(Message::DeleteSelected)
    } else if label == "Archive"@ {
        Some(Message::ArchiveSelected)
    } else if label == "Rename"@ {
        Some(Message::StartRename)
    } else if label == "Export JSON"@ {
        Some(Message::ExportData)
    } else if label == "Sidebar"@ {
        Some(Message::ToggleSidebar)
    } else if label == "Settings"@ {
        Some(Message::SwitchScreen(Screen::Settings))
    } else if label == "Back"@ {
        Some(Message::SwitchScreen(Screen::Main))
    } else if label == "Help"@ {
        Some(Message::ToggleHelp)
    } else if label == "Quit"@ {
        Some(Message::Quit)
    } else if label == "Cancel"@ {
        Some(Message::CancelModal)
    } else if label == "Save Task"@ || label == "Save Title"@ || label == "Save Notes"@ || label
        == "Save Habit"@ || label == "Save Name"@ {
        Some(Message::SubmitInput)
    } else if label == "Confirm Delete"@ {
        match mode {
            InputMode::ConfirmDelete(id) => Some(Message::ConfirmDelete(id)),
            _ => None,
        }
    } else {
        None
    }
}

/// The texts of the shortcut bar spelled out character by character (so
/// that distinct texts are known to differ).
proof fn lemma_bar_texts()
    ensures
        "j/k"@.len() == 3 && "j/k"@[0] == 'j' && "j/k"@[1] == '/' && "j/k"@[2] == 'k',
        "h/l"@.len() == 3 && "h/l"@[0] == 'h' && "h/l"@[1] == '/' && "h/l"@[2] == 'l',
        "J/K"@.len() == 3 && "J/K"@[0] == 'J' && "J/K"@[1] == '/' && "J/K"@[2] == 'K',
        "s/Tab"@.len() == 5 && "s/Tab"@[0] == 's' && "s/Tab"@[1] == '/' && "s/Tab"@[2] == 'T' && "s/Tab"@[3] == 'a' && "s/Tab"@[4] == 'b',
        "y / Enter"@.len() == 9 && "y / Enter"@[0] == 'y' && "y / Enter"@[1] == ' ' && "y / Enter"@[2] == '/' && "y / Enter"@[3] == ' ' && "y / Enter"@[4] == 'E' && "y / Enter"@[5] == 'n' && "y / Enter"@[6] == 't' && "y / Enter"@[7] == 'e' && "y / Enter"@[8] == 'r',
        "n / Esc"@.len() == 7 && "n / Esc"@[0] == 'n' && "n / Esc"@[1] == ' ' && "n / Esc"@[2] == '/' && "n / Esc"@[3] == ' ' && "n / Esc"@[4] == 'E' && "n / Esc"@[5] == 's' && "n / Esc"@[6] == 'c',
        "Space"@.len() == 5 && "Space"@[0] == 'S' && "Space"@[1] == 'p' && "Space"@[2] == 'a' && "Space"@[3] == 'c' && "Space"@[4] == 'e',
        "Enter"@.len() == 5 && "Enter"@[0] == 'E' && "Enter"@[1] == 'n' && "Enter"@[2] == 't' && "Enter"@[3] == 'e' && "Enter"@[4] == 'r',
        "Esc"@.len() == 3 && "Esc"@[0] == 'E' && "Esc"@[1] == 's' && "Esc"@[2] == 'c',
        "Esc / ?"@.len() == 7 && "Esc / ?"@[0] == 'E' && "Esc / ?"@[1] == 's' && "Esc / ?"@[2] == 'c' && "Esc / ?"@[3] == ' ' && "Esc / ?"@[4] == '/' && "Esc / ?"@[5] == ' ' && "Esc / ?"@[6] == '?',
        "t"@.len() == 1 && "t"@[0] == 't',
        "i"@.len() == 1 && "i"@[0] == 'i',
        "n"@.len() == 1 && "n"@[0] == 'n',
        "d"@.len() == 1 && "d"@[0] == 'd',
        "o"@.len() == 1 && "o"@[0] == 'o',
        "?"@.len() == 1 && "?"@[0] == '?',
        "q"@.len() == 1 && "q"@[0] == 'q',
        "r"@.len() == 1 && "r"@[0] == 'r',
        "e"@.len() == 1 && "e"@[0] == 'e',
        "Navigate"@.len() == 8 && "Navigate"@[0] == 'N' && "Navigate"@[1] == 'a' && "Navigate"@[2] == 'v' && "Navigate"@[3] == 'i' && "Navigate"@[4] == 'g' && "Navigate"@[5] == 'a' && "Navigate"@[6] == 't' && "Navigate"@[7] == 'e',
        "+/-Day"@.len() == 6 && "+/-Day"@[0] == '+' && "+/-Day"@[1] == '/' && "+/-Day"@[2] == '-' && "+/-Day"@[3] == 'D' && "+/-Day"@[4] == 'a' && "+/-Day"@[5] == 'y',
        "Reorder"@.len() == 7 && "Reorder"@[0] == 'R' && "Reorder"@[1] == 'e' && "Reorder"@[2] == 'o' && "Reorder"@[3] == 'r' && "Reorder"@[4] == 'd' && "Reorder"@[5] == 'e' && "Reorder"@[6] == 'r',
        "Toggle"@.len() == 6 && "Toggle"@[0] == 'T' && "Toggle"@[1] == 'o' && "Toggle"@[2] == 'g' && "Toggle"@[3] == 'g' && "Toggle"@[4] == 'l' && "Toggle"@[5] == 'e',
        "Today"@.len() == 5 && "Today"@[0] == 'T' && "Today"@[1] == 'o' && "Today"@[2] == 'd' && "Today"@[3] == 'a' && "Today"@[4] == 'y',
        "Add To-Do"@.len() == 9 && "Add To-Do"@[0] == 'A' && "Add To-Do"@[1] == 'd' && "Add To-Do"@[2] == 'd' && "Add To-Do"@[3] == ' ' && "Add To-Do"@[4] == 'T' && "Add To-Do"@[5] == 'o' && "Add To-Do"@[6] == '-' && "Add To-Do"@[7] == 'D' && "Add To-Do"@[8] == 'o',
        "Add Habit"@.len() == 9 && "Add Habit"@[0] == 'A' && "Add Habit"@[1] == 'd' && "Add Habit"@[2] == 'd' && "Add Habit"@[3] == ' ' && "Add Habit"@[4] == 'H' && "Add Habit"@[5] == 'a' && "Add Habit"@[6] == 'b' && "Add Habit"@[7] == 'i' && "Add Habit"@[8] == 't',
        "Edit"@.len() == 4 && "Edit"@[0] == 'E' && "Edit"@[1] == 'd' && "Edit"@[2] == 'i' && "Edit"@[3] == 't',
        "Notes"@.len() == 5 && "Notes"@[0] == 'N' && "Notes"@[1] == 'o' && "Notes"@[2] == 't' && "Notes"@[3] == 'e' && "Notes"@[4] == 's',
        "Delete"@.len() == 6 && "Delete"@[0] == 'D' && "Delete"@[1] == 'e' && "Delete"@[2] == 'l' && "Delete"@[3] == 'e' && "Delete"@[4] == 't' && "Delete"@[5] == 'e',
        "Archive"@.len() == 7 && "Archive"@[0] == 'A' && "Archive"@[1] == 'r' && "Archive"@[2] == 'c' && "Archive"@[3] == 'h' && "Archive"@[4] == 'i' && "Archive"@[5] == 'v' && "Archive"@[6] == 'e',
        "Rename"@.len() == 6 && "Rename"@[0] == 'R' && "Rename"@[1] == 'e' && "Rename"@[2] == 'n' && "Rename"@[3] == 'a' && "Rename"@[4] == 'm' && "Rename"@[5] == 'e',
        "Export JSON"@.len() == 11 && "Export JSON"@[0] == 'E' && "Export JSON"@[1] == 'x' && "Export JSON"@[2] == 'p' && "Export JSON"@[3] == 'o' && "Export JSON"@[4] == 'r' && "Export JSON"@[5] == 't' && "Export JSON"@[6] == ' ' && "Export JSON"@[7] == 'J' && "Export JSON"@[8] == 'S' && "Export JSON"@[9] == 'O' && "Export JSON"@[10] == 'N',
        "Sidebar"@.len() == 7 && "Sidebar"@[0] == 'S' && "Sidebar"@[1] == 'i' && "Sidebar"@[2] == 'd' && "Sidebar"@[3] == 'e' && "Sidebar"@[4] == 'b' && "Sidebar"@[5] == 'a' && "Sidebar"@[6] == 'r',
        "Settings"@.len() == 8 && "Settings"@[0] == 'S' && "Settings"@[1] == 'e' && "Settings"@[2] == 't' && "Settings"@[3] == 't' && "Settings"@[4] == 'i' && "Settings"@[5] == 'n' && "Settings"@[6] == 'g' && "Settings"@[7] == 's',
        "Back"@.len() == 4 && "Back"@[0] == 'B' && "Back"@[1] == 'a' && "Back"@[2] == 'c' && "Back"@[3] == 'k',
        "Help"@.len() == 4 && "Help"@[0] == 'H' && "Help"@[1] == 'e' && "Help"@[2] == 'l' && "Help"@[3] == 'p',
        "Quit"@.len() == 4 && "Quit"@[0] == 'Q' && "Quit"@[1] == 'u' && "Quit"@[2] == 'i' && "Quit"@[3] == 't',
        "Cancel"@.len() == 6 && "Cancel"@[0] == 'C' && "Cancel"@[1] == 'a' && "Cancel"@[2] == 'n' && "Cancel"@[3] == 'c' && "Cancel"@[4] == 'e' && "Cancel"@[5] == 'l',
        "Save Task"@.len() == 9 && "Save Task"@[0] == 'S' && "Save Task"@[1] == 'a' && "Save Task"@[2] == 'v' && "Save Task"@[3] == 'e' && "Save Task"@[4] == ' ' && "Save Task"@[5] == 'T' && "Save Task"@[6] == 'a' && "Save Task"@[7] == 's' && "Save Task"@[8] == 'k',
        "Save Title"@.len() == 10 && "Save Title"@[0] == 'S' && "Save Title"@[1] == 'a' && "Save Title"@[2] == 'v' && "Save Title"@[3] == 'e' && "Save Title"@[4] == ' ' && "Save Title"@[5] == 'T' && "Save Title"@[6] == 'i' && "Save Title"@[7] == 't' && "Save Title"@[8] == 'l' && "Save Title"@[9] == 'e',
        "Save Notes"@.len() == 10 && "Save Notes"@[0] == 'S' && "Save Notes"@[1] == 'a' && "Save Notes"@[2] == 'v' && "Save Notes"@[3] == 'e' && "Save Notes"@[4] == ' ' && "Save Notes"@[5] == 'N' && "Save Notes"@[6] == 'o' && "Save Notes"@[7] == 't' && "Save Notes"@[8] == 'e' && "Save Notes"@[9] == 's',
        "Save Habit"@.len() == 10 && "Save Habit"@[0] == 'S' && "Save Habit"@[1] == 'a' && "Save Habit"@[2] == 'v' && "Save Habit"@[3] == 'e' && "Save Habit"@[4] == ' ' && "Save Habit"@[5] == 'H' && "Save Habit"@[6] == 'a' && "Save Habit"@[7] == 'b' && "Save Habit"@[8] == 'i' && "Save Habit"@[9] == 't',
        "Save Name"@.len() == 9 && "Save Name"@[0] == 'S' && "Save Name"@[1] == 'a' && "Save Name"@[2] == 'v' && "Save Name"@[3] == 'e' && "Save Name"@[4] == ' ' && "Save Name"@[5] == 'N' && "Save Name"@[6] == 'a' && "Save Name"@[7] == 'm' && "Save Name"@[8] == 'e',
        "Confirm Delete"@.len() == 14 && "Confirm Delete"@[0] == 'C' && "Confirm Delete"@[1] == 'o' && "Confirm Delete"@[2] == 'n' && "Confirm Delete"@[3] == 'f' && "Confirm Delete"@[4] == 'i' && "Confirm Delete"@[5] == 'r' && "Confirm Delete"@[6] == 'm' && "Confirm Delete"@[7] == ' ' && "Confirm Delete"@[8] == 'D' && "Confirm Delete"@[9] == 'e' && "Confirm Delete"@[10] == 'l' && "Confirm Delete"@[11] == 'e' && "Confirm Delete"@[12] == 't' && "Confirm Delete"@[13] == 'e',
        "Close Help"@.len() == 10 && "Close Help"@[0] == 'C' && "Close Help"@[1] == 'l' && "Close Help"@[2] == 'o' && "Close Help"@[3] == 's' && "Close Help"@[4] == 'e' && "Close Help"@[5] == ' ' && "Close Help"@[6] == 'H' && "Close Help"@[7] == 'e' && "Close Help"@[8] == 'l' && "Close Help"@[9] == 'p',
{
    reveal_strlit("j/k");
    assert("j/k"@.len() == 3);
    assert("j/k"@[0] == 'j');
    assert("j/k"@[1] == '/');
    assert("j/k"@[2] == 'k');
    reveal_strlit("h/l");
    assert("h/l"@.len() == 3);
    assert("h/l"@[0] == 'h');
    assert("h/l"@[1] == '/');
    assert("h/l"@[2] == 'l');
    reveal_strlit("J/K");
    assert("J/K"@.len() == 3);
    assert("J/K"@[0] == 'J');
    assert("J/K"@[1] == '/');
    assert("J/K"@[2] == 'K');
    reveal_strlit("s/Tab");
    assert("s/Tab"@.len() == 5);
    assert("s/Tab"@[0] == 's');
    assert("s/Tab"@[1] == '/');
    assert("s/Tab"@[2] == 'T');
    assert("s/Tab"@[3] == 'a');
    assert("s/Tab"@[4] == 'b');
    reveal_strlit("y / Enter");
    assert("y / Enter"@.len() == 9);
    assert("y / Enter"@[0] == 'y');
    assert("y / Enter"@[1] == ' ');
    assert("y / Enter"@[2] == '/');
    assert("y / Enter"@[3] == ' ');
    assert("y / Enter"@[4] == 'E');
    assert("y / Enter"@[5] == 'n');
    assert("y / Enter"@[6] == 't');
    assert("y / Enter"@[7] == 'e');
    assert("y / Enter"@[8] == 'r');
    reveal_strlit("n / Esc");
    assert("n / Esc"@.len() == 7);
    assert("n / Esc"@[0] == 'n');
    assert("n / Esc"@[1] == ' ');
    assert("n / Esc"@[2] == '/');
    assert("n / Esc"@[3] == ' ');
    assert("n / Esc"@[4] == 'E');
    assert("n / Esc"@[5] == 's');
    assert("n / Esc"@[6] == 'c');
    reveal_strlit("Space");
    assert("Space"@.len() == 5);
    assert("Space"@[0] == 'S');
    assert("Space"@[1] == 'p');
    assert("Space"@[2] == 'a');
    assert("Space"@[3] == 'c');
    assert("Space"@[4] == 'e');
    reveal_strlit("Enter");
    assert("Enter"@.len() == 5);
    assert("Enter"@[0] == 'E');
    assert("Enter"@[1] == 'n');
    assert("Enter"@[2] == 't');
    assert("Enter"@[3] == 'e');
    assert("Enter"@[4] == 'r');
    reveal_strlit("Esc");
    assert("Esc"@.len() == 3);
    assert("Esc"@[0] == 'E');
    assert("Esc"@[1] == 's');
    assert("Esc"@[2] == 'c');
    reveal_strlit("Esc / ?");
    assert("Esc / ?"@.len() == 7);
    assert("Esc / ?"@[0] == 'E');
    assert("Esc / ?"@[1] == 's');
    assert("Esc / ?"@[2] == 'c');
    assert("Esc / ?"@[3] == ' ');
    assert("Esc / ?"@[4] == '/');
    assert("Esc / ?"@[5] == ' ');
    assert("Esc / ?"@[6] == '?');
    reveal_strlit("t");
    assert("t"@.len() == 1);
    assert("t"@[0] == 't');
    reveal_strlit("i");
    assert("i"@.len() == 1);
    assert("i"@[0] == 'i');
    reveal_strlit("n");
    assert("n"@.len() == 1);
    assert("n"@[0] == 'n');
    reveal_strlit("d");
    assert("d"@.len() == 1);
    assert("d"@[0] == 'd');
    reveal_strlit("o");
    assert("o"@.len() == 1);
    assert("o"@[0] == 'o');
    reveal_strlit("?");
    assert("?"@.len() == 1);
    assert("?"@[0] == '?');
    reveal_strlit("q");
    assert("q"@.len() == 1);
    assert("q"@[0] == 'q');
    reveal_strlit("r");
    assert("r"@.len() == 1);
    assert("r"@[0] == 'r');
    reveal_strlit("e");
    assert("e"@.len() == 1);
    assert("e"@[0] == 'e');
    reveal_strlit("Navigate");
    assert("Navigate"@.len() == 8);
    assert("Navigate"@[0] == 'N');
    assert("Navigate"@[1] == 'a');
    assert("Navigate"@[2] == 'v');
    assert("Navigate"@[3] == 'i');
    assert("Navigate"@[4] == 'g');
    assert("Navigate"@[5] == 'a');
    assert("Navigate"@[6] == 't');
    assert("Navigate"@[7] == 'e');
    reveal_strlit("+/-Day");
    assert("+/-Day"@.len() == 6);
    assert("+/-Day"@[0] == '+');
    assert("+/-Day"@[1] == '/');
    assert("+/-Day"@[2] == '-');
    assert("+/-Day"@[3] == 'D');
    assert("+/-Day"@[4] == 'a');
    assert("+/-Day"@[5] == 'y');
    reveal_strlit("Reorder");
    assert("Reorder"@.len() == 7);
    assert("Reorder"@[0] == 'R');
    assert("Reorder"@[1] == 'e');
    assert("Reorder"@[2] == 'o');
    assert("Reorder"@[3] == 'r');
    assert("Reorder"@[4] == 'd');
    assert("Reorder"@[5] == 'e');
    assert("Reorder"@[6] == 'r');
    reveal_strlit("Toggle");
    assert("Toggle"@.len() == 6);
    assert("Toggle"@[0] == 'T');
    assert("Toggle"@[1] == 'o');
    assert("Toggle"@[2] == 'g');
    assert("Toggle"@[3] == 'g');
    assert("Toggle"@[4] == 'l');
    assert("Toggle"@[5] == 'e');
    reveal_strlit("Today");
    assert("Today"@.len() == 5);
    assert("Today"@[0] == 'T');
    assert("Today"@[1] == 'o');
    assert("Today"@[2] == 'd');
    assert("Today"@[3] == 'a');
    assert("Today"@[4] == 'y');
    reveal_strlit("Add To-Do");
    assert("Add To-Do"@.len() == 9);
    assert("Add To-Do"@[0] == 'A');
    assert("Add To-Do"@[1] == 'd');
    assert("Add To-Do"@[2] == 'd');
    assert("Add To-Do"@[3] == ' ');
    assert("Add To-Do"@[4] == 'T');
    assert("Add To-Do"@[5] == 'o');
    assert("Add To-Do"@[6] == '-');
    assert("Add To-Do"@[7] == 'D');
    assert("Add To-Do"@[8] == 'o');
    reveal_strlit("Add Habit");
    assert("Add Habit"@.len() == 9);
    assert("Add Habit"@[0] == 'A');
    assert("Add Habit"@[1] == 'd');
    assert("Add Habit"@[2] == 'd');
    assert("Add Habit"@[3] == ' ');
    assert("Add Habit"@[4] == 'H');
    assert("Add Habit"@[5] == 'a');
    assert("Add Habit"@[6] == 'b');
    assert("Add Habit"@[7] == 'i');
    assert("Add Habit"@[8] == 't');
    reveal_strlit("Edit");
    assert("Edit"@.len() == 4);
    assert("Edit"@[0] == 'E');
    assert("Edit"@[1] == 'd');
    assert("Edit"@[2] == 'i');
    assert("Edit"@[3] == 't');
    reveal_strlit("Notes");
    assert("Notes"@.len() == 5);
    assert("Notes"@[0] == 'N');
    assert("Notes"@[1] == 'o');
    assert("Notes"@[2] == 't');
    assert("Notes"@[3] == 'e');
    assert("Notes"@[4] == 's');
    reveal_strlit("Delete");
    assert("Delete"@.len() == 6);
    assert("Delete"@[0] == 'D');
    assert("Delete"@[1] == 'e');
    assert("Delete"@[2] == 'l');
    assert("Delete"@[3] == 'e');
    assert("Delete"@[4] == 't');
    assert("Delete"@[5] == 'e');
    reveal_strlit("Archive");
    assert("Archive"@.len() == 7);
    assert("Archive"@[0] == 'A');
    assert("Archive"@[1] == 'r');
    assert("Archive"@[2] == 'c');
    assert("Archive"@[3] == 'h');
    assert("Archive"@[4] == 'i');
    assert("Archive"@[5] == 'v');
    assert("Archive"@[6] == 'e');
    reveal_strlit("Rename");
    assert("Rename"@.len() == 6);
    assert("Rename"@[0] == 'R');
    assert("Rename"@[1] == 'e');
    assert("Rename"@[2] == 'n');
    assert("Rename"@[3] == 'a');
    assert("Rename"@[4] == 'm');
    assert("Rename"@[5] == 'e');
    reveal_strlit("Export JSON");
    assert("Export JSON"@.len() == 11);
    assert("Export JSON"@[0] == 'E');
    assert("Export JSON"@[1] == 'x');
    assert("Export JSON"@[2] == 'p');
    assert("Export JSON"@[3] == 'o');
    assert("Export JSON"@[4] == 'r');
    assert("Export JSON"@[5] == 't');
    assert("Export JSON"@[6] == ' ');
    assert("Export JSON"@[7] == 'J');
    assert("Export JSON"@[8] == 'S');
    assert("Export JSON"@[9] == 'O');
    assert("Export JSON"@[10] == 'N');
    reveal_strlit("Sidebar");
    assert("Sidebar"@.len() == 7);
    assert("Sidebar"@[0] == 'S');
    assert("Sidebar"@[1] == 'i');
    assert("Sidebar"@[2] == 'd');
    assert("Sidebar"@[3] == 'e');
    assert("Sidebar"@[4] == 'b');
    assert("Sidebar"@[5] == 'a');
    assert("Sidebar"@[6] == 'r');
    reveal_strlit("Settings");
    assert("Settings"@.len() == 8);
    assert("Settings"@[0] == 'S');
    assert("Settings"@[1] == 'e');
    assert("Settings"@[2] == 't');
    assert("Settings"@[3] == 't');
    assert("Settings"@[4] == 'i');
    assert("Settings"@[5] == 'n');
    assert("Settings"@[6] == 'g');
    assert("Settings"@[7] == 's');
    reveal_strlit("Back");
    assert("Back"@.len() == 4);
    assert("Back"@[0] == 'B');
    assert("Back"@[1] == 'a');
    assert("Back"@[2] == 'c');
    assert("Back"@[3] == 'k');
    reveal_strlit("Help");
    assert("Help"@.len() == 4);
    assert("Help"@[0] == 'H');
    assert("Help"@[1] == 'e');
    assert("Help"@[2] == 'l');
    assert("Help"@[3] == 'p');
    reveal_strlit("Quit");
    assert("Quit"@.len() == 4);
    assert("Quit"@[0] == 'Q');
    assert("Quit"@[1] == 'u');
    assert("Quit"@[2] == 'i');
    assert("Quit"@[3] == 't');
    reveal_strlit("Cancel");
    assert("Cancel"@.len() == 6);
    assert("Cancel"@[0] == 'C');
    assert("Cancel"@[1] == 'a');
    assert("Cancel"@[2] == 'n');
    assert("Cancel"@[3] == 'c');
    assert("Cancel"@[4] == 'e');
    assert("Cancel"@[5] == 'l');
    reveal_strlit("Save Task");
    assert("Save Task"@.len() == 9);
    assert("Save Task"@[0] == 'S');
    assert("Save Task"@[1] == 'a');
    assert("Save Task"@[2] == 'v');
    assert("Save Task"@[3] == 'e');
    assert("Save Task"@[4] == ' ');
    assert("Save Task"@[5] == 'T');
    assert("Save Task"@[6] == 'a');
    assert("Save Task"@[7] == 's');
    assert("Save Task"@[8] == 'k');
    reveal_strlit("Save Title");
    assert("Save Title"@.len() == 10);
    assert("Save Title"@[0] == 'S');
    assert("Save Title"@[1] == 'a');
    assert("Save Title"@[2] == 'v');
    assert("Save Title"@[3] == 'e');
    assert("Save Title"@[4] == ' ');
    assert("Save Title"@[5] == 'T');
    assert("Save Title"@[6] == 'i');
    assert("Save Title"@[7] == 't');
    assert("Save Title"@[8] == 'l');
    assert("Save Title"@[9] == 'e');
    reveal_strlit("Save Notes");
    assert("Save Notes"@.len() == 10);
    assert("Save Notes"@[0] == 'S');
    assert("Save Notes"@[1] == 'a');
    assert("Save Notes"@[2] == 'v');
    assert("Save Notes"@[3] == 'e');
    assert("Save Notes"@[4] == ' ');
    assert("Save Notes"@[5] == 'N');
    assert("Save Notes"@[6] == 'o');
    assert("Save Notes"@[7] == 't');
    assert("Save Notes"@[8] == 'e');
    assert("Save Notes"@[9] == 's');
    reveal_strlit("Save Habit");
    assert("Save Habit"@.len() == 10);
    assert("Save Habit"@[0] == 'S');
    assert("Save Habit"@[1] == 'a');
    assert("Save Habit"@[2] == 'v');
    assert("Save Habit"@[3] == 'e');
    assert("Save Habit"@[4] == ' ');
    assert("Save Habit"@[5] == 'H');
    assert("Save Habit"@[6] == 'a');
    assert("Save Habit"@[7] == 'b');
    assert("Save Habit"@[8] == 'i');
    assert("Save Habit"@[9] == 't');
    reveal_strlit("Save Name");
    assert("Save Name"@.len() == 9);
    assert("Save Name"@[0] == 'S');
    assert("Save Name"@[1] == 'a');
    assert("Save Name"@[2] == 'v');
    assert("Save Name"@[3] == 'e');
    assert("Save Name"@[4] == ' ');
    assert("Save Name"@[5] == 'N');
    assert("Save Name"@[6] == 'a');
    assert("Save Name"@[7] == 'm');
    assert("Save Name"@[8] == 'e');
    reveal_strlit("Confirm Delete");
    assert("Confirm Delete"@.len() == 14);
    assert("Confirm Delete"@[0] == 'C');
    assert("Confirm Delete"@[1] == 'o');
    assert("Confirm Delete"@[2] == 'n');
    assert("Confirm Delete"@[3] == 'f');
    assert("Confirm Delete"@[4] == 'i');
    assert("Confirm Delete"@[5] == 'r');
    assert("Confirm Delete"@[6] == 'm');
    assert("Confirm Delete"@[7] == ' ');
    assert("Confirm Delete"@[8] == 'D');
    assert("Confirm Delete"@[9] == 'e');
    assert("Confirm Delete"@[10] == 'l');
    assert("Confirm Delete"@[11] == 'e');
    assert("Confirm Delete"@[12] == 't');
    assert("Confirm Delete"@[13] == 'e');
    reveal_strlit("Close Help");
    assert("Close Help"@.len() == 10);
    assert("Close Help"@[0] == 'C');
    assert("Close Help"@[1] == 'l');
    assert("Close Help"@[2] == 'o');
    assert("Close Help"@[3] == 's');
    assert("Close Help"@[4] == 'e');
    assert("Close Help"@[5] == ' ');
    assert("Close Help"@[6] == 'H');
    assert("Close Help"@[7] == 'e');
    assert("Close Help"@[8] == 'l');
    assert("Close Help"@[9] == 'p');
}

/// Every entry the shortcut bar shows (with the help overlay closed) tells
/// the truth: each key it names, pressed without modifiers on that screen
/// in that input mode, produces exactly the action its label names.
pub proof fn lemma_shortcut_bar_matches_keys(mode: InputMode, screen: Screen, i: int, j: int, k: Key)
    requires
        0 <= i < spec_shortcut_items(false, mode, screen).len(),
        bar_key(spec_shortcut_items(false, mode, screen)[i].0@, j, k),
    ensures
        bar_action(spec_shortcut_items(false, mode, screen)[i].1@, j, mode) is Some,
        spec_handle_key(
            k,
            Modifiers { shift: false, control: false, alt: false, logo: false },
            screen,
            mode,
        ) == bar_action(spec_shortcut_items(false, mode, screen)[i].1@, j, mode),
{
    lemma_bar_texts();
    crate::keybindings::lemma_key_letters();
}

} // verus!
