//! Properties of the state machine that span transitions.

use vstd::prelude::*;
use crate::app::message::Message;
use crate::app::state::{
    db_error_text, reload_finished_rel, shows_status, update_rel, write_finished_rel, AfterReload,
    AfterWrite, AppState, DbWrite, Effect, InputMode, ReloadData, Screen,
};
use crate::calendar::{
    date_before, lemma_pred_of_succ, lemma_succ_of_pred, max_year, min_year, spec_pred, spec_succ,
    CalendarDate,
};
use crate::domain::Habit;
use crate::queries::{lemma_first_index_of_is, spec_reorder};
use crate::text::{all_whitespace, lemma_trim_empty_iff_all_whitespace, lemma_trim_idempotent, spec_trim};

verus! {

/// No message moves the cursor off the list: a cursor within bounds stays
/// within bounds (messages never change the lists, and every screen switch
/// resets the cursor).
pub proof fn lemma_update_keeps_index_in_bounds(
    old: AppState,
    new: AppState,
    m: Message,
    eff: Effect,
    today: CalendarDate,
)
    requires
        old.wf(),
        old.index_in_bounds(),
        update_rel(old, new, m, eff, today),
    ensures
        new.index_in_bounds(),
{
}

/// A complete reload leaves the cursor within bounds, also after following
/// a moved habit.
pub proof fn lemma_reload_puts_index_in_bounds(
    old: AppState,
    new: AppState,
    then: AfterReload,
    data: ReloadData,
    eff: Effect,
)
    requires
        data.error is None,
        reload_finished_rel(old, new, then, data, eff),
    ensures
        new.index_in_bounds(),
{
}

/// Toggling the sidebar twice restores the state.
pub proof fn lemma_toggle_sidebar_twice(
    s0: AppState,
    s1: AppState,
    s2: AppState,
    e1: Effect,
    e2: Effect,
    t1: CalendarDate,
    t2: CalendarDate,
)
    requires
        update_rel(s0, s1, Message::ToggleSidebar, e1, t1),
        update_rel(s1, s2, Message::ToggleSidebar, e2, t2),
    ensures
        s2 == s0,
{
}

/// Toggling the help overlay twice restores the state.
pub proof fn lemma_toggle_help_twice(
    s0: AppState,
    s1: AppState,
    s2: AppState,
    e1: Effect,
    e2: Effect,
    t1: CalendarDate,
    t2: CalendarDate,
)
    requires
        update_rel(s0, s1, Message::ToggleHelp, e1, t1),
        update_rel(s1, s2, Message::ToggleHelp, e2, t2),
    ensures
        s2 == s0,
{
}

/// Going to the next day and back returns to the same date (and state),
/// unless the date is the last representable one.
pub proof fn lemma_next_then_previous_day(
    s0: AppState,
    s1: AppState,
    s2: AppState,
    e1: Effect,
    e2: Effect,
    t1: CalendarDate,
    t2: CalendarDate,
)
    requires
        s0.wf(),
        spec_succ(s0.selected_date) is Some,
        update_rel(s0, s1, Message::NextDay, e1, t1),
        update_rel(s1, s2, Message::PreviousDay, e2, t2),
    ensures
        s2 == s0,
        e1 == Effect::Reload(AfterReload::Nothing),
        e2 == Effect::Reload(AfterReload::Nothing),
{
    lemma_pred_of_succ(s0.selected_date);
}

/// Going to the previous day and back returns to the same date (and
/// state), unless the date is the first representable one.
pub proof fn lemma_previous_then_next_day(
    s0: AppState,
    s1: AppState,
    s2: AppState,
    e1: Effect,
    e2: Effect,
    t1: CalendarDate,
    t2: CalendarDate,
)
    requires
        s0.wf(),
        spec_pred(s0.selected_date) is Some,
        update_rel(s0, s1, Message::PreviousDay, e1, t1),
        update_rel(s1, s2, Message::NextDay, e2, t2),
    ensures
        s2 == s0,
{
    lemma_succ_of_pred(s0.selected_date);
}

/// Moving the cursor down and back up returns to the same item when there
/// is an item below.
pub proof fn lemma_navigate_down_then_up(
    s0: AppState,
    s1: AppState,
    s2: AppState,
    e1: Effect,
    e2: Effect,
    t1: CalendarDate,
    t2: CalendarDate,
)
    requires
        s0.wf(),
        s0.selected_index + 1 < s0.total_items(),
        update_rel(s0, s1, Message::NavigateDown, e1, t1),
        update_rel(s1, s2, Message::NavigateUp, e2, t2),
    ensures
        s2 == s0,
        s1.selected_index == s0.selected_index + 1,
{
}

/// A habit name or to-do title made only of whitespace stores nothing: the
/// input just closes.
pub proof fn lemma_blank_input_writes_nothing(
    old: AppState,
    new: AppState,
    m: Message,
    eff: Effect,
    today: CalendarDate,
)
    requires
        update_rel(old, new, m, eff, today),
        match m {
            Message::AddHabit(name) => all_whitespace(name@),
            Message::RenameHabit(_, name) => all_whitespace(name@),
            Message::AddTodo { title, .. } => all_whitespace(title@),
            _ => false,
        },
    ensures
        eff is Idle,
        new == (AppState { input_mode: InputMode::Normal, ..old }),
{
    match m {
        Message::AddHabit(name) => lemma_trim_empty_iff_all_whitespace(name@),
        Message::RenameHabit(_, name) => lemma_trim_empty_iff_all_whitespace(name@),
        Message::AddTodo { title, .. } => lemma_trim_empty_iff_all_whitespace(title@),
        _ => {},
    }
}

/// Every failed storage mutation is reported in the status line as a
/// database error.
pub proof fn lemma_failed_write_is_reported(
    old: AppState,
    new: AppState,
    then: AfterWrite,
    e: String,
    eff: Effect,
)
    requires
        write_finished_rel(old, new, then, Err(e), eff),
    ensures
        shows_status(new, db_error_text(e@)),
{
}

/// Every successful storage mutation is followed by a reload of the data,
/// except a saved title, which is followed by saving the notes.
pub proof fn lemma_successful_write_reloads(
    old: AppState,
    new: AppState,
    then: AfterWrite,
    eff: Effect,
)
    requires
        write_finished_rel(old, new, then, Ok(()), eff),
    ensures
        then is TitleSaved ==> eff is Write,
        !(then is TitleSaved) ==> eff is Reload,
{
}

/// A failed reload is reported in the status line as a database error.
pub proof fn lemma_failed_reload_is_reported(
    old: AppState,
    new: AppState,
    then: AfterReload,
    data: ReloadData,
    eff: Effect,
)
    requires
        data.error is Some,
        reload_finished_rel(old, new, then, data, eff),
    ensures
        shows_status(new, db_error_text(data.error->0@)),
{
}

/// Cancelling from any text input or confirmation returns to Normal mode
/// with both input buffers empty, whatever else is open.
pub proof fn lemma_cancel_leaves_input(
    old: AppState,
    new: AppState,
    eff: Effect,
    today: CalendarDate,
)
    requires
        old.input_mode != InputMode::Normal,
        update_rel(old, new, Message::CancelModal, eff, today),
    ensures
        new.input_mode == InputMode::Normal,
        new.input_buffer@.len() == 0,
        new.notes_buffer@.len() == 0,
        new.screen == old.screen,
        new.show_help == old.show_help,
{
}

/// Deleting a to-do always goes through the confirmation dialog: asking to
/// delete the selected item writes nothing, and only a confirmation (the
/// dialog's `y`/Enter, or submitting it) requests the deletion, of exactly
/// the to-do it names.
pub proof fn lemma_delete_needs_confirmation(
    old: AppState,
    new: AppState,
    eff: Effect,
    today: CalendarDate,
    id: i64,
)
    ensures
        update_rel(old, new, Message::DeleteSelected, eff, today) ==> eff is Idle,
        update_rel(old, new, Message::ConfirmDelete(id), eff, today) ==> eff == Effect::Write(
            DbWrite::DeleteTodo { todo_id: id },
            AfterWrite::CloseInput,
        ),
{
}

/// Ids of the listed habits, in display order.
pub open spec fn habit_ids(habits: Seq<(Habit, bool)>) -> Seq<i64> {
    habits.map_values(|h: (Habit, bool)| h.0.id)
}

/// Display order after moving `id`: the reordered ids, or the same ids when
/// the habit is already at that end.
pub open spec fn order_after_move(ids: Seq<i64>, id: i64, up: bool) -> Seq<i64> {
    match spec_reorder(ids, id, up) {
        Some(o) => o,
        None => ids,
    }
}

/// Moving the selected habit in Settings keeps the cursor on it: the move
/// is requested for that habit, a successful write asks for a reload that
/// follows the move, and once the reload delivers the store's new order the
/// cursor is on the moved habit again.
pub proof fn lemma_reorder_cursor_follows_habit(
    s0: AppState,
    s1: AppState,
    s2: AppState,
    s3: AppState,
    up: bool,
    today: CalendarDate,
    e1: Effect,
    e2: Effect,
    e3: Effect,
    data: ReloadData,
)
    requires
        s0.wf(),
        s0.screen == Screen::Settings,
        s0.selected_index < s0.habits@.len(),
        habit_ids(s0.habits@).no_duplicates(),
        update_rel(s0, s1, Message::ReorderSelected(up), e1, today),
        write_finished_rel(s1, s2, AfterWrite::Reorder(up), Ok(()), e2),
        data.error is None,
        data.habits matches Some(h) && habit_ids(h@) == order_after_move(
            habit_ids(s0.habits@),
            s0.habits@[s0.selected_index as int].0.id,
            up,
        ),
        reload_finished_rel(s2, s3, AfterReload::AdjustAfterReorder(up), data, e3),
    ensures
        e1 == Effect::Write(
            DbWrite::ReorderHabit {
                habit_id: s0.habits@[s0.selected_index as int].0.id,
                move_up: up,
            },
            AfterWrite::Reorder(up),
        ),
        e2 == Effect::Reload(AfterReload::AdjustAfterReorder(up)),
        s3.selected_index < s3.habits@.len(),
        s3.habits@[s3.selected_index as int].0.id == s0.habits@[s0.selected_index as int].0.id,
{
    let ids = habit_ids(s0.habits@);
    let i = s0.selected_index as int;
    let id = ids[i];
    assert forall|k: int| 0 <= k < i implies ids[k] != id by {
        assert(ids[k] != ids[i]);
    }
    lemma_first_index_of_is(ids, id, i);
    let h = data.habits->0;
    let hi = habit_ids(h@);
    assert(hi.len() == h@.len());
    assert(s2 == s0);
    if up {
        if i > 0 {
            assert(hi[i - 1] == id);
            assert(h@[i - 1].0.id == hi[i - 1]);
        } else {
            assert(h@[i].0.id == hi[i]);
        }
    } else {
        if i + 1 < ids.len() {
            assert(hi[i + 1] == id);
            assert(h@[i + 1].0.id == hi[i + 1]);
        } else {
            assert(h@[i].0.id == hi[i]);
        }
    }
}

/// A complete reload replaces every loaded list with what the store
/// delivered, keeps the selected date, and brings the cursor back within
/// the list.
pub proof fn lemma_complete_reload_replaces_caches(
    old: AppState,
    new: AppState,
    data: ReloadData,
    eff: Effect,
)
    requires
        data.error is None,
        data.habits is Some,
        data.todos is Some,
        data.daily_stats_30_days is Some,
        data.habit_success_days is Some,
        data.monthly_heatmap is Some,
        reload_finished_rel(old, new, AfterReload::Nothing, data, eff),
    ensures
        new.habits == data.habits->0,
        new.todos == data.todos->0,
        new.daily_stats_30_days == data.daily_stats_30_days->0,
        new.habit_success_days == data.habit_success_days->0,
        new.monthly_heatmap == data.monthly_heatmap->0,
        new.selected_date == old.selected_date,
        new.selected_index == (AppState { habits: new.habits, todos: new.todos, ..old }).clamped_index(),
        new.index_in_bounds(),
        eff is Idle,
{
}

/// Acting on the item under the cursor of the Main screen: Space (toggle)
/// flips the habit's completion on the selected date or the to-do's; x
/// (complete) does so only for an item not yet done, so it never
/// un-completes anything. Neither changes the state itself, and neither
/// acts on the Settings screen.
pub proof fn lemma_selected_item_actions(
    old: AppState,
    new: AppState,
    eff: Effect,
    today: CalendarDate,
    m: Message,
)
    requires
        m == Message::ToggleSelected || m == Message::CompleteSelected,
        update_rel(old, new, m, eff, today),
    ensures
        new == old,
        old.screen == Screen::Settings ==> eff is Idle,
        old.screen == Screen::Main && old.selected_index < old.habits@.len() ==> {
            let (h, done) = old.habits@[old.selected_index as int];
            if m == Message::CompleteSelected && done {
                eff is Idle
            } else {
                eff == Effect::Write(
                    DbWrite::ToggleHabit { habit_id: h.id, date: old.selected_date },
                    AfterWrite::Reload,
                )
            }
        },
        old.screen == Screen::Main && old.habits@.len() <= old.selected_index
            && old.selected_index - old.habits@.len() < old.todos@.len() ==> {
            let t = old.todos@[old.selected_index - old.habits@.len()];
            if m == Message::CompleteSelected && t.completed {
                eff is Idle
            } else {
                eff == Effect::Write(DbWrite::ToggleTodo { todo_id: t.id }, AfterWrite::Reload)
            }
        },
        old.screen == Screen::Main && old.selected_index >= old.habits@.len() + old.todos@.len()
            ==> eff is Idle,
{
}

/// Opening the notes editor (n) on the to-do under the cursor puts that
/// to-do's current notes in the notes input (empty when it has none) and
/// clears the title input; nothing else but the mode changes.
pub proof fn lemma_edit_notes_loads_notes(
    old: AppState,
    new: AppState,
    eff: Effect,
    today: CalendarDate,
)
    requires
        update_rel(old, new, Message::StartEditNotes, eff, today),
        old.screen == Screen::Main,
        old.habits@.len() <= old.selected_index,
        old.selected_index - old.habits@.len() < old.todos@.len(),
    ensures
        ({
            let t = old.todos@[old.selected_index - old.habits@.len()];
            &&& new.input_mode == InputMode::EditingNotes(t.id)
            &&& match t.notes {
                Some(n) => new.notes_buffer@ == n@,
                None => new.notes_buffer@.len() == 0,
            }
        }),
        new.input_buffer@.len() == 0,
        new.habits == old.habits,
        new.todos == old.todos,
        new.selected_index == old.selected_index,
        new.selected_date == old.selected_date,
        new.screen == old.screen,
{
}

/// Opening the notes editor and submitting it unchanged keeps the to-do's
/// notes: the save requested is for that to-do, with the same (trimmed)
/// notes text, and notes that are empty or absent are saved as absent.
pub proof fn lemma_unchanged_notes_are_kept(
    s0: AppState,
    s1: AppState,
    s2: AppState,
    e1: Effect,
    e2: Effect,
    today: CalendarDate,
)
    requires
        update_rel(s0, s1, Message::StartEditNotes, e1, today),
        update_rel(s1, s2, Message::SubmitInput, e2, today),
        s0.screen == Screen::Main,
        s0.habits@.len() <= s0.selected_index,
        s0.selected_index - s0.habits@.len() < s0.todos@.len(),
        s0.todos@[s0.selected_index - s0.habits@.len()].notes matches Some(n) ==> spec_trim(n@)
            == n@,
    ensures
        ({
            let t = s0.todos@[s0.selected_index - s0.habits@.len()];
            &&& e2 matches Effect::Write(
                DbWrite::UpdateTodoNotes { todo_id: id, notes: saved },
                AfterWrite::EditFinished { clear_input: false },
            )
            &&& id == t.id
            &&& match saved {
                Some(x) => t.notes matches Some(n) && x@ == n@ && n@.len() > 0,
                None => t.notes matches None || (t.notes matches Some(n) && n@.len() == 0),
            }
        }),
        s2 == s1,
{
    let t = s0.todos@[s0.selected_index - s0.habits@.len()];
    if t.notes is None {
        lemma_trim_empty_iff_all_whitespace(s1.notes_buffer@);
    }
}

/// Number of items the cursor ranges over on the active screen.
pub open spec fn items_on_screen(s: AppState) -> int {
    if s.screen == Screen::Main {
        (s.habits@.len() + s.todos@.len()) as int
    } else {
        s.habits@.len() as int
    }
}

/// `new` is `old` with only the cursor moved.
pub open spec fn only_cursor_moved(old: AppState, new: AppState) -> bool {
    new == (AppState { selected_index: new.selected_index, ..old })
}

/// The cursor commands move only the cursor, over the items of the active
/// screen (habits and to-dos on Main, habits on Settings): up and down by
/// one item, stopping at the ends; top to the first item; bottom to the
/// last one (the first when the list is empty).
pub proof fn lemma_cursor_moves(
    old: AppState,
    new: AppState,
    eff: Effect,
    today: CalendarDate,
    m: Message,
)
    requires
        old.wf(),
        update_rel(old, new, m, eff, today),
    ensures
        m is NavigateUp ==> eff is Idle && only_cursor_moved(old, new) && new.selected_index == (
        if old.selected_index > 0 {
            old.selected_index - 1
        } else {
            0
        }),
        m is NavigateDown ==> eff is Idle && only_cursor_moved(old, new) && new.selected_index == (
        if old.selected_index + 1 < items_on_screen(old) {
            old.selected_index + 1
        } else {
            old.selected_index as int
        }),
        m is GoTop ==> eff is Idle && only_cursor_moved(old, new) && new.selected_index == 0,
        m is GoBottom ==> eff is Idle && only_cursor_moved(old, new) && new.selected_index == (
        if items_on_screen(old) > 0 {
            items_on_screen(old) - 1
        } else {
            0
        }),
{
}

/// The day commands move the selected date by exactly one calendar day and
/// ask for that day's data: the next day is later and has the old date as
/// its day before, the previous day is earlier and has the old date as its
/// day after. At the ends of the representable calendar nothing changes.
pub proof fn lemma_day_steps(
    old: AppState,
    new: AppState,
    eff: Effect,
    today: CalendarDate,
    m: Message,
)
    requires
        old.wf(),
        update_rel(old, new, m, eff, today),
    ensures
        m == Message::NextDay ==> new == (AppState { selected_date: new.selected_date, ..old }),
        m == Message::PreviousDay ==> new == (AppState {
            selected_date: new.selected_date,
            ..old
        }),
        m == Message::NextDay && !(old.selected_date.year == max_year()
            && old.selected_date.month == 12 && old.selected_date.day == 31) ==> {
            &&& new.selected_date.wf()
            &&& date_before(old.selected_date, new.selected_date)
            &&& spec_pred(new.selected_date) == Some(old.selected_date)
            &&& eff == Effect::Reload(AfterReload::Nothing)
        },
        m == Message::PreviousDay && !(old.selected_date.year == min_year()
            && old.selected_date.month == 1 && old.selected_date.day == 1) ==> {
            &&& new.selected_date.wf()
            &&& date_before(new.selected_date, old.selected_date)
            &&& spec_succ(new.selected_date) == Some(old.selected_date)
            &&& eff == Effect::Reload(AfterReload::Nothing)
        },
{
    lemma_pred_of_succ(old.selected_date);
    lemma_succ_of_pred(old.selected_date);
}

/// Editing the item under the cursor (Enter) loads it into the inputs: on
/// the Main screen a to-do's title and notes (empty when it has none), on
/// the Settings screen a habit's name.
pub proof fn lemma_edit_loads_item(old: AppState, new: AppState, eff: Effect, today: CalendarDate)
    requires
        update_rel(old, new, Message::StartEdit, eff, today),
    ensures
        old.screen == Screen::Main && old.habits@.len() <= old.selected_index
            && old.selected_index - old.habits@.len() < old.todos@.len() ==> {
            let t = old.todos@[old.selected_index - old.habits@.len()];
            &&& new.input_mode == InputMode::EditingTodo(t.id)
            &&& new.input_buffer@ == t.title@
            &&& match t.notes {
                Some(n) => new.notes_buffer@ == n@,
                None => new.notes_buffer@.len() == 0,
            }
            &&& new.todos == old.todos
        },
        old.screen == Screen::Settings && old.selected_index < old.habits@.len() ==> {
            let h = old.habits@[old.selected_index as int].0;
            &&& new.input_mode == InputMode::RenamingHabit(h.id)
            &&& new.input_buffer@ == h.name@
            &&& new.habits == old.habits
        },
{
}

/// Names and titles are stored trimmed: a habit added or renamed, or a
/// to-do added, with a name that is not blank is saved under a non-empty
/// name that has nothing left to trim, namely the given name trimmed.
pub proof fn lemma_saved_names_are_trimmed(
    old: AppState,
    new: AppState,
    eff: Effect,
    today: CalendarDate,
    m: Message,
)
    requires
        update_rel(old, new, m, eff, today),
    ensures
        match m {
            Message::AddHabit(name) => spec_trim(name@).len() > 0 ==> (eff matches Effect::Write(
                DbWrite::AddHabit { name: saved },
                _,
            ) && saved@.len() > 0 && spec_trim(saved@) == saved@ && saved@ == spec_trim(name@)),
            Message::RenameHabit(id, name) => spec_trim(name@).len() > 0 ==> (
            eff matches Effect::Write(DbWrite::RenameHabit { habit_id: h, name: saved }, _) && h
                == id && saved@.len() > 0 && spec_trim(saved@) == saved@ && saved@ == spec_trim(
                name@,
            )),
            Message::AddTodo { title, .. } => spec_trim(title@).len() > 0 ==> (
            eff matches Effect::Write(DbWrite::AddTodo { title: saved, .. }, _) && saved@.len() > 0
                && spec_trim(saved@) == saved@ && saved@ == spec_trim(title@)),
            _ => true,
        },
{
    match m {
        Message::AddHabit(name) => lemma_trim_idempotent(name@),
        Message::RenameHabit(_, name) => lemma_trim_idempotent(name@),
        Message::AddTodo { title, .. } => lemma_trim_idempotent(title@),
        _ => {},
    }
}

} // verus!
