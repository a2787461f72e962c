//! Keyboard shortcut table: maps a key press to a message according to the
//! active screen and input mode, keeping text inputs free of shortcuts.

use vstd::prelude::*;
use crate::app::message::Message;
use crate::app::state::{AppState, InputMode, Screen};
use crate::text::same_text;

verus! {

/// Named (non-character) keys the shortcut table distinguishes.
#[derive(Debug, Clone, Copy, PartialEq, Eq, Structural)]
pub enum NamedKey {
    Enter,
    Escape,
    Tab,
    Space,
    ArrowUp,
    ArrowDown,
    ArrowLeft,
    ArrowRight,
    /// Any other named key.
    Other,
}

/// A key press: a named key, or the text of a character key.
#[derive(Debug, Clone, PartialEq, Eq)]
pub enum Key {
    Named(NamedKey),
    Character(String),
    Unidentified,
}

/// Modifier keys held during a key press.
#[derive(Debug, Clone, Copy, PartialEq, Eq, Structural)]
pub struct Modifiers {
    pub shift: bool,
    pub control: bool,
    pub alt: bool,
    pub logo: bool,
}

impl Modifiers {
    /// No modifier held.
    pub fn empty() -> (r: Self)
        ensures
            !r.shift && !r.control && !r.alt && !r.logo,
    {
        Modifiers { shift: false, control: false, alt: false, logo: false }
    }

    /// Only Shift held.
    pub fn shift_only() -> (r: Self)
        ensures
            r.shift && !r.control && !r.alt && !r.logo,
    {
        Modifiers { shift: true, control: false, alt: false, logo: false }
    }
}

/// The key is the character key producing the text `s`.
pub open spec fn key_is(k: Key, s: Seq<char>) -> bool {
    k matches Key::Character(c) && c@ == s
}

/// The key is the named key `n`.
pub open spec fn named_is(k: Key, n: NamedKey) -> bool {
    k matches Key::Named(x) && x == n
}

/// The key is `lower` with Shift released.
pub open spec fn lower_unshifted(k: Key, lower: Seq<char>, m: Modifiers) -> bool {
    key_is(k, lower) && !m.shift
}

/// The key is `upper`, or `lower` with Shift held.
pub open spec fn upper_or_shifted(k: Key, upper: Seq<char>, lower: Seq<char>, m: Modifiers) -> bool {
    key_is(k, upper) || (key_is(k, lower) && m.shift)
}

/// The input mode captures typed text.
pub open spec fn spec_is_text_input_mode(mode: InputMode) -> bool {
    match mode {
        InputMode::AddingTodo | InputMode::EditingTodo(_) | InputMode::EditingNotes(_)
        | InputMode::AddingHabit | InputMode::RenamingHabit(_) => true,
        _ => false,
    }
}

/// Shortcuts of the Main screen in Normal mode.
pub open spec fn main_screen_shortcut(k: Key, m: Modifiers) -> Option<Message> {
    if lower_unshifted(k, "j"@, m) || named_is(k, NamedKey::ArrowDown) {
        Some(Message::NavigateDown)
    } else if lower_unshifted(k, "k"@, m) || named_is(k, NamedKey::ArrowUp) {
        Some(Message::NavigateUp)
    } else if lower_unshifted(k, "h"@, m) || named_is(k, NamedKey::ArrowLeft) {
        Some(Message::PreviousDay)
    } else if lower_unshifted(k, "l"@, m) || named_is(k, NamedKey::ArrowRight) {
        Some(Message::NextDay)
    } else if lower_unshifted(k, "t"@, m) {
        Some(Message::GoToday)
    } else if lower_unshifted(k, "g"@, m) {
        Some(Message::GoTop)
    } else if upper_or_shifted(k, "G"@, "g"@, m) {
        Some(Message::GoBottom)
    } else if named_is(k, NamedKey::Space) {
        Some(Message::ToggleSelected)
    } else if key_is(k, "x"@) {
        Some(Message::CompleteSelected)
    } else if key_is(k, "i"@) {
        Some(Message::SetInputMode(InputMode::AddingTodo))
    } else if named_is(k, NamedKey::Enter) {
        Some(Message::StartEdit)
    } else if key_is(k, "d"@) {
        Some(Message::DeleteSelected)
    } else if key_is(k, "n"@) {
        Some(Message::StartEditNotes)
    } else if key_is(k, "o"@) {
        Some(Message::SwitchScreen(Screen::Settings))
    } else if named_is(k, NamedKey::Escape) {
        Some(Message::CancelModal)
    } else {
        None
    }
}

/// Shortcuts of the Settings screen in Normal mode.
pub open spec fn settings_screen_shortcut(k: Key, m: Modifiers) -> Option<Message> {
    if lower_unshifted(k, "j"@, m) || named_is(k, NamedKey::ArrowDown) {
        Some(Message::NavigateDown)
    } else if lower_unshifted(k, "k"@, m) || named_is(k, NamedKey::ArrowUp) {
        Some(Message::NavigateUp)
    } else if lower_unshifted(k, "g"@, m) {
        Some(Message::GoTop)
    } else if upper_or_shifted(k, "G"@, "g"@, m) {
        Some(Message::GoBottom)
    } else if upper_or_shifted(k, "K"@, "k"@, m) {
        Some(Message::ReorderSelected(true))
    } else if upper_or_shifted(k, "J"@, "j"@, m) {
        Some(Message::ReorderSelected(false))
    } else if key_is(k, "i"@) {
        Some(Message::SetInputMode(InputMode::AddingHabit))
    } else if key_is(k, "d"@) {
        Some(Message::ArchiveSelected)
    } else if key_is(k, "r"@) {
        Some(Message::StartRename)
    } else if key_is(k, "e"@) {
        Some(Message::ExportData)
    } else if named_is(k, NamedKey::Escape) {
        Some(Message::SwitchScreen(Screen::Main))
    } else if key_is(k, "o"@) {
        Some(Message::SwitchScreen(Screen::Main))
    } else {
        None
    }
}

/// The message a key press produces on `screen` in input mode `mode`.
pub open spec fn spec_handle_key(k: Key, m: Modifiers, screen: Screen, mode: InputMode) -> Option<
    Message,
> {
    if let InputMode::ConfirmDelete(id) = mode {
        if key_is(k, "y"@) || key_is(k, "Y"@) || named_is(k, NamedKey::Enter) {
            Some(Message::ConfirmDelete(id))
        } else if key_is(k, "n"@) || key_is(k, "N"@) || named_is(k, NamedKey::Escape) {
            Some(Message::CancelModal)
        } else {
            None
        }
    } else if spec_is_text_input_mode(mode) {
        if named_is(k, NamedKey::Enter) {
            Some(Message::SubmitInput)
        } else if named_is(k, NamedKey::Escape) {
            Some(Message::CancelModal)
        } else {
            None
        }
    } else if key_is(k, "q"@) && !m.control && !m.alt {
        Some(Message::Quit)
    } else if key_is(k, "s"@) || named_is(k, NamedKey::Tab) {
        Some(Message::ToggleSidebar)
    } else if key_is(k, "?"@) {
        Some(Message::ToggleHelp)
    } else {
        match screen {
            Screen::Main => main_screen_shortcut(k, m),
            Screen::Settings => settings_screen_shortcut(k, m),
        }
    }
}

/// Whether the input mode captures typed text.
pub fn is_text_input_mode(input_mode: &InputMode) -> (r: bool)
    ensures
        r == spec_is_text_input_mode(*input_mode),
{
    match input_mode {
        InputMode::AddingTodo | InputMode::EditingTodo(_) | InputMode::EditingNotes(_)
        | InputMode::AddingHabit | InputMode::RenamingHabit(_) => true,
        _ => false,
    }
}

/// The key is the character key producing `expected`.
fn is_char(key: &Key, expected: &str) -> (r: bool)
    ensures
        r == key_is(*key, expected@),
{
    match key {
        Key::Character(c) => same_text(c.as_str(), expected),
        _ => false,
    }
}

/// The key is the named key `n`.
fn is_named(key: &Key, n: NamedKey) -> (r: bool)
    ensures
        r == named_is(*key, n),
{
    match key {
        Key::Named(x) => *x == n,
        _ => false,
    }
}

/// The key is `upper`, or `lower` with Shift held.
fn is_upper_or_shifted(key: &Key, upper: &str, lower: &str, modifiers: Modifiers) -> (r: bool)
    ensures
        r == upper_or_shifted(*key, upper@, lower@, modifiers),
{
    is_char(key, upper) || (is_char(key, lower) && modifiers.shift)
}

/// The key is `lower` with Shift released.
fn is_lower_unshifted(key: &Key, lower: &str, modifiers: Modifiers) -> (r: bool)
    ensures
        r == lower_unshifted(*key, lower@, modifiers),
{
    is_char(key, lower) && !modifiers.shift
}

fn main_shortcut(key: &Key, modifiers: Modifiers) -> (r: Option<Message>)
    ensures
        r == main_screen_shortcut(*key, modifiers),
{
    if is_lower_unshifted(key, "j", modifiers) || is_named(key, NamedKey::ArrowDown) {
        Some(Message::NavigateDown)
    } else if is_lower_unshifted(key, "k", modifiers) || is_named(key, NamedKey::ArrowUp) {
        Some(Message::NavigateUp)
    } else if is_lower_unshifted(key, "h", modifiers) || is_named(key, NamedKey::ArrowLeft) {
        Some(Message::PreviousDay)
    } else if is_lower_unshifted(key, "l", modifiers) || is_named(key, NamedKey::ArrowRight) {
        Some(Message::NextDay)
    } else if is_lower_unshifted(key, "t", modifiers) {
        Some(Message::GoToday)
    } else if is_lower_unshifted(key, "g", modifiers) {
        Some(Message::GoTop)
    } else if is_upper_or_shifted(key, "G", "g", modifiers) {
        Some(Message::GoBottom)
    } else if is_named(key, NamedKey::Space) {
        Some(Message::ToggleSelected)
    } else if is_char(key, "x") {
        Some(Message::CompleteSelected)
    } else if is_char(key, "i") {
        Some(Message::SetInputMode(InputMode::AddingTodo))
    } else if is_named(key, NamedKey::Enter) {
        Some(Message::StartEdit)
    } else if is_char(key, "d") {
        Some(Message::DeleteSelected)
    } else if is_char(key, "n") {
        Some(Message::StartEditNotes)
    } else if is_char(key, "o") {
        Some(Message::SwitchScreen(Screen::Settings))
    } else if is_named(key, NamedKey::Escape) {
        Some(Message::CancelModal)
    } else {
        None
    }
}

fn settings_shortcut(key: &Key, modifiers: Modifiers) -> (r: Option<Message>)
    ensures
        r == settings_screen_shortcut(*key, modifiers),
{
    if is_lower_unshifted(key, "j", modifiers) || is_named(key, NamedKey::ArrowDown) {
        Some(Message::NavigateDown)
    } else if is_lower_unshifted(key, "k", modifiers) || is_named(key, NamedKey::ArrowUp) {
        Some(Message::NavigateUp)
    } else if is_lower_unshifted(key, "g", modifiers) {
        Some(Message::GoTop)
    } else if is_upper_or_shifted(key, "G", "g", modifiers) {
        Some(Message::GoBottom)
    } else if is_upper_or_shifted(key, "K", "k", modifiers) {
        Some(Message::ReorderSelected(true))
    } else if is_upper_or_shifted(key, "J", "j", modifiers) {
        Some(Message::ReorderSelected(false))
    } else if is_char(key, "i") {
        Some(Message::SetInputMode(InputMode::AddingHabit))
    } else if is_char(key, "d") {
        Some(Message::ArchiveSelected)
    } else if is_char(key, "r") {
        Some(Message::StartRename)
    } else if is_char(key, "e") {
        Some(Message::ExportData)
    } else if is_named(key, NamedKey::Escape) {
        Some(Message::SwitchScreen(Screen::Main))
    } else if is_char(key, "o") {
        Some(Message::SwitchScreen(Screen::Main))
    } else {
        None
    }
}

/// Translates a key press into a message for the active screen and input
/// mode. In a text input only Enter (submit) and Escape (cancel) are
/// translated, so typed characters reach the input; the delete
/// confirmation answers to y/Y/Enter and n/N/Escape only.
pub fn handle_key(key: &Key, modifiers: Modifiers, screen: Screen, input_mode: &InputMode) -> (r:
    Option<Message>)
    ensures
        r == spec_handle_key(*key, modifiers, screen, *input_mode),
{
    if let InputMode::ConfirmDelete(id) = input_mode {
        if is_char(key, "y") || is_char(key, "Y") || is_named(key, NamedKey::Enter) {
            return Some(Message::ConfirmDelete(*id));
        } else if is_char(key, "n") || is_char(key, "N") || is_named(key, NamedKey::Escape) {
            return Some(Message::CancelModal);
        } else {
            return None;
        }
    }
    if is_text_input_mode(input_mode) {
        if is_named(key, NamedKey::Enter) {
            return Some(Message::SubmitInput);
        } else if is_named(key, NamedKey::Escape) {
            return Some(Message::CancelModal);
        } else {
            return None;
        }
    }
    if is_char(key, "q") && !modifiers.control && !modifiers.alt {
        return Some(Message::Quit);
    }
    if is_char(key, "s") || is_named(key, NamedKey::Tab) {
        return Some(Message::ToggleSidebar);
    }
    if is_char(key, "?") {
        return Some(Message::ToggleHelp);
    }
    match screen {
        Screen::Main => main_shortcut(key, modifiers),
        Screen::Settings => settings_shortcut(key, modifiers),
    }
}

/// `handle_key` with the screen and input mode of `app_state`.
pub fn handle_key_event(key: &Key, modifiers: Modifiers, app_state: &AppState) -> (r: Option<
    Message,
>)
    ensures
        r == spec_handle_key(*key, modifiers, app_state.screen, app_state.input_mode),
{
    handle_key(key, modifiers, app_state.screen, &app_state.input_mode)
}

/// The screen and input mode the shortcut table is consulted with, kept by
/// the event loop between renders.
#[derive(Debug, Clone, Copy, PartialEq, Eq, Structural)]
pub struct KeyContext {
    pub screen: Screen,
    pub input_mode: InputMode,
}

/// Records the latest screen and input mode in the key context.
pub fn update_key_context(ctx: &mut KeyContext, screen: Screen, input_mode: &InputMode)
    ensures
        final(ctx).screen == screen,
        final(ctx).input_mode == *input_mode,
{
    ctx.screen = screen;
    ctx.input_mode = *input_mode;
}

/// While a text input is active, no key but Enter and Escape produces a
/// message: Enter submits, Escape cancels, every character key is left to
/// the input.
pub proof fn lemma_text_input_isolation(k: Key, m: Modifiers, screen: Screen, mode: InputMode)
    requires
        spec_is_text_input_mode(mode),
    ensures
        named_is(k, NamedKey::Enter) ==> spec_handle_key(k, m, screen, mode) == Some(
            Message::SubmitInput,
        ),
        named_is(k, NamedKey::Escape) ==> spec_handle_key(k, m, screen, mode) == Some(
            Message::CancelModal,
        ),
        !named_is(k, NamedKey::Enter) && !named_is(k, NamedKey::Escape) ==> spec_handle_key(
            k,
            m,
            screen,
            mode,
        ) is None,
{
}

/// The delete confirmation accepts only its answers: y, Y or Enter confirm
/// deleting that to-do, n, N or Escape cancel, and every other key does
/// nothing.
pub proof fn lemma_confirm_delete_answers(k: Key, m: Modifiers, screen: Screen, id: i64)
    ensures
        ({
            let r = spec_handle_key(k, m, screen, InputMode::ConfirmDelete(id));
            ||| r == Some(Message::ConfirmDelete(id))
            ||| r == Some(Message::CancelModal)
            ||| r is None
        }),
        named_is(k, NamedKey::Escape) ==> spec_handle_key(k, m, screen, InputMode::ConfirmDelete(id))
            == Some(Message::CancelModal),
{
}

/// Outside text inputs and the delete confirmation, `q` without Control or
/// Alt quits, `s` and Tab toggle the sidebar and `?` the help, on either
/// screen.
pub proof fn lemma_global_shortcuts(k: Key, m: Modifiers, screen: Screen)
    ensures
        key_is(k, "q"@) && !m.control && !m.alt ==> spec_handle_key(k, m, screen, InputMode::Normal)
            == Some(Message::Quit),
        named_is(k, NamedKey::Tab) ==> spec_handle_key(k, m, screen, InputMode::Normal) == Some(
            Message::ToggleSidebar,
        ),
{
}

/// The one-letter key texts of the shortcut table are the letters they
/// spell (so distinct texts name distinct keys).
pub(crate) proof fn lemma_key_letters()
    ensures
        "j"@.len() == 1 && "j"@[0] == 'j',
        "k"@.len() == 1 && "k"@[0] == 'k',
        "h"@.len() == 1 && "h"@[0] == 'h',
        "l"@.len() == 1 && "l"@[0] == 'l',
        "t"@.len() == 1 && "t"@[0] == 't',
        "g"@.len() == 1 && "g"@[0] == 'g',
        "G"@.len() == 1 && "G"@[0] == 'G',
        "x"@.len() == 1 && "x"@[0] == 'x',
        "i"@.len() == 1 && "i"@[0] == 'i',
        "d"@.len() == 1 && "d"@[0] == 'd',
        "n"@.len() == 1 && "n"@[0] == 'n',
        "o"@.len() == 1 && "o"@[0] == 'o',
        "q"@.len() == 1 && "q"@[0] == 'q',
        "s"@.len() == 1 && "s"@[0] == 's',
        "?"@.len() == 1 && "?"@[0] == '?',
        "K"@.len() == 1 && "K"@[0] == 'K',
        "J"@.len() == 1 && "J"@[0] == 'J',
        "r"@.len() == 1 && "r"@[0] == 'r',
        "e"@.len() == 1 && "e"@[0] == 'e',
        "y"@.len() == 1 && "y"@[0] == 'y',
        "Y"@.len() == 1 && "Y"@[0] == 'Y',
        "N"@.len() == 1 && "N"@[0] == 'N',
{
    reveal_strlit("j");
    assert("j"@[0] == 'j');
    reveal_strlit("k");
    assert("k"@[0] == 'k');
    reveal_strlit("h");
    assert("h"@[0] == 'h');
    reveal_strlit("l");
    assert("l"@[0] == 'l');
    reveal_strlit("t");
    assert("t"@[0] == 't');
    reveal_strlit("g");
    assert("g"@[0] == 'g');
    reveal_strlit("G");
    assert("G"@[0] == 'G');
    reveal_strlit("x");
    assert("x"@[0] == 'x');
    reveal_strlit("i");
    assert("i"@[0] == 'i');
    reveal_strlit("d");
    assert("d"@[0] == 'd');
    reveal_strlit("n");
    assert("n"@[0] == 'n');
    reveal_strlit("o");
    assert("o"@[0] == 'o');
    reveal_strlit("q");
    assert("q"@[0] == 'q');
    reveal_strlit("s");
    assert("s"@[0] == 's');
    reveal_strlit("?");
    assert("?"@[0] == '?');
    reveal_strlit("K");
    assert("K"@[0] == 'K');
    reveal_strlit("J");
    assert("J"@[0] == 'J');
    reveal_strlit("r");
    assert("r"@[0] == 'r');
    reveal_strlit("e");
    assert("e"@[0] == 'e');
    reveal_strlit("y");
    assert("y"@[0] == 'y');
    reveal_strlit("Y");
    assert("Y"@[0] == 'Y');
    reveal_strlit("N");
    assert("N"@[0] == 'N');
}

/// Normal-mode shortcuts of the Main screen, key by key: j/Down and k/Up
/// move the cursor, h/Left and l/Right change the day, t jumps to today,
/// g/G to the top/bottom, Space toggles, x completes, i adds a to-do, Enter
/// edits, d deletes, n edits notes, o opens Settings, Esc cancels.
pub proof fn lemma_main_shortcuts(k: Key, m: Modifiers)
    ensures
        key_is(k, "j"@) && !m.shift ==> spec_handle_key(k, m, Screen::Main, InputMode::Normal)
            == Some(Message::NavigateDown),
        named_is(k, NamedKey::ArrowDown) ==> spec_handle_key(k, m, Screen::Main, InputMode::Normal)
            == Some(Message::NavigateDown),
        key_is(k, "k"@) && !m.shift ==> spec_handle_key(k, m, Screen::Main, InputMode::Normal)
            == Some(Message::NavigateUp),
        named_is(k, NamedKey::ArrowUp) ==> spec_handle_key(k, m, Screen::Main, InputMode::Normal)
            == Some(Message::NavigateUp),
        (key_is(k, "h"@) && !m.shift) || named_is(k, NamedKey::ArrowLeft) ==> spec_handle_key(
            k, m, Screen::Main, InputMode::Normal) == Some(Message::PreviousDay),
        (key_is(k, "l"@) && !m.shift) || named_is(k, NamedKey::ArrowRight) ==> spec_handle_key(
            k, m, Screen::Main, InputMode::Normal) == Some(Message::NextDay),
        key_is(k, "t"@) && !m.shift ==> spec_handle_key(k, m, Screen::Main, InputMode::Normal)
            == Some(Message::GoToday),
        key_is(k, "g"@) && !m.shift ==> spec_handle_key(k, m, Screen::Main, InputMode::Normal)
            == Some(Message::GoTop),
        key_is(k, "G"@) || (key_is(k, "g"@) && m.shift) ==> spec_handle_key(
            k, m, Screen::Main, InputMode::Normal) == Some(Message::GoBottom),
        named_is(k, NamedKey::Space) ==> spec_handle_key(k, m, Screen::Main, InputMode::Normal)
            == Some(Message::ToggleSelected),
        key_is(k, "x"@) ==> spec_handle_key(k, m, Screen::Main, InputMode::Normal) == Some(
            Message::CompleteSelected),
        key_is(k, "i"@) ==> spec_handle_key(k, m, Screen::Main, InputMode::Normal) == Some(
            Message::SetInputMode(InputMode::AddingTodo)),
        named_is(k, NamedKey::Enter) ==> spec_handle_key(k, m, Screen::Main, InputMode::Normal)
            == Some(Message::StartEdit),
        key_is(k, "d"@) ==> spec_handle_key(k, m, Screen::Main, InputMode::Normal) == Some(
            Message::DeleteSelected),
        key_is(k, "n"@) ==> spec_handle_key(k, m, Screen::Main, InputMode::Normal) == Some(
            Message::StartEditNotes),
        key_is(k, "o"@) ==> spec_handle_key(k, m, Screen::Main, InputMode::Normal) == Some(
            Message::SwitchScreen(Screen::Settings)),
        named_is(k, NamedKey::Escape) ==> spec_handle_key(k, m, Screen::Main, InputMode::Normal)
            == Some(Message::CancelModal),
{
    lemma_key_letters();
}

/// Normal-mode shortcuts of the Settings screen, key by key: j/Down and
/// k/Up move the cursor, g/G jump to the top/bottom, K/J move the selected
/// habit up/down, i adds a habit, d archives, r renames, e exports, Esc and
/// o return to the Main screen.
pub proof fn lemma_settings_shortcuts(k: Key, m: Modifiers)
    ensures
        key_is(k, "j"@) && !m.shift ==> spec_handle_key(k, m, Screen::Settings, InputMode::Normal)
            == Some(Message::NavigateDown),
        named_is(k, NamedKey::ArrowDown) ==> spec_handle_key(k, m, Screen::Settings, InputMode::Normal)
            == Some(Message::NavigateDown),
        key_is(k, "k"@) && !m.shift ==> spec_handle_key(k, m, Screen::Settings, InputMode::Normal)
            == Some(Message::NavigateUp),
        named_is(k, NamedKey::ArrowUp) ==> spec_handle_key(k, m, Screen::Settings, InputMode::Normal)
            == Some(Message::NavigateUp),
        key_is(k, "g"@) && !m.shift ==> spec_handle_key(k, m, Screen::Settings, InputMode::Normal)
            == Some(Message::GoTop),
        key_is(k, "G"@) || (key_is(k, "g"@) && m.shift) ==> spec_handle_key(
            k, m, Screen::Settings, InputMode::Normal) == Some(Message::GoBottom),
        key_is(k, "K"@) || (key_is(k, "k"@) && m.shift) ==> spec_handle_key(
            k, m, Screen::Settings, InputMode::Normal) == Some(Message::ReorderSelected(true)),
        key_is(k, "J"@) || (key_is(k, "j"@) && m.shift) ==> spec_handle_key(
            k, m, Screen::Settings, InputMode::Normal) == Some(Message::ReorderSelected(false)),
        key_is(k, "i"@) ==> spec_handle_key(k, m, Screen::Settings, InputMode::Normal) == Some(
            Message::SetInputMode(InputMode::AddingHabit)),
        key_is(k, "d"@) ==> spec_handle_key(k, m, Screen::Settings, InputMode::Normal) == Some(
            Message::ArchiveSelected),
        key_is(k, "r"@) ==> spec_handle_key(k, m, Screen::Settings, InputMode::Normal) == Some(
            Message::StartRename),
        key_is(k, "e"@) ==> spec_handle_key(k, m, Screen::Settings, InputMode::Normal) == Some(
            Message::ExportData),
        named_is(k, NamedKey::Escape) || key_is(k, "o"@) ==> spec_handle_key(
            k, m, Screen::Settings, InputMode::Normal) == Some(Message::SwitchScreen(Screen::Main)),
{
    lemma_key_letters();
}

} // verus!
