//! Key presses and what each widget makes of them.
use vstd::prelude::*;

verus! {

/// The key of a key press, as far as the dashboard tells keys apart.
#[derive(Clone, Copy, Debug, PartialEq, Eq, Structural)]
pub enum KeyCode {
    Char(char),
    Enter,
    Esc,
    Up,
    Down,
    Other,
}

/// The modifier keys held during a key press.
#[derive(Clone, Copy, Debug, PartialEq, Eq, Structural)]
pub struct KeyModifiers {
    pub shift: bool,
    pub control: bool,
    pub alt: bool,
    pub super_key: bool,
    pub hyper: bool,
    pub meta: bool,
}

/// One key press.
#[derive(Clone, Copy, Debug, PartialEq, Eq, Structural)]
pub struct KeyPress {
    pub code: KeyCode,
    pub modifiers: KeyModifiers,
}

impl KeyModifiers {
    /// No modifier held.
    pub fn none() -> (m: KeyModifiers)
        ensures
            m.is_empty_spec(),
    {
        KeyModifiers {
            shift: false,
            control: false,
            alt: false,
            super_key: false,
            hyper: false,
            meta: false,
        }
    }

    /// Whether no modifier is held.
    pub open spec fn is_empty_spec(self) -> bool {
        !self.shift && !self.control && !self.alt && !self.super_key && !self.hyper && !self.meta
    }

    /// Whether no modifier is held.
    pub fn is_empty(&self) -> (b: bool)
        ensures
            b == self.is_empty_spec(),
    {
        !self.shift && !self.control && !self.alt && !self.super_key && !self.hyper && !self.meta
    }
}

impl KeyPress {
    /// A press of `code` with no modifier held.
    pub fn plain(code: KeyCode) -> (k: KeyPress)
        ensures
            k.code == code,
            k.modifiers.is_empty_spec(),
    {
        KeyPress { code, modifiers: KeyModifiers::none() }
    }

    /// A press of `code` with `modifiers` held.
    pub fn new(code: KeyCode, modifiers: KeyModifiers) -> (k: KeyPress)
        ensures
            k.code == code,
            k.modifiers == modifiers,
    {
        KeyPress { code, modifiers }
    }
}

/// Whether the global key map sees `key`. While a widget captures typed
/// input, plain keys belong to it; Ctrl and Alt chords still reach the map.
pub open spec fn global_keymap_applies(is_capturing_input: bool, key: KeyPress) -> bool {
    !is_capturing_input || key.modifiers.control || key.modifiers.alt
}

/// Whether the global key map sees `key`.
pub fn should_dispatch_global_keymap(is_capturing_input: bool, key: &KeyPress) -> (b: bool)
    ensures
        b == global_keymap_applies(is_capturing_input, *key),
{
    !is_capturing_input || key.modifiers.control || key.modifiers.alt
}

/// Whether `key` requests a new picture: Shift+N arrives as the upper-case
/// char `N`, whatever modifier flags the terminal reports.
pub fn is_new_image_key(key: &KeyPress) -> (b: bool)
    ensures
        b == (key.code == KeyCode::Char('N')),
{
    match key.code {
        KeyCode::Char(c) => c == 'N',
        _ => false,
    }
}

/// Whether `key` starts a Wikipedia search: `/` with no modifier.
pub fn is_search_activation_key(key: &KeyPress) -> (b: bool)
    ensures
        b == (key.code == KeyCode::Char('/') && key.modifiers.is_empty_spec()),
{
    let slash = match key.code {
        KeyCode::Char(c) => c == '/',
        _ => false,
    };
    slash && key.modifiers.is_empty()
}

/// Whether a text input widget is reading typed keys.
#[derive(Clone, Copy, Debug, PartialEq, Eq, Structural)]
pub enum InputMode {
    Normal,
    Editing,
}

impl Default for InputMode {
    fn default() -> (m: Self)
        ensures
            m == InputMode::Normal,
    {
        InputMode::Normal
    }
}

/// What a key press asks of a text input widget.
#[derive(Clone, Copy, Debug, PartialEq, Eq, Structural)]
pub enum EditCommand {
    /// Not for this widget: siblings may react to it.
    Ignore,
    StartEditing,
    StopEditing,
    Submit,
    SelectPrevious,
    SelectNext,
    /// Typed into the input field.
    Type,
}

/// The Dictionary's reading of `key` in `mode`: Esc toggles editing; while
/// editing, Enter looks the word up and every other key is typed.
pub open spec fn dictionary_command_spec(mode: InputMode, key: KeyPress) -> EditCommand {
    match mode {
        InputMode::Normal => if key.code == KeyCode::Esc {
            EditCommand::StartEditing
        } else {
            EditCommand::Ignore
        },
        InputMode::Editing => match key.code {
            KeyCode::Esc => EditCommand::StopEditing,
            KeyCode::Enter => EditCommand::Submit,
            _ => EditCommand::Type,
        },
    }
}

/// The Wikipedia widget's reading of `key` in `mode`: `/` starts editing;
/// while editing, Esc stops, Enter searches or opens, Up and Down move the
/// selection and every other key is typed.
pub open spec fn wikipedia_command_spec(mode: InputMode, key: KeyPress) -> EditCommand {
    match mode {
        InputMode::Normal => if key.code == KeyCode::Char('/') && key.modifiers.is_empty_spec() {
            EditCommand::StartEditing
        } else {
            EditCommand::Ignore
        },
        InputMode::Editing => match key.code {
            KeyCode::Esc => EditCommand::StopEditing,
            KeyCode::Enter => EditCommand::Submit,
            KeyCode::Up => EditCommand::SelectPrevious,
            KeyCode::Down => EditCommand::SelectNext,
            _ => EditCommand::Type,
        },
    }
}

/// The Dictionary's reading of `key` in `mode`.
pub fn dictionary_command(mode: InputMode, key: &KeyPress) -> (c: EditCommand)
    ensures
        c == dictionary_command_spec(mode, *key),
{
    match mode {
        InputMode::Normal => match key.code {
            KeyCode::Esc => EditCommand::StartEditing,
            _ => EditCommand::Ignore,
        },
        InputMode::Editing => match key.code {
            KeyCode::Esc => EditCommand::StopEditing,
            KeyCode::Enter => EditCommand::Submit,
            _ => EditCommand::Type,
        },
    }
}

/// The Wikipedia widget's reading of `key` in `mode`.
pub fn wikipedia_command(mode: InputMode, key: &KeyPress) -> (c: EditCommand)
    ensures
        c == wikipedia_command_spec(mode, *key),
{
    match mode {
        InputMode::Normal => if is_search_activation_key(key) {
            EditCommand::StartEditing
        } else {
            EditCommand::Ignore
        },
        InputMode::Editing => match key.code {
            KeyCode::Esc => EditCommand::StopEditing,
            KeyCode::Enter => EditCommand::Submit,
            KeyCode::Up => EditCommand::SelectPrevious,
            KeyCode::Down => EditCommand::SelectNext,
            _ => EditCommand::Type,
        },
    }
}

/// The input mode after `command`.
pub open spec fn mode_after_spec(mode: InputMode, command: EditCommand) -> InputMode {
    match command {
        EditCommand::StartEditing => InputMode::Editing,
        EditCommand::StopEditing => InputMode::Normal,
        _ => mode,
    }
}

/// The input mode after `command`.
pub fn mode_after(mode: InputMode, command: EditCommand) -> (m: InputMode)
    ensures
        m == mode_after_spec(mode, command),
{
    match command {
        EditCommand::StartEditing => InputMode::Editing,
        EditCommand::StopEditing => InputMode::Normal,
        _ => mode,
    }
}

/// Whether the widget keeps the key press from its siblings.
pub fn consumes(command: EditCommand) -> (b: bool)
    ensures
        b == !(command == EditCommand::Ignore),
{
    match command {
        EditCommand::Ignore => false,
        _ => true,
    }
}

/// While the Dictionary or the Wikipedia widget is editing, it takes every
/// key press, so that no sibling reacts to it.
pub proof fn lemma_editing_consumes_every_key(key: KeyPress)
    ensures
        dictionary_command_spec(InputMode::Editing, key) != EditCommand::Ignore,
        wikipedia_command_spec(InputMode::Editing, key) != EditCommand::Ignore,
{
}

/// Out of editing, the Dictionary takes only Esc and the Wikipedia widget
/// only an unmodified `/`; both then start editing.
pub proof fn lemma_normal_mode_takes_only_its_activation_key(key: KeyPress)
    ensures
        dictionary_command_spec(InputMode::Normal, key) != EditCommand::Ignore <==> key.code
            == KeyCode::Esc,
        wikipedia_command_spec(InputMode::Normal, key) != EditCommand::Ignore <==> (key.code
            == KeyCode::Char('/') && key.modifiers.is_empty_spec()),
        mode_after_spec(InputMode::Normal, dictionary_command_spec(InputMode::Normal, key))
            == InputMode::Editing <==> key.code == KeyCode::Esc,
{
}

/// What the News table makes of a key press.
#[derive(Clone, Copy, Debug, PartialEq, Eq, Structural)]
pub enum NewsCommand {
    Ignore,
    SelectPrevious,
    SelectNext,
    OpenSelected,
}

/// The News table's reading of `key`: `i` or Up moves up, `j` or Down moves
/// down, Enter opens the selected article.
pub open spec fn news_command_spec(key: KeyPress) -> NewsCommand {
    match key.code {
        KeyCode::Char(c) => if c == 'i' {
            NewsCommand::SelectPrevious
        } else if c == 'j' {
            NewsCommand::SelectNext
        } else {
            NewsCommand::Ignore
        },
        KeyCode::Up => NewsCommand::SelectPrevious,
        KeyCode::Down => NewsCommand::SelectNext,
        KeyCode::Enter => NewsCommand::OpenSelected,
        _ => NewsCommand::Ignore,
    }
}

/// The News table's reading of `key`.
pub fn news_command(key: &KeyPress) -> (c: NewsCommand)
    ensures
        c == news_command_spec(*key),
{
    match key.code {
        KeyCode::Char(c) => if c == 'i' {
            NewsCommand::SelectPrevious
        } else if c == 'j' {
            NewsCommand::SelectNext
        } else {
            NewsCommand::Ignore
        },
        KeyCode::Up => NewsCommand::SelectPrevious,
        KeyCode::Down => NewsCommand::SelectNext,
        KeyCode::Enter => NewsCommand::OpenSelected,
        _ => NewsCommand::Ignore,
    }
}

/// The selection after moving `delta` rows from `selected` in a list of `len`
/// rows: clamped to the list, starting from the first row when nothing is
/// selected, and unchanged when the list is empty.
pub open spec fn moved_selection(selected: Option<usize>, len: usize, delta: i32) -> Option<usize> {
    if len == 0 {
        selected
    } else {
        let current: int = match selected {
            Some(i) => i as int,
            None => 0,
        };
        let next = current + delta;
        if next < 0 {
            Some(0)
        } else if next > len - 1 {
            Some((len - 1) as usize)
        } else {
            Some(next as usize)
        }
    }
}

/// The selection after moving `delta` rows.
pub fn move_selection(selected: Option<usize>, len: usize, delta: i32) -> (r: Option<usize>)
    ensures
        r == moved_selection(selected, len, delta),
        len > 0 ==> (r matches Some(i) && i < len),
{
    if len == 0 {
        return selected;
    }
    let current: i128 = match selected {
        Some(i) => i as i128,
        None => 0,
    };
    let next: i128 = current + delta as i128;
    if next < 0 {
        Some(0)
    } else if next > (len - 1) as i128 {
        Some(len - 1)
    } else {
        Some(next as usize)
    }
}

/// In a non-empty list, a move that stays inside the list lands exactly
/// `delta` rows from the selected row, one past the first row stops at the
/// first row, and one past the last row stops at the last; no selection
/// counts as the first row.
pub proof fn lemma_selection_moves_by_delta(selected: Option<usize>, len: usize, delta: i32)
    requires
        len > 0,
        selected matches Some(i) ==> i < len,
    ensures
        ({
            let from: int = match selected {
                Some(i) => i as int,
                None => 0,
            };
            &&& 0 <= from + delta < len ==> moved_selection(selected, len, delta) == Some((from + delta) as usize)
            &&& from + delta < 0 ==> moved_selection(selected, len, delta) == Some(0usize)
            &&& from + delta >= len ==> moved_selection(selected, len, delta) == Some((len - 1) as usize)
        }),
{
}

/// Two moves that stay inside the list add up: moving by `a` and then by
/// `b` selects the row that moving by `a + b` selects.
pub proof fn lemma_selection_moves_add_up(i: usize, len: usize, a: i32, b: i32)
    requires
        i < len,
        0 <= i + a < len,
        0 <= i + a + b < len,
        i32::MIN <= a + b <= i32::MAX,
    ensures
        moved_selection(moved_selection(Some(i), len, a), len, b) == moved_selection(
            Some(i),
            len,
            (a + b) as i32,
        ),
{
}

/// An empty list keeps whatever selection it had.
pub proof fn lemma_empty_list_keeps_selection(selected: Option<usize>, delta: i32)
    ensures
        moved_selection(selected, 0, delta) == selected,
{
}

} // verus!
