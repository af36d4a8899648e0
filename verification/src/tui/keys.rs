//! What keys do.
use vstd::prelude::*;

use crate::text::{
    begins_with, owned, same_text, starts_with_text, texts, trim, trimmed,
};
use crate::tui::line::{
    backspaced, deleted, fresh_line, line_at, moved_left, moved_right, pasted, typed, Line, LineModel,
};
use crate::tui::offers::{dialog_key, Key};
use crate::tui::state::{
    at_bottom, effect_models, item_models, no_effects, one_effect, pushed, system_item, two_effects,
    AppModel, AppState, AutocompleteKind, DisplayItem, Effect, EffectModel, SystemLevel,
};

verus! {

/// A key that was pressed.
#[derive(Debug, Clone, Copy, PartialEq, Eq, Structural)]
pub struct KeyPress {
    pub key: Key,
    /// The control key was held.
    pub control: bool,
}

/// The entry under the file picker's cursor.
pub enum Picked {
    File(String),
    Directory,
}

/// What the interface cannot see itself.
pub struct Seen {
    /// Something is at the path that the dialog shows.
    pub path_exists: bool,
    pub picked: Picked,
}

/// What one page is.
pub const PAGE: usize = 10;

// ---------------------------------------------------------------------------
// Overlays
// ---------------------------------------------------------------------------

/// What a key does while the file picker is open.
pub open spec fn picker_key(m: AppModel, key: Key, picked: Picked) -> (AppModel, Seq<EffectModel>) {
    match key {
        Key::Esc => (
            AppModel { picker_open: false, input: fresh_line("/"@), ..m },
            seq![EffectModel::UpdateAutocomplete],
        ),
        Key::Enter => match picked {
            Picked::File(path) => {
                let line = if begins_with(m.input.text, "/cp "@) {
                    m.input
                } else {
                    fresh_line("/cp "@)
                };
                (AppModel { picker_open: false, input: pasted(line, path@), ..m }, seq![])
            },
            Picked::Directory => (m, seq![EffectModel::PickerKey]),
        },
        _ => (m, seq![EffectModel::PickerKey]),
    }
}

/// The keys that belong to the list of completions.
pub open spec fn is_completion_key(key: Key) -> bool {
    key == Key::Enter || key == Key::Tab || key == Key::Esc || key == Key::Up || key == Key::Down
}

/// What such a key does while completions are shown.
pub open spec fn completion_key(m: AppModel, key: Key) -> (AppModel, Seq<EffectModel>) {
    match key {
        Key::Enter => (m, seq![EffectModel::AcceptAutocomplete]),
        Key::Tab => (m, seq![EffectModel::AcceptAutocomplete]),
        Key::Esc => (AppModel { autocomplete: None, ..m }, seq![]),
        Key::Up => (m, seq![EffectModel::PreviousCompletion]),
        Key::Down => (m, seq![EffectModel::NextCompletion]),
        _ => (m, seq![]),
    }
}

// ---------------------------------------------------------------------------
// The input line
// ---------------------------------------------------------------------------

/// An entry of the history is shown.
pub open spec fn recalled(m: AppModel, i: int) -> AppModel {
    AppModel { history_index: Some(i), input: fresh_line(m.history[i]), ..m }
}

/// One entry back in the history.
pub open spec fn recalled_older(m: AppModel) -> AppModel {
    if m.history.len() == 0 {
        m
    } else {
        recalled(
            m,
            match m.history_index {
                None => m.history.len() - 1,
                Some(i) => if i > 0 {
                    i - 1
                } else {
                    0
                },
            },
        )
    }
}

/// One entry forward; behind the last is an empty line.
pub open spec fn recalled_newer(m: AppModel) -> AppModel {
    match m.history_index {
        Some(i) => if i + 1 < m.history.len() {
            recalled(m, i + 1)
        } else {
            AppModel { history_index: None, input: fresh_line(Seq::empty()), ..m }
        },
        None => m,
    }
}

/// One page up, at most to the first entry of the feed.
pub open spec fn paged_up(m: AppModel) -> AppModel {
    let most = if m.items.len() > 0 {
        m.items.len() - 1
    } else {
        0
    };
    AppModel {
        auto_scroll: false,
        scroll_offset: if m.scroll_offset + PAGE > most {
            most
        } else {
            m.scroll_offset + PAGE
        },
        ..m
    }
}

/// One page down.
pub open spec fn paged_down(m: AppModel) -> AppModel {
    if m.scroll_offset > PAGE {
        AppModel { scroll_offset: m.scroll_offset - PAGE, ..m }
    } else {
        at_bottom(m)
    }
}

/// What a key does to the interface itself.
pub open spec fn pressed(m: AppModel, k: KeyPress) -> AppModel {
    match k.key {
        Key::Char(c) => if c == 'c' && k.control {
            AppModel { should_quit: true, ..m }
        } else {
            AppModel { input: typed(m.input, c), ..m }
        },
        Key::Esc => AppModel { autocomplete: None, ..m },
        Key::Backspace => AppModel { input: backspaced(m.input), ..m },
        Key::Delete => AppModel { input: deleted(m.input), ..m },
        Key::Left => AppModel { input: moved_left(m.input), ..m },
        Key::Right => AppModel { input: moved_right(m.input), ..m },
        Key::Home => AppModel { input: LineModel { cursor: 0, ..m.input }, ..m },
        Key::End => at_bottom(AppModel { input: fresh_line(m.input.text), ..m }),
        Key::Up => recalled_older(m),
        Key::Down => recalled_newer(m),
        Key::PageUp => paged_up(m),
        Key::PageDown => paged_down(m),
        _ => m,
    }
}

/// The keys after which completions are worked out anew.
pub open spec fn is_editing(key: Key) -> bool {
    key is Char || key == Key::Backspace || key == Key::Delete
}

/// What a key does while nothing lies over the input line. The line "/cp "
/// opens the file picker.
pub open spec fn plain_key(m: AppModel, k: KeyPress) -> (AppModel, Seq<EffectModel>) {
    let after = pressed(m, k);
    if is_editing(k.key) {
        if after.input.text == "/cp "@ && !after.picker_open {
            (
                AppModel { picker_open: true, ..after },
                seq![EffectModel::UpdateAutocomplete, EffectModel::OpenPicker],
            )
        } else {
            (after, seq![EffectModel::UpdateAutocomplete])
        }
    } else if k.key == Key::Tab {
        (after, seq![EffectModel::CompleteNow])
    } else {
        (after, seq![])
    }
}

/// What a key does. The dialog takes all keys, then the file picker, then the
/// list of completions those that are its own.
pub open spec fn key_pressed(m: AppModel, k: KeyPress, seen: Seen, now: u64) -> (
    AppModel,
    Seq<EffectModel>,
) {
    if m.dialog is Some {
        dialog_key(m, k.key, seen.path_exists, now)
    } else if m.picker_open {
        picker_key(m, k.key, seen.picked)
    } else if m.autocomplete is Some && is_completion_key(k.key) {
        completion_key(m, k.key)
    } else {
        plain_key(m, k)
    }
}

/// Nothing lies over the input line.
pub open spec fn is_uncovered(m: AppModel) -> bool {
    !m.picker_open && m.autocomplete is None && m.dialog is None
}

/// The input line is submitted.
pub open spec fn submitted(m: AppModel, now: u64) -> (AppModel, Seq<EffectModel>) {
    let line = trimmed(m.input.text);
    let after = AppModel {
        history: m.history.push(line),
        history_index: None,
        input: fresh_line(Seq::empty()),
        ..m
    };
    if line.len() == 0 {
        (m, seq![])
    } else if line[0] == '/' {
        (after, seq![EffectModel::SaveHistory(line), EffectModel::Run(line)])
    } else {
        (
            pushed(
                after,
                system_item(
                    now,
                    "  Type / for commands. Available: /send /broadcast /cp /exit"@,
                    SystemLevel::Info,
                ),
            ),
            seq![EffectModel::SaveHistory(line)],
        )
    }
}

/// What a key event does: a line is submitted by Enter, unless something lies
/// over it.
pub open spec fn key_event(m: AppModel, k: KeyPress, seen: Seen, now: u64) -> (
    AppModel,
    Seq<EffectModel>,
) {
    if k.key == Key::Enter && is_uncovered(m) {
        submitted(m, now)
    } else {
        key_pressed(m, k, seen, now)
    }
}

/// The chosen completion was taken.
pub open spec fn completed(
    m: AppModel,
    line: LineModel,
    next: Option<AutocompleteKind>,
) -> (AppModel, Seq<EffectModel>) {
    let after = AppModel { input: line, ..m };
    if m.autocomplete == Some(AutocompleteKind::Command) {
        if begins_with(line.text, "/cp "@) || line.text == "/cp"@ {
            (
                AppModel { autocomplete: next, picker_open: true, ..after },
                seq![EffectModel::OpenPicker],
            )
        } else {
            (AppModel { autocomplete: next, ..after }, seq![])
        }
    } else {
        (AppModel { autocomplete: None, ..after }, seq![])
    }
}

/// What a command ended with.
pub enum CommandResult {
    Quit,
    Items(Vec<DisplayItem>),
    Handled,
}

/// What the end of a command does.
pub open spec fn command_ended(m: AppModel, r: CommandResult) -> AppModel {
    match r {
        CommandResult::Quit => AppModel { should_quit: true, ..m },
        CommandResult::Items(items) => AppModel { items: m.items + item_models(items@), ..m },
        CommandResult::Handled => m,
    }
}

impl AppState {
    fn picker_pressed(&mut self, key: Key, picked: &Picked) -> (r: Vec<Effect>)
        requires
            old(self)@.wf(),
        ensures
            (final(self)@, effect_models(r@)) == picker_key(old(self)@, key, *picked),
            final(self)@.wf(),
    {
        match key {
            Key::Esc => {
                self.picker_open = false;
                self.input = Line::new("/");
                one_effect(Effect::UpdateAutocomplete)
            },
            Key::Enter => match picked {
                Picked::File(path) => {
                    self.picker_open = false;
                    let text: String = self.input.text();
                    if !starts_with_text(text.as_str(), "/cp ") {
                        self.input = Line::new("/cp ");
                    }
                    self.input.paste(path.as_str());
                    no_effects()
                },
                Picked::Directory => one_effect(Effect::PickerKey),
            },
            _ => one_effect(Effect::PickerKey),
        }
    }

    fn recall(&mut self, i: usize)
        requires
            i < old(self)@.history.len(),
            old(self)@.wf(),
        ensures
            final(self)@ == recalled(old(self)@, i as int),
            final(self)@.wf(),
    {
        self.history_index = Some(i);
        let line: String = self.history[i].clone();
        self.input = Line::new(line.as_str());
    }

    fn press(&mut self, k: KeyPress)
        requires
            old(self)@.wf(),
        ensures
            final(self)@ == pressed(old(self)@, k),
            final(self)@.wf(),
    {
        match k.key {
            Key::Char(c) => {
                if c == 'c' && k.control {
                    self.should_quit = true;
                } else {
                    self.input.type_char(c);
                }
            },
            Key::Esc => self.autocomplete = None,
            Key::Backspace => self.input.backspace(),
            Key::Delete => self.input.delete(),
            Key::Left => self.input.left(),
            Key::Right => self.input.right(),
            Key::Home => self.input.home(),
            Key::End => {
                self.input.end();
                self.scroll_to_bottom();
            },
            Key::Up => {
                let n: usize = self.history.len();
                if n > 0 {
                    let i: usize = match self.history_index {
                        None => n - 1,
                        Some(i) => if i > 0 {
                            i - 1
                        } else {
                            0
                        },
                    };
                    self.recall(i);
                }
            },
            Key::Down => match self.history_index {
                Some(i) => {
                    let n: usize = self.history.len();
                    if n > 0 && i < n - 1 {
                        self.recall(i + 1);
                    } else {
                        self.history_index = None;
                        self.clear_input();
                    }
                },
                None => {},
            },
            Key::PageUp => {
                self.auto_scroll = false;
                let n: usize = self.items.len();
                let most: usize = if n > 0 {
                    n - 1
                } else {
                    0
                };
                self.scroll_offset = if most >= PAGE && self.scroll_offset <= most - PAGE {
                    self.scroll_offset + PAGE
                } else {
                    most
                };
            },
            Key::PageDown => {
                if self.scroll_offset > PAGE {
                    self.scroll_offset = self.scroll_offset - PAGE;
                } else {
                    self.scroll_to_bottom();
                }
            },
            _ => {},
        }
    }

    fn clear_input(&mut self)
        ensures
            final(self)@ == (AppModel { input: fresh_line(Seq::empty()), ..old(self)@ }),
            final(self)@.input.wf(),
    {
        self.input = Line::new("");
        proof {
            reveal_strlit("");
        }
        assert(self.input@.text =~= Seq::empty());
    }

    /// Handles a key that does not submit a line.
    pub fn handle_key(&mut self, k: KeyPress, seen: &Seen, now: u64) -> (r: Vec<Effect>)
        requires
            old(self)@.wf(),
        ensures
            (final(self)@, effect_models(r@)) == key_pressed(old(self)@, k, *seen, now),
            final(self)@.wf(),
    {
        if self.transfer_dialog.is_some() {
            return self.handle_transfer_dialog_key(k.key, seen.path_exists, now);
        }
        if self.picker_open {
            return self.picker_pressed(k.key, &seen.picked);
        }
        if self.autocomplete.is_some() {
            match k.key {
                Key::Enter => return one_effect(Effect::AcceptAutocomplete),
                Key::Tab => return one_effect(Effect::AcceptAutocomplete),
                Key::Esc => {
                    self.autocomplete = None;
                    return no_effects();
                },
                Key::Up => return one_effect(Effect::PreviousCompletion),
                Key::Down => return one_effect(Effect::NextCompletion),
                _ => {},
            }
        }
        self.press(k);
        match k.key {
            Key::Char(_) | Key::Backspace | Key::Delete => {
                let text: String = self.input.text();
                if same_text(text.as_str(), "/cp ") && !self.picker_open {
                    self.picker_open = true;
                    two_effects(Effect::UpdateAutocomplete, Effect::OpenPicker)
                } else {
                    one_effect(Effect::UpdateAutocomplete)
                }
            },
            Key::Tab => one_effect(Effect::CompleteNow),
            _ => no_effects(),
        }
    }

    /// Submits the input line: it goes to the history, and is run if it is a
    /// command.
    pub fn submit(&mut self, now: u64) -> (r: Vec<Effect>)
        requires
            old(self)@.wf(),
        ensures
            (final(self)@, effect_models(r@)) == submitted(old(self)@, now),
            final(self)@.wf(),
    {
        let text: String = self.input.text();
        let line: String = trim(text.as_str());
        if line.as_str().is_empty() {
            return no_effects();
        }
        let ghost before = self.history@;
        self.history.push(line.clone());
        assert(texts(self.history@) =~= texts(before).push(line@));
        self.history_index = None;
        self.clear_input();
        proof {
            reveal_strlit("/");
            assert("/"@ =~= seq!['/']);
            assert(line@.take(1) =~= seq![line@[0]]);
            assert(seq![line@[0]] == seq!['/'] ==> seq![line@[0]][0] == '/');
        }
        let command: bool = starts_with_text(line.as_str(), "/");
        let save: Effect = Effect::SaveHistory { line: line.clone() };
        if command {
            two_effects(save, Effect::Run { line })
        } else {
            self.push_item(
                DisplayItem::System {
                    time: now,
                    text: owned("  Type / for commands. Available: /send /broadcast /cp /exit"),
                    level: SystemLevel::Info,
                },
            );
            one_effect(save)
        }
    }

    /// Handles a key of the terminal.
    pub fn handle_key_event(&mut self, k: KeyPress, seen: &Seen, now: u64) -> (r: Vec<Effect>)
        requires
            old(self)@.wf(),
        ensures
            (final(self)@, effect_models(r@)) == key_event(old(self)@, k, *seen, now),
            final(self)@.wf(),
    {
        if k.key == Key::Enter && !self.picker_open && self.autocomplete.is_none()
            && self.transfer_dialog.is_none() {
            self.submit(now)
        } else {
            self.handle_key(k, seen, now)
        }
    }

    /// The completions of the input were worked out.
    pub fn completion_updated(&mut self, next: Option<AutocompleteKind>)
        ensures
            final(self)@ == (AppModel { autocomplete: next, ..old(self)@ }),
    {
        self.autocomplete = next;
    }

    /// The chosen completion was taken: the input is now this one, and `next`
    /// is what can be completed then. Taking a device ends the completing,
    /// taking the copy command opens the file picker.
    pub fn completion_accepted(
        &mut self,
        text: &str,
        cursor: usize,
        next: Option<AutocompleteKind>,
    ) -> (r: Vec<Effect>)
        requires
            old(self)@.wf(),
        ensures
            (final(self)@, effect_models(r@)) == completed(
                old(self)@,
                line_at(text@, cursor as int),
                next,
            ),
            final(self)@.wf(),
    {
        let command: bool = match self.autocomplete {
            Some(AutocompleteKind::Command) => true,
            _ => false,
        };
        self.input = Line::at(text, cursor);
        if command {
            self.autocomplete = next;
            if starts_with_text(text, "/cp ") || same_text(text, "/cp") {
                self.picker_open = true;
                return one_effect(Effect::OpenPicker);
            }
        } else {
            self.autocomplete = None;
        }
        no_effects()
    }

    /// The input was completed in one go.
    pub fn input_completed(&mut self, text: &str, cursor: usize, next: Option<AutocompleteKind>)
        requires
            old(self)@.wf(),
        ensures
            final(self)@ == (AppModel {
                input: line_at(text@, cursor as int),
                autocomplete: next,
                ..old(self)@
            }),
            final(self)@.wf(),
    {
        self.input = Line::at(text, cursor);
        self.autocomplete = next;
    }

    /// The file picker was closed, or could not be opened.
    pub fn picker_closed(&mut self)
        ensures
            final(self)@ == (AppModel { picker_open: false, ..old(self)@ }),
    {
        self.picker_open = false;
    }

    /// A command ended.
    pub fn finish_command(&mut self, result: CommandResult)
        ensures
            final(self)@ == command_ended(old(self)@, result),
    {
        match result {
            CommandResult::Quit => self.should_quit = true,
            CommandResult::Items(items) => {
                let ghost before = self.items@;
                let ghost added = items@;
                let mut items: Vec<DisplayItem> = items;
                self.items.append(&mut items);
                assert(item_models(self.items@) =~= item_models(before) + item_models(added));
            },
            CommandResult::Handled => {},
        }
    }
}

// ---------------------------------------------------------------------------
// Laws
// ---------------------------------------------------------------------------

/// While a dialog is open no key reaches the input line, the history or the
/// feed's position, and none ends the program.
pub proof fn law_dialog_takes_all_keys(m: AppModel, k: KeyPress, seen: Seen, now: u64)
    requires
        m.dialog is Some,
    ensures
        ({
            let after = key_event(m, k, seen, now).0;
            &&& after.input == m.input
            &&& after.history == m.history
            &&& after.scroll_offset == m.scroll_offset
            &&& after.should_quit == m.should_quit
        }),
{
    lemma_dialog_key_keeps(m, k.key, seen.path_exists, now);
}

/// The cursor is in its text, and the place in the history is one.
pub open spec fn in_place(m: AppModel) -> bool {
    m.input.wf() && (m.history_index matches Some(i) ==> 0 <= i < m.history.len())
}

proof fn lemma_plain_key_in_place(m: AppModel, k: KeyPress)
    requires
        in_place(m),
    ensures
        in_place(pressed(m, k)),
        in_place(plain_key(m, k).0),
{
}

proof fn lemma_overlay_key_in_place(m: AppModel, key: Key, picked: Picked)
    requires
        in_place(m),
    ensures
        in_place(picker_key(m, key, picked).0),
        in_place(completion_key(m, key).0),
{
}

/// A key never leaves a cursor outside its text, nor a place outside the
/// history.
pub proof fn law_keys_keep_the_cursor_in_place(m: AppModel, k: KeyPress, seen: Seen, now: u64)
    requires
        in_place(m),
    ensures
        in_place(key_event(m, k, seen, now).0),
{
    if k.key == Key::Enter && is_uncovered(m) {
    } else if m.dialog is Some {
        lemma_dialog_key_keeps(m, k.key, seen.path_exists, now);
    } else if m.picker_open {
        lemma_overlay_key_in_place(m, k.key, seen.picked);
    } else if m.autocomplete is Some && is_completion_key(k.key) {
        lemma_overlay_key_in_place(m, k.key, seen.picked);
    } else {
        lemma_plain_key_in_place(m, k);
    }
}

proof fn lemma_dialog_key_keeps(m: AppModel, key: Key, exists: bool, now: u64)
    ensures
        ({
            let after = dialog_key(m, key, exists, now).0;
            &&& after.input == m.input
            &&& after.history == m.history
            &&& after.history_index == m.history_index
            &&& after.scroll_offset == m.scroll_offset
            &&& after.should_quit == m.should_quit
        }),
{
}

/// One step back in the history and one forward come back to the same entry.
pub proof fn law_history_steps_undo(m: AppModel)
    requires
        m.wf(),
        m.history_index matches Some(i) && i > 0 && m.input == fresh_line(m.history[i]),
    ensures
        recalled_newer(recalled_older(m)) == m,
{
}

} // verus!
