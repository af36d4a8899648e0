//! What keys promise.
use vstd::prelude::*;

use crate::text::{begins_with, trimmed};
use crate::tui::keys::{
    command_ended, completed, key_event, key_pressed, CommandResult, KeyPress, Picked, Seen,
};
use crate::tui::line::{line_at, LineModel};
use crate::tui::offers::Key;
use crate::tui::state::{
    item_models, AppModel, AutocompleteKind, EffectModel, ItemModel, SystemLevel,
};

verus! {

/// What is not the input line, the history, the place in the feed, or what
/// lies over the line: the same in both.
pub open spec fn same_world(a: AppModel, b: AppModel) -> bool {
    &&& a.items == b.items
    &&& a.peers == b.peers
    &&& a.auto_accept_peers == b.auto_accept_peers
    &&& a.notifications == b.notifications
    &&& a.dialog == b.dialog
    &&& a.pending_offers == b.pending_offers
    &&& a.download_dir == b.download_dir
}

/// The history and the place in the feed: the same in both.
pub open spec fn same_places(a: AppModel, b: AppModel) -> bool {
    &&& a.history == b.history
    &&& a.history_index == b.history_index
    &&& a.scroll_offset == b.scroll_offset
    &&& a.auto_scroll == b.auto_scroll
}

/// Nothing takes keys before the input line does.
pub open spec fn line_has_keys(m: AppModel) -> bool {
    m.dialog is None && !m.picker_open && m.autocomplete is None
}

/// A character that is typed stands where the cursor was, between what stood
/// before and behind the cursor, and the cursor goes behind it. Completions are
/// worked out anew; the file picker opens exactly where the line has become
/// "/cp ".
pub proof fn law_characters_are_inserted(m: AppModel, c: char, control: bool, seen: Seen, now: u64)
    requires
        m.wf(),
        m.dialog is None,
        !m.picker_open,
        !(c == 'c' && control),
    ensures
        ({
            let (after, effects) = key_event(m, KeyPress { key: Key::Char(c), control }, seen, now);
            &&& after.input.text == m.input.text.take(m.input.cursor) + seq![c]
                + m.input.text.skip(m.input.cursor)
            &&& after.input.cursor == m.input.cursor + 1
            &&& same_world(after, m)
            &&& same_places(after, m)
            &&& after.should_quit == m.should_quit
            &&& after.autocomplete == m.autocomplete
            &&& after.picker_open <==> after.input.text == "/cp "@
            &&& effects == if after.input.text == "/cp "@ {
                seq![EffectModel::UpdateAutocomplete, EffectModel::OpenPicker]
            } else {
                seq![EffectModel::UpdateAutocomplete]
            }
        }),
{
    let (after, effects) = key_event(m, KeyPress { key: Key::Char(c), control }, seen, now);
    assert(after.input.text =~= m.input.text.take(m.input.cursor) + seq![c] + m.input.text.skip(
        m.input.cursor,
    ));
}

/// Backspace takes the character before the cursor, delete that behind it;
/// where there is none, the line stays.
pub proof fn law_characters_are_erased(m: AppModel, control: bool, seen: Seen, now: u64)
    requires
        m.wf(),
        m.dialog is None,
        !m.picker_open,
    ensures
        ({
            let after = key_event(m, KeyPress { key: Key::Backspace, control }, seen, now).0;
            &&& m.input.cursor > 0 ==> after.input.text == m.input.text.take(m.input.cursor - 1)
                + m.input.text.skip(m.input.cursor) && after.input.cursor == m.input.cursor - 1
            &&& m.input.cursor == 0 ==> after.input == m.input
            &&& same_world(after, m)
            &&& same_places(after, m)
            &&& after.should_quit == m.should_quit
        }),
        ({
            let after = key_event(m, KeyPress { key: Key::Delete, control }, seen, now).0;
            &&& m.input.cursor < m.input.text.len() ==> after.input.text == m.input.text.take(
                m.input.cursor,
            ) + m.input.text.skip(m.input.cursor + 1) && after.input.cursor == m.input.cursor
            &&& m.input.cursor == m.input.text.len() ==> after.input == m.input
            &&& same_world(after, m)
            &&& same_places(after, m)
            &&& after.should_quit == m.should_quit
        }),
{
    let a = key_event(m, KeyPress { key: Key::Backspace, control }, seen, now).0;
    let b = key_event(m, KeyPress { key: Key::Delete, control }, seen, now).0;
    if m.input.cursor > 0 {
        assert(a.input.text =~= m.input.text.take(m.input.cursor - 1) + m.input.text.skip(
            m.input.cursor,
        ));
    }
    if m.input.cursor < m.input.text.len() {
        assert(b.input.text =~= m.input.text.take(m.input.cursor) + m.input.text.skip(
            m.input.cursor + 1,
        ));
    }
}

/// The cursor goes one character left or right, to the start or to the end, and
/// never out of the line; the text stays.
pub proof fn law_cursor_moves(m: AppModel, control: bool, seen: Seen, now: u64)
    requires
        m.wf(),
        line_has_keys(m),
    ensures
        ({
            let left = key_event(m, KeyPress { key: Key::Left, control }, seen, now).0;
            let right = key_event(m, KeyPress { key: Key::Right, control }, seen, now).0;
            let home = key_event(m, KeyPress { key: Key::Home, control }, seen, now).0;
            let end = key_event(m, KeyPress { key: Key::End, control }, seen, now).0;
            &&& left.input.text == m.input.text
            &&& right.input.text == m.input.text
            &&& home.input.text == m.input.text
            &&& end.input.text == m.input.text
            &&& m.input.cursor > 0 ==> left.input.cursor + 1 == m.input.cursor
            &&& m.input.cursor == 0 ==> left.input.cursor == 0
            &&& m.input.cursor < m.input.text.len() ==> right.input.cursor == m.input.cursor + 1
            &&& m.input.cursor == m.input.text.len() ==> right.input.cursor == m.input.cursor
            &&& home.input.cursor == 0
            &&& end.input.cursor == m.input.text.len()
            &&& same_world(left, m) && same_places(left, m) && left.should_quit == m.should_quit
            &&& same_world(right, m) && same_places(right, m) && right.should_quit
                == m.should_quit
            &&& same_world(home, m) && same_places(home, m) && home.should_quit == m.should_quit
            &&& same_world(end, m) && end.history == m.history && end.history_index
                == m.history_index && end.should_quit == m.should_quit
            &&& end.scroll_offset == 0 && end.auto_scroll
        }),
{
}

/// Control and C ends the session, where no dialog and no picker takes the
/// key; no other key does.
pub proof fn law_only_control_c_quits(m: AppModel, k: KeyPress, seen: Seen, now: u64)
    requires
        !m.should_quit,
    ensures
        key_event(m, k, seen, now).0.should_quit <==> k.key == Key::Char('c') && k.control
            && m.dialog is None && !m.picker_open,
        k.key == Key::Char('c') && k.control && m.dialog is None && !m.picker_open
            ==> key_event(m, k, seen, now).0.input == m.input,
{
    match m.dialog {
        Some(d) => {},
        None => {},
    }
}

/// The entry that the n-th of these keys in a row shows: up shows the newest
/// entry first and goes back to the oldest, down comes forward and ends with an
/// empty line.
pub proof fn law_history_is_walked(m: AppModel, control: bool, seen: Seen, now: u64)
    requires
        m.wf(),
        line_has_keys(m),
    ensures
        ({
            let up = key_event(m, KeyPress { key: Key::Up, control }, seen, now).0;
            let n = m.history.len();
            &&& n == 0 ==> up.input == m.input
            &&& n > 0 && m.history_index is None ==> up.input.text == m.history[n - 1]
                && up.history_index == Some(n - 1)
            &&& (m.history_index matches Some(i) ==> (i > 0 ==> up.input.text == m.history[i - 1]
                && up.history_index == Some(i - 1)) && (i == 0 ==> up.input.text == m.history[0]
                && up.history_index == Some(0int)))
            &&& n > 0 ==> up.input.cursor == up.input.text.len()
            &&& up.history == m.history
            &&& same_world(up, m)
            &&& up.scroll_offset == m.scroll_offset && up.auto_scroll == m.auto_scroll
        }),
        ({
            let down = key_event(m, KeyPress { key: Key::Down, control }, seen, now).0;
            let n = m.history.len();
            &&& m.history_index is None ==> down.input == m.input && down.history_index is None
            &&& (m.history_index matches Some(i) ==> (i + 1 < n ==> down.input.text == m.history[i
                + 1] && down.history_index == Some(i + 1)) && (i + 1 == n
                ==> down.input.text.len() == 0 && down.history_index is None))
            &&& m.history_index is Some ==> down.input.cursor == down.input.text.len()
            &&& down.history == m.history
            &&& same_world(down, m)
            &&& down.scroll_offset == m.scroll_offset && down.auto_scroll == m.auto_scroll
        }),
{
}

/// A line that is submitted becomes the last entry of the history, without the
/// white space around it, and the line is empty again. A command is run as it
/// stands in the history; anything else is answered by the hint and not run. A
/// blank line does nothing.
pub proof fn law_lines_are_submitted(m: AppModel, control: bool, seen: Seen, now: u64)
    requires
        line_has_keys(m),
    ensures
        ({
            let (after, effects) = key_event(m, KeyPress { key: Key::Enter, control }, seen, now);
            let line = trimmed(m.input.text);
            &&& line.len() == 0 ==> after == m && effects.len() == 0
            &&& line.len() > 0 ==> {
                &&& after.history == m.history + seq![line]
                &&& after.history_index is None
                &&& after.input.text.len() == 0
                &&& after.input.cursor == 0
                &&& after.scroll_offset == m.scroll_offset
                &&& after.auto_scroll == m.auto_scroll
                &&& after.should_quit == m.should_quit
                &&& after.peers == m.peers
                &&& after.notifications == m.notifications
                &&& effects.len() > 0 && effects[0] == EffectModel::SaveHistory(line)
            }
            &&& line.len() > 0 && line[0] == '/' ==> {
                &&& effects.len() == 2
                &&& effects[1] == EffectModel::Run(line)
                &&& after.items == m.items
            }
            &&& line.len() > 0 && line[0] != '/' ==> {
                &&& effects.len() == 1
                &&& after.items == m.items + seq![
                    ItemModel::System {
                        time: now,
                        text: "  Type / for commands. Available: /send /broadcast /cp /exit"@,
                        level: SystemLevel::Info,
                    },
                ]
            }
        }),
{
    let (after, effects) = key_event(m, KeyPress { key: Key::Enter, control }, seen, now);
    let line = trimmed(m.input.text);
    assert(m.history.push(line) =~= m.history + seq![line]);
    let hint = ItemModel::System {
        time: now,
        text: "  Type / for commands. Available: /send /broadcast /cp /exit"@,
        level: SystemLevel::Info,
    };
    assert(m.items.push(hint) =~= m.items + seq![hint]);
}

/// A page is ten entries. Up goes at most to the first entry and stops the feed
/// from following; down goes back, and the feed follows again once the end is
/// reached.
pub proof fn law_feed_is_paged(m: AppModel, control: bool, seen: Seen, now: u64)
    requires
        m.wf(),
        m.dialog is None,
        !m.picker_open,
    ensures
        ({
            let up = key_event(m, KeyPress { key: Key::PageUp, control }, seen, now).0;
            &&& !up.auto_scroll
            &&& m.scroll_offset + 10 < m.items.len() ==> up.scroll_offset == m.scroll_offset + 10
            &&& 0 < m.items.len() <= m.scroll_offset + 10 ==> up.scroll_offset + 1 == m.items.len()
            &&& m.items.len() == 0 ==> up.scroll_offset == 0
            &&& same_world(up, m)
            &&& up.input == m.input && up.history == m.history && up.history_index
                == m.history_index
        }),
        ({
            let down = key_event(m, KeyPress { key: Key::PageDown, control }, seen, now).0;
            &&& m.scroll_offset > 10 ==> down.scroll_offset == m.scroll_offset - 10
                && down.auto_scroll == m.auto_scroll
            &&& m.scroll_offset <= 10 ==> down.scroll_offset == 0 && down.auto_scroll
            &&& same_world(down, m)
            &&& down.input == m.input && down.history == m.history && down.history_index
                == m.history_index
        }),
{
}

/// While completions are shown, Enter and Tab take the chosen one, Up and Down
/// choose another, and Esc closes the list; none of them touches the line.
pub proof fn law_completions_take_their_keys(m: AppModel, control: bool, seen: Seen, now: u64)
    requires
        m.dialog is None,
        !m.picker_open,
        m.autocomplete is Some,
    ensures
        key_event(m, KeyPress { key: Key::Enter, control }, seen, now) == (
            m,
            seq![EffectModel::AcceptAutocomplete],
        ),
        key_event(m, KeyPress { key: Key::Tab, control }, seen, now) == (
            m,
            seq![EffectModel::AcceptAutocomplete],
        ),
        key_event(m, KeyPress { key: Key::Up, control }, seen, now) == (
            m,
            seq![EffectModel::PreviousCompletion],
        ),
        key_event(m, KeyPress { key: Key::Down, control }, seen, now) == (
            m,
            seq![EffectModel::NextCompletion],
        ),
        ({
            let (after, effects) = key_event(m, KeyPress { key: Key::Esc, control }, seen, now);
            &&& after.autocomplete is None
            &&& after.input == m.input
            &&& same_world(after, m)
            &&& same_places(after, m)
            &&& !after.picker_open
            &&& effects.len() == 0
        }),
{
}

/// Tab asks for completions where none are shown, and changes nothing itself.
pub proof fn law_tab_asks_for_completions(m: AppModel, control: bool, seen: Seen, now: u64)
    requires
        line_has_keys(m),
    ensures
        key_event(m, KeyPress { key: Key::Tab, control }, seen, now) == (
            m,
            seq![EffectModel::CompleteNow],
        ),
{
}

/// A file that was picked is put at the cursor of a "/cp " line, or behind
/// "/cp " where the line is another; the picker closes. A directory, and every
/// key but Enter and Esc, goes to the picker. Esc leaves a "/" to go on from.
pub proof fn law_picker_takes_keys(m: AppModel, k: KeyPress, seen: Seen, now: u64)
    requires
        m.wf(),
        m.dialog is None,
        m.picker_open,
    ensures
        ({
            let (after, effects) = key_event(m, k, seen, now);
            &&& k.key == Key::Esc ==> {
                &&& !after.picker_open
                &&& after.input.text == "/"@
                &&& after.input.cursor == 1
                &&& effects == seq![EffectModel::UpdateAutocomplete]
            }
            &&& (seen.picked matches Picked::File(path) ==> (k.key == Key::Enter ==> {
                &&& !after.picker_open
                &&& effects.len() == 0
                &&& begins_with(m.input.text, "/cp "@) ==> after.input.text == m.input.text.take(
                    m.input.cursor,
                ) + path@ + m.input.text.skip(m.input.cursor) && after.input.cursor
                    == m.input.cursor + path@.len()
                &&& !begins_with(m.input.text, "/cp "@) ==> after.input.text == "/cp "@ + path@
                    && after.input.cursor == 4 + path@.len()
            }))
            &&& k.key == Key::Enter && seen.picked is Directory ==> after == m && effects
                == seq![EffectModel::PickerKey]
            &&& k.key != Key::Esc && k.key != Key::Enter ==> after == m && effects
                == seq![EffectModel::PickerKey]
            &&& same_world(after, m)
            &&& same_places(after, m)
        }),
{
    reveal_strlit("/");
    reveal_strlit("/cp ");
    let after = key_event(m, k, seen, now).0;
    match seen.picked {
        Picked::File(path) => {
            if k.key == Key::Enter && !begins_with(m.input.text, "/cp "@) {
                assert(after.input.text =~= "/cp "@ + path@);
            }
        },
        Picked::Directory => {},
    }
}

/// A completion that was taken is the new line. Only the completion of a
/// command can be followed by another list, and only that of "/cp" opens the
/// picker.
pub proof fn law_completion_is_the_line(
    m: AppModel,
    line: LineModel,
    next: Option<AutocompleteKind>,
)
    requires
        !m.picker_open,
    ensures
        ({
            let (after, effects) = completed(m, line, next);
            &&& after.input == line
            &&& m.autocomplete == Some(AutocompleteKind::Command) ==> after.autocomplete == next
            &&& m.autocomplete != Some(AutocompleteKind::Command) ==> after.autocomplete is None
            &&& after.picker_open <==> m.autocomplete == Some(AutocompleteKind::Command) && (
            line.text == "/cp"@ || begins_with(line.text, "/cp "@))
            &&& after.picker_open ==> effects == seq![EffectModel::OpenPicker]
            &&& !after.picker_open ==> effects.len() == 0
            &&& same_world(after, m)
            &&& same_places(after, m)
        }),
{
}

/// A line that is put in keeps its text; its cursor is where it is said to be,
/// and at the end where that is behind the text.
pub proof fn law_cursor_is_put_into_the_line(text: Seq<char>, cursor: int)
    ensures
        line_at(text, cursor).text == text,
        cursor <= text.len() ==> line_at(text, cursor).cursor == cursor,
        cursor > text.len() ==> line_at(text, cursor).cursor == text.len(),
        cursor >= 0 ==> line_at(text, cursor).wf(),
{
}

/// What a command shows comes at the end of the feed, in its order; only one
/// that quits ends the session.
pub proof fn law_command_ends(m: AppModel, r: CommandResult)
    ensures
        r is Quit ==> command_ended(m, r).should_quit && command_ended(m, r).items == m.items,
        r is Handled ==> command_ended(m, r) == m,
        r matches CommandResult::Items(items) ==> {
            let after = command_ended(m, r);
            &&& after.should_quit == m.should_quit
            &&& after.items.len() == m.items.len() + items@.len()
            &&& forall|i: int| 0 <= i < m.items.len() ==> #[trigger] after.items[i] == m.items[i]
            &&& forall|i: int|
                0 <= i < items@.len() ==> after.items[m.items.len() + i] == (
                #[trigger] items@[i])@
        },
        command_ended(m, r).input == m.input,
        command_ended(m, r).peers == m.peers,
        command_ended(m, r).dialog == m.dialog,
{
    match r {
        CommandResult::Items(items) => {
            assert forall|i: int| 0 <= i < items@.len() implies command_ended(m, r).items[m.items.len()
                + i] == (#[trigger] items@[i])@ by {
                assert(item_models(items@)[i] == items@[i]@);
            }
        },
        _ => {},
    }
}

/// Whether a key is seen as part of an event or on its own makes a difference
/// only to Enter on a line that nothing lies over.
pub proof fn law_keys_are_keys(m: AppModel, k: KeyPress, seen: Seen, now: u64)
    requires
        k.key != Key::Enter || !line_has_keys(m),
    ensures
        key_event(m, k, seen, now) == key_pressed(m, k, seen, now),
{
}

} // verus!
