//! What the dialog about an offer promises.
use vstd::prelude::*;

use crate::file_transfer::types::TransferDirection;
use crate::tui::events::{event_handled, AppEvent};
use crate::tui::keys::{key_event, KeyPress, Seen};
use crate::tui::offers::Key;
use crate::tui::peers::name_answering;
use crate::tui::state::{
    AppModel, DialogModel, EffectModel, ItemModel, StatusModel, SystemLevel, TicketedModel,
    TicketedOffer, TransferDialogPhase,
};

verus! {

/// The dialog that a state shows is that of an offer just taken up.
pub open spec fn asks_about(m: AppModel, t: TicketedModel, now: u64) -> bool {
    m.dialog matches Some(d) && {
        &&& d.offer == t.offer
        &&& d.ticket == t.ticket
        &&& d.phase == TransferDialogPhase::Prompt
        &&& d.created_at == now
        &&& d.save_path.cursor == d.save_path.text.len()
        &&& t.offer.suggested_path.len() > 0 && t.offer.suggested_path != "."@
            ==> d.save_path.text == t.offer.suggested_path
        &&& t.offer.suggested_path.len() == 0 || t.offer.suggested_path == "."@
            ==> d.save_path.text == m.download_dir + "/"@ + t.offer.file_name
    }
}

/// The dialog is done with, and the offer that waited longest is asked about.
pub open spec fn goes_on(before: AppModel, after: AppModel, now: u64) -> bool {
    &&& before.pending_offers.len() == 0 ==> after.dialog is None && after.pending_offers.len()
        == 0
    &&& before.pending_offers.len() > 0 ==> {
        &&& asks_about(after, before.pending_offers[0], now)
        &&& before.pending_offers == seq![before.pending_offers[0]] + after.pending_offers
    }
}

/// What the dialog never touches.
pub open spec fn same_rest(a: AppModel, b: AppModel) -> bool {
    &&& a.input == b.input
    &&& a.history == b.history
    &&& a.history_index == b.history_index
    &&& a.scroll_offset == b.scroll_offset
    &&& a.auto_scroll == b.auto_scroll
    &&& a.should_quit == b.should_quit
    &&& a.peers == b.peers
    &&& a.autocomplete == b.autocomplete
    &&& a.download_dir == b.download_dir
}

/// The entry of a file that begins to come in.
pub open spec fn begins_to_come(item: ItemModel, file_name: Seq<char>, size: u64, now: u64) -> bool {
    item matches ItemModel::FileTransfer { time, direction, file_name: n, size: s, status } && {
        &&& time == now
        &&& direction == TransferDirection::Receive
        &&& n == file_name
        &&& s == size
        &&& status == (StatusModel::InProgress { percent_bits: 0, speed_bps_bits: 0 })
    }
}

/// A key says yes: A or a while the dialog asks, Enter while the path is
/// edited.
pub open spec fn says_yes(d: DialogModel, key: Key) -> bool {
    ||| d.phase == TransferDialogPhase::Prompt && (key == Key::Char('a') || key == Key::Char('A'))
    ||| d.phase == TransferDialogPhase::SaveAs && key == Key::Enter
}

/// A yes takes the file to the path in the dialog, under the ticket of its
/// offer, unless something is there: then nothing is answered yet and the
/// dialog asks about replacing it.
pub proof fn law_yes_accepts(m: AppModel, d: DialogModel, k: KeyPress, seen: Seen, now: u64)
    requires
        m.dialog == Some(d),
        says_yes(d, k.key),
    ensures
        ({
            let (after, effects) = key_event(m, k, seen, now);
            &&& same_rest(after, m)
            &&& after.auto_accept_peers == m.auto_accept_peers
            &&& after.picker_open == m.picker_open
            &&& !seen.path_exists ==> {
                &&& effects == seq![
                    EffectModel::Accept { ticket: d.ticket, path: d.save_path.text },
                ]
                &&& after.items.len() == m.items.len() + 1
                &&& after.items.drop_last() == m.items
                &&& begins_to_come(after.items.last(), d.offer.file_name, d.offer.size, now)
                &&& goes_on(m, after, now)
            }
            &&& seen.path_exists ==> {
                &&& effects.len() == 0
                &&& after.items == m.items
                &&& after.pending_offers == m.pending_offers
                &&& (after.dialog matches Some(e) && e.phase
                    == TransferDialogPhase::OverwriteConfirm && e.offer == d.offer && e.ticket
                    == d.ticket && e.save_path == d.save_path && e.created_at == d.created_at)
            }
        }),
{
    let (after, effects) = key_event(m, k, seen, now);
    if !seen.path_exists {
        assert(after.items.drop_last() =~= m.items);
        if m.pending_offers.len() > 0 {
            assert(m.pending_offers =~= seq![m.pending_offers[0]] + m.pending_offers.skip(1));
        }
    }
}

/// A file is replaced only after Y or y. N, n and Esc go back to the question;
/// any other key is ignored.
pub proof fn law_replacing_is_confirmed(
    m: AppModel,
    d: DialogModel,
    k: KeyPress,
    seen: Seen,
    now: u64,
)
    requires
        m.dialog == Some(d),
        d.phase == TransferDialogPhase::OverwriteConfirm,
    ensures
        ({
            let (after, effects) = key_event(m, k, seen, now);
            let yes = k.key == Key::Char('y') || k.key == Key::Char('Y');
            let no = k.key == Key::Char('n') || k.key == Key::Char('N') || k.key == Key::Esc;
            &&& yes ==> {
                &&& effects == seq![
                    EffectModel::Accept { ticket: d.ticket, path: d.save_path.text },
                ]
                &&& after.items.drop_last() == m.items
                &&& after.items.len() == m.items.len() + 1
                &&& begins_to_come(after.items.last(), d.offer.file_name, d.offer.size, now)
                &&& goes_on(m, after, now)
            }
            &&& no ==> {
                &&& effects.len() == 0
                &&& after.items == m.items
                &&& after.pending_offers == m.pending_offers
                &&& (after.dialog matches Some(e) && e.phase == TransferDialogPhase::Prompt
                    && e.offer == d.offer && e.ticket == d.ticket && e.save_path == d.save_path
                    && e.created_at == d.created_at)
            }
            &&& !yes && !no ==> after == m && effects.len() == 0
            &&& same_rest(after, m)
        }),
{
    let (after, effects) = key_event(m, k, seen, now);
    if k.key == Key::Char('y') || k.key == Key::Char('Y') {
        assert(after.items.drop_last() =~= m.items);
        if m.pending_offers.len() > 0 {
            assert(m.pending_offers =~= seq![m.pending_offers[0]] + m.pending_offers.skip(1));
        }
    }
}

/// R and r refuse an offer, Esc dismisses it. The sender is told which, the
/// feed names the file and the sender, and no file is accepted.
pub proof fn law_no_rejects(m: AppModel, d: DialogModel, k: KeyPress, seen: Seen, now: u64)
    requires
        m.dialog == Some(d),
        d.phase == TransferDialogPhase::Prompt,
        k.key == Key::Char('r') || k.key == Key::Char('R') || k.key == Key::Esc,
    ensures
        ({
            let (after, effects) = key_event(m, k, seen, now);
            &&& effects.len() == 1
            &&& k.key != Key::Esc ==> effects[0] == (EffectModel::Reject {
                ticket: d.ticket,
                reason: "rejected by user"@,
            })
            &&& k.key == Key::Esc ==> effects[0] == (EffectModel::Reject {
                ticket: d.ticket,
                reason: "dismissed"@,
            })
            &&& after.items.len() == m.items.len() + 1
            &&& after.items.drop_last() == m.items
            &&& (after.items.last() matches ItemModel::System { time, text, level } && time == now
                && level == SystemLevel::Warning && text == (if k.key == Key::Esc {
                "  \u{274C} Dismissed "@
            } else {
                "  \u{274C} Rejected "@
            }) + d.offer.file_name + " from "@ + d.offer.from_name)
            &&& goes_on(m, after, now)
            &&& same_rest(after, m)
            &&& after.auto_accept_peers == m.auto_accept_peers
        }),
{
    let (after, effects) = key_event(m, k, seen, now);
    assert(after.items.drop_last() =~= m.items);
    if m.pending_offers.len() > 0 {
        assert(m.pending_offers =~= seq![m.pending_offers[0]] + m.pending_offers.skip(1));
    }
}

/// D and d accept the file and trust its sender from then on: the sender is
/// added to the list once, and the list is saved exactly where it has changed.
pub proof fn law_trust_accepts(m: AppModel, d: DialogModel, k: KeyPress, seen: Seen, now: u64)
    requires
        m.dialog == Some(d),
        d.phase == TransferDialogPhase::Prompt,
        k.key == Key::Char('d') || k.key == Key::Char('D'),
    ensures
        ({
            let (after, effects) = key_event(m, k, seen, now);
            let from = d.offer.from_peer;
            &&& effects.len() > 0
            &&& effects[0] == (EffectModel::Accept { ticket: d.ticket, path: d.save_path.text })
            &&& m.auto_accept_peers.contains(from) ==> effects.len() == 1
                && after.auto_accept_peers == m.auto_accept_peers
            &&& !m.auto_accept_peers.contains(from) ==> effects.len() == 2 && effects[1]
                == EffectModel::SaveConfig && after.auto_accept_peers == m.auto_accept_peers
                + seq![from]
            &&& after.items.len() == m.items.len() + 2
            &&& after.items.take(m.items.len() as int) == m.items
            &&& (after.items[m.items.len() as int] matches ItemModel::System { time, text, level }
                && time == now && level == SystemLevel::Success && text
                == "  \u{2705} Accepted "@ + d.offer.file_name + " \u{2192} "@ + d.save_path.text)
            &&& (after.items.last() matches ItemModel::System { time, text, level } && time == now
                && level == SystemLevel::Info && text == "  Future files from "@ + name_answering(
                m.peers,
                from,
                d.offer.from_name,
            ) + " accepted automatically"@)
            &&& goes_on(m, after, now)
            &&& same_rest(after, m)
        }),
{
    let (after, effects) = key_event(m, k, seen, now);
    assert(after.items.take(m.items.len() as int) =~= m.items);
    assert(m.auto_accept_peers.push(d.offer.from_peer) =~= m.auto_accept_peers
        + seq![d.offer.from_peer]);
    if m.pending_offers.len() > 0 {
        assert(m.pending_offers =~= seq![m.pending_offers[0]] + m.pending_offers.skip(1));
    }
}

/// S and s let the path be edited, with the picker open. While it is edited,
/// the path is a line like any other, Tab opens the picker, and Esc goes back to
/// the question. Nothing of that answers the offer.
pub proof fn law_path_is_edited(m: AppModel, d: DialogModel, k: KeyPress, seen: Seen, now: u64)
    requires
        m.wf(),
        m.dialog == Some(d),
        d.phase == TransferDialogPhase::Prompt && (k.key == Key::Char('s') || k.key == Key::Char(
            'S',
        )) || d.phase == TransferDialogPhase::SaveAs && k.key != Key::Enter,
    ensures
        ({
            let (after, effects) = key_event(m, k, seen, now);
            let l = d.save_path;
            &&& same_rest(after, m)
            &&& after.items == m.items
            &&& after.pending_offers == m.pending_offers
            &&& after.auto_accept_peers == m.auto_accept_peers
            &&& (after.dialog matches Some(e) && {
                &&& e.offer == d.offer
                &&& e.ticket == d.ticket
                &&& e.created_at == d.created_at
                &&& d.phase == TransferDialogPhase::Prompt ==> e.phase
                    == TransferDialogPhase::SaveAs && e.save_path == l && after.picker_open
                    && effects == seq![EffectModel::OpenPicker]
                &&& d.phase == TransferDialogPhase::SaveAs ==> {
                    &&& k.key == Key::Esc ==> e.phase == TransferDialogPhase::Prompt && e.save_path
                        == l
                    &&& k.key != Key::Esc ==> e.phase == TransferDialogPhase::SaveAs
                    &&& k.key == Key::Tab ==> after.picker_open && effects
                        == seq![EffectModel::OpenPicker] && e.save_path == l
                    &&& k.key != Key::Tab ==> effects.len() == 0 && after.picker_open
                        == m.picker_open
                    &&& (k.key matches Key::Char(c) ==> e.save_path.text == l.text.take(l.cursor)
                        + seq![c] + l.text.skip(l.cursor) && e.save_path.cursor == l.cursor + 1)
                    &&& k.key == Key::Backspace && l.cursor > 0 ==> e.save_path.text
                        == l.text.take(l.cursor - 1) + l.text.skip(l.cursor) && e.save_path.cursor
                        == l.cursor - 1
                    &&& k.key == Key::Delete && l.cursor < l.text.len() ==> e.save_path.text
                        == l.text.take(l.cursor) + l.text.skip(l.cursor + 1) && e.save_path.cursor
                        == l.cursor
                    &&& k.key == Key::Left && l.cursor > 0 ==> e.save_path.text == l.text
                        && e.save_path.cursor == l.cursor - 1
                    &&& k.key == Key::Right && l.cursor < l.text.len() ==> e.save_path.text
                        == l.text && e.save_path.cursor == l.cursor + 1
                    &&& k.key == Key::Home ==> e.save_path.text == l.text && e.save_path.cursor
                        == 0
                    &&& k.key == Key::End ==> e.save_path.text == l.text && e.save_path.cursor
                        == l.text.len()
                    &&& (k.key == Key::Up || k.key == Key::Down || k.key == Key::PageUp || k.key
                        == Key::PageDown || k.key == Key::Other) ==> e.save_path == l
                }
            })
        }),
{
    let l = d.save_path;
    let (after, effects) = key_event(m, k, seen, now);
    let e = after.dialog->0;
    match k.key {
        Key::Char(c) => {
            if d.phase == TransferDialogPhase::SaveAs {
                assert(e.save_path.text =~= l.text.take(l.cursor) + seq![c] + l.text.skip(
                    l.cursor,
                ));
            }
        },
        Key::Backspace => {
            if l.cursor > 0 {
                assert(e.save_path.text =~= l.text.take(l.cursor - 1) + l.text.skip(l.cursor));
            }
        },
        Key::Delete => {
            if l.cursor < l.text.len() {
                assert(e.save_path.text =~= l.text.take(l.cursor) + l.text.skip(l.cursor + 1));
            }
        },
        _ => {},
    }
}

/// Any other key leaves the question as it is.
pub proof fn law_other_keys_are_ignored(
    m: AppModel,
    d: DialogModel,
    k: KeyPress,
    seen: Seen,
    now: u64,
)
    requires
        m.dialog == Some(d),
        d.phase == TransferDialogPhase::Prompt,
        k.key != Key::Esc,
        k.key matches Key::Char(c) ==> !"aAsSrRdD"@.contains(c),
    ensures
        key_event(m, k, seen, now).0 == m,
        key_event(m, k, seen, now).1.len() == 0,
{
    reveal_strlit("aAsSrRdD");
    let s = "aAsSrRdD"@;
    assert(s[0] == 'a' && s[1] == 'A' && s[2] == 's' && s[3] == 'S' && s[4] == 'r' && s[5] == 'R'
        && s[6] == 'd' && s[7] == 'D');
    assert(s.contains('a') && s.contains('A') && s.contains('s') && s.contains('S') && s.contains(
        'r',
    ) && s.contains('R') && s.contains('d') && s.contains('D'));
    assert(k.key != Key::Char('a') && k.key != Key::Char('A') && k.key != Key::Char('s') && k.key
        != Key::Char('S') && k.key != Key::Char('r') && k.key != Key::Char('R') && k.key
        != Key::Char('d') && k.key != Key::Char('D'));
}

/// An offer of a trusted sender is accepted at once, to the path that it
/// suggests or into the download directory. Trusted is who stands on the list by
/// node id, or by the device id of the peer with that node id.
pub proof fn law_trusted_offers_are_accepted(
    m: AppModel,
    t: TicketedOffer,
    seen: Seen,
    now: u64,
    i: int,
)
    requires
        m.auto_accept_peers.contains(t@.offer.from_peer) || (0 <= i < m.peers.len()
            && m.peers[i].tailscale_id == t@.offer.from_peer && m.peers[i].device_id is Some
            && m.auto_accept_peers.contains(m.peers[i].device_id->0)),
    ensures
        ({
            let (after, effects) = event_handled(m, AppEvent::FileOfferReceived(t), seen, now);
            let o = t@.offer;
            &&& effects.len() == 1
            &&& (effects[0] matches EffectModel::Accept { ticket, path } && ticket == t@.ticket && (
            o.suggested_path.len() > 0 && o.suggested_path != "."@ ==> path == o.suggested_path)
                && (o.suggested_path.len() == 0 || o.suggested_path == "."@ ==> path
                == m.download_dir + "/"@ + o.file_name))
            &&& after.items.len() == m.items.len() + 1
            &&& after.items.drop_last() == m.items
            &&& begins_to_come(after.items.last(), o.file_name, o.size, now)
            &&& after.dialog == m.dialog
            &&& after.pending_offers == m.pending_offers
            &&& after.auto_accept_peers == m.auto_accept_peers
            &&& same_rest(after, m)
        }),
{
    let (after, effects) = event_handled(m, AppEvent::FileOfferReceived(t), seen, now);
    assert(after.items.drop_last() =~= m.items);
}

/// An offer of anybody else answers nothing. It is asked about at once where no
/// dialog is open, and waits behind all others where one is.
pub proof fn law_other_offers_are_asked_about(m: AppModel, t: TicketedOffer, seen: Seen, now: u64)
    requires
        !m.auto_accept_peers.contains(t@.offer.from_peer),
        forall|i: int|
            0 <= i < m.peers.len() && (#[trigger] m.peers[i]).tailscale_id == t@.offer.from_peer
                && m.peers[i].device_id is Some ==> !m.auto_accept_peers.contains(
                m.peers[i].device_id->0,
            ),
    ensures
        ({
            let (after, effects) = event_handled(m, AppEvent::FileOfferReceived(t), seen, now);
            &&& effects.len() == 0
            &&& after.items == m.items
            &&& after.auto_accept_peers == m.auto_accept_peers
            &&& same_rest(after, m)
            &&& m.dialog is None ==> asks_about(after, t@, now) && after.pending_offers
                == m.pending_offers
            &&& m.dialog is Some ==> after.dialog == m.dialog && after.pending_offers
                == m.pending_offers + seq![t@]
        }),
{
    assert(m.pending_offers.push(t@) =~= m.pending_offers + seq![t@]);
}

/// An offer that nobody answered for more than a minute is refused; before
/// that, a tick leaves it alone.
pub proof fn law_offers_time_out(m: AppModel, d: DialogModel, seen: Seen, now: u64)
    requires
        m.dialog == Some(d),
    ensures
        ({
            let (after, effects) = event_handled(m, AppEvent::Tick, seen, now);
            &&& now - d.created_at > 60 * 1_000_000_000 ==> {
                &&& effects == seq![
                    EffectModel::Reject { ticket: d.ticket, reason: "timed out (60s)"@ },
                ]
                &&& after.items.len() == m.items.len() + 1
                &&& after.items.drop_last() == m.items
                &&& (after.items.last() matches ItemModel::System { time, text, level } && time
                    == now && level == SystemLevel::Warning && text == "  File offer from "@
                    + d.offer.from_name + " timed out ("@ + d.offer.file_name + ")"@)
                &&& goes_on(m, after, now)
            }
            &&& now - d.created_at <= 60 * 1_000_000_000 ==> {
                &&& effects.len() == 0
                &&& after.items == m.items
                &&& after.dialog == m.dialog
                &&& after.pending_offers == m.pending_offers
            }
            &&& same_rest(after, m)
        }),
{
    let (after, effects) = event_handled(m, AppEvent::Tick, seen, now);
    if now - d.created_at > 60 * 1_000_000_000 {
        assert(after.items.drop_last() =~= m.items);
        if m.pending_offers.len() > 0 {
            assert(m.pending_offers =~= seq![m.pending_offers[0]] + m.pending_offers.skip(1));
        }
    }
}

} // verus!
