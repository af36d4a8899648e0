//! Showing the status of the node.
use vstd::prelude::*;

use crate::json::{collect_texts, texts_in, Json, JsonModel};
use crate::text::{owned, texts};

verus! {

/// What is shown of the status. Empty texts are not shown.
#[derive(Debug)]
pub struct StatusView {
    pub name: String,
    pub status: String,
    pub ip: String,
    pub dns: String,
    pub login: String,
    pub uptime_secs: u64,
    pub peer_count: u64,
    pub key_expiry: String,
    pub warnings: Vec<String>,
}

/// The texts of a [`StatusView`].
pub struct StatusViewModel {
    pub name: Seq<char>,
    pub status: Seq<char>,
    pub ip: Seq<char>,
    pub dns: Seq<char>,
    pub login: Seq<char>,
    pub uptime_secs: u64,
    pub peer_count: u64,
    pub key_expiry: Seq<char>,
    pub warnings: Seq<Seq<char>>,
}

impl View for StatusView {
    type V = StatusViewModel;

    open spec fn view(&self) -> StatusViewModel {
        StatusViewModel {
            name: self.name@,
            status: self.status@,
            ip: self.ip@,
            dns: self.dns@,
            login: self.login@,
            uptime_secs: self.uptime_secs,
            peer_count: self.peer_count,
            key_expiry: self.key_expiry@,
            warnings: texts(self.warnings@),
        }
    }
}

pub open spec fn text_or(j: JsonModel, otherwise: Seq<char>) -> Seq<char> {
    match j.text() {
        Some(s) => s,
        None => otherwise,
    }
}

pub open spec fn number_or_zero(j: JsonModel) -> u64 {
    match j.number() {
        Some(n) => n,
        None => 0,
    }
}

/// What is shown of a daemon's answer.
pub open spec fn status_shown(j: JsonModel) -> StatusViewModel {
    StatusViewModel {
        name: text_or(j.at("device_name"@), "-"@),
        status: text_or(j.at("status"@), "offline"@),
        ip: text_or(j.at("ip"@), ""@),
        dns: text_or(j.at("dns_name"@), ""@),
        login: text_or(j.at("login_name"@), ""@),
        uptime_secs: number_or_zero(j.at("uptime_secs"@)),
        peer_count: number_or_zero(j.at("peer_count"@)),
        key_expiry: text_or(j.at("health"@).at("key_expiry"@), ""@),
        warnings: match j.at("health"@).at("warnings"@).list() {
            Some(v) => texts_in(v),
            None => Seq::empty(),
        },
    }
}

fn read_text(j: &Json, key: &str, otherwise: &str) -> (r: String)
    ensures
        r@ == text_or(j@.at(key@), otherwise@),
{
    match j.text_at(key) {
        Some(s) => owned(s),
        None => owned(otherwise),
    }
}

fn read_number(j: &Json, key: &str) -> (r: u64)
    ensures
        r == number_or_zero(j@.at(key@)),
{
    match j.number_at(key) {
        Some(n) => n,
        None => 0,
    }
}

/// What is shown of a daemon's answer.
pub fn show_status(answer: &Json) -> (r: StatusView)
    ensures
        r@ == status_shown(answer@),
{
    let mut key_expiry: String = owned("");
    let mut warnings: Vec<String> = Vec::new();
    assert(texts(warnings@) =~= Seq::empty());
    match answer.at("health") {
        Some(health) => {
            key_expiry = read_text(health, "key_expiry", "");
            match health.list_at("warnings") {
                Some(v) => warnings = collect_texts(v),
                None => {},
            }
        },
        None => {},
    }
    StatusView {
        name: read_text(answer, "device_name", "-"),
        status: read_text(answer, "status", "offline"),
        ip: read_text(answer, "ip", ""),
        dns: read_text(answer, "dns_name", ""),
        login: read_text(answer, "login_name", ""),
        uptime_secs: read_number(answer, "uptime_secs"),
        peer_count: read_number(answer, "peer_count"),
        key_expiry,
        warnings,
    }
}

/// The node that a program reads the status of: the one in the answer, else
/// the configured one.
pub fn status_node_name(answer: &Json, configured: &str) -> (r: String)
    ensures
        r@ == text_or(answer@.at("device_name"@), configured@),
{
    read_text(answer, "device_name", configured)
}

/// The entries of an answer that a program reads besides the node's name: all
/// others, in order.
pub open spec fn status_entries(v: Seq<(Seq<char>, JsonModel)>) -> Seq<(Seq<char>, JsonModel)>
    decreases v.len(),
{
    if v.len() == 0 {
        Seq::empty()
    } else if v.last().0 == "device_name"@ {
        status_entries(v.drop_last())
    } else {
        status_entries(v.drop_last()).push(v.last())
    }
}

pub open spec fn entry_models(v: Seq<(String, Json)>) -> Seq<(Seq<char>, JsonModel)> {
    Seq::new(v.len(), |i: int| (v[i].0@, v[i].1@))
}

/// Takes the entries of an answer that go to the output besides the node's
/// name.
pub fn merge_status(entries: Vec<(String, Json)>) -> (r: Vec<(String, Json)>)
    ensures
        entry_models(r@) == status_entries(entry_models(entries@)),
{
    let mut rest: Vec<(String, Json)> = entries;
    let mut out: Vec<(String, Json)> = Vec::new();
    let ghost all = entry_models(entries@);
    let ghost mut k: int = 0;
    assert(rest@ =~= entries@.skip(0));
    assert(entry_models(out@) =~= status_entries(all.take(0)));
    while rest.len() > 0
        invariant
            0 <= k <= entries@.len(),
            all == entry_models(entries@),
            rest@ == entries@.skip(k),
            entry_models(out@) == status_entries(all.take(k)),
        decreases rest@.len(),
    {
        let (key, value) = rest.remove(0);
        assert(rest@ =~= entries@.skip(k + 1));
        assert(all.take(k + 1).drop_last() =~= all.take(k));
        assert(all.take(k + 1).last() == (key@, value@));
        if !crate::text::same_text(key.as_str(), "device_name") {
            let ghost was = out@;
            out.push((key, value));
            assert(entry_models(out@) =~= entry_models(was).push((key@, value@)));
        }
        proof {
            k = k + 1;
        }
    }
    assert(all.take(k) =~= all);
    out
}

} // verus!
