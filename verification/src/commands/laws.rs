//! What an update does, and what is shown of a node.
use vstd::prelude::*;

use crate::commands::status::{status_entries, status_shown};
use crate::commands::update::{
    archive_kind, asset_at, asset_of, bare_version, comma_list, law_words_in_front_do_not_matter,
    newer, next_replace, piece_number, pieces, places, replacements, trouble_text, version_of,
    ArchiveKind, GitHubAsset, Platform, ReplaceAction, ReplaceEvent, ReplacementModel, Trouble,
};
use crate::daemon::replies::status_json;
use crate::daemon::request_laws::law_first_entry_is_meant;
use crate::file_transfer::paths::{file_name_of, joined};
use crate::json::{text_list, texts_in, JsonModel};
use crate::network::types::{HealthModel, NodeModel};
use crate::text::{
    all_digits, begins_with, decimal, decimal_value, finishes_with, has_part, is_digit,
    lemma_decimal_reads_back, occurs_at,
};

verus! {

// ---------------------------------------------------------------------------
// Platforms
// ---------------------------------------------------------------------------

/// How releases call the system of a platform.
pub open spec fn system_word(p: Platform) -> Seq<char> {
    match p {
        Platform::MacArm64 | Platform::MacX64 => "darwin"@,
        Platform::LinuxX64 | Platform::LinuxArm64 => "linux"@,
        Platform::WindowsX64 => "win32"@,
    }
}

/// How releases call the processor of a platform.
pub open spec fn processor_word(p: Platform) -> Seq<char> {
    match p {
        Platform::MacArm64 | Platform::LinuxArm64 => "arm64"@,
        Platform::MacX64 | Platform::LinuxX64 | Platform::WindowsX64 => "x64"@,
    }
}

/// The file of a platform names its system and its processor, and is an
/// archive of the kind that the system has. So no two platforms share one.
pub proof fn law_asset_names_its_platform(p: Platform, other: Platform)
    ensures
        asset_of(p) == "truffle-"@ + system_word(p) + "-"@ + processor_word(p) + (if p
            == Platform::WindowsX64 {
            ".zip"@
        } else {
            ".tar.gz"@
        }),
        asset_of(p) == asset_of(other) ==> p == other,
{
    reveal_strlit("truffle-darwin-arm64.tar.gz");
    reveal_strlit("truffle-darwin-x64.tar.gz");
    reveal_strlit("truffle-linux-x64.tar.gz");
    reveal_strlit("truffle-linux-arm64.tar.gz");
    reveal_strlit("truffle-win32-x64.zip");
    reveal_strlit("truffle-");
    reveal_strlit("darwin");
    reveal_strlit("linux");
    reveal_strlit("win32");
    reveal_strlit("-");
    reveal_strlit("arm64");
    reveal_strlit("x64");
    reveal_strlit(".zip");
    reveal_strlit(".tar.gz");
    let end = if p == Platform::WindowsX64 {
        ".zip"@
    } else {
        ".tar.gz"@
    };
    assert(asset_of(p) =~= "truffle-"@ + system_word(p) + "-"@ + processor_word(p) + end);
    assert(asset_of(Platform::MacArm64).len() == 27);
    assert(asset_of(Platform::MacX64).len() == 25);
    assert(asset_of(Platform::LinuxX64).len() == 24);
    assert(asset_of(Platform::LinuxArm64).len() == 26);
    assert(asset_of(Platform::WindowsX64).len() == 21);
}

// ---------------------------------------------------------------------------
// Versions
// ---------------------------------------------------------------------------

/// A version in text.
pub open spec fn version_text(a: u32, b: u32, c: u32) -> Seq<char> {
    decimal(a as nat) + seq!['.'] + decimal(b as nat) + seq!['.'] + decimal(c as nat)
}

proof fn lemma_pieces_of_one(y: Seq<char>)
    requires
        !y.contains('.'),
    ensures
        pieces(y) == seq![y],
    decreases y.len(),
{
    if y.len() == 0 {
        assert(y =~= Seq::empty());
    } else {
        let front = y.drop_last();
        assert(!front.contains('.')) by {
            if front.contains('.') {
                let i = choose|i: int| 0 <= i < front.len() && front[i] == '.';
                assert(y[i] == '.');
            }
        }
        lemma_pieces_of_one(front);
        assert(y[y.len() - 1] == y.last());
        assert(front.push(y.last()) =~= y);
        assert(pieces(y) =~= seq![y]);
    }
}

proof fn lemma_pieces_of_more(x: Seq<char>, y: Seq<char>)
    requires
        !y.contains('.'),
    ensures
        pieces(x + seq!['.'] + y) == pieces(x).push(y),
    decreases y.len(),
{
    let s = x + seq!['.'] + y;
    if y.len() == 0 {
        assert(s.last() == '.');
        assert(s.drop_last() =~= x);
        assert(y =~= Seq::empty());
    } else {
        let front = y.drop_last();
        assert(!front.contains('.')) by {
            if front.contains('.') {
                let i = choose|i: int| 0 <= i < front.len() && front[i] == '.';
                assert(y[i] == '.');
            }
        }
        lemma_pieces_of_more(x, front);
        assert(s.drop_last() =~= x + seq!['.'] + front);
        assert(y[y.len() - 1] == y.last());
        assert(s.last() == y.last());
        assert(front.push(y.last()) =~= y);
        assert(pieces(x).push(front).drop_last() =~= pieces(x));
    }
}

proof fn lemma_numeral(n: u32)
    ensures
        !decimal(n as nat).contains('.'),
        piece_number(decimal(n as nat)) == Some(n),
        decimal(n as nat).len() > 0,
        '0' <= decimal(n as nat)[0] && decimal(n as nat)[0] <= '9',
{
    let d = decimal(n as nat);
    lemma_decimal_reads_back(n as nat);
    if d.contains('.') {
        let i = choose|i: int| 0 <= i < d.len() && d[i] == '.';
        assert(crate::text::is_digit(d[i]));
    }
    assert(crate::text::is_digit(d[0]));
}

proof fn lemma_version_text(a: u32, b: u32, c: u32)
    ensures
        bare_version(version_text(a, b, c)) == version_text(a, b, c),
        version_of(version_text(a, b, c)) == Some((a, b, c)),
{
    lemma_numeral(a);
    lemma_numeral(b);
    lemma_numeral(c);
    let x = decimal(a as nat);
    let y = decimal(b as nat);
    let z = decimal(c as nat);
    let s = version_text(a, b, c);
    assert(s[0] == x[0]);
    reveal_strlit("truffle-v");
    reveal_strlit("v");
    if begins_with(s, "truffle-v"@) {
        assert(s.take(9)[0] == 't');
    }
    if begins_with(s, "v"@) {
        assert(s.take(1)[0] == 'v');
    }
    lemma_pieces_of_one(x);
    lemma_pieces_of_more(x, y);
    lemma_pieces_of_more(x + seq!['.'] + y, z);
    assert(pieces(s) =~= seq![x, y, z]);
}

/// Three numbers with dots between them are the version of these numbers,
/// alone or behind one of the words that tags have in front.
pub proof fn law_version_is_read(a: u32, b: u32, c: u32)
    ensures
        version_of(version_text(a, b, c)) == Some((a, b, c)),
        version_of("v"@ + version_text(a, b, c)) == Some((a, b, c)),
        version_of("truffle-v"@ + version_text(a, b, c)) == Some((a, b, c)),
{
    lemma_version_text(a, b, c);
    law_words_in_front_do_not_matter(version_text(a, b, c));
}

/// A version is newer than another where the first number in which they differ
/// is larger.
pub proof fn law_newer_compares_numbers(
    a: u32,
    b: u32,
    c: u32,
    x: u32,
    y: u32,
    z: u32,
)
    ensures
        newer(version_text(a, b, c), "truffle-v"@ + version_text(x, y, z)) <==> (if a != x {
            x > a
        } else if b != y {
            y > b
        } else {
            z > c
        }),
{
    law_version_is_read(a, b, c);
    law_version_is_read(x, y, z);
}

/// What is no version is never newer, and nothing is newer than it. A text
/// without a dot is none.
pub proof fn law_only_versions_are_newer(current: Seq<char>, latest: Seq<char>)
    ensures
        newer(current, latest) ==> version_of(current) is Some && version_of(latest) is Some,
        !bare_version(latest).contains('.') ==> version_of(latest) is None,
{
    if !bare_version(latest).contains('.') {
        lemma_pieces_of_one(bare_version(latest));
    }
}

/// Of a tag the words in front are taken off, and nothing else.
pub proof fn law_words_in_front_are_taken_off(v: Seq<char>)
    ensures
        bare_version("truffle-v"@ + v) == v,
        bare_version("v"@ + v) == v,
        v.len() > 0 && v[0] != 'v' && v[0] != 't' ==> bare_version(v) == v,
{
    reveal_strlit("truffle-v");
    reveal_strlit("v");
    let a = "truffle-v"@ + v;
    let b = "v"@ + v;
    assert(a.take(9) =~= "truffle-v"@);
    assert(a.skip(9) =~= v);
    assert(b.take(1) =~= "v"@);
    assert(b.skip(1) =~= v);
    if begins_with(b, "truffle-v"@) {
        assert(b.take(9)[0] == 't');
        assert(b[0] == 'v');
    }
    if begins_with(v, "truffle-v"@) {
        assert(v.take(9)[0] == 't');
    }
    if begins_with(v, "v"@) {
        assert(v.take(1)[0] == 'v');
    }
}

// ---------------------------------------------------------------------------
// The release
// ---------------------------------------------------------------------------

/// The file that is downloaded is the first one of its name.
pub proof fn law_first_asset_of_a_name(v: Seq<GitHubAsset>, name: Seq<char>, i: int)
    requires
        0 <= i <= v.len(),
        forall|j: int| 0 <= j < i ==> (#[trigger] v[j]).name@ != name,
        i < v.len() ==> v[i].name@ == name,
    ensures
        asset_at(v, name, 0) == i,
{
    lemma_asset(v, name, 0, i);
}

proof fn lemma_asset(v: Seq<GitHubAsset>, name: Seq<char>, from: int, i: int)
    requires
        0 <= from <= i <= v.len(),
        forall|j: int| from <= j < i ==> (#[trigger] v[j]).name@ != name,
        i < v.len() ==> v[i].name@ == name,
    ensures
        asset_at(v, name, from) == i,
    decreases i - from,
{
    if from < i {
        lemma_asset(v, name, from + 1, i);
    }
}

/// A list of names holds each of them.
pub proof fn law_list_holds_every_name(v: Seq<Seq<char>>, i: int)
    requires
        0 <= i < v.len(),
    ensures
        has_part(comma_list(v), v[i]),
    decreases v.len(),
{
    let s = comma_list(v);
    if v.len() == 1 {
        assert(s.subrange(0, v[0].len() as int) =~= v[0]);
        assert(occurs_at(s, v[0], 0));
    } else {
        let front = comma_list(v.drop_last());
        let n = front.len() as int;
        if i == v.len() - 1 {
            let at = n + ", "@.len();
            assert(s.subrange(at, at + v[i].len()) =~= v[i]);
            assert(occurs_at(s, v[i], at));
        } else {
            law_list_holds_every_name(v.drop_last(), i);
            let at = choose|at: int| occurs_at(front, v.drop_last()[i], at);
            let part = v[i];
            assert(s.subrange(at, at + part.len()) =~= front.subrange(at, at + part.len()));
            assert(occurs_at(s, part, at));
        }
    }
}

/// Every trouble has its own words.
pub proof fn law_trouble_is_named(t: Trouble)
    ensures
        trouble_text(t) == match t {
            Trouble::HttpClient => "Failed to create HTTP client: "@,
            Trouble::Fetch => "Failed to fetch latest release: "@,
            Trouble::Api => "GitHub API error: "@,
            Trouble::ParseRelease => "Failed to parse release info: "@,
            Trouble::Download => "Failed to download release: "@,
            Trouble::DownloadStatus => "Download failed: "@,
            Trouble::CreateFile => "Failed to create temp file: "@,
            Trouble::DownloadBody => "Download error: "@,
            Trouble::Write => "Write error: "@,
            Trouble::ReadBody => "Failed to read response body: "@,
            Trouble::WriteArchive => "Failed to write archive: "@,
            Trouble::OpenArchive => "Failed to open archive: "@,
            Trouble::ExtractTarGz => "Failed to extract tar.gz: "@,
            Trouble::ReadZip => "Failed to read zip archive: "@,
            Trouble::ExtractZip => "Failed to extract zip: "@,
            Trouble::CurrentExe => "Cannot find current executable: "@,
            Trouble::TempDir => "Failed to create temp directory: "@,
            Trouble::ExtractDir => "Failed to create extraction dir: "@,
        },
{
}

// ---------------------------------------------------------------------------
// Installing
// ---------------------------------------------------------------------------

/// An archive is taken apart by the end of its name; zip archives on Windows
/// only, and others not at all.
pub proof fn law_archive_is_known_by_its_end(windows: bool, path: Seq<char>, stem: Seq<char>)
    ensures
        file_name_of(windows, path) == Some(stem + ".tar.gz"@) ==> archive_kind(path, windows)
            == Ok::<ArchiveKind, Seq<char>>(ArchiveKind::TarGz),
        file_name_of(windows, path) == Some(stem + ".tgz"@) ==> archive_kind(path, windows) == Ok::<
            ArchiveKind,
            Seq<char>,
        >(ArchiveKind::TarGz),
        file_name_of(windows, path) == Some(stem + ".zip"@) ==> archive_kind(path, windows) == if windows {
            Ok::<ArchiveKind, Seq<char>>(ArchiveKind::Zip)
        } else {
            Err("Zip extraction is only supported on Windows"@)
        },
        file_name_of(windows, path) matches Some(name) ==> (name.len() > 0 && name.last() != 'z'
            && name.last() != 'p' ==> archive_kind(path, windows) == Err::<ArchiveKind, Seq<char>>(
            "Unsupported archive format: "@ + name,
        )),
{
    reveal_strlit(".tar.gz");
    reveal_strlit(".tgz");
    reveal_strlit(".zip");
    let a = stem + ".tar.gz"@;
    let b = stem + ".tgz"@;
    let c = stem + ".zip"@;
    assert(a.skip(a.len() - 7) =~= ".tar.gz"@);
    assert(b.skip(b.len() - 4) =~= ".tgz"@);
    assert(c.skip(c.len() - 4) =~= ".zip"@);
    assert(c.last() == 'p');
    if finishes_with(c, ".tar.gz"@) {
        assert(c.skip(c.len() - 7).last() == 'z');
    }
    if finishes_with(c, ".tgz"@) {
        assert(c.skip(c.len() - 4).last() == 'z');
    }
    if let Some(name) = file_name_of(windows, path) {
        if finishes_with(name, ".tar.gz"@) {
            assert(name.skip(name.len() - 7).last() == 'z');
        }
        if finishes_with(name, ".tgz"@) {
            assert(name.skip(name.len() - 4).last() == 'z');
        }
        if finishes_with(name, ".zip"@) {
            assert(name.skip(name.len() - 4).last() == 'p');
        }
    }
}

/// A program is looked for at the top first, and then in each directory below,
/// in order.
pub proof fn law_top_is_looked_at_first(
    windows: bool,
    dir: Seq<char>,
    below: Seq<Seq<char>>,
    name: Seq<char>,
    i: int,
)
    requires
        0 <= i < below.len(),
    ensures
        places(windows, dir, below, name).len() == below.len() + 1,
        places(windows, dir, below, name)[0] == joined(windows, dir, name),
        places(windows, dir, below, name)[i + 1] == joined(windows, below[i], name),
{
}

/// Each program that the archive holds takes the place of the one of its name
/// in the install directory, with a backup beside it; the program itself comes
/// first, and what the archive does not hold stays.
pub proof fn law_programs_replace_their_own(
    dir: Seq<char>,
    windows: bool,
    truffle: Option<Seq<char>>,
    sidecar: Option<Seq<char>>,
)
    ensures
        ({
            let r = replacements(dir, windows, truffle, sidecar);
            let own = |m: ReplacementModel, name: Seq<char>, from: Seq<char>|
                m.name == name && m.new_binary == from && m.target == joined(windows, dir, name)
                    && m.backup == joined(windows, dir, name + ".bak"@);
            let main = if windows {
                "truffle.exe"@
            } else {
                "truffle"@
            };
            let side = if windows {
                "sidecar-slim.exe"@
            } else {
                "sidecar-slim"@
            };
            match (truffle, sidecar) {
                (None, None) => r.len() == 0,
                (Some(t), None) => r.len() == 1 && own(r[0], main, t),
                (None, Some(s)) => r.len() == 1 && own(r[0], side, s),
                (Some(t), Some(s)) => r.len() == 2 && own(r[0], main, t) && own(r[1], side, s),
            }
        }),
{
}

/// A replacement goes on to its end: what is there is backed up, the new
/// program put in place and, on Unix, made executable, and the backup removed.
pub proof fn law_replacing_goes_on(unix: bool, name: Seq<char>, e: ReplaceEvent)
    ensures
        !(e is Yes) ==> next_replace(ReplaceAction::LookTarget, e, unix, name) == Ok::<
            ReplaceAction,
            Seq<char>,
        >(ReplaceAction::Install),
        e is Yes ==> {
            &&& next_replace(ReplaceAction::LookTarget, e, unix, name) == Ok::<
                ReplaceAction,
                Seq<char>,
            >(ReplaceAction::BackUp)
            &&& next_replace(ReplaceAction::BackUp, e, unix, name) == Ok::<
                ReplaceAction,
                Seq<char>,
            >(ReplaceAction::Install)
            &&& next_replace(ReplaceAction::Install, e, unix, name) == Ok::<
                ReplaceAction,
                Seq<char>,
            >(
                if unix {
                    ReplaceAction::SetMode
                } else {
                    ReplaceAction::LookBackup
                },
            )
            &&& next_replace(ReplaceAction::SetMode, e, unix, name) == Ok::<
                ReplaceAction,
                Seq<char>,
            >(ReplaceAction::LookBackup)
            &&& next_replace(ReplaceAction::LookBackup, e, unix, name) == Ok::<
                ReplaceAction,
                Seq<char>,
            >(ReplaceAction::RemoveBackup)
        },
        !(e is Yes) ==> next_replace(ReplaceAction::LookBackup, e, unix, name) == Ok::<
            ReplaceAction,
            Seq<char>,
        >(ReplaceAction::Done),
        next_replace(ReplaceAction::RemoveBackup, e, unix, name) == Ok::<ReplaceAction, Seq<char>>(
            ReplaceAction::Done,
        ),
{
}

/// A backup, an installation and a change of mode that fail end it, with what
/// failed, of which program, and why.
pub proof fn law_replacing_fails_with_a_reason(unix: bool, name: Seq<char>, why: String)
    ensures
        next_replace(ReplaceAction::BackUp, ReplaceEvent::Failed(why), unix, name) == Err::<
            ReplaceAction,
            Seq<char>,
        >("Failed to back up "@ + name + ": "@ + why@),
        next_replace(ReplaceAction::Install, ReplaceEvent::Failed(why), unix, name) == Err::<
            ReplaceAction,
            Seq<char>,
        >("Failed to install "@ + name + ": "@ + why@),
        next_replace(ReplaceAction::SetMode, ReplaceEvent::Failed(why), unix, name) == Err::<
            ReplaceAction,
            Seq<char>,
        >("Failed to set permissions on "@ + name + ": "@ + why@),
{
}

// ---------------------------------------------------------------------------
// The status
// ---------------------------------------------------------------------------

proof fn lemma_texts_of_list(v: Seq<Seq<char>>)
    ensures
        texts_in(text_list(v)->Array_0) == v,
    decreases v.len(),
{
    let list = text_list(v)->Array_0;
    if v.len() > 0 {
        lemma_texts_of_list(v.drop_last());
        assert(list.drop_last() =~= text_list(v.drop_last())->Array_0);
        assert(v.drop_last().push(v.last()) =~= v);
    } else {
        assert(texts_in(list) =~= v);
    }
}

/// What the daemon says of its node is what is shown of it: name, state,
/// addresses, owner, times, peers and warnings.
pub proof fn law_status_is_shown_as_told(i: NodeModel, peers: u64, h: HealthModel, uptime: u64)
    ensures
        ({
            let s = status_shown(status_json(i, peers, h, uptime));
            &&& s.name == i.device_name
            &&& s.status == if h.healthy {
                "online"@
            } else {
                h.state
            }
            &&& i.ip matches Some(ip) ==> s.ip == ip
            &&& i.ip is None ==> s.ip.len() == 0
            &&& i.dns_name matches Some(dns) ==> s.dns == dns
            &&& i.dns_name is None ==> s.dns.len() == 0
            &&& i.login_name matches Some(login) ==> s.login == login
            &&& i.login_name is None ==> s.login.len() == 0
            &&& s.uptime_secs == uptime
            &&& s.peer_count == peers
            &&& h.key_expiry matches Some(at) ==> s.key_expiry == at
            &&& h.key_expiry is None ==> s.key_expiry.len() == 0
            &&& s.warnings == h.warnings
        }),
{
    reveal_strlit("");
    reveal_strlit("app_id");
    reveal_strlit("device_id");
    reveal_strlit("device_name");
    reveal_strlit("tailscale_hostname");
    reveal_strlit("tailscale_id");
    reveal_strlit("ip");
    reveal_strlit("dns_name");
    reveal_strlit("login_name");
    reveal_strlit("status");
    reveal_strlit("uptime_secs");
    reveal_strlit("peer_count");
    reveal_strlit("health");
    reveal_strlit("state");
    reveal_strlit("healthy");
    reveal_strlit("key_expiry");
    reveal_strlit("warnings");
    let v = status_json(i, peers, h, uptime)->Object_0;
    assert("app_id"@.len() == 6 && "device_id"@.len() == 9 && "device_name"@.len() == 11);
    assert("tailscale_hostname"@.len() == 18 && "tailscale_id"@.len() == 12 && "ip"@.len() == 2);
    assert("dns_name"@.len() == 8 && "login_name"@.len() == 10 && "status"@.len() == 6);
    assert("uptime_secs"@.len() == 11 && "peer_count"@.len() == 10 && "health"@.len() == 6);
    assert("app_id"@[0] == 'a' && "status"@[0] == 's' && "health"@[0] == 'h');
    assert("device_name"@[0] == 'd' && "uptime_secs"@[0] == 'u');
    assert("login_name"@[0] == 'l' && "peer_count"@[0] == 'p');
    law_first_entry_is_meant(v, "device_name"@, 2);
    law_first_entry_is_meant(v, "ip"@, 5);
    law_first_entry_is_meant(v, "dns_name"@, 6);
    law_first_entry_is_meant(v, "login_name"@, 7);
    law_first_entry_is_meant(v, "status"@, 8);
    law_first_entry_is_meant(v, "uptime_secs"@, 9);
    law_first_entry_is_meant(v, "peer_count"@, 10);
    law_first_entry_is_meant(v, "health"@, 11);
    let w = v[11].1->Object_0;
    assert("state"@.len() == 5 && "healthy"@.len() == 7 && "key_expiry"@.len() == 10
        && "warnings"@.len() == 8);
    law_first_entry_is_meant(w, "key_expiry"@, 2);
    law_first_entry_is_meant(w, "warnings"@, 3);
    lemma_texts_of_list(h.warnings);
}

/// Where the daemon says nothing, a dash, offline, and empty texts are shown.
pub proof fn law_nothing_is_shown_of_nothing(j: JsonModel)
    requires
        !(j is Object),
    ensures
        ({
            let s = status_shown(j);
            &&& s.name == "-"@
            &&& s.status == "offline"@
            &&& s.ip.len() == 0
            &&& s.dns.len() == 0
            &&& s.login.len() == 0
            &&& s.uptime_secs == 0
            &&& s.peer_count == 0
            &&& s.key_expiry.len() == 0
            &&& s.warnings.len() == 0
        }),
{
    reveal_strlit("");
}

/// A program reads every entry of the answer but the node's name.
pub proof fn law_all_but_the_name_is_read(
    v: Seq<(Seq<char>, JsonModel)>,
    entry: (Seq<char>, JsonModel),
)
    ensures
        status_entries(v).contains(entry) <==> v.contains(entry) && entry.0 != "device_name"@,
    decreases v.len(),
{
    if v.len() > 0 {
        let front = v.drop_last();
        law_all_but_the_name_is_read(front, entry);
        let some = status_entries(front);
        let all = status_entries(v);
        if all.contains(entry) {
            let j = choose|j: int| 0 <= j < all.len() && all[j] == entry;
            if j < some.len() {
                assert(some[j] == entry);
                assert(some.contains(entry));
                let k = choose|k: int| 0 <= k < front.len() && front[k] == entry;
                assert(v[k] == entry);
            } else {
                assert(v[v.len() - 1] == entry);
            }
        }
        if v.contains(entry) && entry.0 != "device_name"@ {
            let k = choose|k: int| 0 <= k < v.len() && v[k] == entry;
            if k == v.len() - 1 {
                assert(all[some.len() as int] == entry);
            } else {
                assert(front[k] == entry);
                assert(front.contains(entry));
                assert(some.contains(entry));
                let j = choose|j: int| 0 <= j < some.len() && some[j] == entry;
                assert(all[j] == entry);
            }
        }
    }
}

/// A piece of a version is a number of digits that fits, also with a plus sign
/// in front; a piece without digits, or with anything else, is none.
pub proof fn law_pieces_are_numbers(s: Seq<char>)
    requires
        s.len() > 0 ==> s[0] != '+',
    ensures
        piece_number(s) is Some <==> s.len() > 0 && (forall|i: int|
            0 <= i < s.len() ==> '0' <= #[trigger] s[i] && s[i] <= '9') && decimal_value(s)
            <= 0xffff_ffff,
        piece_number(s) matches Some(n) ==> n == decimal_value(s),
        piece_number(seq!['+'] + s) == piece_number(s),
{
    let plus = seq!['+'] + s;
    assert(plus[0] == '+');
    assert(plus.skip(1) =~= s);
    if s.len() > 0 && (forall|i: int| 0 <= i < s.len() ==> '0' <= #[trigger] s[i] && s[i] <= '9') {
        assert(all_digits(s));
    }
    if all_digits(s) {
        assert forall|i: int| 0 <= i < s.len() implies '0' <= #[trigger] s[i] && s[i] <= '9' by {
            assert(is_digit(s[i]));
        }
    }
}

} // verus!
