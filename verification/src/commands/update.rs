//! Updating the program from its releases.
use vstd::prelude::*;
use vstd::string::*;

use crate::file_transfer::paths::{file_name, file_name_of, join_path, joined};
use crate::text::{
    all_digits, begins_with, chars_of, decimal_value, ends_with_text, finishes_with, join2, join3,
    join4, owned, parse_digits, same_text, starts_with_text, texts,
};

verus! {

// ---------------------------------------------------------------------------
// Releases
// ---------------------------------------------------------------------------

/// A release and what can be downloaded of it.
#[derive(Debug)]
pub struct GitHubRelease {
    pub tag_name: String,
    pub assets: Vec<GitHubAsset>,
}

/// A file of a release.
#[derive(Debug)]
pub struct GitHubAsset {
    pub name: String,
    pub browser_download_url: String,
    pub size: u64,
}

impl Clone for GitHubAsset {
    fn clone(&self) -> (r: Self)
        ensures
            r == *self,
    {
        GitHubAsset {
            name: self.name.clone(),
            browser_download_url: self.browser_download_url.clone(),
            size: self.size,
        }
    }
}

/// The platforms that releases are made for.
#[derive(Debug, Clone, Copy, PartialEq, Eq, Structural)]
pub enum Platform {
    MacArm64,
    MacX64,
    LinuxX64,
    LinuxArm64,
    WindowsX64,
}

pub open spec fn asset_of(p: Platform) -> Seq<char> {
    match p {
        Platform::MacArm64 => "truffle-darwin-arm64.tar.gz"@,
        Platform::MacX64 => "truffle-darwin-x64.tar.gz"@,
        Platform::LinuxX64 => "truffle-linux-x64.tar.gz"@,
        Platform::LinuxArm64 => "truffle-linux-arm64.tar.gz"@,
        Platform::WindowsX64 => "truffle-win32-x64.zip"@,
    }
}

/// The file of a release that a platform needs.
pub fn platform_asset(p: Platform) -> (r: &'static str)
    ensures
        r@ == asset_of(p),
{
    match p {
        Platform::MacArm64 => "truffle-darwin-arm64.tar.gz",
        Platform::MacX64 => "truffle-darwin-x64.tar.gz",
        Platform::LinuxX64 => "truffle-linux-x64.tar.gz",
        Platform::LinuxArm64 => "truffle-linux-arm64.tar.gz",
        Platform::WindowsX64 => "truffle-win32-x64.zip",
    }
}

// ---------------------------------------------------------------------------
// Versions
// ---------------------------------------------------------------------------

/// A tag without the words in front of its version.
pub open spec fn bare_version(tag: Seq<char>) -> Seq<char> {
    if begins_with(tag, "truffle-v"@) {
        tag.skip("truffle-v"@.len() as int)
    } else if begins_with(tag, "v"@) {
        tag.skip("v"@.len() as int)
    } else {
        tag
    }
}

/// The pieces between dots.
pub open spec fn pieces(s: Seq<char>) -> Seq<Seq<char>>
    decreases s.len(),
{
    if s.len() == 0 {
        seq![Seq::empty()]
    } else if s.last() == '.' {
        pieces(s.drop_last()).push(Seq::empty())
    } else {
        let front = pieces(s.drop_last());
        front.drop_last().push(front.last().push(s.last()))
    }
}

/// A piece without a plus sign in front.
pub open spec fn unsigned(s: Seq<char>) -> Seq<char> {
    if s.len() > 0 && s[0] == '+' {
        s.skip(1)
    } else {
        s
    }
}

/// The number that a piece is, if it is one that has room.
pub open spec fn piece_number(s: Seq<char>) -> Option<u32> {
    let d = unsigned(s);
    if d.len() > 0 && all_digits(d) && decimal_value(d) <= u32::MAX {
        Some(decimal_value(d) as u32)
    } else {
        None
    }
}

/// The three numbers of a version.
pub open spec fn version_of(tag: Seq<char>) -> Option<(u32, u32, u32)> {
    let p = pieces(bare_version(tag));
    if p.len() != 3 {
        None
    } else {
        match (piece_number(p[0]), piece_number(p[1]), piece_number(p[2])) {
            (Some(a), Some(b), Some(c)) => Some((a, b, c)),
            _ => None,
        }
    }
}

/// The first number that differs decides.
pub open spec fn is_later(a: (u32, u32, u32), b: (u32, u32, u32)) -> bool {
    ||| b.0 > a.0
    ||| b.0 == a.0 && b.1 > a.1
    ||| b.0 == a.0 && b.1 == a.1 && b.2 > a.2
}

/// A tag is newer than another: both are versions, and it is the later.
pub open spec fn newer(current: Seq<char>, latest: Seq<char>) -> bool {
    match (version_of(current), version_of(latest)) {
        (Some(a), Some(b)) => is_later(a, b),
        _ => false,
    }
}

/// The tag without the words in front of its version.
pub fn strip_version_prefix(tag: &str) -> (r: &str)
    ensures
        r@ == bare_version(tag@),
{
    proof {
        reveal_strlit("truffle-v");
        reveal_strlit("v");
    }
    let n: usize = tag.unicode_len();
    if starts_with_text(tag, "truffle-v") {
        let r: &str = tag.substring_char(9, n);
        assert(tag@.skip(9) =~= tag@.subrange(9, n as int));
        r
    } else if starts_with_text(tag, "v") {
        let r: &str = tag.substring_char(1, n);
        assert(tag@.skip(1) =~= tag@.subrange(1, n as int));
        r
    } else {
        tag
    }
}

pub open spec fn piece_texts(v: Seq<Vec<char>>) -> Seq<Seq<char>> {
    v.map_values(|p: Vec<char>| p@)
}

fn split_dots(s: &str) -> (r: Vec<Vec<char>>)
    ensures
        piece_texts(r@) == pieces(s@),
        r@.len() > 0,
{
    let cs: Vec<char> = chars_of(s);
    let n: usize = cs.len();
    let mut done: Vec<Vec<char>> = Vec::new();
    let mut piece: Vec<char> = Vec::new();
    let mut i: usize = 0;
    assert(piece_texts(done@).push(piece@) =~= pieces(cs@.take(0)));
    while i < n
        invariant
            n == cs@.len(),
            i <= n,
            piece_texts(done@).push(piece@) == pieces(cs@.take(i as int)),
        decreases n - i,
    {
        let ghost front = pieces(cs@.take(i as int));
        assert(cs@.take(i + 1).drop_last() =~= cs@.take(i as int));
        assert(cs@.take(i + 1).last() == cs@[i as int]);
        assert(front.drop_last() =~= piece_texts(done@));
        assert(front.last() == piece@);
        if cs[i] == '.' {
            let ghost was = done@;
            let ghost ended = piece@;
            done.push(piece);
            piece = Vec::new();
            assert(piece_texts(done@) =~= piece_texts(was).push(ended));
            assert(piece@ =~= Seq::empty());
        } else {
            piece.push(cs[i]);
        }
        i += 1;
    }
    assert(cs@.take(n as int) =~= cs@);
    let ghost was = done@;
    done.push(piece);
    assert(piece_texts(done@) =~= piece_texts(was).push(piece@));
    done
}

fn read_number(p: &Vec<char>) -> (r: Option<u32>)
    ensures
        r == piece_number(p@),
{
    let n: usize = p.len();
    let from: usize = if n > 0 && p[0] == '+' {
        1
    } else {
        0
    };
    assert(p@.subrange(from as int, n as int) =~= unsigned(p@));
    match parse_digits(p, from, n, 4294967295) {
        Some(v) => Some(v as u32),
        None => None,
    }
}

/// The three numbers of a version tag, with or without words in front.
pub fn parse_version(tag: &str) -> (r: Option<(u32, u32, u32)>)
    ensures
        r == version_of(tag@),
{
    let v: &str = strip_version_prefix(tag);
    let parts: Vec<Vec<char>> = split_dots(v);
    let n: usize = parts.len();
    let ghost all = pieces(bare_version(tag@));
    assert(all.len() == n);
    if n != 3 {
        return None;
    }
    assert(all[0] == parts@[0]@ && all[1] == parts@[1]@ && all[2] == parts@[2]@);
    match (read_number(&parts[0]), read_number(&parts[1]), read_number(&parts[2])) {
        (Some(a), Some(b), Some(c)) => Some((a, b, c)),
        _ => None,
    }
}

/// Whether the latest version is newer than the current one.
pub fn is_newer(current: &str, latest: &str) -> (r: bool)
    ensures
        r == newer(current@, latest@),
{
    match (parse_version(current), parse_version(latest)) {
        (Some(a), Some(b)) => b.0 > a.0 || (b.0 == a.0 && b.1 > a.1) || (b.0 == a.0 && b.1 == a.1
            && b.2 > a.2),
        _ => false,
    }
}

/// No version is newer than itself, and of two different ones exactly one is
/// newer.
pub proof fn law_newer_is_an_order(a: Seq<char>, b: Seq<char>, c: Seq<char>)
    ensures
        !newer(a, a),
        newer(a, b) ==> !newer(b, a),
        newer(a, b) && newer(b, c) ==> newer(a, c),
        version_of(a) is Some && version_of(b) is Some && version_of(a) != version_of(b) ==> newer(
            a,
            b,
        ) || newer(b, a),
{
}

/// The words in front of a version do not matter.
pub proof fn law_words_in_front_do_not_matter(v: Seq<char>)
    requires
        bare_version(v) == v,
    ensures
        version_of("truffle-v"@ + v) == version_of(v),
        version_of("v"@ + v) == version_of(v),
{
    reveal_strlit("truffle-v");
    reveal_strlit("v");
    let a = "truffle-v"@ + v;
    let b = "v"@ + v;
    assert(a.take(9) =~= "truffle-v"@);
    assert(a.skip(9) =~= v);
    assert(b.take(1) =~= "v"@);
    assert(b.skip(1) =~= v);
    assert(!begins_with(b, "truffle-v"@)) by {
        if begins_with(b, "truffle-v"@) {
            assert(b.take(9)[0] == 't');
            assert(b[0] == 'v');
        }
    }
}

// ---------------------------------------------------------------------------
// The plan
// ---------------------------------------------------------------------------

/// How the program ends.
#[derive(Debug, Clone, Copy, PartialEq, Eq, Structural)]
pub enum ExitKind {
    Error,
    NotFound,
    NotOnline,
}

/// What there is to do about a release.
#[derive(Debug)]
pub enum UpdatePlan {
    UpToDate,
    Update { latest_version: String, asset: GitHubAsset },
}

/// The names of the files of a release.
pub open spec fn asset_names(v: Seq<GitHubAsset>) -> Seq<Seq<char>> {
    v.map_values(|a: GitHubAsset| a.name@)
}

/// The first file of a name, from `from` on.
pub open spec fn asset_at(v: Seq<GitHubAsset>, name: Seq<char>, from: int) -> int
    decreases v.len() - from,
{
    if from >= v.len() {
        v.len() as int
    } else if v[from].name@ == name {
        from
    } else {
        asset_at(v, name, from + 1)
    }
}

/// Texts with commas between them.
pub open spec fn comma_list(v: Seq<Seq<char>>) -> Seq<char>
    decreases v.len(),
{
    if v.len() == 0 {
        Seq::empty()
    } else if v.len() == 1 {
        v[0]
    } else {
        comma_list(v.drop_last()) + ", "@ + v.last()
    }
}

fn join_commas(v: &Vec<GitHubAsset>) -> (r: String)
    ensures
        r@ == comma_list(asset_names(v@)),
{
    let n: usize = v.len();
    let mut out: String = String::new();
    let mut i: usize = 0;
    let ghost names = asset_names(v@);
    assert(out@ =~= comma_list(names.take(0)));
    while i < n
        invariant
            n == v@.len() == names.len(),
            i <= n,
            names == asset_names(v@),
            out@ == comma_list(names.take(i as int)),
        decreases n - i,
    {
        let ghost part = names.take(i + 1);
        assert(part.drop_last() =~= names.take(i as int));
        assert(part.last() == v@[i as int].name@);
        if i == 0 {
            out = v[i].name.clone();
            assert(part[0] == part.last());
        } else {
            out = join3(out.as_str(), ", ", v[i].name.as_str());
        }
        i += 1;
    }
    assert(names.take(n as int) =~= names);
    out
}

fn find_asset(v: &Vec<GitHubAsset>, name: &str) -> (r: Option<usize>)
    ensures
        match r {
            Some(i) => i < v@.len() && asset_at(v@, name@, 0) == i,
            None => asset_at(v@, name@, 0) == v@.len(),
        },
{
    let n: usize = v.len();
    let mut i: usize = 0;
    while i < n
        invariant
            n == v@.len(),
            i <= n,
            asset_at(v@, name@, 0) == asset_at(v@, name@, i as int),
        decreases n - i,
    {
        if same_text(v[i].name.as_str(), name) {
            return Some(i);
        }
        i += 1;
    }
    None
}

/// What there is to do about the latest release: nothing where it is not
/// newer, else the file to download and the version that it brings. A release
/// without a file for the platform is an error.
pub fn plan_update(current: &str, release: &GitHubRelease, asset_name: &str) -> (r: Result<
    UpdatePlan,
    (ExitKind, String),
>)
    ensures
        ({
            let i = asset_at(release.assets@, asset_name@, 0);
            match r {
                Ok(UpdatePlan::UpToDate) => !newer(current@, release.tag_name@),
                Ok(UpdatePlan::Update { latest_version, asset }) => newer(
                    current@,
                    release.tag_name@,
                ) && 0 <= i < release.assets@.len() && asset == release.assets@[i]
                    && latest_version@ == bare_version(release.tag_name@),
                Err((kind, text)) => newer(current@, release.tag_name@) && i
                    == release.assets@.len() && kind == ExitKind::NotFound && text@
                    == "No release asset found for this platform ("@ + asset_name@
                    + "). Available assets: "@ + comma_list(asset_names(release.assets@)),
            }
        }),
{
    if !is_newer(current, release.tag_name.as_str()) {
        return Ok(UpdatePlan::UpToDate);
    }
    match find_asset(&release.assets, asset_name) {
        Some(i) => Ok(
            UpdatePlan::Update {
                latest_version: owned(strip_version_prefix(release.tag_name.as_str())),
                asset: release.assets[i].clone(),
            },
        ),
        None => {
            let names: String = join_commas(&release.assets);
            let text: String = join4(
                "No release asset found for this platform (",
                asset_name,
                "). Available assets: ",
                names.as_str(),
            );
            Err((ExitKind::NotFound, text))
        },
    }
}

/// What can go wrong on the way.
#[derive(Debug, Clone, Copy, PartialEq, Eq, Structural)]
pub enum Trouble {
    HttpClient,
    Fetch,
    Api,
    ParseRelease,
    Download,
    DownloadStatus,
    CreateFile,
    DownloadBody,
    Write,
    ReadBody,
    WriteArchive,
    OpenArchive,
    ExtractTarGz,
    ReadZip,
    ExtractZip,
    CurrentExe,
    TempDir,
    ExtractDir,
}

pub open spec fn trouble_text(t: Trouble) -> Seq<char> {
    match t {
        Trouble::HttpClient => "Failed to create HTTP client: "@,
        Trouble::Fetch => "Failed to fetch latest release: "@,
        Trouble::Api => "GitHub API error: "@,
        Trouble::ParseRelease => "Failed to parse release info: "@,
        Trouble::Download => "Failed to download release: "@,
        Trouble::DownloadStatus => "Download failed: "@,
        Trouble::CreateFile => "Failed to create temp file: "@,
        Trouble::DownloadBody => "Download error: "@,
        Trouble::Write => "Write error: "@,
        Trouble::ReadBody => "Failed to read response body: "@,
        Trouble::WriteArchive => "Failed to write archive: "@,
        Trouble::OpenArchive => "Failed to open archive: "@,
        Trouble::ExtractTarGz => "Failed to extract tar.gz: "@,
        Trouble::ReadZip => "Failed to read zip archive: "@,
        Trouble::ExtractZip => "Failed to extract zip: "@,
        Trouble::CurrentExe => "Cannot find current executable: "@,
        Trouble::TempDir => "Failed to create temp directory: "@,
        Trouble::ExtractDir => "Failed to create extraction dir: "@,
    }
}

/// The message of what went wrong.
pub fn explain(t: Trouble, why: &str) -> (r: String)
    ensures
        r@ == trouble_text(t) + why@,
{
    let head: &str = match t {
        Trouble::HttpClient => "Failed to create HTTP client: ",
        Trouble::Fetch => "Failed to fetch latest release: ",
        Trouble::Api => "GitHub API error: ",
        Trouble::ParseRelease => "Failed to parse release info: ",
        Trouble::Download => "Failed to download release: ",
        Trouble::DownloadStatus => "Download failed: ",
        Trouble::CreateFile => "Failed to create temp file: ",
        Trouble::DownloadBody => "Download error: ",
        Trouble::Write => "Write error: ",
        Trouble::ReadBody => "Failed to read response body: ",
        Trouble::WriteArchive => "Failed to write archive: ",
        Trouble::OpenArchive => "Failed to open archive: ",
        Trouble::ExtractTarGz => "Failed to extract tar.gz: ",
        Trouble::ReadZip => "Failed to read zip archive: ",
        Trouble::ExtractZip => "Failed to extract zip: ",
        Trouble::CurrentExe => "Cannot find current executable: ",
        Trouble::TempDir => "Failed to create temp directory: ",
        Trouble::ExtractDir => "Failed to create extraction dir: ",
    };
    join2(head, why)
}

/// What is printed where there was nothing to do.
pub fn up_to_date_text(current: &str) -> (r: String)
    ensures
        r@ == "Already up to date (v"@ + current@ + ")"@,
{
    join3("Already up to date (v", current, ")")
}

/// What is printed in the end.
pub fn updated_text(current: &str, latest_version: &str) -> (r: String)
    ensures
        r@ == "Updated truffle v"@ + current@ + " -> v"@ + latest_version@,
{
    join4("Updated truffle v", current, " -> v", latest_version)
}

/// What a program reads of an update: whether there was one, from which
/// version and to which.
pub struct UpdateReport {
    pub updated: bool,
    pub from: String,
    pub to: String,
}

/// The report of an update; without one the version stays.
pub fn report_update(current: &str, plan: &UpdatePlan) -> (r: UpdateReport)
    ensures
        r.from@ == current@,
        r.updated == (*plan is Update),
        r.to@ == (match *plan {
            UpdatePlan::UpToDate => current@,
            UpdatePlan::Update { latest_version, .. } => latest_version@,
        }),
{
    match plan {
        UpdatePlan::UpToDate => UpdateReport {
            updated: false,
            from: owned(current),
            to: owned(current),
        },
        UpdatePlan::Update { latest_version, .. } => UpdateReport {
            updated: true,
            from: owned(current),
            to: latest_version.clone(),
        },
    }
}

// ---------------------------------------------------------------------------
// Archives
// ---------------------------------------------------------------------------

/// How an archive is taken apart.
#[derive(Debug, Clone, Copy, PartialEq, Eq, Structural)]
pub enum ArchiveKind {
    TarGz,
    Zip,
}

/// The name of an archive's file; empty where the path has none.
pub open spec fn archive_name(windows: bool, path: Seq<char>) -> Seq<char> {
    match file_name_of(windows, path) {
        Some(n) => n,
        None => Seq::empty(),
    }
}

/// How an archive is taken apart, by its name. Zip archives are those of
/// Windows.
pub open spec fn archive_kind(path: Seq<char>, windows: bool) -> Result<ArchiveKind, Seq<char>> {
    let name = archive_name(windows, path);
    if finishes_with(name, ".tar.gz"@) || finishes_with(name, ".tgz"@) {
        Ok(ArchiveKind::TarGz)
    } else if finishes_with(name, ".zip"@) {
        if windows {
            Ok(ArchiveKind::Zip)
        } else {
            Err("Zip extraction is only supported on Windows"@)
        }
    } else {
        Err("Unsupported archive format: "@ + name)
    }
}

/// How an archive is to be taken apart.
pub fn extract_archive(archive_path: &str, windows: bool) -> (r: Result<ArchiveKind, String>)
    ensures
        match r {
            Ok(k) => archive_kind(archive_path@, windows) == Ok::<ArchiveKind, Seq<char>>(k),
            Err(e) => archive_kind(archive_path@, windows) == Err::<ArchiveKind, Seq<char>>(e@),
        },
{
    let name: String = match file_name(archive_path, windows) {
        Some(n) => n,
        None => String::new(),
    };
    assert(name@ =~= archive_name(windows, archive_path@));
    if ends_with_text(name.as_str(), ".tar.gz") || ends_with_text(name.as_str(), ".tgz") {
        Ok(ArchiveKind::TarGz)
    } else if ends_with_text(name.as_str(), ".zip") {
        if windows {
            Ok(ArchiveKind::Zip)
        } else {
            Err(owned("Zip extraction is only supported on Windows"))
        }
    } else {
        Err(join2("Unsupported archive format: ", name.as_str()))
    }
}

/// Every platform's archive can be taken apart on it.
pub proof fn law_own_archive_is_supported(p: Platform, dir: Seq<char>)
    requires
        file_name_of(p == Platform::WindowsX64, dir + asset_of(p)) == Some(asset_of(p)),
    ensures
        archive_kind(dir + asset_of(p), p == Platform::WindowsX64) is Ok,
{
    reveal_strlit("truffle-darwin-arm64.tar.gz");
    reveal_strlit("truffle-darwin-x64.tar.gz");
    reveal_strlit("truffle-linux-x64.tar.gz");
    reveal_strlit("truffle-linux-arm64.tar.gz");
    reveal_strlit("truffle-win32-x64.zip");
    reveal_strlit(".tar.gz");
    reveal_strlit(".zip");
    let n = asset_of(p);
    if p == Platform::WindowsX64 {
        assert(n.skip(n.len() - 4) =~= ".zip"@);
    } else {
        assert(n.skip(n.len() - 7) =~= ".tar.gz"@);
    }
}

// ---------------------------------------------------------------------------
// Installing
// ---------------------------------------------------------------------------

/// Where a program is looked for in an archive: at the top, then one level
/// below.
pub open spec fn places(
    windows: bool,
    dir: Seq<char>,
    below: Seq<Seq<char>>,
    name: Seq<char>,
) -> Seq<Seq<char>> {
    seq![joined(windows, dir, name)] + below.map_values(|d: Seq<char>| joined(windows, d, name))
}

/// Where a program is looked for, in order. `below` are the directories in
/// `dir`.
pub fn find_file_in_dir(dir: &str, below: &Vec<String>, name: &str, windows: bool) -> (r: Vec<
    String,
>)
    ensures
        texts(r@) == places(windows, dir@, texts(below@), name@),
{
    let mut out: Vec<String> = Vec::new();
    out.push(join_path(dir, name, windows));
    let n: usize = below.len();
    let ghost all = texts(below@);
    let mut i: usize = 0;
    assert(texts(out@) =~= places(windows, dir@, all.take(0), name@));
    while i < n
        invariant
            n == below@.len() == all.len(),
            i <= n,
            all == texts(below@),
            texts(out@) == places(windows, dir@, all.take(i as int), name@),
        decreases n - i,
    {
        let ghost was = out@;
        let p: String = join_path(below[i].as_str(), name, windows);
        out.push(p);
        assert(texts(out@) =~= texts(was).push(p@));
        assert(all.take(i + 1) =~= all.take(i as int).push(all[i as int]));
        assert(places(windows, dir@, all.take(i + 1), name@) =~= places(
            windows,
            dir@,
            all.take(i as int),
            name@,
        ).push(p@));
        i += 1;
    }
    assert(all.take(n as int) =~= all);
    out
}

/// The names of the two programs.
pub open spec fn program_names(windows: bool) -> (Seq<char>, Seq<char>) {
    if windows {
        ("truffle.exe"@, "sidecar-slim.exe"@)
    } else {
        ("truffle"@, "sidecar-slim"@)
    }
}

/// The names of the two programs.
pub fn binary_names(windows: bool) -> (r: (&'static str, &'static str))
    ensures
        (r.0@, r.1@) == program_names(windows),
{
    if windows {
        ("truffle.exe", "sidecar-slim.exe")
    } else {
        ("truffle", "sidecar-slim")
    }
}

/// A program that takes another's place.
#[derive(Debug)]
pub struct Replacement {
    pub name: String,
    pub new_binary: String,
    pub target: String,
    pub backup: String,
}

/// The texts of a [`Replacement`].
pub struct ReplacementModel {
    pub name: Seq<char>,
    pub new_binary: Seq<char>,
    pub target: Seq<char>,
    pub backup: Seq<char>,
}

impl View for Replacement {
    type V = ReplacementModel;

    open spec fn view(&self) -> ReplacementModel {
        ReplacementModel {
            name: self.name@,
            new_binary: self.new_binary@,
            target: self.target@,
            backup: self.backup@,
        }
    }
}

pub open spec fn replacement(
    windows: bool,
    install_dir: Seq<char>,
    name: Seq<char>,
    new_binary: Seq<char>,
) -> ReplacementModel {
    ReplacementModel {
        name,
        new_binary,
        target: joined(windows, install_dir, name),
        backup: joined(windows, install_dir, name + ".bak"@),
    }
}

pub open spec fn replacement_models(v: Seq<Replacement>) -> Seq<ReplacementModel> {
    v.map_values(|r: Replacement| r@)
}

/// What is replaced, in order: those of the two programs that the archive
/// holds.
pub open spec fn replacements(
    install_dir: Seq<char>,
    windows: bool,
    truffle: Option<Seq<char>>,
    sidecar: Option<Seq<char>>,
) -> Seq<ReplacementModel> {
    let (a, b) = program_names(windows);
    let first: Seq<ReplacementModel> = match truffle {
        Some(p) => seq![replacement(windows, install_dir, a, p)],
        None => seq![],
    };
    let second: Seq<ReplacementModel> = match sidecar {
        Some(p) => seq![replacement(windows, install_dir, b, p)],
        None => seq![],
    };
    first + second
}

fn plan_replacement(install_dir: &str, name: &str, new_binary: &str, windows: bool) -> (r:
    Replacement)
    ensures
        r@ == replacement(windows, install_dir@, name@, new_binary@),
{
    let bak: String = join2(name, ".bak");
    Replacement {
        name: owned(name),
        new_binary: owned(new_binary),
        target: join_path(install_dir, name, windows),
        backup: join_path(install_dir, bak.as_str(), windows),
    }
}

/// What is to be replaced. `truffle` and `sidecar` are where the archive holds
/// the two programs.
pub fn replace_binaries(
    truffle: &Option<String>,
    sidecar: &Option<String>,
    install_dir: &str,
    windows: bool,
) -> (r: Vec<Replacement>)
    ensures
        replacement_models(r@) == replacements(
            install_dir@,
            windows,
            crate::text::opt_text(*truffle),
            crate::text::opt_text(*sidecar),
        ),
{
    let (a, b) = binary_names(windows);
    let mut out: Vec<Replacement> = Vec::new();
    match truffle {
        Some(p) => out.push(plan_replacement(install_dir, a, p.as_str(), windows)),
        None => {},
    }
    match sidecar {
        Some(p) => out.push(plan_replacement(install_dir, b, p.as_str(), windows)),
        None => {},
    }
    assert(replacement_models(out@) =~= replacements(
        install_dir@,
        windows,
        crate::text::opt_text(*truffle),
        crate::text::opt_text(*sidecar),
    ));
    out
}

/// What is to be done with a program.
#[derive(Debug, Clone, Copy, PartialEq, Eq, Structural)]
pub enum ReplaceAction {
    /// Look whether the target is there.
    LookTarget,
    /// Rename the target to the backup.
    BackUp,
    /// Copy the new program to the target.
    Install,
    /// Make the target executable.
    SetMode,
    /// Look whether the backup is there.
    LookBackup,
    /// Remove the backup; whether that works does not matter.
    RemoveBackup,
    Done,
}

/// What came of an action.
pub enum ReplaceEvent {
    /// It worked; for a look: something is there.
    Yes,
    /// For a look: nothing is there.
    No,
    Failed(String),
}

/// What comes next, and the error that ends it.
pub open spec fn next_replace(
    at: ReplaceAction,
    e: ReplaceEvent,
    unix: bool,
    name: Seq<char>,
) -> Result<ReplaceAction, Seq<char>> {
    match (at, e) {
        (ReplaceAction::LookTarget, ReplaceEvent::Yes) => Ok(ReplaceAction::BackUp),
        (ReplaceAction::LookTarget, _) => Ok(ReplaceAction::Install),
        (ReplaceAction::BackUp, ReplaceEvent::Failed(why)) => Err(
            "Failed to back up "@ + name + ": "@ + why@,
        ),
        (ReplaceAction::BackUp, _) => Ok(ReplaceAction::Install),
        (ReplaceAction::Install, ReplaceEvent::Failed(why)) => Err(
            "Failed to install "@ + name + ": "@ + why@,
        ),
        (ReplaceAction::Install, _) => if unix {
            Ok(ReplaceAction::SetMode)
        } else {
            Ok(ReplaceAction::LookBackup)
        },
        (ReplaceAction::SetMode, ReplaceEvent::Failed(why)) => Err(
            "Failed to set permissions on "@ + name + ": "@ + why@,
        ),
        (ReplaceAction::SetMode, _) => Ok(ReplaceAction::LookBackup),
        (ReplaceAction::LookBackup, ReplaceEvent::Yes) => Ok(ReplaceAction::RemoveBackup),
        (ReplaceAction::LookBackup, _) => Ok(ReplaceAction::Done),
        (ReplaceAction::RemoveBackup, _) => Ok(ReplaceAction::Done),
        (ReplaceAction::Done, _) => Ok(ReplaceAction::Done),
    }
}

/// What comes next while a program is replaced, or the error that ends it. It
/// begins with a look at the target.
pub fn replace_binary(at: ReplaceAction, event: &ReplaceEvent, unix: bool, name: &str) -> (r: Result<
    ReplaceAction,
    String,
>)
    ensures
        match r {
            Ok(a) => next_replace(at, *event, unix, name@) == Ok::<ReplaceAction, Seq<char>>(a),
            Err(e) => next_replace(at, *event, unix, name@) == Err::<ReplaceAction, Seq<char>>(e@),
        },
{
    match at {
        ReplaceAction::LookTarget => match event {
            ReplaceEvent::Yes => Ok(ReplaceAction::BackUp),
            _ => Ok(ReplaceAction::Install),
        },
        ReplaceAction::BackUp => match event {
            ReplaceEvent::Failed(why) => Err(join4("Failed to back up ", name, ": ", why.as_str())),
            _ => Ok(ReplaceAction::Install),
        },
        ReplaceAction::Install => match event {
            ReplaceEvent::Failed(why) => Err(join4("Failed to install ", name, ": ", why.as_str())),
            _ => if unix {
                Ok(ReplaceAction::SetMode)
            } else {
                Ok(ReplaceAction::LookBackup)
            },
        },
        ReplaceAction::SetMode => match event {
            ReplaceEvent::Failed(why) => Err(
                join4("Failed to set permissions on ", name, ": ", why.as_str()),
            ),
            _ => Ok(ReplaceAction::LookBackup),
        },
        ReplaceAction::LookBackup => match event {
            ReplaceEvent::Yes => Ok(ReplaceAction::RemoveBackup),
            _ => Ok(ReplaceAction::Done),
        },
        ReplaceAction::RemoveBackup => Ok(ReplaceAction::Done),
        ReplaceAction::Done => Ok(ReplaceAction::Done),
    }
}

/// A program that is there is never overwritten before it was backed up, and
/// the backup goes only after the new one is in place.
pub proof fn law_backup_before_install(at: ReplaceAction, e: ReplaceEvent, unix: bool, name: Seq<char>)
    ensures
        at == ReplaceAction::LookTarget && e is Yes ==> next_replace(at, e, unix, name) == Ok::<
            ReplaceAction,
            Seq<char>,
        >(ReplaceAction::BackUp),
        next_replace(at, e, unix, name) == Ok::<ReplaceAction, Seq<char>>(ReplaceAction::Install)
            ==> (at == ReplaceAction::LookTarget && !(e is Yes)) || (at == ReplaceAction::BackUp
            && !(e is Failed)),
        next_replace(at, e, unix, name) == Ok::<ReplaceAction, Seq<char>>(
            ReplaceAction::RemoveBackup,
        ) ==> at == ReplaceAction::LookBackup,
        at == ReplaceAction::Install && e is Failed ==> next_replace(at, e, unix, name) is Err,
{
}

/// What is printed of a program.
pub struct BinaryNote {
    /// It was replaced.
    pub pass: bool,
    pub label: &'static str,
    pub detail: &'static str,
}

/// What is printed of the two programs.
pub fn binary_note(sidecar: bool, found: bool) -> (r: BinaryNote)
    ensures
        r.pass == found,
        r.label@ == (match (sidecar, found) {
            (false, true) => "Updated truffle binary"@,
            (false, false) => "truffle binary"@,
            (true, true) => "Updated sidecar"@,
            (true, false) => "sidecar binary"@,
        }),
        r.detail@ == (match (sidecar, found) {
            (false, false) => "not found in archive"@,
            (true, false) => "not found in archive (skipped)"@,
            _ => ""@,
        }),
{
    match (sidecar, found) {
        (false, true) => BinaryNote { pass: true, label: "Updated truffle binary", detail: "" },
        (false, false) => BinaryNote {
            pass: false,
            label: "truffle binary",
            detail: "not found in archive",
        },
        (true, true) => BinaryNote { pass: true, label: "Updated sidecar", detail: "" },
        (true, false) => BinaryNote {
            pass: false,
            label: "sidecar binary",
            detail: "not found in archive (skipped)",
        },
    }
}

} // verus!
