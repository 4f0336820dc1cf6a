use vstd::prelude::*;
use crate::snapshot::{ScanResult, same_chars};
use crate::text::{
    chars_of,
    decimal,
    decimal_text,
    find_char,
    find_from,
    lemma_find_from_bounds,
    push_range,
    string_of,
};

verus! {

/// The closed vocabulary of placeholder keys.
#[derive(Debug, Clone, Copy, PartialEq, Eq, Structural)]
pub enum Placeholder {
    Hostname,
    Username,
    Os,
    Project,
    GitRepo,
    SshKey,
    Browser,
    Cloud,
    DesktopCount,
    DownloadsCount,
    ScanTime,
    Dotfile,
    EnvCount,
    HistoryLines,
    FilesScanned,
    Cycle,
}

/// The placeholder that a key names, if any.
pub open spec fn placeholder_of(key: Seq<char>) -> Option<Placeholder> {
    if key == "hostname"@ {
        Some(Placeholder::Hostname)
    } else if key == "username"@ {
        Some(Placeholder::Username)
    } else if key == "os"@ {
        Some(Placeholder::Os)
    } else if key == "project"@ {
        Some(Placeholder::Project)
    } else if key == "git_repo"@ {
        Some(Placeholder::GitRepo)
    } else if key == "ssh_key"@ {
        Some(Placeholder::SshKey)
    } else if key == "browser"@ {
        Some(Placeholder::Browser)
    } else if key == "cloud"@ {
        Some(Placeholder::Cloud)
    } else if key == "desktop_count"@ {
        Some(Placeholder::DesktopCount)
    } else if key == "downloads_count"@ {
        Some(Placeholder::DownloadsCount)
    } else if key == "scan_time"@ {
        Some(Placeholder::ScanTime)
    } else if key == "dotfile"@ {
        Some(Placeholder::Dotfile)
    } else if key == "env_count"@ {
        Some(Placeholder::EnvCount)
    } else if key == "history_lines"@ {
        Some(Placeholder::HistoryLines)
    } else if key == "files_scanned"@ {
        Some(Placeholder::FilesScanned)
    } else if key == "cycle"@ {
        Some(Placeholder::Cycle)
    } else {
        None
    }
}

/// The marker that `{cycle}` resolves to, filled in later with the cycle number.
pub open spec fn cycle_marker() -> Seq<char> {
    "{cycle}"@
}

/// A present, non-empty text.
pub open spec fn present(o: Option<String>) -> Option<Seq<char>> {
    match o {
        Some(v) => if v@.len() > 0 {
            Some(v@)
        } else {
            None
        },
        None => None,
    }
}

/// The item of a name list that a draw selects; nothing for an empty list.
pub open spec fn one_of(items: Vec<String>, pick: nat) -> Option<Seq<char>> {
    if items@.len() == 0 {
        None
    } else {
        Some(items@[(pick % items@.len()) as int]@)
    }
}

/// A present count, in decimal.
pub open spec fn count_text(o: Option<usize>) -> Option<Seq<char>> {
    match o {
        Some(n) => Some(decimal(n as nat)),
        None => None,
    }
}

/// What a placeholder stands for in a snapshot; `pick` selects among named
/// items. Nothing means that the placeholder cannot be resolved.
pub open spec fn value_of(s: ScanResult, p: Placeholder, pick: nat) -> Option<Seq<char>> {
    match p {
        Placeholder::Hostname => present(s.hostname),
        Placeholder::Username => present(s.username),
        Placeholder::Os => present(s.os_name),
        Placeholder::Project => one_of(s.project_names, pick),
        Placeholder::GitRepo => one_of(s.git_repos, pick),
        Placeholder::SshKey => one_of(s.ssh_key_names, pick),
        Placeholder::Browser => one_of(s.browser_profiles, pick),
        Placeholder::Cloud => one_of(s.cloud_configs, pick),
        Placeholder::DesktopCount => count_text(s.desktop_count),
        Placeholder::DownloadsCount => count_text(s.downloads_count),
        Placeholder::ScanTime => present(Some(s.scan_timestamp)),
        Placeholder::Dotfile => one_of(s.dotfile_names, pick),
        Placeholder::EnvCount => Some(decimal(s.env_file_count as nat)),
        Placeholder::HistoryLines => count_text(s.shell_history_lines),
        Placeholder::FilesScanned => Some(decimal(s.files_scanned as nat)),
        Placeholder::Cycle => Some(cycle_marker()),
    }
}

/// What a key resolves to; unknown keys do not resolve.
pub open spec fn resolve_key(s: ScanResult, key: Seq<char>, pick: nat) -> Option<Seq<char>> {
    match placeholder_of(key) {
        Some(p) => value_of(s, p, pick),
        None => None,
    }
}

/// The `k`-th draw, or 0 past the end.
pub open spec fn draw_at(draws: Seq<usize>, k: int) -> nat {
    if 0 <= k < draws.len() {
        draws[k] as nat
    } else {
        0
    }
}

/// Interpolation of `t` from position `i`, the `k`-th placeholder onwards.
/// Each `{key}` is replaced and scanning goes on after its `}`; an `{` with
/// no `}` after it ends the scan and the rest stays as it is. Any placeholder
/// that does not resolve makes the whole result nothing.
pub open spec fn render_from(t: Seq<char>, s: ScanResult, draws: Seq<usize>, i: int, k: int) -> Option<
    Seq<char>,
>
    decreases t.len() - i,
    via render_from_decreases
{
    let open = find_from(t, '{', i);
    let close = find_from(t, '}', open + 1);
    if i < 0 || open < 0 || close < 0 {
        Some(t.subrange(i, t.len() as int))
    } else {
        match resolve_key(s, t.subrange(open + 1, close), draw_at(draws, k)) {
            None => None,
            Some(v) => match render_from(t, s, draws, close + 1, k + 1) {
                None => None,
                Some(rest) => Some(t.subrange(i, open) + v + rest),
            },
        }
    }
}

#[via_fn]
proof fn render_from_decreases(t: Seq<char>, s: ScanResult, draws: Seq<usize>, i: int, k: int) {
    if i >= 0 {
        lemma_find_from_bounds(t, '{', i);
        let open = find_from(t, '{', i);
        if open >= 0 {
            lemma_find_from_bounds(t, '}', open + 1);
        }
    }
}

/// Interpolation of a whole template, the placeholders taking `draws` in order.
pub open spec fn render(t: Seq<char>, s: ScanResult, draws: Seq<usize>) -> Option<Seq<char>> {
    render_from(t, s, draws, 0, 0)
}

/// Every placeholder of `t` resolves against `s`.
pub open spec fn resolvable(t: Seq<char>, s: ScanResult) -> bool {
    render(t, s, Seq::empty()) is Some
}

/// The text of an optional string.
pub open spec fn opt_text(o: Option<String>) -> Option<Seq<char>> {
    match o {
        Some(v) => Some(v@),
        None => None,
    }
}

/// `p` put before an interpolation result.
pub open spec fn prefixed(p: Seq<char>, r: Option<Seq<char>>) -> Option<Seq<char>> {
    match r {
        Some(x) => Some(p + x),
        None => None,
    }
}

/// Whether a placeholder resolves does not depend on the draw.
proof fn lemma_value_some(s: ScanResult, p: Placeholder, a: nat, b: nat)
    ensures
        value_of(s, p, a) is Some <==> value_of(s, p, b) is Some,
{
}

/// Whether a template resolves does not depend on the draws.
pub proof fn lemma_render_some(
    t: Seq<char>,
    s: ScanResult,
    d1: Seq<usize>,
    d2: Seq<usize>,
    i: int,
    k1: int,
    k2: int,
)
    requires
        0 <= i,
    ensures
        render_from(t, s, d1, i, k1) is Some <==> render_from(t, s, d2, i, k2) is Some,
    decreases t.len() - i,
{
    lemma_find_from_bounds(t, '{', i);
    let open = find_from(t, '{', i);
    if open >= 0 {
        lemma_find_from_bounds(t, '}', open + 1);
        let close = find_from(t, '}', open + 1);
        if close >= 0 {
            let key = t.subrange(open + 1, close);
            match placeholder_of(key) {
                Some(p) => lemma_value_some(s, p, draw_at(d1, k1), draw_at(d2, k2)),
                None => {},
            }
            lemma_render_some(t, s, d1, d2, close + 1, k1 + 1, k2 + 1);
        }
    }
}

impl Placeholder {
    /// The placeholder that a key names, if any.
    pub fn parse(key: &Vec<char>) -> (r: Option<Placeholder>)
        ensures
            r == placeholder_of(key@),
    {
        if same_chars(key, &chars_of("hostname")) {
            Some(Placeholder::Hostname)
        } else if same_chars(key, &chars_of("username")) {
            Some(Placeholder::Username)
        } else if same_chars(key, &chars_of("os")) {
            Some(Placeholder::Os)
        } else if same_chars(key, &chars_of("project")) {
            Some(Placeholder::Project)
        } else if same_chars(key, &chars_of("git_repo")) {
            Some(Placeholder::GitRepo)
        } else if same_chars(key, &chars_of("ssh_key")) {
            Some(Placeholder::SshKey)
        } else if same_chars(key, &chars_of("browser")) {
            Some(Placeholder::Browser)
        } else if same_chars(key, &chars_of("cloud")) {
            Some(Placeholder::Cloud)
        } else if same_chars(key, &chars_of("desktop_count")) {
            Some(Placeholder::DesktopCount)
        } else if same_chars(key, &chars_of("downloads_count")) {
            Some(Placeholder::DownloadsCount)
        } else if same_chars(key, &chars_of("scan_time")) {
            Some(Placeholder::ScanTime)
        } else if same_chars(key, &chars_of("dotfile")) {
            Some(Placeholder::Dotfile)
        } else if same_chars(key, &chars_of("env_count")) {
            Some(Placeholder::EnvCount)
        } else if same_chars(key, &chars_of("history_lines")) {
            Some(Placeholder::HistoryLines)
        } else if same_chars(key, &chars_of("files_scanned")) {
            Some(Placeholder::FilesScanned)
        } else if same_chars(key, &chars_of("cycle")) {
            Some(Placeholder::Cycle)
        } else {
            None
        }
    }
}

/// A non-empty text, cloned.
fn opt_non_empty(s: &Option<String>) -> (r: Option<String>)
    ensures
        opt_text(r) == present(*s),
{
    match s {
        Some(v) => if !v.as_str().is_empty() {
            Some(v.clone())
        } else {
            None
        },
        None => None,
    }
}


/// The item of a name list that a draw selects; nothing for an empty list.
pub fn pick_item(items: &Vec<String>, pick: usize) -> (r: Option<String>)
    ensures
        opt_text(r) == one_of(*items, pick as nat),
{
    if items.len() == 0 {
        None
    } else {
        Some(items[pick % items.len()].clone())
    }
}

/// A present count, in decimal.
fn opt_count(o: Option<usize>) -> (r: Option<String>)
    ensures
        opt_text(r) == count_text(o),
{
    match o {
        Some(n) => Some(decimal_text(n)),
        None => None,
    }
}

/// What a placeholder stands for in `scan`, `pick` selecting among named
/// items; nothing where the data is missing or empty.
pub fn resolve_placeholder(scan: &ScanResult, p: Placeholder, pick: usize) -> (r: Option<String>)
    ensures
        opt_text(r) == value_of(*scan, p, pick as nat),
{
    match p {
        Placeholder::Hostname => opt_non_empty(&scan.hostname),
        Placeholder::Username => opt_non_empty(&scan.username),
        Placeholder::Os => opt_non_empty(&scan.os_name),
        Placeholder::Project => pick_item(&scan.project_names, pick),
        Placeholder::GitRepo => pick_item(&scan.git_repos, pick),
        Placeholder::SshKey => pick_item(&scan.ssh_key_names, pick),
        Placeholder::Browser => pick_item(&scan.browser_profiles, pick),
        Placeholder::Cloud => pick_item(&scan.cloud_configs, pick),
        Placeholder::DesktopCount => opt_count(scan.desktop_count),
        Placeholder::DownloadsCount => opt_count(scan.downloads_count),
        Placeholder::ScanTime => if scan.scan_timestamp.as_str().is_empty() {
            None
        } else {
            Some(scan.scan_timestamp.clone())
        },
        Placeholder::Dotfile => pick_item(&scan.dotfile_names, pick),
        Placeholder::EnvCount => Some(decimal_text(scan.env_file_count)),
        Placeholder::HistoryLines => opt_count(scan.shell_history_lines),
        Placeholder::FilesScanned => Some(decimal_text(scan.files_scanned)),
        Placeholder::Cycle => {
            let marker = string_of(&chars_of("{cycle}"));
            Some(marker)
        },
    }
}

/// Fills the placeholders of `template` from `scan`, the `k`-th placeholder
/// taking `draws[k]` (0 past the end) to select among named items. Nothing
/// when any placeholder does not resolve.
pub fn interpolate_with(template: &str, scan: &ScanResult, draws: &Vec<usize>) -> (r: Option<String>)
    ensures
        opt_text(r) == render(template@, *scan, draws@),
{
    let t = chars_of(template);
    let n = t.len();
    let ghost tv = template@;
    let ghost d = draws@;
    let mut out: Vec<char> = Vec::new();
    let mut i: usize = 0;
    let mut k: usize = 0;
    assert(out@ + Seq::<char>::empty() =~= out@);
    loop
        invariant
            t@ == tv,
            t@.len() == n,
            tv == template@,
            d == draws@,
            i <= t@.len(),
            k <= i,
            render(tv, *scan, d) == prefixed(out@, render_from(tv, *scan, d, i as int, k as int)),
        decreases t@.len() - i,
    {
        proof {
            lemma_find_from_bounds(tv, '{', i as int);
        }
        let open = match find_char(&t, '{', i) {
            Some(o) => o,
            None => {
                push_range(&mut out, &t, i, t.len());
                return Some(string_of(&out));
            },
        };
        proof {
            lemma_find_from_bounds(tv, '}', open + 1);
        }
        let close = match find_char(&t, '}', open + 1) {
            Some(c) => c,
            None => {
                push_range(&mut out, &t, i, t.len());
                return Some(string_of(&out));
            },
        };
        let mut key: Vec<char> = Vec::new();
        push_range(&mut key, &t, open + 1, close);
        assert(key@ =~= tv.subrange(open + 1, close as int));
        let pick: usize = if k < draws.len() {
            draws[k]
        } else {
            0
        };
        let value = match Placeholder::parse(&key) {
            Some(p) => resolve_placeholder(scan, p, pick),
            None => None,
        };
        let v = match value {
            Some(v) => v,
            None => {
                return None;
            },
        };
        let ghost before = out@;
        push_range(&mut out, &t, i, open);
        let vs = chars_of(v.as_str());
        push_range(&mut out, &vs, 0, vs.len());
        assert(vs@.subrange(0, vs@.len() as int) =~= vs@);
        proof {
            let mid = tv.subrange(i as int, open as int);
            let rest = render_from(tv, *scan, d, close + 1, k + 1);
            assert(out@ =~= before + mid + v@);
            match rest {
                Some(x) => {
                    assert(before + (mid + v@ + x) =~= out@ + x);
                },
                None => {},
            }
        }
        i = close + 1;
        k = k + 1;
    }
}

/// Whether every placeholder of `template` resolves against `scan`.
pub fn is_resolvable(template: &str, scan: &ScanResult) -> (r: bool)
    ensures
        r == resolvable(template@, *scan),
{
    let none: Vec<usize> = Vec::new();
    let r = interpolate_with(template, scan, &none);
    assert(none@ =~= Seq::<usize>::empty());
    r.is_some()
}


proof fn lemma_find_absent(s: Seq<char>, c: char, from: int)
    requires
        0 <= from,
        forall|j: int| from <= j < s.len() ==> s[j] != c,
    ensures
        find_from(s, c, from) == -1,
    decreases s.len() - from,
{
    if from < s.len() {
        lemma_find_absent(s, c, from + 1);
    }
}

/// A template without an opening brace comes out unchanged, whatever the
/// snapshot and the draws.
pub proof fn lemma_no_placeholder_unchanged(t: Seq<char>, s: ScanResult, draws: Seq<usize>)
    requires
        forall|j: int| 0 <= j < t.len() ==> t[j] != '{',
    ensures
        render(t, s, draws) == Some(t),
{
    lemma_find_absent(t, '{', 0);
    assert(t.subrange(0, t.len() as int) =~= t);
}

/// A template that is one placeholder comes out as what its key resolves to,
/// with the first draw; nothing when the key does not resolve.
pub proof fn lemma_single_placeholder(key: Seq<char>, s: ScanResult, draws: Seq<usize>)
    requires
        forall|j: int| 0 <= j < key.len() ==> key[j] != '{' && key[j] != '}',
    ensures
        render(seq!['{'] + key + seq!['}'], s, draws) == resolve_key(s, key, draw_at(draws, 0)),
{
    let t = seq!['{'] + key + seq!['}'];
    let n = key.len() as int;
    assert(t[0] == '{');
    assert(find_from(t, '{', 0) == 0);
    assert forall|j: int| 1 <= j < n + 1 implies t[j] != '}' by {
        assert(t[j] == key[j - 1]);
    }
    assert(t[n + 1] == '}');
    lemma_find_upto(t, '}', 1, n + 1);
    assert(t.subrange(1, n + 1) =~= key);
    assert(find_from(t, '{', n + 2) == -1);
    assert(t.subrange(n + 2, t.len() as int) =~= Seq::<char>::empty());
    assert(t.subrange(0, 0) =~= Seq::<char>::empty());
    assert(find_from(t, '}', 1) == n + 1);
    assert(render_from(t, s, draws, n + 2, 1) == Some(Seq::<char>::empty()));
    match resolve_key(s, key, draw_at(draws, 0)) {
        Some(v) => {
            assert(Seq::<char>::empty() + v + Seq::<char>::empty() =~= v);
        },
        None => {},
    }
}

proof fn lemma_find_upto(s: Seq<char>, c: char, from: int, at: int)
    requires
        0 <= from <= at < s.len(),
        s[at] == c,
        forall|j: int| from <= j < at ==> s[j] != c,
    ensures
        find_from(s, c, from) == at,
    decreases at - from,
{
    if from < at {
        lemma_find_upto(s, c, from + 1, at);
    }
}

/// `{hostname}` comes out as the snapshot's host name, and as nothing when
/// the host name is absent or empty.
pub proof fn lemma_hostname_template(s: ScanResult, draws: Seq<usize>)
    ensures
        render("{hostname}"@, s, draws) == present(s.hostname),
{
    reveal_strlit("{hostname}");
    reveal_strlit("hostname");
    assert("{hostname}"@ =~= seq!['{'] + "hostname"@ + seq!['}']);
    lemma_single_placeholder("hostname"@, s, draws);
}

/// `{project}` comes out as nothing for an empty project list, and as the one
/// name of a list of one.
pub proof fn lemma_project_template(s: ScanResult, draws: Seq<usize>)
    ensures
        s.project_names@.len() == 0 ==> render("{project}"@, s, draws) is None,
        s.project_names@.len() == 1 ==> render("{project}"@, s, draws) == Some(
            s.project_names@[0]@,
        ),
{
    reveal_strlit("{project}");
    reveal_strlit("project");
    reveal_strlit("hostname");
    reveal_strlit("username");
    reveal_strlit("os");
    assert("{project}"@ =~= seq!['{'] + "project"@ + seq!['}']);
    lemma_single_placeholder("project"@, s, draws);
    assert("project"@ != "hostname"@);
    assert("project"@ != "username"@);
    assert("project"@ != "os"@);
}


/// A template whose only placeholder is `{cycle}` interpolates to itself,
/// with the cycle marker left in place for the cycle number.
pub proof fn lemma_cycle_only(prefix: Seq<char>, suffix: Seq<char>, s: ScanResult, draws: Seq<usize>)
    requires
        forall|j: int| 0 <= j < prefix.len() ==> prefix[j] != '{',
        forall|j: int| 0 <= j < suffix.len() ==> suffix[j] != '{',
    ensures
        render(prefix + "{cycle}"@ + suffix, s, draws) == Some(prefix + cycle_marker() + suffix),
{
    reveal_strlit("{cycle}");
    reveal_strlit("cycle");
    reveal_strlit("hostname");
    reveal_strlit("username");
    reveal_strlit("os");
    reveal_strlit("project");
    reveal_strlit("git_repo");
    reveal_strlit("ssh_key");
    reveal_strlit("browser");
    reveal_strlit("cloud");
    reveal_strlit("desktop_count");
    reveal_strlit("downloads_count");
    reveal_strlit("scan_time");
    reveal_strlit("dotfile");
    reveal_strlit("env_count");
    reveal_strlit("history_lines");
    reveal_strlit("files_scanned");
    let t = prefix + "{cycle}"@ + suffix;
    let n = prefix.len() as int;
    assert forall|j: int| 0 <= j < n implies t[j] != '{' by {
        assert(t[j] == prefix[j]);
    }
    assert(t[n] == '{');
    lemma_find_upto(t, '{', 0, n);
    assert forall|j: int| n + 1 <= j < n + 6 implies t[j] != '}' by {
        assert(t[j] == "{cycle}"@[j - n]);
    }
    assert(t[n + 6] == '}');
    lemma_find_upto(t, '}', n + 1, n + 6);
    assert(t.subrange(n + 1, n + 6) =~= "cycle"@);
    assert("cycle"@[1] != "cloud"@[1]);
    assert("cycle"@ != "cloud"@);
    assert(placeholder_of("cycle"@) == Some(Placeholder::Cycle));
    assert forall|j: int| n + 7 <= j < t.len() implies t[j] != '{' by {
        assert(t[j] == suffix[j - n - 7]);
    }
    lemma_find_absent(t, '{', n + 7);
    assert(t.subrange(n + 7, t.len() as int) =~= suffix);
    assert(t.subrange(0, n) =~= prefix);
    assert(render_from(t, s, draws, n + 7, 1) == Some(suffix));
}

/// A template whose first placeholder does not resolve, whatever the draw,
/// does not resolve.
pub proof fn lemma_first_placeholder_blocks(prefix: Seq<char>, key: Seq<char>, rest: Seq<char>, s: ScanResult)
    requires
        forall|j: int| 0 <= j < prefix.len() ==> prefix[j] != '{',
        forall|j: int| 0 <= j < key.len() ==> key[j] != '{' && key[j] != '}',
        forall|p: nat| #[trigger] resolve_key(s, key, p) is None,
    ensures
        !resolvable(prefix + seq!['{'] + key + seq!['}'] + rest, s),
{
    let t = prefix + seq!['{'] + key + seq!['}'] + rest;
    let n = prefix.len() as int;
    let m = key.len() as int;
    assert forall|j: int| 0 <= j < n implies t[j] != '{' by {
        assert(t[j] == prefix[j]);
    }
    assert(t[n] == '{');
    lemma_find_upto(t, '{', 0, n);
    assert forall|j: int| n + 1 <= j < n + 1 + m implies t[j] != '}' by {
        assert(t[j] == key[j - n - 1]);
    }
    assert(t[n + 1 + m] == '}');
    lemma_find_upto(t, '}', n + 1, n + 1 + m);
    assert(t.subrange(n + 1, n + 1 + m) =~= key);
    assert(resolve_key(s, key, draw_at(Seq::empty(), 0)) is None);
}

/// A template whose first placeholder is `{ssh_key}` does not resolve against
/// a snapshot without SSH keys.
pub proof fn lemma_ssh_key_needs_keys(prefix: Seq<char>, suffix: Seq<char>, s: ScanResult)
    requires
        forall|j: int| 0 <= j < prefix.len() ==> prefix[j] != '{',
        s.ssh_key_names@.len() == 0,
    ensures
        !resolvable(prefix + "{ssh_key}"@ + suffix, s),
{
    reveal_strlit("{ssh_key}");
    reveal_strlit("ssh_key");
    reveal_strlit("hostname");
    reveal_strlit("username");
    reveal_strlit("os");
    reveal_strlit("project");
    reveal_strlit("git_repo");
    let t = prefix + "{ssh_key}"@ + suffix;
    let n = prefix.len() as int;
    assert forall|j: int| 0 <= j < n implies t[j] != '{' by {
        assert(t[j] == prefix[j]);
    }
    assert(t[n] == '{');
    lemma_find_upto(t, '{', 0, n);
    assert forall|j: int| n + 1 <= j < n + 8 implies t[j] != '}' by {
        assert(t[j] == "{ssh_key}"@[j - n]);
    }
    assert(t[n + 8] == '}');
    lemma_find_upto(t, '}', n + 1, n + 8);
    assert(t.subrange(n + 1, n + 8) =~= "ssh_key"@);
    assert("ssh_key"@[0] != "project"@[0]);
    assert("ssh_key"@ != "project"@);
    assert("ssh_key"@ != "git_repo"@);
    assert("ssh_key"@ != "hostname"@);
    assert("ssh_key"@ != "username"@);
    assert("ssh_key"@ != "os"@);
    assert(placeholder_of("ssh_key"@) == Some(Placeholder::SshKey));
}

} // verus!
