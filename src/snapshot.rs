use vstd::prelude::*;
use crate::text::chars_of;

verus! {

/// One-time record of host and user facts that the messages are drawn from.
/// The name lists hold no name twice; a count and the list beside it are
/// independent.
#[derive(Debug, Clone)]
pub struct ScanResult {
    pub hostname: Option<String>,
    pub os_name: Option<String>,
    pub username: Option<String>,
    pub home_dir: Option<String>,
    pub desktop_count: Option<usize>,
    pub downloads_count: Option<usize>,
    pub documents_exists: bool,
    pub project_names: Vec<String>,
    pub git_repos: Vec<String>,
    pub dotfile_names: Vec<String>,
    pub ssh_key_names: Vec<String>,
    pub browser_profiles: Vec<String>,
    pub cloud_configs: Vec<String>,
    pub env_file_count: usize,
    pub shell_history_lines: Option<usize>,
    pub docker_present: bool,
    pub files_scanned: usize,
    pub scan_timestamp: String,
}

/// The texts of a list of strings.
pub open spec fn texts(v: Seq<String>) -> Seq<Seq<char>> {
    v.map_values(|s: String| s@)
}

impl ScanResult {
    /// Every name list is free of repeats.
    pub open spec fn wf(&self) -> bool {
        &&& texts(self.project_names@).no_duplicates()
        &&& texts(self.git_repos@).no_duplicates()
        &&& texts(self.dotfile_names@).no_duplicates()
        &&& texts(self.ssh_key_names@).no_duplicates()
        &&& texts(self.browser_profiles@).no_duplicates()
        &&& texts(self.cloud_configs@).no_duplicates()
    }
}

/// Whether two strings hold the same characters.
pub fn same_text(a: &String, b: &String) -> (r: bool)
    ensures
        r == (a@ == b@),
{
    a.eq(b)
}

/// The names of `names` without repeats, each kept at its first place.
pub fn distinct_names(names: &Vec<String>) -> (r: Vec<String>)
    ensures
        texts(r@).no_duplicates(),
        forall|x: Seq<char>| texts(r@).contains(x) <==> texts(names@).contains(x),
{
    let mut r: Vec<String> = Vec::new();
    let mut i: usize = 0;
    while i < names.len()
        invariant
            i <= names@.len(),
            texts(r@).no_duplicates(),
            forall|x: Seq<char>|
                texts(r@).contains(x) <==> texts(names@.subrange(0, i as int)).contains(x),
        decreases names@.len() - i,
    {
        let mut seen = false;
        let mut j: usize = 0;
        while j < r.len()
            invariant
                j <= r@.len(),
                i < names@.len(),
                seen <==> exists|m: int| 0 <= m < j && r@[m]@ == names@[i as int]@,
            decreases r@.len() - j,
        {
            if same_text(&r[j], &names[i]) {
                seen = true;
            }
            j = j + 1;
        }
        let ghost old_r = texts(r@);
        let ghost prefix = texts(names@.subrange(0, i as int));
        assert(texts(names@.subrange(0, i + 1)) =~= prefix.push(names@[i as int]@));
        if !seen {
            r.push(names[i].clone());
            assert(texts(r@) =~= old_r.push(names@[i as int]@));
            assert forall|a: int, b: int|
                0 <= a < texts(r@).len() && 0 <= b < texts(r@).len() && a != b implies texts(
                    r@,
                )[a] != texts(r@)[b] by {
                if a == old_r.len() as int {
                    assert(r@[b]@ == old_r[b]);
                } else if b == old_r.len() as int {
                    assert(r@[a]@ == old_r[a]);
                }
            }
            assert forall|x: Seq<char>|
                texts(r@).contains(x) <==> texts(names@.subrange(0, i + 1)).contains(x) by {
                lemma_push_contains(old_r, names@[i as int]@, x);
                lemma_push_contains(prefix, names@[i as int]@, x);
            }
        } else {
            let ghost m = choose|m: int| 0 <= m < r@.len() && r@[m]@ == names@[i as int]@;
            assert(old_r[m] == names@[i as int]@);
            assert forall|x: Seq<char>|
                texts(r@).contains(x) <==> texts(names@.subrange(0, i + 1)).contains(x) by {
                lemma_push_contains(prefix, names@[i as int]@, x);
            }
        }
        i = i + 1;
    }
    assert(names@.subrange(0, i as int) =~= names@);
    r
}

proof fn lemma_push_contains(s: Seq<Seq<char>>, y: Seq<char>, x: Seq<char>)
    ensures
        s.push(y).contains(x) <==> (s.contains(x) || x == y),
{
    if s.push(y).contains(x) {
        let k = choose|k: int| 0 <= k < s.push(y).len() && s.push(y)[k] == x;
        if k < s.len() {
            assert(s[k] == x);
        }
    }
    if s.contains(x) {
        let k = choose|k: int| 0 <= k < s.len() && s[k] == x;
        assert(s.push(y)[k] == x);
    }
    if x == y {
        assert(s.push(y)[s.len() as int] == x);
    }
}

/// A home-directory entry that counts as a dotfile: a leading dot, something
/// after it, and not `.DS_Store`.
pub open spec fn dotfile_name(name: Seq<char>) -> bool {
    name.len() > 1 && name[0] == '.' && name != ".DS_Store"@
}

/// Whether a home-directory entry counts as a dotfile.
pub fn is_dotfile_name(name: &str) -> (r: bool)
    ensures
        r == dotfile_name(name@),
{
    let cs = chars_of(name);
    let ds = chars_of(".DS_Store");
    cs.len() > 1 && cs[0] == '.' && !same_chars(&cs, &ds)
}

/// An entry of `~/.ssh` that counts as a key: `id_*`, `*.pub` or
/// `authorized_keys`.
pub open spec fn ssh_key_name(name: Seq<char>) -> bool {
    name.len() >= 3 && name.subrange(0, 3) == "id_"@ || name.len() >= 4 && name.subrange(
        name.len() - 4,
        name.len() as int,
    ) == ".pub"@ || name == "authorized_keys"@
}

/// Whether an entry of `~/.ssh` counts as a key.
pub fn is_ssh_key_name(name: &str) -> (r: bool)
    ensures
        r == ssh_key_name(name@),
{
    let cs = chars_of(name);
    let n = cs.len();
    let id = chars_of("id_");
    let pubs = chars_of(".pub");
    let auth = chars_of("authorized_keys");
    proof {
        reveal_strlit("id_");
        reveal_strlit(".pub");
    }
    let starts = n >= 3 && same_range(&cs, 0, &id);
    let ends = n >= 4 && same_range(&cs, n - 4, &pubs);
    starts || ends || same_chars(&cs, &auth)
}

/// Whether two character vectors are equal.
pub fn same_chars(a: &Vec<char>, b: &Vec<char>) -> (r: bool)
    ensures
        r == (a@ == b@),
{
    if a.len() != b.len() {
        return false;
    }
    let mut i: usize = 0;
    while i < a.len()
        invariant
            a@.len() == b@.len(),
            i <= a@.len(),
            forall|k: int| 0 <= k < i ==> a@[k] == b@[k],
        decreases a@.len() - i,
    {
        if a[i] != b[i] {
            return false;
        }
        i = i + 1;
    }
    assert(a@ =~= b@);
    true
}

/// Whether `a` holds `b` at position `at`.
fn same_range(a: &Vec<char>, at: usize, b: &Vec<char>) -> (r: bool)
    requires
        at + b@.len() <= a@.len(),
    ensures
        r == (a@.subrange(at as int, at + b@.len()) == b@),
{
    let n = a.len();
    let mut i: usize = 0;
    while i < b.len()
        invariant
            at + b@.len() <= a@.len() == n,
            i <= b@.len(),
            forall|k: int| 0 <= k < i ==> a@[at + k] == b@[k],
        decreases b@.len() - i,
    {
        if a[at + i] != b[i] {
            assert(a@.subrange(at as int, at + b@.len())[i as int] != b@[i as int]);
            return false;
        }
        i = i + 1;
    }
    assert(a@.subrange(at as int, at + b@.len()) =~= b@);
    true
}

/// Lines of shell history estimated from the history file's size, at about
/// fifty bytes a line.
pub fn history_lines_from_bytes(bytes: u64) -> (r: u64)
    ensures
        r == bytes / 50,
{
    bytes / 50
}

} // verus!
