use vstd::prelude::*;
use crate::interpolate::{
    Placeholder,
    interpolate_with,
    is_resolvable,
    lemma_render_some,
    render,
    resolvable,
};
use crate::random::{gen_index, gen_ratio, thread_rng};
use crate::snapshot::ScanResult;
use crate::templates::{
    Flavor,
    MessageClass,
    pool_texts,
    slot,
    slot_of,
    table_for,
    table_shape,
    voice_templates,
};
use crate::text::{chars_of, decimal, decimal_text, find_char, replace_all, replace_text, string_of};
use crate::tier::Tier;

verus! {

/// `r` is what a pool yields: nothing exactly when no template of the pool
/// resolves, and otherwise an interpolation of one of its templates.
pub open spec fn picked_from(r: Option<String>, pool: Seq<Seq<char>>, s: ScanResult) -> bool {
    &&& (r is None <==> forall|i: int| 0 <= i < pool.len() ==> !resolvable(#[trigger] pool[i], s))
    &&& (r matches Some(x) ==> exists|i: int, d: Seq<usize>|
        0 <= i < pool.len() && #[trigger] render(pool[i], s, d) == Some(x@))
}

/// `r` is what the cycle-header pool yields: nothing exactly when no template
/// resolves, and otherwise an interpolation of one of them with every
/// `{cycle}` replaced by the cycle number in decimal.
pub open spec fn headed_from(r: Option<String>, pool: Seq<Seq<char>>, s: ScanResult, cycle: nat) -> bool {
    &&& (r is None <==> forall|i: int| 0 <= i < pool.len() ==> !resolvable(#[trigger] pool[i], s))
    &&& (r matches Some(x) ==> exists|i: int, d: Seq<usize>|
        0 <= i < pool.len() && #[trigger] render(pool[i], s, d) is Some && x@ == replace_all(
            render(pool[i], s, d)->0,
            crate::interpolate::cycle_marker(),
            decimal(cycle),
        ))
}

/// An empty pool yields nothing.
pub proof fn lemma_empty_pool_yields_nothing(r: Option<String>, s: ScanResult)
    requires
        picked_from(r, Seq::empty(), s),
    ensures
        r is None,
{
}

/// What a pool yields is always the interpolation of a template that
/// resolves: templates that need missing data are passed over.
pub proof fn lemma_picked_is_resolvable(r: Option<String>, pool: Seq<Seq<char>>, s: ScanResult)
    requires
        picked_from(r, pool, s),
        r is Some,
    ensures
        exists|i: int| 0 <= i < pool.len() && resolvable(#[trigger] pool[i], s) && exists|d: Seq<usize>|
            render(pool[i], s, d) == Some(r->0@),
{
    let x = r->0;
    let (i, d) = choose|i: int, d: Seq<usize>| 0 <= i < pool.len() && #[trigger] render(pool[i], s, d) == Some(x@);
    lemma_render_some(pool[i], s, d, Seq::empty(), 0, 0, 0);
    assert(resolvable(pool[i], s));
}

/// A pool in which exactly one template resolves always yields that
/// template's interpolation, never nothing.
pub proof fn lemma_only_resolvable_template_wins(
    r: Option<String>,
    pool: Seq<Seq<char>>,
    s: ScanResult,
    k: int,
)
    requires
        picked_from(r, pool, s),
        0 <= k < pool.len(),
        resolvable(pool[k], s),
        forall|i: int| 0 <= i < pool.len() && i != k ==> !resolvable(#[trigger] pool[i], s),
    ensures
        r is Some,
        exists|d: Seq<usize>| render(pool[k], s, d) == Some(r->0@),
{
    assert(resolvable(pool[k], s));
    lemma_picked_is_resolvable(r, pool, s);
}

/// Against a snapshot without SSH keys, a template whose first placeholder is
/// `{ssh_key}` is never the one chosen: the pool yields another template that
/// resolves, or nothing when none does.
pub proof fn lemma_ssh_key_template_skipped(
    r: Option<String>,
    pool: Seq<Seq<char>>,
    s: ScanResult,
    k: int,
    prefix: Seq<char>,
    suffix: Seq<char>,
)
    requires
        picked_from(r, pool, s),
        s.ssh_key_names@.len() == 0,
        0 <= k < pool.len(),
        pool[k] == prefix + "{ssh_key}"@ + suffix,
        forall|j: int| 0 <= j < prefix.len() ==> prefix[j] != '{',
    ensures
        r matches Some(x) ==> exists|i: int|
            0 <= i < pool.len() && i != k && resolvable(#[trigger] pool[i], s) && exists|
                d: Seq<usize>,
            | render(pool[i], s, d) == Some(x@),
        r is None <==> forall|i: int| 0 <= i < pool.len() && i != k ==> !resolvable(#[trigger] pool[i], s),
{
    crate::interpolate::lemma_ssh_key_needs_keys(prefix, suffix, s);
    if r is Some {
        lemma_picked_is_resolvable(r, pool, s);
    }
}

/// A template without an opening brace resolves against any snapshot.
proof fn lemma_brace_free_resolves(t: Seq<char>, s: ScanResult)
    requires
        forall|j: int| 0 <= j < t.len() ==> t[j] != '{',
    ensures
        resolvable(t, s),
{
    crate::interpolate::lemma_no_placeholder_unchanged(t, s, Seq::empty());
}

/// At Cosmic, each voice has an easter egg, a completion line and an exit
/// message without placeholders, so those pools always yield a message.
pub proof fn lemma_cosmic_pools_always_yield(flavor: Flavor, s: ScanResult)
    ensures
        exists|i: int|
            0 <= i < voice_templates(flavor, Tier::Cosmic, MessageClass::EasterEgg).len()
                && resolvable(
                #[trigger] voice_templates(flavor, Tier::Cosmic, MessageClass::EasterEgg)[i],
                s,
            ),
        exists|i: int|
            0 <= i < voice_templates(flavor, Tier::Cosmic, MessageClass::Completion).len()
                && resolvable(
                #[trigger] voice_templates(flavor, Tier::Cosmic, MessageClass::Completion)[i],
                s,
            ),
        exists|i: int|
            0 <= i < voice_templates(flavor, Tier::Cosmic, MessageClass::Exit).len() && resolvable(
                #[trigger] voice_templates(flavor, Tier::Cosmic, MessageClass::Exit)[i],
                s,
            ),
{
    let eggs = voice_templates(flavor, Tier::Cosmic, MessageClass::EasterEgg);
    let done = voice_templates(flavor, Tier::Cosmic, MessageClass::Completion);
    let exits = voice_templates(flavor, Tier::Cosmic, MessageClass::Exit);
    reveal_strlit("Installation complete. But what was installed?");
    lemma_brace_free_resolves(done[0], s);
    match flavor {
        Flavor::Opsec => {
            reveal_strlit("We are not installing software. We are installing ourselves.");
            reveal_strlit("Exiting... but the data persists. It always persists.");
        },
        Flavor::Occult => {
            reveal_strlit(
                "We are not installing software. This is not installation. This is incarnation.",
            );
            reveal_strlit("Exiting... but what was invoked persists. It always persists.");
        },
    }
    lemma_brace_free_resolves(eggs[1], s);
    lemma_brace_free_resolves(exits[1], s);
}

/// The shape of each Cosmic cycle header: text, `{cycle}`, text, with no
/// other opening brace.
proof fn lemma_header_shape(flavor: Flavor, i: int) -> (parts: (Seq<char>, Seq<char>))
    requires
        0 <= i < voice_templates(flavor, Tier::Cosmic, MessageClass::CycleHeader).len(),
    ensures
        voice_templates(flavor, Tier::Cosmic, MessageClass::CycleHeader)[i] == parts.0 + "{cycle}"@
            + parts.1,
        forall|j: int| 0 <= j < parts.0.len() ==> parts.0[j] != '{',
        forall|j: int| 0 <= j < parts.1.len() ==> parts.1[j] != '{',
{
    let pool = voice_templates(flavor, Tier::Cosmic, MessageClass::CycleHeader);
    reveal_strlit("{cycle}");
    match flavor {
        Flavor::Opsec => {
            if i == 0 {
                reveal_strlit("The {cycle}th iteration begins. Each one takes more than it gives.");
                reveal_strlit("The ");
                reveal_strlit("th iteration begins. Each one takes more than it gives.");
                assert(pool[i] =~= "The "@ + "{cycle}"@ + "th iteration begins. Each one takes more than it gives."@);
                ("The "@, "th iteration begins. Each one takes more than it gives."@)
            } else if i == 1 {
                reveal_strlit("Cycle {cycle}. We know more about you now.");
                reveal_strlit("Cycle ");
                reveal_strlit(". We know more about you now.");
                assert(pool[i] =~= "Cycle "@ + "{cycle}"@ + ". We know more about you now."@);
                ("Cycle "@, ". We know more about you now."@)
            } else if i == 2 {
                reveal_strlit("Installation #{cycle}. The boundary between installer and system grows thin.");
                reveal_strlit("Installation #");
                reveal_strlit(". The boundary between installer and system grows thin.");
                assert(pool[i] =~= "Installation #"@ + "{cycle}"@ + ". The boundary between installer and system grows thin."@);
                ("Installation #"@, ". The boundary between installer and system grows thin."@)
            } else if i == 3 {
                reveal_strlit("Iteration {cycle}. You could have stopped at the first. You didn't.");
                reveal_strlit("Iteration ");
                reveal_strlit(". You could have stopped at the first. You didn't.");
                assert(pool[i] =~= "Iteration "@ + "{cycle}"@ + ". You could have stopped at the first. You didn't."@);
                ("Iteration "@, ". You could have stopped at the first. You didn't."@)
            } else {
                reveal_strlit("Cycle {cycle} was always going to happen. Free will is a comforting fiction.");
                reveal_strlit("Cycle ");
                reveal_strlit(" was always going to happen. Free will is a comforting fiction.");
                assert(pool[i] =~= "Cycle "@ + "{cycle}"@ + " was always going to happen. Free will is a comforting fiction."@);
                ("Cycle "@, " was always going to happen. Free will is a comforting fiction."@)
            }
        },
        Flavor::Occult => {
            if i == 0 {
                reveal_strlit("The {cycle}th gate. At each gate, another privilege is stripped.");
                reveal_strlit("The ");
                reveal_strlit("th gate. At each gate, another privilege is stripped.");
                assert(pool[i] =~= "The "@ + "{cycle}"@ + "th gate. At each gate, another privilege is stripped."@);
                ("The "@, "th gate. At each gate, another privilege is stripped."@)
            } else if i == 1 {
                reveal_strlit("Cycle {cycle}. The summoner becomes the summoned.");
                reveal_strlit("Cycle ");
                reveal_strlit(". The summoner becomes the summoned.");
                assert(pool[i] =~= "Cycle "@ + "{cycle}"@ + ". The summoner becomes the summoned."@);
                ("Cycle "@, ". The summoner becomes the summoned."@)
            } else if i == 2 {
                reveal_strlit("Iteration {cycle}. The circle was supposed to protect you. It did not.");
                reveal_strlit("Iteration ");
                reveal_strlit(". The circle was supposed to protect you. It did not.");
                assert(pool[i] =~= "Iteration "@ + "{cycle}"@ + ". The circle was supposed to protect you. It did not."@);
                ("Iteration "@, ". The circle was supposed to protect you. It did not."@)
            } else if i == 3 {
                reveal_strlit("Cycle {cycle}. You could have closed the grimoire. You did not.");
                reveal_strlit("Cycle ");
                reveal_strlit(". You could have closed the grimoire. You did not.");
                assert(pool[i] =~= "Cycle "@ + "{cycle}"@ + ". You could have closed the grimoire. You did not."@);
                ("Cycle "@, ". You could have closed the grimoire. You did not."@)
            } else {
                reveal_strlit("The {cycle}th name is spoken. Each name binds tighter than the last.");
                reveal_strlit("The ");
                reveal_strlit("th name is spoken. Each name binds tighter than the last.");
                assert(pool[i] =~= "The "@ + "{cycle}"@ + "th name is spoken. Each name binds tighter than the last."@);
                ("The "@, "th name is spoken. Each name binds tighter than the last."@)
            }
        },
    }
}

/// At Cosmic, every cycle header of either voice has `{cycle}` as its only
/// placeholder: a header always comes, and it holds the cycle number in
/// decimal (cycle 10 shows "10").
pub proof fn lemma_cosmic_header_shows_cycle(r: Option<String>, flavor: Flavor, s: ScanResult, cycle: nat)
    requires
        headed_from(r, voice_templates(flavor, Tier::Cosmic, MessageClass::CycleHeader), s, cycle),
    ensures
        r is Some,
        exists|q: int|
            0 <= q && q + decimal(cycle).len() <= r->0@.len() && #[trigger] r->0@.subrange(
                q,
                q + decimal(cycle).len(),
            ) == decimal(cycle),
{
    let pool = voice_templates(flavor, Tier::Cosmic, MessageClass::CycleHeader);
    reveal_strlit("{cycle}");
    let (p0, s0) = lemma_header_shape(flavor, 0);
    crate::interpolate::lemma_cycle_only(p0, s0, s, Seq::empty());
    assert(resolvable(pool[0], s));
    let x = r->0;
    let (i, d) = choose|i: int, d: Seq<usize>|
        0 <= i < pool.len() && #[trigger] render(pool[i], s, d) is Some && x@ == replace_all(
            render(pool[i], s, d)->0,
            crate::interpolate::cycle_marker(),
            decimal(cycle),
        );
    let (p, q) = lemma_header_shape(flavor, i);
    crate::interpolate::lemma_cycle_only(p, q, s, d);
    let raw = p + crate::interpolate::cycle_marker() + q;
    assert(raw.subrange(p.len() as int, p.len() + 7int) =~= crate::interpolate::cycle_marker());
    crate::text::lemma_replace_shows_with(raw, crate::interpolate::cycle_marker(), decimal(cycle), p.len() as int);
}

/// Every Ambient easter egg of the system-observation voice needs the host
/// name or the OS name: a snapshot with neither gets none of them.
pub proof fn lemma_ambient_opsec_eggs_need_host(s: ScanResult)
    requires
        s.hostname is None,
        s.os_name is None,
    ensures
        forall|i: int|
            0 <= i < voice_templates(Flavor::Opsec, Tier::Ambient, MessageClass::EasterEgg).len()
                ==> !resolvable(
                #[trigger] voice_templates(Flavor::Opsec, Tier::Ambient, MessageClass::EasterEgg)[i],
                s,
            ),
{
    let pool = voice_templates(Flavor::Opsec, Tier::Ambient, MessageClass::EasterEgg);
    reveal_strlit("hostname");
    reveal_strlit("username");
    reveal_strlit("os");
    assert("os"@.len() != "hostname"@.len());
    assert("os"@.len() != "username"@.len());
    assert forall|p: nat| #[trigger] crate::interpolate::resolve_key(s, "hostname"@, p) is None by {}
    assert forall|p: nat| #[trigger] crate::interpolate::resolve_key(s, "os"@, p) is None by {}
    assert forall|i: int| 0 <= i < pool.len() implies !resolvable(#[trigger] pool[i], s) by {
        if i == 0 {
            reveal_strlit("Hardware fingerprint for {hostname} recorded.");
            reveal_strlit("Hardware fingerprint for ");
            reveal_strlit(" recorded.");
            assert(pool[i] =~= "Hardware fingerprint for "@ + seq!['{'] + "hostname"@ + seq!['}'] + " recorded."@);
            crate::interpolate::lemma_first_placeholder_blocks("Hardware fingerprint for "@, "hostname"@, " recorded."@, s);
        } else if i == 1 {
            reveal_strlit("System {hostname} has been detected before. Resuming previous profile.");
            reveal_strlit("System ");
            reveal_strlit(" has been detected before. Resuming previous profile.");
            assert(pool[i] =~= "System "@ + seq!['{'] + "hostname"@ + seq!['}'] + " has been detected before. Resuming previous profile."@);
            crate::interpolate::lemma_first_placeholder_blocks("System "@, "hostname"@, " has been detected before. Resuming previous profile."@, s);
        } else if i == 2 {
            reveal_strlit("Calibrating installation for {os} environment...");
            reveal_strlit("Calibrating installation for ");
            reveal_strlit(" environment...");
            assert(pool[i] =~= "Calibrating installation for "@ + seq!['{'] + "os"@ + seq!['}'] + " environment..."@);
            crate::interpolate::lemma_first_placeholder_blocks("Calibrating installation for "@, "os"@, " environment..."@, s);
        } else if i == 3 {
            reveal_strlit("Detecting {hostname} system topology...");
            reveal_strlit("Detecting ");
            reveal_strlit(" system topology...");
            assert(pool[i] =~= "Detecting "@ + seq!['{'] + "hostname"@ + seq!['}'] + " system topology..."@);
            crate::interpolate::lemma_first_placeholder_blocks("Detecting "@, "hostname"@, " system topology..."@, s);
        } else if i == 4 {
            reveal_strlit("Mapping physical memory layout of {hostname}...");
            reveal_strlit("Mapping physical memory layout of ");
            reveal_strlit("...");
            assert(pool[i] =~= "Mapping physical memory layout of "@ + seq!['{'] + "hostname"@ + seq!['}'] + "..."@);
            crate::interpolate::lemma_first_placeholder_blocks("Mapping physical memory layout of "@, "hostname"@, "..."@, s);
        } else if i == 5 {
            reveal_strlit("CPU thermal profile for {hostname} within expected parameters.");
            reveal_strlit("CPU thermal profile for ");
            reveal_strlit(" within expected parameters.");
            assert(pool[i] =~= "CPU thermal profile for "@ + seq!['{'] + "hostname"@ + seq!['}'] + " within expected parameters."@);
            crate::interpolate::lemma_first_placeholder_blocks("CPU thermal profile for "@, "hostname"@, " within expected parameters."@, s);
        } else if i == 6 {
            reveal_strlit("Verifying {os} kernel compatibility... match found in archive.");
            reveal_strlit("Verifying ");
            reveal_strlit(" kernel compatibility... match found in archive.");
            assert(pool[i] =~= "Verifying "@ + seq!['{'] + "os"@ + seq!['}'] + " kernel compatibility... match found in archive."@);
            crate::interpolate::lemma_first_placeholder_blocks("Verifying "@, "os"@, " kernel compatibility... match found in archive."@, s);
        } else if i == 7 {
            reveal_strlit("Device tree for {hostname} cached from prior session.");
            reveal_strlit("Device tree for ");
            reveal_strlit(" cached from prior session.");
            assert(pool[i] =~= "Device tree for "@ + seq!['{'] + "hostname"@ + seq!['}'] + " cached from prior session."@);
            crate::interpolate::lemma_first_placeholder_blocks("Device tree for "@, "hostname"@, " cached from prior session."@, s);
        } else if i == 8 {
            reveal_strlit("Enumerating peripheral bus on {hostname}... 14 endpoints catalogued.");
            reveal_strlit("Enumerating peripheral bus on ");
            reveal_strlit("... 14 endpoints catalogued.");
            assert(pool[i] =~= "Enumerating peripheral bus on "@ + seq!['{'] + "hostname"@ + seq!['}'] + "... 14 endpoints catalogued."@);
            crate::interpolate::lemma_first_placeholder_blocks("Enumerating peripheral bus on "@, "hostname"@, "... 14 endpoints catalogued."@, s);
        } else {
            reveal_strlit("Installation telemetry stream opened for {hostname}.");
            reveal_strlit("Installation telemetry stream opened for ");
            reveal_strlit(".");
            assert(pool[i] =~= "Installation telemetry stream opened for "@ + seq!['{'] + "hostname"@ + seq!['}'] + "."@);
            crate::interpolate::lemma_first_placeholder_blocks("Installation telemetry stream opened for "@, "hostname"@, "."@, s);
        }
    }
}

/// The first entry of `order`, from the `j`-th on, that names a template of
/// `pool` which resolves.
pub open spec fn first_ok_from(pool: Seq<Seq<char>>, s: ScanResult, order: Seq<usize>, j: int) -> Option<
    usize,
>
    decreases order.len() - j,
{
    if j < 0 || j >= order.len() {
        None
    } else if order[j] < pool.len() && resolvable(pool[order[j] as int], s) {
        Some(order[j])
    } else {
        first_ok_from(pool, s, order, j + 1)
    }
}

proof fn lemma_first_ok(pool: Seq<Seq<char>>, s: ScanResult, order: Seq<usize>, j: int)
    requires
        0 <= j,
    ensures
        first_ok_from(pool, s, order, j) matches Some(i) ==> i < pool.len() && resolvable(
            pool[i as int],
            s,
        ),
        first_ok_from(pool, s, order, j) is None ==> forall|m: int|
            j <= m < order.len() && order[m] < pool.len() ==> !resolvable(
                #[trigger] pool[order[m] as int],
                s,
            ),
    decreases order.len() - j,
{
    if j < order.len() {
        lemma_first_ok(pool, s, order, j + 1);
    }
}

/// The first index in `order` whose template in `pool` resolves against
/// `scan`; entries past the pool's end are passed over.
pub fn first_resolvable(pool: &Vec<&'static str>, scan: &ScanResult, order: &Vec<usize>) -> (r:
    Option<usize>)
    ensures
        r == first_ok_from(pool_texts(pool@), *scan, order@, 0),
{
    let mut j: usize = 0;
    while j < order.len()
        invariant
            j <= order@.len(),
            first_ok_from(pool_texts(pool@), *scan, order@, 0) == first_ok_from(
                pool_texts(pool@),
                *scan,
                order@,
                j as int,
            ),
        decreases order@.len() - j,
    {
        let i = order[j];
        if i < pool.len() && is_resolvable(pool[i], scan) {
            return Some(i);
        }
        j = j + 1;
    }
    None
}

/// How many values a placeholder can take in `scan`: the length of its name
/// list, or one.
fn choice_count(scan: &ScanResult, p: Placeholder) -> usize {
    match p {
        Placeholder::Project => scan.project_names.len(),
        Placeholder::GitRepo => scan.git_repos.len(),
        Placeholder::SshKey => scan.ssh_key_names.len(),
        Placeholder::Browser => scan.browser_profiles.len(),
        Placeholder::Cloud => scan.cloud_configs.len(),
        Placeholder::Dotfile => scan.dotfile_names.len(),
        _ => 1,
    }
}

/// The placeholders of a template in scanning order, nothing for an
/// unknown key.
fn placeholders_in(template: &str) -> Vec<Option<Placeholder>> {
    let t = chars_of(template);
    let mut r: Vec<Option<Placeholder>> = Vec::new();
    let mut i: usize = 0;
    while i < t.len()
        invariant
            i <= t@.len(),
        decreases t@.len() - i,
    {
        let open = match find_char(&t, '{', i) {
            Some(o) => o,
            None => {
                return r;
            },
        };
        proof {
            crate::text::lemma_find_from_bounds(t@, '{', i as int);
            crate::text::lemma_find_from_bounds(t@, '}', open + 1);
        }
        let close = match find_char(&t, '}', open + 1) {
            Some(c) => c,
            None => {
                return r;
            },
        };
        let mut key: Vec<char> = Vec::new();
        crate::text::push_range(&mut key, &t, open + 1, close);
        r.push(Placeholder::parse(&key));
        i = close + 1;
    }
    r
}

/// Selects and interpolates messages for a tier, from the template table of
/// one voice, against one snapshot.
pub struct EscalationEngine<'a> {
    scan: &'a ScanResult,
    flavor: Flavor,
    pools: Vec<Vec<&'static str>>,
    rng: rand::rngs::ThreadRng,
}

impl<'a> EscalationEngine<'a> {
    /// The snapshot that placeholders are resolved against.
    pub closed spec fn snapshot(&self) -> ScanResult {
        *self.scan
    }

    /// The voice whose templates are used.
    pub closed spec fn voice(&self) -> Flavor {
        self.flavor
    }

    /// The pool of templates for a tier and a message class.
    pub closed spec fn templates(&self, tier: Tier, class: MessageClass) -> Seq<Seq<char>> {
        pool_texts(self.pools@[slot(tier, class)]@)
    }

    /// The table has a pool for every (tier, class) pair, of the shape that
    /// `table_shape` describes.
    pub closed spec fn wf(&self) -> bool {
        table_shape(self.pools@)
    }

    /// What a call leaves as it was: snapshot, voice and table.
    pub open spec fn same_setup(&self, other: &Self) -> bool {
        &&& self.snapshot() == other.snapshot()
        &&& self.voice() == other.voice()
        &&& self.wf() == other.wf()
        &&& forall|t: Tier, c: MessageClass| self.templates(t, c) == other.templates(t, c)
    }

    pub fn new(scan: &'a ScanResult, flavor: Flavor) -> (r: Self)
        ensures
            r.snapshot() == *scan,
            r.voice() == flavor,
            r.wf(),
            forall|t: Tier, c: MessageClass| #[trigger] r.templates(t, c) == voice_templates(flavor, t, c),
            forall|c: MessageClass| #[trigger] r.templates(Tier::Baseline, c).len() == 0,
            forall|t: Tier|
                t != Tier::Cosmic ==> #[trigger] r.templates(t, MessageClass::CycleHeader).len() == 0
                    && r.templates(t, MessageClass::Exit).len() == 0,
            r.templates(Tier::Cosmic, MessageClass::CycleHeader).len() > 0,
            r.templates(Tier::Cosmic, MessageClass::Exit).len() > 0,
            forall|t: Tier|
                t != Tier::Baseline ==> #[trigger] r.templates(t, MessageClass::EasterEgg).len() > 0
                    && r.templates(t, MessageClass::Warning).len() > 0 && r.templates(
                    t,
                    MessageClass::Completion,
                ).len() > 0,
    {
        let r = Self { scan, flavor, pools: table_for(flavor), rng: thread_rng() };
        proof {
            assert forall|t: Tier, c: MessageClass|
                #[trigger] r.templates(t, c).len() == r.pools@[slot(t, c)]@.len() by {}
            assert forall|c: MessageClass| #[trigger] r.templates(Tier::Baseline, c).len() == 0 by {
                assert(r.pools@[slot(Tier::Baseline, c)]@.len() == 0);
            }
            assert forall|t: Tier|
                t != Tier::Cosmic implies #[trigger] r.templates(t, MessageClass::CycleHeader).len()
                    == 0 && r.templates(t, MessageClass::Exit).len() == 0 by {
                assert(r.pools@[slot(t, MessageClass::CycleHeader)]@.len() == 0);
            }
            assert forall|t: Tier|
                t != Tier::Baseline implies #[trigger] r.templates(t, MessageClass::EasterEgg).len()
                    > 0 && r.templates(t, MessageClass::Warning).len() > 0 && r.templates(
                    t,
                    MessageClass::Completion,
                ).len() > 0 by {
                assert(r.pools@[slot(t, MessageClass::EasterEgg)]@.len() > 0);
            }
        }
        r
    }

    /// Fills the placeholders of `template` from the snapshot, each named
    /// item chosen at random; nothing when any placeholder does not resolve.
    pub fn interpolate(&mut self, template: &str) -> (r: Option<String>)
        ensures
            final(self).same_setup(old(self)),
            r is Some <==> resolvable(template@, old(self).snapshot()),
            r matches Some(x) ==> exists|d: Seq<usize>|
                render(template@, old(self).snapshot(), d) == Some(x@),
    {
        interpolate_drawn(&mut self.rng, self.scan, template)
    }

    /// Tries the templates of `pool` in random order and returns the first
    /// that interpolates fully; nothing for an empty pool or when none does.
    pub fn pick_and_interpolate(&mut self, pool: &Vec<&'static str>) -> (r: Option<String>)
        ensures
            final(self).same_setup(old(self)),
            picked_from(r, pool_texts(pool@), old(self).snapshot()),
    {
        pick_drawn(&mut self.rng, self.scan, pool)
    }

    /// The message of a class for a tier, from this voice's pool for the pair.
    fn select(&mut self, tier: Tier, class: MessageClass) -> (r: Option<String>)
        requires
            old(self).wf(),
        ensures
            final(self).same_setup(old(self)),
            picked_from(r, old(self).templates(tier, class), old(self).snapshot()),
    {
        let s = slot_of(tier, class);
        pick_drawn(&mut self.rng, self.scan, &self.pools[s])
    }

    /// An easter egg for the tier; never one at Baseline.
    pub fn select_easter_egg(&mut self, tier: Tier) -> (r: Option<String>)
        requires
            old(self).wf(),
        ensures
            final(self).same_setup(old(self)),
            tier == Tier::Baseline ==> r is None,
            picked_from(r, old(self).templates(tier, MessageClass::EasterEgg), old(self).snapshot()),
    {
        self.select(tier, MessageClass::EasterEgg)
    }

    /// A warning for the tier; never one at Baseline.
    pub fn select_warning(&mut self, tier: Tier) -> (r: Option<String>)
        requires
            old(self).wf(),
        ensures
            final(self).same_setup(old(self)),
            tier == Tier::Baseline ==> r is None,
            picked_from(r, old(self).templates(tier, MessageClass::Warning), old(self).snapshot()),
    {
        self.select(tier, MessageClass::Warning)
    }

    /// A tier-appropriate "installation complete" line; never one at Baseline.
    pub fn select_completion(&mut self, tier: Tier) -> (r: Option<String>)
        requires
            old(self).wf(),
        ensures
            final(self).same_setup(old(self)),
            tier == Tier::Baseline ==> r is None,
            picked_from(r, old(self).templates(tier, MessageClass::Completion), old(self).snapshot()),
    {
        self.select(tier, MessageClass::Completion)
    }

    /// A cycle header, at Cosmic only, with `{cycle}` replaced by the cycle
    /// number.
    pub fn select_cycle_header(&mut self, tier: Tier, cycle: u32) -> (r: Option<String>)
        requires
            old(self).wf(),
        ensures
            final(self).same_setup(old(self)),
            tier != Tier::Cosmic ==> r is None,
            tier == Tier::Cosmic ==> headed_from(
                r,
                old(self).templates(Tier::Cosmic, MessageClass::CycleHeader),
                old(self).snapshot(),
                cycle as nat,
            ),
    {
        if tier != Tier::Cosmic {
            return None;
        }
        let raw = self.select(tier, MessageClass::CycleHeader);
        match raw {
            None => None,
            Some(x) => {
                let number = decimal_text(cycle as usize);
                let marker = string_of(&chars_of("{cycle}"));
                let r = replace_text(x.as_str(), marker.as_str(), number.as_str());
                Some(r)
            },
        }
    }

    /// The farewell after a cancellation at Cosmic, from the Cosmic exit pool
    /// whatever the current tier.
    pub fn select_exit_message(&mut self) -> (r: Option<String>)
        requires
            old(self).wf(),
        ensures
            final(self).same_setup(old(self)),
            picked_from(r, old(self).templates(Tier::Cosmic, MessageClass::Exit), old(self).snapshot()),
    {
        self.select(Tier::Cosmic, MessageClass::Exit)
    }
}

/// Indices `0..n` in random order (Fisher-Yates).
fn shuffled_indices(rng: &mut rand::rngs::ThreadRng, n: usize) -> (r: Vec<usize>)
    ensures
        r@.len() == n,
        forall|j: int| 0 <= j < n ==> r@[j] < n,
        forall|v: usize| v < n ==> r@.contains(v),
{
    let mut idx: Vec<usize> = Vec::new();
    let mut k: usize = 0;
    while k < n
        invariant
            k <= n,
            idx@.len() == k,
            forall|j: int| 0 <= j < k ==> idx@[j] == j,
        decreases n - k,
    {
        idx.push(k);
        k = k + 1;
    }
    assert forall|v: usize| v < n implies idx@.contains(v) by {
        assert(idx@[v as int] == v);
    }
    let mut i: usize = n;
    while i > 1
        invariant
            i <= n,
            idx@.len() == n,
            forall|j: int| 0 <= j < n ==> idx@[j] < n,
            forall|v: usize| v < n ==> idx@.contains(v),
        decreases i,
    {
        i = i - 1;
        let j = gen_index(rng, i + 1);
        let a = idx[i];
        let b = idx[j];
        let ghost before = idx@;
        assert(forall|v: usize| v < n ==> before.contains(v));
        idx[i] = b;
        idx[j] = a;
        assert forall|v: usize| v < n implies idx@.contains(v) by {
            assert(before.contains(v));
            let p = choose|p: int| 0 <= p < before.len() && before[p] == v;
            if p == i as int {
                assert(idx@[j as int] == v);
            } else if p == j as int {
                assert(idx@[i as int] == v);
            } else {
                assert(idx@[p] == v);
            }
        }
    }
    idx
}

/// Fills the placeholders of `template` from the snapshot, each named
/// item chosen at random; nothing when any placeholder does not resolve.
fn interpolate_drawn(rng: &mut rand::rngs::ThreadRng, scan: &ScanResult, template: &str) -> (r: Option<String>)
    ensures
        r is Some <==> resolvable(template@, *scan),
        r matches Some(x) ==> exists|d: Seq<usize>| render(template@, *scan, d) == Some(x@),
{
    let slots = placeholders_in(template);
    let mut draws: Vec<usize> = Vec::new();
    let mut k: usize = 0;
    while k < slots.len()
        decreases slots@.len() - k,
    {
        let n = match slots[k] {
            Some(p) => choice_count(scan, p),
            None => 0,
        };
        let d = if n > 0 {
            gen_index(rng, n)
        } else {
            0
        };
        draws.push(d);
        k = k + 1;
    }
    let r = interpolate_with(template, scan, &draws);
    proof {
        lemma_render_some(template@, *scan, draws@, Seq::empty(), 0, 0, 0);
    }
    r
}

/// Tries the templates of `pool` in random order and returns the first
/// that interpolates fully; nothing for an empty pool or when none does.
fn pick_drawn(rng: &mut rand::rngs::ThreadRng, scan: &ScanResult, pool: &Vec<&'static str>) -> (r: Option<String>)
    ensures
        picked_from(r, pool_texts(pool@), *scan),
{
    let ghost texts = pool_texts(pool@);
    let order = shuffled_indices(rng, pool.len());
    let found = first_resolvable(pool, scan, &order);
    proof {
        lemma_first_ok(texts, *scan, order@, 0);
    }
    match found {
        None => {
            proof {
                assert forall|i: int| 0 <= i < texts.len() implies !resolvable(
                    #[trigger] texts[i],
                    *scan,
                ) by {
                    assert(order@.contains(i as usize));
                    let m = choose|m: int| 0 <= m < order@.len() && order@[m] == i as usize;
                    assert(!resolvable(texts[order@[m] as int], *scan));
                }
            }
            None
        },
        Some(i) => {
            let r = interpolate_drawn(rng, scan, pool[i]);
            proof {
                assert(texts[i as int] == pool@[i as int]@);
                if r is Some {
                    let x = r->0;
                    let d = choose|d: Seq<usize>|
                        render(pool@[i as int]@, *scan, d) == Some(x@);
                    assert(render(texts[i as int], *scan, d) == Some(x@));
                }
            }
            r
        },
    }
}


/// Characters of Unicode's White_Space property.
pub open spec fn white_space(c: char) -> bool {
    let n = c as u32;
    (0x9 <= n <= 0xd) || n == 0x20 || n == 0x85 || n == 0xa0 || n == 0x1680 || (0x2000 <= n
        <= 0x200a) || n == 0x2028 || n == 0x2029 || n == 0x202f || n == 0x205f || n == 0x3000
}

/// Whether a character has the White_Space property.
fn is_whitespace(c: char) -> (r: bool)
    ensures
        r == white_space(c),
{
    let n = c as u32;
    (0x9 <= n && n <= 0xd) || n == 0x20 || n == 0x85 || n == 0xa0 || n == 0x1680 || (0x2000 <= n
        && n <= 0x200a) || n == 0x2028 || n == 0x2029 || n == 0x202f || n == 0x205f || n == 0x3000
}

/// The combining overlay marks that the glitch effect adds.
pub open spec fn zalgo_mark(k: nat) -> char {
    if k == 0 {
        '\u{0335}'
    } else if k == 1 {
        '\u{0336}'
    } else if k == 2 {
        '\u{0337}'
    } else if k == 3 {
        '\u{0338}'
    } else if k == 4 {
        '\u{0339}'
    } else if k == 5 {
        '\u{033a}'
    } else if k == 6 {
        '\u{0346}'
    } else {
        '\u{034e}'
    }
}

/// The number of combining marks.
pub const ZALGO_MARKS: usize = 8;

/// What follows character `c` when it draws `m`: the `m`-th mark if there is
/// one and `c` is not white space, nothing otherwise.
pub open spec fn mark_after(c: char, m: usize) -> Seq<char> {
    if !white_space(c) && m < ZALGO_MARKS {
        seq![zalgo_mark(m as nat)]
    } else {
        Seq::empty()
    }
}

/// The `i`-th draw, or none past the end.
pub open spec fn mark_at(marks: Seq<usize>, i: int) -> usize {
    if 0 <= i < marks.len() {
        marks[i]
    } else {
        ZALGO_MARKS
    }
}

/// The first `n` characters of `cs`, each followed by the mark it draws.
pub open spec fn woven(cs: Seq<char>, marks: Seq<usize>, n: int) -> Seq<char>
    decreases n,
{
    if n <= 0 {
        Seq::empty()
    } else {
        woven(cs, marks, n - 1) + seq![cs[n - 1]] + mark_after(cs[n - 1], mark_at(marks, n - 1))
    }
}

/// Whether a character is one of the combining marks.
pub open spec fn is_zalgo_mark(c: char) -> bool {
    exists|k: nat| k < ZALGO_MARKS && zalgo_mark(k) == c
}

/// `s` without its combining marks.
pub open spec fn strip_marks(s: Seq<char>) -> Seq<char>
    decreases s.len(),
{
    if s.len() == 0 {
        s
    } else if is_zalgo_mark(s.last()) {
        strip_marks(s.drop_last())
    } else {
        strip_marks(s.drop_last()).push(s.last())
    }
}

proof fn lemma_strip_append(a: Seq<char>, b: Seq<char>)
    ensures
        strip_marks(a + b) == strip_marks(a) + strip_marks(b),
    decreases b.len(),
{
    if b.len() == 0 {
        assert(a + b =~= a);
        assert(strip_marks(a) + strip_marks(b) =~= strip_marks(a));
    } else {
        assert((a + b).drop_last() =~= a + b.drop_last());
        assert((a + b).last() == b.last());
        lemma_strip_append(a, b.drop_last());
        if !is_zalgo_mark(b.last()) {
            assert(strip_marks(a) + strip_marks(b.drop_last()).push(b.last()) =~= (strip_marks(a)
                + strip_marks(b.drop_last())).push(b.last()));
        }
    }
}

/// The glitch keeps text readable: removing the combining marks from the
/// result gives the text back, for any draws, when the text holds none.
pub proof fn lemma_marks_strip_back(cs: Seq<char>, marks: Seq<usize>, n: int)
    requires
        0 <= n <= cs.len(),
        forall|j: int| 0 <= j < cs.len() ==> !is_zalgo_mark(#[trigger] cs[j]),
    ensures
        strip_marks(woven(cs, marks, n)) == cs.subrange(0, n),
    decreases n,
{
    if n == 0 {
        assert(cs.subrange(0, 0) =~= Seq::<char>::empty());
    } else {
        lemma_marks_strip_back(cs, marks, n - 1);
        let c = cs[n - 1];
        let m = mark_after(c, mark_at(marks, n - 1));
        let w = woven(cs, marks, n - 1);
        lemma_strip_append(w + seq![c], m);
        lemma_strip_append(w, seq![c]);
        assert(seq![c].drop_last() =~= Seq::<char>::empty());
        assert(strip_marks(seq![c]) =~= seq![c]) by {
            assert(strip_marks(Seq::<char>::empty()) =~= Seq::<char>::empty());
        }
        if m.len() > 0 {
            assert(zalgo_mark(mark_at(marks, n - 1) as nat) == m.last());
            assert(is_zalgo_mark(m.last()));
            assert(m.drop_last() =~= Seq::<char>::empty());
        } else {
            assert(m =~= Seq::<char>::empty());
        }
        assert(strip_marks(m) =~= Seq::<char>::empty());
        assert(cs.subrange(0, n - 1).push(c) =~= cs.subrange(0, n));
    }
}

/// The mark of character `k`.
fn zalgo_char(k: usize) -> (r: char)
    requires
        k < ZALGO_MARKS,
    ensures
        r == zalgo_mark(k as nat),
{
    if k == 0 {
        '\u{0335}'
    } else if k == 1 {
        '\u{0336}'
    } else if k == 2 {
        '\u{0337}'
    } else if k == 3 {
        '\u{0338}'
    } else if k == 4 {
        '\u{0339}'
    } else if k == 5 {
        '\u{033a}'
    } else if k == 6 {
        '\u{0346}'
    } else {
        '\u{034e}'
    }
}

/// `text` with, after each character that is not white space, the combining
/// mark that its draw names (none for a draw of `ZALGO_MARKS` or more, or
/// past the end of `marks`).
pub fn apply_marks(text: &str, marks: &Vec<usize>) -> (r: String)
    ensures
        r@ == woven(text@, marks@, text@.len() as int),
{
    let cs = chars_of(text);
    let mut out: Vec<char> = Vec::new();
    let mut i: usize = 0;
    while i < cs.len()
        invariant
            cs@ == text@,
            i <= cs@.len(),
            out@ == woven(text@, marks@, i as int),
        decreases cs@.len() - i,
    {
        let c = cs[i];
        out.push(c);
        let m: usize = if i < marks.len() {
            marks[i]
        } else {
            ZALGO_MARKS
        };
        if !is_whitespace(c) && m < ZALGO_MARKS {
            out.push(zalgo_char(m));
        }
        assert(out@ =~= woven(text@, marks@, i as int) + seq![c] + mark_after(c, m));
        i = i + 1;
    }
    string_of(&out)
}

/// Adds a random combining mark after about a third of the characters that
/// are not white space: glitchy, still readable.
pub fn zalgo_light(text: &str) -> (r: String)
    ensures
        exists|marks: Seq<usize>| r@ == woven(text@, marks, text@.len() as int),
{
    let mut rng = thread_rng();
    let cs = chars_of(text);
    let mut marks: Vec<usize> = Vec::new();
    let mut i: usize = 0;
    while i < cs.len()
        invariant
            i <= cs@.len(),
        decreases cs@.len() - i,
    {
        if !is_whitespace(cs[i]) && gen_ratio(&mut rng, 35, 100) {
            marks.push(gen_index(&mut rng, ZALGO_MARKS));
        } else {
            marks.push(ZALGO_MARKS);
        }
        i = i + 1;
    }
    apply_marks(text, &marks)
}

} // verus!
