use vstd::prelude::*;
use crate::escalation::{EscalationEngine, picked_from, woven, zalgo_light};
use crate::interpolate::{cycle_marker, render, resolvable};
use crate::random::{gen_index, gen_ratio, thread_rng};
use crate::snapshot::ScanResult;
use crate::templates::{Flavor, MessageClass, voice_templates};
use crate::text::{chars_of, decimal, decimal_text, push_range, replace_all, string_of};
use crate::tier::{Tier, tier_of};
use crate::messages;

verus! {

/// The simulated stages that an installation cycle can run.
#[derive(Debug, Clone, Copy, PartialEq, Eq, Structural)]
pub enum Stage {
    Bios,
    Bootloader,
    Boot,
    Xorg,
    Ai,
    Cloud,
    Container,
}

impl Stage {
    /// Every stage, in the canonical order.
    pub fn all() -> (r: Vec<Stage>)
        ensures
            r@ == seq![
                Stage::Bios,
                Stage::Bootloader,
                Stage::Boot,
                Stage::Xorg,
                Stage::Ai,
                Stage::Cloud,
                Stage::Container,
            ],
    {
        let r = vec![
            Stage::Bios,
            Stage::Bootloader,
            Stage::Boot,
            Stage::Xorg,
            Stage::Ai,
            Stage::Cloud,
            Stage::Container,
        ];
        assert(r@ =~= seq![
            Stage::Bios,
            Stage::Bootloader,
            Stage::Boot,
            Stage::Xorg,
            Stage::Ai,
            Stage::Cloud,
            Stage::Container,
        ]);
        r
    }
}

/// A message to show: one personalised from the snapshot, in the tier's
/// colour, or a neutral one.
#[derive(Debug, Clone, PartialEq, Eq)]
pub enum Notice {
    Creepy(String),
    Plain(&'static str),
}

/// The probability, in hundredths, of a connection-retry flourish per stage.
pub const RETRY_PERCENT: u32 = 10;

/// Shortest pause after a stage, in milliseconds.
pub const PAUSE_MIN_MS: u64 = 300;

/// Width of the range of pauses after a stage, in milliseconds.
pub const PAUSE_SPAN_MS: u64 = 500;

/// What one stage's turn shows before the stage runs, and how long to pause
/// after it.
pub struct Turn {
    pub easter_egg: Option<Notice>,
    pub warning: Option<Notice>,
    pub retry: Option<&'static str>,
    pub pause_ms: u64,
}

/// The neutral item that a draw selects from a non-empty pool.
pub open spec fn fallback_at(pool: Seq<&'static str>, pick: usize) -> &'static str {
    pool[(pick as nat % pool.len()) as int]
}

/// The notice of a turn: none unless the roll `fired`; a personalised one when
/// the tier is above Baseline and the engine gave `creepy`; else the neutral
/// item that `pick` selects.
pub open spec fn notice_for(
    tier: Tier,
    fired: bool,
    creepy: Option<String>,
    fallback: Seq<&'static str>,
    pick: usize,
) -> Option<Notice> {
    if !fired {
        None
    } else if tier != Tier::Baseline && creepy is Some {
        Some(Notice::Creepy(creepy->0))
    } else {
        Some(Notice::Plain(fallback_at(fallback, pick)))
    }
}

/// The notice of a turn, from the roll, the engine's offer and the draw
/// among neutral items.
pub fn choose_notice(
    tier: Tier,
    fired: bool,
    creepy: Option<String>,
    fallback: &Vec<&'static str>,
    pick: usize,
) -> (r: Option<Notice>)
    requires
        fallback@.len() > 0,
    ensures
        r == notice_for(tier, fired, creepy, fallback@, pick),
{
    if !fired {
        None
    } else if tier != Tier::Baseline && creepy.is_some() {
        match creepy {
            Some(x) => Some(Notice::Creepy(x)),
            None => None,
        }
    } else {
        Some(Notice::Plain(fallback[pick % fallback.len()]))
    }
}

/// `x` is `raw` as the tier shows it: glitched with combining marks at
/// Cosmic, unchanged below.
pub open spec fn shown_as(tier: Tier, raw: Seq<char>, x: Seq<char>) -> bool {
    if tier == Tier::Cosmic {
        exists|marks: Seq<usize>| x == #[trigger] woven(raw, marks, raw.len() as int)
    } else {
        x == raw
    }
}

/// `r` is the engine's offer from `pool` as the tier shows it: nothing
/// exactly when no template resolves, otherwise the interpolation of one.
pub open spec fn offered(r: Option<String>, pool: Seq<Seq<char>>, s: ScanResult, tier: Tier) -> bool {
    &&& (r is None <==> forall|i: int| 0 <= i < pool.len() ==> !resolvable(#[trigger] pool[i], s))
    &&& (r matches Some(x) ==> exists|i: int, d: Seq<usize>|
        0 <= i < pool.len() && #[trigger] render(pool[i], s, d) is Some && shown_as(
            tier,
            render(pool[i], s, d)->0,
            x@,
        ))
}

/// `r` is the engine's Cosmic header from `pool`, glitched: nothing exactly
/// when no template resolves, otherwise one with `{cycle}` filled in.
pub open spec fn header_offered(r: Option<String>, pool: Seq<Seq<char>>, s: ScanResult, cycle: nat) -> bool {
    &&& (r is None <==> forall|i: int| 0 <= i < pool.len() ==> !resolvable(#[trigger] pool[i], s))
    &&& (r matches Some(x) ==> exists|i: int, d: Seq<usize>|
        0 <= i < pool.len() && #[trigger] render(pool[i], s, d) is Some && shown_as(
            Tier::Cosmic,
            replace_all(render(pool[i], s, d)->0, cycle_marker(), decimal(cycle)),
            x@,
        ))
}

/// The personalised text of a notice, if it has one.
pub open spec fn creepy_text(n: Notice) -> Option<String> {
    match n {
        Notice::Creepy(x) => Some(x),
        Notice::Plain(_) => None,
    }
}

/// The personalised text of a header, if there is a personalised header.
pub open spec fn creepy_header(h: Option<Header>) -> Option<String> {
    match h {
        Some(Header::Creepy(x)) => Some(x),
        _ => None,
    }
}

/// A turn's notice: none, the engine's offer from `pool` (above Baseline,
/// with a snapshot), or an item of `neutral`, which comes only where no
/// personalised message applies.
pub open spec fn turn_notice(
    n: Option<Notice>,
    tier: Tier,
    scan: Option<ScanResult>,
    pool: Seq<Seq<char>>,
    neutral: Seq<&'static str>,
) -> bool {
    match n {
        None => true,
        Some(Notice::Creepy(x)) => tier != Tier::Baseline && scan is Some && offered(
            Some(x),
            pool,
            scan->0,
            tier,
        ),
        Some(Notice::Plain(p)) => neutral.contains(p) && (tier != Tier::Baseline && scan is Some
            ==> forall|i: int| 0 <= i < pool.len() ==> !resolvable(#[trigger] pool[i], scan->0)),
    }
}

proof fn lemma_turn_notice(
    tier: Tier,
    fired: bool,
    creepy: Option<String>,
    scan: Option<ScanResult>,
    pool: Seq<Seq<char>>,
    neutral: Seq<&'static str>,
    pick: usize,
)
    requires
        neutral.len() > 0,
        creepy is Some ==> tier != Tier::Baseline && scan is Some,
        fired && tier != Tier::Baseline && scan is Some ==> offered(creepy, pool, scan->0, tier),
    ensures
        turn_notice(notice_for(tier, fired, creepy, neutral, pick), tier, scan, pool, neutral),
{
    if fired && !(tier != Tier::Baseline && creepy is Some) {
        let k = (pick as nat % neutral.len()) as int;
        assert(neutral[k] == fallback_at(neutral, pick));
        assert(neutral.contains(fallback_at(neutral, pick)));
    }
}

proof fn lemma_offer_from_pick(m: String, z: String, pool: Seq<Seq<char>>, s: ScanResult, tier: Tier)
    requires
        picked_from(Some(m), pool, s),
        shown_as(tier, m@, z@),
    ensures
        offered(Some(z), pool, s, tier),
{
    let (i, d) = choose|i: int, d: Seq<usize>| 0 <= i < pool.len() && #[trigger] render(pool[i], s, d) == Some(m@);
    assert(render(pool[i], s, d) is Some);
}

/// The header of a cycle that is not personalised.
pub open spec fn plain_header(cycle: nat) -> Seq<char> {
    "Beginning installation cycle #"@ + decimal(cycle) + "..."@
}

/// The header text of a cycle that is not personalised.
pub fn plain_header_text(cycle: u32) -> (r: String)
    ensures
        r@ == plain_header(cycle as nat),
{
    let mut out = chars_of("Beginning installation cycle #");
    let number = chars_of(decimal_text(cycle as usize).as_str());
    push_range(&mut out, &number, 0, number.len());
    let dots = chars_of("...");
    push_range(&mut out, &dots, 0, dots.len());
    assert(number@.subrange(0, number@.len() as int) =~= number@);
    assert(dots@.subrange(0, dots@.len() as int) =~= dots@);
    string_of(&out)
}


/// A cycle header: personalised (Cosmic only) or the numbered plain one.
#[derive(Debug, Clone, PartialEq, Eq)]
pub enum Header {
    Creepy(String),
    Plain(String),
}

/// What starting a cycle decides: its number, its tier and its header (none
/// for the first cycle).
pub struct CycleStart {
    pub cycle: u32,
    pub tier: Tier,
    pub header: Option<Header>,
}

/// Where the run loop stands.
#[derive(Debug, Clone, Copy, PartialEq, Eq, Structural)]
pub enum Phase {
    /// The next step begins a cycle.
    BetweenCycles,
    /// The next step runs the stage at this position, or completes the cycle
    /// when every stage has run.
    AtStage(usize),
    /// Cancelled: the run is over for good.
    Stopped,
}

/// What the run loop reports to the next step.
#[derive(Debug, Clone, Copy, PartialEq, Eq, Structural)]
pub enum Event {
    /// The previous action finished (or the run is starting).
    Ready,
    /// Cancellation was requested.
    Cancelled,
}

/// What the run loop is to do next.
pub enum Action {
    /// Show the header of a new cycle, if it has one.
    BeginCycle(CycleStart),
    /// Show the turn's messages, run the stage, then pause.
    RunStage { stage: Stage, turn: Turn },
    /// Show the cycle's completion line.
    Complete(Notice),
    /// Stop for good, with the closing words (the plain farewell when none).
    Stop(Option<String>),
}

/// The line shown after a cycle when nothing personalised applies.
pub const COMPLETION_LINE: &'static str = "Installation complete! Restarting installation process...";

/// The decision core of the endless installation: cycle counting, tiers,
/// probability rolls and the choice of every message. Showing them, running
/// the stages and polling for cancellation are left to the caller.
pub struct Installer {
    rng: rand::rngs::ThreadRng,
    selected_stages: Vec<Stage>,
    scan: Option<ScanResult>,
    flavor: Flavor,
    cycle: u32,
    phase: Phase,
    tier: Tier,
    eggs: Vec<&'static str>,
    warnings: Vec<&'static str>,
    retries: Vec<&'static str>,
}

impl Installer {
    /// Cycles begun so far.
    pub closed spec fn cycles(&self) -> nat {
        self.cycle as nat
    }

    /// Where the run loop stands.
    pub closed spec fn state(&self) -> Phase {
        self.phase
    }

    /// The tier of the cycle in progress.
    pub closed spec fn current_tier(&self) -> Tier {
        self.tier
    }

    /// Whether a snapshot is there to personalise messages.
    pub closed spec fn has_scan(&self) -> bool {
        self.scan is Some
    }

    /// The snapshot that personalises messages, if any.
    pub closed spec fn scan_data(&self) -> Option<ScanResult> {
        self.scan
    }

    /// The stages that each cycle runs, in order.
    pub closed spec fn stage_list(&self) -> Seq<Stage> {
        self.selected_stages@
    }

    /// The voice of the personalised messages.
    pub closed spec fn voice(&self) -> Flavor {
        self.flavor
    }

    /// The neutral asides.
    pub closed spec fn egg_pool(&self) -> Seq<&'static str> {
        self.eggs@
    }

    /// The neutral warnings.
    pub closed spec fn warning_pool(&self) -> Seq<&'static str> {
        self.warnings@
    }

    /// The connection-retry messages.
    pub closed spec fn retry_pool(&self) -> Seq<&'static str> {
        self.retries@
    }

    /// The neutral pools are not empty.
    pub closed spec fn wf(&self) -> bool {
        &&& self.eggs@.len() > 0
        &&& self.warnings@.len() > 0
        &&& self.retries@.len() > 0
    }

    /// What every call keeps.
    pub open spec fn same_setup(&self, other: &Self) -> bool {
        &&& self.has_scan() == other.has_scan()
        &&& self.scan_data() == other.scan_data()
        &&& self.stage_list() == other.stage_list()
        &&& self.voice() == other.voice()
        &&& self.egg_pool() == other.egg_pool()
        &&& self.warning_pool() == other.warning_pool()
        &&& self.retry_pool() == other.retry_pool()
        &&& self.wf() == other.wf()
    }

    pub fn new(stages: Vec<Stage>, scan: Option<ScanResult>, flavor: Flavor) -> (r: Self)
        ensures
            r.wf(),
            r.cycles() == 0,
            r.state() == Phase::BetweenCycles,
            r.has_scan() == scan is Some,
            r.scan_data() == scan,
            r.stage_list() == stages@,
            r.voice() == flavor,
            r.egg_pool() == messages::neutral_eggs(),
            r.warning_pool() == messages::neutral_warnings(),
            r.retry_pool() == messages::retry_lines(),
    {
        Self {
            rng: thread_rng(),
            selected_stages: stages,
            scan,
            flavor,
            cycle: 0,
            phase: Phase::BetweenCycles,
            tier: Tier::Baseline,
            eggs: messages::easter_eggs(),
            warnings: messages::warnings(),
            retries: messages::retry_messages(),
        }
    }

    /// The stages that each cycle runs, in order.
    pub fn stages(&self) -> (r: &Vec<Stage>)
        ensures
            r@ == self.stage_list(),
    {
        &self.selected_stages
    }

    /// Where the run loop stands.
    pub fn phase(&self) -> (r: Phase)
        ensures
            r == self.state(),
    {
        self.phase
    }

    /// Cycles begun so far.
    pub fn cycle(&self) -> (r: u32)
        ensures
            r as nat == self.cycles(),
    {
        self.cycle
    }

    /// Starts the next cycle: counts it, derives its tier and picks its
    /// header. The first cycle has none; a Cosmic one is personalised when the
    /// engine offers a header; any other gets the numbered plain header.
    pub fn begin_cycle(&mut self) -> (r: CycleStart)
        requires
            old(self).cycles() < u32::MAX,
        ensures
            final(self).same_setup(old(self)),
            final(self).cycles() == old(self).cycles() + 1,
            r.cycle as nat == final(self).cycles(),
            r.tier == tier_of(r.cycle as int),
            r.cycle == 1 <==> r.header is None,
            r.header matches Some(Header::Creepy(_)) ==> r.tier == Tier::Cosmic && old(
                self,
            ).has_scan(),
            r.header matches Some(Header::Plain(t)) ==> t@ == plain_header(r.cycle as nat),
            r.tier == Tier::Cosmic && old(self).scan_data() is Some ==> header_offered(
                creepy_header(r.header),
                voice_templates(old(self).voice(), Tier::Cosmic, MessageClass::CycleHeader),
                old(self).scan_data()->0,
                r.cycle as nat,
            ),
            final(self).current_tier() == r.tier,
            final(self).state() == old(self).state(),
    {
        self.cycle = self.cycle + 1;
        let cycle = self.cycle;
        let tier = Tier::from_cycle(cycle);
        self.tier = tier;
        if cycle == 1 {
            return CycleStart { cycle, tier, header: None };
        }
        let mut creepy: Option<String> = None;
        if tier == Tier::Cosmic {
            match &self.scan {
                Some(scan) => {
                    let mut engine = EscalationEngine::new(scan, self.flavor);
                    creepy = engine.select_cycle_header(tier, cycle);
                },
                None => {},
            }
        }
        let ghost raw = creepy;
        let header = match creepy {
            Some(text) => {
                let z = zalgo_light(text.as_str());
                proof {
                    if self.scan is Some {
                        let pool = voice_templates(self.flavor, Tier::Cosmic, MessageClass::CycleHeader);
                        let s = self.scan->0;
                        let (i, d) = choose|i: int, d: Seq<usize>|
                            0 <= i < pool.len() && #[trigger] render(pool[i], s, d) is Some
                                && text@ == replace_all(render(pool[i], s, d)->0, cycle_marker(), decimal(cycle as nat));
                        assert(render(pool[i], s, d) is Some);
                    }
                }
                Header::Creepy(z)
            },
            None => Header::Plain(plain_header_text(cycle)),
        };
        CycleStart { cycle, tier, header: Some(header) }
    }

    /// A personalised message of the engine for the tier, glitched at
    /// Cosmic; nothing at Baseline or without a snapshot.
    fn creepy_notice(&mut self, tier: Tier, warning: bool) -> (r: Option<String>)
        ensures
            final(self).same_setup(old(self)),
            final(self).cycles() == old(self).cycles(),
            final(self).state() == old(self).state(),
            final(self).current_tier() == old(self).current_tier(),
            r is Some ==> tier != Tier::Baseline && old(self).has_scan(),
            tier != Tier::Baseline && old(self).scan_data() is Some ==> offered(
                r,
                voice_templates(
                    old(self).voice(),
                    tier,
                    if warning {
                        MessageClass::Warning
                    } else {
                        MessageClass::EasterEgg
                    },
                ),
                old(self).scan_data()->0,
                tier,
            ),
    {
        if tier == Tier::Baseline {
            return None;
        }
        match &self.scan {
            Some(scan) => {
                let mut engine = EscalationEngine::new(scan, self.flavor);
                let msg = if warning {
                    engine.select_warning(tier)
                } else {
                    engine.select_easter_egg(tier)
                };
                let ghost pool = voice_templates(
                    self.flavor,
                    tier,
                    if warning {
                        MessageClass::Warning
                    } else {
                        MessageClass::EasterEgg
                    },
                );
                match msg {
                    Some(m) => {
                        let z = if tier == Tier::Cosmic {
                            zalgo_light(m.as_str())
                        } else {
                            m.clone()
                        };
                        proof {
                            lemma_offer_from_pick(m, z, pool, *scan, tier);
                        }
                        Some(z)
                    },
                    None => None,
                }
            },
            None => None,
        }
    }

    /// Decides a stage's turn: an easter egg and a warning, each shown with
    /// the tier's probability and personalised where the tier and the
    /// snapshot allow; a connection retry one time in ten; and the pause after
    /// the stage.
    pub fn plan_turn(&mut self, tier: Tier) -> (r: Turn)
        requires
            old(self).wf(),
        ensures
            final(self).same_setup(old(self)),
            final(self).cycles() == old(self).cycles(),
            final(self).state() == old(self).state(),
            final(self).current_tier() == old(self).current_tier(),
            turn_notice(
                r.easter_egg,
                tier,
                old(self).scan_data(),
                voice_templates(old(self).voice(), tier, MessageClass::EasterEgg),
                old(self).egg_pool(),
            ),
            turn_notice(
                r.warning,
                tier,
                old(self).scan_data(),
                voice_templates(old(self).voice(), tier, MessageClass::Warning),
                old(self).warning_pool(),
            ),
            r.retry matches Some(m) ==> old(self).retry_pool().contains(m),
            PAUSE_MIN_MS <= r.pause_ms < PAUSE_MIN_MS + PAUSE_SPAN_MS,
    {
        let percent = tier.message_probability();
        let egg_fired = gen_ratio(&mut self.rng, percent, 100);
        let egg_creepy = if egg_fired {
            self.creepy_notice(tier, false)
        } else {
            None
        };
        let egg_pick = gen_index(&mut self.rng, self.eggs.len());
        let ghost egg_offer = egg_creepy;
        let easter_egg = choose_notice(tier, egg_fired, egg_creepy, &self.eggs, egg_pick);
        assert(easter_egg == notice_for(tier, egg_fired, egg_offer, old(self).egg_pool(), egg_pick));
        proof {
            lemma_turn_notice(
                tier,
                egg_fired,
                egg_offer,
                old(self).scan_data(),
                voice_templates(old(self).voice(), tier, MessageClass::EasterEgg),
                old(self).egg_pool(),
                egg_pick,
            );
        }
        let warn_fired = gen_ratio(&mut self.rng, percent, 100);
        let warn_creepy = if warn_fired {
            self.creepy_notice(tier, true)
        } else {
            None
        };
        let warn_pick = gen_index(&mut self.rng, self.warnings.len());
        let ghost warn_offer = warn_creepy;
        let warning = choose_notice(tier, warn_fired, warn_creepy, &self.warnings, warn_pick);
        assert(warning == notice_for(tier, warn_fired, warn_offer, old(self).warning_pool(), warn_pick));
        proof {
            lemma_turn_notice(
                tier,
                warn_fired,
                warn_offer,
                old(self).scan_data(),
                voice_templates(old(self).voice(), tier, MessageClass::Warning),
                old(self).warning_pool(),
                warn_pick,
            );
        }
        let retry = if gen_ratio(&mut self.rng, RETRY_PERCENT, 100) {
            let k = gen_index(&mut self.rng, self.retries.len());
            assert(self.retries@.contains(self.retries@[k as int]));
            Some(self.retries[k])
        } else {
            None
        };
        let pause_ms = PAUSE_MIN_MS + gen_index(&mut self.rng, PAUSE_SPAN_MS as usize) as u64;
        Turn { easter_egg, warning, retry, pause_ms }
    }

    /// The line after a cycle: personalised (glitched at Cosmic) when the
    /// tier is above Baseline, a snapshot is there and the engine offers one;
    /// otherwise the plain completion line.
    pub fn completion(&mut self, tier: Tier) -> (r: Notice)
        ensures
            final(self).same_setup(old(self)),
            final(self).cycles() == old(self).cycles(),
            final(self).state() == old(self).state(),
            final(self).current_tier() == old(self).current_tier(),
            r matches Notice::Creepy(_) ==> tier != Tier::Baseline && old(self).has_scan(),
            r matches Notice::Plain(x) ==> x@ == COMPLETION_LINE@,
            tier != Tier::Baseline && old(self).scan_data() is Some ==> offered(
                creepy_text(r),
                voice_templates(old(self).voice(), tier, MessageClass::Completion),
                old(self).scan_data()->0,
                tier,
            ),
    {
        if tier != Tier::Baseline {
            match &self.scan {
                Some(scan) => {
                    let mut engine = EscalationEngine::new(scan, self.flavor);
                    match engine.select_completion(tier) {
                        Some(m) => {
                            let z = if tier == Tier::Cosmic {
                                zalgo_light(m.as_str())
                            } else {
                                m.clone()
                            };
                            proof {
                                lemma_offer_from_pick(
                                    m,
                                    z,
                                    voice_templates(self.flavor, tier, MessageClass::Completion),
                                    *scan,
                                    tier,
                                );
                            }
                            return Notice::Creepy(z);
                        },
                        None => {},
                    }
                },
                None => {},
            }
        }
        Notice::Plain(COMPLETION_LINE)
    }

    /// The closing words after a cancellation: the engine's exit message when
    /// the last cycle begun was Cosmic and a snapshot is there; nothing (the
    /// plain farewell) otherwise.
    pub fn farewell(&mut self) -> (r: Option<String>)
        ensures
            final(self).same_setup(old(self)),
            final(self).cycles() == old(self).cycles(),
            final(self).state() == old(self).state(),
            final(self).current_tier() == old(self).current_tier(),
            r is Some ==> old(self).cycles() >= 1 && tier_of(old(self).cycles() as int)
                == Tier::Cosmic && old(self).has_scan(),
            old(self).cycles() >= 1 && tier_of(old(self).cycles() as int) == Tier::Cosmic && old(
                self,
            ).scan_data() is Some ==> picked_from(
                r,
                voice_templates(old(self).voice(), Tier::Cosmic, MessageClass::Exit),
                old(self).scan_data()->0,
            ),
    {
        if self.cycle == 0 || Tier::from_cycle(self.cycle) != Tier::Cosmic {
            return None;
        }
        match &self.scan {
            Some(scan) => {
                let mut engine = EscalationEngine::new(scan, self.flavor);
                engine.select_exit_message()
            },
            None => None,
        }
    }
}

impl Installer {
    /// The next action of the run loop. A cancellation stops the run for
    /// good, with the farewell; otherwise a cycle begins, its stages run in
    /// order, each after its planned turn, and its completion line follows,
    /// over and over.
    pub fn step(&mut self, event: Event) -> (r: Action)
        requires
            old(self).wf(),
            old(self).state() == Phase::BetweenCycles ==> old(self).cycles() < u32::MAX,
        ensures
            final(self).same_setup(old(self)),
            event == Event::Cancelled || old(self).state() == Phase::Stopped ==> {
                &&& r is Stop
                &&& final(self).state() == Phase::Stopped
                &&& final(self).cycles() == old(self).cycles()
                &&& (r matches Action::Stop(Some(_)) ==> old(self).cycles() >= 1 && tier_of(
                    old(self).cycles() as int,
                ) == Tier::Cosmic && old(self).has_scan())
                &&& (old(self).cycles() >= 1 && tier_of(old(self).cycles() as int) == Tier::Cosmic
                    && old(self).scan_data() is Some ==> (r matches Action::Stop(w) && picked_from(
                    w,
                    voice_templates(old(self).voice(), Tier::Cosmic, MessageClass::Exit),
                    old(self).scan_data()->0,
                )))
            },
            event == Event::Ready && old(self).state() == Phase::BetweenCycles ==> {
                &&& (r matches Action::BeginCycle(start) && start.cycle as nat == old(self).cycles()
                    + 1 && start.tier == tier_of(start.cycle as int) && (start.cycle == 1
                    <==> start.header is None) && (start.tier == Tier::Cosmic && old(
                    self,
                ).scan_data() is Some ==> header_offered(
                    creepy_header(start.header),
                    voice_templates(old(self).voice(), Tier::Cosmic, MessageClass::CycleHeader),
                    old(self).scan_data()->0,
                    start.cycle as nat,
                )))
                &&& final(self).cycles() == old(self).cycles() + 1
                &&& final(self).state() == Phase::AtStage(0)
                &&& final(self).current_tier() == tier_of(final(self).cycles() as int)
            },
            old(self).state() matches Phase::AtStage(i) ==> event == Event::Ready ==> {
                &&& final(self).cycles() == old(self).cycles()
                &&& final(self).current_tier() == old(self).current_tier()
                &&& i < old(self).stage_list().len() ==> {
                    &&& (r matches Action::RunStage { stage, turn } && stage == old(
                        self,
                    ).stage_list()[i as int] && PAUSE_MIN_MS <= turn.pause_ms < PAUSE_MIN_MS
                        + PAUSE_SPAN_MS && turn_notice(
                        turn.easter_egg,
                        old(self).current_tier(),
                        old(self).scan_data(),
                        voice_templates(
                            old(self).voice(),
                            old(self).current_tier(),
                            MessageClass::EasterEgg,
                        ),
                        old(self).egg_pool(),
                    ) && turn_notice(
                        turn.warning,
                        old(self).current_tier(),
                        old(self).scan_data(),
                        voice_templates(old(self).voice(), old(self).current_tier(), MessageClass::Warning),
                        old(self).warning_pool(),
                    ))
                    &&& final(self).state() == Phase::AtStage((i + 1) as usize)
                }
                &&& i >= old(self).stage_list().len() ==> {
                    &&& (r matches Action::Complete(n) && (n matches Notice::Creepy(_)
                        ==> old(self).current_tier() != Tier::Baseline && old(self).has_scan()) && (
                    n matches Notice::Plain(x) ==> x@ == COMPLETION_LINE@) && (old(self).current_tier()
                        != Tier::Baseline && old(self).scan_data() is Some ==> offered(
                        creepy_text(n),
                        voice_templates(
                            old(self).voice(),
                            old(self).current_tier(),
                            MessageClass::Completion,
                        ),
                        old(self).scan_data()->0,
                        old(self).current_tier(),
                    )))
                    &&& final(self).state() == Phase::BetweenCycles
                }
            },
    {
        if event == Event::Cancelled || self.phase == Phase::Stopped {
            let words = self.farewell();
            self.phase = Phase::Stopped;
            return Action::Stop(words);
        }
        match self.phase {
            Phase::AtStage(i) => {
                if i < self.selected_stages.len() {
                    let stage = self.selected_stages[i];
                    let tier = self.tier;
                    let turn = self.plan_turn(tier);
                    self.phase = Phase::AtStage(i + 1);
                    Action::RunStage { stage, turn }
                } else {
                    let tier = self.tier;
                    let done = self.completion(tier);
                    self.phase = Phase::BetweenCycles;
                    Action::Complete(done)
                }
            },
            _ => {
                let start = self.begin_cycle();
                self.phase = Phase::AtStage(0);
                Action::BeginCycle(start)
            },
        }
    }
}

impl Default for Installer {
    fn default() -> (r: Self)
        ensures
            r.wf(),
            r.cycles() == 0,
            !r.has_scan(),
            r.voice() == Flavor::Opsec,
            r.stage_list().len() == 7,
    {
        Self::new(Stage::all(), None, Flavor::Opsec)
    }
}


/// At Baseline nothing personalised is ever shown: a turn's notice is none or
/// a neutral item, whatever the snapshot; the first cycle is Baseline, and is
/// not Cosmic, so it has no personalised header and no personalised farewell.
pub proof fn lemma_baseline_never_creepy(
    n: Option<Notice>,
    scan: Option<ScanResult>,
    pool: Seq<Seq<char>>,
    neutral: Seq<&'static str>,
)
    requires
        turn_notice(n, Tier::Baseline, scan, pool, neutral),
    ensures
        !(n matches Some(Notice::Creepy(_))),
        n matches Some(Notice::Plain(p)) ==> neutral.contains(p),
        tier_of(1) == Tier::Baseline,
        tier_of(1) != Tier::Cosmic,
{
}

} // verus!
