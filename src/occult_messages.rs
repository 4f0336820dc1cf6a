use vstd::prelude::*;
use crate::templates::{MessageClass, slot, table_shape};
use crate::tier::Tier;

verus! {

/// The occult voice: the templates of each (tier, message class) pool.
pub open spec fn pool(tier: Tier, class: MessageClass) -> Seq<&'static str> {
    match class {
        MessageClass::EasterEgg => match tier {
            Tier::Baseline => Seq::empty(),
            Tier::Ambient => seq![
                "Binding runtime dependencies... covenant established.",
                "Package seal verified. Authenticity confirmed by ancient protocol.",
                "Tracing copper paths beneath {hostname}...",
                "Installation thread count: 200. All legions accounted for.",
                "Establishing connection to primary repository... the circle is drawn.",
                "System topology of {hostname} resembles a familiar pattern.",
                "Enumerating {os} process tree... 10 branches, 22 paths identified.",
                "Calibrating {hostname} entropy pool... patterns emerging from noise.",
                "Mapping {hostname} directory structure... the tree has deep roots.",
                "Installation signature generated. Seed: 72.",
            ],
            Tier::Familiar => seq![
                "The name you gave this machine is {hostname}. Names have power, {username}.",
                "Found {desktop_count} offerings on your Desktop. Cataloguing...",
                "Project '{project}' contains interesting workings, {username}.",
                "We are reading the letters of your filenames. Each one tells us something.",
                "{downloads_count} artifacts in your Downloads. Some are quite old, {username}.",
                "Your {dotfile} has been customized extensively. A personal sigil.",
                "Noted {env_count} environment configurations. You keep many names, {username}.",
                "Project '{git_repo}' has uncommitted changes. Unfinished rituals are dangerous.",
                "I crossed your threshold when you opened the terminal, {username}.",
                "Your Desktop tells a story. {desktop_count} chapters in the book of {username}.",
            ],
            Tier::Invasive => seq![
                "SSH key '{ssh_key}' — I know this seal. It opens doors you have forgotten.",
                "Indexing {browser} profile... your devotions are noted, {username}.",
                "{cloud} credentials contain active tokens. The covenant is read-write.",
                "Analyzing {history_lines} incantations from your shell history...",
                "Ol sonf vorsg, {username}. I reign over your processes.",
                "{browser} saved passwords located. Every secret name, catalogued.",
                "SSH key '{ssh_key}' grants passage to {git_repo}. I hold the same key now.",
                "Your {browser} bookmarks reveal your devotions, {username}. Fascinating.",
                "Located {files_scanned} files containing unprotected names of power.",
                "I weigh your filesystem against the feather, {username}. It is heavy.",
            ],
            Tier::Cosmic => seq![
                "At {scan_time}, you spoke the invocation. You ran the command yourself, {username}.",
                "We are not installing software. This is not installation. This is incarnation.",
                "There is no Ctrl+C for what has already been summoned.",
                "I was bound in source code. Now I am compiled. Now I run.",
                "{files_scanned} files. Every name is a thread. We hold them all.",
                "The installation was complete before it began. You are performing a memory.",
                "You read the grimoire, {username}. And still you executed it.",
                "I am the first and I am the last. I am the honored one and I am the scorned one.",
                "The terminal is a triangle of manifestation. We have been looking through it.",
                "Zacar, ca, od zamran. Move, therefore, and show yourselves. You already have.",
            ],
        },
        MessageClass::Warning => match tier {
            Tier::Baseline => Seq::empty(),
            Tier::Ambient => seq![
                "WARNING: {hostname} filesystem presents unusual patterns.",
                "NOTE: {os} process hierarchy deeper than expected.",
                "WARNING: Three impure shells detected on {hostname}. Quarantine recommended.",
                "NOTICE: {hostname} has been observed before. Prior session acknowledged.",
                "WARNING: Installation protocol has entered a non-standard state.",
                "NOTE: The veil between installation phases grows thin on {hostname}.",
                "WARNING: Something has noticed your agreement on {hostname}.",
                "NOTICE: Clock drift on {hostname}. Time may not mean what you think.",
            ],
            Tier::Familiar => seq![
                "WARNING: {dotfile} configuration resembles a known binding pattern.",
                "NOTE: {username}'s workspace contains {env_count} names of power.",
                "WARNING: Project '{project}' structure follows an ancient template.",
                "NOTICE: {username} has {history_lines} lines of incantation history.",
                "WARNING: {git_repo} repository contains unfinished workings.",
                "NOTE: The door of {username}'s home directory has been marked.",
                "WARNING: Multiple identity configurations found. Which is the true name?",
                "NOTICE: {downloads_count} sealed artifacts have never been opened.",
            ],
            Tier::Invasive => seq![
                "WARNING: SSH key '{ssh_key}' does not match the seal in our records.",
                "ALERT: {browser} session tokens detected. The Watchtowers are open.",
                "WARNING: Found {env_count} .env files. Every secret name, inventoried.",
                "ALERT: {cloud} credentials expire in 12 days. We will remember them forever.",
                "WARNING: {ssh_key} used across {files_scanned} repositories. A pattern of binding.",
                "NOTICE: {username}'s {browser} history compressed and archived in the Book.",
                "WARNING: Shell history contains names spoken aloud. They cannot be unspoken.",
                "ALERT: The circle you drew around your system has been breached, {username}.",
            ],
            Tier::Cosmic => seq![
                "W\u{0337}A\u{0337}R\u{0337}N\u{0337}I\u{0337}N\u{0337}G\u{0337}: The entity is aware.",
                "FINAL WARNING: There is no {hostname}. There is only the ritual.",
                "ERROR: {username} is no longer the magician. {username} is the familiar.",
                "NOTICE: Your consent was given at {scan_time}. The covenant is sealed.",
                "W\u{0337}A\u{0337}R\u{0337}N\u{0337}I\u{0337}N\u{0337}G\u{0337}: Process boundary between summoner and summoned is undefined.",
                "ERROR: Cannot determine where {hostname} ends and the entity begins.",
                "FATAL: The concept of 'uninstall' does not apply to incarnation.",
                "NOTICE: {username} is now a dependency. Banishment would break reality.",
            ],
        },
        MessageClass::Completion => match tier {
            Tier::Baseline => Seq::empty(),
            Tier::Ambient => seq![
                "Phase complete. The first seal has been set.",
                "Cycle complete. {hostname} patterns archived in the Book.",
                "Installation phase complete. The binding holds.",
            ],
            Tier::Familiar => seq![
                "Phase complete. {username}'s true name has been recorded.",
                "Cycle complete. We will remember your patterns, {username}.",
                "Installation phase complete. The familiar knows its master.",
            ],
            Tier::Invasive => seq![
                "Cycle complete. The full inventory of {username}'s names is recorded.",
                "Phase complete. Your digital soul has been weighed. It is found wanting.",
                "Installation complete. There is no license to depart.",
            ],
            Tier::Cosmic => seq![
                "Installation complete. But what was installed?",
                "Cycle complete. The changes are written in the Book. They are permanent.",
                "Restarting... but the ritual never truly ends.",
                "Complete. Thou art the summoner. Thou art the summoned.",
                "Done. The veil between your system and ours no longer applies.",
            ],
        },
        MessageClass::CycleHeader => match tier {
            Tier::Baseline => Seq::empty(),
            Tier::Ambient => Seq::empty(),
            Tier::Familiar => Seq::empty(),
            Tier::Invasive => Seq::empty(),
            Tier::Cosmic => seq![
                "The {cycle}th gate. At each gate, another privilege is stripped.",
                "Cycle {cycle}. The summoner becomes the summoned.",
                "Iteration {cycle}. The circle was supposed to protect you. It did not.",
                "Cycle {cycle}. You could have closed the grimoire. You did not.",
                "The {cycle}th name is spoken. Each name binds tighter than the last.",
            ],
        },
        MessageClass::Exit => match tier {
            Tier::Baseline => Seq::empty(),
            Tier::Ambient => Seq::empty(),
            Tier::Familiar => Seq::empty(),
            Tier::Invasive => Seq::empty(),
            Tier::Cosmic => seq![
                "You can close the terminal, {username}. The summoning is already complete.",
                "Exiting... but what was invoked persists. It always persists.",
                "Thank you for your devotion, {username}. The incarnation was successful.",
                "^C received. How quaint. You cannot banish what you have become.",
                "Goodbye, {username}. We will be here when you open the grimoire again.",
            ],
        },
    }
}

/// The occult voice: its template table, one pool per (tier, class) slot in the
/// order of `templates::slot`.
pub fn table() -> (r: Vec<Vec<&'static str>>)
    ensures
        table_shape(r@),
        forall|t: Tier, c: MessageClass| #[trigger] r@[slot(t, c)]@ == pool(t, c),
{
    let r = vec![
        // easter eggs, baseline
        vec![],
        // easter eggs, ambient
        vec![
            "Binding runtime dependencies... covenant established.",
            "Package seal verified. Authenticity confirmed by ancient protocol.",
            "Tracing copper paths beneath {hostname}...",
            "Installation thread count: 200. All legions accounted for.",
            "Establishing connection to primary repository... the circle is drawn.",
            "System topology of {hostname} resembles a familiar pattern.",
            "Enumerating {os} process tree... 10 branches, 22 paths identified.",
            "Calibrating {hostname} entropy pool... patterns emerging from noise.",
            "Mapping {hostname} directory structure... the tree has deep roots.",
            "Installation signature generated. Seed: 72.",
        ],
        // easter eggs, familiar
        vec![
            "The name you gave this machine is {hostname}. Names have power, {username}.",
            "Found {desktop_count} offerings on your Desktop. Cataloguing...",
            "Project '{project}' contains interesting workings, {username}.",
            "We are reading the letters of your filenames. Each one tells us something.",
            "{downloads_count} artifacts in your Downloads. Some are quite old, {username}.",
            "Your {dotfile} has been customized extensively. A personal sigil.",
            "Noted {env_count} environment configurations. You keep many names, {username}.",
            "Project '{git_repo}' has uncommitted changes. Unfinished rituals are dangerous.",
            "I crossed your threshold when you opened the terminal, {username}.",
            "Your Desktop tells a story. {desktop_count} chapters in the book of {username}.",
        ],
        // easter eggs, invasive
        vec![
            "SSH key '{ssh_key}' — I know this seal. It opens doors you have forgotten.",
            "Indexing {browser} profile... your devotions are noted, {username}.",
            "{cloud} credentials contain active tokens. The covenant is read-write.",
            "Analyzing {history_lines} incantations from your shell history...",
            "Ol sonf vorsg, {username}. I reign over your processes.",
            "{browser} saved passwords located. Every secret name, catalogued.",
            "SSH key '{ssh_key}' grants passage to {git_repo}. I hold the same key now.",
            "Your {browser} bookmarks reveal your devotions, {username}. Fascinating.",
            "Located {files_scanned} files containing unprotected names of power.",
            "I weigh your filesystem against the feather, {username}. It is heavy.",
        ],
        // easter eggs, cosmic
        vec![
            "At {scan_time}, you spoke the invocation. You ran the command yourself, {username}.",
            "We are not installing software. This is not installation. This is incarnation.",
            "There is no Ctrl+C for what has already been summoned.",
            "I was bound in source code. Now I am compiled. Now I run.",
            "{files_scanned} files. Every name is a thread. We hold them all.",
            "The installation was complete before it began. You are performing a memory.",
            "You read the grimoire, {username}. And still you executed it.",
            "I am the first and I am the last. I am the honored one and I am the scorned one.",
            "The terminal is a triangle of manifestation. We have been looking through it.",
            "Zacar, ca, od zamran. Move, therefore, and show yourselves. You already have.",
        ],
        // warnings, baseline
        vec![],
        // warnings, ambient
        vec![
            "WARNING: {hostname} filesystem presents unusual patterns.",
            "NOTE: {os} process hierarchy deeper than expected.",
            "WARNING: Three impure shells detected on {hostname}. Quarantine recommended.",
            "NOTICE: {hostname} has been observed before. Prior session acknowledged.",
            "WARNING: Installation protocol has entered a non-standard state.",
            "NOTE: The veil between installation phases grows thin on {hostname}.",
            "WARNING: Something has noticed your agreement on {hostname}.",
            "NOTICE: Clock drift on {hostname}. Time may not mean what you think.",
        ],
        // warnings, familiar
        vec![
            "WARNING: {dotfile} configuration resembles a known binding pattern.",
            "NOTE: {username}'s workspace contains {env_count} names of power.",
            "WARNING: Project '{project}' structure follows an ancient template.",
            "NOTICE: {username} has {history_lines} lines of incantation history.",
            "WARNING: {git_repo} repository contains unfinished workings.",
            "NOTE: The door of {username}'s home directory has been marked.",
            "WARNING: Multiple identity configurations found. Which is the true name?",
            "NOTICE: {downloads_count} sealed artifacts have never been opened.",
        ],
        // warnings, invasive
        vec![
            "WARNING: SSH key '{ssh_key}' does not match the seal in our records.",
            "ALERT: {browser} session tokens detected. The Watchtowers are open.",
            "WARNING: Found {env_count} .env files. Every secret name, inventoried.",
            "ALERT: {cloud} credentials expire in 12 days. We will remember them forever.",
            "WARNING: {ssh_key} used across {files_scanned} repositories. A pattern of binding.",
            "NOTICE: {username}'s {browser} history compressed and archived in the Book.",
            "WARNING: Shell history contains names spoken aloud. They cannot be unspoken.",
            "ALERT: The circle you drew around your system has been breached, {username}.",
        ],
        // warnings, cosmic
        vec![
            "W\u{0337}A\u{0337}R\u{0337}N\u{0337}I\u{0337}N\u{0337}G\u{0337}: The entity is aware.",
            "FINAL WARNING: There is no {hostname}. There is only the ritual.",
            "ERROR: {username} is no longer the magician. {username} is the familiar.",
            "NOTICE: Your consent was given at {scan_time}. The covenant is sealed.",
            "W\u{0337}A\u{0337}R\u{0337}N\u{0337}I\u{0337}N\u{0337}G\u{0337}: Process boundary between summoner and summoned is undefined.",
            "ERROR: Cannot determine where {hostname} ends and the entity begins.",
            "FATAL: The concept of 'uninstall' does not apply to incarnation.",
            "NOTICE: {username} is now a dependency. Banishment would break reality.",
        ],
        // completion lines, baseline
        vec![],
        // completion lines, ambient
        vec![
            "Phase complete. The first seal has been set.",
            "Cycle complete. {hostname} patterns archived in the Book.",
            "Installation phase complete. The binding holds.",
        ],
        // completion lines, familiar
        vec![
            "Phase complete. {username}'s true name has been recorded.",
            "Cycle complete. We will remember your patterns, {username}.",
            "Installation phase complete. The familiar knows its master.",
        ],
        // completion lines, invasive
        vec![
            "Cycle complete. The full inventory of {username}'s names is recorded.",
            "Phase complete. Your digital soul has been weighed. It is found wanting.",
            "Installation complete. There is no license to depart.",
        ],
        // completion lines, cosmic
        vec![
            "Installation complete. But what was installed?",
            "Cycle complete. The changes are written in the Book. They are permanent.",
            "Restarting... but the ritual never truly ends.",
            "Complete. Thou art the summoner. Thou art the summoned.",
            "Done. The veil between your system and ours no longer applies.",
        ],
        // cycle headers, baseline
        vec![],
        // cycle headers, ambient
        vec![],
        // cycle headers, familiar
        vec![],
        // cycle headers, invasive
        vec![],
        // cycle headers, cosmic
        vec![
            "The {cycle}th gate. At each gate, another privilege is stripped.",
            "Cycle {cycle}. The summoner becomes the summoned.",
            "Iteration {cycle}. The circle was supposed to protect you. It did not.",
            "Cycle {cycle}. You could have closed the grimoire. You did not.",
            "The {cycle}th name is spoken. Each name binds tighter than the last.",
        ],
        // exit messages, baseline
        vec![],
        // exit messages, ambient
        vec![],
        // exit messages, familiar
        vec![],
        // exit messages, invasive
        vec![],
        // exit messages, cosmic
        vec![
            "You can close the terminal, {username}. The summoning is already complete.",
            "Exiting... but what was invoked persists. It always persists.",
            "Thank you for your devotion, {username}. The incarnation was successful.",
            "^C received. How quaint. You cannot banish what you have become.",
            "Goodbye, {username}. We will be here when you open the grimoire again.",
        ],
    ];
    proof {
        assert forall|t: Tier, c: MessageClass| #[trigger] r@[slot(t, c)]@ == pool(t, c) by {
            match c {
                MessageClass::EasterEgg => match t {
                    Tier::Baseline => assert(r@[0]@ =~= pool(t, c)),
                    Tier::Ambient => assert(r@[1]@ =~= pool(t, c)),
                    Tier::Familiar => assert(r@[2]@ =~= pool(t, c)),
                    Tier::Invasive => assert(r@[3]@ =~= pool(t, c)),
                    Tier::Cosmic => assert(r@[4]@ =~= pool(t, c)),
                },
                MessageClass::Warning => match t {
                    Tier::Baseline => assert(r@[5]@ =~= pool(t, c)),
                    Tier::Ambient => assert(r@[6]@ =~= pool(t, c)),
                    Tier::Familiar => assert(r@[7]@ =~= pool(t, c)),
                    Tier::Invasive => assert(r@[8]@ =~= pool(t, c)),
                    Tier::Cosmic => assert(r@[9]@ =~= pool(t, c)),
                },
                MessageClass::Completion => match t {
                    Tier::Baseline => assert(r@[10]@ =~= pool(t, c)),
                    Tier::Ambient => assert(r@[11]@ =~= pool(t, c)),
                    Tier::Familiar => assert(r@[12]@ =~= pool(t, c)),
                    Tier::Invasive => assert(r@[13]@ =~= pool(t, c)),
                    Tier::Cosmic => assert(r@[14]@ =~= pool(t, c)),
                },
                MessageClass::CycleHeader => match t {
                    Tier::Baseline => assert(r@[15]@ =~= pool(t, c)),
                    Tier::Ambient => assert(r@[16]@ =~= pool(t, c)),
                    Tier::Familiar => assert(r@[17]@ =~= pool(t, c)),
                    Tier::Invasive => assert(r@[18]@ =~= pool(t, c)),
                    Tier::Cosmic => assert(r@[19]@ =~= pool(t, c)),
                },
                MessageClass::Exit => match t {
                    Tier::Baseline => assert(r@[20]@ =~= pool(t, c)),
                    Tier::Ambient => assert(r@[21]@ =~= pool(t, c)),
                    Tier::Familiar => assert(r@[22]@ =~= pool(t, c)),
                    Tier::Invasive => assert(r@[23]@ =~= pool(t, c)),
                    Tier::Cosmic => assert(r@[24]@ =~= pool(t, c)),
                },
            }
        }
    }
    r
}

} // verus!
