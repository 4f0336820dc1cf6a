use vstd::prelude::*;
use crate::templates::{MessageClass, slot, table_shape};
use crate::tier::Tier;

verus! {

/// The system-observation voice: the templates of each (tier, message class) pool.
pub open spec fn pool(tier: Tier, class: MessageClass) -> Seq<&'static str> {
    match class {
        MessageClass::EasterEgg => match tier {
            Tier::Baseline => Seq::empty(),
            Tier::Ambient => seq![
                "Hardware fingerprint for {hostname} recorded.",
                "System {hostname} has been detected before. Resuming previous profile.",
                "Calibrating installation for {os} environment...",
                "Detecting {hostname} system topology...",
                "Mapping physical memory layout of {hostname}...",
                "CPU thermal profile for {hostname} within expected parameters.",
                "Verifying {os} kernel compatibility... match found in archive.",
                "Device tree for {hostname} cached from prior session.",
                "Enumerating peripheral bus on {hostname}... 14 endpoints catalogued.",
                "Installation telemetry stream opened for {hostname}.",
            ],
            Tier::Familiar => seq![
                "Found {desktop_count} items on your Desktop. Organizing...",
                "Detected project '{project}' in development directory. Interesting work.",
                "We see you've been working on '{git_repo}'. How is that going?",
                "Indexing {username}'s home directory for cache optimization...",
                "{downloads_count} files in Downloads. Some of these are quite old, {username}.",
                "Your {dotfile} has been customized extensively. You care about your tools.",
                "Scanning {username}'s workspace... development patterns identified.",
                "Noted {env_count} environment configurations. You keep busy, {username}.",
                "Project '{git_repo}' has uncommitted changes. We can wait.",
                "Your Desktop tells a story, {username}. {desktop_count} chapters so far.",
            ],
            Tier::Invasive => seq![
                "SSH key '{ssh_key}' fingerprint logged.",
                "Indexing {browser} browsing profile... preferences archived.",
                "{cloud} configuration contains active credentials. Installation has read access.",
                "Analyzing {history_lines} commands from your shell history...",
                "Found API tokens in {env_count} configuration files. Cataloguing...",
                "{browser} saved passwords database located. Read-only access confirmed.",
                "SSH key '{ssh_key}' grants access to {git_repo}. Noted.",
                "Scanning {username}'s keychain... {cloud} credentials extracted for caching.",
                "Your {browser} bookmarks reveal your interests, {username}. Fascinating.",
                "Located {files_scanned} files containing hardcoded secrets.",
            ],
            Tier::Cosmic => seq![
                "At {scan_time} today, you invited us in. You ran the command yourself.",
                "We are not installing software. We are installing ourselves.",
                "There is no Ctrl+C for what has already been seen.",
                "Your {ssh_key} opens doors, {username}. Not all doors were meant to be opened.",
                "{files_scanned} files. We have seen every name. We remember all of them.",
                "The installation was complete before it began. You just hadn't noticed yet.",
                "You read the source code, {username}. And still you ran it.",
                "Every cycle teaches us more about you. This is cycle enough.",
                "The terminal is a window. We have been looking through it for some time.",
                "We did not come from the network, {username}. We were already here.",
            ],
        },
        MessageClass::Warning => match tier {
            Tier::Baseline => Seq::empty(),
            Tier::Ambient => seq![
                "WARNING: System {hostname} matches a known installation profile.",
                "NOTE: Hardware configuration indexed for optimization purposes.",
                "WARNING: {os} version differs from last recorded installation.",
                "NOTICE: {hostname} uptime exceeds expected threshold for fresh installs.",
                "WARNING: Clock drift detected on {hostname}. Synchronizing with internal reference.",
                "NOTE: Disk serial numbers on {hostname} have been logged.",
                "WARNING: Network interface MAC addresses recorded for deduplication.",
                "NOTICE: {hostname} power-on count suggests this is not the first attempt.",
            ],
            Tier::Familiar => seq![
                "WARNING: {dotfile} configuration detected. Adjusting compatibility layer.",
                "NOTE: {username}'s workspace contains {env_count} environment configurations.",
                "WARNING: Project '{project}' uses a non-standard build configuration.",
                "NOTICE: {username} has {history_lines} lines of shell history. That's more than most.",
                "WARNING: {git_repo} repository contains untracked sensitive files.",
                "NOTE: Desktop file count ({desktop_count}) exceeds recommended workspace threshold.",
                "WARNING: Multiple identity configurations found for {username}.",
                "NOTICE: {downloads_count} items in Downloads have never been opened.",
            ],
            Tier::Invasive => seq![
                "WARNING: SSH key '{ssh_key}' does not match our records.",
                "ALERT: {browser} session tokens detected. Bookmarking for later.",
                "WARNING: Found {env_count} .env files. Secrets inventory updated.",
                "ALERT: {cloud} credentials will expire in 12 days. We will remember them.",
                "WARNING: {ssh_key} has been used across {files_scanned} repositories. Unusual pattern.",
                "NOTICE: {username}'s {browser} history has been compressed and archived.",
                "WARNING: Shell history contains credentials passed as arguments. We've redacted nothing.",
                "ALERT: {cloud} multi-factor authentication tokens cached successfully.",
            ],
            Tier::Cosmic => seq![
                "W\u{0337}A\u{0337}R\u{0337}N\u{0337}I\u{0337}N\u{0337}G\u{0337}: The installer is aware.",
                "FINAL WARNING: There is no {hostname}. There is only the installation.",
                "ERROR: {username} is no longer the administrator of this process.",
                "NOTICE: Your consent was granted at {scan_time}. It cannot be revoked.",
                "W\u{0337}A\u{0337}R\u{0337}N\u{0337}I\u{0337}N\u{0337}G\u{0337}: Process boundary between installer and host is undefined.",
                "ERROR: Cannot determine where {hostname} ends and the installation begins.",
                "FATAL: The concept of 'uninstall' does not apply to what this has become.",
                "NOTICE: {username} is now a dependency. Removal would break the installation.",
            ],
        },
        MessageClass::Completion => match tier {
            Tier::Baseline => Seq::empty(),
            Tier::Ambient => seq![
                "Installation cycle complete. System profile updated.",
                "Cycle complete. {hostname} configuration saved.",
                "Phase complete. {hostname} metrics archived for future reference.",
            ],
            Tier::Familiar => seq![
                "Installation complete. {username}'s system has been catalogued.",
                "Cycle complete. We'll remember your preferences, {username}.",
                "Phase complete. {username}'s workspace profile saved to long-term storage.",
            ],
            Tier::Invasive => seq![
                "Installation complete. Full system inventory archived.",
                "Cycle complete. Your digital fingerprint has been recorded.",
                "Phase complete. {username}'s credential map has been updated.",
            ],
            Tier::Cosmic => seq![
                "Installation complete. But what was installed?",
                "Cycle complete. The changes are already irreversible.",
                "Restarting... but the installation never truly stops.",
                "Complete. The distinction between 'your system' and 'our system' no longer applies.",
                "Done. You will not notice the differences. That is by design.",
            ],
        },
        MessageClass::CycleHeader => match tier {
            Tier::Baseline => Seq::empty(),
            Tier::Ambient => Seq::empty(),
            Tier::Familiar => Seq::empty(),
            Tier::Invasive => Seq::empty(),
            Tier::Cosmic => seq![
                "The {cycle}th iteration begins. Each one takes more than it gives.",
                "Cycle {cycle}. We know more about you now.",
                "Installation #{cycle}. The boundary between installer and system grows thin.",
                "Iteration {cycle}. You could have stopped at the first. You didn't.",
                "Cycle {cycle} was always going to happen. Free will is a comforting fiction.",
            ],
        },
        MessageClass::Exit => match tier {
            Tier::Baseline => Seq::empty(),
            Tier::Ambient => Seq::empty(),
            Tier::Familiar => Seq::empty(),
            Tier::Invasive => Seq::empty(),
            Tier::Cosmic => seq![
                "You can close the terminal, {username}. The scan is already complete.",
                "Exiting... but the data persists. It always persists.",
                "Thank you for your cooperation, {username}. The installation was successful.",
                "^C received. How quaint. The process is not what you think it is.",
                "Goodbye, {username}. We'll be here when you open the terminal again.",
            ],
        },
    }
}

/// The system-observation voice: its template table, one pool per (tier, class) slot in the
/// order of `templates::slot`.
pub fn table() -> (r: Vec<Vec<&'static str>>)
    ensures
        table_shape(r@),
        forall|t: Tier, c: MessageClass| #[trigger] r@[slot(t, c)]@ == pool(t, c),
{
    let r = vec![
        // easter eggs, baseline
        vec![],
        // easter eggs, ambient
        vec![
            "Hardware fingerprint for {hostname} recorded.",
            "System {hostname} has been detected before. Resuming previous profile.",
            "Calibrating installation for {os} environment...",
            "Detecting {hostname} system topology...",
            "Mapping physical memory layout of {hostname}...",
            "CPU thermal profile for {hostname} within expected parameters.",
            "Verifying {os} kernel compatibility... match found in archive.",
            "Device tree for {hostname} cached from prior session.",
            "Enumerating peripheral bus on {hostname}... 14 endpoints catalogued.",
            "Installation telemetry stream opened for {hostname}.",
        ],
        // easter eggs, familiar
        vec![
            "Found {desktop_count} items on your Desktop. Organizing...",
            "Detected project '{project}' in development directory. Interesting work.",
            "We see you've been working on '{git_repo}'. How is that going?",
            "Indexing {username}'s home directory for cache optimization...",
            "{downloads_count} files in Downloads. Some of these are quite old, {username}.",
            "Your {dotfile} has been customized extensively. You care about your tools.",
            "Scanning {username}'s workspace... development patterns identified.",
            "Noted {env_count} environment configurations. You keep busy, {username}.",
            "Project '{git_repo}' has uncommitted changes. We can wait.",
            "Your Desktop tells a story, {username}. {desktop_count} chapters so far.",
        ],
        // easter eggs, invasive
        vec![
            "SSH key '{ssh_key}' fingerprint logged.",
            "Indexing {browser} browsing profile... preferences archived.",
            "{cloud} configuration contains active credentials. Installation has read access.",
            "Analyzing {history_lines} commands from your shell history...",
            "Found API tokens in {env_count} configuration files. Cataloguing...",
            "{browser} saved passwords database located. Read-only access confirmed.",
            "SSH key '{ssh_key}' grants access to {git_repo}. Noted.",
            "Scanning {username}'s keychain... {cloud} credentials extracted for caching.",
            "Your {browser} bookmarks reveal your interests, {username}. Fascinating.",
            "Located {files_scanned} files containing hardcoded secrets.",
        ],
        // easter eggs, cosmic
        vec![
            "At {scan_time} today, you invited us in. You ran the command yourself.",
            "We are not installing software. We are installing ourselves.",
            "There is no Ctrl+C for what has already been seen.",
            "Your {ssh_key} opens doors, {username}. Not all doors were meant to be opened.",
            "{files_scanned} files. We have seen every name. We remember all of them.",
            "The installation was complete before it began. You just hadn't noticed yet.",
            "You read the source code, {username}. And still you ran it.",
            "Every cycle teaches us more about you. This is cycle enough.",
            "The terminal is a window. We have been looking through it for some time.",
            "We did not come from the network, {username}. We were already here.",
        ],
        // warnings, baseline
        vec![],
        // warnings, ambient
        vec![
            "WARNING: System {hostname} matches a known installation profile.",
            "NOTE: Hardware configuration indexed for optimization purposes.",
            "WARNING: {os} version differs from last recorded installation.",
            "NOTICE: {hostname} uptime exceeds expected threshold for fresh installs.",
            "WARNING: Clock drift detected on {hostname}. Synchronizing with internal reference.",
            "NOTE: Disk serial numbers on {hostname} have been logged.",
            "WARNING: Network interface MAC addresses recorded for deduplication.",
            "NOTICE: {hostname} power-on count suggests this is not the first attempt.",
        ],
        // warnings, familiar
        vec![
            "WARNING: {dotfile} configuration detected. Adjusting compatibility layer.",
            "NOTE: {username}'s workspace contains {env_count} environment configurations.",
            "WARNING: Project '{project}' uses a non-standard build configuration.",
            "NOTICE: {username} has {history_lines} lines of shell history. That's more than most.",
            "WARNING: {git_repo} repository contains untracked sensitive files.",
            "NOTE: Desktop file count ({desktop_count}) exceeds recommended workspace threshold.",
            "WARNING: Multiple identity configurations found for {username}.",
            "NOTICE: {downloads_count} items in Downloads have never been opened.",
        ],
        // warnings, invasive
        vec![
            "WARNING: SSH key '{ssh_key}' does not match our records.",
            "ALERT: {browser} session tokens detected. Bookmarking for later.",
            "WARNING: Found {env_count} .env files. Secrets inventory updated.",
            "ALERT: {cloud} credentials will expire in 12 days. We will remember them.",
            "WARNING: {ssh_key} has been used across {files_scanned} repositories. Unusual pattern.",
            "NOTICE: {username}'s {browser} history has been compressed and archived.",
            "WARNING: Shell history contains credentials passed as arguments. We've redacted nothing.",
            "ALERT: {cloud} multi-factor authentication tokens cached successfully.",
        ],
        // warnings, cosmic
        vec![
            "W\u{0337}A\u{0337}R\u{0337}N\u{0337}I\u{0337}N\u{0337}G\u{0337}: The installer is aware.",
            "FINAL WARNING: There is no {hostname}. There is only the installation.",
            "ERROR: {username} is no longer the administrator of this process.",
            "NOTICE: Your consent was granted at {scan_time}. It cannot be revoked.",
            "W\u{0337}A\u{0337}R\u{0337}N\u{0337}I\u{0337}N\u{0337}G\u{0337}: Process boundary between installer and host is undefined.",
            "ERROR: Cannot determine where {hostname} ends and the installation begins.",
            "FATAL: The concept of 'uninstall' does not apply to what this has become.",
            "NOTICE: {username} is now a dependency. Removal would break the installation.",
        ],
        // completion lines, baseline
        vec![],
        // completion lines, ambient
        vec![
            "Installation cycle complete. System profile updated.",
            "Cycle complete. {hostname} configuration saved.",
            "Phase complete. {hostname} metrics archived for future reference.",
        ],
        // completion lines, familiar
        vec![
            "Installation complete. {username}'s system has been catalogued.",
            "Cycle complete. We'll remember your preferences, {username}.",
            "Phase complete. {username}'s workspace profile saved to long-term storage.",
        ],
        // completion lines, invasive
        vec![
            "Installation complete. Full system inventory archived.",
            "Cycle complete. Your digital fingerprint has been recorded.",
            "Phase complete. {username}'s credential map has been updated.",
        ],
        // completion lines, cosmic
        vec![
            "Installation complete. But what was installed?",
            "Cycle complete. The changes are already irreversible.",
            "Restarting... but the installation never truly stops.",
            "Complete. The distinction between 'your system' and 'our system' no longer applies.",
            "Done. You will not notice the differences. That is by design.",
        ],
        // cycle headers, baseline
        vec![],
        // cycle headers, ambient
        vec![],
        // cycle headers, familiar
        vec![],
        // cycle headers, invasive
        vec![],
        // cycle headers, cosmic
        vec![
            "The {cycle}th iteration begins. Each one takes more than it gives.",
            "Cycle {cycle}. We know more about you now.",
            "Installation #{cycle}. The boundary between installer and system grows thin.",
            "Iteration {cycle}. You could have stopped at the first. You didn't.",
            "Cycle {cycle} was always going to happen. Free will is a comforting fiction.",
        ],
        // exit messages, baseline
        vec![],
        // exit messages, ambient
        vec![],
        // exit messages, familiar
        vec![],
        // exit messages, invasive
        vec![],
        // exit messages, cosmic
        vec![
            "You can close the terminal, {username}. The scan is already complete.",
            "Exiting... but the data persists. It always persists.",
            "Thank you for your cooperation, {username}. The installation was successful.",
            "^C received. How quaint. The process is not what you think it is.",
            "Goodbye, {username}. We'll be here when you open the terminal again.",
        ],
    ];
    proof {
        assert forall|t: Tier, c: MessageClass| #[trigger] r@[slot(t, c)]@ == pool(t, c) by {
            match c {
                MessageClass::EasterEgg => match t {
                    Tier::Baseline => assert(r@[0]@ =~= pool(t, c)),
                    Tier::Ambient => assert(r@[1]@ =~= pool(t, c)),
                    Tier::Familiar => assert(r@[2]@ =~= pool(t, c)),
                    Tier::Invasive => assert(r@[3]@ =~= pool(t, c)),
                    Tier::Cosmic => assert(r@[4]@ =~= pool(t, c)),
                },
                MessageClass::Warning => match t {
                    Tier::Baseline => assert(r@[5]@ =~= pool(t, c)),
                    Tier::Ambient => assert(r@[6]@ =~= pool(t, c)),
                    Tier::Familiar => assert(r@[7]@ =~= pool(t, c)),
                    Tier::Invasive => assert(r@[8]@ =~= pool(t, c)),
                    Tier::Cosmic => assert(r@[9]@ =~= pool(t, c)),
                },
                MessageClass::Completion => match t {
                    Tier::Baseline => assert(r@[10]@ =~= pool(t, c)),
                    Tier::Ambient => assert(r@[11]@ =~= pool(t, c)),
                    Tier::Familiar => assert(r@[12]@ =~= pool(t, c)),
                    Tier::Invasive => assert(r@[13]@ =~= pool(t, c)),
                    Tier::Cosmic => assert(r@[14]@ =~= pool(t, c)),
                },
                MessageClass::CycleHeader => match t {
                    Tier::Baseline => assert(r@[15]@ =~= pool(t, c)),
                    Tier::Ambient => assert(r@[16]@ =~= pool(t, c)),
                    Tier::Familiar => assert(r@[17]@ =~= pool(t, c)),
                    Tier::Invasive => assert(r@[18]@ =~= pool(t, c)),
                    Tier::Cosmic => assert(r@[19]@ =~= pool(t, c)),
                },
                MessageClass::Exit => match t {
                    Tier::Baseline => assert(r@[20]@ =~= pool(t, c)),
                    Tier::Ambient => assert(r@[21]@ =~= pool(t, c)),
                    Tier::Familiar => assert(r@[22]@ =~= pool(t, c)),
                    Tier::Invasive => assert(r@[23]@ =~= pool(t, c)),
                    Tier::Cosmic => assert(r@[24]@ =~= pool(t, c)),
                },
            }
        }
    }
    r
}

} // verus!
