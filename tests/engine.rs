use endless_installer::escalation::{first_resolvable, zalgo_light, apply_marks, EscalationEngine};
use endless_installer::snapshot::ScanResult;
use endless_installer::templates::Flavor;
use endless_installer::tier::Tier;

const ZALGO_CHARS: &[char] = &[
    '\u{0335}', '\u{0336}', '\u{0337}', '\u{0338}', '\u{0339}', '\u{033a}', '\u{0346}', '\u{034e}',
];

fn scan_box1() -> ScanResult {
    ScanResult {
        hostname: Some("box1".to_string()),
        os_name: None,
        username: Some("al".to_string()),
        home_dir: None,
        desktop_count: None,
        downloads_count: None,
        documents_exists: false,
        project_names: Vec::new(),
        git_repos: Vec::new(),
        dotfile_names: Vec::new(),
        ssh_key_names: Vec::new(),
        browser_profiles: Vec::new(),
        cloud_configs: Vec::new(),
        env_file_count: 0,
        shell_history_lines: None,
        docker_present: false,
        files_scanned: 0,
        scan_timestamp: String::new(),
    }
}

#[test]
fn zalgo_preserves_readability() {
    let input = "Hello World";
    let output = zalgo_light(input);
    let stripped: String = output.chars().filter(|c| !ZALGO_CHARS.contains(c)).collect();
    assert_eq!(stripped, input);
}

#[test]
fn zalgo_adds_combining_chars() {
    let input = "abcdefghijklmnopqrstuvwxyz";
    let output = zalgo_light(input);
    assert!(output.len() > input.len(), "zalgo should add characters");
}

#[test]
fn apply_marks_exact() {
    assert_eq!(apply_marks("a b", &vec![0, 1, 7]), "a\u{0335} b\u{034e}");
    assert_eq!(apply_marks("ab", &vec![8, 2]), "ab\u{0337}");
    assert_eq!(apply_marks("ab", &vec![]), "ab");
}

#[test]
fn only_resolvable_template_is_always_chosen() {
    let scan = scan_box1();
    let mut engine = EscalationEngine::new(&scan, Flavor::Opsec);
    let pool = vec!["Keys: {ssh_key}", "Host {hostname} seen.", "Repo {git_repo}"];
    for _ in 0..200 {
        assert_eq!(engine.pick_and_interpolate(&pool), Some("Host box1 seen.".to_string()));
    }
}

#[test]
fn empty_pool_gives_nothing() {
    let scan = scan_box1();
    let mut engine = EscalationEngine::new(&scan, Flavor::Occult);
    for _ in 0..20 {
        assert_eq!(engine.pick_and_interpolate(&vec![]), None);
    }
    assert_eq!(engine.pick_and_interpolate(&vec!["{ssh_key}", "{cloud}"]), None);
}

#[test]
fn shuffled_order_reaches_every_template() {
    let scan = scan_box1();
    let mut engine = EscalationEngine::new(&scan, Flavor::Opsec);
    let pool = vec!["one", "two", "three"];
    let mut seen = [false; 3];
    for _ in 0..300 {
        match engine.pick_and_interpolate(&pool).as_deref() {
            Some("one") => seen[0] = true,
            Some("two") => seen[1] = true,
            Some("three") => seen[2] = true,
            other => panic!("unexpected {:?}", other),
        }
    }
    assert!(seen.iter().all(|s| *s));
}

#[test]
fn first_resolvable_follows_order() {
    let scan = scan_box1();
    let pool = vec!["{ssh_key}", "{hostname}", "{username}"];
    assert_eq!(first_resolvable(&pool, &scan, &vec![0, 2, 1]), Some(2));
    assert_eq!(first_resolvable(&pool, &scan, &vec![9, 0, 1]), Some(1));
    assert_eq!(first_resolvable(&pool, &scan, &vec![0]), None);
    assert_eq!(first_resolvable(&pool, &scan, &vec![]), None);
}

#[test]
fn baseline_selects_nothing() {
    let mut scan = scan_box1();
    scan.ssh_key_names = vec!["id_rsa".to_string()];
    scan.project_names = vec!["p".to_string()];
    for flavor in [Flavor::Opsec, Flavor::Occult] {
        let mut engine = EscalationEngine::new(&scan, flavor);
        for _ in 0..20 {
            assert_eq!(engine.select_easter_egg(Tier::Baseline), None);
            assert_eq!(engine.select_warning(Tier::Baseline), None);
            assert_eq!(engine.select_completion(Tier::Baseline), None);
            assert_eq!(engine.select_cycle_header(Tier::Baseline, 1), None);
        }
    }
}

#[test]
fn cycle_header_only_at_cosmic() {
    let scan = scan_box1();
    let mut engine = EscalationEngine::new(&scan, Flavor::Opsec);
    assert_eq!(engine.select_cycle_header(Tier::Invasive, 7), None);
    for _ in 0..20 {
        let header = engine.select_cycle_header(Tier::Cosmic, 12).expect("a header");
        assert!(!header.contains("{cycle}"));
        assert!(!header.contains('{'));
    }
}

#[test]
fn cosmic_egg_skips_templates_needing_ssh_keys() {
    let scan = scan_box1();
    for flavor in [Flavor::Opsec, Flavor::Occult] {
        let mut engine = EscalationEngine::new(&scan, flavor);
        for _ in 0..50 {
            if let Some(egg) = engine.select_easter_egg(Tier::Cosmic) {
                assert!(!egg.contains('{'));
            }
        }
    }
    let mut engine = EscalationEngine::new(&scan, Flavor::Opsec);
    let pool = vec!["Your key {ssh_key} is ours.", "{hostname} belongs to us, {username}."];
    for _ in 0..50 {
        assert_eq!(
            engine.pick_and_interpolate(&pool),
            Some("box1 belongs to us, al.".to_string())
        );
    }
}

#[test]
fn exit_message_is_resolved() {
    let scan = scan_box1();
    let mut engine = EscalationEngine::new(&scan, Flavor::Occult);
    for _ in 0..20 {
        let msg = engine.select_exit_message().expect("an exit message");
        assert!(!msg.contains('{'));
    }
}

#[test]
fn interpolate_with_random_picks_from_the_list() {
    let mut scan = scan_box1();
    scan.project_names = vec!["a".to_string(), "b".to_string()];
    let mut engine = EscalationEngine::new(&scan, Flavor::Opsec);
    for _ in 0..20 {
        let r = engine.interpolate("[{project}]").unwrap();
        assert!(r == "[a]" || r == "[b]");
    }
    assert_eq!(engine.interpolate("{dotfile}"), None);
}

fn empty_scan() -> ScanResult {
    let mut s = scan_box1();
    s.hostname = None;
    s.username = None;
    s
}

#[test]
fn cycle_ten_header_holds_the_number() {
    let scan = scan_box1();
    for flavor in [Flavor::Opsec, Flavor::Occult] {
        let mut engine = EscalationEngine::new(&scan, flavor);
        for _ in 0..20 {
            let header = engine.select_cycle_header(Tier::Cosmic, 10).expect("a header");
            assert!(header.contains("10"));
            assert!(!header.contains("{cycle}"));
        }
    }
}

#[test]
fn empty_snapshot_has_no_ambient_opsec_egg() {
    let scan = empty_scan();
    let mut engine = EscalationEngine::new(&scan, Flavor::Opsec);
    for _ in 0..50 {
        assert_eq!(engine.select_easter_egg(Tier::Ambient), None);
    }
}

#[test]
fn cosmic_pools_always_yield_for_an_empty_snapshot() {
    let scan = empty_scan();
    for flavor in [Flavor::Opsec, Flavor::Occult] {
        let mut engine = EscalationEngine::new(&scan, flavor);
        for _ in 0..20 {
            assert!(engine.select_easter_egg(Tier::Cosmic).is_some());
            let done = engine.select_completion(Tier::Cosmic).expect("a completion line");
            assert!(!done.contains('{'));
            assert!(engine.select_exit_message().is_some());
        }
    }
}

#[test]
fn exit_without_user_name() {
    let scan = empty_scan();
    let mut engine = EscalationEngine::new(&scan, Flavor::Opsec);
    for _ in 0..30 {
        let msg = engine.select_exit_message().unwrap();
        assert!(
            msg == "Exiting... but the data persists. It always persists."
                || msg == "^C received. How quaint. The process is not what you think it is."
        );
    }
}

#[test]
fn white_space_gets_no_mark() {
    assert_eq!(apply_marks("\u{a0}x\t\u{3000}", &vec![0, 0, 0, 0]), "\u{a0}x\u{0335}\t\u{3000}");
}
