use endless_installer::installer::{
    choose_notice, plain_header_text, Action, Event, Header, Installer, Notice, Phase, Stage,
    COMPLETION_LINE, PAUSE_MIN_MS, PAUSE_SPAN_MS,
};
use endless_installer::messages;
use endless_installer::snapshot::ScanResult;
use endless_installer::templates::Flavor;
use endless_installer::tier::Tier;

fn rich_scan() -> ScanResult {
    ScanResult {
        hostname: Some("box1".to_string()),
        os_name: Some("Linux".to_string()),
        username: Some("al".to_string()),
        home_dir: Some("/home/al".to_string()),
        desktop_count: Some(3),
        downloads_count: Some(9),
        documents_exists: true,
        project_names: vec!["alpha".to_string()],
        git_repos: vec!["alpha".to_string()],
        dotfile_names: vec![".vimrc".to_string()],
        ssh_key_names: vec!["id_rsa".to_string()],
        browser_profiles: vec!["Firefox".to_string()],
        cloud_configs: vec!["AWS".to_string()],
        env_file_count: 1,
        shell_history_lines: Some(100),
        docker_present: true,
        files_scanned: 50,
        scan_timestamp: "01:02:03".to_string(),
    }
}

#[test]
fn choose_notice_cases() {
    let pool = vec!["n0", "n1", "n2"];
    assert_eq!(choose_notice(Tier::Cosmic, false, Some("x".to_string()), &pool, 0), None);
    assert_eq!(
        choose_notice(Tier::Ambient, true, Some("x".to_string()), &pool, 0),
        Some(Notice::Creepy("x".to_string()))
    );
    assert_eq!(
        choose_notice(Tier::Baseline, true, Some("x".to_string()), &pool, 4),
        Some(Notice::Plain("n1"))
    );
    assert_eq!(choose_notice(Tier::Familiar, true, None, &pool, 2), Some(Notice::Plain("n2")));
}

#[test]
fn plain_header_has_the_cycle_number() {
    assert_eq!(plain_header_text(2), "Beginning installation cycle #2...");
    assert_eq!(plain_header_text(4294967295), "Beginning installation cycle #4294967295...");
}

#[test]
fn first_cycle_is_plain_and_headerless() {
    for _ in 0..50 {
        let mut installer = Installer::new(Stage::all(), Some(rich_scan()), Flavor::Opsec);
        let start = installer.begin_cycle();
        assert_eq!(start.cycle, 1);
        assert_eq!(start.tier, Tier::Baseline);
        assert!(start.header.is_none());
        let turn = installer.plan_turn(start.tier);
        assert!(!matches!(turn.easter_egg, Some(Notice::Creepy(_))));
        assert!(!matches!(turn.warning, Some(Notice::Creepy(_))));
        assert!(turn.pause_ms >= PAUSE_MIN_MS && turn.pause_ms < PAUSE_MIN_MS + PAUSE_SPAN_MS);
        assert_eq!(installer.completion(start.tier), Notice::Plain(COMPLETION_LINE));
        assert_eq!(installer.farewell(), None);
    }
}

#[test]
fn later_cycles_get_headers() {
    let mut installer = Installer::new(vec![Stage::Boot], None, Flavor::Occult);
    let first = installer.begin_cycle();
    assert!(first.header.is_none());
    for n in 2..=12u32 {
        let start = installer.begin_cycle();
        assert_eq!(start.cycle, n);
        assert_eq!(start.tier, Tier::from_cycle(n));
        assert_eq!(start.header, Some(Header::Plain(format!("Beginning installation cycle #{}...", n))));
    }
    assert_eq!(installer.cycle(), 12);
    assert_eq!(installer.farewell(), None);
}

#[test]
fn cosmic_with_snapshot_is_personalised() {
    let mut installer = Installer::new(Stage::all(), Some(rich_scan()), Flavor::Opsec);
    let mut start = installer.begin_cycle();
    while start.cycle < 9 {
        start = installer.begin_cycle();
    }
    assert_eq!(start.tier, Tier::Cosmic);
    assert!(matches!(start.header, Some(Header::Creepy(_))));
    assert!(matches!(installer.completion(Tier::Cosmic), Notice::Creepy(_)));
    assert!(installer.farewell().is_some());
}

#[test]
fn without_snapshot_everything_is_plain() {
    let mut installer = Installer::default();
    assert_eq!(installer.stages().len(), 7);
    for _ in 0..100 {
        let turn = installer.plan_turn(Tier::Cosmic);
        assert!(!matches!(turn.easter_egg, Some(Notice::Creepy(_))));
        assert!(!matches!(turn.warning, Some(Notice::Creepy(_))));
    }
    assert_eq!(installer.completion(Tier::Invasive), Notice::Plain(COMPLETION_LINE));
}

#[test]
fn stages_are_kept_in_order() {
    let installer = Installer::new(vec![Stage::Cloud, Stage::Bios], None, Flavor::Opsec);
    assert_eq!(installer.stages(), &vec![Stage::Cloud, Stage::Bios]);
    assert_eq!(installer.cycle(), 0);
    assert_eq!(Stage::all()[0], Stage::Bios);
}

#[test]
fn run_loop_sequence_and_cancellation() {
    let mut installer = Installer::new(vec![Stage::Boot, Stage::Ai], Some(rich_scan()), Flavor::Opsec);
    assert_eq!(installer.phase(), Phase::BetweenCycles);
    match installer.step(Event::Ready) {
        Action::BeginCycle(start) => {
            assert_eq!(start.cycle, 1);
            assert!(start.header.is_none());
        }
        _ => panic!("expected a new cycle"),
    }
    assert_eq!(installer.phase(), Phase::AtStage(0));
    match installer.step(Event::Ready) {
        Action::RunStage { stage, turn } => {
            assert_eq!(stage, Stage::Boot);
            assert!(!matches!(turn.easter_egg, Some(Notice::Creepy(_))));
            assert!(!matches!(turn.warning, Some(Notice::Creepy(_))));
        }
        _ => panic!("expected the first stage"),
    }
    assert!(matches!(installer.step(Event::Ready), Action::RunStage { stage: Stage::Ai, .. }));
    match installer.step(Event::Ready) {
        Action::Complete(done) => assert_eq!(done, Notice::Plain(COMPLETION_LINE)),
        _ => panic!("expected the completion line"),
    }
    match installer.step(Event::Ready) {
        Action::BeginCycle(start) => {
            assert_eq!(start.cycle, 2);
            assert_eq!(start.tier, Tier::Ambient);
            assert_eq!(start.header, Some(Header::Plain("Beginning installation cycle #2...".to_string())));
        }
        _ => panic!("expected the second cycle"),
    }
    assert!(matches!(installer.step(Event::Cancelled), Action::Stop(None)));
    assert_eq!(installer.phase(), Phase::Stopped);
    assert!(matches!(installer.step(Event::Ready), Action::Stop(None)));
    assert_eq!(installer.cycle(), 2);
}

#[test]
fn cancel_at_cosmic_gives_exit_message() {
    let mut installer = Installer::new(vec![Stage::Bios], Some(rich_scan()), Flavor::Occult);
    while installer.cycle() < 9 || installer.phase() != Phase::AtStage(0) {
        let _ = installer.step(Event::Ready);
    }
    match installer.step(Event::Cancelled) {
        Action::Stop(Some(words)) => assert!(!words.contains('{')),
        _ => panic!("expected a personalised farewell"),
    }
}

#[test]
fn empty_stage_list_still_cycles() {
    let mut installer = Installer::new(Vec::new(), None, Flavor::Opsec);
    assert!(matches!(installer.step(Event::Ready), Action::BeginCycle(_)));
    assert!(matches!(installer.step(Event::Ready), Action::Complete(Notice::Plain(_))));
    assert!(matches!(installer.step(Event::Ready), Action::BeginCycle(_)));
    assert_eq!(installer.cycle(), 2);
}

#[test]
fn baseline_notices_are_neutral() {
    let eggs = messages::easter_eggs();
    let warnings = messages::warnings();
    let mut installer = Installer::new(Stage::all(), Some(rich_scan()), Flavor::Occult);
    for _ in 0..200 {
        let turn = installer.plan_turn(Tier::Baseline);
        match turn.easter_egg {
            None => {}
            Some(Notice::Plain(p)) => assert!(eggs.contains(&p)),
            Some(Notice::Creepy(_)) => panic!("creepy egg at Baseline"),
        }
        match turn.warning {
            None => {}
            Some(Notice::Plain(p)) => assert!(warnings.contains(&p)),
            Some(Notice::Creepy(_)) => panic!("creepy warning at Baseline"),
        }
    }
}

#[test]
fn rich_snapshot_above_baseline_is_personalised() {
    let mut installer = Installer::new(Stage::all(), Some(rich_scan()), Flavor::Opsec);
    for _ in 0..200 {
        let turn = installer.plan_turn(Tier::Familiar);
        assert!(!matches!(turn.easter_egg, Some(Notice::Plain(_))));
        assert!(!matches!(turn.warning, Some(Notice::Plain(_))));
    }
    assert!(matches!(installer.completion(Tier::Ambient), Notice::Creepy(_)));
}

#[test]
fn plain_header_small_numbers() {
    assert_eq!(plain_header_text(0), "Beginning installation cycle #0...");
    assert_eq!(plain_header_text(10), "Beginning installation cycle #10...");
    assert_eq!(plain_header_text(109), "Beginning installation cycle #109...");
}
