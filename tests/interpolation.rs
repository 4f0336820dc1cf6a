use endless_installer::interpolate::{
    interpolate_with, is_resolvable, pick_item, resolve_placeholder, Placeholder,
};
use endless_installer::snapshot::ScanResult;

fn empty_scan() -> ScanResult {
    ScanResult {
        hostname: None,
        os_name: None,
        username: None,
        home_dir: None,
        desktop_count: None,
        downloads_count: None,
        documents_exists: false,
        project_names: Vec::new(),
        git_repos: Vec::new(),
        dotfile_names: Vec::new(),
        ssh_key_names: Vec::new(),
        browser_profiles: Vec::new(),
        cloud_configs: Vec::new(),
        env_file_count: 0,
        shell_history_lines: None,
        docker_present: false,
        files_scanned: 0,
        scan_timestamp: String::new(),
    }
}

fn full_scan() -> ScanResult {
    let mut s = empty_scan();
    s.hostname = Some("box1".to_string());
    s.os_name = Some("Linux 6.1".to_string());
    s.username = Some("al".to_string());
    s.desktop_count = Some(12);
    s.downloads_count = Some(340);
    s.project_names = vec!["alpha".to_string(), "beta".to_string()];
    s.git_repos = vec!["alpha".to_string()];
    s.dotfile_names = vec![".bashrc".to_string()];
    s.ssh_key_names = vec!["id_ed25519".to_string()];
    s.browser_profiles = vec!["Firefox".to_string()];
    s.cloud_configs = vec!["AWS".to_string()];
    s.env_file_count = 3;
    s.shell_history_lines = Some(1024);
    s.files_scanned = 4096;
    s.scan_timestamp = "12:34:56".to_string();
    s
}

#[test]
fn template_without_placeholders_is_unchanged() {
    let s = full_scan();
    let t = "Installing packages... done.";
    assert_eq!(interpolate_with(t, &s, &vec![]), Some(t.to_string()));
    assert_eq!(interpolate_with("", &empty_scan(), &vec![5]), Some(String::new()));
}

#[test]
fn hostname_placeholder() {
    let mut s = empty_scan();
    s.hostname = Some("X".to_string());
    assert_eq!(interpolate_with("{hostname}", &s, &vec![]), Some("X".to_string()));
    assert_eq!(interpolate_with("{hostname}", &empty_scan(), &vec![]), None);
    s.hostname = Some(String::new());
    assert_eq!(interpolate_with("{hostname}", &s, &vec![]), None);
}

#[test]
fn project_placeholder() {
    let mut s = empty_scan();
    assert_eq!(interpolate_with("{project}", &s, &vec![]), None);
    s.project_names = vec!["only".to_string()];
    assert_eq!(interpolate_with("{project}", &s, &vec![7]), Some("only".to_string()));
    s.project_names = vec!["a".to_string(), "b".to_string(), "c".to_string()];
    assert_eq!(interpolate_with("{project}", &s, &vec![4]), Some("b".to_string()));
}

#[test]
fn every_key_resolves_from_a_full_snapshot() {
    let s = full_scan();
    let t = "{hostname}|{username}|{os}|{project}|{git_repo}|{ssh_key}|{browser}|{cloud}|\
             {desktop_count}|{downloads_count}|{scan_time}|{dotfile}|{env_count}|\
             {history_lines}|{files_scanned}|{cycle}";
    assert_eq!(
        interpolate_with(t, &s, &vec![0, 0, 0, 1]),
        Some(
            "box1|al|Linux 6.1|beta|alpha|id_ed25519|Firefox|AWS|12|340|12:34:56|.bashrc|3|\
             1024|4096|{cycle}"
                .to_string()
        )
    );
}

#[test]
fn counts_default_to_zero() {
    let s = empty_scan();
    assert_eq!(
        interpolate_with("{env_count}/{files_scanned}", &s, &vec![]),
        Some("0/0".to_string())
    );
    assert_eq!(interpolate_with("{desktop_count}", &s, &vec![]), None);
    assert_eq!(interpolate_with("{scan_time}", &s, &vec![]), None);
}

#[test]
fn unknown_key_makes_template_unresolvable() {
    let s = full_scan();
    assert_eq!(interpolate_with("Hello {nobody}", &s, &vec![]), None);
    assert!(!is_resolvable("{hostname} {nobody}", &s));
    assert!(is_resolvable("{hostname} and {username}", &s));
}

#[test]
fn one_missing_value_aborts_the_whole_template() {
    let mut s = full_scan();
    s.git_repos = Vec::new();
    assert_eq!(interpolate_with("{hostname} works on {git_repo}", &s, &vec![]), None);
}

#[test]
fn unmatched_brace_keeps_the_rest() {
    let s = full_scan();
    assert_eq!(
        interpolate_with("Host {hostname} then {unclosed", &s, &vec![]),
        Some("Host box1 then {unclosed".to_string())
    );
    assert_eq!(
        interpolate_with("no close {", &empty_scan(), &vec![]),
        Some("no close {".to_string())
    );
}

#[test]
fn resolved_values_are_not_rescanned() {
    let mut s = empty_scan();
    s.hostname = Some("{username}".to_string());
    assert_eq!(
        interpolate_with("[{hostname}]", &s, &vec![]),
        Some("[{username}]".to_string())
    );
}

#[test]
fn resolve_placeholder_each_kind() {
    let s = full_scan();
    assert_eq!(
        resolve_placeholder(&s, Placeholder::DownloadsCount, 0),
        Some("340".to_string())
    );
    assert_eq!(
        resolve_placeholder(&s, Placeholder::Cycle, 0),
        Some("{cycle}".to_string())
    );
    assert_eq!(
        resolve_placeholder(&s, Placeholder::Project, 3),
        Some("beta".to_string())
    );
    assert_eq!(resolve_placeholder(&empty_scan(), Placeholder::Cloud, 0), None);
    assert_eq!(Placeholder::parse(&"git_repo".chars().collect()), Some(Placeholder::GitRepo));
    assert_eq!(Placeholder::parse(&"gitrepo".chars().collect()), None);
}

#[test]
fn pick_item_selects_modulo_length() {
    let items = vec!["x".to_string(), "y".to_string()];
    assert_eq!(pick_item(&items, 0), Some("x".to_string()));
    assert_eq!(pick_item(&items, 5), Some("y".to_string()));
    assert_eq!(pick_item(&Vec::new(), 5), None);
}
