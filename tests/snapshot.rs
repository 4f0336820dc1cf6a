use endless_installer::config::BootConfig;
use endless_installer::snapshot::{
    distinct_names, history_lines_from_bytes, is_dotfile_name, is_ssh_key_name,
};
use endless_installer::text::replace_text;

#[test]
fn dotfile_names() {
    assert!(is_dotfile_name(".bashrc"));
    assert!(!is_dotfile_name("."));
    assert!(!is_dotfile_name(".DS_Store"));
    assert!(!is_dotfile_name("notes.txt"));
}

#[test]
fn ssh_key_names() {
    assert!(is_ssh_key_name("id_ed25519"));
    assert!(is_ssh_key_name("work.pub"));
    assert!(is_ssh_key_name("authorized_keys"));
    assert!(!is_ssh_key_name("known_hosts"));
    assert!(!is_ssh_key_name("config"));
    assert!(!is_ssh_key_name("id"));
}

#[test]
fn names_are_deduplicated() {
    let names: Vec<String> = ["a", "b", "a", "c", "b"].iter().map(|s| s.to_string()).collect();
    let expected: Vec<String> = ["a", "b", "c"].iter().map(|s| s.to_string()).collect();
    assert_eq!(distinct_names(&names), expected);
    assert_eq!(distinct_names(&Vec::new()), Vec::<String>::new());
}

#[test]
fn history_estimate() {
    assert_eq!(history_lines_from_bytes(0), 0);
    assert_eq!(history_lines_from_bytes(49), 0);
    assert_eq!(history_lines_from_bytes(5000), 100);
}

#[test]
fn replace_every_occurrence() {
    assert_eq!(replace_text("Cycle {cycle}, {cycle}th gate", "{cycle}", "12"), "Cycle 12, 12th gate");
    assert_eq!(replace_text("aaa", "aa", "b"), "ba");
    assert_eq!(replace_text("abc", "", "x"), "abc");
}

#[test]
fn boot_config_defaults() {
    let c = BootConfig::default();
    assert_eq!(c.log_count_range, 8..15);
    assert_eq!(c.log_delay_range, 50..200);
    assert_eq!(c.final_delay, 300);
}
