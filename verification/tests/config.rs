use cosmic_applet_arch::config::{Config, RepoUrls, UpdateType, UpdateTypeSet};

#[test]
fn config_default_values() {
    let c = Config::default();
    assert_eq!(c.interval_secs, 6);
    assert_eq!(c.timeout_secs, 120);
    assert_eq!(c.online_check_period, 600);
    assert_eq!(c.terminal, "kitty");
    assert_eq!(c.aur_helper, "yay");
    assert!(!c.exclude_from_counter.contains(UpdateType::Aur));
    assert!(!c.exclude_from_counter.contains(UpdateType::Devel));
    assert!(!c.exclude_from_counter.contains(UpdateType::Pacman));
    assert_eq!(c.other_repo_urls.get("endeavouros"), None);
}

#[test]
fn update_type_set_insert() {
    let mut s = UpdateTypeSet::new();
    s.insert(UpdateType::Aur);
    s.insert(UpdateType::Devel);
    assert!(s.contains(UpdateType::Aur));
    assert!(s.contains(UpdateType::Devel));
    assert!(!s.contains(UpdateType::Pacman));
}

#[test]
fn repo_urls_read_after_write() {
    let mut m = RepoUrls::new();
    m.insert("a".to_string(), "1".to_string());
    m.insert("b".to_string(), "2".to_string());
    assert_eq!(m.get("a").map(|s| s.as_str()), Some("1"));
    m.insert("a".to_string(), "3".to_string());
    assert_eq!(m.get("a").map(|s| s.as_str()), Some("3"));
    assert_eq!(m.get("b").map(|s| s.as_str()), Some("2"));
    assert_eq!(m.get("c"), None);
}

#[test]
fn repo_urls_last_pair_wins() {
    let m = RepoUrls::from_pairs(vec![
        ("a".to_string(), "1".to_string()),
        ("b".to_string(), "2".to_string()),
        ("a".to_string(), "3".to_string()),
    ]);
    assert_eq!(m.get("a").map(|s| s.as_str()), Some("3"));
    assert_eq!(m.get("b").map(|s| s.as_str()), Some("2"));
}

#[test]
fn repo_urls_to_pairs_round_trip() {
    let m = RepoUrls::from_pairs(vec![
        ("a".to_string(), "1".to_string()),
        ("b".to_string(), "2".to_string()),
        ("a".to_string(), "3".to_string()),
    ]);
    let mut pairs = m.to_pairs();
    pairs.sort();
    assert_eq!(pairs, vec![("a".to_string(), "3".to_string()), ("b".to_string(), "2".to_string())]);
}
