use pdm::config::{default_schema, parse_config, ConfigEntry, ValueKind};
use pdm::lookup::ConfigError;

fn find<'a>(entries: &'a [ConfigEntry], key: &str) -> &'a ConfigEntry {
    entries.iter().find(|e| e.key == key).unwrap()
}

#[test]
fn network_section_value_found_after_global() {
    let entries = parse_config(Some("[test]\nmining.maxconnections=5\n")).unwrap();
    let e = find(&entries, "maxconnections");
    assert_eq!(e.value, "5");
    assert!(e.enabled);
}

#[test]
fn global_value_wins_over_sections() {
    let entries = parse_config(Some("maxconnections=7\n[main]\nmaxconnections=9\n")).unwrap();
    assert_eq!(find(&entries, "maxconnections").value, "7");
    let entries = parse_config(Some("[regtest]\nport=1\n[main]\nport=2\n")).unwrap();
    assert_eq!(find(&entries, "port").value, "2");
}

#[test]
fn missing_file_gives_defaults() {
    let entries = parse_config(None).unwrap();
    assert_eq!(entries.len(), default_schema().len());
    assert!(entries.iter().all(|e| !e.enabled && e.schema.is_some()));
    assert_eq!(find(&entries, "rpcport").value, "8332");
    assert_eq!(find(&entries, "dbcache").value, "450");
}

#[test]
fn value_equal_to_default_is_enabled() {
    let entries = parse_config(Some("dbcache=450\n")).unwrap();
    let e = find(&entries, "dbcache");
    assert_eq!(e.value, "450");
    assert!(e.enabled);
    assert!(!find(&entries, "prune").enabled);
}

#[test]
fn values_follow_the_key_kind() {
    let entries = parse_config(Some("txindex=true\nprune=+0550\npid=1\nfallbackfee=0.0002\n")).unwrap();
    assert_eq!(find(&entries, "txindex").value, "1");
    assert_eq!(find(&entries, "prune").value, "550");
    assert_eq!(find(&entries, "pid").value, "1");
    assert_eq!(find(&entries, "fallbackfee").value, "0.0002");
    assert_eq!(find(&entries, "txindex").schema.as_ref().unwrap().kind, ValueKind::Bool);
}

#[test]
fn unknown_keys_come_last() {
    let entries = parse_config(Some("foo=yes\n[signet]\nbar=042\nfoo=2\n[other]\nbaz=1\n")).unwrap();
    let n = default_schema().len();
    assert_eq!(entries.len(), n + 2);
    assert_eq!(entries[n].key, "foo");
    assert_eq!(entries[n].value, "1");
    assert!(entries[n].enabled && entries[n].schema.is_none());
    assert_eq!(entries[n + 1].key, "bar");
    assert_eq!(entries[n + 1].value, "42");
}

#[test]
fn malformed_daemon_line_is_reported() {
    let err = parse_config(Some("# comment\njust words\n")).err().unwrap();
    assert!(matches!(err, ConfigError::Syntax(2)));
}

#[test]
fn daemon_secrets_are_masked() {
    let entries = parse_config(Some("rpcpassword=hunter2\n")).unwrap();
    assert_eq!(find(&entries, "rpcpassword").value, "*****");
    assert_eq!(find(&entries, "rpcauth").value, "<empty>");
    assert_eq!(find(&entries, "rpcuser").value, "");
}
