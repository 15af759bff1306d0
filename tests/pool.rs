use pdm::lookup::ConfigError;
use pdm::network::Network;
use pdm::number::Multiplier;
use pdm::p2poolv2_config_parser::{
    basis_points, mask_secret, parse_config, version_mask_text, ConfigEntry, Parsed, Raw,
    StratumConfig,
};
use std::marker::PhantomData;

fn no_env() -> Vec<(String, String)> {
    Vec::new()
}

fn find<'a>(entries: &'a [ConfigEntry], section: &str, key: &str) -> Option<&'a ConfigEntry> {
    entries.iter().find(|x| x.section == section && x.key == key)
}

const FULL: &str = r#"
[network]
listen_address = "/ip4/127.0.0.1/tcp/6884"
dial_peers = ["p1", "p2"]

[store]
path = "./store.db"
background_task_frequency_hours = 24
pplns_ttl_days = 7

[stratum]
hostname = "0.0.0.0"
port = 3333
start_difficulty = 10000
minimum_difficulty = 100
maximum_difficulty = 1000000
solo_address = "tb1qyazxde6558qj6z3d9np5e6msmrspwpf6k0qggk"
bootstrap_address = "tb1qyazxde6558qj6z3d9np5e6msmrspwpf6k0qggk"
donation_address = "tb1qw508d6qejxtdg4y5r3zarvary0c5xw7kxpjzsx"
donation = 100
fee_address = "tb1qyazxde6558qj6z3d9np5e6msmrspwpf6k0qggk"
fee = 50
zmqpubhashblock = "tcp://127.0.0.1:28332"
network = "signet"
version_mask = "1fffe000"
difficulty_multiplier = 1.0
ignore_difficulty = true
pool_signature = "TestPool"

[miner]
pubkey = "020202020202020202020202020202020202020202020202020202020202020202"

[bitcoinrpc]
url = "http://127.0.0.1:38332"
username = "user"
password = "pass"

[logging]
file = "./logs/p2pool.log"
level = "debug"
stats_dir = "./logs/stats"

[api]
hostname = "127.0.0.1"
port = 46884
auth_user = "admin"
auth_token = "token"
"#;

#[test]
fn loads_and_flattens_full_config() {
    let entries = parse_config(FULL, &no_env()).unwrap();

    assert!(entries.iter().any(|x| x.section == "network"
        && x.key == "listen_address"
        && x.value == "/ip4/127.0.0.1/tcp/6884"
        && !x.is_default));
    assert!(entries
        .iter()
        .any(|x| x.section == "stratum" && x.key == "hostname" && !x.is_default));
    assert!(entries
        .iter()
        .any(|x| x.section == "stratum" && x.key == "donation" && x.value == "100 bp (1%)"));
    assert!(entries
        .iter()
        .any(|x| x.section == "bitcoinrpc" && x.key == "password" && x.value == "*****"));
    assert!(entries
        .iter()
        .any(|x| x.section == "api" && x.key == "auth_token" && x.value == "*****"));
    assert!(entries
        .iter()
        .any(|x| x.section == "stratum" && x.key == "network" && x.value == "signet"));
    assert!(entries.iter().any(|x| x.section == "stratum"
        && x.key == "version_mask"
        && x.value == "1fffe000"));
}

const INVALID_ADDRESS: &str = r#"
[stratum]
hostname = "0.0.0.0"
port = 3333
start_difficulty = 10000
minimum_difficulty = 100
bootstrap_address = "invalid"
zmqpubhashblock = "tcp://127.0.0.1:28332"
network = "signet"
version_mask = "1fffe000"
difficulty_multiplier = 1.0

[store]
path = "./store.db"

[bitcoinrpc]
url = "http://127.0.0.1:38332"
username = "p2pool"
password = "p2pool"

[api]
hostname = "127.0.0.1"
port = 46884
"#;

#[test]
fn invalid_address_fails() {
    let err = parse_config(INVALID_ADDRESS, &no_env()).unwrap_err();
    assert!(err.to_string().contains("Invalid bootstrap_address"));
}

const LONG_SIGNATURE: &str = r#"
[stratum]
hostname = "0.0.0.0"
port = 3333
start_difficulty = 10000
minimum_difficulty = 100
bootstrap_address = "tb1qyazxde6558qj6z3d9np5e6msmrspwpf6k0qggk"
zmqpubhashblock = "tcp://127.0.0.1:28332"
network = "signet"
version_mask = "1fffe000"
difficulty_multiplier = 1.0
pool_signature = "ThisIsWayTooLongForASignature"

[store]
path = "./store.db"

[bitcoinrpc]
url = "http://127.0.0.1:38332"
username = "p2pool"
password = "p2pool"

[api]
hostname = "127.0.0.1"
port = 46884
"#;

#[test]
fn pool_signature_too_long_fails() {
    let err = parse_config(LONG_SIGNATURE, &no_env()).unwrap_err();
    assert!(err.to_string().contains("Pool signature exceeds max length"));
}

const OVERRIDDEN: &str = r#"
[stratum]
hostname = "0.0.0.0"
port = 3333
start_difficulty = 10000
minimum_difficulty = 100
bootstrap_address = "tb1qyazxde6558qj6z3d9np5e6msmrspwpf6k0qggk"
zmqpubhashblock = "tcp://127.0.0.1:28332"
network = "signet"
version_mask = "1fffe000"
difficulty_multiplier = 1.0

[store]
path = "./store.db"

[bitcoinrpc]
url = "http://127.0.0.1:38332"
username = "p2pool"
password = "p2pool"

[api]
hostname = "127.0.0.1"
port = 46884
"#;

#[test]
fn env_var_override_works() {
    let env = vec![("P2POOL_STRATUM_PORT".to_string(), "9999".to_string())];
    let entries = parse_config(OVERRIDDEN, &env).unwrap();
    assert!(entries
        .iter()
        .any(|x| x.section == "stratum" && x.key == "port" && x.value == "9999"));
}

#[test]
fn non_p2pool_file_fails() {
    let err = parse_config("\nfoo = \"bar\"\nanswer = 42\n", &no_env()).unwrap_err();
    assert!(err.to_string().contains("Invalid P2Pool config"));
}

const WRONG_NETWORK: &str = r#"
[stratum]
network = "signet"
bootstrap_address = "bc1qw508d6qejxtdg4y5r3zarvary0c5xw7kygt080"
version_mask = "1fffe000"
zmqpubhashblock = "tcp://127.0.0.1:28332"

[store]
path = "./store.db"

[bitcoinrpc]
url = "http://127.0.0.1:38332"
username = "p2pool"
password = "p2pool"

[api]
hostname = "127.0.0.1"
port = 46884
"#;

#[test]
fn wrong_network_address_is_rejected() {
    let err = parse_config(WRONG_NETWORK, &no_env()).unwrap_err();
    assert!(
        err.to_string().contains("Invalid bootstrap_address"),
        "expected wrong-network address to be rejected, got: {}",
        err.to_string()
    );
}

#[test]
fn minimal_config_uses_defaults() {
    let text = r#"
[stratum]
network = "signet"
version_mask = "1fffe000"
zmqpubhashblock = "tcp://127.0.0.1:28332"
"#;
    let entries = parse_config(text, &no_env()).unwrap();
    assert!(entries.iter().any(|e| e.key == "port" && e.value == "3333"));
    assert!(entries
        .iter()
        .any(|e| e.key == "minimum_difficulty" && e.value == "100"));
}

#[test]
fn donation_without_address_fails() {
    let text = r#"
[stratum]
donation = 100
network = "signet"
version_mask = "1fffe000"
zmqpubhashblock = "tcp://127.0.0.1:28332"
"#;
    let err = parse_config(text, &no_env()).unwrap_err();
    assert!(err.to_string().contains("donation_address is required"));
}

#[test]
fn fee_without_address_fails() {
    let text = r#"
[stratum]
fee = 50
network = "signet"
version_mask = "1fffe000"
zmqpubhashblock = "tcp://127.0.0.1:28332"
"#;
    let err = parse_config(text, &no_env()).unwrap_err();
    assert!(err.to_string().contains("fee_address is required"));
}

#[test]
fn parsed_to_raw_preserves_all_fields() {
    let parsed = StratumConfig::<Parsed> {
        hostname: "0.0.0.0".into(),
        port: 3333,
        start_difficulty: 10000,
        minimum_difficulty: 100,
        maximum_difficulty: Some(1_000_000),
        solo_address: Some("tb1qyazxde6558qj6z3d9np5e6msmrspwpf6k0qggk".into()),
        zmqpubhashblock: "tcp://127.0.0.1:28332".into(),
        bootstrap_address: Some("tb1qyazxde6558qj6z3d9np5e6msmrspwpf6k0qggk".into()),
        donation_address: Some("tb1qw508d6qejxtdg4y5r3zarvary0c5xw7kxpjzsx".into()),
        donation: Some(100),
        fee_address: Some("tb1qyazxde6558qj6z3d9np5e6msmrspwpf6k0qggk".into()),
        fee: Some(50),
        network: Network::Signet,
        version_mask: 0x1fffe000,
        difficulty_multiplier: Multiplier { mantissa: 10, scale: 1 },
        ignore_difficulty: Some(true),
        pool_signature: Some("TestPool".into()),
        bootstrap_address_parsed: None,
        donation_address_parsed: None,
        fee_address_parsed: None,
        _state: PhantomData,
    };

    let raw: StratumConfig<Raw> = parsed.clone().into();

    assert_eq!(raw.hostname, parsed.hostname);
    assert_eq!(raw.port, parsed.port);
    assert_eq!(raw.start_difficulty, parsed.start_difficulty);
    assert_eq!(raw.minimum_difficulty, parsed.minimum_difficulty);
    assert_eq!(raw.maximum_difficulty, parsed.maximum_difficulty);
    assert_eq!(raw.solo_address, parsed.solo_address);
    assert_eq!(raw.zmqpubhashblock, parsed.zmqpubhashblock);
    assert_eq!(raw.bootstrap_address, parsed.bootstrap_address);
    assert_eq!(raw.donation_address, parsed.donation_address);
    assert_eq!(raw.donation, parsed.donation);
    assert_eq!(raw.fee_address, parsed.fee_address);
    assert_eq!(raw.fee, parsed.fee);
    assert_eq!(raw.network, parsed.network);
    assert_eq!(raw.version_mask, parsed.version_mask);
    assert_eq!(raw.difficulty_multiplier, parsed.difficulty_multiplier);
    assert_eq!(raw.ignore_difficulty, parsed.ignore_difficulty);
    assert_eq!(raw.pool_signature, parsed.pool_signature);
}

#[test]
fn basis_points_render_whole_and_fractional_percentages() {
    assert_eq!(basis_points(100), "100 bp (1%)");
    assert_eq!(basis_points(150), "150 bp (1.50%)");
    assert_eq!(basis_points(0), "0 bp (0%)");
    assert_eq!(basis_points(5), "5 bp (0.05%)");
    assert_eq!(basis_points(10000), "10000 bp (100%)");
}

#[test]
fn secrets_are_masked_whatever_their_length() {
    assert_eq!(mask_secret(&"a".to_string()), "*****");
    assert_eq!(mask_secret(&"a much longer secret value".to_string()), "*****");
    assert_eq!(mask_secret(&String::new()), "<empty>");
}

#[test]
fn empty_password_shows_empty_marker() {
    let text = r#"
[bitcoinrpc]
url = "http://127.0.0.1:38332"
username = "p2pool"
password = ""
"#;
    let entries = parse_config(text, &no_env()).unwrap();
    assert_eq!(find(&entries, "bitcoinrpc", "password").unwrap().value, "<empty>");
}

#[test]
fn version_mask_is_eight_hex_digits() {
    assert_eq!(version_mask_text(0x1fffe000), "1fffe000");
    assert_eq!(version_mask_text(0xff), "000000ff");
    assert_eq!(version_mask_text(-1), "ffffffff");
}

#[test]
fn stratum_section_marks_fields_explicit() {
    let text = "[stratum]\nport = 3333\n";
    let entries = parse_config(text, &no_env()).unwrap();
    let port = find(&entries, "stratum", "port").unwrap();
    assert_eq!(port.value, "3333");
    assert!(!port.is_default);
    let network: Vec<&ConfigEntry> = entries.iter().filter(|x| x.section == "network").collect();
    assert_eq!(network.len(), 16);
    assert!(network.iter().all(|x| x.is_default));
    assert_eq!(find(&entries, "network", "max_established_incoming").unwrap().value, "50");
    assert!(find(&entries, "store", "path").is_none());
}

#[test]
fn network_section_with_default_value_is_explicit() {
    let text = "[network]\nmax_pending_incoming = 10\n";
    let entries = parse_config(text, &no_env()).unwrap();
    let e = find(&entries, "network", "max_pending_incoming").unwrap();
    assert_eq!(e.value, "10");
    assert!(!e.is_default);
}

#[test]
fn override_beats_file_value() {
    let text = "[stratum]\nport = 4444\n";
    let env = vec![("P2POOL_STRATUM_PORT".to_string(), "5555".to_string())];
    let entries = parse_config(text, &env).unwrap();
    assert_eq!(find(&entries, "stratum", "port").unwrap().value, "5555");
}

#[test]
fn override_alone_marks_pool_input() {
    let env = vec![("P2POOL_LOGGING_LEVEL".to_string(), "warn".to_string())];
    let entries = parse_config("", &env).unwrap();
    let level = find(&entries, "logging", "level").unwrap();
    assert_eq!(level.value, "warn");
    assert!(!level.is_default);
}

#[test]
fn valid_address_round_trips() {
    let text = "[stratum]\nnetwork = \"signet\"\nbootstrap_address = \"tb1qw508d6qejxtdg4y5r3zarvary0c5xw7kxpjzsx\"\n";
    let entries = parse_config(text, &no_env()).unwrap();
    assert_eq!(
        find(&entries, "stratum", "bootstrap_address").unwrap().value,
        "tb1qw508d6qejxtdg4y5r3zarvary0c5xw7kxpjzsx"
    );
}

#[test]
fn mainnet_address_accepted_on_main() {
    let text = "[stratum]\nnetwork = \"main\"\nfee = 150\nfee_address = \"bc1qw508d6qejxtdg4y5r3zarvary0c5xw7kv8f3t4\"\n";
    let entries = parse_config(text, &no_env()).unwrap();
    assert_eq!(find(&entries, "stratum", "network").unwrap().value, "bitcoin");
    assert_eq!(find(&entries, "stratum", "fee").unwrap().value, "150 bp (1.50%)");
}

#[test]
fn unknown_network_is_rejected() {
    let err = parse_config("[stratum]\nnetwork = \"Signet\"\n", &no_env()).unwrap_err();
    assert!(matches!(err, ConfigError::InvalidNetwork));
}

#[test]
fn malformed_version_mask_is_rejected() {
    let err = parse_config("[stratum]\nversion_mask = \"xyz\"\n", &no_env()).unwrap_err();
    assert!(matches!(err, ConfigError::InvalidVersionMask));
    assert!(err.to_string().contains("version_mask must be hex"));
}

#[test]
fn missing_required_field_is_named() {
    let err = parse_config("[api]\nhostname = \"127.0.0.1\"\n", &no_env()).unwrap_err();
    assert!(matches!(err, ConfigError::MissingField(ref s, ref k) if s == "api" && k == "port"));
}

#[test]
fn port_out_of_range_is_invalid() {
    let err = parse_config("[stratum]\nport = 70000\n", &no_env()).unwrap_err();
    assert!(matches!(err, ConfigError::InvalidValue(ref s, ref k) if s == "stratum" && k == "port"));
}

#[test]
fn malformed_line_is_reported() {
    let err = parse_config("[stratum]\nport 3333\n", &no_env()).unwrap_err();
    assert!(matches!(err, ConfigError::Syntax(2)));
}

#[test]
fn invalid_pubkey_is_replaced() {
    let entries = parse_config("[miner]\npubkey = \"nothex\"\n", &no_env()).unwrap();
    assert_eq!(find(&entries, "miner", "pubkey").unwrap().value, "<invalid pubkey>");
    let key = "0279be667ef9dcbbac55a06295ce870b07029bfcdb2dce28d959f2815b16f81798";
    let text = format!("[miner]\npubkey = \"{}\"\n", key);
    let entries = parse_config(&text, &no_env()).unwrap();
    assert_eq!(find(&entries, "miner", "pubkey").unwrap().value, key);
}

#[test]
fn multiplier_and_flags_render() {
    let text = "[stratum]\ndifficulty_multiplier = 2.25\nignore_difficulty = yes\ndial = 1\n";
    let entries = parse_config(text, &no_env()).unwrap();
    assert_eq!(find(&entries, "stratum", "difficulty_multiplier").unwrap().value, "2.2");
    assert_eq!(find(&entries, "stratum", "ignore_difficulty").unwrap().value, "true");
    let entries = parse_config("[stratum]\ndifficulty_multiplier = 3\n", &no_env()).unwrap();
    assert_eq!(find(&entries, "stratum", "difficulty_multiplier").unwrap().value, "3.0");
}

#[test]
fn dial_peers_are_joined() {
    let entries = parse_config("[network]\ndial_peers = [\"a\", 'b']\n", &no_env()).unwrap();
    assert_eq!(find(&entries, "network", "dial_peers").unwrap().value, "a, b");
}

#[test]
fn bare_value_may_carry_comment() {
    let entries = parse_config("[stratum]\nport = 3334 # note\n", &no_env()).unwrap();
    assert_eq!(find(&entries, "stratum", "port").unwrap().value, "3334");
}

#[test]
fn invalid_solo_address_fails() {
    let text = "[stratum]\nnetwork = \"signet\"\nsolo_address = \"bc1qw508d6qejxtdg4y5r3zarvary0c5xw7kv8f3t4\"\n";
    let err = parse_config(text, &no_env()).unwrap_err();
    assert!(err.to_string().contains("Invalid solo_address"));
}

#[test]
fn required_fields_are_never_defaults() {
    let env = vec![
        ("P2POOL_STORE_PATH".to_string(), "./store.db".to_string()),
        ("P2POOL_API_HOSTNAME".to_string(), "127.0.0.1".to_string()),
        ("P2POOL_API_PORT".to_string(), "46884".to_string()),
    ];
    let entries = parse_config("", &env).unwrap();
    assert!(!find(&entries, "store", "path").unwrap().is_default);
    assert!(!find(&entries, "api", "hostname").unwrap().is_default);
    assert!(find(&entries, "store", "pplns_ttl_days").unwrap().is_default);
}
