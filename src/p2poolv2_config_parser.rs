//! The pool service's configuration: its typed sections, read from a table-dialect file
//! and `P2POOL_` environment overrides, checked, and flattened into display entries.
use vstd::prelude::*;
use std::marker::PhantomData;
use crate::lookup::{
    ConfigError, ErrorView, Sources, SourcesView, Decoded, lookup, text_of, list_of,
    unsigned_of, flag_of, decoded_ok, value_or, value_opt, section_set, AddressField,
    ValidationError, overrides, overrides_present, var_views, read_overrides, find,
};
use crate::network::{
    Network, network_named, network_label, address_valid, address_parses, address_on_network,
    check_address, pubkey_parses, check_pubkey,
};
use crate::number::{
    Multiplier, multiplier_text, hex_i32_text, parse_hex_i32, MAX_SCALE, decimal, digit_char,
    hex_digits, one_decimal, is_one, push_decimal, push_hex_digits,
};
use crate::source::{string_views, parse_source, parse_text, RawEntryView};
use crate::text::{chars_of, string_of, concat_chars, contains, contains_chars};

verus! {

/// One line of the pool view: a field of a section, its value as shown, and whether it
/// only holds its default.
#[derive(Debug, Clone, PartialEq)]
pub struct ConfigEntry {
    pub section: String,
    pub key: String,
    pub value: String,
    pub is_default: bool,
}

/// Marks a stratum section that has not been checked.
#[derive(Debug, Clone, Default)]
pub struct Raw;

/// Marks a stratum section whose checks passed.
#[derive(Debug, Clone)]
pub struct Parsed;

/// The longest pool signature, in characters.
pub const MAX_POOL_SIGNATURE_LENGTH: usize = 16;

pub const U16_MAX: u64 = 0xffff;

pub const U32_MAX: u64 = 0xffff_ffff;

pub const U64_MAX: u64 = 0xffff_ffff_ffff_ffff;

/// An address that was found valid on a network.
#[derive(Debug, Clone)]
pub struct NetworkAddress {
    pub address: String,
    pub network: Network,
}

#[derive(Debug)]
pub struct StratumConfig<State = Raw> {
    pub hostname: String,
    pub port: u16,
    pub start_difficulty: u64,
    pub minimum_difficulty: u64,
    pub maximum_difficulty: Option<u64>,
    pub solo_address: Option<String>,
    pub zmqpubhashblock: String,
    pub bootstrap_address: Option<String>,
    pub donation_address: Option<String>,
    pub donation: Option<u16>,
    pub fee_address: Option<String>,
    pub fee: Option<u16>,
    pub network: Network,
    pub version_mask: i32,
    pub difficulty_multiplier: Multiplier,
    pub ignore_difficulty: Option<bool>,
    pub pool_signature: Option<String>,
    pub bootstrap_address_parsed: Option<NetworkAddress>,
    pub donation_address_parsed: Option<NetworkAddress>,
    pub fee_address_parsed: Option<NetworkAddress>,
    pub _state: PhantomData<State>,
}

impl<State> Clone for StratumConfig<State> {
    fn clone(&self) -> (r: Self)
        ensures
            same_fields(*self, r),
            checked_clone(self.bootstrap_address_parsed, r.bootstrap_address_parsed),
            checked_clone(self.donation_address_parsed, r.donation_address_parsed),
            checked_clone(self.fee_address_parsed, r.fee_address_parsed),
    {
        StratumConfig {
            hostname: self.hostname.clone(),
            port: self.port,
            start_difficulty: self.start_difficulty,
            minimum_difficulty: self.minimum_difficulty,
            maximum_difficulty: self.maximum_difficulty,
            solo_address: self.solo_address.clone(),
            zmqpubhashblock: self.zmqpubhashblock.clone(),
            bootstrap_address: self.bootstrap_address.clone(),
            donation_address: self.donation_address.clone(),
            donation: self.donation,
            fee_address: self.fee_address.clone(),
            fee: self.fee,
            network: self.network,
            version_mask: self.version_mask,
            difficulty_multiplier: self.difficulty_multiplier,
            ignore_difficulty: self.ignore_difficulty,
            pool_signature: self.pool_signature.clone(),
            bootstrap_address_parsed: copy_checked(&self.bootstrap_address_parsed),
            donation_address_parsed: copy_checked(&self.donation_address_parsed),
            fee_address_parsed: copy_checked(&self.fee_address_parsed),
            _state: PhantomData,
        }
    }
}

/// The copy holds the same address text and network.
pub open spec fn checked_clone(a: Option<NetworkAddress>, b: Option<NetworkAddress>) -> bool {
    match (a, b) {
        (Some(x), Some(y)) => x.address@ == y.address@ && x.network == y.network,
        (None, None) => true,
        _ => false,
    }
}

fn copy_checked(a: &Option<NetworkAddress>) -> (r: Option<NetworkAddress>)
    ensures
        checked_clone(*a, r),
{
    match a {
        Some(x) => Some(NetworkAddress { address: x.address.clone(), network: x.network }),
        None => None,
    }
}

#[derive(Debug, Clone)]
pub struct NetworkConfig {
    pub listen_address: String,
    pub dial_peers: Vec<String>,
    pub max_pending_incoming: u32,
    pub max_pending_outgoing: u32,
    pub max_established_incoming: u32,
    pub max_established_outgoing: u32,
    pub max_established_per_peer: u32,
    pub max_workbase_per_second: u32,
    pub max_userworkbase_per_second: u32,
    pub max_miningshare_per_second: u32,
    pub max_inventory_per_second: u32,
    pub max_transaction_per_second: u32,
    pub rate_limit_window_secs: u64,
    pub max_requests_per_second: u64,
    pub peer_inactivity_timeout_secs: u64,
    pub dial_timeout_secs: u64,
}

#[derive(Debug, Clone)]
pub struct StoreConfig {
    pub path: String,
    pub background_task_frequency_hours: u64,
    pub pplns_ttl_days: u64,
}

#[derive(Debug, Clone)]
pub struct MinerConfig {
    pub pubkey: String,
}

#[derive(Debug, Clone)]
pub struct BitcoinRpcConfig {
    pub url: String,
    pub username: String,
    pub password: String,
}

#[derive(Debug, Clone)]
pub struct LoggingConfig {
    pub file: Option<String>,
    pub level: String,
    pub stats_dir: String,
}

#[derive(Debug, Clone)]
pub struct ApiConfig {
    pub hostname: String,
    pub port: u16,
    pub auth_user: Option<String>,
    pub auth_token: Option<String>,
}

#[derive(Debug, Clone)]
pub struct P2PoolConfig {
    pub network: NetworkConfig,
    pub store: Option<StoreConfig>,
    pub stratum: Option<StratumConfig<Raw>>,
    pub miner: Option<MinerConfig>,
    pub bitcoinrpc: Option<BitcoinRpcConfig>,
    pub logging: LoggingConfig,
    pub api: Option<ApiConfig>,
}

// Reading single fields.

pub open spec fn at(s: SourcesView, section: &str, key: &str) -> Option<crate::source::RawValueView> {
    lookup(s, section@, key@)
}

pub open spec fn text_ok(s: SourcesView, section: &str, key: &str) -> bool {
    decoded_ok(text_of(at(s, section, key)))
}

pub open spec fn text_or(s: SourcesView, section: &str, key: &str, d: Seq<char>) -> Seq<char> {
    value_or(text_of(at(s, section, key)), d)
}

pub open spec fn text_opt(s: SourcesView, section: &str, key: &str) -> Option<Seq<char>> {
    value_opt(text_of(at(s, section, key)))
}

pub open spec fn uint_ok(s: SourcesView, section: &str, key: &str, max: nat) -> bool {
    decoded_ok(unsigned_of(at(s, section, key), max))
}

pub open spec fn uint_or(s: SourcesView, section: &str, key: &str, max: nat, d: nat) -> nat {
    value_or(unsigned_of(at(s, section, key), max), d)
}

pub open spec fn uint_opt(s: SourcesView, section: &str, key: &str, max: nat) -> Option<nat> {
    value_opt(unsigned_of(at(s, section, key), max))
}

pub open spec fn opt_u64(o: Option<u64>) -> Option<nat> {
    match o {
        Some(v) => Some(v as nat),
        None => None,
    }
}

pub open spec fn opt_u16(o: Option<u16>) -> Option<nat> {
    match o {
        Some(v) => Some(v as nat),
        None => None,
    }
}

pub open spec fn opt_text(o: Option<String>) -> Option<Seq<char>> {
    match o {
        Some(v) => Some(v@),
        None => None,
    }
}

fn owned(s: &str) -> (r: String)
    ensures
        r@ == s@,
{
    String::from_str(s)
}

fn read_text_or(src: &Sources, section: &str, key: &str, d: &str) -> (r: Result<String, ConfigError>)
    ensures
        match r {
            Ok(v) => text_ok(src@, section, key) && v@ == text_or(src@, section, key, d@),
            Err(e) => !text_ok(src@, section, key) && e@ == ErrorView::InvalidValue(section@, key@),
        },
{
    match src.read_text(&owned(section), &owned(key))? {
        Some(v) => Ok(v),
        None => Ok(owned(d)),
    }
}

fn read_text_opt(src: &Sources, section: &str, key: &str) -> (r: Result<Option<String>, ConfigError>)
    ensures
        match r {
            Ok(v) => text_ok(src@, section, key) && opt_text(v) == text_opt(src@, section, key),
            Err(e) => !text_ok(src@, section, key) && e@ == ErrorView::InvalidValue(section@, key@),
        },
{
    src.read_text(&owned(section), &owned(key))
}

/// A field that a present section must set.
fn read_text_req(src: &Sources, section: &str, key: &str) -> (r: Result<String, ConfigError>)
    ensures
        match r {
            Ok(v) => text_of(at(src@, section, key)) == Decoded::Value(v@),
            Err(e) => match text_of(at(src@, section, key)) {
                Decoded::Absent => e@ == ErrorView::MissingField(section@, key@),
                Decoded::Invalid => e@ == ErrorView::InvalidValue(section@, key@),
                Decoded::Value(_) => false,
            },
        },
{
    match src.read_text(&owned(section), &owned(key))? {
        Some(v) => Ok(v),
        None => Err(ConfigError::MissingField(owned(section), owned(key))),
    }
}

fn read_uint_or(src: &Sources, section: &str, key: &str, max: u64, d: u64) -> (r: Result<u64, ConfigError>)
    requires
        d <= max,
    ensures
        match r {
            Ok(v) => uint_ok(src@, section, key, max as nat) && v as nat == uint_or(src@, section, key, max as nat, d as nat) && v <= max,
            Err(e) => !uint_ok(src@, section, key, max as nat) && e@ == ErrorView::InvalidValue(section@, key@),
        },
{
    match src.read_unsigned(&owned(section), &owned(key), max)? {
        Some(v) => Ok(v),
        None => Ok(d),
    }
}

fn read_uint_opt(src: &Sources, section: &str, key: &str, max: u64) -> (r: Result<Option<u64>, ConfigError>)
    ensures
        match r {
            Ok(v) => uint_ok(src@, section, key, max as nat) && opt_u64(v) == uint_opt(src@, section, key, max as nat)
                && (v matches Some(x) ==> x <= max),
            Err(e) => !uint_ok(src@, section, key, max as nat) && e@ == ErrorView::InvalidValue(section@, key@),
        },
{
    src.read_unsigned(&owned(section), &owned(key), max)
}

fn read_uint_req(src: &Sources, section: &str, key: &str, max: u64) -> (r: Result<u64, ConfigError>)
    ensures
        match r {
            Ok(v) => unsigned_of(at(src@, section, key), max as nat) == Decoded::Value(v as nat) && v <= max,
            Err(e) => match unsigned_of(at(src@, section, key), max as nat) {
                Decoded::Absent => e@ == ErrorView::MissingField(section@, key@),
                Decoded::Invalid => e@ == ErrorView::InvalidValue(section@, key@),
                Decoded::Value(_) => false,
            },
        },
{
    match src.read_unsigned(&owned(section), &owned(key), max)? {
        Some(v) => Ok(v),
        None => Err(ConfigError::MissingField(owned(section), owned(key))),
    }
}

/// An error of reading the typed sections, which names a field that the sources leave
/// out (a required one) or set (to a value that its kind refuses).
pub open spec fn read_error(s: SourcesView, e: ErrorView) -> bool {
    match e {
        ErrorView::MissingField(section, key) => lookup(s, section, key) is None,
        ErrorView::InvalidValue(section, key) => lookup(s, section, key) is Some,
        ErrorView::InvalidNetwork => lookup(s, "stratum"@, "network"@) is Some,
        ErrorView::InvalidVersionMask => lookup(s, "stratum"@, "version_mask"@) is Some,
        _ => false,
    }
}

// The network section.

pub open spec fn network_ok(s: SourcesView) -> bool {
    &&& text_ok(s, "network", "listen_address")
    &&& decoded_ok(list_of(at(s, "network", "dial_peers")))
    &&& uint_ok(s, "network", "max_pending_incoming", U32_MAX as nat)
    &&& uint_ok(s, "network", "max_pending_outgoing", U32_MAX as nat)
    &&& uint_ok(s, "network", "max_established_incoming", U32_MAX as nat)
    &&& uint_ok(s, "network", "max_established_outgoing", U32_MAX as nat)
    &&& uint_ok(s, "network", "max_established_per_peer", U32_MAX as nat)
    &&& uint_ok(s, "network", "max_workbase_per_second", U32_MAX as nat)
    &&& uint_ok(s, "network", "max_userworkbase_per_second", U32_MAX as nat)
    &&& uint_ok(s, "network", "max_miningshare_per_second", U32_MAX as nat)
    &&& uint_ok(s, "network", "max_inventory_per_second", U32_MAX as nat)
    &&& uint_ok(s, "network", "max_transaction_per_second", U32_MAX as nat)
    &&& uint_ok(s, "network", "rate_limit_window_secs", U64_MAX as nat)
    &&& uint_ok(s, "network", "max_requests_per_second", U64_MAX as nat)
    &&& uint_ok(s, "network", "peer_inactivity_timeout_secs", U64_MAX as nat)
    &&& uint_ok(s, "network", "dial_timeout_secs", U64_MAX as nat)
}

/// Each field of `n` holds what the sources set, or its default.
pub open spec fn network_is(s: SourcesView, n: NetworkConfig) -> bool {
    &&& n.listen_address@ == text_or(s, "network", "listen_address", "/ip4/0.0.0.0/tcp/6884"@)
    &&& string_views(n.dial_peers@) == value_or(list_of(at(s, "network", "dial_peers")), Seq::empty())
    &&& n.max_pending_incoming as nat == uint_or(s, "network", "max_pending_incoming", U32_MAX as nat, 10)
    &&& n.max_pending_outgoing as nat == uint_or(s, "network", "max_pending_outgoing", U32_MAX as nat, 10)
    &&& n.max_established_incoming as nat == uint_or(s, "network", "max_established_incoming", U32_MAX as nat, 50)
    &&& n.max_established_outgoing as nat == uint_or(s, "network", "max_established_outgoing", U32_MAX as nat, 50)
    &&& n.max_established_per_peer as nat == uint_or(s, "network", "max_established_per_peer", U32_MAX as nat, 1)
    &&& n.max_workbase_per_second as nat == uint_or(s, "network", "max_workbase_per_second", U32_MAX as nat, 10)
    &&& n.max_userworkbase_per_second as nat == uint_or(s, "network", "max_userworkbase_per_second", U32_MAX as nat, 10)
    &&& n.max_miningshare_per_second as nat == uint_or(s, "network", "max_miningshare_per_second", U32_MAX as nat, 100)
    &&& n.max_inventory_per_second as nat == uint_or(s, "network", "max_inventory_per_second", U32_MAX as nat, 100)
    &&& n.max_transaction_per_second as nat == uint_or(s, "network", "max_transaction_per_second", U32_MAX as nat, 100)
    &&& n.rate_limit_window_secs as nat == uint_or(s, "network", "rate_limit_window_secs", U64_MAX as nat, 1)
    &&& n.max_requests_per_second as nat == uint_or(s, "network", "max_requests_per_second", U64_MAX as nat, 1)
    &&& n.peer_inactivity_timeout_secs as nat == uint_or(s, "network", "peer_inactivity_timeout_secs", U64_MAX as nat, 60)
    &&& n.dial_timeout_secs as nat == uint_or(s, "network", "dial_timeout_secs", U64_MAX as nat, 30)
}

fn read_u32(src: &Sources, key: &str, d: u32) -> (r: Result<u32, ConfigError>)
    ensures
        match r {
            Ok(v) => uint_ok(src@, "network", key, U32_MAX as nat) && v as nat == uint_or(src@, "network", key, U32_MAX as nat, d as nat),
            Err(e) => !uint_ok(src@, "network", key, U32_MAX as nat) && read_error(src@, e@),
        },
{
    let v = read_uint_or(src, "network", key, U32_MAX, d as u64)?;
    Ok(v as u32)
}

fn read_u64(src: &Sources, key: &str, d: u64) -> (r: Result<u64, ConfigError>)
    ensures
        match r {
            Ok(v) => uint_ok(src@, "network", key, U64_MAX as nat) && v as nat == uint_or(src@, "network", key, U64_MAX as nat, d as nat),
            Err(e) => !uint_ok(src@, "network", key, U64_MAX as nat) && read_error(src@, e@),
        },
{
    read_uint_or(src, "network", key, U64_MAX, d)
}

impl NetworkConfig {
    /// Reads the network section; every field has a default.
    pub fn read(src: &Sources) -> (r: Result<NetworkConfig, ConfigError>)
        ensures
            match r {
                Ok(n) => network_ok(src@) && network_is(src@, n),
                Err(e) => !network_ok(src@) && read_error(src@, e@),
            },
    {
        let listen_address = read_text_or(src, "network", "listen_address", "/ip4/0.0.0.0/tcp/6884")?;
        let dial_peers = match src.read_list(&owned("network"), &owned("dial_peers"))? {
            Some(l) => l,
            None => {
                let l: Vec<String> = Vec::new();
                assert(string_views(l@) =~= Seq::<Seq<char>>::empty());
                l
            },
        };
        let max_pending_incoming = read_u32(src, "max_pending_incoming", 10)?;
        let max_pending_outgoing = read_u32(src, "max_pending_outgoing", 10)?;
        let max_established_incoming = read_u32(src, "max_established_incoming", 50)?;
        let max_established_outgoing = read_u32(src, "max_established_outgoing", 50)?;
        let max_established_per_peer = read_u32(src, "max_established_per_peer", 1)?;
        let max_workbase_per_second = read_u32(src, "max_workbase_per_second", 10)?;
        let max_userworkbase_per_second = read_u32(src, "max_userworkbase_per_second", 10)?;
        let max_miningshare_per_second = read_u32(src, "max_miningshare_per_second", 100)?;
        let max_inventory_per_second = read_u32(src, "max_inventory_per_second", 100)?;
        let max_transaction_per_second = read_u32(src, "max_transaction_per_second", 100)?;
        let rate_limit_window_secs = read_u64(src, "rate_limit_window_secs", 1)?;
        let max_requests_per_second = read_u64(src, "max_requests_per_second", 1)?;
        let peer_inactivity_timeout_secs = read_u64(src, "peer_inactivity_timeout_secs", 60)?;
        let dial_timeout_secs = read_u64(src, "dial_timeout_secs", 30)?;
        Ok(NetworkConfig {
            listen_address,
            dial_peers,
            max_pending_incoming,
            max_pending_outgoing,
            max_established_incoming,
            max_established_outgoing,
            max_established_per_peer,
            max_workbase_per_second,
            max_userworkbase_per_second,
            max_miningshare_per_second,
            max_inventory_per_second,
            max_transaction_per_second,
            rate_limit_window_secs,
            max_requests_per_second,
            peer_inactivity_timeout_secs,
            dial_timeout_secs,
        })
    }
}

pub open spec fn present(s: SourcesView, section: &str) -> bool {
    section_set(s, section@)
}

pub open spec fn required(s: SourcesView, section: &str, key: &str) -> bool {
    text_of(at(s, section, key)) is Value
}

// The store section.

pub open spec fn store_ok(s: SourcesView) -> bool {
    present(s, "store") ==> {
        &&& required(s, "store", "path")
        &&& uint_ok(s, "store", "background_task_frequency_hours", U64_MAX as nat)
        &&& uint_ok(s, "store", "pplns_ttl_days", U64_MAX as nat)
    }
}

pub open spec fn store_is(s: SourcesView, o: Option<StoreConfig>) -> bool {
    if present(s, "store") {
        o matches Some(c) && {
            &&& text_of(at(s, "store", "path")) == Decoded::Value(c.path@)
            &&& c.background_task_frequency_hours as nat == uint_or(s, "store", "background_task_frequency_hours", U64_MAX as nat, 1)
            &&& c.pplns_ttl_days as nat == uint_or(s, "store", "pplns_ttl_days", U64_MAX as nat, 7)
        }
    } else {
        o is None
    }
}

impl StoreConfig {
    /// Reads the store section where any of its fields is set; its path is required.
    pub fn read(src: &Sources) -> (r: Result<Option<StoreConfig>, ConfigError>)
        ensures
            match r {
                Ok(o) => store_ok(src@) && store_is(src@, o),
                Err(e) => !store_ok(src@) && read_error(src@, e@),
            },
    {
        if !src.has_section(&owned("store")) {
            return Ok(None);
        }
        let path = read_text_req(src, "store", "path")?;
        let background_task_frequency_hours = read_uint_or(src, "store", "background_task_frequency_hours", U64_MAX, 1)?;
        let pplns_ttl_days = read_uint_or(src, "store", "pplns_ttl_days", U64_MAX, 7)?;
        Ok(Some(StoreConfig { path, background_task_frequency_hours, pplns_ttl_days }))
    }
}

// The miner section.

pub open spec fn miner_ok(s: SourcesView) -> bool {
    present(s, "miner") ==> required(s, "miner", "pubkey")
}

pub open spec fn miner_is(s: SourcesView, o: Option<MinerConfig>) -> bool {
    if present(s, "miner") {
        o matches Some(c) && text_of(at(s, "miner", "pubkey")) == Decoded::Value(c.pubkey@)
    } else {
        o is None
    }
}

impl MinerConfig {
    /// Reads the miner section where any of its fields is set; its key is required.
    pub fn read(src: &Sources) -> (r: Result<Option<MinerConfig>, ConfigError>)
        ensures
            match r {
                Ok(o) => miner_ok(src@) && miner_is(src@, o),
                Err(e) => !miner_ok(src@) && read_error(src@, e@),
            },
    {
        if !src.has_section(&owned("miner")) {
            return Ok(None);
        }
        let pubkey = read_text_req(src, "miner", "pubkey")?;
        Ok(Some(MinerConfig { pubkey }))
    }
}

// The section of the node's RPC interface.

pub open spec fn rpc_ok(s: SourcesView) -> bool {
    present(s, "bitcoinrpc") ==> {
        &&& required(s, "bitcoinrpc", "url")
        &&& required(s, "bitcoinrpc", "username")
        &&& required(s, "bitcoinrpc", "password")
    }
}

pub open spec fn rpc_is(s: SourcesView, o: Option<BitcoinRpcConfig>) -> bool {
    if present(s, "bitcoinrpc") {
        o matches Some(c) && {
            &&& text_of(at(s, "bitcoinrpc", "url")) == Decoded::Value(c.url@)
            &&& text_of(at(s, "bitcoinrpc", "username")) == Decoded::Value(c.username@)
            &&& text_of(at(s, "bitcoinrpc", "password")) == Decoded::Value(c.password@)
        }
    } else {
        o is None
    }
}

impl BitcoinRpcConfig {
    /// Reads the RPC section where any of its fields is set; all three are required.
    pub fn read(src: &Sources) -> (r: Result<Option<BitcoinRpcConfig>, ConfigError>)
        ensures
            match r {
                Ok(o) => rpc_ok(src@) && rpc_is(src@, o),
                Err(e) => !rpc_ok(src@) && read_error(src@, e@),
            },
    {
        if !src.has_section(&owned("bitcoinrpc")) {
            return Ok(None);
        }
        let url = read_text_req(src, "bitcoinrpc", "url")?;
        let username = read_text_req(src, "bitcoinrpc", "username")?;
        let password = read_text_req(src, "bitcoinrpc", "password")?;
        Ok(Some(BitcoinRpcConfig { url, username, password }))
    }
}

// The logging section.

pub open spec fn logging_ok(s: SourcesView) -> bool {
    &&& text_ok(s, "logging", "file")
    &&& text_ok(s, "logging", "level")
    &&& text_ok(s, "logging", "stats_dir")
}

pub open spec fn logging_is(s: SourcesView, c: LoggingConfig) -> bool {
    &&& opt_text(c.file) == text_opt(s, "logging", "file")
    &&& c.level@ == text_or(s, "logging", "level", "info"@)
    &&& c.stats_dir@ == text_or(s, "logging", "stats_dir", "./logs/stats"@)
}

impl LoggingConfig {
    /// Reads the logging section; every field has a default or may be left out.
    pub fn read(src: &Sources) -> (r: Result<LoggingConfig, ConfigError>)
        ensures
            match r {
                Ok(c) => logging_ok(src@) && logging_is(src@, c),
                Err(e) => !logging_ok(src@) && read_error(src@, e@),
            },
    {
        let file = read_text_opt(src, "logging", "file")?;
        let level = read_text_or(src, "logging", "level", "info")?;
        let stats_dir = read_text_or(src, "logging", "stats_dir", "./logs/stats")?;
        Ok(LoggingConfig { file, level, stats_dir })
    }
}

// The API section.

pub open spec fn api_ok(s: SourcesView) -> bool {
    present(s, "api") ==> {
        &&& required(s, "api", "hostname")
        &&& unsigned_of(at(s, "api", "port"), U16_MAX as nat) is Value
        &&& text_ok(s, "api", "auth_user")
        &&& text_ok(s, "api", "auth_token")
    }
}

pub open spec fn api_is(s: SourcesView, o: Option<ApiConfig>) -> bool {
    if present(s, "api") {
        o matches Some(c) && {
            &&& text_of(at(s, "api", "hostname")) == Decoded::Value(c.hostname@)
            &&& unsigned_of(at(s, "api", "port"), U16_MAX as nat) == Decoded::Value(c.port as nat)
            &&& opt_text(c.auth_user) == text_opt(s, "api", "auth_user")
            &&& opt_text(c.auth_token) == text_opt(s, "api", "auth_token")
        }
    } else {
        o is None
    }
}

impl ApiConfig {
    /// Reads the API section where any of its fields is set; host and port are required.
    pub fn read(src: &Sources) -> (r: Result<Option<ApiConfig>, ConfigError>)
        ensures
            match r {
                Ok(o) => api_ok(src@) && api_is(src@, o),
                Err(e) => !api_ok(src@) && read_error(src@, e@),
            },
    {
        if !src.has_section(&owned("api")) {
            return Ok(None);
        }
        let hostname = read_text_req(src, "api", "hostname")?;
        let port = read_uint_req(src, "api", "port", U16_MAX)?;
        let auth_user = read_text_opt(src, "api", "auth_user")?;
        let auth_token = read_text_opt(src, "api", "auth_token")?;
        Ok(Some(ApiConfig { hostname, port: port as u16, auth_user, auth_token }))
    }
}

// The stratum section.

pub open spec fn network_field(s: SourcesView) -> Decoded<Network> {
    match text_of(at(s, "stratum", "network")) {
        Decoded::Value(t) => match network_named(t) {
            Some(n) => Decoded::Value(n),
            None => Decoded::Invalid,
        },
        Decoded::Absent => Decoded::Absent,
        Decoded::Invalid => Decoded::Invalid,
    }
}

pub open spec fn version_mask_field(s: SourcesView) -> Decoded<i32> {
    match text_of(at(s, "stratum", "version_mask")) {
        Decoded::Value(t) => match hex_i32_text(t) {
            Some(v) => Decoded::Value(v),
            None => Decoded::Invalid,
        },
        Decoded::Absent => Decoded::Absent,
        Decoded::Invalid => Decoded::Invalid,
    }
}

pub open spec fn multiplier_field(s: SourcesView) -> Decoded<Multiplier> {
    match text_of(at(s, "stratum", "difficulty_multiplier")) {
        Decoded::Value(t) => match multiplier_text(t) {
            Some(v) => Decoded::Value(v),
            None => Decoded::Invalid,
        },
        Decoded::Absent => Decoded::Absent,
        Decoded::Invalid => Decoded::Invalid,
    }
}

pub open spec fn default_multiplier() -> Multiplier {
    Multiplier { mantissa: 1, scale: 0 }
}

pub open spec fn stratum_fields_ok(s: SourcesView) -> bool {
    &&& text_ok(s, "stratum", "hostname")
    &&& uint_ok(s, "stratum", "port", U16_MAX as nat)
    &&& uint_ok(s, "stratum", "start_difficulty", U64_MAX as nat)
    &&& uint_ok(s, "stratum", "minimum_difficulty", U64_MAX as nat)
    &&& uint_ok(s, "stratum", "maximum_difficulty", U64_MAX as nat)
    &&& text_ok(s, "stratum", "solo_address")
    &&& text_ok(s, "stratum", "zmqpubhashblock")
    &&& text_ok(s, "stratum", "bootstrap_address")
    &&& text_ok(s, "stratum", "donation_address")
    &&& uint_ok(s, "stratum", "donation", U16_MAX as nat)
    &&& text_ok(s, "stratum", "fee_address")
    &&& uint_ok(s, "stratum", "fee", U16_MAX as nat)
    &&& decoded_ok(network_field(s))
    &&& decoded_ok(version_mask_field(s))
    &&& decoded_ok(multiplier_field(s))
    &&& decoded_ok(flag_of(at(s, "stratum", "ignore_difficulty")))
    &&& text_ok(s, "stratum", "pool_signature")
}

pub open spec fn stratum_ok(s: SourcesView) -> bool {
    present(s, "stratum") ==> stratum_fields_ok(s)
}

/// Each field of `c` holds what the sources set, or its default; no address is checked.
pub open spec fn stratum_fields_are<T>(s: SourcesView, c: StratumConfig<T>) -> bool {
    &&& c.hostname@ == text_or(s, "stratum", "hostname", "0.0.0.0"@)
    &&& c.port as nat == uint_or(s, "stratum", "port", U16_MAX as nat, 3333)
    &&& c.start_difficulty as nat == uint_or(s, "stratum", "start_difficulty", U64_MAX as nat, 10000)
    &&& c.minimum_difficulty as nat == uint_or(s, "stratum", "minimum_difficulty", U64_MAX as nat, 100)
    &&& opt_u64(c.maximum_difficulty) == uint_opt(s, "stratum", "maximum_difficulty", U64_MAX as nat)
    &&& opt_text(c.solo_address) == text_opt(s, "stratum", "solo_address")
    &&& c.zmqpubhashblock@ == text_or(s, "stratum", "zmqpubhashblock", "tcp://127.0.0.1:28332"@)
    &&& opt_text(c.bootstrap_address) == text_opt(s, "stratum", "bootstrap_address")
    &&& opt_text(c.donation_address) == text_opt(s, "stratum", "donation_address")
    &&& opt_u16(c.donation) == uint_opt(s, "stratum", "donation", U16_MAX as nat)
    &&& opt_text(c.fee_address) == text_opt(s, "stratum", "fee_address")
    &&& opt_u16(c.fee) == uint_opt(s, "stratum", "fee", U16_MAX as nat)
    &&& c.network == value_or(network_field(s), Network::Signet)
    &&& c.version_mask == value_or(version_mask_field(s), 0x1fffe000i32)
    &&& c.difficulty_multiplier == value_or(multiplier_field(s), default_multiplier())
    &&& c.difficulty_multiplier.scale <= MAX_SCALE
    &&& c.ignore_difficulty == value_opt(flag_of(at(s, "stratum", "ignore_difficulty")))
    &&& opt_text(c.pool_signature) == text_opt(s, "stratum", "pool_signature")
}

pub open spec fn stratum_is(s: SourcesView, o: Option<StratumConfig<Raw>>) -> bool {
    if present(s, "stratum") {
        o matches Some(c) && stratum_fields_are(s, c) && c.bootstrap_address_parsed is None
            && c.donation_address_parsed is None && c.fee_address_parsed is None
    } else {
        o is None
    }
}

fn read_network_name(src: &Sources) -> (r: Result<Network, ConfigError>)
    ensures
        match r {
            Ok(n) => decoded_ok(network_field(src@)) && n == value_or(network_field(src@), Network::Signet),
            Err(e) => !decoded_ok(network_field(src@)) && read_error(src@, e@),
        },
{
    match src.read_text(&owned("stratum"), &owned("network"))? {
        Some(t) => match Network::from_core_arg(t.as_str()) {
            Some(n) => Ok(n),
            None => Err(ConfigError::InvalidNetwork),
        },
        None => Ok(Network::Signet),
    }
}

fn read_version_mask(src: &Sources) -> (r: Result<i32, ConfigError>)
    ensures
        match r {
            Ok(v) => decoded_ok(version_mask_field(src@)) && v == value_or(version_mask_field(src@), 0x1fffe000i32),
            Err(e) => !decoded_ok(version_mask_field(src@)) && read_error(src@, e@),
        },
{
    match src.read_text(&owned("stratum"), &owned("version_mask"))? {
        Some(t) => match parse_hex_i32(&chars_of(t.as_str())) {
            Some(v) => Ok(v),
            None => Err(ConfigError::InvalidVersionMask),
        },
        None => Ok(0x1fffe000),
    }
}

fn read_multiplier(src: &Sources) -> (r: Result<Multiplier, ConfigError>)
    ensures
        match r {
            Ok(v) => decoded_ok(multiplier_field(src@)) && v == value_or(multiplier_field(src@), default_multiplier())
                && v.scale <= MAX_SCALE,
            Err(e) => !decoded_ok(multiplier_field(src@)) && read_error(src@, e@),
        },
{
    match src.read_text(&owned("stratum"), &owned("difficulty_multiplier"))? {
        Some(t) => match Multiplier::parse(&chars_of(t.as_str())) {
            Some(v) => Ok(v),
            None => Err(ConfigError::InvalidValue(owned("stratum"), owned("difficulty_multiplier"))),
        },
        None => Ok(Multiplier { mantissa: 1, scale: 0 }),
    }
}

fn read_u16_opt(src: &Sources, key: &str) -> (r: Result<Option<u16>, ConfigError>)
    ensures
        match r {
            Ok(v) => uint_ok(src@, "stratum", key, U16_MAX as nat) && opt_u16(v) == uint_opt(src@, "stratum", key, U16_MAX as nat),
            Err(e) => !uint_ok(src@, "stratum", key, U16_MAX as nat) && read_error(src@, e@),
        },
{
    match read_uint_opt(src, "stratum", key, U16_MAX)? {
        Some(v) => Ok(Some(v as u16)),
        None => Ok(None),
    }
}

impl StratumConfig<Raw> {
    /// Reads the stratum section where any of its fields is set; every field has a
    /// default or may be left out.
    pub fn read(src: &Sources) -> (r: Result<Option<StratumConfig<Raw>>, ConfigError>)
        ensures
            match r {
                Ok(o) => stratum_ok(src@) && stratum_is(src@, o),
                Err(e) => !stratum_ok(src@) && read_error(src@, e@),
            },
    {
        if !src.has_section(&owned("stratum")) {
            return Ok(None);
        }
        let hostname = read_text_or(src, "stratum", "hostname", "0.0.0.0")?;
        let port = read_uint_or(src, "stratum", "port", U16_MAX, 3333)?;
        let start_difficulty = read_uint_or(src, "stratum", "start_difficulty", U64_MAX, 10000)?;
        let minimum_difficulty = read_uint_or(src, "stratum", "minimum_difficulty", U64_MAX, 100)?;
        let maximum_difficulty = read_uint_opt(src, "stratum", "maximum_difficulty", U64_MAX)?;
        let solo_address = read_text_opt(src, "stratum", "solo_address")?;
        let zmqpubhashblock = read_text_or(src, "stratum", "zmqpubhashblock", "tcp://127.0.0.1:28332")?;
        let bootstrap_address = read_text_opt(src, "stratum", "bootstrap_address")?;
        let donation_address = read_text_opt(src, "stratum", "donation_address")?;
        let donation = read_u16_opt(src, "donation")?;
        let fee_address = read_text_opt(src, "stratum", "fee_address")?;
        let fee = read_u16_opt(src, "fee")?;
        let network = read_network_name(src)?;
        let version_mask = read_version_mask(src)?;
        let difficulty_multiplier = read_multiplier(src)?;
        let ignore_difficulty = src.read_flag(&owned("stratum"), &owned("ignore_difficulty"))?;
        let pool_signature = read_text_opt(src, "stratum", "pool_signature")?;
        Ok(Some(StratumConfig {
            hostname,
            port: port as u16,
            start_difficulty,
            minimum_difficulty,
            maximum_difficulty,
            solo_address,
            zmqpubhashblock,
            bootstrap_address,
            donation_address,
            donation,
            fee_address,
            fee,
            network,
            version_mask,
            difficulty_multiplier,
            ignore_difficulty,
            pool_signature,
            bootstrap_address_parsed: None,
            donation_address_parsed: None,
            fee_address_parsed: None,
            _state: PhantomData,
        }))
    }
}

// Checking the stratum section.

/// An address field that is set holds an address of the network.
pub open spec fn address_fails(a: Option<String>, n: Network) -> bool {
    a matches Some(x) && !address_valid(x@, n)
}

/// The first rule, in the order in which they are checked, that the section breaks.
pub open spec fn first_violation<T>(c: StratumConfig<T>) -> Option<ValidationError> {
    if c.pool_signature matches Some(sig) && sig@.len() > MAX_POOL_SIGNATURE_LENGTH {
        Some(ValidationError::SignatureTooLong)
    } else if address_fails(c.bootstrap_address, c.network) {
        Some(ValidationError::InvalidAddress(AddressField::Bootstrap))
    } else if address_fails(c.donation_address, c.network) {
        Some(ValidationError::InvalidAddress(AddressField::Donation))
    } else if c.donation is Some && c.donation_address is None {
        Some(ValidationError::AddressRequired(AddressField::Donation))
    } else if address_fails(c.fee_address, c.network) {
        Some(ValidationError::InvalidAddress(AddressField::Fee))
    } else if c.fee is Some && c.fee_address is None {
        Some(ValidationError::AddressRequired(AddressField::Fee))
    } else if address_fails(c.solo_address, c.network) {
        Some(ValidationError::InvalidAddress(AddressField::Solo))
    } else {
        None
    }
}

/// The two sections agree in every field that the file can set.
pub open spec fn same_fields<A, B>(a: StratumConfig<A>, b: StratumConfig<B>) -> bool {
    &&& a.hostname@ == b.hostname@
    &&& a.port == b.port
    &&& a.start_difficulty == b.start_difficulty
    &&& a.minimum_difficulty == b.minimum_difficulty
    &&& a.maximum_difficulty == b.maximum_difficulty
    &&& opt_text(a.solo_address) == opt_text(b.solo_address)
    &&& a.zmqpubhashblock@ == b.zmqpubhashblock@
    &&& opt_text(a.bootstrap_address) == opt_text(b.bootstrap_address)
    &&& opt_text(a.donation_address) == opt_text(b.donation_address)
    &&& a.donation == b.donation
    &&& opt_text(a.fee_address) == opt_text(b.fee_address)
    &&& a.fee == b.fee
    &&& a.network == b.network
    &&& a.version_mask == b.version_mask
    &&& a.difficulty_multiplier == b.difficulty_multiplier
    &&& a.ignore_difficulty == b.ignore_difficulty
    &&& opt_text(a.pool_signature) == opt_text(b.pool_signature)
}

/// The checked form of an address field: present exactly where the field is set, with
/// the same text and the section's network.
pub open spec fn checked_form(a: Option<String>, p: Option<NetworkAddress>, n: Network) -> bool {
    match a {
        Some(x) => p matches Some(q) && q.address@ == x@ && q.network == n,
        None => p is None,
    }
}

fn check_field(
    a: &Option<String>,
    n: Network,
    field: AddressField,
) -> (r: Result<Option<NetworkAddress>, ConfigError>)
    ensures
        match r {
            Ok(p) => !address_fails(*a, n) && checked_form(*a, p, n),
            Err(e) => address_fails(*a, n) && e@ == ErrorView::Invalid(
                ValidationError::InvalidAddress(field),
            ),
        },
{
    match a {
        Some(x) => {
            if check_address(x.as_str(), n) {
                Ok(Some(NetworkAddress { address: x.clone(), network: n }))
            } else {
                Err(ConfigError::Invalid(ValidationError::InvalidAddress(field)))
            }
        },
        None => Ok(None),
    }
}

impl StratumConfig<Raw> {
    /// Checks the section: the signature's length, each address against the network,
    /// and that each share has its address. Fails with the first rule that is broken.
    pub fn parse(self) -> (r: Result<StratumConfig<Parsed>, ConfigError>)
        ensures
            match r {
                Ok(p) => {
                    &&& first_violation(self) is None
                    &&& same_fields(self, p)
                    &&& checked_form(self.bootstrap_address, p.bootstrap_address_parsed, self.network)
                    &&& checked_form(self.donation_address, p.donation_address_parsed, self.network)
                    &&& checked_form(self.fee_address, p.fee_address_parsed, self.network)
                },
                Err(e) => first_violation(self) matches Some(v) && e@ == ErrorView::Invalid(v),
            },
    {
        if let Some(sig) = &self.pool_signature {
            if sig.as_str().unicode_len() > MAX_POOL_SIGNATURE_LENGTH {
                return Err(ConfigError::Invalid(ValidationError::SignatureTooLong));
            }
        }
        let bootstrap = check_field(&self.bootstrap_address, self.network, AddressField::Bootstrap)?;
        let donation = check_field(&self.donation_address, self.network, AddressField::Donation)?;
        if self.donation.is_some() && donation.is_none() {
            return Err(ConfigError::Invalid(ValidationError::AddressRequired(AddressField::Donation)));
        }
        let fee = check_field(&self.fee_address, self.network, AddressField::Fee)?;
        if self.fee.is_some() && fee.is_none() {
            return Err(ConfigError::Invalid(ValidationError::AddressRequired(AddressField::Fee)));
        }
        if let Some(a) = &self.solo_address {
            if !check_address(a.as_str(), self.network) {
                return Err(ConfigError::Invalid(ValidationError::InvalidAddress(AddressField::Solo)));
            }
        }
        Ok(StratumConfig {
            hostname: self.hostname,
            port: self.port,
            start_difficulty: self.start_difficulty,
            minimum_difficulty: self.minimum_difficulty,
            maximum_difficulty: self.maximum_difficulty,
            solo_address: self.solo_address,
            zmqpubhashblock: self.zmqpubhashblock,
            bootstrap_address: self.bootstrap_address,
            donation_address: self.donation_address,
            donation: self.donation,
            fee_address: self.fee_address,
            fee: self.fee,
            network: self.network,
            version_mask: self.version_mask,
            difficulty_multiplier: self.difficulty_multiplier,
            ignore_difficulty: self.ignore_difficulty,
            pool_signature: self.pool_signature,
            bootstrap_address_parsed: bootstrap,
            donation_address_parsed: donation,
            fee_address_parsed: fee,
            _state: PhantomData,
        })
    }
}

impl From<StratumConfig<Parsed>> for StratumConfig<Raw> {
    /// Forgets the checked forms of the addresses and keeps every other field.
    fn from(parsed: StratumConfig<Parsed>) -> (r: StratumConfig<Raw>)
        ensures
            same_fields(parsed, r),
            r.bootstrap_address_parsed is None,
            r.donation_address_parsed is None,
            r.fee_address_parsed is None,
    {
        StratumConfig {
            hostname: parsed.hostname,
            port: parsed.port,
            start_difficulty: parsed.start_difficulty,
            minimum_difficulty: parsed.minimum_difficulty,
            maximum_difficulty: parsed.maximum_difficulty,
            solo_address: parsed.solo_address,
            zmqpubhashblock: parsed.zmqpubhashblock,
            bootstrap_address: parsed.bootstrap_address,
            donation_address: parsed.donation_address,
            donation: parsed.donation,
            fee_address: parsed.fee_address,
            fee: parsed.fee,
            network: parsed.network,
            version_mask: parsed.version_mask,
            difficulty_multiplier: parsed.difficulty_multiplier,
            ignore_difficulty: parsed.ignore_difficulty,
            pool_signature: parsed.pool_signature,
            bootstrap_address_parsed: None,
            donation_address_parsed: None,
            fee_address_parsed: None,
            _state: PhantomData,
        }
    }
}

impl vstd::std_specs::convert::FromSpecImpl<StratumConfig<Parsed>> for StratumConfig<Raw> {
    open spec fn obeys_from_spec() -> bool {
        true
    }

    open spec fn from_spec(parsed: StratumConfig<Parsed>) -> StratumConfig<Raw> {
        StratumConfig {
            hostname: parsed.hostname,
            port: parsed.port,
            start_difficulty: parsed.start_difficulty,
            minimum_difficulty: parsed.minimum_difficulty,
            maximum_difficulty: parsed.maximum_difficulty,
            solo_address: parsed.solo_address,
            zmqpubhashblock: parsed.zmqpubhashblock,
            bootstrap_address: parsed.bootstrap_address,
            donation_address: parsed.donation_address,
            donation: parsed.donation,
            fee_address: parsed.fee_address,
            fee: parsed.fee,
            network: parsed.network,
            version_mask: parsed.version_mask,
            difficulty_multiplier: parsed.difficulty_multiplier,
            ignore_difficulty: parsed.ignore_difficulty,
            pool_signature: parsed.pool_signature,
            bootstrap_address_parsed: None,
            donation_address_parsed: None,
            fee_address_parsed: None,
            _state: PhantomData,
        }
    }
}

// Flattening into display entries.

pub struct EntryView {
    pub section: Seq<char>,
    pub key: Seq<char>,
    pub value: Seq<char>,
    pub is_default: bool,
}

impl View for ConfigEntry {
    type V = EntryView;

    open spec fn view(&self) -> EntryView {
        EntryView {
            section: self.section@,
            key: self.key@,
            value: self.value@,
            is_default: self.is_default,
        }
    }
}

pub open spec fn entries_view(v: Seq<ConfigEntry>) -> Seq<EntryView> {
    v.map_values(|e: ConfigEntry| e@)
}

/// Which sections the file text names by their `[section]` marker.
#[derive(Debug, Clone, Copy, PartialEq, Eq, Structural)]
pub struct SectionMarkers {
    pub network: bool,
    pub store: bool,
    pub stratum: bool,
    pub miner: bool,
    pub bitcoinrpc: bool,
    pub logging: bool,
    pub api: bool,
}

pub open spec fn ent(section: &str, key: &str, value: Seq<char>, is_default: bool) -> EntryView {
    EntryView { section: section@, key: key@, value, is_default }
}

/// An entry where the value is set, none where it is not; such an entry is never a
/// default.
pub open spec fn opt_ent(section: &str, key: &str, value: Option<Seq<char>>) -> Seq<EntryView> {
    opt_entry(section, key, value, false)
}

pub open spec fn opt_entry(section: &str, key: &str, value: Option<Seq<char>>, is_default: bool) -> Seq<EntryView> {
    match value {
        Some(v) => seq![ent(section, key, v, is_default)],
        None => Seq::empty(),
    }
}

/// How a secret is shown: a fixed mask, or a marker where it is empty.
pub open spec fn masked(s: Seq<char>) -> Seq<char> {
    if s.len() == 0 {
        "<empty>"@
    } else {
        "*****"@
    }
}

/// How a share in basis points is shown: `150 bp (1.50%)`, or `100 bp (1%)` for a whole
/// percentage.
pub open spec fn basis_points_text(v: nat) -> Seq<char> {
    decimal(v) + " bp ("@ + (if v % 100 == 0 {
        decimal(v / 100)
    } else {
        decimal(v / 100) + seq!['.', digit_char((v % 100) / 10), digit_char(v % 10)]
    }) + "%)"@
}

/// The items separated by a comma and a space.
pub open spec fn joined(items: Seq<Seq<char>>) -> Seq<char>
    decreases items.len(),
{
    if items.len() == 0 {
        Seq::empty()
    } else if items.len() == 1 {
        items[0]
    } else {
        joined(items.drop_last()) + ", "@ + items.last()
    }
}

pub open spec fn flag_label(b: bool) -> Seq<char> {
    if b {
        "true"@
    } else {
        "false"@
    }
}

pub open spec fn opt_decimal(v: Option<nat>) -> Option<Seq<char>> {
    match v {
        Some(n) => Some(decimal(n)),
        None => None,
    }
}

pub open spec fn opt_basis_points(v: Option<u16>) -> Option<Seq<char>> {
    match v {
        Some(n) => Some(basis_points_text(n as nat)),
        None => None,
    }
}

pub open spec fn opt_flag(v: Option<bool>) -> Option<Seq<char>> {
    match v {
        Some(b) => Some(flag_label(b)),
        None => None,
    }
}

pub open spec fn network_head(n: NetworkConfig, d: bool) -> Seq<EntryView> {
    seq![
        ent("network", "listen_address", n.listen_address@, d && n.listen_address@ == "/ip4/0.0.0.0/tcp/6884"@),
        ent("network", "dial_peers", joined(string_views(n.dial_peers@)), d && n.dial_peers@.len() == 0),
        ent("network", "max_pending_incoming", decimal(n.max_pending_incoming as nat), d && n.max_pending_incoming == 10),
        ent("network", "max_pending_outgoing", decimal(n.max_pending_outgoing as nat), d && n.max_pending_outgoing == 10),
    ]
}

pub open spec fn network_links(n: NetworkConfig, d: bool) -> Seq<EntryView> {
    seq![
        ent("network", "max_established_incoming", decimal(n.max_established_incoming as nat), d && n.max_established_incoming == 50),
        ent("network", "max_established_outgoing", decimal(n.max_established_outgoing as nat), d && n.max_established_outgoing == 50),
        ent("network", "max_established_per_peer", decimal(n.max_established_per_peer as nat), d && n.max_established_per_peer == 1),
        ent("network", "max_workbase_per_second", decimal(n.max_workbase_per_second as nat), d && n.max_workbase_per_second == 10),
    ]
}

pub open spec fn network_rates(n: NetworkConfig, d: bool) -> Seq<EntryView> {
    seq![
        ent("network", "max_userworkbase_per_second", decimal(n.max_userworkbase_per_second as nat), d && n.max_userworkbase_per_second == 10),
        ent("network", "max_miningshare_per_second", decimal(n.max_miningshare_per_second as nat), d && n.max_miningshare_per_second == 100),
        ent("network", "max_inventory_per_second", decimal(n.max_inventory_per_second as nat), d && n.max_inventory_per_second == 100),
        ent("network", "max_transaction_per_second", decimal(n.max_transaction_per_second as nat), d && n.max_transaction_per_second == 100),
    ]
}

pub open spec fn network_timing(n: NetworkConfig, d: bool) -> Seq<EntryView> {
    seq![
        ent("network", "rate_limit_window_secs", decimal(n.rate_limit_window_secs as nat), d && n.rate_limit_window_secs == 1),
        ent("network", "max_requests_per_second", decimal(n.max_requests_per_second as nat), d && n.max_requests_per_second == 1),
        ent("network", "peer_inactivity_timeout_secs", decimal(n.peer_inactivity_timeout_secs as nat), d && n.peer_inactivity_timeout_secs == 60),
        ent("network", "dial_timeout_secs", decimal(n.dial_timeout_secs as nat), d && n.dial_timeout_secs == 30),
    ]
}

pub open spec fn network_entries(n: NetworkConfig, marked: bool) -> Seq<EntryView> {
    network_head(n, !marked) + network_links(n, !marked) + network_rates(n, !marked) + network_timing(
        n,
        !marked,
    )
}

pub open spec fn store_entries(o: Option<StoreConfig>, marked: bool) -> Seq<EntryView> {
    match o {
        Some(c) => seq![
            ent("store", "path", c.path@, false),
            ent("store", "background_task_frequency_hours", decimal(c.background_task_frequency_hours as nat), !marked && c.background_task_frequency_hours == 1),
            ent("store", "pplns_ttl_days", decimal(c.pplns_ttl_days as nat), !marked && c.pplns_ttl_days == 7),
        ],
        None => Seq::empty(),
    }
}

pub open spec fn stratum_head(c: StratumConfig<Parsed>, d: bool) -> Seq<EntryView> {
    seq![
        ent("stratum", "hostname", c.hostname@, d && c.hostname@ == "0.0.0.0"@),
        ent("stratum", "port", decimal(c.port as nat), d && c.port == 3333),
        ent("stratum", "start_difficulty", decimal(c.start_difficulty as nat), d && c.start_difficulty == 10000),
        ent("stratum", "minimum_difficulty", decimal(c.minimum_difficulty as nat), d && c.minimum_difficulty == 100),
    ]
}

pub open spec fn stratum_payouts(c: StratumConfig<Parsed>, d: bool) -> Seq<EntryView> {
    stratum_links(c, d) + stratum_shares(c)
}

pub open spec fn stratum_links(c: StratumConfig<Parsed>, d: bool) -> Seq<EntryView> {
    opt_ent("stratum", "maximum_difficulty", opt_decimal(opt_u64(c.maximum_difficulty)))
        + opt_ent("stratum", "solo_address", opt_text(c.solo_address))
        + seq![ent("stratum", "zmqpubhashblock", c.zmqpubhashblock@, d && c.zmqpubhashblock@ == "tcp://127.0.0.1:28332"@)]
        + opt_ent("stratum", "bootstrap_address", opt_text(c.bootstrap_address))
}

pub open spec fn stratum_shares(c: StratumConfig<Parsed>) -> Seq<EntryView> {
    opt_ent("stratum", "donation_address", opt_text(c.donation_address))
        + opt_ent("stratum", "donation", opt_basis_points(c.donation))
        + opt_ent("stratum", "fee_address", opt_text(c.fee_address))
        + opt_ent("stratum", "fee", opt_basis_points(c.fee))
}

pub open spec fn stratum_tail(c: StratumConfig<Parsed>, d: bool) -> Seq<EntryView> {
    seq![
        ent("stratum", "network", network_label(c.network), d && c.network == Network::Signet),
        ent("stratum", "version_mask", hex_digits(c.version_mask as u32 as nat, 8), d && c.version_mask == 0x1fffe000i32),
        ent("stratum", "difficulty_multiplier", one_decimal(c.difficulty_multiplier), d && is_one(c.difficulty_multiplier)),
    ] + opt_ent("stratum", "ignore_difficulty", opt_flag(c.ignore_difficulty))
        + opt_ent("stratum", "pool_signature", opt_text(c.pool_signature))
}

pub open spec fn stratum_entries(o: Option<StratumConfig<Parsed>>, marked: bool) -> Seq<EntryView> {
    match o {
        Some(c) => stratum_head(c, !marked) + stratum_payouts(c, !marked) + stratum_tail(c, !marked),
        None => Seq::empty(),
    }
}

pub open spec fn miner_entries(o: Option<MinerConfig>) -> Seq<EntryView> {
    match o {
        Some(c) => seq![ent("miner", "pubkey", if pubkey_parses(c.pubkey@) { c.pubkey@ } else { "<invalid pubkey>"@ }, false)],
        None => Seq::empty(),
    }
}

pub open spec fn rpc_entries(o: Option<BitcoinRpcConfig>, marked: bool) -> Seq<EntryView> {
    match o {
        Some(c) => seq![
            ent("bitcoinrpc", "url", c.url@, false),
            ent("bitcoinrpc", "username", c.username@, false),
            ent("bitcoinrpc", "password", masked(c.password@), false),
        ],
        None => Seq::empty(),
    }
}

pub open spec fn logging_entries(c: LoggingConfig, marked: bool) -> Seq<EntryView> {
    opt_ent("logging", "file", opt_text(c.file)) + seq![
        ent("logging", "level", c.level@, !marked && c.level@ == "info"@),
        ent("logging", "stats_dir", c.stats_dir@, !marked && c.stats_dir@ == "./logs/stats"@),
    ]
}

pub open spec fn opt_masked(o: Option<String>) -> Option<Seq<char>> {
    match o {
        Some(t) => Some(masked(t@)),
        None => None,
    }
}

pub open spec fn api_entries(o: Option<ApiConfig>, marked: bool) -> Seq<EntryView> {
    match o {
        Some(c) => seq![
            ent("api", "hostname", c.hostname@, false),
            ent("api", "port", decimal(c.port as nat), false),
        ] + opt_ent("api", "auth_user", opt_text(c.auth_user))
          + opt_ent("api", "auth_token", opt_masked(c.auth_token)),
        None => Seq::empty(),
    }
}

/// The entries of a checked configuration, section by section, each in its fields'
/// order of declaration.
pub open spec fn flattened(
    p: P2PoolConfig,
    stratum: Option<StratumConfig<Parsed>>,
    m: SectionMarkers,
) -> Seq<EntryView> {
    network_entries(p.network, m.network) + store_entries(p.store, m.store) + stratum_entries(
        stratum,
        m.stratum,
    ) + miner_entries(p.miner) + rpc_entries(p.bitcoinrpc, m.bitcoinrpc) + logging_entries(
        p.logging,
        m.logging,
    ) + api_entries(p.api, m.api)
}

fn push(e: &mut Vec<ConfigEntry>, s: &str, k: &str, v: String, is_default: bool)
    ensures
        entries_view(final(e)@) == entries_view(old(e)@).push(ent(s, k, v@, is_default)),
{
    let x = ConfigEntry { section: owned(s), key: owned(k), value: v, is_default };
    e.push(x);
    assert(entries_view(final(e)@) =~= entries_view(old(e)@).push(ent(s, k, x.value@, is_default)));
}

fn opt(e: &mut Vec<ConfigEntry>, s: &str, k: &str, v: Option<String>, is_default: bool)
    ensures
        entries_view(final(e)@) == entries_view(old(e)@) + opt_entry(s, k, opt_text(v), is_default),
{
    if let Some(v) = v {
        push(e, s, k, v, is_default);
    }
    assert(entries_view(final(e)@) =~= entries_view(old(e)@) + opt_entry(s, k, opt_text(v), is_default));
}

/// The decimal text of `n`.
pub fn decimal_string(n: u64) -> (r: String)
    ensures
        r@ == decimal(n as nat),
{
    let mut v: Vec<char> = Vec::new();
    push_decimal(&mut v, n);
    assert(v@ =~= decimal(n as nat));
    string_of(&v)
}

/// A share in basis points, with its percentage.
pub fn basis_points(v: u16) -> (r: String)
    ensures
        r@ == basis_points_text(v as nat),
{
    let mut out: Vec<char> = Vec::new();
    push_decimal(&mut out, v as u64);
    let out = concat_chars(&out, &chars_of(" bp ("));
    let mut out = out;
    push_decimal(&mut out, (v / 100) as u64);
    if v % 100 != 0 {
        out.push('.');
        out.push(crate::number::digit_char_of(((v % 100) / 10) as u64));
        out.push(crate::number::digit_char_of((v % 10) as u64));
    }
    let out = concat_chars(&out, &chars_of("%)"));
    assert(out@ =~= basis_points_text(v as nat));
    string_of(&out)
}

/// How a secret is shown: never its text.
pub fn mask_secret(s: &String) -> (r: String)
    ensures
        r@ == masked(s@),
{
    if s.as_str().unicode_len() == 0 {
        owned("<empty>")
    } else {
        owned("*****")
    }
}

fn join_list(items: &Vec<String>) -> (r: String)
    ensures
        r@ == joined(string_views(items@)),
{
    let mut out: Vec<char> = Vec::new();
    let mut i: usize = 0;
    let sep = chars_of(", ");
    assert(string_views(items@).subrange(0, 0) =~= Seq::<Seq<char>>::empty());
    while i < items.len()
        invariant
            i <= items@.len(),
            sep@ == ", "@,
            out@ == joined(string_views(items@).subrange(0, i as int)),
        decreases items@.len() - i,
    {
        let ghost next = string_views(items@).subrange(0, i + 1);
        assert(next.drop_last() == string_views(items@).subrange(0, i as int));
        assert(next.last() == items@[i as int]@);
        if i > 0 {
            out = concat_chars(&out, &sep);
        }
        out = concat_chars(&out, &chars_of(items[i].as_str()));
        if i == 0 {
            assert(out@ =~= next[0]);
        }
        i += 1;
    }
    assert(string_views(items@).subrange(0, items@.len() as int) == string_views(items@));
    string_of(&out)
}

/// The mask as eight hexadecimal digits in small letters, negative masks in two's
/// complement.
pub fn version_mask_text(v: i32) -> (r: String)
    ensures
        r@ == hex_digits(v as u32 as nat, 8),
{
    let mut out: Vec<char> = Vec::new();
    push_hex_digits(&mut out, v as u32 as u64, 8);
    assert(out@ =~= hex_digits(v as u32 as nat, 8));
    string_of(&out)
}

fn multiplier_string(m: &Multiplier) -> (r: String)
    requires
        m.scale <= MAX_SCALE,
    ensures
        r@ == one_decimal(*m),
{
    let mut out: Vec<char> = Vec::new();
    m.push_one_decimal(&mut out);
    assert(out@ =~= one_decimal(*m));
    string_of(&out)
}

fn push_network_head(e: &mut Vec<ConfigEntry>, n: &NetworkConfig, d: bool)
    ensures
        entries_view(final(e)@) == entries_view(old(e)@) + network_head(*n, d),
{
    push(e, "network", "listen_address", n.listen_address.clone(), d && n.listen_address == owned("/ip4/0.0.0.0/tcp/6884"));
    push(e, "network", "dial_peers", join_list(&n.dial_peers), d && n.dial_peers.len() == 0);
    push(e, "network", "max_pending_incoming", decimal_string(n.max_pending_incoming as u64), d && n.max_pending_incoming == 10);
    push(e, "network", "max_pending_outgoing", decimal_string(n.max_pending_outgoing as u64), d && n.max_pending_outgoing == 10);
    assert(entries_view(final(e)@) =~= entries_view(old(e)@) + network_head(*n, d));
}

fn push_network_links(e: &mut Vec<ConfigEntry>, n: &NetworkConfig, d: bool)
    ensures
        entries_view(final(e)@) == entries_view(old(e)@) + network_links(*n, d),
{
    push(e, "network", "max_established_incoming", decimal_string(n.max_established_incoming as u64), d && n.max_established_incoming == 50);
    push(e, "network", "max_established_outgoing", decimal_string(n.max_established_outgoing as u64), d && n.max_established_outgoing == 50);
    push(e, "network", "max_established_per_peer", decimal_string(n.max_established_per_peer as u64), d && n.max_established_per_peer == 1);
    push(e, "network", "max_workbase_per_second", decimal_string(n.max_workbase_per_second as u64), d && n.max_workbase_per_second == 10);
    assert(entries_view(final(e)@) =~= entries_view(old(e)@) + network_links(*n, d));
}

fn push_network_rates(e: &mut Vec<ConfigEntry>, n: &NetworkConfig, d: bool)
    ensures
        entries_view(final(e)@) == entries_view(old(e)@) + network_rates(*n, d),
{
    push(e, "network", "max_userworkbase_per_second", decimal_string(n.max_userworkbase_per_second as u64), d && n.max_userworkbase_per_second == 10);
    push(e, "network", "max_miningshare_per_second", decimal_string(n.max_miningshare_per_second as u64), d && n.max_miningshare_per_second == 100);
    push(e, "network", "max_inventory_per_second", decimal_string(n.max_inventory_per_second as u64), d && n.max_inventory_per_second == 100);
    push(e, "network", "max_transaction_per_second", decimal_string(n.max_transaction_per_second as u64), d && n.max_transaction_per_second == 100);
    assert(entries_view(final(e)@) =~= entries_view(old(e)@) + network_rates(*n, d));
}

fn push_network_timing(e: &mut Vec<ConfigEntry>, n: &NetworkConfig, d: bool)
    ensures
        entries_view(final(e)@) == entries_view(old(e)@) + network_timing(*n, d),
{
    push(e, "network", "rate_limit_window_secs", decimal_string(n.rate_limit_window_secs), d && n.rate_limit_window_secs == 1);
    push(e, "network", "max_requests_per_second", decimal_string(n.max_requests_per_second), d && n.max_requests_per_second == 1);
    push(e, "network", "peer_inactivity_timeout_secs", decimal_string(n.peer_inactivity_timeout_secs), d && n.peer_inactivity_timeout_secs == 60);
    push(e, "network", "dial_timeout_secs", decimal_string(n.dial_timeout_secs), d && n.dial_timeout_secs == 30);
    assert(entries_view(final(e)@) =~= entries_view(old(e)@) + network_timing(*n, d));
}

fn push_network(e: &mut Vec<ConfigEntry>, n: &NetworkConfig, marked: bool)
    ensures
        entries_view(final(e)@) == entries_view(old(e)@) + network_entries(*n, marked),
{
    push_network_head(e, n, !marked);
    push_network_links(e, n, !marked);
    push_network_rates(e, n, !marked);
    push_network_timing(e, n, !marked);
    assert(entries_view(final(e)@) =~= entries_view(old(e)@) + network_entries(*n, marked));
}

fn push_store(e: &mut Vec<ConfigEntry>, o: &Option<StoreConfig>, marked: bool)
    ensures
        entries_view(final(e)@) == entries_view(old(e)@) + store_entries(*o, marked),
{
    if let Some(c) = o {
        push(e, "store", "path", c.path.clone(), false);
        push(e, "store", "background_task_frequency_hours", decimal_string(c.background_task_frequency_hours), !marked && c.background_task_frequency_hours == 1);
        push(e, "store", "pplns_ttl_days", decimal_string(c.pplns_ttl_days), !marked && c.pplns_ttl_days == 7);
    }
    assert(entries_view(final(e)@) =~= entries_view(old(e)@) + store_entries(*o, marked));
}

fn opt_decimal_string(v: Option<u64>) -> (r: Option<String>)
    ensures
        opt_text(r) == opt_decimal(opt_u64(v)),
{
    match v {
        Some(n) => Some(decimal_string(n)),
        None => None,
    }
}

fn opt_basis_points_string(v: Option<u16>) -> (r: Option<String>)
    ensures
        opt_text(r) == opt_basis_points(v),
{
    match v {
        Some(n) => Some(basis_points(n)),
        None => None,
    }
}

fn opt_clone(v: &Option<String>) -> (r: Option<String>)
    ensures
        opt_text(r) == opt_text(*v),
{
    match v {
        Some(x) => Some(x.clone()),
        None => None,
    }
}

fn push_stratum_head(e: &mut Vec<ConfigEntry>, c: &StratumConfig<Parsed>, d: bool)
    ensures
        entries_view(final(e)@) == entries_view(old(e)@) + stratum_head(*c, d),
{
    push(e, "stratum", "hostname", c.hostname.clone(), d && c.hostname == owned("0.0.0.0"));
    push(e, "stratum", "port", decimal_string(c.port as u64), d && c.port == 3333);
    push(e, "stratum", "start_difficulty", decimal_string(c.start_difficulty), d && c.start_difficulty == 10000);
    push(e, "stratum", "minimum_difficulty", decimal_string(c.minimum_difficulty), d && c.minimum_difficulty == 100);
    assert(entries_view(final(e)@) =~= entries_view(old(e)@) + stratum_head(*c, d));
}

fn push_stratum_payouts(e: &mut Vec<ConfigEntry>, c: &StratumConfig<Parsed>, d: bool)
    ensures
        entries_view(final(e)@) == entries_view(old(e)@) + stratum_payouts(*c, d),
{
    push_stratum_links(e, c, d);
    push_stratum_shares(e, c);
    assert(entries_view(final(e)@) =~= entries_view(old(e)@) + stratum_payouts(*c, d));
}

fn push_stratum_links(e: &mut Vec<ConfigEntry>, c: &StratumConfig<Parsed>, d: bool)
    ensures
        entries_view(final(e)@) == entries_view(old(e)@) + stratum_links(*c, d),
{
    opt(e, "stratum", "maximum_difficulty", opt_decimal_string(c.maximum_difficulty), false);
    opt(e, "stratum", "solo_address", opt_clone(&c.solo_address), false);
    push(e, "stratum", "zmqpubhashblock", c.zmqpubhashblock.clone(), d && c.zmqpubhashblock == owned("tcp://127.0.0.1:28332"));
    opt(e, "stratum", "bootstrap_address", opt_clone(&c.bootstrap_address), false);
    assert(entries_view(final(e)@) =~= entries_view(old(e)@) + stratum_links(*c, d));
}

fn push_stratum_shares(e: &mut Vec<ConfigEntry>, c: &StratumConfig<Parsed>)
    ensures
        entries_view(final(e)@) == entries_view(old(e)@) + stratum_shares(*c),
{
    opt(e, "stratum", "donation_address", opt_clone(&c.donation_address), false);
    opt(e, "stratum", "donation", opt_basis_points_string(c.donation), false);
    opt(e, "stratum", "fee_address", opt_clone(&c.fee_address), false);
    opt(e, "stratum", "fee", opt_basis_points_string(c.fee), false);
    assert(entries_view(final(e)@) =~= entries_view(old(e)@) + stratum_shares(*c));
}

fn push_stratum_tail(e: &mut Vec<ConfigEntry>, c: &StratumConfig<Parsed>, d: bool)
    requires
        c.difficulty_multiplier.scale <= MAX_SCALE,
    ensures
        entries_view(final(e)@) == entries_view(old(e)@) + stratum_tail(*c, d),
{
    push(e, "stratum", "network", owned(c.network.label()), d && c.network == Network::Signet);
    push(e, "stratum", "version_mask", version_mask_text(c.version_mask), d && c.version_mask == 0x1fffe000);
    push(e, "stratum", "difficulty_multiplier", multiplier_string(&c.difficulty_multiplier), d && c.difficulty_multiplier.is_one());
    let flag = match c.ignore_difficulty {
        Some(true) => Some(owned("true")),
        Some(false) => Some(owned("false")),
        None => None,
    };
    assert(opt_text(flag) == opt_flag(c.ignore_difficulty));
    opt(e, "stratum", "ignore_difficulty", flag, false);
    opt(e, "stratum", "pool_signature", opt_clone(&c.pool_signature), false);
    assert(entries_view(final(e)@) =~= entries_view(old(e)@) + stratum_tail(*c, d));
}

fn push_stratum(e: &mut Vec<ConfigEntry>, o: &Option<StratumConfig<Parsed>>, marked: bool)
    requires
        o matches Some(c) ==> c.difficulty_multiplier.scale <= MAX_SCALE,
    ensures
        entries_view(final(e)@) == entries_view(old(e)@) + stratum_entries(*o, marked),
{
    if let Some(c) = o {
        push_stratum_head(e, c, !marked);
        push_stratum_payouts(e, c, !marked);
        push_stratum_tail(e, c, !marked);
    }
    assert(entries_view(final(e)@) =~= entries_view(old(e)@) + stratum_entries(*o, marked));
}

fn push_miner(e: &mut Vec<ConfigEntry>, o: &Option<MinerConfig>)
    ensures
        entries_view(final(e)@) == entries_view(old(e)@) + miner_entries(*o),
{
    if let Some(m) = o {
        if !check_pubkey(m.pubkey.as_str()) {
            push(e, "miner", "pubkey", owned("<invalid pubkey>"), false);
        } else {
            push(e, "miner", "pubkey", m.pubkey.clone(), false);
        }
    }
    assert(entries_view(final(e)@) =~= entries_view(old(e)@) + miner_entries(*o));
}

fn push_rpc(e: &mut Vec<ConfigEntry>, o: &Option<BitcoinRpcConfig>, marked: bool)
    ensures
        entries_view(final(e)@) == entries_view(old(e)@) + rpc_entries(*o, marked),
{
    if let Some(b) = o {
        push(e, "bitcoinrpc", "url", b.url.clone(), false);
        push(e, "bitcoinrpc", "username", b.username.clone(), false);
        push(e, "bitcoinrpc", "password", mask_secret(&b.password), false);
    }
    assert(entries_view(final(e)@) =~= entries_view(old(e)@) + rpc_entries(*o, marked));
}

fn push_logging(e: &mut Vec<ConfigEntry>, l: &LoggingConfig, marked: bool)
    ensures
        entries_view(final(e)@) == entries_view(old(e)@) + logging_entries(*l, marked),
{
    opt(e, "logging", "file", opt_clone(&l.file), false);
    push(e, "logging", "level", l.level.clone(), !marked && l.level == owned("info"));
    push(e, "logging", "stats_dir", l.stats_dir.clone(), !marked && l.stats_dir == owned("./logs/stats"));
    assert(entries_view(final(e)@) =~= entries_view(old(e)@) + logging_entries(*l, marked));
}

fn push_api(e: &mut Vec<ConfigEntry>, o: &Option<ApiConfig>, marked: bool)
    ensures
        entries_view(final(e)@) == entries_view(old(e)@) + api_entries(*o, marked),
{
    if let Some(a) = o {
        push(e, "api", "hostname", a.hostname.clone(), false);
        push(e, "api", "port", decimal_string(a.port as u64), false);
        opt(e, "api", "auth_user", opt_clone(&a.auth_user), false);
        opt(e, "api", "auth_token", match &a.auth_token {
            Some(t) => Some(mask_secret(t)),
            None => None,
        }, false);
    }
    assert(entries_view(final(e)@) =~= entries_view(old(e)@) + api_entries(*o, marked));
}

/// The display entries of a configuration whose stratum section passed its checks.
pub fn flatten(
    p: &P2PoolConfig,
    stratum: &Option<StratumConfig<Parsed>>,
    markers: SectionMarkers,
) -> (r: Vec<ConfigEntry>)
    requires
        stratum matches Some(c) ==> c.difficulty_multiplier.scale <= MAX_SCALE,
    ensures
        entries_view(r@) == flattened(*p, *stratum, markers),
{
    let mut e: Vec<ConfigEntry> = Vec::new();
    push_network(&mut e, &p.network, markers.network);
    push_store(&mut e, &p.store, markers.store);
    push_stratum(&mut e, stratum, markers.stratum);
    push_miner(&mut e, &p.miner);
    push_rpc(&mut e, &p.bitcoinrpc, markers.bitcoinrpc);
    push_logging(&mut e, &p.logging, markers.logging);
    push_api(&mut e, &p.api, markers.api);
    assert(entries_view(e@) =~= flattened(*p, *stratum, markers));
    e
}

// The whole configuration.

#[verifier::opaque]
pub open spec fn pool_ok(s: SourcesView) -> bool {
    &&& network_ok(s)
    &&& store_ok(s)
    &&& stratum_ok(s)
    &&& miner_ok(s)
    &&& rpc_ok(s)
    &&& logging_ok(s)
    &&& api_ok(s)
}

/// Each section of `p` holds what the sources set.
#[verifier::opaque]
pub open spec fn pool_is(s: SourcesView, p: P2PoolConfig) -> bool {
    &&& network_is(s, p.network)
    &&& store_is(s, p.store)
    &&& stratum_is(s, p.stratum)
    &&& miner_is(s, p.miner)
    &&& rpc_is(s, p.bitcoinrpc)
    &&& logging_is(s, p.logging)
    &&& api_is(s, p.api)
}

impl P2PoolConfig {
    /// Reads every section from the merged sources.
    pub fn read(src: &Sources) -> (r: Result<P2PoolConfig, ConfigError>)
        ensures
            match r {
                Ok(p) => pool_ok(src@) && pool_is(src@, p),
                Err(e) => !pool_ok(src@) && read_error(src@, e@),
            },
    {
        reveal(pool_ok);
        reveal(pool_is);
        let network = NetworkConfig::read(src)?;
        let store = StoreConfig::read(src)?;
        let stratum = StratumConfig::read(src)?;
        let miner = MinerConfig::read(src)?;
        let bitcoinrpc = BitcoinRpcConfig::read(src)?;
        let logging = LoggingConfig::read(src)?;
        let api = ApiConfig::read(src)?;
        Ok(P2PoolConfig { network, store, stratum, miner, bitcoinrpc, logging, api })
    }
}

/// The section markers that the text holds.
pub open spec fn markers_of(text: Seq<char>) -> SectionMarkers {
    SectionMarkers {
        network: contains(text, "[network]"@),
        store: contains(text, "[store]"@),
        stratum: contains(text, "[stratum]"@),
        miner: contains(text, "[miner]"@),
        bitcoinrpc: contains(text, "[bitcoinrpc]"@),
        logging: contains(text, "[logging]"@),
        api: contains(text, "[api]"@),
    }
}

pub open spec fn any_marker(m: SectionMarkers) -> bool {
    m.network || m.store || m.stratum || m.miner || m.bitcoinrpc || m.logging || m.api
}

/// The input is meant for the pool: an override is set, or the text names a section.
pub open spec fn is_pool_input(text: Seq<char>, vars: Seq<(String, String)>) -> bool {
    overrides_present(var_views(vars)) || any_marker(markers_of(text))
}

pub open spec fn pool_sources(file: Seq<RawEntryView>, vars: Seq<(String, String)>) -> SourcesView {
    SourcesView { env: overrides(var_views(vars)), file }
}

/// The stratum section passed its checks and `c` is its checked form.
pub open spec fn checked_as(raw: Option<StratumConfig<Raw>>, c: Option<StratumConfig<Parsed>>) -> bool {
    match (raw, c) {
        (None, None) => true,
        (Some(a), Some(b)) => {
            &&& first_violation(a) is None
            &&& same_fields(a, b)
            &&& checked_form(a.bootstrap_address, b.bootstrap_address_parsed, a.network)
            &&& checked_form(a.donation_address, b.donation_address_parsed, a.network)
            &&& checked_form(a.fee_address, b.fee_address_parsed, a.network)
        },
        _ => false,
    }
}

impl SectionMarkers {
    pub fn of(text: &[char]) -> (r: SectionMarkers)
        ensures
            r == markers_of(text@),
    {
        SectionMarkers {
            network: contains_chars(text, &chars_of("[network]")),
            store: contains_chars(text, &chars_of("[store]")),
            stratum: contains_chars(text, &chars_of("[stratum]")),
            miner: contains_chars(text, &chars_of("[miner]")),
            bitcoinrpc: contains_chars(text, &chars_of("[bitcoinrpc]")),
            logging: contains_chars(text, &chars_of("[logging]")),
            api: contains_chars(text, &chars_of("[api]")),
        }
    }
}

fn check_stratum(o: Option<StratumConfig<Raw>>) -> (r: Result<Option<StratumConfig<Parsed>>, ConfigError>)
    ensures
        match r {
            Ok(c) => checked_as(o, c),
            Err(e) => o matches Some(a) && first_violation(a) matches Some(v) && e@ == ErrorView::Invalid(v),
        },
{
    match o {
        Some(a) => {
            let c = a.parse()?;
            Ok(Some(c))
        },
        None => Ok(None),
    }
}

/// What resolving gives: a mismatch where the input is not meant for the pool, else the
/// first malformed line, else an error of reading a field, else the first broken rule
/// of the stratum section, else the entries of the configuration that the sources set.
pub open spec fn resolves_to(
    text: Seq<char>,
    vars: Seq<(String, String)>,
    r: Result<Vec<ConfigEntry>, ConfigError>,
) -> bool {
    if !is_pool_input(text, vars) {
        match r {
            Err(e) => e@ is NotPoolConfig,
            Ok(_) => false,
        }
    } else {
        match parse_source(text, false) {
            Err(n) => match r {
                Err(e) => e@ == ErrorView::Syntax(n),
                Ok(_) => false,
            },
            Ok(file) => {
                let s = pool_sources(file, vars);
                if !pool_ok(s) {
                    match r {
                        Err(e) => read_error(s, e@),
                        Ok(_) => false,
                    }
                } else {
                    match r {
                        Err(e) => match e@ {
                            ErrorView::Invalid(v) => exists|p: P2PoolConfig|
                                #[trigger] pool_is(s, p) && match p.stratum {
                                    Some(a) => first_violation(a) == Some(v),
                                    None => false,
                                },
                            _ => false,
                        },
                        Ok(es) => exists|p: P2PoolConfig, c: Option<StratumConfig<Parsed>>|
                            #[trigger] pool_is(s, p) && #[trigger] checked_as(p.stratum, c)
                                && entries_view(es@) == flattened(p, c, markers_of(text)),
                    }
                }
            },
        }
    }
}

/// Resolves the pool's configuration from the text of its file (empty where there is
/// none) and the process environment, into the entries shown for it.
pub fn parse_config(text: &str, vars: &Vec<(String, String)>) -> (r: Result<Vec<ConfigEntry>, ConfigError>)
    ensures
        resolves_to(text@, vars@, r),
{
    let chars = chars_of(text);
    let markers = SectionMarkers::of(&chars);
    let (env, present) = read_overrides(vars);
    if !(present || markers.network || markers.store || markers.stratum || markers.miner
        || markers.bitcoinrpc || markers.logging || markers.api) {
        return Err(ConfigError::NotPoolConfig);
    }
    let file = match parse_text(text, false) {
        Ok(f) => f,
        Err(n) => return Err(ConfigError::Syntax(n)),
    };
    let src = Sources { env, file };
    assert(src@ == pool_sources(parse_source(text@, false)->Ok_0, vars@));
    resolve_sources(&src, markers)
}

/// Reads, checks and flattens the configuration that the merged sources set.
fn resolve_sources(src: &Sources, markers: SectionMarkers) -> (r: Result<Vec<ConfigEntry>, ConfigError>)
    ensures
        !pool_ok(src@) ==> (r matches Err(e) && read_error(src@, e@)),
        pool_ok(src@) ==> match r {
            Err(e) => match e@ {
                ErrorView::Invalid(v) => exists|p: P2PoolConfig|
                    #[trigger] pool_is(src@, p) && match p.stratum {
                        Some(a) => first_violation(a) == Some(v),
                        None => false,
                    },
                _ => false,
            },
            Ok(es) => exists|p: P2PoolConfig, c: Option<StratumConfig<Parsed>>|
                #[trigger] pool_is(src@, p) && #[trigger] checked_as(p.stratum, c)
                    && entries_view(es@) == flattened(p, c, markers),
        },
{
    let p = P2PoolConfig::read(src)?;
    let ghost whole = p;
    proof {
        reveal(pool_is);
    }
    let P2PoolConfig { network, store, stratum, miner, bitcoinrpc, logging, api } = p;
    let checked = check_stratum(stratum)?;
    let rest = P2PoolConfig { network, store, stratum: None, miner, bitcoinrpc, logging, api };
    let es = flatten(&rest, &checked, markers);
    assert(flattened(rest, checked, markers) == flattened(whole, checked, markers));
    assert(pool_is(src@, whole) && checked_as(whole.stratum, checked));
    Ok(es)
}

// Laws of resolution.

/// An override set in the environment wins over whatever the file sets for the same
/// field: the field reads the override, and any other file gives it the same value.
pub proof fn lemma_override_wins(
    file: Seq<RawEntryView>,
    other: Seq<RawEntryView>,
    vars: Seq<(String, String)>,
    section: Seq<char>,
    key: Seq<char>,
)
    requires
        find(overrides(var_views(vars)), section, key) is Some,
    ensures
        lookup(pool_sources(file, vars), section, key) == find(overrides(var_views(vars)), section, key),
        lookup(pool_sources(file, vars), section, key) == lookup(pool_sources(other, vars), section, key),
{
}

/// Where the text has no `[network]` or `[logging]` marker and no source sets a field of
/// those sections, every entry of the two sections shows its default and is marked as a
/// default.
pub proof fn lemma_unset_sections_default(s: SourcesView, p: P2PoolConfig, m: SectionMarkers)
    requires
        pool_is(s, p),
        !m.network,
        !m.logging,
        forall|k: Seq<char>| lookup(s, "network"@, k) is None,
        forall|k: Seq<char>| lookup(s, "logging"@, k) is None,
    ensures
        forall|i: int| 0 <= i < network_entries(p.network, m.network).len() ==> (#[trigger] network_entries(p.network, m.network)[i]).is_default,
        forall|i: int| 0 <= i < logging_entries(p.logging, m.logging).len() ==> (#[trigger] logging_entries(p.logging, m.logging)[i]).is_default,
        p.network.listen_address@ == "/ip4/0.0.0.0/tcp/6884"@,
        p.network.dial_peers@.len() == 0,
        p.logging.level@ == "info"@,
        p.logging.stats_dir@ == "./logs/stats"@,
        p.logging.file is None,
{
    reveal(pool_is);
    assert(lookup(s, "network"@, "listen_address"@) is None);
    assert(lookup(s, "network"@, "dial_peers"@) is None);
    assert(lookup(s, "network"@, "max_pending_incoming"@) is None);
    assert(lookup(s, "network"@, "max_pending_outgoing"@) is None);
    assert(lookup(s, "network"@, "max_established_incoming"@) is None);
    assert(lookup(s, "network"@, "max_established_outgoing"@) is None);
    assert(lookup(s, "network"@, "max_established_per_peer"@) is None);
    assert(lookup(s, "network"@, "max_workbase_per_second"@) is None);
    assert(lookup(s, "network"@, "max_userworkbase_per_second"@) is None);
    assert(lookup(s, "network"@, "max_miningshare_per_second"@) is None);
    assert(lookup(s, "network"@, "max_inventory_per_second"@) is None);
    assert(lookup(s, "network"@, "max_transaction_per_second"@) is None);
    assert(lookup(s, "network"@, "rate_limit_window_secs"@) is None);
    assert(lookup(s, "network"@, "max_requests_per_second"@) is None);
    assert(lookup(s, "network"@, "peer_inactivity_timeout_secs"@) is None);
    assert(lookup(s, "network"@, "dial_timeout_secs"@) is None);
    assert(lookup(s, "logging"@, "file"@) is None);
    assert(lookup(s, "logging"@, "level"@) is None);
    assert(lookup(s, "logging"@, "stats_dir"@) is None);
    assert(string_views(p.network.dial_peers@).len() == 0);
    assert(opt_ent("logging", "file", opt_text(p.logging.file)) == Seq::<EntryView>::empty());
    assert(logging_entries(p.logging, m.logging) =~= seq![
        ent("logging", "level", p.logging.level@, true),
        ent("logging", "stats_dir", p.logging.stats_dir@, true),
    ]);
}

/// Where the text marks the network or the logging section, none of that section's
/// entries counts as a default, also where a value equals its default.
pub proof fn lemma_marked_sections_explicit(n: NetworkConfig, l: LoggingConfig)
    ensures
        forall|i: int| 0 <= i < network_entries(n, true).len() ==> !(#[trigger] network_entries(n, true)[i]).is_default,
        forall|i: int| 0 <= i < logging_entries(l, true).len() ==> !(#[trigger] logging_entries(l, true)[i]).is_default,
{
    let f = opt_ent("logging", "file", opt_text(l.file));
    assert forall|i: int| 0 <= i < logging_entries(l, true).len() implies !(#[trigger] logging_entries(l, true)[i]).is_default by {
        if i < f.len() {
            assert(logging_entries(l, true)[i] == f[i]);
        }
    }
}

/// Where the text marks the stratum section, none of its entries counts as a default,
/// also where a value equals its default.
pub proof fn lemma_marked_stratum_explicit(c: StratumConfig<Parsed>)
    ensures
        forall|i: int| 0 <= i < stratum_entries(Some(c), true).len() ==> !(#[trigger] stratum_entries(Some(c), true)[i]).is_default,
{
    let head = stratum_head(c, false);
    let links = stratum_links(c, false);
    let shares = stratum_shares(c);
    let tail = stratum_tail(c, false);
    assert forall|i: int| 0 <= i < links.len() implies !(#[trigger] links[i]).is_default by {
        let a = opt_ent("stratum", "maximum_difficulty", opt_decimal(opt_u64(c.maximum_difficulty)));
        let b = opt_ent("stratum", "solo_address", opt_text(c.solo_address));
        let z = seq![ent("stratum", "zmqpubhashblock", c.zmqpubhashblock@, false)];
        let d = opt_ent("stratum", "bootstrap_address", opt_text(c.bootstrap_address));
        assert(links == a + b + z + d);
    }
    assert forall|i: int| 0 <= i < shares.len() implies !(#[trigger] shares[i]).is_default by {
        let a = opt_ent("stratum", "donation_address", opt_text(c.donation_address));
        let b = opt_ent("stratum", "donation", opt_basis_points(c.donation));
        let f = opt_ent("stratum", "fee_address", opt_text(c.fee_address));
        let g = opt_ent("stratum", "fee", opt_basis_points(c.fee));
        assert(shares == a + b + f + g);
    }
    assert forall|i: int| 0 <= i < tail.len() implies !(#[trigger] tail[i]).is_default by {
        let a = opt_ent("stratum", "ignore_difficulty", opt_flag(c.ignore_difficulty));
        let b = opt_ent("stratum", "pool_signature", opt_text(c.pool_signature));
        let x = seq![
            ent("stratum", "network", network_label(c.network), false),
            ent("stratum", "version_mask", hex_digits(c.version_mask as u32 as nat, 8), false),
            ent("stratum", "difficulty_multiplier", one_decimal(c.difficulty_multiplier), false),
        ];
        assert(tail == x + a + b);
    }
    assert(stratum_entries(Some(c), true) == head + (links + shares) + tail);
}

/// An address that parses but belongs to another network than the section's breaks a
/// rule, as a malformed one does.
pub proof fn lemma_wrong_network_rejected<T>(c: StratumConfig<T>, a: String)
    requires
        c.bootstrap_address == Some(a) || c.donation_address == Some(a) || c.fee_address == Some(a)
            || c.solo_address == Some(a),
        address_parses(a@),
        !address_on_network(a@, c.network),
    ensures
        first_violation(c) is Some,
{
}

/// An address valid on the section's network passes its check, keeps its text in the
/// checked form, and is shown as written.
pub proof fn lemma_valid_address_round_trip(
    raw: StratumConfig<Raw>,
    checked: StratumConfig<Parsed>,
    a: String,
    marked: bool,
)
    requires
        raw.bootstrap_address == Some(a),
        checked_as(Some(raw), Some(checked)),
    ensures
        address_valid(a@, raw.network),
        checked.bootstrap_address_parsed matches Some(q) && q.address@ == a@ && q.network == raw.network,
        stratum_entries(Some(checked), marked).contains(ent("stratum", "bootstrap_address", a@, false)),
{
    let head = stratum_head(checked, !marked);
    let a1 = opt_ent("stratum", "maximum_difficulty", opt_decimal(opt_u64(checked.maximum_difficulty)));
    let b1 = opt_ent("stratum", "solo_address", opt_text(checked.solo_address));
    let z = seq![ent("stratum", "zmqpubhashblock", checked.zmqpubhashblock@, !marked && checked.zmqpubhashblock@ == "tcp://127.0.0.1:28332"@)];
    let d = opt_ent("stratum", "bootstrap_address", opt_text(checked.bootstrap_address));
    let rest = stratum_shares(checked) + stratum_tail(checked, !marked);
    assert(d == seq![ent("stratum", "bootstrap_address", a@, false)]);
    let all = stratum_entries(Some(checked), marked);
    assert(all == head + (a1 + b1 + z + d) + rest);
    let k = (head.len() + a1.len() + b1.len() + z.len()) as int;
    assert(all[k] == ent("stratum", "bootstrap_address", a@, false));
}

} // verus!
