//! The node daemon's configuration: a flat file whose keys are looked up in the global
//! section first and then in each network's section, against a schema of known keys.
use vstd::prelude::*;
use crate::lookup::{ConfigError, ErrorView, flag_text, flag_word};
use crate::number::{decimal, unsigned_text, parse_unsigned};
use crate::p2poolv2_config_parser::{decimal_string, mask_secret, masked};
use crate::source::{char_views, RawEntry, RawEntryView, RawValue, RawValueView, entry_views, parse_source, parse_text};
use crate::text::{chars_of, string_of, same_chars, slice_of};

verus! {

/// The daemon's core settings, as typed values.
#[derive(Debug, Clone)]
pub struct CoreConfig {
    pub datadir: String,
    pub txindex: bool,
    pub prune: u32,
    pub blocksonly: bool,
    pub dbcache: u32,
    pub maxmempool: String,
    pub pid: String,
}

#[derive(Debug, Clone)]
pub struct Network {
    pub testnet: bool,
    pub regtest: bool,
    pub signet: bool,
    pub listen: bool,
    pub bind: String,
    pub port: u32,
    pub maxconnections: u32,
    pub proxy: String,
    pub onion: String,
    pub upnp: bool,
}

#[derive(Debug, Clone)]
pub struct RPC {
    pub server: bool,
    pub rpcuser: String,
    pub rpcpassword: String,
    pub rpcauth: String,
    pub rpcport: u32,
    pub rpcbind: String,
    pub rpcallowip: String,
    pub rpcthreads: u32,
}

#[derive(Debug, Clone)]
pub struct Wallet {
    pub disablewallet: bool,
    pub fallbackfee: String,
    pub discardfee: String,
    pub mintxfee: String,
    pub paytxfee: String,
}

#[derive(Debug, Clone)]
pub struct Debug {
    pub debug: String,
    pub logips: bool,
    pub shrinkdebugfile: bool,
}

#[derive(Debug, Clone)]
pub struct Mining {
    pub blockmaxweight: u32,
    pub minrelaytxfee: String,
}

#[derive(Debug, Clone)]
pub struct ZMQ {
    pub zmqpubhashblock: String,
    pub zmqpubhashtx: String,
    pub zmqpubrawblock: String,
    pub zmqpubrawtx: String,
}

#[derive(Debug, Clone)]
pub struct BitcoinConfig {
    pub core: CoreConfig,
    pub network: Network,
    pub rpc: RPC,
    pub wallet: Wallet,
    pub debug: Debug,
    pub mining: Mining,
    pub zmq: ZMQ,
}

/// The kind of value that a known key expects.
#[derive(Debug, Clone, Copy, PartialEq, Eq, Structural)]
pub enum ValueKind {
    Text,
    Bool,
    Int,
    Float,
}

/// A known key, its default and the kind of its value.
#[derive(Debug, Clone)]
pub struct SchemaEntry {
    pub key: String,
    pub default: String,
    pub kind: ValueKind,
}

pub struct SchemaView {
    pub key: Seq<char>,
    pub default: Seq<char>,
    pub kind: ValueKind,
}

impl View for SchemaEntry {
    type V = SchemaView;

    open spec fn view(&self) -> SchemaView {
        SchemaView { key: self.key@, default: self.default@, kind: self.kind }
    }
}

impl SchemaEntry {
    pub fn duplicate(&self) -> (r: SchemaEntry)
        ensures
            r@ == self@,
    {
        SchemaEntry { key: self.key.clone(), default: self.default.clone(), kind: self.kind }
    }
}

/// One line of the daemon view: a key, its value as shown, the schema entry where the
/// key is known, and whether a source set it.
#[derive(Debug, Clone)]
pub struct ConfigEntry {
    pub key: String,
    pub value: String,
    pub schema: Option<SchemaEntry>,
    pub enabled: bool,
}

pub struct EntryView {
    pub key: Seq<char>,
    pub value: Seq<char>,
    pub schema: Option<SchemaView>,
    pub enabled: bool,
}

impl View for ConfigEntry {
    type V = EntryView;

    open spec fn view(&self) -> EntryView {
        EntryView {
            key: self.key@,
            value: self.value@,
            schema: match self.schema {
                Some(s) => Some(s@),
                None => None,
            },
            enabled: self.enabled,
        }
    }
}

pub open spec fn entries_view(v: Seq<ConfigEntry>) -> Seq<EntryView> {
    v.map_values(|e: ConfigEntry| e@)
}

pub open spec fn schema_views(v: Seq<SchemaEntry>) -> Seq<SchemaView> {
    v.map_values(|e: SchemaEntry| e@)
}

/// The sections searched for a key, in order: the global one, then each network's.
pub open spec fn scopes() -> Seq<Seq<char>> {
    seq![""@, "main"@, "test"@, "signet"@, "regtest"@]
}

pub open spec fn in_scope(section: Seq<char>) -> bool {
    exists|i: int| 0 <= i < scopes().len() && scopes()[i] == section
}

/// Position of the last `.` in `k`, or -1.
pub open spec fn last_dot(k: Seq<char>) -> int
    decreases k.len(),
{
    if k.len() == 0 {
        -1
    } else if k.last() == '.' {
        k.len() - 1
    } else {
        last_dot(k.drop_last())
    }
}

/// The key that a written key names: its part after the last `.`.
pub open spec fn base_key(k: Seq<char>) -> Seq<char> {
    k.subrange(last_dot(k) + 1, k.len() as int)
}

pub open spec fn text_value(v: RawValueView) -> Seq<char> {
    match v {
        RawValueView::Text(t) => t,
        RawValueView::List(_) => Seq::empty(),
    }
}

/// The value of the first entry of `scope` that names `key`.
pub open spec fn find_scoped(es: Seq<RawEntryView>, scope: Seq<char>, key: Seq<char>) -> Option<
    Seq<char>,
>
    decreases es.len(),
{
    if es.len() == 0 {
        None
    } else if es[0].section == scope && base_key(es[0].key) == key {
        Some(text_value(es[0].value))
    } else {
        find_scoped(es.drop_first(), scope, key)
    }
}

/// The value of `key` from the first scope, from index `i` on, that sets it.
pub open spec fn resolve_from(es: Seq<RawEntryView>, key: Seq<char>, i: nat) -> Option<Seq<char>>
    decreases 5 - i,
{
    if i >= 5 {
        None
    } else {
        match find_scoped(es, scopes()[i as int], key) {
            Some(v) => Some(v),
            None => resolve_from(es, key, i + 1),
        }
    }
}

/// The value that the sources give `key`: the global section wins, then the networks'
/// sections in their fixed order.
pub open spec fn resolve_key(es: Seq<RawEntryView>, key: Seq<char>) -> Option<Seq<char>> {
    resolve_from(es, key, 0)
}

/// A value as shown for a key of the given kind (or of no known kind): a truth value as
/// `1` or `0`, an integer in its plain decimal form, anything else as written. Where no
/// kind is known, a truth value is tried first, then an integer.
pub open spec fn coerce(v: Seq<char>, kind: Option<ValueKind>) -> Seq<char> {
    let as_flag = match flag_text(v) {
        Some(b) => Some(if b { "1"@ } else { "0"@ }),
        None => None,
    };
    let as_int = match unsigned_text(v) {
        Some(n) => if n <= i64::MAX {
            Some(decimal(n))
        } else {
            None
        },
        None => None,
    };
    match kind {
        Some(ValueKind::Bool) => match as_flag {
            Some(t) => t,
            None => v,
        },
        Some(ValueKind::Int) => match as_int {
            Some(t) => t,
            None => v,
        },
        Some(_) => v,
        None => match as_flag {
            Some(t) => t,
            None => match as_int {
                Some(t) => t,
                None => v,
            },
        },
    }
}

/// The known keys that hold secrets, which are never shown as written.
pub open spec fn is_secret_key(k: Seq<char>) -> bool {
    k == "rpcpassword"@ || k == "rpcauth"@
}

/// The entry of a known key; a secret shows only whether it is empty.
pub open spec fn schema_entry(es: Seq<RawEntryView>, s: SchemaView) -> EntryView {
    let shown = match resolve_key(es, s.key) {
        Some(v) => coerce(v, Some(s.kind)),
        None => s.default,
    };
    EntryView {
        key: s.key,
        value: if is_secret_key(s.key) {
            masked(shown)
        } else {
            shown
        },
        schema: Some(s),
        enabled: resolve_key(es, s.key) is Some,
    }
}

pub open spec fn schema_has(schema: Seq<SchemaView>, key: Seq<char>) -> bool {
    exists|i: int| 0 <= i < schema.len() && #[trigger] schema[i].key == key
}

/// The keys that the sources set in a searched section and the schema does not know, in
/// the order in which they first appear.
pub open spec fn extra_keys(es: Seq<RawEntryView>, schema: Seq<SchemaView>) -> Seq<Seq<char>>
    decreases es.len(),
{
    if es.len() == 0 {
        Seq::empty()
    } else {
        let prev = extra_keys(es.drop_last(), schema);
        let k = base_key(es.last().key);
        if in_scope(es.last().section) && !schema_has(schema, k) && !prev.contains(k) {
            prev.push(k)
        } else {
            prev
        }
    }
}

/// The entry of a key that the schema does not know.
pub open spec fn extra_entry(es: Seq<RawEntryView>, k: Seq<char>) -> EntryView {
    EntryView {
        key: k,
        value: match resolve_key(es, k) {
            Some(v) => coerce(v, None),
            None => Seq::empty(),
        },
        schema: None,
        enabled: true,
    }
}

/// Every known key in the schema's order, then every other key that the sources set.
pub open spec fn resolved(es: Seq<RawEntryView>, schema: Seq<SchemaView>) -> Seq<EntryView> {
    schema.map_values(|s: SchemaView| schema_entry(es, s)) + extra_keys(es, schema).map_values(
        |k: Seq<char>| extra_entry(es, k),
    )
}

fn base_key_of(k: &String) -> (r: Vec<char>)
    ensures
        r@ == base_key(k@),
{
    let v = chars_of(k.as_str());
    let mut i: usize = v.len();
    assert(v@.subrange(0, v@.len() as int) == v@);
    while i > 0 && v[i - 1] != '.'
        invariant
            i <= v@.len(),
            last_dot(v@) == last_dot(v@.subrange(0, i as int)),
        decreases i,
    {
        assert(v@.subrange(0, i as int).drop_last() == v@.subrange(0, i - 1));
        i -= 1;
    }
    slice_of(&v, i, v.len())
}

fn text_of_value(v: &RawValue) -> (r: String)
    ensures
        r@ == text_value(v@),
{
    match v {
        RawValue::Text(t) => t.clone(),
        RawValue::List(_) => String::new(),
    }
}

fn find_in_scope(es: &Vec<RawEntry>, scope: &str, key: &Vec<char>) -> (r: Option<String>)
    ensures
        match r {
            Some(v) => find_scoped(entry_views(es@), scope@, key@) == Some(v@),
            None => find_scoped(entry_views(es@), scope@, key@) is None,
        },
{
    let ghost all = entry_views(es@);
    let sc = chars_of(scope);
    let mut i: usize = 0;
    assert(all.subrange(0, all.len() as int) == all);
    while i < es.len()
        invariant
            i <= es@.len(),
            all == entry_views(es@),
            sc@ == scope@,
            find_scoped(all, scope@, key@) == find_scoped(all.subrange(i as int, all.len() as int), scope@, key@),
        decreases es@.len() - i,
    {
        let ghost rest = all.subrange(i as int, all.len() as int);
        assert(rest[0] == es@[i as int]@);
        let sec = chars_of(es[i].section.as_str());
        if same_chars(&sec, &sc) && same_chars(&base_key_of(&es[i].key), key) {
            return Some(text_of_value(&es[i].value));
        }
        assert(rest.drop_first() == all.subrange(i + 1, all.len() as int));
        i += 1;
    }
    None
}

/// The value that the entries give `key`, searching the global section first and then
/// the networks' sections in their fixed order.
pub fn resolve_key_value(es: &Vec<RawEntry>, key: &Vec<char>) -> (r: Option<String>)
    ensures
        match r {
            Some(v) => resolve_key(entry_views(es@), key@) == Some(v@),
            None => resolve_key(entry_views(es@), key@) is None,
        },
{
    let ghost all = entry_views(es@);
    reveal_with_fuel(resolve_from, 6);
    assert(scopes()[0] == ""@ && scopes()[1] == "main"@ && scopes()[2] == "test"@
        && scopes()[3] == "signet"@ && scopes()[4] == "regtest"@);
    if let Some(v) = find_in_scope(es, "", key) {
        return Some(v);
    }
    if let Some(v) = find_in_scope(es, "main", key) {
        return Some(v);
    }
    if let Some(v) = find_in_scope(es, "test", key) {
        return Some(v);
    }
    if let Some(v) = find_in_scope(es, "signet", key) {
        return Some(v);
    }
    find_in_scope(es, "regtest", key)
}

fn word(s: &str) -> (r: String)
    ensures
        r@ == s@,
{
    String::from_str(s)
}

/// Shows a value as a key of the given kind, or of no known kind, expects it.
pub fn coerce_value(v: &String, kind: Option<ValueKind>) -> (r: String)
    ensures
        r@ == coerce(v@, kind),
{
    let c = chars_of(v.as_str());
    let as_flag = match flag_word(&c) {
        Some(true) => Some(word("1")),
        Some(false) => Some(word("0")),
        None => None,
    };
    let as_int = match parse_unsigned(&c, 0x7fff_ffff_ffff_ffff) {
        Some(n) => Some(decimal_string(n)),
        None => None,
    };
    match kind {
        Some(ValueKind::Bool) => match as_flag {
            Some(t) => t,
            None => v.clone(),
        },
        Some(ValueKind::Int) => match as_int {
            Some(t) => t,
            None => v.clone(),
        },
        Some(_) => v.clone(),
        None => match as_flag {
            Some(t) => t,
            None => match as_int {
                Some(t) => t,
                None => v.clone(),
            },
        },
    }
}

fn secret_key(k: &Vec<char>) -> (r: bool)
    ensures
        r == is_secret_key(k@),
{
    same_chars(k, &chars_of("rpcpassword")) || same_chars(k, &chars_of("rpcauth"))
}

fn scope_known(section: &String) -> (r: bool)
    ensures
        r == in_scope(section@),
{
    let c = chars_of(section.as_str());
    let r = same_chars(&c, &chars_of("")) || same_chars(&c, &chars_of("main")) || same_chars(
        &c,
        &chars_of("test"),
    ) || same_chars(&c, &chars_of("signet")) || same_chars(&c, &chars_of("regtest"));
    proof {
        if r {
            if c@ == ""@ {
                assert(scopes()[0] == c@);
            } else if c@ == "main"@ {
                assert(scopes()[1] == c@);
            } else if c@ == "test"@ {
                assert(scopes()[2] == c@);
            } else if c@ == "signet"@ {
                assert(scopes()[3] == c@);
            } else {
                assert(scopes()[4] == c@);
            }
        }
    }
    r
}

fn schema_knows(schema: &Vec<SchemaEntry>, key: &Vec<char>) -> (r: bool)
    ensures
        r == schema_has(schema_views(schema@), key@),
{
    let mut i: usize = 0;
    while i < schema.len()
        invariant
            i <= schema@.len(),
            forall|j: int| 0 <= j < i ==> schema@[j].key@ != key@,
        decreases schema@.len() - i,
    {
        if same_chars(&chars_of(schema[i].key.as_str()), key) {
            assert(schema_views(schema@)[i as int].key == key@);
            return true;
        }
        i += 1;
    }
    assert forall|j: int| 0 <= j < schema_views(schema@).len() implies #[trigger] schema_views(
        schema@,
    )[j].key != key@ by {
        assert(schema_views(schema@)[j] == schema@[j]@);
    }
    false
}

fn list_holds(v: &Vec<Vec<char>>, k: &Vec<char>) -> (r: bool)
    ensures
        r == char_views(v@).contains(k@),
{
    let mut i: usize = 0;
    while i < v.len()
        invariant
            i <= v@.len(),
            forall|j: int| 0 <= j < i ==> v@[j]@ != k@,
        decreases v@.len() - i,
    {
        if same_chars(&v[i], k) {
            assert(char_views(v@)[i as int] == k@);
            return true;
        }
        i += 1;
    }
    assert(!char_views(v@).contains(k@)) by {
        assert forall|j: int| 0 <= j < char_views(v@).len() implies char_views(v@)[j] != k@ by {
            assert(char_views(v@)[j] == v@[j]@);
        }
    }
    false
}

fn extra_key_list(es: &Vec<RawEntry>, schema: &Vec<SchemaEntry>) -> (r: Vec<Vec<char>>)
    ensures
        char_views(r@) == extra_keys(entry_views(es@), schema_views(schema@)),
{
    let ghost all = entry_views(es@);
    let ghost sv = schema_views(schema@);
    let mut out: Vec<Vec<char>> = Vec::new();
    let mut i: usize = 0;
    assert(all.subrange(0, 0) =~= Seq::<RawEntryView>::empty());
    assert(char_views(out@) =~= Seq::<Seq<char>>::empty());
    while i < es.len()
        invariant
            i <= es@.len(),
            all == entry_views(es@),
            sv == schema_views(schema@),
            char_views(out@) == extra_keys(all.subrange(0, i as int), sv),
        decreases es@.len() - i,
    {
        let ghost next = all.subrange(0, i + 1);
        assert(next.drop_last() == all.subrange(0, i as int));
        assert(next.last() == es@[i as int]@);
        let k = base_key_of(&es[i].key);
        if scope_known(&es[i].section) && !schema_knows(schema, &k) && !list_holds(&out, &k) {
            let ghost before = out@;
            out.push(k);
            assert(char_views(out@) =~= char_views(before).push(k@));
        }
        i += 1;
    }
    assert(all.subrange(0, es@.len() as int) == all);
    out
}

/// The entries of the daemon view: each known key in the schema's order, with the value
/// that the sources give it or its default, then each other key that the sources set in
/// a searched section.
pub fn resolve(es: &Vec<RawEntry>, schema: &Vec<SchemaEntry>) -> (r: Vec<ConfigEntry>)
    ensures
        entries_view(r@) == resolved(entry_views(es@), schema_views(schema@)),
{
    let ghost all = entry_views(es@);
    let ghost sv = schema_views(schema@);
    let mut out: Vec<ConfigEntry> = Vec::new();
    let mut i: usize = 0;
    assert(entries_view(out@) =~= sv.subrange(0, 0).map_values(|s: SchemaView| schema_entry(all, s)));
    while i < schema.len()
        invariant
            i <= schema@.len(),
            all == entry_views(es@),
            sv == schema_views(schema@),
            entries_view(out@) == sv.subrange(0, i as int).map_values(|s: SchemaView| schema_entry(all, s)),
        decreases schema@.len() - i,
    {
        let s = &schema[i];
        let key = chars_of(s.key.as_str());
        let found = resolve_key_value(es, &key);
        let enabled = found.is_some();
        let shown = match found {
            Some(v) => coerce_value(&v, Some(s.kind)),
            None => s.default.clone(),
        };
        let value = if secret_key(&key) {
            mask_secret(&shown)
        } else {
            shown
        };
        let e = ConfigEntry { key: s.key.clone(), value, schema: Some(s.duplicate()), enabled };
        assert(sv[i as int] == s@);
        assert(e@ == schema_entry(all, sv[i as int]));
        let ghost before = out@;
        out.push(e);
        assert(entries_view(out@) =~= entries_view(before).push(e@));
        assert(sv.subrange(0, i + 1) =~= sv.subrange(0, i as int).push(sv[i as int]));
        assert(entries_view(out@) =~= sv.subrange(0, i + 1).map_values(|s: SchemaView| schema_entry(all, s)));
        i += 1;
    }
    assert(sv.subrange(0, schema@.len() as int) == sv);
    let extras = extra_key_list(es, schema);
    let ghost ks = char_views(extras@);
    let ghost head = entries_view(out@);
    let mut j: usize = 0;
    assert(head =~= head + ks.subrange(0, 0).map_values(|k: Seq<char>| extra_entry(all, k)));
    while j < extras.len()
        invariant
            j <= extras@.len(),
            all == entry_views(es@),
            ks == char_views(extras@),
            entries_view(out@) == head + ks.subrange(0, j as int).map_values(|k: Seq<char>| extra_entry(all, k)),
        decreases extras@.len() - j,
    {
        let k = &extras[j];
        let value = match resolve_key_value(es, k) {
            Some(v) => coerce_value(&v, None),
            None => String::new(),
        };
        let e = ConfigEntry { key: string_of(k), value, schema: None, enabled: true };
        assert(ks[j as int] == k@);
        assert(e@ == extra_entry(all, ks[j as int]));
        let ghost before = out@;
        out.push(e);
        assert(entries_view(out@) =~= entries_view(before).push(e@));
        assert(ks.subrange(0, j + 1) =~= ks.subrange(0, j as int).push(ks[j as int]));
        assert(entries_view(out@) =~= head + ks.subrange(0, j + 1).map_values(|k: Seq<char>| extra_entry(all, k)));
        j += 1;
    }
    assert(ks.subrange(0, extras@.len() as int) == ks);
    assert(entries_view(out@) =~= resolved(all, sv));
    out
}

pub open spec fn sch(key: &str, default: &str, kind: ValueKind) -> SchemaView {
    SchemaView { key: key@, default: default@, kind }
}

pub open spec fn core_keys() -> Seq<SchemaView> {
    seq![
        sch("datadir", "", ValueKind::Text),
        sch("txindex", "0", ValueKind::Bool),
        sch("prune", "0", ValueKind::Int),
        sch("blocksonly", "0", ValueKind::Bool),
        sch("dbcache", "450", ValueKind::Int),
        sch("maxmempool", "300", ValueKind::Int),
        sch("pid", "bitcoind.pid", ValueKind::Text),
    ]
}

pub open spec fn network_keys() -> Seq<SchemaView> {
    seq![
        sch("testnet", "0", ValueKind::Bool),
        sch("regtest", "0", ValueKind::Bool),
        sch("signet", "0", ValueKind::Bool),
        sch("listen", "1", ValueKind::Bool),
        sch("bind", "", ValueKind::Text),
        sch("port", "8333", ValueKind::Int),
        sch("maxconnections", "125", ValueKind::Int),
        sch("proxy", "", ValueKind::Text),
        sch("onion", "", ValueKind::Text),
        sch("upnp", "0", ValueKind::Bool),
    ]
}

pub open spec fn rpc_keys() -> Seq<SchemaView> {
    seq![
        sch("server", "0", ValueKind::Bool),
        sch("rpcuser", "", ValueKind::Text),
        sch("rpcpassword", "", ValueKind::Text),
        sch("rpcauth", "", ValueKind::Text),
        sch("rpcport", "8332", ValueKind::Int),
        sch("rpcbind", "", ValueKind::Text),
        sch("rpcallowip", "", ValueKind::Text),
        sch("rpcthreads", "4", ValueKind::Int),
    ]
}

pub open spec fn wallet_keys() -> Seq<SchemaView> {
    seq![
        sch("disablewallet", "0", ValueKind::Bool),
        sch("fallbackfee", "0.00", ValueKind::Float),
        sch("discardfee", "0.0001", ValueKind::Float),
        sch("mintxfee", "0.00001", ValueKind::Float),
        sch("paytxfee", "0.00", ValueKind::Float),
    ]
}

pub open spec fn debug_keys() -> Seq<SchemaView> {
    seq![
        sch("debug", "", ValueKind::Text),
        sch("logips", "0", ValueKind::Bool),
        sch("shrinkdebugfile", "1", ValueKind::Bool),
    ]
}

pub open spec fn mining_keys() -> Seq<SchemaView> {
    seq![
        sch("blockmaxweight", "3996000", ValueKind::Int),
        sch("minrelaytxfee", "0.00001", ValueKind::Float),
    ]
}

pub open spec fn zmq_keys() -> Seq<SchemaView> {
    seq![
        sch("zmqpubhashblock", "", ValueKind::Text),
        sch("zmqpubhashtx", "", ValueKind::Text),
        sch("zmqpubrawblock", "", ValueKind::Text),
        sch("zmqpubrawtx", "", ValueKind::Text),
    ]
}

/// The daemon's known keys, grouped as its settings are: core, network, RPC, wallet,
/// debugging, mining and notification keys.
pub open spec fn schema_table() -> Seq<SchemaView> {
    core_keys() + network_keys() + rpc_keys() + wallet_keys() + debug_keys() + mining_keys()
        + zmq_keys()
}

fn push_schema(v: &mut Vec<SchemaEntry>, key: &str, default: &str, kind: ValueKind)
    ensures
        schema_views(final(v)@) == schema_views(old(v)@).push(sch(key, default, kind)),
{
    let e = SchemaEntry { key: word(key), default: word(default), kind };
    v.push(e);
    assert(schema_views(final(v)@) =~= schema_views(old(v)@).push(sch(key, default, kind)));
}

fn push_core_keys(v: &mut Vec<SchemaEntry>)
    ensures
        schema_views(final(v)@) == schema_views(old(v)@) + core_keys(),
{
    push_schema(v, "datadir", "", ValueKind::Text);
    push_schema(v, "txindex", "0", ValueKind::Bool);
    push_schema(v, "prune", "0", ValueKind::Int);
    push_schema(v, "blocksonly", "0", ValueKind::Bool);
    push_schema(v, "dbcache", "450", ValueKind::Int);
    push_schema(v, "maxmempool", "300", ValueKind::Int);
    push_schema(v, "pid", "bitcoind.pid", ValueKind::Text);
    assert(schema_views(final(v)@) =~= schema_views(old(v)@) + core_keys());
}

fn push_network_keys(v: &mut Vec<SchemaEntry>)
    ensures
        schema_views(final(v)@) == schema_views(old(v)@) + network_keys(),
{
    push_schema(v, "testnet", "0", ValueKind::Bool);
    push_schema(v, "regtest", "0", ValueKind::Bool);
    push_schema(v, "signet", "0", ValueKind::Bool);
    push_schema(v, "listen", "1", ValueKind::Bool);
    push_schema(v, "bind", "", ValueKind::Text);
    push_schema(v, "port", "8333", ValueKind::Int);
    push_schema(v, "maxconnections", "125", ValueKind::Int);
    push_schema(v, "proxy", "", ValueKind::Text);
    push_schema(v, "onion", "", ValueKind::Text);
    push_schema(v, "upnp", "0", ValueKind::Bool);
    assert(schema_views(final(v)@) =~= schema_views(old(v)@) + network_keys());
}

fn push_rpc_keys(v: &mut Vec<SchemaEntry>)
    ensures
        schema_views(final(v)@) == schema_views(old(v)@) + rpc_keys(),
{
    push_schema(v, "server", "0", ValueKind::Bool);
    push_schema(v, "rpcuser", "", ValueKind::Text);
    push_schema(v, "rpcpassword", "", ValueKind::Text);
    push_schema(v, "rpcauth", "", ValueKind::Text);
    push_schema(v, "rpcport", "8332", ValueKind::Int);
    push_schema(v, "rpcbind", "", ValueKind::Text);
    push_schema(v, "rpcallowip", "", ValueKind::Text);
    push_schema(v, "rpcthreads", "4", ValueKind::Int);
    assert(schema_views(final(v)@) =~= schema_views(old(v)@) + rpc_keys());
}

fn push_wallet_keys(v: &mut Vec<SchemaEntry>)
    ensures
        schema_views(final(v)@) == schema_views(old(v)@) + wallet_keys(),
{
    push_schema(v, "disablewallet", "0", ValueKind::Bool);
    push_schema(v, "fallbackfee", "0.00", ValueKind::Float);
    push_schema(v, "discardfee", "0.0001", ValueKind::Float);
    push_schema(v, "mintxfee", "0.00001", ValueKind::Float);
    push_schema(v, "paytxfee", "0.00", ValueKind::Float);
    assert(schema_views(final(v)@) =~= schema_views(old(v)@) + wallet_keys());
}

fn push_debug_keys(v: &mut Vec<SchemaEntry>)
    ensures
        schema_views(final(v)@) == schema_views(old(v)@) + debug_keys(),
{
    push_schema(v, "debug", "", ValueKind::Text);
    push_schema(v, "logips", "0", ValueKind::Bool);
    push_schema(v, "shrinkdebugfile", "1", ValueKind::Bool);
    assert(schema_views(final(v)@) =~= schema_views(old(v)@) + debug_keys());
}

fn push_mining_keys(v: &mut Vec<SchemaEntry>)
    ensures
        schema_views(final(v)@) == schema_views(old(v)@) + mining_keys(),
{
    push_schema(v, "blockmaxweight", "3996000", ValueKind::Int);
    push_schema(v, "minrelaytxfee", "0.00001", ValueKind::Float);
    assert(schema_views(final(v)@) =~= schema_views(old(v)@) + mining_keys());
}

fn push_zmq_keys(v: &mut Vec<SchemaEntry>)
    ensures
        schema_views(final(v)@) == schema_views(old(v)@) + zmq_keys(),
{
    push_schema(v, "zmqpubhashblock", "", ValueKind::Text);
    push_schema(v, "zmqpubhashtx", "", ValueKind::Text);
    push_schema(v, "zmqpubrawblock", "", ValueKind::Text);
    push_schema(v, "zmqpubrawtx", "", ValueKind::Text);
    assert(schema_views(final(v)@) =~= schema_views(old(v)@) + zmq_keys());
}

/// The schema of the daemon's known keys.
pub fn default_schema() -> (r: Vec<SchemaEntry>)
    ensures
        schema_views(r@) == schema_table(),
{
    let mut v: Vec<SchemaEntry> = Vec::new();
    push_core_keys(&mut v);
    push_network_keys(&mut v);
    push_rpc_keys(&mut v);
    push_wallet_keys(&mut v);
    push_debug_keys(&mut v);
    push_mining_keys(&mut v);
    push_zmq_keys(&mut v);
    assert(schema_views(v@) =~= schema_table());
    v
}

/// Resolves the daemon's configuration from the text of its file, `None` where there is
/// no file: a missing file leaves every key at its default.
pub fn parse_config(text: Option<&str>) -> (r: Result<Vec<ConfigEntry>, ConfigError>)
    ensures
        match text {
            None => r matches Ok(es) && entries_view(es@) == resolved(Seq::empty(), schema_table()),
            Some(t) => match parse_source(t@, true) {
                Ok(file) => r matches Ok(es) && entries_view(es@) == resolved(file, schema_table()),
                Err(n) => r matches Err(e) && e@ == ErrorView::Syntax(n),
            },
        },
{
    let schema = default_schema();
    match text {
        None => {
            let none: Vec<RawEntry> = Vec::new();
            assert(entry_views(none@) =~= Seq::<RawEntryView>::empty());
            Ok(resolve(&none, &schema))
        },
        Some(t) => match parse_text(t, true) {
            Ok(file) => Ok(resolve(&file, &schema)),
            Err(n) => Err(ConfigError::Syntax(n)),
        },
    }
}

proof fn lemma_find_scoped_none(es: Seq<RawEntryView>, scope: Seq<char>, key: Seq<char>)
    requires
        forall|j: int| 0 <= j < es.len() && (#[trigger] es[j]).section == scope ==> base_key(es[j].key) != key,
    ensures
        find_scoped(es, scope, key) is None,
    decreases es.len(),
{
    if es.len() > 0 {
        assert forall|j: int| 0 <= j < es.drop_first().len() && (#[trigger] es.drop_first()[j]).section == scope
            implies base_key(es.drop_first()[j].key) != key by {
            assert(es.drop_first()[j] == es[j + 1]);
        }
        lemma_find_scoped_none(es.drop_first(), scope, key);
    }
}

proof fn lemma_find_scoped_some(es: Seq<RawEntryView>, j: int, key: Seq<char>)
    requires
        0 <= j < es.len(),
        base_key(es[j].key) == key,
    ensures
        find_scoped(es, es[j].section, key) is Some,
    decreases es.len(),
{
    if j > 0 && !(es[0].section == es[j].section && base_key(es[0].key) == key) {
        assert(es.drop_first()[j - 1] == es[j]);
        lemma_find_scoped_some(es.drop_first(), j - 1, key);
    }
}

proof fn lemma_resolve_from_some(es: Seq<RawEntryView>, key: Seq<char>, i: nat, k: nat)
    requires
        i <= k < 5,
        find_scoped(es, scopes()[k as int], key) is Some,
    ensures
        resolve_from(es, key, i) is Some,
    decreases k - i,
{
    if i < k {
        lemma_resolve_from_some(es, key, i + 1, k);
    }
}

proof fn lemma_resolve_from_none(es: Seq<RawEntryView>, key: Seq<char>, i: nat)
    requires
        forall|j: int| 0 <= j < es.len() && in_scope((#[trigger] es[j]).section) ==> base_key(es[j].key) != key,
    ensures
        resolve_from(es, key, i) is None,
    decreases 5 - i,
{
    if i < 5 {
        assert forall|j: int| 0 <= j < es.len() && (#[trigger] es[j]).section == scopes()[i as int]
            implies base_key(es[j].key) != key by {
            assert(in_scope(es[j].section));
        }
        lemma_find_scoped_none(es, scopes()[i as int], key);
        lemma_resolve_from_none(es, key, i + 1);
    }
}

/// A known key that no searched section sets shows its default (a secret only as masked)
/// and is not enabled.
pub proof fn lemma_unset_key_shows_default(es: Seq<RawEntryView>, schema: Seq<SchemaView>, i: int)
    requires
        0 <= i < schema.len(),
        forall|j: int| 0 <= j < es.len() && in_scope((#[trigger] es[j]).section) ==> base_key(es[j].key) != schema[i].key,
    ensures
        resolved(es, schema)[i].value == (if is_secret_key(schema[i].key) {
            masked(schema[i].default)
        } else {
            schema[i].default
        }),
        !resolved(es, schema)[i].enabled,
        resolved(es, schema)[i].schema == Some(schema[i]),
{
    lemma_resolve_from_none(es, schema[i].key, 0);
}

/// A known key that an entry of a searched section sets is enabled, whatever its value,
/// even where that equals the default.
pub proof fn lemma_set_key_is_enabled(es: Seq<RawEntryView>, schema: Seq<SchemaView>, i: int, j: int)
    requires
        0 <= i < schema.len(),
        0 <= j < es.len(),
        in_scope(es[j].section),
        base_key(es[j].key) == schema[i].key,
    ensures
        resolved(es, schema)[i].enabled,
        resolved(es, schema)[i].schema == Some(schema[i]),
{
    lemma_find_scoped_some(es, j, schema[i].key);
    let k = choose|k: int| 0 <= k < scopes().len() && scopes()[k] == es[j].section;
    lemma_resolve_from_some(es, schema[i].key, 0, k as nat);
}

} // verus!
