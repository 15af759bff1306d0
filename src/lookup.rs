//! Merged lookups over a file source and environment overrides, and the reading of one
//! field of a given kind.
use vstd::prelude::*;
use crate::number::{parse_unsigned, unsigned_text, decimal, push_decimal};
use crate::source::{first_at, RawEntry, RawEntryView, RawValue, RawValueView, entry_views, string_views};
use crate::text::{chars_of, same_chars, string_of, lower_ascii, to_lower_ascii, starts_with,
    starts_with_chars, slice_of};

verus! {

/// Why a configuration could not be resolved.
#[derive(Debug)]
pub enum ConfigError {
    /// The text names none of the pool's sections and no override is set.
    NotPoolConfig,
    /// The line with this number (counting from 1) is malformed.
    Syntax(usize),
    /// A required field of a present section is not set.
    MissingField(String, String),
    /// A field is set to a value that its kind does not accept.
    InvalidValue(String, String),
    /// The network is none of the names that select one.
    InvalidNetwork,
    /// The version mask is not hexadecimal.
    InvalidVersionMask,
    /// A validation rule of the stratum section fails.
    Invalid(ValidationError),
}

/// The address fields of the stratum section that are checked against its network.
#[derive(Debug, Clone, Copy, PartialEq, Eq, Structural)]
pub enum AddressField {
    Bootstrap,
    Donation,
    Fee,
    Solo,
}

#[derive(Debug, Clone, Copy, PartialEq, Eq, Structural)]
pub enum ValidationError {
    /// The pool signature is longer than its limit.
    SignatureTooLong,
    /// The address does not parse, or belongs to another network.
    InvalidAddress(AddressField),
    /// A share is set without the address that receives it.
    AddressRequired(AddressField),
}

pub enum ErrorView {
    NotPoolConfig,
    Syntax(nat),
    MissingField(Seq<char>, Seq<char>),
    InvalidValue(Seq<char>, Seq<char>),
    InvalidNetwork,
    InvalidVersionMask,
    Invalid(ValidationError),
}

impl View for ConfigError {
    type V = ErrorView;

    open spec fn view(&self) -> ErrorView {
        match self {
            ConfigError::NotPoolConfig => ErrorView::NotPoolConfig,
            ConfigError::Syntax(n) => ErrorView::Syntax(*n as nat),
            ConfigError::MissingField(s, k) => ErrorView::MissingField(s@, k@),
            ConfigError::InvalidValue(s, k) => ErrorView::InvalidValue(s@, k@),
            ConfigError::InvalidNetwork => ErrorView::InvalidNetwork,
            ConfigError::InvalidVersionMask => ErrorView::InvalidVersionMask,
            ConfigError::Invalid(v) => ErrorView::Invalid(*v),
        }
    }
}

/// Two ordered sources of entries: the overrides, which win, and the file.
pub struct Sources {
    pub env: Vec<RawEntry>,
    pub file: Vec<RawEntry>,
}

pub struct SourcesView {
    pub env: Seq<RawEntryView>,
    pub file: Seq<RawEntryView>,
}

impl View for Sources {
    type V = SourcesView;

    open spec fn view(&self) -> SourcesView {
        SourcesView { env: entry_views(self.env@), file: entry_views(self.file@) }
    }
}

/// The value of the first entry that sets `key` in `section`.
pub open spec fn find(es: Seq<RawEntryView>, section: Seq<char>, key: Seq<char>) -> Option<
    RawValueView,
>
    decreases es.len(),
{
    if es.len() == 0 {
        None
    } else if es[0].section == section && es[0].key == key {
        Some(es[0].value)
    } else {
        find(es.drop_first(), section, key)
    }
}

/// The value of a field: the override where one is set, else the file's.
pub open spec fn lookup(s: SourcesView, section: Seq<char>, key: Seq<char>) -> Option<
    RawValueView,
> {
    match find(s.env, section, key) {
        Some(v) => Some(v),
        None => find(s.file, section, key),
    }
}

/// Some entry of either source lies in `section`.
pub open spec fn section_set(s: SourcesView, section: Seq<char>) -> bool {
    (exists|i: int| 0 <= i < s.env.len() && #[trigger] s.env[i].section == section) || (exists|
        i: int,
    |
        0 <= i < s.file.len() && #[trigger] s.file[i].section == section)
}

fn find_in<'a>(es: &'a Vec<RawEntry>, section: &String, key: &String) -> (r: Option<&'a RawValue>)
    ensures
        match r {
            Some(v) => find(entry_views(es@), section@, key@) == Some(v@),
            None => find(entry_views(es@), section@, key@) is None,
        },
{
    let mut i: usize = 0;
    let ghost all = entry_views(es@);
    assert(all.subrange(0, all.len() as int) == all);
    while i < es.len()
        invariant
            i <= es@.len(),
            all == entry_views(es@),
            find(all, section@, key@) == find(all.subrange(i as int, all.len() as int), section@, key@),
        decreases es@.len() - i,
    {
        let ghost rest = all.subrange(i as int, all.len() as int);
        assert(rest[0] == es@[i as int]@);
        if es[i].section == *section && es[i].key == *key {
            return Some(&es[i].value);
        }
        assert(rest.drop_first() == all.subrange(i + 1, all.len() as int));
        i += 1;
    }
    None
}

impl Sources {
    pub fn lookup(&self, section: &String, key: &String) -> (r: Option<&RawValue>)
        ensures
            match r {
                Some(v) => lookup(self@, section@, key@) == Some(v@),
                None => lookup(self@, section@, key@) is None,
            },
    {
        match find_in(&self.env, section, key) {
            Some(v) => Some(v),
            None => find_in(&self.file, section, key),
        }
    }

    pub fn has_section(&self, section: &String) -> (r: bool)
        ensures
            r == section_set(self@, *&section@),
    {
        let mut i: usize = 0;
        while i < self.env.len()
            invariant
                i <= self.env@.len(),
                forall|j: int| 0 <= j < i ==> self.env@[j].section@ != section@,
            decreases self.env@.len() - i,
        {
            if self.env[i].section == *section {
                assert(self@.env[i as int].section == section@);
                return true;
            }
            i += 1;
        }
        let mut i: usize = 0;
        while i < self.file.len()
            invariant
                i <= self.file@.len(),
                forall|j: int| 0 <= j < self.env@.len() ==> self.env@[j].section@ != section@,
                forall|j: int| 0 <= j < i ==> self.file@[j].section@ != section@,
            decreases self.file@.len() - i,
        {
            if self.file[i].section == *section {
                assert(self@.file[i as int].section == section@);
                return true;
            }
            i += 1;
        }
        assert(!section_set(self@, section@)) by {
            assert forall|j: int| 0 <= j < self@.env.len() implies #[trigger] self@.env[j].section
                != section@ by {
                assert(self@.env[j] == self.env@[j]@);
            }
            assert forall|j: int| 0 <= j < self@.file.len() implies #[trigger] self@.file[j].section
                != section@ by {
                assert(self@.file[j] == self.file@[j]@);
            }
        }
        false
    }
}

/// What a field of a given kind reads from its source value.
pub enum Decoded<T> {
    Absent,
    Value(T),
    Invalid,
}

pub open spec fn text_of(v: Option<RawValueView>) -> Decoded<Seq<char>> {
    match v {
        None => Decoded::Absent,
        Some(RawValueView::Text(t)) => Decoded::Value(t),
        Some(RawValueView::List(_)) => Decoded::Invalid,
    }
}

pub open spec fn list_of(v: Option<RawValueView>) -> Decoded<Seq<Seq<char>>> {
    match v {
        None => Decoded::Absent,
        Some(RawValueView::List(l)) => Decoded::Value(l),
        Some(RawValueView::Text(_)) => Decoded::Invalid,
    }
}

pub open spec fn unsigned_of(v: Option<RawValueView>, max: nat) -> Decoded<nat> {
    match v {
        None => Decoded::Absent,
        Some(RawValueView::Text(t)) => match unsigned_text(t) {
            Some(n) => if n <= max {
                Decoded::Value(n)
            } else {
                Decoded::Invalid
            },
            None => Decoded::Invalid,
        },
        Some(RawValueView::List(_)) => Decoded::Invalid,
    }
}

/// The truth value of a word, whatever the case of its letters: `true`, `yes`, `on`
/// and `1`, or `false`, `no`, `off` and `0`.
pub open spec fn flag_text(t: Seq<char>) -> Option<bool> {
    let w = lower_ascii(t);
    if w == "true"@ || w == "yes"@ || w == "on"@ || w == "1"@ {
        Some(true)
    } else if w == "false"@ || w == "no"@ || w == "off"@ || w == "0"@ {
        Some(false)
    } else {
        None
    }
}

pub open spec fn flag_of(v: Option<RawValueView>) -> Decoded<bool> {
    match v {
        None => Decoded::Absent,
        Some(RawValueView::Text(t)) => match flag_text(t) {
            Some(b) => Decoded::Value(b),
            None => Decoded::Invalid,
        },
        Some(RawValueView::List(_)) => Decoded::Invalid,
    }
}

pub open spec fn decoded_ok<T>(d: Decoded<T>) -> bool {
    !(d is Invalid)
}

pub open spec fn value_or<T>(d: Decoded<T>, default: T) -> T {
    match d {
        Decoded::Value(v) => v,
        _ => default,
    }
}

pub open spec fn value_opt<T>(d: Decoded<T>) -> Option<T> {
    match d {
        Decoded::Value(v) => Some(v),
        _ => None,
    }
}

pub fn flag_word(t: &[char]) -> (r: Option<bool>)
    ensures
        r == flag_text(t@),
{
    let w = to_lower_ascii(t);
    if same_chars(&w, &chars_of("true")) || same_chars(&w, &chars_of("yes")) || same_chars(
        &w,
        &chars_of("on"),
    ) || same_chars(&w, &chars_of("1")) {
        Some(true)
    } else if same_chars(&w, &chars_of("false")) || same_chars(&w, &chars_of("no"))
        || same_chars(&w, &chars_of("off")) || same_chars(&w, &chars_of("0")) {
        Some(false)
    } else {
        None
    }
}

impl Sources {
    pub fn read_text(&self, section: &String, key: &String) -> (r: Result<Option<String>, ConfigError>)
        ensures
            match r {
                Ok(None) => text_of(lookup(self@, section@, key@)) is Absent,
                Ok(Some(v)) => text_of(lookup(self@, section@, key@)) == Decoded::Value(v@),
                Err(e) => text_of(lookup(self@, section@, key@)) is Invalid && e@ == ErrorView::InvalidValue(section@, key@),
            },
    {
        match self.lookup(section, key) {
            None => Ok(None),
            Some(RawValue::Text(t)) => Ok(Some(t.clone())),
            Some(RawValue::List(_)) => Err(ConfigError::InvalidValue(section.clone(), key.clone())),
        }
    }

    pub fn read_list(&self, section: &String, key: &String) -> (r: Result<Option<Vec<String>>, ConfigError>)
        ensures
            match r {
                Ok(None) => list_of(lookup(self@, section@, key@)) is Absent,
                Ok(Some(v)) => list_of(lookup(self@, section@, key@)) == Decoded::Value(string_views(v@)),
                Err(e) => list_of(lookup(self@, section@, key@)) is Invalid && e@ == ErrorView::InvalidValue(section@, key@),
            },
    {
        match self.lookup(section, key) {
            None => Ok(None),
            Some(RawValue::List(l)) => {
                let mut out: Vec<String> = Vec::new();
                let mut i: usize = 0;
                while i < l.len()
                    invariant
                        i <= l@.len(),
                        string_views(out@) == string_views(l@).subrange(0, i as int),
                    decreases l@.len() - i,
                {
                    let ghost before = out@;
                    let item = l[i].clone();
                    assert(item@ == string_views(l@)[i as int]);
                    out.push(item);
                    assert(string_views(out@) =~= string_views(before).push(item@));
                    assert(string_views(out@) =~= string_views(l@).subrange(0, i + 1));
                    i += 1;
                }
                assert(string_views(l@).subrange(0, l@.len() as int) == string_views(l@));
                Ok(Some(out))
            },
            Some(RawValue::Text(_)) => Err(ConfigError::InvalidValue(section.clone(), key.clone())),
        }
    }

    pub fn read_unsigned(&self, section: &String, key: &String, max: u64) -> (r: Result<Option<u64>, ConfigError>)
        ensures
            match r {
                Ok(None) => unsigned_of(lookup(self@, section@, key@), max as nat) is Absent,
                Ok(Some(v)) => unsigned_of(lookup(self@, section@, key@), max as nat) == Decoded::Value(v as nat),
                Err(e) => unsigned_of(lookup(self@, section@, key@), max as nat) is Invalid && e@ == ErrorView::InvalidValue(section@, key@),
            },
    {
        match self.lookup(section, key) {
            None => Ok(None),
            Some(RawValue::Text(t)) => {
                let v = chars_of(t.as_str());
                match parse_unsigned(&v, max) {
                    Some(n) => Ok(Some(n)),
                    None => Err(ConfigError::InvalidValue(section.clone(), key.clone())),
                }
            },
            Some(RawValue::List(_)) => Err(ConfigError::InvalidValue(section.clone(), key.clone())),
        }
    }

    pub fn read_flag(&self, section: &String, key: &String) -> (r: Result<Option<bool>, ConfigError>)
        ensures
            match r {
                Ok(None) => flag_of(lookup(self@, section@, key@)) is Absent,
                Ok(Some(v)) => flag_of(lookup(self@, section@, key@)) == Decoded::Value(v),
                Err(e) => flag_of(lookup(self@, section@, key@)) is Invalid && e@ == ErrorView::InvalidValue(section@, key@),
            },
    {
        match self.lookup(section, key) {
            None => Ok(None),
            Some(RawValue::Text(t)) => {
                let v = chars_of(t.as_str());
                match flag_word(&v) {
                    Some(b) => Ok(Some(b)),
                    None => Err(ConfigError::InvalidValue(section.clone(), key.clone())),
                }
            },
            Some(RawValue::List(_)) => Err(ConfigError::InvalidValue(section.clone(), key.clone())),
        }
    }
}

/// The prefix that marks an environment variable as an override of a pool field.
pub open spec fn override_prefix() -> Seq<char> {
    seq!['P', '2', 'P', 'O', 'O', 'L', '_']
}

/// The entry that an environment variable sets: `P2POOL_<SECTION>_<FIELD>` sets the
/// field, in small letters, of the section, in small letters. Other variables set none.
pub open spec fn override_of(name: Seq<char>, value: Seq<char>) -> Option<RawEntryView> {
    if starts_with(name, override_prefix()) {
        let rest = name.subrange(7, name.len() as int);
        let p = first_at(rest, '_');
        if 0 < p && p + 1 < rest.len() {
            Some(
                RawEntryView {
                    section: lower_ascii(rest.subrange(0, p)),
                    key: lower_ascii(rest.subrange(p + 1, rest.len() as int)),
                    value: RawValueView::Text(value),
                },
            )
        } else {
            None
        }
    } else {
        None
    }
}

pub open spec fn var_views(vars: Seq<(String, String)>) -> Seq<(Seq<char>, Seq<char>)> {
    vars.map_values(|p: (String, String)| (p.0@, p.1@))
}

/// The override entries of the environment, in the order of its variables.
pub open spec fn overrides(vars: Seq<(Seq<char>, Seq<char>)>) -> Seq<RawEntryView>
    decreases vars.len(),
{
    if vars.len() == 0 {
        Seq::empty()
    } else {
        let done = overrides(vars.drop_last());
        match override_of(vars.last().0, vars.last().1) {
            Some(e) => done.push(e),
            None => done,
        }
    }
}

/// Some variable of the environment carries the override prefix.
pub open spec fn overrides_present(vars: Seq<(Seq<char>, Seq<char>)>) -> bool {
    exists|i: int| 0 <= i < vars.len() && starts_with(#[trigger] vars[i].0, override_prefix())
}

fn find_underscore(s: &[char]) -> (r: usize)
    ensures
        r == first_at(s@, '_'),
        r <= s@.len(),
{
    let mut i: usize = 0;
    assert(s@.subrange(0, s@.len() as int) == s@);
    while i < s.len() && s[i] != '_'
        invariant
            i <= s@.len(),
            first_at(s@, '_') == i + first_at(s@.subrange(i as int, s@.len() as int), '_'),
        decreases s@.len() - i,
    {
        assert(s@.subrange(i as int, s@.len() as int).drop_first() == s@.subrange(
            i + 1,
            s@.len() as int,
        ));
        i += 1;
    }
    i
}

fn prefix_chars() -> (r: Vec<char>)
    ensures
        r@ == override_prefix(),
{
    let mut r: Vec<char> = Vec::new();
    r.push('P');
    r.push('2');
    r.push('P');
    r.push('O');
    r.push('O');
    r.push('L');
    r.push('_');
    assert(r@ =~= override_prefix());
    r
}

fn override_entry(name: &String, value: &String) -> (r: Option<RawEntry>)
    ensures
        match r {
            Some(e) => override_of(name@, value@) == Some(e@),
            None => override_of(name@, value@) is None,
        },
{
    let n = chars_of(name.as_str());
    if !starts_with_chars(&n, &prefix_chars()) {
        return None;
    }
    let rest = slice_of(&n, 7, n.len());
    let p = find_underscore(&rest);
    if 0 < p && p + 1 < rest.len() {
        let sec = slice_of(&rest, 0, p);
        let key = slice_of(&rest, p + 1, rest.len());
        let e = RawEntry {
            section: string_of(&to_lower_ascii(&sec)),
            key: string_of(&to_lower_ascii(&key)),
            value: RawValue::Text(value.clone()),
        };
        Some(e)
    } else {
        None
    }
}

/// The override entries that the environment `vars` sets, and whether any variable
/// carries the override prefix.
pub fn read_overrides(vars: &Vec<(String, String)>) -> (r: (Vec<RawEntry>, bool))
    ensures
        entry_views(r.0@) == overrides(var_views(vars@)),
        r.1 == overrides_present(var_views(vars@)),
{
    let mut out: Vec<RawEntry> = Vec::new();
    let mut present = false;
    let mut i: usize = 0;
    let ghost vs = var_views(vars@);
    let pre = prefix_chars();
    assert(vs.subrange(0, 0) =~= Seq::<(Seq<char>, Seq<char>)>::empty());
    assert(entry_views(out@) =~= Seq::<RawEntryView>::empty());
    while i < vars.len()
        invariant
            i <= vars@.len(),
            vs == var_views(vars@),
            pre@ == override_prefix(),
            entry_views(out@) == overrides(vs.subrange(0, i as int)),
            present == exists|j: int| 0 <= j < i && starts_with(#[trigger] vs[j].0, override_prefix()),
        decreases vars@.len() - i,
    {
        let ghost next = vs.subrange(0, i + 1);
        assert(next.drop_last() == vs.subrange(0, i as int));
        assert(next.last() == vs[i as int]);
        let n = chars_of(vars[i].0.as_str());
        if starts_with_chars(&n, &pre) {
            present = true;
        }
        match override_entry(&vars[i].0, &vars[i].1) {
            Some(e) => {
                let ghost before = out@;
                out.push(e);
                assert(entry_views(out@) =~= entry_views(before).push(e@));
            },
            None => {},
        }
        i += 1;
    }
    assert(vs.subrange(0, vars@.len() as int) == vs);
    (out, present)
}

pub open spec fn address_field_name(f: AddressField) -> Seq<char> {
    match f {
        AddressField::Bootstrap => "bootstrap_address"@,
        AddressField::Donation => "donation_address"@,
        AddressField::Fee => "fee_address"@,
        AddressField::Solo => "solo_address"@,
    }
}

/// The message that describes an error.
pub open spec fn message(e: ErrorView) -> Seq<char> {
    match e {
        ErrorView::NotPoolConfig => "Invalid P2Pool config: not a p2pool configuration"@,
        ErrorView::Syntax(n) => "Malformed configuration line "@ + decimal(n),
        ErrorView::MissingField(s, k) => "Failed to deserialize config: missing field "@ + s + "."@ + k,
        ErrorView::InvalidValue(s, k) => "Failed to deserialize config: invalid value for "@ + s + "."@ + k,
        ErrorView::InvalidNetwork => "Failed to deserialize config: unknown network"@,
        ErrorView::InvalidVersionMask => "version_mask must be hex (e.g. 1fffe000)"@,
        ErrorView::Invalid(ValidationError::SignatureTooLong) => "Pool signature exceeds max length"@,
        ErrorView::Invalid(ValidationError::InvalidAddress(f)) => "Invalid "@ + address_field_name(f),
        ErrorView::Invalid(ValidationError::AddressRequired(AddressField::Donation)) => "donation_address is required when donation is set"@,
        ErrorView::Invalid(ValidationError::AddressRequired(AddressField::Fee)) => "fee_address is required when fee is set"@,
        ErrorView::Invalid(ValidationError::AddressRequired(AddressField::Bootstrap)) => "bootstrap_address is required"@,
        ErrorView::Invalid(ValidationError::AddressRequired(AddressField::Solo)) => "solo_address is required"@,
    }
}

impl AddressField {
    pub fn name(&self) -> (r: &'static str)
        ensures
            r@ == address_field_name(*self),
    {
        match self {
            AddressField::Bootstrap => "bootstrap_address",
            AddressField::Donation => "donation_address",
            AddressField::Fee => "fee_address",
            AddressField::Solo => "solo_address",
        }
    }
}

impl ConfigError {
    /// The message that describes the error.
    pub fn to_string(&self) -> (r: String)
        ensures
            r@ == message(self@),
    {
        match self {
            ConfigError::NotPoolConfig => String::from_str("Invalid P2Pool config: not a p2pool configuration"),
            ConfigError::Syntax(n) => {
                let mut v = chars_of("Malformed configuration line ");
                push_decimal(&mut v, *n as u64);
                string_of(&v)
            },
            ConfigError::MissingField(s, k) => {
                let mut r = String::from_str("Failed to deserialize config: missing field ");
                r.append(s.as_str());
                r.append(".");
                r.append(k.as_str());
                r
            },
            ConfigError::InvalidValue(s, k) => {
                let mut r = String::from_str("Failed to deserialize config: invalid value for ");
                r.append(s.as_str());
                r.append(".");
                r.append(k.as_str());
                r
            },
            ConfigError::InvalidNetwork => String::from_str("Failed to deserialize config: unknown network"),
            ConfigError::InvalidVersionMask => String::from_str("version_mask must be hex (e.g. 1fffe000)"),
            ConfigError::Invalid(ValidationError::SignatureTooLong) => String::from_str("Pool signature exceeds max length"),
            ConfigError::Invalid(ValidationError::InvalidAddress(f)) => {
                let mut r = String::from_str("Invalid ");
                r.append(f.name());
                r
            },
            ConfigError::Invalid(ValidationError::AddressRequired(AddressField::Donation)) => String::from_str("donation_address is required when donation is set"),
            ConfigError::Invalid(ValidationError::AddressRequired(AddressField::Fee)) => String::from_str("fee_address is required when fee is set"),
            ConfigError::Invalid(ValidationError::AddressRequired(AddressField::Bootstrap)) => String::from_str("bootstrap_address is required"),
            ConfigError::Invalid(ValidationError::AddressRequired(AddressField::Solo)) => String::from_str("solo_address is required"),
        }
    }
}

} // verus!
