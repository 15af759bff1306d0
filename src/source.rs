//! Reading a configuration text into `(section, key, value)` triples.
//!
//! Two dialects share one line grammar: blank lines and lines starting with `#` or `;`
//! are skipped, `[name]` opens a section, and `key = value` sets a key in the section
//! opened last (the global section before any header). In the flat dialect the value is
//! the rest of the line, trimmed. In the table dialect it is a quoted string, a list of
//! quoted strings in brackets, or a bare word such as a number or `true`, which a `#`
//! comment may follow.
use vstd::prelude::*;
use crate::text::{blank, is_blank, trim, trimmed, slice_of, string_of, chars_of};

verus! {

pub enum RawValue {
    Text(String),
    List(Vec<String>),
}

pub enum RawValueView {
    Text(Seq<char>),
    List(Seq<Seq<char>>),
}

pub open spec fn string_views(v: Seq<String>) -> Seq<Seq<char>> {
    v.map_values(|x: String| x@)
}

pub open spec fn char_views(v: Seq<Vec<char>>) -> Seq<Seq<char>> {
    v.map_values(|x: Vec<char>| x@)
}

impl View for RawValue {
    type V = RawValueView;

    open spec fn view(&self) -> RawValueView {
        match self {
            RawValue::Text(s) => RawValueView::Text(s@),
            RawValue::List(v) => RawValueView::List(string_views(v@)),
        }
    }
}

/// One key set in one section of a source.
pub struct RawEntry {
    pub section: String,
    pub key: String,
    pub value: RawValue,
}

pub struct RawEntryView {
    pub section: Seq<char>,
    pub key: Seq<char>,
    pub value: RawValueView,
}

impl View for RawEntry {
    type V = RawEntryView;

    open spec fn view(&self) -> RawEntryView {
        RawEntryView { section: self.section@, key: self.key@, value: self.value@ }
    }
}

pub open spec fn entry_views(v: Seq<RawEntry>) -> Seq<RawEntryView> {
    v.map_values(|e: RawEntry| e@)
}

/// The pieces of `s` between occurrences of `sep`; there is one more piece than there
/// are separators.
pub open spec fn split_on(s: Seq<char>, sep: char) -> Seq<Seq<char>>
    decreases s.len(),
{
    if s.len() == 0 {
        seq![Seq::empty()]
    } else {
        let p = split_on(s.drop_last(), sep);
        if s.last() == sep {
            p.push(Seq::empty())
        } else {
            p.update(p.len() - 1, p.last().push(s.last()))
        }
    }
}

proof fn lemma_split_nonempty(s: Seq<char>, sep: char)
    ensures
        split_on(s, sep).len() >= 1,
    decreases s.len(),
{
    if s.len() > 0 {
        lemma_split_nonempty(s.drop_last(), sep);
    }
}

pub fn split_chars(s: &[char], sep: char) -> (r: Vec<Vec<char>>)
    ensures
        char_views(r@) == split_on(s@, sep),
{
    let mut done: Vec<Vec<char>> = Vec::new();
    let mut cur: Vec<char> = Vec::new();
    let mut i: usize = 0;
    assert(s@.subrange(0, 0) =~= Seq::<char>::empty());
    assert(char_views(done@).push(cur@) =~= split_on(Seq::<char>::empty(), sep));
    while i < s.len()
        invariant
            i <= s@.len(),
            char_views(done@).push(cur@) == split_on(s@.subrange(0, i as int), sep),
        decreases s@.len() - i,
    {
        let c = s[i];
        let ghost pre = s@.subrange(0, i as int);
        let ghost next = s@.subrange(0, i + 1);
        assert(next.drop_last() == pre);
        if c == sep {
            done.push(cur);
            cur = Vec::new();
            assert(char_views(done@).push(cur@) =~= split_on(next, sep));
        } else {
            cur.push(c);
            assert(char_views(done@).push(cur@) =~= split_on(next, sep));
        }
        i += 1;
    }
    assert(s@.subrange(0, s@.len() as int) == s@);
    done.push(cur);
    assert(char_views(done@) =~= split_on(s@, sep));
    done
}

/// Characters that may make up a section name or a key.
pub open spec fn is_name_char(c: char) -> bool {
    ('a' <= c <= 'z') || ('A' <= c <= 'Z') || ('0' <= c <= '9') || c == '_' || c == '-' || c
        == '.'
}

pub open spec fn is_name(s: Seq<char>) -> bool {
    s.len() > 0 && forall|i: int| 0 <= i < s.len() ==> is_name_char(#[trigger] s[i])
}

/// Characters that may make up a bare value of the table dialect.
pub open spec fn is_bare_char(c: char) -> bool {
    !is_blank(c) && c != '"' && c != '\'' && c != '#' && c != '[' && c != ']' && c != ','
        && c != '='
}

pub open spec fn is_bare(s: Seq<char>) -> bool {
    s.len() > 0 && forall|i: int| 0 <= i < s.len() ==> is_bare_char(#[trigger] s[i])
}

/// The text inside a pair of double or single quotes that it does not itself contain.
pub open spec fn unquote(t: Seq<char>) -> Option<Seq<char>> {
    if t.len() >= 2 && (t[0] == '"' || t[0] == '\'') && t.last() == t[0] {
        let inner = t.subrange(1, t.len() - 1);
        if forall|i: int| 0 <= i < inner.len() ==> #[trigger] inner[i] != t[0] {
            Some(inner)
        } else {
            None
        }
    } else {
        None
    }
}

/// Every piece, trimmed, unquoted; `None` where one of them is no quoted string.
pub open spec fn unquote_all(items: Seq<Seq<char>>) -> Option<Seq<Seq<char>>>
    decreases items.len(),
{
    if items.len() == 0 {
        Some(Seq::empty())
    } else {
        match (unquote_all(items.drop_last()), unquote(trim(items.last()))) {
            (Some(done), Some(x)) => Some(done.push(x)),
            _ => None,
        }
    }
}

/// The value of `t`, the trimmed text after `=`.
pub open spec fn value_of(t: Seq<char>, flat: bool) -> Option<RawValueView> {
    if flat {
        Some(RawValueView::Text(t))
    } else if t.len() > 0 && (t[0] == '"' || t[0] == '\'') {
        match unquote(t) {
            Some(x) => Some(RawValueView::Text(x)),
            None => None,
        }
    } else if t.len() >= 2 && t[0] == '[' && t.last() == ']' {
        let inner = trim(t.subrange(1, t.len() - 1));
        if inner.len() == 0 {
            Some(RawValueView::List(Seq::empty()))
        } else {
            match unquote_all(split_on(inner, ',')) {
                Some(items) => Some(RawValueView::List(items)),
                None => None,
            }
        }
    } else {
        let bare = trim(t.subrange(0, first_at(t, '#')));
        if is_bare(bare) {
            Some(RawValueView::Text(bare))
        } else {
            None
        }
    }
}

/// Position of the first `c` in `s`, or `s.len()` where there is none.
pub open spec fn first_at(s: Seq<char>, c: char) -> int
    decreases s.len(),
{
    if s.len() == 0 {
        0
    } else if s[0] == c {
        0
    } else {
        1 + first_at(s.drop_first(), c)
    }
}

pub enum LineView {
    Skip,
    Header(Seq<char>),
    Pair(Seq<char>, RawValueView),
    Bad,
}

/// What one line of a source says.
pub open spec fn classify(line: Seq<char>, flat: bool) -> LineView {
    let t = trim(line);
    if t.len() == 0 || t[0] == '#' || t[0] == ';' {
        LineView::Skip
    } else if t[0] == '[' {
        let name = trim(t.subrange(1, t.len() - 1));
        if t.len() >= 2 && t.last() == ']' && is_name(name) {
            LineView::Header(name)
        } else {
            LineView::Bad
        }
    } else {
        let p = first_at(t, '=');
        let key = trim(t.subrange(0, p));
        if p < t.len() && is_name(key) {
            match value_of(trim(t.subrange(p + 1, t.len() as int)), flat) {
                Some(v) => LineView::Pair(key, v),
                None => LineView::Bad,
            }
        } else {
            LineView::Bad
        }
    }
}

/// The section open after the lines `ls` and the entries they set, or the number of the
/// first line (counting from 1) that is none of a blank line, a comment, a header or a
/// pair.
pub open spec fn parse_lines(ls: Seq<Seq<char>>, flat: bool) -> Result<
    (Seq<char>, Seq<RawEntryView>),
    nat,
>
    decreases ls.len(),
{
    if ls.len() == 0 {
        Ok((Seq::empty(), Seq::empty()))
    } else {
        match parse_lines(ls.drop_last(), flat) {
            Err(n) => Err(n),
            Ok((sec, es)) => match classify(ls.last(), flat) {
                LineView::Skip => Ok((sec, es)),
                LineView::Header(h) => Ok((h, es)),
                LineView::Pair(k, v) => Ok(
                    (sec, es.push(RawEntryView { section: sec, key: k, value: v })),
                ),
                LineView::Bad => Err(ls.len()),
            },
        }
    }
}

/// The entries that a source text sets, in the order of its lines, or the number of its
/// first malformed line.
pub open spec fn parse_source(s: Seq<char>, flat: bool) -> Result<Seq<RawEntryView>, nat> {
    match parse_lines(split_on(s, '\n'), flat) {
        Ok((_, es)) => Ok(es),
        Err(n) => Err(n),
    }
}

pub fn find_char(s: &[char], c: char) -> (r: usize)
    ensures
        r == first_at(s@, c),
        r <= s@.len(),
{
    let mut i: usize = 0;
    assert(s@.subrange(0, s@.len() as int) == s@);
    while i < s.len() && s[i] != c
        invariant
            i <= s@.len(),
            first_at(s@, c) == i + first_at(s@.subrange(i as int, s@.len() as int), c),
        decreases s@.len() - i,
    {
        assert(s@.subrange(i as int, s@.len() as int).drop_first() == s@.subrange(
            i + 1,
            s@.len() as int,
        ));
        i += 1;
    }
    i
}

fn name_char(c: char) -> (r: bool)
    ensures
        r == is_name_char(c),
{
    ('a' <= c && c <= 'z') || ('A' <= c && c <= 'Z') || ('0' <= c && c <= '9') || c == '_' || c
        == '-' || c == '.'
}

fn check_name(s: &[char]) -> (r: bool)
    ensures
        r == is_name(s@),
{
    if s.len() == 0 {
        return false;
    }
    let mut i: usize = 0;
    while i < s.len()
        invariant
            i <= s@.len(),
            forall|j: int| 0 <= j < i ==> is_name_char(#[trigger] s@[j]),
        decreases s@.len() - i,
    {
        if !name_char(s[i]) {
            return false;
        }
        i += 1;
    }
    true
}

fn check_bare(s: &[char]) -> (r: bool)
    ensures
        r == is_bare(s@),
{
    if s.len() == 0 {
        return false;
    }
    let mut i: usize = 0;
    while i < s.len()
        invariant
            i <= s@.len(),
            forall|j: int| 0 <= j < i ==> is_bare_char(#[trigger] s@[j]),
        decreases s@.len() - i,
    {
        let c = s[i];
        if blank(c) || c == '"' || c == '\'' || c == '#' || c == '[' || c == ']' || c == ','
            || c == '=' {
            return false;
        }
        i += 1;
    }
    true
}

fn unquote_chars(t: &[char]) -> (r: Option<Vec<char>>)
    ensures
        match r {
            Some(x) => unquote(t@) == Some(x@),
            None => unquote(t@) is None,
        },
{
    let n = t.len();
    if n < 2 || !(t[0] == '"' || t[0] == '\'') || t[n - 1] != t[0] {
        return None;
    }
    let q = t[0];
    let inner = slice_of(t, 1, n - 1);
    let mut i: usize = 0;
    while i < inner.len()
        invariant
            i <= inner@.len(),
            n == t@.len(),
            n >= 2,
            q == t@[0],
            inner@ == t@.subrange(1, n - 1),
            forall|j: int| 0 <= j < i ==> #[trigger] inner@[j] != q,
        decreases inner@.len() - i,
    {
        if inner[i] == q {
            assert(inner@[i as int] == t@[0]);
            assert(!(forall|j: int| 0 <= j < inner@.len() ==> #[trigger] inner@[j] != t@[0]));
            return None;
        }
        i += 1;
    }
    Some(inner)
}

fn unquote_items(items: &Vec<Vec<char>>) -> (r: Option<Vec<String>>)
    ensures
        match r {
            Some(x) => unquote_all(char_views(items@)) == Some(string_views(x@)),
            None => unquote_all(char_views(items@)) is None,
        },
{
    let mut out: Vec<String> = Vec::new();
    let mut i: usize = 0;
    assert(char_views(items@).subrange(0, 0) =~= Seq::<Seq<char>>::empty());
    assert(string_views(out@) =~= Seq::<Seq<char>>::empty());
    while i < items.len()
        invariant
            i <= items@.len(),
            unquote_all(char_views(items@).subrange(0, i as int)) == Some(string_views(out@)),
        decreases items@.len() - i,
    {
        let ghost pre = char_views(items@).subrange(0, i as int);
        let ghost next = char_views(items@).subrange(0, i + 1);
        assert(next.drop_last() == pre);
        let t = trimmed(&items[i]);
        match unquote_chars(&t) {
            Some(x) => {
                let ghost before = out@;
                out.push(string_of(&x));
                assert(string_views(out@) =~= string_views(before).push(x@));
            },
            None => {
                proof {
                    lemma_unquote_all_prefix(char_views(items@), i + 1);
                }
                return None;
            },
        }
        i += 1;
    }
    assert(char_views(items@).subrange(0, items@.len() as int) == char_views(items@));
    Some(out)
}

proof fn lemma_unquote_all_prefix(items: Seq<Seq<char>>, j: int)
    requires
        0 <= j <= items.len(),
        unquote_all(items.subrange(0, j)) is None,
    ensures
        unquote_all(items) is None,
    decreases items.len() - j,
{
    if j < items.len() {
        let next = items.subrange(0, j + 1);
        assert(next.drop_last() == items.subrange(0, j));
        lemma_unquote_all_prefix(items, j + 1);
    } else {
        assert(items.subrange(0, j) == items);
    }
}

fn parse_value(t: &[char], flat: bool) -> (r: Option<RawValue>)
    ensures
        match r {
            Some(v) => value_of(t@, flat) == Some(v@),
            None => value_of(t@, flat) is None,
        },
{
    let n = t.len();
    if flat {
        return Some(RawValue::Text(string_of(t)));
    }
    if n > 0 && (t[0] == '"' || t[0] == '\'') {
        return match unquote_chars(t) {
            Some(x) => Some(RawValue::Text(string_of(&x))),
            None => None,
        };
    }
    if n >= 2 && t[0] == '[' && t[n - 1] == ']' {
        let middle = slice_of(t, 1, n - 1);
        let inner = trimmed(&middle);
        if inner.len() == 0 {
            let empty: Vec<String> = Vec::new();
            assert(string_views(empty@) =~= Seq::<Seq<char>>::empty());
            return Some(RawValue::List(empty));
        }
        let pieces = split_chars(&inner, ',');
        return match unquote_items(&pieces) {
            Some(items) => Some(RawValue::List(items)),
            None => None,
        };
    }
    let c = find_char(t, '#');
    let head = slice_of(t, 0, c);
    let bare = trimmed(&head);
    if check_bare(&bare) {
        Some(RawValue::Text(string_of(&bare)))
    } else {
        None
    }
}

pub enum Line {
    Skip,
    Header(Vec<char>),
    Pair(Vec<char>, RawValue),
    Bad,
}

impl View for Line {
    type V = LineView;

    open spec fn view(&self) -> LineView {
        match self {
            Line::Skip => LineView::Skip,
            Line::Header(h) => LineView::Header(h@),
            Line::Pair(k, v) => LineView::Pair(k@, v@),
            Line::Bad => LineView::Bad,
        }
    }
}

fn classify_line(line: &[char], flat: bool) -> (r: Line)
    ensures
        r@ == classify(line@, flat),
{
    let t = trimmed(line);
    let n = t.len();
    if n == 0 || t[0] == '#' || t[0] == ';' {
        return Line::Skip;
    }
    if t[0] == '[' {
        if n >= 2 && t[n - 1] == ']' {
            let middle = slice_of(&t, 1, n - 1);
            let name = trimmed(&middle);
            if check_name(&name) {
                return Line::Header(name);
            }
        }
        return Line::Bad;
    }
    let p = find_char(&t, '=');
    let head = slice_of(&t, 0, p);
    let key = trimmed(&head);
    if p < n && check_name(&key) {
        let rest = slice_of(&t, p + 1, n);
        let vt = trimmed(&rest);
        match parse_value(&vt, flat) {
            Some(v) => Line::Pair(key, v),
            None => Line::Bad,
        }
    } else {
        Line::Bad
    }
}

/// Reads a source text into the entries it sets, in the order of its lines, or returns
/// the number of its first malformed line. `flat` selects the dialect whose values are
/// the rest of the line.
pub fn parse_text(text: &str, flat: bool) -> (r: Result<Vec<RawEntry>, usize>)
    ensures
        match r {
            Ok(es) => parse_source(text@, flat) == Ok::<Seq<RawEntryView>, nat>(entry_views(es@)),
            Err(n) => parse_source(text@, flat) == Err::<Seq<RawEntryView>, nat>(n as nat),
        },
{
    let chars = chars_of(text);
    let lines = split_chars(&chars, '\n');
    let ghost ls = char_views(lines@);
    let mut section: Vec<char> = Vec::new();
    let mut entries: Vec<RawEntry> = Vec::new();
    let mut i: usize = 0;
    assert(ls.subrange(0, 0) =~= Seq::<Seq<char>>::empty());
    assert(entry_views(entries@) =~= Seq::<RawEntryView>::empty());
    while i < lines.len()
        invariant
            i <= lines@.len(),
            ls == char_views(lines@),
            chars@ == text@,
            ls == split_on(chars@, '\n'),
            parse_lines(ls.subrange(0, i as int), flat) == Ok::<
                (Seq<char>, Seq<RawEntryView>),
                nat,
            >((section@, entry_views(entries@))),
        decreases lines@.len() - i,
    {
        let ghost next = ls.subrange(0, i + 1);
        assert(next.drop_last() == ls.subrange(0, i as int));
        assert(next.last() == lines@[i as int]@);
        match classify_line(&lines[i], flat) {
            Line::Skip => {},
            Line::Header(h) => {
                section = h;
            },
            Line::Pair(k, v) => {
                let ghost before = entries@;
                let e = RawEntry { section: string_of(&section), key: string_of(&k), value: v };
                entries.push(e);
                assert(entry_views(entries@) =~= entry_views(before).push(e@));
            },
            Line::Bad => {
                proof {
                    assert(parse_lines(next, flat) == Err::<(Seq<char>, Seq<RawEntryView>), nat>(
                        (i + 1) as nat,
                    ));
                    lemma_parse_lines_prefix(ls, i + 1, flat);
                    assert(parse_lines(ls, flat) == Err::<(Seq<char>, Seq<RawEntryView>), nat>(
                        (i + 1) as nat,
                    ));
                }
                return Err(i + 1);
            },
        }
        i += 1;
    }
    assert(ls.subrange(0, lines@.len() as int) == ls);
    Ok(entries)
}

proof fn lemma_parse_lines_prefix(ls: Seq<Seq<char>>, j: int, flat: bool)
    requires
        0 <= j <= ls.len(),
        parse_lines(ls.subrange(0, j), flat) is Err,
    ensures
        parse_lines(ls, flat) == parse_lines(ls.subrange(0, j), flat),
    decreases ls.len() - j,
{
    if j < ls.len() {
        let next = ls.subrange(0, j + 1);
        assert(next.drop_last() == ls.subrange(0, j));
        lemma_parse_lines_prefix(ls, j + 1, flat);
    } else {
        assert(ls.subrange(0, j) == ls);
    }
}

} // verus!
