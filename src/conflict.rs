use vstd::prelude::*;

use crate::text::{chars_of, same_text, text_between};
use crate::time::{diagnostic_time, parse_str_into_datetime_utc, Timestamp};

verus! {

/// A reservation window recovered from a storage diagnostic.
#[derive(Debug)]
pub struct ReservationWindow {
    pub rid: String,
    pub start: Timestamp,
    pub end: Timestamp,
}

/// The two windows of an exclusivity violation: the one being inserted and
/// the one already stored.
#[derive(Debug)]
pub struct ReservationConflict {
    pub new: ReservationWindow,
    pub old: ReservationWindow,
}

/// Conflict details: decoded windows, or the raw diagnostic when it could not be decoded.
#[derive(Debug)]
pub enum ReservationConflictInfo {
    Parsed(ReservationConflict),
    Unparsed(String),
}

pub struct WindowView {
    pub rid: Seq<char>,
    pub start: Timestamp,
    pub end: Timestamp,
}

pub enum ConflictInfoView {
    Parsed { new: WindowView, old: WindowView },
    Unparsed(Seq<char>),
}

impl View for ReservationWindow {
    type V = WindowView;

    open spec fn view(&self) -> WindowView {
        WindowView { rid: self.rid@, start: self.start, end: self.end }
    }
}

impl View for ReservationConflictInfo {
    type V = ConflictInfoView;

    open spec fn view(&self) -> ConflictInfoView {
        match self {
            ReservationConflictInfo::Parsed(c) => ConflictInfoView::Parsed { new: c.new@, old: c.old@ },
            ReservationConflictInfo::Unparsed(s) => ConflictInfoView::Unparsed(s@),
        }
    }
}

impl ReservationWindow {
    pub fn duplicate(&self) -> (r: ReservationWindow)
        ensures
            r@ == self@,
    {
        ReservationWindow { rid: self.rid.clone(), start: self.start, end: self.end }
    }
}

impl PartialEq for ReservationWindow {
    fn eq(&self, other: &ReservationWindow) -> (r: bool) {
        self.rid == other.rid && self.start == other.start && self.end == other.end
    }
}

impl vstd::std_specs::cmp::PartialEqSpecImpl for ReservationWindow {
    open spec fn obeys_eq_spec() -> bool {
        true
    }

    open spec fn eq_spec(&self, other: &ReservationWindow) -> bool {
        self@ == other@
    }
}

impl PartialEq for ReservationConflict {
    fn eq(&self, other: &ReservationConflict) -> (r: bool) {
        self.new == other.new && self.old == other.old
    }
}

impl vstd::std_specs::cmp::PartialEqSpecImpl for ReservationConflict {
    open spec fn obeys_eq_spec() -> bool {
        true
    }

    open spec fn eq_spec(&self, other: &ReservationConflict) -> bool {
        self.new@ == other.new@ && self.old@ == other.old@
    }
}

impl PartialEq for ReservationConflictInfo {
    fn eq(&self, other: &ReservationConflictInfo) -> (r: bool) {
        match (self, other) {
            (ReservationConflictInfo::Parsed(a), ReservationConflictInfo::Parsed(b)) => a.eq(b),
            (ReservationConflictInfo::Unparsed(a), ReservationConflictInfo::Unparsed(b)) => a.eq(b),
            _ => false,
        }
    }
}

impl vstd::std_specs::cmp::PartialEqSpecImpl for ReservationConflictInfo {
    open spec fn obeys_eq_spec() -> bool {
        true
    }

    open spec fn eq_spec(&self, other: &ReservationConflictInfo) -> bool {
        self@ == other@
    }
}

/// Character classes of the diagnostic grammar.
pub enum CharClass {
    /// Letters, digits, `-` and `_`: keys and plain values.
    Key,
    /// Unicode white space.
    Space,
    /// Anything but `]` and `)`: the bracketed value.
    Span,
}

pub open spec fn is_space(c: char) -> bool {
    ||| c == ' '
    ||| ('\t' <= c && c <= '\r')
    ||| c == '\u{85}'
    ||| c == '\u{a0}'
    ||| c == '\u{1680}'
    ||| ('\u{2000}' <= c && c <= '\u{200a}')
    ||| c == '\u{2028}'
    ||| c == '\u{2029}'
    ||| c == '\u{202f}'
    ||| c == '\u{205f}'
    ||| c == '\u{3000}'
}

pub open spec fn in_class(c: char, k: CharClass) -> bool {
    match k {
        CharClass::Key => ('a' <= c && c <= 'z') || ('A' <= c && c <= 'Z') || ('0' <= c && c
            <= '9') || c == '-' || c == '_',
        CharClass::Space => is_space(c),
        CharClass::Span => c != ']' && c != ')',
    }
}

/// End of the longest run of class `k` that starts at `i`.
pub open spec fn run_end(s: Seq<char>, i: int, k: CharClass) -> int
    decreases s.len() - i,
{
    if 0 <= i < s.len() && in_class(s[i], k) {
        run_end(s, i + 1, k)
    } else {
        i
    }
}

/// `s` holds `c` at `i`.
pub open spec fn has(s: Seq<char>, i: int, c: char) -> bool {
    0 <= i < s.len() && s[i] == c
}

/// One `(key1, key2)=(value1, [value2` group of a diagnostic, and where it ends.
pub struct DiagnosticGroup {
    pub key1: Seq<char>,
    pub key2: Seq<char>,
    pub value1: Seq<char>,
    pub value2: Seq<char>,
    pub end: int,
}

/// The group that starts at `i`, if one does. Keys and the first value are
/// non-empty runs of key characters, white space may follow each comma, and
/// the second value runs up to the next `]` or `)`.
pub open spec fn group_at(s: Seq<char>, i: int) -> Option<DiagnosticGroup> {
    let a = i + 1;
    let k1e = run_end(s, a, CharClass::Key);
    let b = run_end(s, k1e + 1, CharClass::Space);
    let k2e = run_end(s, b, CharClass::Key);
    let c = k2e + 3;
    let v1e = run_end(s, c, CharClass::Key);
    let d = run_end(s, v1e + 1, CharClass::Space);
    let e = d + 1;
    let v2e = run_end(s, e, CharClass::Span);
    if has(s, i, '(') && k1e > a && has(s, k1e, ',') && k2e > b && has(s, k2e, ')') && has(
        s,
        k2e + 1,
        '=',
    ) && has(s, k2e + 2, '(') && v1e > c && has(s, v1e, ',') && has(s, d, '[') && v2e > e {
        Some(
            DiagnosticGroup {
                key1: s.subrange(a, k1e),
                key2: s.subrange(b, k2e),
                value1: s.subrange(c, v1e),
                value2: s.subrange(e, v2e),
                end: v2e,
            },
        )
    } else {
        None
    }
}

/// The groups of `s` from `pos` on, leftmost first and not overlapping.
pub open spec fn groups_from(s: Seq<char>, pos: int) -> Seq<DiagnosticGroup>
    decreases s.len() - pos,
{
    if pos < 0 || pos >= s.len() {
        Seq::empty()
    } else {
        match group_at(s, pos) {
            Some(g) => if pos < g.end <= s.len() {
                seq![g] + groups_from(s, g.end)
            } else {
                Seq::empty()
            },
            None => groups_from(s, pos + 1),
        }
    }
}

/// The fields of a group: `key1 => value1`, then `key2 => value2`, the
/// second winning when the keys are equal.
pub open spec fn group_fields(g: DiagnosticGroup) -> Map<Seq<char>, Seq<char>> {
    Map::empty().insert(g.key1, g.value1).insert(g.key2, g.value2)
}

proof fn lemma_run_end_bounds(s: Seq<char>, i: int, k: CharClass)
    requires
        0 <= i,
    ensures
        i <= run_end(s, i, k),
        i <= s.len() ==> run_end(s, i, k) <= s.len(),
        forall|j: int| i <= j < run_end(s, i, k) ==> in_class(#[trigger] s[j], k),
    decreases s.len() - i,
{
    if 0 <= i < s.len() && in_class(s[i], k) {
        lemma_run_end_bounds(s, i + 1, k);
    }
}

fn class_holds(c: char, k: &CharClass) -> (r: bool)
    ensures
        r == in_class(c, *k),
{
    match k {
        CharClass::Key => ('a' <= c && c <= 'z') || ('A' <= c && c <= 'Z') || ('0' <= c && c
            <= '9') || c == '-' || c == '_',
        CharClass::Space => c == ' ' || ('\t' <= c && c <= '\r') || c == '\u{85}' || c
            == '\u{a0}' || c == '\u{1680}' || ('\u{2000}' <= c && c <= '\u{200a}') || c
            == '\u{2028}' || c == '\u{2029}' || c == '\u{202f}' || c == '\u{205f}' || c
            == '\u{3000}',
        CharClass::Span => c != ']' && c != ')',
    }
}

fn scan_run(v: &Vec<char>, i: usize, k: CharClass) -> (j: usize)
    requires
        i <= v@.len(),
    ensures
        j == run_end(v@, i as int, k),
        i <= j <= v@.len(),
{
    let mut j = i;
    while j < v.len() && class_holds(v[j], &k)
        invariant
            i <= j <= v@.len(),
            run_end(v@, i as int, k) == run_end(v@, j as int, k),
        decreases v@.len() - j,
    {
        j = j + 1;
    }
    j
}

fn holds_at(v: &Vec<char>, i: usize, c: char) -> (r: bool)
    ensures
        r == has(v@, i as int, c),
{
    i < v.len() && v[i] == c
}

/// Character positions of one group: key1, key2, value1 and value2 as
/// `(start, end)` pairs.
pub struct GroupSpans {
    pub key1: (usize, usize),
    pub key2: (usize, usize),
    pub value1: (usize, usize),
    pub value2: (usize, usize),
}

pub open spec fn spans_match(s: Seq<char>, sp: GroupSpans, g: DiagnosticGroup) -> bool {
    &&& sp.key1.0 <= sp.key1.1 <= s.len()
    &&& sp.key2.0 <= sp.key2.1 <= s.len()
    &&& sp.value1.0 <= sp.value1.1 <= s.len()
    &&& sp.value2.0 <= sp.value2.1 <= s.len()
    &&& g.key1 == s.subrange(sp.key1.0 as int, sp.key1.1 as int)
    &&& g.key2 == s.subrange(sp.key2.0 as int, sp.key2.1 as int)
    &&& g.value1 == s.subrange(sp.value1.0 as int, sp.value1.1 as int)
    &&& g.value2 == s.subrange(sp.value2.0 as int, sp.value2.1 as int)
    &&& g.end == sp.value2.1
}

fn match_group(v: &Vec<char>, i: usize) -> (r: Option<GroupSpans>)
    requires
        i < v@.len(),
    ensures
        r is Some <==> group_at(v@, i as int) is Some,
        r matches Some(sp) ==> spans_match(v@, sp, group_at(v@, i as int)->0),
        r matches Some(sp) ==> i < sp.value2.1 <= v@.len(),
{
    let n = v.len();
    if !holds_at(v, i, '(') {
        return None;
    }
    let a = i + 1;
    let k1e = scan_run(v, a, CharClass::Key);
    if !(k1e > a && holds_at(v, k1e, ',')) {
        return None;
    }
    let b = scan_run(v, k1e + 1, CharClass::Space);
    let k2e = scan_run(v, b, CharClass::Key);
    if !(k2e > b && holds_at(v, k2e, ')') && holds_at(v, k2e + 1, '=') && holds_at(
        v,
        k2e + 2,
        '(',
    )) {
        return None;
    }
    let c = k2e + 3;
    let v1e = scan_run(v, c, CharClass::Key);
    if !(v1e > c && holds_at(v, v1e, ',')) {
        return None;
    }
    let d = scan_run(v, v1e + 1, CharClass::Space);
    if !holds_at(v, d, '[') {
        return None;
    }
    let e = d + 1;
    let v2e = scan_run(v, e, CharClass::Span);
    if !(v2e > e) {
        return None;
    }
    Some(GroupSpans { key1: (a, k1e), key2: (b, k2e), value1: (c, v1e), value2: (e, v2e) })
}

/// All groups of the diagnostic held in `v`, as character positions.
fn diagnostic_groups(v: &Vec<char>) -> (r: Vec<GroupSpans>)
    ensures
        r@.len() == groups_from(v@, 0).len(),
        forall|k: int| 0 <= k < r@.len() ==> spans_match(v@, #[trigger] r@[k], groups_from(v@, 0)[k]),
{
    let n = v.len();
    let mut pos: usize = 0;
    let mut found: Vec<GroupSpans> = Vec::new();
    let ghost mut gs: Seq<DiagnosticGroup> = Seq::empty();
    while pos < n
        invariant
            n == v@.len(),
            pos <= n,
            groups_from(v@, 0) == gs + groups_from(v@, pos as int),
            found@.len() == gs.len(),
            forall|k: int| 0 <= k < found@.len() ==> spans_match(v@, #[trigger] found@[k], gs[k]),
        decreases n - pos,
    {
        match match_group(v, pos) {
            Some(sp) => {
                let ghost g = group_at(v@, pos as int)->0;
                assert(groups_from(v@, pos as int) == seq![g] + groups_from(v@, g.end));
                proof {
                    gs = gs.push(g);
                }
                assert(groups_from(v@, 0) =~= gs + groups_from(v@, g.end));
                pos = sp.value2.1;
                found.push(sp);
            },
            None => {
                pos = pos + 1;
            },
        }
    }
    assert(gs =~= groups_from(v@, 0));
    found
}

/// Named fields of one diagnostic group. A later binding of a key hides an earlier one.
#[derive(Debug)]
pub struct FieldMap {
    entries: Vec<(String, String)>,
}

pub open spec fn bindings_map(s: Seq<(Seq<char>, Seq<char>)>) -> Map<Seq<char>, Seq<char>>
    decreases s.len(),
{
    if s.len() == 0 {
        Map::empty()
    } else {
        bindings_map(s.drop_last()).insert(s.last().0, s.last().1)
    }
}

pub open spec fn binding_view(e: (String, String)) -> (Seq<char>, Seq<char>) {
    (e.0@, e.1@)
}

impl View for FieldMap {
    type V = Map<Seq<char>, Seq<char>>;

    closed spec fn view(&self) -> Map<Seq<char>, Seq<char>> {
        bindings_map(self.entries@.map_values(|e: (String, String)| binding_view(e)))
    }
}

proof fn lemma_binding_found(s: Seq<(Seq<char>, Seq<char>)>, i: int, key: Seq<char>)
    requires
        0 <= i < s.len(),
        s[i].0 == key,
        forall|j: int| i < j < s.len() ==> s[j].0 != key,
    ensures
        bindings_map(s).contains_key(key),
        bindings_map(s)[key] == s[i].1,
    decreases s.len(),
{
    if i < s.len() - 1 {
        let t = s.drop_last();
        assert forall|j: int| i < j < t.len() implies t[j].0 != key by {
            assert(t[j] == s[j]);
        }
        lemma_binding_found(t, i, key);
    }
}

proof fn lemma_binding_absent(s: Seq<(Seq<char>, Seq<char>)>, key: Seq<char>)
    requires
        forall|j: int| 0 <= j < s.len() ==> s[j].0 != key,
    ensures
        !bindings_map(s).contains_key(key),
    decreases s.len(),
{
    if s.len() > 0 {
        let t = s.drop_last();
        assert forall|j: int| 0 <= j < t.len() implies t[j].0 != key by {
            assert(t[j] == s[j]);
        }
        lemma_binding_absent(t, key);
    }
}

impl FieldMap {
    /// The fields of a group: `key1 => value1`, then `key2 => value2`.
    fn of_group(v: &Vec<char>, sp: &GroupSpans, g: Ghost<DiagnosticGroup>) -> (r: FieldMap)
        requires
            spans_match(v@, *sp, g@),
        ensures
            r@ == group_fields(g@),
    {
        let k1 = text_between(v, sp.key1.0, sp.key1.1);
        let v1 = text_between(v, sp.value1.0, sp.value1.1);
        let k2 = text_between(v, sp.key2.0, sp.key2.1);
        let v2 = text_between(v, sp.value2.0, sp.value2.1);
        let mut entries: Vec<(String, String)> = Vec::new();
        entries.push((k1, v1));
        entries.push((k2, v2));
        let r = FieldMap { entries };
        proof {
            let s = r.entries@.map_values(|e: (String, String)| binding_view(e));
            assert(s.len() == 2);
            assert(s[0] == (g@.key1, g@.value1));
            assert(s[1] == (g@.key2, g@.value2));
            assert(s.drop_last().drop_last() =~= Seq::<(Seq<char>, Seq<char>)>::empty());
            assert(bindings_map(s.drop_last().drop_last()) == Map::<Seq<char>, Seq<char>>::empty());
            assert(bindings_map(s.drop_last()) == Map::<Seq<char>, Seq<char>>::empty().insert(
                g@.key1,
                g@.value1,
            ));
            assert(r@ == bindings_map(s));
            assert(r@ =~= group_fields(g@));
        }
        r
    }

    /// The value bound to `key`.
    pub fn get(&self, key: &str) -> (r: Option<&String>)
        ensures
            match r {
                Some(v) => self@.contains_key(key@) && v@ == self@[key@],
                None => !self@.contains_key(key@),
            },
    {
        let ghost s = self.entries@.map_values(|e: (String, String)| binding_view(e));
        let mut i = self.entries.len();
        while i > 0
            invariant
                i <= self.entries@.len(),
                s == self.entries@.map_values(|e: (String, String)| binding_view(e)),
                forall|j: int| i <= j < s.len() ==> s[j].0 != key@,
            decreases i,
        {
            i = i - 1;
            if same_text(self.entries[i].0.as_str(), key) {
                proof {
                    lemma_binding_found(s, i as int, key@);
                }
                return Some(&self.entries[i].1);
            }
        }
        proof {
            lemma_binding_absent(s, key@);
        }
        None
    }

    /// No fields.
    pub fn new() -> (r: FieldMap)
        ensures
            r@ == Map::<Seq<char>, Seq<char>>::empty(),
    {
        let r = FieldMap { entries: Vec::new() };
        assert(r.entries@.map_values(|e: (String, String)| binding_view(e)) =~= Seq::<
            (Seq<char>, Seq<char>),
        >::empty());
        r
    }

    /// Binds `key` to `value`, replacing an earlier binding of `key`.
    pub fn insert(&mut self, key: String, value: String)
        ensures
            final(self)@ == old(self)@.insert(key@, value@),
    {
        let ghost before = self.entries@.map_values(|e: (String, String)| binding_view(e));
        self.entries.push((key, value));
        let ghost after = self.entries@.map_values(|e: (String, String)| binding_view(e));
        assert(after.drop_last() =~= before);
    }
}

/// The two groups of a conflict diagnostic: the window being inserted and
/// the window already stored.
#[derive(Debug)]
pub struct ParsedInfo {
    pub new: FieldMap,
    pub old: FieldMap,
}

impl ParsedInfo {
    /// Succeeds exactly when the diagnostic holds two groups.
    pub fn from_str(s: &str) -> (r: Result<ParsedInfo, ()>)
        ensures
            r is Ok <==> groups_from(s@, 0).len() == 2,
            r matches Ok(p) ==> p.new@ == group_fields(groups_from(s@, 0)[0]) && p.old@
                == group_fields(groups_from(s@, 0)[1]),
    {
        let v = chars_of(s);
        let groups = diagnostic_groups(&v);
        if groups.len() != 2 {
            return Err(());
        }
        let ghost gs = groups_from(v@, 0);
        let new = FieldMap::of_group(&v, &groups[0], Ghost(gs[0]));
        let old = FieldMap::of_group(&v, &groups[1], Ghost(gs[1]));
        Ok(ParsedInfo { new, old })
    }
}

/// `s` with every double quote removed.
pub open spec fn without_quotes(s: Seq<char>) -> Seq<char>
    decreases s.len(),
{
    if s.len() == 0 {
        Seq::empty()
    } else {
        without_quotes(s.drop_last()) + if s.last() == '"' {
            Seq::empty()
        } else {
            seq![s.last()]
        }
    }
}

pub open spec fn is_first_comma(s: Seq<char>, i: int) -> bool {
    &&& 0 <= i < s.len()
    &&& s[i] == ','
    &&& forall|j: int| 0 <= j < i ==> s[j] != ','
}

/// Position of the first comma of `s`, if any.
pub open spec fn first_comma(s: Seq<char>) -> Option<int> {
    if exists|i: int| is_first_comma(s, i) {
        Some(choose|i: int| is_first_comma(s, i))
    } else {
        None
    }
}

/// The window described by a group's fields: `resource_id`, and `timespan`
/// holding two quoted timestamps separated by the first comma.
pub open spec fn window_of(fields: Map<Seq<char>, Seq<char>>) -> Option<WindowView> {
    if fields.contains_key("timespan"@) && fields.contains_key("resource_id"@) {
        let t = without_quotes(fields["timespan"@]);
        match first_comma(t) {
            Some(c) => match (
                diagnostic_time(t.subrange(0, c)),
                diagnostic_time(t.subrange(c + 1, t.len() as int)),
            ) {
                (Some(start), Some(end)) => Some(
                    WindowView { rid: fields["resource_id"@], start, end },
                ),
                _ => None,
            },
            None => None,
        }
    } else {
        None
    }
}

/// The new and the old window of a diagnostic that holds exactly two groups
/// that both describe a window.
pub open spec fn conflict_of(s: Seq<char>) -> Option<(WindowView, WindowView)> {
    let gs = groups_from(s, 0);
    if gs.len() == 2 {
        match (window_of(group_fields(gs[0])), window_of(group_fields(gs[1]))) {
            (Some(new), Some(old)) => Some((new, old)),
            _ => None,
        }
    } else {
        None
    }
}

/// The conflict details of a diagnostic: decoded when possible, else the raw text.
pub open spec fn conflict_info_of(s: Seq<char>) -> ConflictInfoView {
    match conflict_of(s) {
        Some((new, old)) => ConflictInfoView::Parsed { new, old },
        None => ConflictInfoView::Unparsed(s),
    }
}

/// A diagnostic that does not hold exactly two groups is kept as raw text.
pub proof fn lemma_unparsed_unless_two_groups(s: Seq<char>)
    requires
        groups_from(s, 0).len() != 2,
    ensures
        conflict_info_of(s) == ConflictInfoView::Unparsed(s),
{
}

/// A diagnostic with exactly two groups that both describe a window decodes
/// into those windows: the first is the new one, the second the stored one,
/// and each carries the resource id of its group.
pub proof fn lemma_two_groups_decode(s: Seq<char>)
    requires
        groups_from(s, 0).len() == 2,
        window_of(group_fields(groups_from(s, 0)[0])) is Some,
        window_of(group_fields(groups_from(s, 0)[1])) is Some,
    ensures
        conflict_info_of(s) == (ConflictInfoView::Parsed {
            new: window_of(group_fields(groups_from(s, 0)[0]))->0,
            old: window_of(group_fields(groups_from(s, 0)[1]))->0,
        }),
        window_of(group_fields(groups_from(s, 0)[0]))->0.rid == group_fields(groups_from(s, 0)[0])["resource_id"@],
        window_of(group_fields(groups_from(s, 0)[1]))->0.rid == group_fields(groups_from(s, 0)[1])["resource_id"@],
{
}

fn strip_quotes(t: &str) -> (r: Vec<char>)
    ensures
        r@ == without_quotes(t@),
{
    let v = chars_of(t);
    let mut out: Vec<char> = Vec::new();
    let mut i: usize = 0;
    while i < v.len()
        invariant
            v@ == t@,
            i <= v@.len(),
            out@ == without_quotes(v@.subrange(0, i as int)),
        decreases v@.len() - i,
    {
        let c = v[i];
        if c != '"' {
            out.push(c);
        }
        let ghost p = v@.subrange(0, i as int + 1);
        assert(p.drop_last() =~= v@.subrange(0, i as int));
        i = i + 1;
        assert(out@ =~= without_quotes(p));
    }
    assert(v@.subrange(0, v@.len() as int) =~= v@);
    out
}

fn find_first_comma(v: &Vec<char>) -> (r: Option<usize>)
    ensures
        match r {
            Some(c) => first_comma(v@) == Some(c as int) && c < v@.len(),
            None => first_comma(v@) is None,
        },
{
    let mut i: usize = 0;
    while i < v.len()
        invariant
            i <= v@.len(),
            forall|j: int| 0 <= j < i ==> v@[j] != ',',
        decreases v@.len() - i,
    {
        if v[i] == ',' {
            assert(is_first_comma(v@, i as int));
            let ghost c = choose|c: int| is_first_comma(v@, c);
            assert(c == i as int) by {
                if c < i as int {
                    assert(v@[c] != ',');
                } else if c > i as int {
                    assert(v@[i as int] != ',');
                }
            }
            return Some(i);
        }
        i = i + 1;
    }
    assert(!exists|c: int| is_first_comma(v@, c));
    None
}

impl ReservationWindow {
    /// Decodes the window that a group's fields describe.
    pub fn try_from(value: FieldMap) -> (r: Result<ReservationWindow, ()>)
        ensures
            r is Ok <==> window_of(value@) is Some,
            r matches Ok(w) ==> w@ == window_of(value@)->0,
    {
        let timespan = match value.get("timespan") {
            Some(t) => strip_quotes(t.as_str()),
            None => return Err(()),
        };
        let comma = match find_first_comma(&timespan) {
            Some(c) => c,
            None => return Err(()),
        };
        let start = text_between(&timespan, 0, comma);
        let end = text_between(&timespan, comma + 1, timespan.len());
        let rid = match value.get("resource_id") {
            Some(r) => r.clone(),
            None => return Err(()),
        };
        let start = parse_str_into_datetime_utc(start.as_str())?;
        let end = parse_str_into_datetime_utc(end.as_str())?;
        Ok(ReservationWindow { rid, start, end })
    }
}

impl ReservationConflict {
    /// Decodes both windows of a conflict diagnostic.
    pub fn from_str(s: &str) -> (r: Result<ReservationConflict, ()>)
        ensures
            r is Ok <==> conflict_of(s@) is Some,
            r matches Ok(c) ==> (c.new@, c.old@) == conflict_of(s@)->0,
    {
        let parsed_info = ParsedInfo::from_str(s)?;
        let new = ReservationWindow::try_from(parsed_info.new)?;
        let old = ReservationWindow::try_from(parsed_info.old)?;
        Ok(ReservationConflict { new, old })
    }
}

impl ReservationConflictInfo {
    /// Decodes a diagnostic; one that does not have the expected shape is
    /// kept as raw text.
    pub fn from_str(s: &str) -> (r: ReservationConflictInfo)
        ensures
            r@ == conflict_info_of(s@),
    {
        match ReservationConflict::from_str(s) {
            Ok(conflict) => ReservationConflictInfo::Parsed(conflict),
            Err(_) => ReservationConflictInfo::Unparsed(s.to_owned()),
        }
    }
}

} // verus!
