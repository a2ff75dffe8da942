//! Base-class inference: a line-oriented scan of source units that records,
//! for each base class a declaration names, the classes declared after it.
//!
//! The scan is a heuristic, not a parser. Each unit starts with no base
//! pending. A base line (one that holds the base marker and an `=`) whose base
//! word can be isolated makes that base pending; while a base is pending, a
//! line whose entity word can be isolated records the entity under it and
//! ends the wait. Documentation comments and lines whose word cannot be
//! isolated are skipped. The grammar of both declarations is in `scan`.
use vstd::prelude::*;
use crate::text::chars_of;
use super::scan::{
    base_word, base_word_from, entity_word, entity_word_from, is_doc_line, is_doc_line_exec,
    occurs, occurs_exec,
};

verus! {

/// A base class and the classes recorded as declaring it, in order.
pub type ChildEntry = (Seq<char>, Seq<Seq<char>>);

/// Whether an entry of `m` is for base `b`.
pub open spec fn has_base(m: Seq<ChildEntry>, b: Seq<char>) -> bool {
    exists|i: int| 0 <= i < m.len() && m[i].0 == b
}

/// A position of `m` whose entry is for base `b`, where there is one.
pub open spec fn base_position(m: Seq<ChildEntry>, b: Seq<char>) -> int {
    choose|i: int| 0 <= i < m.len() && m[i].0 == b
}

/// The bases of `m`, in order.
pub open spec fn bases_of(m: Seq<ChildEntry>) -> Seq<Seq<char>> {
    m.map_values(|e: ChildEntry| e.0)
}

/// `m` with an entry for base `b`: a new one, with no class, where it has none.
pub open spec fn with_base(m: Seq<ChildEntry>, b: Seq<char>) -> Seq<ChildEntry> {
    if has_base(m, b) {
        m
    } else {
        m.push((b, Seq::empty()))
    }
}

/// `m` with class `e` recorded last under base `b`.
pub open spec fn with_child(m: Seq<ChildEntry>, b: Seq<char>, e: Seq<char>) -> Seq<ChildEntry> {
    if has_base(m, b) {
        let i = base_position(m, b);
        m.update(i, (b, m[i].1.push(e)))
    } else {
        m.push((b, seq![e]))
    }
}

/// The lines of `text`: a line ends at each newline, and the text after the
/// last newline is a line too.
pub open spec fn lines_of(text: Seq<char>) -> Seq<Seq<char>>
    decreases text.len(),
{
    if text.len() == 0 {
        seq![Seq::empty()]
    } else {
        let prev = lines_of(text.drop_last());
        if text.last() == '\n' {
            prev.push(Seq::empty())
        } else {
            prev.update(prev.len() - 1, prev.last().push(text.last()))
        }
    }
}

/// A line that holds the base marker and an `=`.
pub open spec fn is_base_line(line: Seq<char>, base_marker: Seq<char>) -> bool {
    occurs(line, base_marker) && occurs(line, seq!['='])
}

/// One step of the scan: the map and the state after `line`, from map `m` and
/// state `st` (`None` while no base is pending, `Some(b)` after base `b`).
pub open spec fn scan_step(
    m: Seq<ChildEntry>,
    st: Option<Seq<char>>,
    line: Seq<char>,
    base_marker: Seq<char>,
    entity_marker: Seq<char>,
) -> (Seq<ChildEntry>, Option<Seq<char>>) {
    if is_doc_line(line) {
        (m, st)
    } else if is_base_line(line, base_marker) {
        match base_word_from(line, base_marker, 0) {
            Some(b) => (with_base(m, b), Some(b)),
            None => (m, st),
        }
    } else {
        match st {
            Some(b) => match entity_word_from(line, entity_marker, 0) {
                Some(e) => (with_child(m, b, e), None),
                None => (m, st),
            },
            None => (m, st),
        }
    }
}

/// The map and the state after scanning `lines` in order.
pub open spec fn scan_lines(
    m: Seq<ChildEntry>,
    st: Option<Seq<char>>,
    lines: Seq<Seq<char>>,
    base_marker: Seq<char>,
    entity_marker: Seq<char>,
) -> (Seq<ChildEntry>, Option<Seq<char>>)
    decreases lines.len(),
{
    if lines.len() == 0 {
        (m, st)
    } else {
        let (m1, s1) = scan_lines(m, st, lines.drop_last(), base_marker, entity_marker);
        scan_step(m1, s1, lines.last(), base_marker, entity_marker)
    }
}

/// The map after scanning one source unit, which starts with no base pending.
pub open spec fn scan_unit(
    m: Seq<ChildEntry>,
    text: Seq<char>,
    base_marker: Seq<char>,
    entity_marker: Seq<char>,
) -> Seq<ChildEntry> {
    scan_lines(m, None, lines_of(text), base_marker, entity_marker).0
}

/// The map after scanning each source unit of `texts` in turn.
pub open spec fn infer_children(
    m: Seq<ChildEntry>,
    texts: Seq<Seq<char>>,
    base_marker: Seq<char>,
    entity_marker: Seq<char>,
) -> Seq<ChildEntry>
    decreases texts.len(),
{
    if texts.len() == 0 {
        m
    } else {
        scan_unit(
            infer_children(m, texts.drop_last(), base_marker, entity_marker),
            texts.last(),
            base_marker,
            entity_marker,
        )
    }
}

/// Mapping from a base class to the classes declared as inheriting from it,
/// each base held once, in the order first seen.
#[derive(Debug)]
pub struct BaseClassMap {
    entries: Vec<(String, Vec<String>)>,
}

impl View for BaseClassMap {
    type V = Seq<ChildEntry>;

    closed spec fn view(&self) -> Seq<ChildEntry> {
        self.entries@.map_values(
            |e: (String, Vec<String>)| (e.0@, e.1@.map_values(|s: String| s@)),
        )
    }
}

impl BaseClassMap {
    /// The bases of the map are distinct.
    pub open spec fn well_formed(&self) -> bool {
        bases_of(self@).no_duplicates()
    }

    /// Creates an empty map.
    pub fn new() -> (r: Self)
        ensures
            r@ == Seq::<ChildEntry>::empty(),
            r.well_formed(),
    {
        let r = BaseClassMap { entries: Vec::new() };
        assert(r@ =~= Seq::<ChildEntry>::empty());
        r
    }

    /// The number of bases.
    pub fn len(&self) -> (r: usize)
        ensures
            r == self@.len(),
    {
        self.entries.len()
    }

    fn position(&self, base: &String) -> (r: Option<usize>)
        ensures
            match r {
                Some(i) => i < self@.len() && self@[i as int].0 == base@,
                None => !has_base(self@, base@),
            },
    {
        let mut i: usize = 0;
        while i < self.entries.len()
            invariant
                i <= self.entries@.len(),
                self@.len() == self.entries@.len(),
                forall|j: int| 0 <= j < i ==> self@[j].0 != base@,
            decreases self.entries@.len() - i,
        {
            if self.entries[i].0 == *base {
                return Some(i);
            }
            i += 1;
        }
        None
    }

    /// Makes sure the map has an entry for `base`.
    pub fn add_base(&mut self, base: String)
        requires
            old(self).well_formed(),
        ensures
            final(self)@ == with_base(old(self)@, base@),
            final(self).well_formed(),
    {
        match self.position(&base) {
            Some(_) => {},
            None => {
                let ghost b = base@;
                let children: Vec<String> = Vec::new();
                assert(children@.map_values(|s: String| s@) =~= Seq::<Seq<char>>::empty());
                self.entries.push((base, children));
                assert(self@ =~= old(self)@.push((b, Seq::empty())));
                assert(bases_of(self@) =~= bases_of(old(self)@).push(b));
            },
        }
    }

    /// Records class `child` last under `base`.
    pub fn add_child(&mut self, base: String, child: String)
        requires
            old(self).well_formed(),
        ensures
            final(self)@ == with_child(old(self)@, base@, child@),
            final(self).well_formed(),
    {
        let ghost b = base@;
        let ghost e = child@;
        match self.position(&base) {
            Some(i) => {
                proof {
                    assert(has_base(old(self)@, b));
                    let j = base_position(old(self)@, b);
                    assert(bases_of(old(self)@)[j] == bases_of(old(self)@)[i as int]);
                }
                let (k, mut children) = self.entries.remove(i);
                let ghost before = children@.map_values(|s: String| s@);
                assert(before == old(self)@[i as int].1);
                children.push(child);
                assert(children@.map_values(|s: String| s@) =~= before.push(e));
                self.entries.insert(i, (k, children));
                assert(self@ =~= with_child(old(self)@, b, e));
                assert(bases_of(self@) =~= bases_of(old(self)@));
            },
            None => {
                let mut children = Vec::new();
                children.push(child);
                assert(children@.map_values(|s: String| s@) =~= seq![e]);
                self.entries.push((base, children));
                assert(self@ =~= with_child(old(self)@, b, e));
                assert(bases_of(self@) =~= bases_of(old(self)@).push(b));
            },
        }
    }

    /// The entries: each base with its classes, in order.
    pub fn entries(&self) -> (r: &Vec<(String, Vec<String>)>)
        ensures
            r@.map_values(|e: (String, Vec<String>)| (e.0@, e.1@.map_values(|s: String| s@)))
                == self@,
    {
        &self.entries
    }
}

/// State of the scan of one source unit.
#[derive(Debug)]
pub enum ScanState {
    /// No base declaration is pending.
    Idle,
    /// A base declaration naming the given base was seen, and no entity since.
    BaseSeen(String),
}

impl View for ScanState {
    type V = Option<Seq<char>>;

    open spec fn view(&self) -> Option<Seq<char>> {
        match self {
            ScanState::Idle => None,
            ScanState::BaseSeen(b) => Some(b@),
        }
    }
}

/// Scans one line: records what it declares in `map` and returns the state
/// after it.
pub fn scan_line(
    map: &mut BaseClassMap,
    state: ScanState,
    line: &Vec<char>,
    base_marker: &Vec<char>,
    entity_marker: &Vec<char>,
) -> (r: ScanState)
    requires
        old(map).well_formed(),
    ensures
        (final(map)@, r@) == scan_step(old(map)@, state@, line@, base_marker@, entity_marker@),
        final(map).well_formed(),
{
    if is_doc_line_exec(line) {
        return state;
    }
    let equal = vec!['='];
    assert(equal@ =~= seq!['=']);
    if occurs_exec(line, base_marker) && occurs_exec(line, &equal) {
        match base_word(line, base_marker) {
            Some(b) => {
                map.add_base(b.clone());
                ScanState::BaseSeen(b)
            },
            None => state,
        }
    } else {
        match state {
            ScanState::BaseSeen(b) => match entity_word(line, entity_marker) {
                Some(e) => {
                    map.add_child(b, e);
                    ScanState::Idle
                },
                None => ScanState::BaseSeen(b),
            },
            ScanState::Idle => ScanState::Idle,
        }
    }
}

/// Splits `text` into its lines, each as its characters.
pub fn split_lines(text: &str) -> (r: Vec<Vec<char>>)
    ensures
        r@.map_values(|l: Vec<char>| l@) == lines_of(text@),
{
    broadcast use vstd::string::group_string_axioms;

    let mut lines: Vec<Vec<char>> = Vec::new();
    let mut current: Vec<char> = Vec::new();
    for c in it: text.chars()
        invariant
            it.seq() == text@,
            lines@.map_values(|l: Vec<char>| l@).push(current@) == lines_of(
                text@.take(it.index() as int),
            ),
    {
        let ghost k = it.index() as int;
        let ghost before = lines@.map_values(|l: Vec<char>| l@).push(current@);
        proof {
            assert(text@.take(k + 1).drop_last() =~= text@.take(k));
        }
        if c == '\n' {
            let done = current;
            lines.push(done);
            current = Vec::new();
            assert(lines@.map_values(|l: Vec<char>| l@).push(current@) =~= before.push(
                Seq::empty(),
            ));
        } else {
            current.push(c);
            assert(lines@.map_values(|l: Vec<char>| l@).push(current@) =~= before.update(
                before.len() - 1,
                before.last().push(c),
            ));
        }
    }
    assert(text@.take(text@.len() as int) =~= text@);
    lines.push(current);
    assert(lines@.map_values(|l: Vec<char>| l@) =~= lines_of(text@));
    lines
}

/// Scans one source unit, which starts with no base pending, recording what it
/// declares in `map`.
pub fn scan_source(
    map: &mut BaseClassMap,
    text: &str,
    base_marker: &Vec<char>,
    entity_marker: &Vec<char>,
)
    requires
        old(map).well_formed(),
    ensures
        final(map)@ == scan_unit(old(map)@, text@, base_marker@, entity_marker@),
        final(map).well_formed(),
{
    let lines = split_lines(text);
    let ghost views = lines@.map_values(|l: Vec<char>| l@);
    let mut state = ScanState::Idle;
    let mut i: usize = 0;
    while i < lines.len()
        invariant
            i <= lines@.len(),
            views == lines@.map_values(|l: Vec<char>| l@),
            views == lines_of(text@),
            map.well_formed(),
            (map@, state@) == scan_lines(
                old(map)@,
                None,
                views.take(i as int),
                base_marker@,
                entity_marker@,
            ),
        decreases lines@.len() - i,
    {
        state = scan_line(map, state, &lines[i], base_marker, entity_marker);
        assert(views.take(i + 1).drop_last() =~= views.take(i as int));
        i += 1;
    }
    assert(views.take(i as int) =~= views);
}

/// Scans each source unit of `sources` in turn, recording in
/// `base_class_to_nodes`, for each base class that a declaration with
/// `base_marker` names, the classes that a following declaration with
/// `entity_marker` names.
pub fn find_children(
    base_class_to_nodes: &mut BaseClassMap,
    sources: &Vec<String>,
    base_marker: &str,
    entity_marker: &str,
)
    requires
        old(base_class_to_nodes).well_formed(),
    ensures
        final(base_class_to_nodes)@ == infer_children(
            old(base_class_to_nodes)@,
            sources@.map_values(|s: String| s@),
            base_marker@,
            entity_marker@,
        ),
        final(base_class_to_nodes).well_formed(),
{
    let bm = chars_of(base_marker);
    let em = chars_of(entity_marker);
    let ghost texts = sources@.map_values(|s: String| s@);
    let mut i: usize = 0;
    while i < sources.len()
        invariant
            i <= sources@.len(),
            texts == sources@.map_values(|s: String| s@),
            bm@ == base_marker@,
            em@ == entity_marker@,
            base_class_to_nodes.well_formed(),
            base_class_to_nodes@ == infer_children(
                old(base_class_to_nodes)@,
                texts.take(i as int),
                base_marker@,
                entity_marker@,
            ),
        decreases sources@.len() - i,
    {
        scan_source(base_class_to_nodes, sources[i].as_str(), &bm, &em);
        assert(texts.take(i + 1).drop_last() =~= texts.take(i as int));
        i += 1;
    }
    assert(texts.take(i as int) =~= texts);
}

/// A line that sets a pending base: not a documentation comment, a base line,
/// and one whose base word can be isolated.
pub open spec fn captures_base(line: Seq<char>, base_marker: Seq<char>) -> bool {
    !is_doc_line(line) && is_base_line(line, base_marker) && base_word_from(
        line,
        base_marker,
        0,
    ) is Some
}

/// A line that changes neither the map nor a pending base.
pub open spec fn is_inert_line(
    line: Seq<char>,
    base_marker: Seq<char>,
    entity_marker: Seq<char>,
) -> bool {
    is_doc_line(line) || if is_base_line(line, base_marker) {
        base_word_from(line, base_marker, 0) is None
    } else {
        entity_word_from(line, entity_marker, 0) is None
    }
}

/// Scanning two runs of lines one after the other is scanning the second
/// from where the first left off.
pub proof fn lemma_scan_lines_concat(
    m: Seq<ChildEntry>,
    st: Option<Seq<char>>,
    x: Seq<Seq<char>>,
    y: Seq<Seq<char>>,
    base_marker: Seq<char>,
    entity_marker: Seq<char>,
)
    ensures
        scan_lines(m, st, x + y, base_marker, entity_marker) == scan_lines(
            scan_lines(m, st, x, base_marker, entity_marker).0,
            scan_lines(m, st, x, base_marker, entity_marker).1,
            y,
            base_marker,
            entity_marker,
        ),
    decreases y.len(),
{
    if y.len() == 0 {
        assert(x + y =~= x);
    } else {
        lemma_scan_lines_concat(m, st, x, y.drop_last(), base_marker, entity_marker);
        assert((x + y).drop_last() =~= x + y.drop_last());
    }
}

/// Scanning a single line is one step.
proof fn lemma_scan_one(
    m: Seq<ChildEntry>,
    st: Option<Seq<char>>,
    line: Seq<char>,
    base_marker: Seq<char>,
    entity_marker: Seq<char>,
)
    ensures
        scan_lines(m, st, seq![line], base_marker, entity_marker) == scan_step(
            m,
            st,
            line,
            base_marker,
            entity_marker,
        ),
{
    assert(seq![line].drop_last() =~= Seq::<Seq<char>>::empty());
    assert(scan_lines(m, st, Seq::<Seq<char>>::empty(), base_marker, entity_marker) == (m, st));
}

/// With no base pending, lines that set none leave the map and the state as
/// they are.
proof fn lemma_scan_without_base(
    m: Seq<ChildEntry>,
    lines: Seq<Seq<char>>,
    base_marker: Seq<char>,
    entity_marker: Seq<char>,
)
    requires
        forall|i: int| 0 <= i < lines.len() ==> !captures_base(#[trigger] lines[i], base_marker),
    ensures
        scan_lines(m, None, lines, base_marker, entity_marker) == (m, None::<Seq<char>>),
    decreases lines.len(),
{
    if lines.len() > 0 {
        assert(!captures_base(lines[lines.len() - 1], base_marker));
        lemma_scan_without_base(m, lines.drop_last(), base_marker, entity_marker);
    }
}

/// While a base is pending, inert lines leave the map and the state as they
/// are.
proof fn lemma_scan_inert(
    m: Seq<ChildEntry>,
    b: Seq<char>,
    lines: Seq<Seq<char>>,
    base_marker: Seq<char>,
    entity_marker: Seq<char>,
)
    requires
        forall|i: int|
            0 <= i < lines.len() ==> is_inert_line(#[trigger] lines[i], base_marker, entity_marker),
    ensures
        scan_lines(m, Some(b), lines, base_marker, entity_marker) == (m, Some(b)),
    decreases lines.len(),
{
    if lines.len() > 0 {
        assert(is_inert_line(lines[lines.len() - 1], base_marker, entity_marker));
        lemma_scan_inert(m, b, lines.drop_last(), base_marker, entity_marker);
    }
}

/// A source unit in which no line sets a base leaves the map as it is,
/// whatever the units before it left pending: each unit is scanned afresh.
pub proof fn lemma_unit_without_base(
    m: Seq<ChildEntry>,
    texts: Seq<Seq<char>>,
    text: Seq<char>,
    base_marker: Seq<char>,
    entity_marker: Seq<char>,
)
    requires
        forall|i: int|
            0 <= i < lines_of(text).len() ==> !captures_base(
                #[trigger] lines_of(text)[i],
                base_marker,
            ),
    ensures
        infer_children(m, texts.push(text), base_marker, entity_marker) == infer_children(
            m,
            texts,
            base_marker,
            entity_marker,
        ),
{
    assert(texts.push(text).drop_last() =~= texts);
    lemma_scan_without_base(
        infer_children(m, texts, base_marker, entity_marker),
        lines_of(text),
        base_marker,
        entity_marker,
    );
}

/// A base declaration followed, after any number of inert lines, by an entity
/// declaration records the entity under that base and leaves no base pending;
/// the base's entry is created first where it is new.
pub proof fn lemma_base_then_entity(
    m: Seq<ChildEntry>,
    st: Option<Seq<char>>,
    before: Seq<Seq<char>>,
    base_line: Seq<char>,
    gap: Seq<Seq<char>>,
    entity_line: Seq<char>,
    base_marker: Seq<char>,
    entity_marker: Seq<char>,
)
    requires
        captures_base(base_line, base_marker),
        forall|i: int|
            0 <= i < gap.len() ==> is_inert_line(#[trigger] gap[i], base_marker, entity_marker),
        !is_doc_line(entity_line),
        !is_base_line(entity_line, base_marker),
        entity_word_from(entity_line, entity_marker, 0) is Some,
    ensures
        ({
            let m1 = scan_lines(m, st, before, base_marker, entity_marker).0;
            let b = base_word_from(base_line, base_marker, 0)->0;
            let e = entity_word_from(entity_line, entity_marker, 0)->0;
            scan_lines(
                m,
                st,
                before + seq![base_line] + gap + seq![entity_line],
                base_marker,
                entity_marker,
            ) == (with_child(with_base(m1, b), b, e), None::<Seq<char>>)
        }),
{
    let (m1, s1) = scan_lines(m, st, before, base_marker, entity_marker);
    let b = base_word_from(base_line, base_marker, 0)->0;
    lemma_scan_lines_concat(m, st, before, seq![base_line], base_marker, entity_marker);
    assert(seq![base_line].drop_last() =~= Seq::<Seq<char>>::empty());
    lemma_scan_one(m1, s1, base_line, base_marker, entity_marker);
    assert(scan_lines(m, st, before + seq![base_line], base_marker, entity_marker) == (
        with_base(m1, b),
        Some(b),
    ));
    lemma_scan_lines_concat(
        m,
        st,
        before + seq![base_line],
        gap,
        base_marker,
        entity_marker,
    );
    lemma_scan_inert(with_base(m1, b), b, gap, base_marker, entity_marker);
    lemma_scan_lines_concat(
        m,
        st,
        before + seq![base_line] + gap,
        seq![entity_line],
        base_marker,
        entity_marker,
    );
    assert(seq![entity_line].drop_last() =~= Seq::<Seq<char>>::empty());
    lemma_scan_one(with_base(m1, b), Some(b), entity_line, base_marker, entity_marker);
}

/// A base declaration followed only by inert lines leaves the base's entry in
/// the map, created with no class where it is new, and the base pending.
pub proof fn lemma_base_without_entity(
    m: Seq<ChildEntry>,
    st: Option<Seq<char>>,
    before: Seq<Seq<char>>,
    base_line: Seq<char>,
    rest: Seq<Seq<char>>,
    base_marker: Seq<char>,
    entity_marker: Seq<char>,
)
    requires
        captures_base(base_line, base_marker),
        forall|i: int|
            0 <= i < rest.len() ==> is_inert_line(#[trigger] rest[i], base_marker, entity_marker),
    ensures
        ({
            let m1 = scan_lines(m, st, before, base_marker, entity_marker).0;
            let b = base_word_from(base_line, base_marker, 0)->0;
            scan_lines(m, st, before + seq![base_line] + rest, base_marker, entity_marker) == (
                with_base(m1, b),
                Some(b),
            )
        }),
{
    let (m1, s1) = scan_lines(m, st, before, base_marker, entity_marker);
    let b = base_word_from(base_line, base_marker, 0)->0;
    lemma_scan_lines_concat(m, st, before, seq![base_line], base_marker, entity_marker);
    assert(seq![base_line].drop_last() =~= Seq::<Seq<char>>::empty());
    lemma_scan_one(m1, s1, base_line, base_marker, entity_marker);
    assert(scan_lines(m, st, before + seq![base_line], base_marker, entity_marker) == (
        with_base(m1, b),
        Some(b),
    ));
    lemma_scan_lines_concat(
        m,
        st,
        before + seq![base_line],
        rest,
        base_marker,
        entity_marker,
    );
    lemma_scan_inert(with_base(m1, b), b, rest, base_marker, entity_marker);
}

} // verus!
