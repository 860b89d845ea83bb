//! A line-oriented reader for sectioned key/value text: `[section]` lines
//! open a section, `key = value` lines assign a field in it, blank lines and
//! lines that begin with `#` or `;` are passed over.

use crate::text::{chars_of, find_char, index_of, string_of, trim, trim_range};
use vstd::prelude::*;
use vstd::string::*;

verus! {

/// One section with the fields assigned in it, in the order in which each key
/// first appeared.
pub struct IniSection {
    pub name: String,
    pub entries: Vec<(String, String)>,
}

/// The sections of one source, in the order in which each first received a
/// field.
pub struct IniDocument {
    pub sections: Vec<IniSection>,
}

pub struct SectionView {
    pub name: Seq<char>,
    pub entries: Seq<(Seq<char>, Seq<char>)>,
}

impl View for IniSection {
    type V = SectionView;

    open spec fn view(&self) -> SectionView {
        SectionView {
            name: self.name@,
            entries: self.entries@.map_values(|e: (String, String)| (e.0@, e.1@)),
        }
    }
}

impl View for IniDocument {
    type V = Seq<SectionView>;

    open spec fn view(&self) -> Seq<SectionView> {
        self.sections@.map_values(|s: IniSection| s@)
    }
}

/// Where the reader stands between two lines: the open section and the
/// sections filled so far.
pub struct ParseState {
    pub current: Seq<char>,
    pub doc: Seq<SectionView>,
}

/// Index of the first entry with key `key`, or the number of entries.
pub open spec fn entry_position(entries: Seq<(Seq<char>, Seq<char>)>, key: Seq<char>) -> nat
    decreases entries.len(),
{
    if entries.len() == 0 || entries[0].0 == key {
        0
    } else {
        1 + entry_position(entries.drop_first(), key)
    }
}

/// Index of the first section named `name`, or the number of sections.
pub open spec fn section_position(doc: Seq<SectionView>, name: Seq<char>) -> nat
    decreases doc.len(),
{
    if doc.len() == 0 || doc[0].name == name {
        0
    } else {
        1 + section_position(doc.drop_first(), name)
    }
}

/// The value assigned to `key`, if any.
pub open spec fn lookup(entries: Seq<(Seq<char>, Seq<char>)>, key: Seq<char>) -> Option<
    Seq<char>,
> {
    let i = entry_position(entries, key);
    if i < entries.len() {
        Some(entries[i as int].1)
    } else {
        None
    }
}

/// `entries` after `key = val`: an earlier value of the key is replaced in
/// place, a new key goes to the end.
pub open spec fn put_entry(
    entries: Seq<(Seq<char>, Seq<char>)>,
    key: Seq<char>,
    val: Seq<char>,
) -> Seq<(Seq<char>, Seq<char>)> {
    let i = entry_position(entries, key);
    if i < entries.len() {
        entries.update(i as int, (key, val))
    } else {
        entries.push((key, val))
    }
}

/// `doc` after `key = val` in the section `section`.
pub open spec fn assign(
    doc: Seq<SectionView>,
    section: Seq<char>,
    key: Seq<char>,
    val: Seq<char>,
) -> Seq<SectionView> {
    let i = section_position(doc, section);
    if i < doc.len() {
        doc.update(
            i as int,
            SectionView { name: doc[i as int].name, entries: put_entry(doc[i as int].entries, key, val) },
        )
    } else {
        doc.push(SectionView { name: section, entries: seq![(key, val)] })
    }
}

/// The effect of one line.
pub open spec fn apply_line(st: ParseState, raw: Seq<char>) -> ParseState {
    let line = trim(raw);
    if line.len() == 0 || line[0] == '#' || line[0] == ';' {
        st
    } else if line[0] == '[' && line.last() == ']' {
        ParseState { current: trim(line.subrange(1, line.len() - 1)), doc: st.doc }
    } else {
        let idx = index_of(line, '=');
        if idx < line.len() {
            ParseState {
                current: st.current,
                doc: assign(st.doc, st.current, trim(line.take(idx as int)), trim(line.skip(idx as int + 1))),
            }
        } else {
            st
        }
    }
}

/// The effect of every line of `text`, first to last, starting from `st`.
pub open spec fn parse_from(text: Seq<char>, st: ParseState) -> ParseState
    decreases text.len(),
{
    let n = index_of(text, '\n');
    let next = apply_line(st, text.take(n as int));
    if n >= text.len() {
        next
    } else {
        parse_from(text.skip(n as int + 1), next)
    }
}

/// The sections that `text` defines. Fields that precede the first section
/// line belong to the section `default`.
pub open spec fn parsed(text: Seq<char>) -> Seq<SectionView> {
    parse_from(text, ParseState { current: "default"@, doc: Seq::empty() }).doc
}

/// No key occurs twice.
pub open spec fn distinct_keys(entries: Seq<(Seq<char>, Seq<char>)>) -> bool {
    forall|i: int, j: int|
        0 <= i < j < entries.len() ==> (#[trigger] entries[i]).0 != (#[trigger] entries[j]).0
}

/// No section occurs twice, and no key twice in a section.
pub open spec fn well_formed(doc: Seq<SectionView>) -> bool {
    &&& forall|i: int, j: int|
        0 <= i < j < doc.len() ==> (#[trigger] doc[i]).name != (#[trigger] doc[j]).name
    &&& forall|i: int| 0 <= i < doc.len() ==> distinct_keys((#[trigger] doc[i]).entries)
}

/// The position of a key lies within the entries or at their end; no entry
/// before it has the key, and the entry at it has.
pub proof fn lemma_entry_position_bounds(entries: Seq<(Seq<char>, Seq<char>)>, key: Seq<char>)
    ensures
        entry_position(entries, key) <= entries.len(),
        forall|j: int| 0 <= j < entry_position(entries, key) ==> (#[trigger] entries[j]).0 != key,
        entry_position(entries, key) < entries.len() ==> entries[entry_position(
            entries,
            key,
        ) as int].0 == key,
    decreases entries.len(),
{
    if entries.len() == 0 || entries[0].0 == key {
    } else {
        let t = entries.drop_first();
        lemma_entry_position_bounds(t, key);
        assert forall|j: int| 0 <= j < entry_position(entries, key) implies (
        #[trigger] entries[j]).0 != key by {
            if j > 0 {
                assert(entries[j] == t[j - 1]);
            }
        }
    }
}

/// The position of a section lies within the document or at its end; no
/// section before it has the name, and the section at it has.
pub proof fn lemma_section_position_bounds(doc: Seq<SectionView>, name: Seq<char>)
    ensures
        section_position(doc, name) <= doc.len(),
        forall|j: int| 0 <= j < section_position(doc, name) ==> (#[trigger] doc[j]).name != name,
        section_position(doc, name) < doc.len() ==> doc[section_position(doc, name) as int].name
            == name,
    decreases doc.len(),
{
    if doc.len() == 0 || doc[0].name == name {
    } else {
        let t = doc.drop_first();
        lemma_section_position_bounds(t, name);
        assert forall|j: int| 0 <= j < section_position(doc, name) implies (#[trigger] doc[j]).name
            != name by {
            if j > 0 {
                assert(doc[j] == t[j - 1]);
            }
        }
    }
}

/// An assignment leaves the keys of a section distinct.
pub proof fn lemma_put_entry_distinct(
    entries: Seq<(Seq<char>, Seq<char>)>,
    key: Seq<char>,
    val: Seq<char>,
)
    requires
        distinct_keys(entries),
    ensures
        distinct_keys(put_entry(entries, key, val)),
{
    lemma_entry_position_bounds(entries, key);
    let next = put_entry(entries, key, val);
    assert forall|a: int, b: int| 0 <= a < b < next.len() implies (#[trigger] next[a]).0 != (
    #[trigger] next[b]).0 by {
        if entry_position(entries, key) < entries.len() {
            assert(next[a].0 == entries[a].0);
            assert(next[b].0 == entries[b].0);
        } else {
            assert(next[a] == entries[a]);
            if b < entries.len() {
                assert(next[b] == entries[b]);
            }
        }
    }
}

/// An assignment leaves a document well-formed.
pub proof fn lemma_assign_well_formed(
    doc: Seq<SectionView>,
    section: Seq<char>,
    key: Seq<char>,
    val: Seq<char>,
)
    requires
        well_formed(doc),
    ensures
        well_formed(assign(doc, section, key, val)),
{
    lemma_section_position_bounds(doc, section);
    let next = assign(doc, section, key, val);
    let i = section_position(doc, section) as int;
    if i < doc.len() {
        lemma_put_entry_distinct(doc[i].entries, key, val);
    }
    assert forall|a: int, b: int| 0 <= a < b < next.len() implies (#[trigger] next[a]).name != (
    #[trigger] next[b]).name by {
        if i < doc.len() {
            assert(next[a].name == doc[a].name);
            assert(next[b].name == doc[b].name);
        } else {
            assert(next[a] == doc[a]);
            if b < doc.len() {
                assert(next[b] == doc[b]);
            }
        }
    }
    assert forall|a: int| 0 <= a < next.len() implies distinct_keys((#[trigger] next[a]).entries) by {
        if a < doc.len() && a != i {
            assert(next[a] == doc[a]);
        }
    }
}

/// Reading on from a well-formed document gives a well-formed document.
pub proof fn lemma_parse_from_well_formed(text: Seq<char>, st: ParseState)
    requires
        well_formed(st.doc),
    ensures
        well_formed(parse_from(text, st).doc),
    decreases text.len(),
{
    let n = index_of(text, '\n');
    let raw = text.take(n as int);
    let line = trim(raw);
    let idx = index_of(line, '=');
    lemma_assign_well_formed(
        st.doc,
        st.current,
        trim(line.take(idx as int)),
        trim(line.skip(idx as int + 1)),
    );
    if n < text.len() {
        lemma_parse_from_well_formed(text.skip(n as int + 1), apply_line(st, raw));
    }
}

/// What a text defines has no section twice, and no key twice in a
/// section.
pub proof fn lemma_parsed_well_formed(text: Seq<char>)
    ensures
        well_formed(parsed(text)),
{
    lemma_parse_from_well_formed(
        text,
        ParseState { current: "default"@, doc: Seq::empty() },
    );
}

pub proof fn lemma_entry_position(entries: Seq<(Seq<char>, Seq<char>)>, key: Seq<char>, k: int)
    requires
        0 <= k <= entries.len(),
        forall|j: int| 0 <= j < k ==> (#[trigger] entries[j]).0 != key,
        k == entries.len() || entries[k].0 == key,
    ensures
        entry_position(entries, key) == k,
    decreases k,
{
    if k > 0 {
        let t = entries.drop_first();
        assert forall|j: int| 0 <= j < k - 1 implies (#[trigger] t[j]).0 != key by {
            assert(t[j] == entries[j + 1]);
        }
        lemma_entry_position(t, key, k - 1);
    }
}

pub proof fn lemma_section_position(doc: Seq<SectionView>, name: Seq<char>, k: int)
    requires
        0 <= k <= doc.len(),
        forall|j: int| 0 <= j < k ==> (#[trigger] doc[j]).name != name,
        k == doc.len() || doc[k].name == name,
    ensures
        section_position(doc, name) == k,
    decreases k,
{
    if k > 0 {
        let t = doc.drop_first();
        assert forall|j: int| 0 <= j < k - 1 implies (#[trigger] t[j]).name != name by {
            assert(t[j] == doc[j + 1]);
        }
        lemma_section_position(t, name, k - 1);
    }
}

impl IniSection {
    /// Index of the first entry with key `key`, or the number of entries.
    pub fn position(&self, key: &str) -> (i: usize)
        ensures
            i == entry_position(self@.entries, key@),
            i <= self.entries.len(),
    {
        let mut i: usize = 0;
        while i < self.entries.len()
            invariant
                i <= self.entries.len(),
                forall|j: int| 0 <= j < i ==> (#[trigger] self@.entries[j]).0 != key@,
            decreases self.entries.len() - i,
        {
            if crate::text::str_eq(self.entries[i].0.as_str(), key) {
                proof {
                    lemma_entry_position(self@.entries, key@, i as int);
                }
                return i;
            }
            i += 1;
        }
        proof {
            lemma_entry_position(self@.entries, key@, i as int);
        }
        i
    }

    /// The value assigned to `key`, if any.
    pub fn get(&self, key: &str) -> (r: Option<&String>)
        ensures
            match r {
                Some(v) => lookup(self@.entries, key@) == Some(v@),
                None => lookup(self@.entries, key@) is None,
            },
    {
        let i = self.position(key);
        if i < self.entries.len() {
            Some(&self.entries[i].1)
        } else {
            None
        }
    }

    /// Assigns `val` to `key`.
    pub fn put(&mut self, key: String, val: String)
        ensures
            final(self)@.name == old(self)@.name,
            final(self)@.entries == put_entry(old(self)@.entries, key@, val@),
    {
        let i = self.position(key.as_str());
        if i < self.entries.len() {
            self.entries[i] = (key, val);
            assert(self@.entries =~= put_entry(old(self)@.entries, key@, val@));
        } else {
            self.entries.push((key, val));
            assert(self@.entries =~= put_entry(old(self)@.entries, key@, val@));
        }
    }
}

impl IniDocument {
    /// No section occurs twice, and no key twice in a section.
    pub open spec fn wf(&self) -> bool {
        well_formed(self@)
    }

    /// Index of the first section named `name`, or the number of sections.
    pub fn position(&self, name: &str) -> (i: usize)
        ensures
            i == section_position(self@, name@),
            i <= self.sections.len(),
    {
        let mut i: usize = 0;
        while i < self.sections.len()
            invariant
                i <= self.sections.len(),
                forall|j: int| 0 <= j < i ==> (#[trigger] self@[j]).name != name@,
            decreases self.sections.len() - i,
        {
            if crate::text::str_eq(self.sections[i].name.as_str(), name) {
                proof {
                    lemma_section_position(self@, name@, i as int);
                }
                return i;
            }
            i += 1;
        }
        proof {
            lemma_section_position(self@, name@, i as int);
        }
        i
    }

    /// Assigns `val` to `key` in the section `section`, which is opened at the
    /// end if it does not exist yet.
    pub fn assign(&mut self, section: &str, key: String, val: String)
        ensures
            final(self)@ == assign(old(self)@, section@, key@, val@),
    {
        let i = self.position(section);
        if i < self.sections.len() {
            self.sections[i].put(key, val);
            assert(self@ =~= assign(old(self)@, section@, key@, val@));
        } else {
            let mut entries: Vec<(String, String)> = Vec::new();
            entries.push((key, val));
            let sec = IniSection { name: String::from_str(section), entries };
            assert(sec@.entries =~= seq![(key@, val@)]);
            self.sections.push(sec);
            assert(self@ =~= assign(old(self)@, section@, key@, val@));
        }
    }
}

/// Reads the line `chars[from..to]` into the document.
fn read_line(chars: &Vec<char>, from: usize, to: usize, current: &mut String, doc: &mut IniDocument)
    requires
        from <= to <= chars.len(),
    ensures
        (ParseState { current: final(current)@, doc: final(doc)@ }) == apply_line(
            ParseState { current: old(current)@, doc: old(doc)@ },
            chars@.subrange(from as int, to as int),
        ),
{
    let (a, b) = trim_range(chars, from, to);
    let ghost line = chars@.subrange(a as int, b as int);
    if a == b {
        return ;
    }
    assert(line[0] == chars@[a as int]);
    assert(line.last() == chars@[b - 1]);
    if chars[a] == '#' || chars[a] == ';' {
        return ;
    }
    if chars[a] == '[' && chars[b - 1] == ']' {
        let (c, d) = trim_range(chars, a + 1, b - 1);
        assert(line.subrange(1, line.len() - 1) =~= chars@.subrange(a + 1, b - 1));
        *current = string_of(chars, c, d);
        return ;
    }
    let idx = find_char(chars, a, b, '=');
    if idx < b {
        let (k0, k1) = trim_range(chars, a, idx);
        let (v0, v1) = trim_range(chars, idx + 1, b);
        assert(line.take(idx - a) =~= chars@.subrange(a as int, idx as int));
        assert(line.skip(idx - a + 1) =~= chars@.subrange(idx + 1, b as int));
        let key = string_of(chars, k0, k1);
        let val = string_of(chars, v0, v1);
        doc.assign(current.as_str(), key, val);
    }
}

/// Reads sectioned key/value text.
pub fn parse_ini(content: &str) -> (doc: IniDocument)
    ensures
        doc@ == parsed(content@),
        doc.wf(),
{
    proof {
        lemma_parsed_well_formed(content@);
    }
    let chars = chars_of(content);
    let len = chars.len();
    let mut doc = IniDocument { sections: Vec::new() };
    let mut current = String::from_str("default");
    let mut pos: usize = 0;
    let mut done = false;
    assert(doc@ =~= Seq::<SectionView>::empty());
    assert(chars@.subrange(0, len as int) =~= content@);
    while !done
        invariant
            pos <= len,
            len == chars.len(),
            !done ==> parsed(content@) == parse_from(
                chars@.subrange(pos as int, len as int),
                ParseState { current: current@, doc: doc@ },
            ).doc,
            done ==> parsed(content@) == doc@,
        decreases (len - pos) + (if done { 0int } else { 1int }),
    {
        let ghost rest = chars@.subrange(pos as int, len as int);
        let n = find_char(&chars, pos, len, '\n');
        assert(rest.take(n - pos) =~= chars@.subrange(pos as int, n as int));
        read_line(&chars, pos, n, &mut current, &mut doc);
        if n >= len {
            done = true;
        } else {
            assert(rest.skip(n - pos + 1) =~= chars@.subrange(n + 1, len as int));
            pos = n + 1;
        }
    }
    doc
}

} // verus!
