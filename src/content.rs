use vstd::prelude::*;
use vstd::string::*;
use crate::text::{bytes_eq, str_eq, utf8_decode, utf8_encode};
use vstd::utf8::{decode_utf8, encode_utf8, valid_utf8};

verus! {

/// MIME type under which Wayland clients advertise UTF-8 text.
pub const TEXT_PLAIN_UTF8_MIME: &'static str = "text/plain;charset=utf-8";

/// MIME type for plain text without a declared charset.
pub const TEXT_PLAIN_MIME: &'static str = "text/plain";

/// The X11 target name for UTF-8 text, also accepted as a MIME name.
pub const UTF8_STRING_MIME: &'static str = "UTF8_STRING";

/// The X11 target name for text in the locale's encoding.
pub const TEXT_MIME: &'static str = "TEXT";

/// The X11 target name for Latin-1 text.
pub const STRING_MIME: &'static str = "STRING";

/// The prefix that marks a MIME type as textual.
pub const TEXT_MIME_PREFIX: &'static str = "text/";

/// Whether a MIME type names text: it begins with `text/`, or is one of the
/// X11 text target names.
pub open spec fn is_text_mime_spec(m: Seq<char>) -> bool {
    ||| (m.len() >= 5 && m.subrange(0, 5) == TEXT_MIME_PREFIX@)
    ||| m == UTF8_STRING_MIME@
    ||| m == STRING_MIME@
    ||| m == TEXT_MIME@
}

/// Decides whether a MIME type names text.
pub fn is_text_mime(mime: &str) -> (r: bool)
    ensures
        r == is_text_mime_spec(mime@),
{
    let n = mime.unicode_len();
    let prefixed = if n >= 5 {
        str_eq(mime.substring_char(0, 5), TEXT_MIME_PREFIX)
    } else {
        false
    };
    prefixed || str_eq(mime, UTF8_STRING_MIME) || str_eq(mime, STRING_MIME) || str_eq(
        mime,
        TEXT_MIME,
    )
}

/// The keys of a list of MIME entries, in order.
pub open spec fn entry_keys(e: Seq<(String, Vec<u8>)>) -> Seq<Seq<char>> {
    e.map_values(|p: (String, Vec<u8>)| p.0@)
}

/// The bytes stored under key `k` in a list of entries whose keys are unique.
pub open spec fn entry_value(e: Seq<(String, Vec<u8>)>, k: Seq<char>) -> Seq<u8> {
    e[choose|i: int| 0 <= i < e.len() && e[i].0@ == k].1@
}

/// The mapping that a list of entries with unique keys stands for.
pub open spec fn entries_map(e: Seq<(String, Vec<u8>)>) -> Map<Seq<char>, Seq<u8>> {
    entry_keys(e).to_set().mk_map(|k: Seq<char>| entry_value(e, k))
}

/// A mapping from MIME type to bytes. Keys are compared exactly
/// (case-sensitive); the order in which they were added does not matter.
#[derive(Debug)]
pub struct MimeMap {
    entries: Vec<(String, Vec<u8>)>,
}

impl View for MimeMap {
    type V = Map<Seq<char>, Seq<u8>>;

    closed spec fn view(&self) -> Map<Seq<char>, Seq<u8>> {
        entries_map(self.entries@)
    }
}

proof fn lemma_entry_value(e: Seq<(String, Vec<u8>)>, i: int)
    requires
        entry_keys(e).no_duplicates(),
        0 <= i < e.len(),
    ensures
        entries_map(e).contains_key(e[i].0@),
        entries_map(e)[e[i].0@] == e[i].1@,
{
    let keys = entry_keys(e);
    assert(keys[i] == e[i].0@);
    assert(keys.to_set().contains(e[i].0@));
    let j = choose|j: int| 0 <= j < e.len() && e[j].0@ == e[i].0@;
    assert(keys[j] == keys[i]);
}

proof fn lemma_entries_dom(e: Seq<(String, Vec<u8>)>)
    requires
        entry_keys(e).no_duplicates(),
    ensures
        entries_map(e).dom() == entry_keys(e).to_set(),
        entries_map(e).dom().finite(),
        entries_map(e).len() == e.len(),
        forall|k: Seq<char>|
            #[trigger] entries_map(e).contains_key(k) <==> (exists|i: int|
                0 <= i < e.len() && e[i].0@ == k),
{
    let keys = entry_keys(e);
    keys.unique_seq_to_set();
    assert forall|k: Seq<char>| #[trigger] entries_map(e).contains_key(k) implies (exists|i: int|
        0 <= i < e.len() && e[i].0@ == k) by {
        let i = choose|i: int| 0 <= i < keys.len() && keys[i] == k;
        assert(e[i].0@ == k);
    }
    assert forall|k: Seq<char>|
        (exists|i: int| 0 <= i < e.len() && e[i].0@ == k) implies #[trigger] entries_map(
        e,
    ).contains_key(k) by {
        let i = choose|i: int| 0 <= i < e.len() && e[i].0@ == k;
        assert(keys[i] == k);
    }
}

impl MimeMap {
    #[verifier::type_invariant]
    spec fn keys_unique(self) -> bool {
        entry_keys(self.entries@).no_duplicates()
    }

    /// An empty mapping.
    pub fn new() -> (r: MimeMap)
        ensures
            r@ == Map::<Seq<char>, Seq<u8>>::empty(),
    {
        let r = MimeMap { entries: Vec::new() };
        assert(entry_keys(r.entries@).to_set() =~= Set::empty());
        assert(r@ =~= Map::<Seq<char>, Seq<u8>>::empty());
        r
    }

    /// The number of MIME types held.
    pub fn len(&self) -> (r: usize)
        ensures
            r == self@.len(),
    {
        proof {
            use_type_invariant(self);
            lemma_entries_dom(self.entries@);
        }
        self.entries.len()
    }

    /// Whether no MIME type is held.
    pub fn is_empty(&self) -> (r: bool)
        ensures
            r == (self@.len() == 0),
            r == (self@.dom() == Set::<Seq<char>>::empty()),
    {
        proof {
            use_type_invariant(self);
            lemma_entries_dom(self.entries@);
            if self.entries@.len() > 0 {
                lemma_entry_value(self.entries@, 0);
            } else {
                assert(entry_keys(self.entries@) =~= Seq::<Seq<char>>::empty());
                assert(self@.dom() =~= Set::<Seq<char>>::empty());
            }
        }
        self.entries.len() == 0
    }

    fn position(&self, mime_type: &str) -> (r: Option<usize>)
        ensures
            match r {
                Some(i) => i < self.entries@.len() && self.entries@[i as int].0@ == mime_type@,
                None => forall|i: int|
                    0 <= i < self.entries@.len() ==> self.entries@[i].0@ != mime_type@,
            },
    {
        let mut i: usize = 0;
        while i < self.entries.len()
            invariant
                i <= self.entries@.len(),
                forall|j: int| 0 <= j < i ==> self.entries@[j].0@ != mime_type@,
            decreases self.entries@.len() - i,
        {
            if str_eq(self.entries[i].0.as_str(), mime_type) {
                return Some(i);
            }
            i = i + 1;
        }
        None
    }

    /// The bytes stored under `mime_type`, if any.
    pub fn get(&self, mime_type: &str) -> (r: Option<&Vec<u8>>)
        ensures
            r is Some <==> self@.contains_key(mime_type@),
            r is Some ==> r->0@ == self@[mime_type@],
    {
        proof {
            use_type_invariant(self);
            lemma_entries_dom(self.entries@);
        }
        match self.position(mime_type) {
            Some(i) => {
                proof {
                    lemma_entry_value(self.entries@, i as int);
                }
                Some(&self.entries[i].1)
            },
            None => None,
        }
    }

    /// Stores `data` under `mime_type`, replacing what was there.
    pub fn insert(&mut self, mime_type: String, data: Vec<u8>)
        ensures
            final(self)@ == old(self)@.insert(mime_type@, data@),
    {
        proof {
            use_type_invariant(&*self);
            lemma_entries_dom(self.entries@);
        }
        let ghost old_entries = self.entries@;
        let ghost k = mime_type@;
        let ghost d = data@;
        match self.position(mime_type.as_str()) {
            Some(i) => {
                let mut entries: Vec<(String, Vec<u8>)> = Vec::new();
                std::mem::swap(&mut self.entries, &mut entries);
                entries.set(i, (mime_type, data));
                let ghost ne = entries@;
                proof {
                    lemma_keys_update(old_entries, i as int, ne[i as int]);
                    assert(ne == old_entries.update(i as int, ne[i as int]));
                }
                std::mem::swap(&mut self.entries, &mut entries);
                proof {
                    lemma_entries_dom(ne);
                    assert forall|x: Seq<char>| #[trigger]
                        entries_map(ne).contains_key(x) implies entries_map(ne)[x] == entries_map(
                        old_entries,
                    ).insert(k, d)[x] by {
                        let j = choose|j: int| 0 <= j < ne.len() && ne[j].0@ == x;
                        lemma_entry_value(ne, j);
                        assert(entry_keys(ne)[j] == x);
                        assert(entry_keys(ne)[i as int] == k);
                        if j != i {
                            lemma_entry_value(old_entries, j);
                        }
                    }
                    assert(entries_map(ne) =~= entries_map(old_entries).insert(k, d));
                }
            },
            None => {
                let mut entries: Vec<(String, Vec<u8>)> = Vec::new();
                std::mem::swap(&mut self.entries, &mut entries);
                entries.push((mime_type, data));
                let ghost ne = entries@;
                proof {
                    lemma_keys_push(old_entries, ne.last());
                    assert(ne == old_entries.push(ne.last()));
                }
                std::mem::swap(&mut self.entries, &mut entries);
                proof {
                    lemma_entries_dom(ne);
                    assert forall|x: Seq<char>| #[trigger]
                        entries_map(ne).contains_key(x) implies entries_map(ne)[x] == entries_map(
                        old_entries,
                    ).insert(k, d)[x] by {
                        let j = choose|j: int| 0 <= j < ne.len() && ne[j].0@ == x;
                        lemma_entry_value(ne, j);
                        if j < old_entries.len() {
                            lemma_entry_value(old_entries, j);
                        }
                    }
                    assert forall|x: Seq<char>| #[trigger]
                        entries_map(old_entries).insert(k, d).contains_key(x) implies entries_map(
                        ne,
                    ).contains_key(x) by {
                        if x != k {
                            let j = choose|j: int|
                                0 <= j < old_entries.len() && old_entries[j].0@ == x;
                            assert(ne[j] == old_entries[j]);
                        } else {
                            assert(ne[old_entries.len() as int].0@ == k);
                        }
                    }
                    assert(entries_map(ne) =~= entries_map(old_entries).insert(k, d));
                }
            },
        }
    }
}

impl MimeMap {
    /// The MIME types held, each once, in the order they were first added.
    pub fn keys(&self) -> (r: Vec<String>)
        ensures
            r@.len() == self@.len(),
            forall|i: int| 0 <= i < r@.len() ==> self@.contains_key(#[trigger] r@[i]@),
            forall|k: Seq<char>|
                #[trigger] self@.contains_key(k) ==> exists|i: int| 0 <= i < r@.len() && r@[i]@ == k,
            forall|i: int, j: int| 0 <= i < j < r@.len() ==> r@[i]@ != r@[j]@,
    {
        proof {
            use_type_invariant(self);
            lemma_entries_dom(self.entries@);
        }
        let mut r: Vec<String> = Vec::new();
        let mut i: usize = 0;
        while i < self.entries.len()
            invariant
                i <= self.entries@.len(),
                r@.len() == i,
                entry_keys(self.entries@).no_duplicates(),
                forall|j: int| 0 <= j < i ==> r@[j]@ == #[trigger] self.entries@[j].0@,
            decreases self.entries@.len() - i,
        {
            r.push(self.entries[i].0.clone());
            i = i + 1;
        }
        proof {
            assert forall|a: int| 0 <= a < r@.len() implies self@.contains_key(#[trigger] r@[a]@) by {
                lemma_entry_value(self.entries@, a);
            }
            assert forall|a: int, b: int| 0 <= a < b < r@.len() implies r@[a]@ != r@[b]@ by {
                assert(entry_keys(self.entries@)[a] == r@[a]@);
                assert(entry_keys(self.entries@)[b] == r@[b]@);
            }
            assert forall|k: Seq<char>| #[trigger] self@.contains_key(k) implies exists|a: int|
                0 <= a < r@.len() && r@[a]@ == k by {
                let a = choose|a: int| 0 <= a < self.entries@.len() && self.entries@[a].0@ == k;
                assert(r@[a]@ == k);
            }
        }
        r
    }

    /// Whether both hold the same MIME types with the same bytes.
    pub fn equals(&self, other: &MimeMap) -> (r: bool)
        ensures
            r == (self@ == other@),
    {
        proof {
            use_type_invariant(self);
            use_type_invariant(other);
            lemma_entries_dom(self.entries@);
            lemma_entries_dom(other.entries@);
        }
        if self.entries.len() != other.entries.len() {
            return false;
        }
        let mut i: usize = 0;
        while i < self.entries.len()
            invariant
                i <= self.entries@.len(),
                self.entries@.len() == other.entries@.len(),
                entry_keys(self.entries@).no_duplicates(),
                forall|j: int|
                    0 <= j < i ==> other@.contains_key(#[trigger] self.entries@[j].0@)
                        && other@[self.entries@[j].0@] == self.entries@[j].1@,
            decreases self.entries@.len() - i,
        {
            let key = self.entries[i].0.as_str();
            match other.get(key) {
                Some(data) => {
                    if !bytes_eq(data.as_slice(), self.entries[i].1.as_slice()) {
                        proof {
                            lemma_entry_value(self.entries@, i as int);
                        }
                        return false;
                    }
                },
                None => {
                    proof {
                        lemma_entry_value(self.entries@, i as int);
                    }
                    return false;
                },
            }
            i = i + 1;
        }
        proof {
            assert forall|k: Seq<char>| #[trigger] self@.contains_key(k) implies other@.contains_key(k)
                && other@[k] == self@[k] by {
                let j = choose|j: int| 0 <= j < self.entries@.len() && self.entries@[j].0@ == k;
                lemma_entry_value(self.entries@, j);
            }
            vstd::set_lib::lemma_subset_equality(self@.dom(), other@.dom());
            assert(self@ =~= other@);
        }
        true
    }

    /// A copy holding the same MIME types and bytes.
    pub fn duplicate(&self) -> (r: MimeMap)
        ensures
            r@ == self@,
    {
        proof {
            use_type_invariant(self);
        }
        let mut entries: Vec<(String, Vec<u8>)> = Vec::new();
        let mut i: usize = 0;
        while i < self.entries.len()
            invariant
                i <= self.entries@.len(),
                entries@.len() == i,
                forall|j: int|
                    0 <= j < i ==> (#[trigger] entries@[j]).0@ == self.entries@[j].0@
                        && entries@[j].1@ == self.entries@[j].1@,
            decreases self.entries@.len() - i,
        {
            let data = vstd::slice::slice_to_vec(self.entries[i].1.as_slice());
            entries.push((self.entries[i].0.clone(), data));
            i = i + 1;
        }
        proof {
            assert(entry_keys(entries@) =~= entry_keys(self.entries@));
            assert forall|k: Seq<char>| #[trigger]
                entries_map(entries@).contains_key(k) implies entries_map(entries@)[k] == entries_map(
                self.entries@,
            )[k] by {
                let j = choose|j: int| 0 <= j < entries@.len() && entries@[j].0@ == k;
                lemma_entry_value(entries@, j);
                lemma_entry_value(self.entries@, j);
            }
            lemma_entries_dom(entries@);
            lemma_entries_dom(self.entries@);
            assert(entries_map(entries@) =~= entries_map(self.entries@));
        }
        MimeMap { entries }
    }
}

proof fn lemma_keys_update(e: Seq<(String, Vec<u8>)>, i: int, x: (String, Vec<u8>))
    requires
        0 <= i < e.len(),
        e[i].0@ == x.0@,
    ensures
        entry_keys(e.update(i, x)) == entry_keys(e),
{
    assert(entry_keys(e.update(i, x)) =~= entry_keys(e));
}

proof fn lemma_keys_push(e: Seq<(String, Vec<u8>)>, x: (String, Vec<u8>))
    requires
        entry_keys(e).no_duplicates(),
        forall|i: int| 0 <= i < e.len() ==> e[i].0@ != x.0@,
    ensures
        entry_keys(e.push(x)) == entry_keys(e).push(x.0@),
        entry_keys(e.push(x)).no_duplicates(),
{
    assert(entry_keys(e.push(x)) =~= entry_keys(e).push(x.0@));
}

/// One of the two selections that the bridge keeps in step.
#[derive(Debug, Clone, Copy, PartialEq, Eq, Structural)]
pub enum ClipboardType {
    Clipboard,
    Primary,
}

impl ClipboardType {
    /// The other selection kind.
    pub open spec fn other(self) -> ClipboardType {
        match self {
            ClipboardType::Clipboard => ClipboardType::Primary,
            ClipboardType::Primary => ClipboardType::Clipboard,
        }
    }
}

/// What a clipboard value means: text, a MIME map, or nothing.
pub enum ContentModel {
    Text(Seq<char>),
    Binary(Map<Seq<char>, Seq<u8>>),
    Empty,
}

/// A clipboard payload.
#[derive(Debug)]
pub enum ClipboardContent {
    /// Text, held as a string (always valid UTF-8).
    Text(String),
    /// Bytes keyed by MIME type.
    Binary(MimeMap),
    /// The selection is cleared or has no owner.
    Empty,
}

impl View for ClipboardContent {
    type V = ContentModel;

    open spec fn view(&self) -> ContentModel {
        match self {
            ClipboardContent::Text(s) => ContentModel::Text(s@),
            ClipboardContent::Binary(m) => ContentModel::Binary(m@),
            ClipboardContent::Empty => ContentModel::Empty,
        }
    }
}

impl ClipboardContent {
    /// A binary value with no MIME type yet.
    pub fn new_binary() -> (r: ClipboardContent)
        ensures
            r@ == ContentModel::Binary(Map::empty()),
    {
        ClipboardContent::Binary(MimeMap::new())
    }

    /// Stores `data` under `mime_type` in a binary value; other values are left
    /// as they are.
    pub fn add_mime(&mut self, mime_type: String, data: Vec<u8>)
        ensures
            match old(self)@ {
                ContentModel::Binary(m) => final(self)@ == ContentModel::Binary(
                    m.insert(mime_type@, data@),
                ),
                _ => final(self)@ == old(self)@,
            },
    {
        if let ClipboardContent::Binary(map) = self {
            map.insert(mime_type, data);
        }
    }

    /// The bytes stored under `mime_type` in a binary value.
    pub fn get_mime(&self, mime_type: &str) -> (r: Option<&Vec<u8>>)
        ensures
            match self@ {
                ContentModel::Binary(m) => (r is Some <==> m.contains_key(mime_type@)) && (r is Some
                    ==> r->0@ == m[mime_type@]),
                _ => r is None,
            },
    {
        if let ClipboardContent::Binary(map) = self {
            map.get(mime_type)
        } else {
            None
        }
    }

    /// The text of a text value.
    pub fn get_text(&self) -> (r: Option<&String>)
        ensures
            match self@ {
                ContentModel::Text(t) => r is Some && r->0@ == t,
                _ => r is None,
            },
    {
        if let ClipboardContent::Text(s) = self {
            Some(s)
        } else {
            None
        }
    }

    /// Whether this is a binary value.
    pub fn has_binary(&self) -> (r: bool)
        ensures
            r == (self@ is Binary),
    {
        match self {
            ClipboardContent::Binary(_) => true,
            _ => false,
        }
    }

    /// The MIME types of a binary value, each once; empty for other values.
    pub fn mime_types(&self) -> (r: Vec<String>)
        ensures
            match self@ {
                ContentModel::Binary(m) => {
                    &&& r@.len() == m.len()
                    &&& forall|i: int| 0 <= i < r@.len() ==> m.contains_key(#[trigger] r@[i]@)
                    &&& forall|k: Seq<char>| #[trigger]
                        m.contains_key(k) ==> exists|i: int| 0 <= i < r@.len() && r@[i]@ == k
                    &&& forall|i: int, j: int| 0 <= i < j < r@.len() ==> r@[i]@ != r@[j]@
                },
                _ => r@.len() == 0,
            },
    {
        if let ClipboardContent::Binary(map) = self {
            map.keys()
        } else {
            Vec::new()
        }
    }

    /// The UTF-8 bytes of a text value.
    pub fn text_bytes(&self) -> (r: Option<Vec<u8>>)
        ensures
            match self@ {
                ContentModel::Text(t) => r is Some && r->0@ == encode_utf8(t),
                _ => r is None,
            },
    {
        if let ClipboardContent::Text(s) = self {
            Some(utf8_encode(s.as_str()))
        } else {
            None
        }
    }
}

/// Whether `m` holds valid UTF-8 under `mime`.
pub open spec fn has_utf8_entry(m: Map<Seq<char>, Seq<u8>>, mime: Seq<char>) -> bool {
    m.contains_key(mime) && valid_utf8(m[mime])
}

/// The text that a MIME map can stand for: the first of
/// `text/plain;charset=utf-8`, `text/plain` and `UTF8_STRING` that holds valid
/// UTF-8.
pub open spec fn binary_text(m: Map<Seq<char>, Seq<u8>>) -> Option<Seq<char>> {
    if has_utf8_entry(m, TEXT_PLAIN_UTF8_MIME@) {
        Some(decode_utf8(m[TEXT_PLAIN_UTF8_MIME@]))
    } else if has_utf8_entry(m, TEXT_PLAIN_MIME@) {
        Some(decode_utf8(m[TEXT_PLAIN_MIME@]))
    } else if has_utf8_entry(m, UTF8_STRING_MIME@) {
        Some(decode_utf8(m[UTF8_STRING_MIME@]))
    } else {
        None
    }
}

/// The text that a clipboard value can be served as.
pub open spec fn text_of(c: ContentModel) -> Option<Seq<char>> {
    match c {
        ContentModel::Text(t) => Some(t),
        ContentModel::Binary(m) => binary_text(m),
        ContentModel::Empty => None,
    }
}

fn utf8_entry(m: &MimeMap, mime: &str) -> (r: Option<String>)
    ensures
        r is Some <==> has_utf8_entry(m@, mime@),
        r is Some ==> r->0@ == decode_utf8(m@[mime@]),
{
    match m.get(mime) {
        Some(data) => utf8_decode(vstd::slice::slice_to_vec(data.as_slice())),
        None => None,
    }
}

impl ClipboardContent {
    /// The value as text, where it can be had: the text of a text value, or
    /// the UTF-8 text that a binary value holds under a text MIME type.
    pub fn as_text(&self) -> (r: Option<String>)
        ensures
            match r {
                Some(s) => text_of(self@) == Some(s@),
                None => text_of(self@) is None,
            },
    {
        match self {
            ClipboardContent::Text(s) => Some(s.clone()),
            ClipboardContent::Binary(m) => {
                let a = utf8_entry(m, TEXT_PLAIN_UTF8_MIME);
                if a.is_some() {
                    return a;
                }
                let b = utf8_entry(m, TEXT_PLAIN_MIME);
                if b.is_some() {
                    return b;
                }
                utf8_entry(m, UTF8_STRING_MIME)
            },
            ClipboardContent::Empty => None,
        }
    }
}

impl Clone for ClipboardContent {
    fn clone(&self) -> (r: ClipboardContent)
        ensures
            r@ == self@,
    {
        match self {
            ClipboardContent::Text(s) => ClipboardContent::Text(s.clone()),
            ClipboardContent::Binary(m) => ClipboardContent::Binary(m.duplicate()),
            ClipboardContent::Empty => ClipboardContent::Empty,
        }
    }
}

impl PartialEq for ClipboardContent {
    fn eq(&self, other: &ClipboardContent) -> (r: bool) {
        match (self, other) {
            (ClipboardContent::Text(a), ClipboardContent::Text(b)) => *a == *b,
            (ClipboardContent::Binary(a), ClipboardContent::Binary(b)) => a.equals(b),
            (ClipboardContent::Empty, ClipboardContent::Empty) => true,
            _ => false,
        }
    }
}

impl vstd::std_specs::cmp::PartialEqSpecImpl for ClipboardContent {
    open spec fn obeys_eq_spec() -> bool {
        true
    }

    open spec fn eq_spec(&self, other: &ClipboardContent) -> bool {
        self@ == other@
    }
}

} // verus!
