use vstd::prelude::*;
use vstd::utf8::{decode_utf8, encode_utf8, valid_utf8};
use crate::content::{
    is_text_mime, is_text_mime_spec, ClipboardContent, ClipboardType, ContentModel, MimeMap,
    STRING_MIME, TEXT_MIME, TEXT_PLAIN_MIME, TEXT_PLAIN_UTF8_MIME, UTF8_STRING_MIME,
};
use crate::text::{str_eq, utf8_decode};

verus! {

/// User data attached to the registry and compositor proxies.
#[derive(Debug, Clone, Copy)]
pub struct GlobalData;

pub const COMPOSITOR_INTERFACE: &'static str = "wl_compositor";

pub const SEAT_INTERFACE: &'static str = "wl_seat";

pub const DATA_CONTROL_MANAGER_INTERFACE: &'static str = "zwlr_data_control_manager_v1";

pub const PRIMARY_SELECTION_MANAGER_INTERFACE: &'static str =
    "zwp_primary_selection_device_manager_v1";

pub const IMAGE_PNG_MIME: &'static str = "image/png";

pub const IMAGE_BMP_MIME: &'static str = "image/bmp";

pub const IMAGE_JPEG_MIME: &'static str = "image/jpeg";

/// A registry global that the adapter binds.
#[derive(Debug, Clone, Copy, PartialEq, Eq, Structural)]
pub enum GlobalKind {
    Compositor,
    Seat,
    DataControlManager,
    PrimarySelectionManager,
}

/// The global that an interface name announces, with the version to bind.
pub open spec fn binding_of(interface: Seq<char>) -> Option<(GlobalKind, u32)> {
    if interface == COMPOSITOR_INTERFACE@ {
        Some((GlobalKind::Compositor, 4))
    } else if interface == SEAT_INTERFACE@ {
        Some((GlobalKind::Seat, 7))
    } else if interface == DATA_CONTROL_MANAGER_INTERFACE@ {
        Some((GlobalKind::DataControlManager, 2))
    } else if interface == PRIMARY_SELECTION_MANAGER_INTERFACE@ {
        Some((GlobalKind::PrimarySelectionManager, 1))
    } else {
        None
    }
}

/// Which global a registry announcement is, and at which version to bind it.
pub fn global_binding(interface: &str) -> (r: Option<(GlobalKind, u32)>)
    ensures
        r == binding_of(interface@),
{
    if str_eq(interface, COMPOSITOR_INTERFACE) {
        Some((GlobalKind::Compositor, 4))
    } else if str_eq(interface, SEAT_INTERFACE) {
        Some((GlobalKind::Seat, 7))
    } else if str_eq(interface, DATA_CONTROL_MANAGER_INTERFACE) {
        Some((GlobalKind::DataControlManager, 2))
    } else if str_eq(interface, PRIMARY_SELECTION_MANAGER_INTERFACE) {
        Some((GlobalKind::PrimarySelectionManager, 1))
    } else {
        None
    }
}

/// The MIME types offered for a text value, in order.
pub open spec fn text_offer_mimes() -> Seq<Seq<char>> {
    seq![
        TEXT_PLAIN_UTF8_MIME@,
        TEXT_PLAIN_MIME@,
        UTF8_STRING_MIME@,
        TEXT_MIME@,
        STRING_MIME@,
    ]
}

/// The MIME types asked of a new offer, in order.
pub open spec fn probe_mime_list() -> Seq<Seq<char>> {
    seq![
        TEXT_PLAIN_UTF8_MIME@,
        TEXT_PLAIN_MIME@,
        UTF8_STRING_MIME@,
        IMAGE_PNG_MIME@,
        IMAGE_BMP_MIME@,
        IMAGE_JPEG_MIME@,
    ]
}

/// The MIME types asked of a new offer: text first, then common image types.
pub fn probe_mimes() -> (r: Vec<String>)
    ensures
        r@.map_values(|s: String| s@) == probe_mime_list(),
{
    let r = vec![
        TEXT_PLAIN_UTF8_MIME.to_string(),
        TEXT_PLAIN_MIME.to_string(),
        UTF8_STRING_MIME.to_string(),
        IMAGE_PNG_MIME.to_string(),
        IMAGE_BMP_MIME.to_string(),
        IMAGE_JPEG_MIME.to_string(),
    ];
    assert(r@.map_values(|s: String| s@) =~= probe_mime_list());
    r
}

/// A request on the data-control protocol that realises an assert.
#[derive(Debug)]
pub enum SourceAction {
    /// Create a data source, known by `source` from now on.
    Create { source: u64 },
    /// Advertise `mime` on the source.
    Offer { source: u64, mime: String },
    /// Make the source (or nothing) the selection of `kind`.
    Select { kind: ClipboardType, selected: Option<u64> },
    /// Destroy the source.
    Destroy { source: u64 },
}

pub enum SourceActionModel {
    Create { source: u64 },
    Offer { source: u64, mime: Seq<char> },
    Select { kind: ClipboardType, selected: Option<u64> },
    Destroy { source: u64 },
}

impl View for SourceAction {
    type V = SourceActionModel;

    open spec fn view(&self) -> SourceActionModel {
        match self {
            SourceAction::Create { source } => SourceActionModel::Create { source: *source },
            SourceAction::Offer { source, mime } => SourceActionModel::Offer {
                source: *source,
                mime: mime@,
            },
            SourceAction::Select { kind, selected } => SourceActionModel::Select {
                kind: *kind,
                selected: *selected,
            },
            SourceAction::Destroy { source } => SourceActionModel::Destroy { source: *source },
        }
    }
}

pub open spec fn actions_view(v: Seq<SourceAction>) -> Seq<SourceActionModel> {
    v.map_values(|a: SourceAction| a@)
}

/// Whether `mimes` is what a source for `c` advertises: the text MIME types
/// for text, each key once for a binary value, nothing otherwise.
pub open spec fn offers_for(c: ContentModel, mimes: Seq<Seq<char>>) -> bool {
    match c {
        ContentModel::Text(_) => mimes == text_offer_mimes(),
        ContentModel::Binary(m) => mimes.no_duplicates() && mimes.to_set() == m.dom(),
        ContentModel::Empty => mimes.len() == 0,
    }
}

pub open spec fn destroy_of(s: Option<u64>) -> Seq<SourceActionModel> {
    match s {
        Some(id) => seq![SourceActionModel::Destroy { source: id }],
        None => Seq::empty(),
    }
}

/// Replacing the source of `kind`: create `id`, advertise, select it, and
/// only then destroy the one it replaces.
pub open spec fn assert_plan(
    previous: Option<u64>,
    id: u64,
    kind: ClipboardType,
    mimes: Seq<Seq<char>>,
) -> Seq<SourceActionModel> {
    seq![SourceActionModel::Create { source: id }] + mimes.map_values(
        |m: Seq<char>| SourceActionModel::Offer { source: id, mime: m },
    ) + seq![SourceActionModel::Select { kind, selected: Some(id) }] + destroy_of(previous)
}

/// Clearing the selection of `kind`, then destroying its former source.
pub open spec fn clear_plan(previous: Option<u64>, kind: ClipboardType) -> Seq<SourceActionModel> {
    seq![SourceActionModel::Select { kind, selected: None }] + destroy_of(previous)
}

/// What the Wayland adapter holds.
pub struct WModel {
    pub observe_primary: bool,
    pub has_seat: bool,
    pub has_manager: bool,
    pub has_device: bool,
    pub clipboard: Option<ContentModel>,
    pub primary: Option<ContentModel>,
    pub clipboard_source: Option<u64>,
    pub primary_source: Option<u64>,
    pub next_source: u64,
}

impl WModel {
    pub open spec fn snapshot(self, kind: ClipboardType) -> Option<ContentModel> {
        match kind {
            ClipboardType::Clipboard => self.clipboard,
            ClipboardType::Primary => self.primary,
        }
    }

    pub open spec fn source(self, kind: ClipboardType) -> Option<u64> {
        match kind {
            ClipboardType::Clipboard => self.clipboard_source,
            ClipboardType::Primary => self.primary_source,
        }
    }

    /// Source identifiers are handed out in increasing order and the two
    /// kinds never share one.
    pub open spec fn wf(self) -> bool {
        &&& (self.clipboard_source matches Some(id) ==> id < self.next_source)
        &&& (self.primary_source matches Some(id) ==> id < self.next_source)
        &&& (self.clipboard_source is Some && self.primary_source is Some ==> self.clipboard_source
            != self.primary_source)
    }

    /// Whether an assert can be carried out: the device is bound and a fresh
    /// source identifier is left.
    pub open spec fn ready(self) -> bool {
        self.has_device && self.has_manager && self.next_source < u64::MAX
    }

    pub open spec fn with_kind(self, kind: ClipboardType, c: Option<ContentModel>, s: Option<
        u64,
    >) -> WModel {
        match kind {
            ClipboardType::Clipboard => WModel { clipboard: c, clipboard_source: s, ..self },
            ClipboardType::Primary => WModel { primary: c, primary_source: s, ..self },
        }
    }

    /// The kind whose current source is `source`.
    pub open spec fn kind_of_source(self, source: u64) -> Option<ClipboardType> {
        if self.clipboard_source == Some(source) {
            Some(ClipboardType::Clipboard)
        } else if self.primary_source == Some(source) {
            Some(ClipboardType::Primary)
        } else {
            None
        }
    }
}

/// The state after a successful assert of `c` for `kind`.
pub open spec fn w_assert(m: WModel, kind: ClipboardType, c: ContentModel) -> WModel {
    if c is Empty {
        m.with_kind(kind, None, None)
    } else {
        WModel { next_source: (m.next_source + 1) as u64, ..m.with_kind(kind, Some(c), Some(m.next_source)) }
    }
}

/// The bytes a source hands out for `mime`: the UTF-8 of a text value
/// whatever the MIME type, the exact entry of a binary value, nothing else.
pub open spec fn w_send(m: WModel, source: u64, mime: Seq<char>) -> Option<Seq<u8>> {
    match m.kind_of_source(source) {
        Some(kind) => match m.snapshot(kind) {
            Some(ContentModel::Text(t)) => Some(encode_utf8(t)),
            Some(ContentModel::Binary(b)) => if b.contains_key(mime) {
                Some(b[mime])
            } else {
                None
            },
            _ => None,
        },
        None => None,
    }
}

/// What to do about a selection event from the compositor.
#[derive(Debug, Clone, Copy, PartialEq, Eq, Structural)]
pub enum OfferDecision {
    /// Primary observation is switched off.
    Ignore,
    /// The selection was cleared: report it as empty.
    ReportEmpty,
    /// Probe the offer with each MIME type of the probe list.
    Probe,
}

/// Whether a probed value stands for text: a text MIME type with non-empty,
/// valid UTF-8 bytes.
pub open spec fn text_hit(p: (Seq<char>, Seq<u8>)) -> bool {
    is_text_mime_spec(p.0) && p.1.len() > 0 && valid_utf8(p.1)
}

/// The text of the first probe result from index `i` on that stands for text.
pub open spec fn first_text(rs: Seq<(Seq<char>, Seq<u8>)>, i: int) -> Option<Seq<char>>
    decreases rs.len() - i,
{
    if i < 0 || i >= rs.len() {
        None
    } else if text_hit(rs[i]) {
        Some(decode_utf8(rs[i].1))
    } else {
        first_text(rs, i + 1)
    }
}

/// The non-empty probe results as a MIME map.
pub open spec fn probe_map(rs: Seq<(Seq<char>, Seq<u8>)>) -> Map<Seq<char>, Seq<u8>>
    decreases rs.len(),
{
    if rs.len() == 0 {
        Map::empty()
    } else if rs.last().1.len() > 0 {
        probe_map(rs.drop_last()).insert(rs.last().0, rs.last().1)
    } else {
        probe_map(rs.drop_last())
    }
}

/// What an offer's probe results amount to: text where a text MIME type gave
/// UTF-8 (the earliest in the probe order), else the non-empty values as a
/// binary map, else nothing.
pub open spec fn probes_content(rs: Seq<(Seq<char>, Seq<u8>)>) -> Option<ContentModel> {
    match first_text(rs, 0) {
        Some(t) => Some(ContentModel::Text(t)),
        None => if probe_map(rs) == Map::<Seq<char>, Seq<u8>>::empty() {
            None
        } else {
            Some(ContentModel::Binary(probe_map(rs)))
        },
    }
}

pub open spec fn probes_view(v: Seq<(String, Vec<u8>)>) -> Seq<(Seq<char>, Seq<u8>)> {
    v.map_values(|p: (String, Vec<u8>)| (p.0@, p.1@))
}

fn text_from_probes(results: &Vec<(String, Vec<u8>)>) -> (r: Option<String>)
    ensures
        match r {
            Some(t) => first_text(probes_view(results@), 0) == Some(t@),
            None => first_text(probes_view(results@), 0) is None,
        },
{
    let ghost rs = probes_view(results@);
    let mut i: usize = 0;
    while i < results.len()
        invariant
            i <= results@.len(),
            rs == probes_view(results@),
            first_text(rs, 0) == first_text(rs, i as int),
        decreases results@.len() - i,
    {
        let mime = results[i].0.as_str();
        let data = &results[i].1;
        if data.len() > 0 && is_text_mime(mime) {
            if let Some(text) = utf8_decode(vstd::slice::slice_to_vec(data.as_slice())) {
                return Some(text);
            }
        }
        i = i + 1;
    }
    None
}

/// The observed content when reading an offer ran out of time: the
/// observation goes on only if a text MIME type already gave a complete text
/// value; otherwise it is dropped.
pub fn content_after_timeout(complete: &Vec<(String, Vec<u8>)>) -> (r: Option<ClipboardContent>)
    ensures
        match r {
            Some(c) => first_text(probes_view(complete@), 0) matches Some(t) && c@
                == ContentModel::Text(t),
            None => first_text(probes_view(complete@), 0) is None,
        },
{
    match text_from_probes(complete) {
        Some(t) => Some(ClipboardContent::Text(t)),
        None => None,
    }
}

/// Builds the observed content from what each probed MIME type yielded.
pub fn content_from_probes(results: &Vec<(String, Vec<u8>)>) -> (r: Option<ClipboardContent>)
    ensures
        match r {
            Some(c) => probes_content(probes_view(results@)) == Some(c@),
            None => probes_content(probes_view(results@)) is None,
        },
{
    let ghost rs = probes_view(results@);
    if let Some(text) = text_from_probes(results) {
        return Some(ClipboardContent::Text(text));
    }
    let mut map = MimeMap::new();
    let mut j: usize = 0;
    while j < results.len()
        invariant
            j <= results@.len(),
            rs == probes_view(results@),
            first_text(rs, 0) is None,
            map@ == probe_map(rs.subrange(0, j as int)),
        decreases results@.len() - j,
    {
        if results[j].1.len() > 0 {
            let mime = results[j].0.clone();
            let data = vstd::slice::slice_to_vec(results[j].1.as_slice());
            map.insert(mime, data);
        }
        proof {
            assert(rs.subrange(0, j + 1).drop_last() =~= rs.subrange(0, j as int));
        }
        j = j + 1;
    }
    proof {
        assert(rs.subrange(0, j as int) =~= rs);
    }
    if map.is_empty() {
        proof {
            assert(map@ =~= Map::<Seq<char>, Seq<u8>>::empty());
        }
        None
    } else {
        Some(ClipboardContent::Binary(map))
    }
}

/// The decisions of the Wayland side: which globals it binds, which sources
/// it creates and destroys, and what each source serves.
pub struct WaylandState {
    observe_primary: bool,
    has_seat: bool,
    has_manager: bool,
    has_device: bool,
    clipboard_content: Option<ClipboardContent>,
    primary_content: Option<ClipboardContent>,
    clipboard_source: Option<u64>,
    primary_source: Option<u64>,
    next_source: u64,
}

pub open spec fn held_view(c: Option<ClipboardContent>) -> Option<ContentModel> {
    match c {
        Some(x) => Some(x@),
        None => None,
    }
}

impl View for WaylandState {
    type V = WModel;

    closed spec fn view(&self) -> WModel {
        WModel {
            observe_primary: self.observe_primary,
            has_seat: self.has_seat,
            has_manager: self.has_manager,
            has_device: self.has_device,
            clipboard: held_view(self.clipboard_content),
            primary: held_view(self.primary_content),
            clipboard_source: self.clipboard_source,
            primary_source: self.primary_source,
            next_source: self.next_source,
        }
    }
}

impl WaylandState {
    #[verifier::type_invariant]
    spec fn sources_fresh(self) -> bool {
        self@.wf()
    }

    /// An adapter with nothing bound and nothing owned. Primary-selection
    /// changes are reported only when `observe_primary` is set.
    pub fn new(observe_primary: bool) -> (r: WaylandState)
        ensures
            r@ == (WModel {
                observe_primary,
                has_seat: false,
                has_manager: false,
                has_device: false,
                clipboard: None,
                primary: None,
                clipboard_source: None,
                primary_source: None,
                next_source: 0,
            }),
            r@.wf(),
    {
        WaylandState {
            observe_primary,
            has_seat: false,
            has_manager: false,
            has_device: false,
            clipboard_content: None,
            primary_content: None,
            clipboard_source: None,
            primary_source: None,
            next_source: 0,
        }
    }

    /// Whether primary-selection changes are reported.
    pub fn observes_primary(&self) -> (r: bool)
        ensures
            r == self@.observe_primary,
    {
        self.observe_primary
    }

    /// Records that a global was bound. Returns whether the data-control
    /// device is to be created now: the seat and the manager are both bound
    /// and no device exists yet.
    pub fn note_bound(&mut self, kind: GlobalKind) -> (r: bool)
        ensures
            final(self)@.wf(),
            ({
                let seat = old(self)@.has_seat || kind == GlobalKind::Seat;
                let manager = old(self)@.has_manager || kind == GlobalKind::DataControlManager;
                &&& r == (seat && manager && !old(self)@.has_device)
                &&& final(self)@ == (WModel {
                    has_seat: seat,
                    has_manager: manager,
                    has_device: old(self)@.has_device || r,
                    ..old(self)@
                })
            }),
    {
        proof {
            use_type_invariant(&*self);
        }
        match kind {
            GlobalKind::Seat => self.has_seat = true,
            GlobalKind::DataControlManager => self.has_manager = true,
            _ => {},
        }
        let create = self.has_seat && self.has_manager && !self.has_device;
        if create {
            self.has_device = true;
        }
        create
    }

    /// The content served for `kind`, if any.
    pub fn snapshot(&self, kind: ClipboardType) -> (r: Option<&ClipboardContent>)
        ensures
            match r {
                Some(c) => self@.snapshot(kind) == Some(c@),
                None => self@.snapshot(kind) is None,
            },
    {
        match kind {
            ClipboardType::Clipboard => self.clipboard_content.as_ref(),
            ClipboardType::Primary => self.primary_content.as_ref(),
        }
    }

    /// The current source of `kind`, if any.
    pub fn source(&self, kind: ClipboardType) -> (r: Option<u64>)
        ensures
            r == self@.source(kind),
    {
        match kind {
            ClipboardType::Clipboard => self.clipboard_source,
            ClipboardType::Primary => self.primary_source,
        }
    }

    /// Takes an assert command: replaces the source of `kind` by one that
    /// serves `content` (new before destroy), or clears the selection for
    /// `Empty`. Returns the requests to make, in order; none when the device
    /// is not bound yet.
    pub fn set_clipboard_content(&mut self, content: ClipboardContent, kind: ClipboardType) -> (r:
        Vec<SourceAction>)
        ensures
            final(self)@.wf(),
            !old(self)@.ready() ==> final(self)@ == old(self)@ && r@.len() == 0,
            old(self)@.ready() ==> final(self)@ == w_assert(old(self)@, kind, content@),
            old(self)@.ready() && content@ is Empty ==> actions_view(r@) == clear_plan(
                old(self)@.source(kind),
                kind,
            ),
            old(self)@.ready() && content@ is Text ==> actions_view(r@) == assert_plan(
                old(self)@.source(kind),
                old(self)@.next_source,
                kind,
                text_offer_mimes(),
            ),
            old(self)@.ready() && content@ is Binary ==> exists|mimes: Seq<Seq<char>>|
                offers_for(content@, mimes) && actions_view(r@) == #[trigger] assert_plan(
                    old(self)@.source(kind),
                    old(self)@.next_source,
                    kind,
                    mimes,
                ),
    {
        proof {
            use_type_invariant(&*self);
        }
        let mut actions: Vec<SourceAction> = Vec::new();
        if !(self.has_device && self.has_manager && self.next_source < u64::MAX) {
            return actions;
        }
        let previous = match kind {
            ClipboardType::Clipboard => self.clipboard_source,
            ClipboardType::Primary => self.primary_source,
        };
        if let ClipboardContent::Empty = content {
            actions.push(SourceAction::Select { kind, selected: None });
            if let Some(old_id) = previous {
                actions.push(SourceAction::Destroy { source: old_id });
            }
            proof {
                assert(actions_view(actions@) =~= clear_plan(previous, kind));
            }
            match kind {
                ClipboardType::Clipboard => {
                    self.clipboard_content = None;
                    self.clipboard_source = None;
                },
                ClipboardType::Primary => {
                    self.primary_content = None;
                    self.primary_source = None;
                },
            }
            return actions;
        }
        let id = self.next_source;
        actions.push(SourceAction::Create { source: id });
        let mimes = match &content {
            ClipboardContent::Text(_) => {
                let v = vec![
                    TEXT_PLAIN_UTF8_MIME.to_string(),
                    TEXT_PLAIN_MIME.to_string(),
                    UTF8_STRING_MIME.to_string(),
                    TEXT_MIME.to_string(),
                    STRING_MIME.to_string(),
                ];
                proof {
                    assert(v@.map_values(|s: String| s@) =~= text_offer_mimes());
                }
                v
            },
            _ => content.mime_types(),
        };
        let ghost mime_seq = mimes@.map_values(|s: String| s@);
        proof {
            match content@ {
                ContentModel::Binary(m) => {
                    assert forall|a: int, b: int|
                        0 <= a < mime_seq.len() && 0 <= b < mime_seq.len() && a != b implies mime_seq[a]
                        != mime_seq[b] by {
                        if a < b {
                            assert(mimes@[a]@ != mimes@[b]@);
                        } else {
                            assert(mimes@[b]@ != mimes@[a]@);
                        }
                    }
                    assert forall|k: Seq<char>| #[trigger] m.dom().contains(k) implies mime_seq.to_set().contains(k) by {
                        let a = choose|a: int| 0 <= a < mimes@.len() && mimes@[a]@ == k;
                        assert(mime_seq[a] == k);
                    }
                    assert forall|k: Seq<char>| #[trigger] mime_seq.to_set().contains(k) implies m.dom().contains(k) by {
                        let a = choose|a: int| 0 <= a < mime_seq.len() && mime_seq[a] == k;
                        assert(m.contains_key(mimes@[a]@));
                    }
                    assert(mime_seq.to_set() =~= m.dom());
                },
                _ => {},
            }
            assert(offers_for(content@, mime_seq));
        }
        let mut i: usize = 0;
        while i < mimes.len()
            invariant
                i <= mimes@.len(),
                mime_seq == mimes@.map_values(|s: String| s@),
                actions_view(actions@) == seq![SourceActionModel::Create { source: id }]
                    + mime_seq.subrange(0, i as int).map_values(
                    |m: Seq<char>| SourceActionModel::Offer { source: id, mime: m },
                ),
            decreases mimes@.len() - i,
        {
            let ghost before = actions@;
            let mime = mimes[i].clone();
            actions.push(SourceAction::Offer { source: id, mime });
            proof {
                let offer = |m: Seq<char>| SourceActionModel::Offer { source: id, mime: m };
                assert(mime_seq[i as int] == mimes@[i as int]@);
                assert(actions_view(actions@) =~= actions_view(before).push(offer(mime_seq[i as int])));
                assert(mime_seq.subrange(0, i + 1).map_values(offer) =~= mime_seq.subrange(
                    0,
                    i as int,
                ).map_values(offer).push(offer(mime_seq[i as int])));
                assert(actions_view(actions@) =~= seq![SourceActionModel::Create { source: id }]
                    + mime_seq.subrange(0, i + 1).map_values(offer));
            }
            i = i + 1;
        }
        actions.push(SourceAction::Select { kind, selected: Some(id) });
        if let Some(old_id) = previous {
            actions.push(SourceAction::Destroy { source: old_id });
        }
        proof {
            assert(mime_seq.subrange(0, i as int) =~= mime_seq);
            assert(actions_view(actions@) =~= assert_plan(previous, id, kind, mime_seq));
        }
        self.next_source = id + 1;
        match kind {
            ClipboardType::Clipboard => {
                self.clipboard_content = Some(content);
                self.clipboard_source = Some(id);
            },
            ClipboardType::Primary => {
                self.primary_content = Some(content);
                self.primary_source = Some(id);
            },
        }
        actions
    }

    /// The bytes to write when the compositor asks `source` for `mime`.
    pub fn on_send(&self, source: u64, mime: &str) -> (r: Option<Vec<u8>>)
        ensures
            match r {
                Some(b) => w_send(self@, source, mime@) == Some(b@),
                None => w_send(self@, source, mime@) is None,
            },
    {
        let held = if self.clipboard_source == Some(source) {
            self.clipboard_content.as_ref()
        } else if self.primary_source == Some(source) {
            self.primary_content.as_ref()
        } else {
            None
        };
        match held {
            Some(ClipboardContent::Text(t)) => Some(crate::text::utf8_encode(t.as_str())),
            Some(ClipboardContent::Binary(m)) => match m.get(mime) {
                Some(data) => Some(vstd::slice::slice_to_vec(data.as_slice())),
                None => None,
            },
            _ => None,
        }
    }

    /// The compositor is done with `source`: if it was the current source of
    /// a kind, that kind is no longer owned and nothing is served for it.
    pub fn on_cancelled(&mut self, source: u64)
        ensures
            final(self)@.wf(),
            match old(self)@.kind_of_source(source) {
                Some(kind) => final(self)@ == old(self)@.with_kind(kind, None, None),
                None => final(self)@ == old(self)@,
            },
    {
        proof {
            use_type_invariant(&*self);
        }
        if self.clipboard_source == Some(source) {
            self.clipboard_content = None;
            self.clipboard_source = None;
        } else if self.primary_source == Some(source) {
            self.primary_content = None;
            self.primary_source = None;
        }
    }

    /// What to do when the compositor announces a new selection of `kind`;
    /// `has_offer` is false when the selection was cleared.
    pub fn on_selection(&self, kind: ClipboardType, has_offer: bool) -> (r: OfferDecision)
        ensures
            r == (if kind == ClipboardType::Primary && !self@.observe_primary {
                OfferDecision::Ignore
            } else if !has_offer {
                OfferDecision::ReportEmpty
            } else {
                OfferDecision::Probe
            }),
    {
        if kind == ClipboardType::Primary && !self.observe_primary {
            OfferDecision::Ignore
        } else if !has_offer {
            OfferDecision::ReportEmpty
        } else {
            OfferDecision::Probe
        }
    }
}

} // verus!
