use vstd::prelude::*;
use vstd::utf8::{decode_utf8, encode_utf8, valid_utf8};
use crate::content::{text_of, ClipboardContent, ClipboardType};
use crate::text::{latin1_chars, latin1_decode, str_eq, utf8_decode};

verus! {

pub const CLIPBOARD_ATOM: &'static str = "CLIPBOARD";

pub const PRIMARY_ATOM: &'static str = "PRIMARY";

pub const TARGETS_ATOM: &'static str = "TARGETS";

pub const MULTIPLE_ATOM: &'static str = "MULTIPLE";

pub const INCR_ATOM: &'static str = "INCR";

pub const UTF8_STRING_ATOM: &'static str = "UTF8_STRING";

pub const TEXT_ATOM: &'static str = "TEXT";

pub const STRING_ATOM: &'static str = "STRING";

pub const TEXT_PLAIN_UTF8_ATOM: &'static str = "text/plain;charset=utf-8";

pub const TEXT_PLAIN_ATOM: &'static str = "text/plain";

/// The timestamp that asks the server to use its own current time.
pub const CURRENT_TIME: u32 = 0;

/// How many times a pull polls for the owner's answer before it gives up on a
/// target.
pub const POLLS_PER_TARGET: u32 = 10;

/// The number of targets a pull tries, in order: `UTF8_STRING`, `text/plain`,
/// `STRING`.
pub const PULL_TARGETS: usize = 3;

/// The X protocol's `None` atom and window.
pub open spec fn none_atom() -> u32 {
    0
}

/// The predefined atom `ATOM`, the type of a list of atoms.
pub open spec fn atom_type_atom() -> u32 {
    4
}

/// The predefined atom `STRING`.
pub open spec fn atom_type_string() -> u32 {
    31
}

/// Relies on x11rb's `AtomEnum::NONE`, the protocol's `None`, numbered zero.
#[verifier::external_body]
fn none_atom_value() -> (r: u32)
    ensures
        r == none_atom(),
{
    x11rb::protocol::xproto::AtomEnum::NONE.into()
}

/// Relies on x11rb's `AtomEnum::ATOM`, the predefined atom numbered four.
#[verifier::external_body]
fn atom_type_atom_value() -> (r: u32)
    ensures
        r == atom_type_atom(),
{
    x11rb::protocol::xproto::AtomEnum::ATOM.into()
}

/// Relies on x11rb's `AtomEnum::STRING`, the predefined atom numbered 31.
#[verifier::external_body]
fn atom_type_string_value() -> (r: u32)
    ensures
        r == atom_type_string(),
{
    x11rb::protocol::xproto::AtomEnum::STRING.into()
}

/// The atoms that the adapter interns at start-up.
#[derive(Debug, Clone, Copy)]
pub struct XAtoms {
    pub clipboard: u32,
    pub primary: u32,
    pub targets: u32,
    pub multiple: u32,
    pub incr: u32,
    pub utf8_string: u32,
    pub text: u32,
    pub string: u32,
    pub text_plain_utf8: u32,
    pub text_plain: u32,
}

impl XAtoms {
    /// The ten atoms in the order of their names above.
    pub open spec fn all(self) -> Seq<u32> {
        seq![
            self.clipboard,
            self.primary,
            self.targets,
            self.multiple,
            self.incr,
            self.utf8_string,
            self.text,
            self.string,
            self.text_plain_utf8,
            self.text_plain,
        ]
    }

    /// What interning guarantees: distinct names get distinct atoms, and no
    /// atom is `None`.
    pub open spec fn wf(self) -> bool {
        &&& self.all().no_duplicates()
        &&& forall|i: int| 0 <= i < 10 ==> #[trigger] self.all()[i] != none_atom()
    }
}

/// The atom interned for `name`, for the names that the adapter interns.
pub open spec fn atom_named(a: XAtoms, name: Seq<char>) -> Option<u32> {
    if name == CLIPBOARD_ATOM@ {
        Some(a.clipboard)
    } else if name == PRIMARY_ATOM@ {
        Some(a.primary)
    } else if name == TARGETS_ATOM@ {
        Some(a.targets)
    } else if name == MULTIPLE_ATOM@ {
        Some(a.multiple)
    } else if name == INCR_ATOM@ {
        Some(a.incr)
    } else if name == UTF8_STRING_ATOM@ {
        Some(a.utf8_string)
    } else if name == TEXT_ATOM@ {
        Some(a.text)
    } else if name == STRING_ATOM@ {
        Some(a.string)
    } else if name == TEXT_PLAIN_UTF8_ATOM@ {
        Some(a.text_plain_utf8)
    } else if name == TEXT_PLAIN_ATOM@ {
        Some(a.text_plain)
    } else {
        None
    }
}

/// The selection atom of a kind.
pub open spec fn selection_of(a: XAtoms, kind: ClipboardType) -> u32 {
    match kind {
        ClipboardType::Clipboard => a.clipboard,
        ClipboardType::Primary => a.primary,
    }
}

/// The kind that a selection atom names, `CLIPBOARD` first.
pub open spec fn kind_of(a: XAtoms, selection: u32) -> Option<ClipboardType> {
    if selection == a.clipboard {
        Some(ClipboardType::Clipboard)
    } else if selection == a.primary {
        Some(ClipboardType::Primary)
    } else {
        None
    }
}

/// The target a pull asks for at the given attempt.
pub open spec fn pull_target(a: XAtoms, attempt: int) -> u32 {
    if attempt == 0 {
        a.utf8_string
    } else if attempt == 1 {
        a.text_plain
    } else {
        a.string
    }
}

/// Which timestamp the adapter puts on its ownership claims and conversions.
#[derive(Debug, Clone, Copy, PartialEq, Eq, Structural)]
pub enum TimestampPolicy {
    /// `CURRENT_TIME`: the server's own time.
    CurrentTime,
    /// The time of the last event the window received.
    LastEventTime,
}

/// What the X adapter holds: its window, its atoms, the text it serves for
/// each kind it owns, and what it needs to stamp its requests.
pub struct XModel {
    pub window: u32,
    pub atoms: XAtoms,
    pub clipboard: Option<Seq<char>>,
    pub primary: Option<Seq<char>>,
    pub policy: TimestampPolicy,
    pub last_time: u32,
}

impl XModel {
    pub open spec fn snapshot(self, kind: ClipboardType) -> Option<Seq<char>> {
        match kind {
            ClipboardType::Clipboard => self.clipboard,
            ClipboardType::Primary => self.primary,
        }
    }

    /// The timestamp for the next claim or conversion.
    pub open spec fn stamp(self) -> u32 {
        match self.policy {
            TimestampPolicy::CurrentTime => CURRENT_TIME,
            TimestampPolicy::LastEventTime => self.last_time,
        }
    }

    pub open spec fn with_snapshot(self, kind: ClipboardType, t: Option<Seq<char>>) -> XModel {
        match kind {
            ClipboardType::Clipboard => XModel { clipboard: t, ..self },
            ClipboardType::Primary => XModel { primary: t, ..self },
        }
    }
}

/// What asserting `c` for `kind` does to the X adapter: text (or a binary
/// value that holds text) becomes the snapshot; `Empty` clears it; a binary
/// value without text leaves everything as it was.
pub open spec fn x_assert(m: XModel, kind: ClipboardType, c: crate::content::ContentModel) -> XModel {
    match text_of(c) {
        Some(t) => m.with_snapshot(kind, Some(t)),
        None => if c is Empty {
            m.with_snapshot(kind, None)
        } else {
            m
        },
    }
}

/// The claim of a selection: write `data` with type `property_type` to
/// `property` on the adapter's window, then become owner of `selection` as of
/// `time`.
#[derive(Debug)]
pub struct OwnershipClaim {
    pub selection: u32,
    pub time: u32,
    pub property: u32,
    pub property_type: u32,
    pub data: Vec<u8>,
}

/// A `SelectionRequest` from another X client.
#[derive(Debug, Clone, Copy)]
pub struct SelectionRequest {
    pub requestor: u32,
    pub selection: u32,
    pub target: u32,
    pub property: u32,
    pub time: u32,
}

/// What to write to the requestor's property before the `SelectionNotify`.
#[derive(Debug)]
pub enum ReplyData {
    /// A list of atoms, written 32 bits each with the given type.
    Atoms { property_type: u32, atoms: Vec<u32> },
    /// Bytes, written 8 bits each with the given type.
    Bytes { property_type: u32, data: Vec<u8> },
    /// Read the atom pairs from the requestor's property and set each pair's
    /// property to the empty value of the given type.
    ClearPairs { property_type: u32 },
    /// Nothing to write.
    Nothing,
}

/// The answer to a selection request: what to write, then a `SelectionNotify`
/// to the requestor that names `property` (`None` on refusal).
#[derive(Debug)]
pub struct SelectionReply {
    pub data: ReplyData,
    pub property: u32,
}

pub enum ReplyDataModel {
    Atoms { property_type: u32, atoms: Seq<u32> },
    Bytes { property_type: u32, data: Seq<u8> },
    ClearPairs { property_type: u32 },
    Nothing,
}

impl View for SelectionReply {
    type V = (ReplyDataModel, u32);

    open spec fn view(&self) -> (ReplyDataModel, u32) {
        let d = match self.data {
            ReplyData::Atoms { property_type, atoms } => ReplyDataModel::Atoms {
                property_type,
                atoms: atoms@,
            },
            ReplyData::Bytes { property_type, data } => ReplyDataModel::Bytes {
                property_type,
                data: data@,
            },
            ReplyData::ClearPairs { property_type } => ReplyDataModel::ClearPairs { property_type },
            ReplyData::Nothing => ReplyDataModel::Nothing,
        };
        (d, self.property)
    }
}

/// Whether a request asks for one of the text targets the adapter serves.
pub open spec fn is_text_target(a: XAtoms, target: u32) -> bool {
    target == a.utf8_string || target == a.string || target == a.text
}

/// The answer to a selection request. `TARGETS` lists the supported targets;
/// `MULTIPLE` clears each requested property; a text target gets the
/// snapshot's UTF-8 bytes, typed `UTF8_STRING`; anything else, or a text
/// target with no snapshot, is refused.
pub open spec fn x_reply(m: XModel, req: SelectionRequest) -> (ReplyDataModel, u32) {
    let a = m.atoms;
    if req.target == a.targets {
        (
            ReplyDataModel::Atoms {
                property_type: atom_type_atom(),
                atoms: seq![a.utf8_string, a.string, a.text, a.targets],
            },
            req.property,
        )
    } else if req.target == a.multiple {
        (ReplyDataModel::ClearPairs { property_type: atom_type_string() }, req.property)
    } else if is_text_target(a, req.target) {
        match kind_of(a, req.selection) {
            Some(kind) => match m.snapshot(kind) {
                Some(t) => (
                    ReplyDataModel::Bytes { property_type: a.utf8_string, data: encode_utf8(t) },
                    req.property,
                ),
                None => (ReplyDataModel::Nothing, none_atom()),
            },
            None => (ReplyDataModel::Nothing, none_atom()),
        }
    } else {
        (ReplyDataModel::Nothing, none_atom())
    }
}

/// What an XFixes selection-owner notification asks of the adapter.
#[derive(Debug, Clone, Copy, PartialEq, Eq, Structural)]
pub enum SelectionChange {
    /// Our own window became owner, or the selection is not one we track.
    Ignore,
    /// The selection has no owner: report it as empty.
    Cleared(ClipboardType),
    /// Another client owns the selection: pull its content.
    NewOwner(ClipboardType),
}

/// What a property read during a pull yields.
#[derive(Debug)]
pub enum Decoded {
    /// The text it holds.
    Text(String),
    /// Declared as UTF-8 but not valid UTF-8: the observation is dropped.
    Malformed,
    /// Missing, empty, or of a type the adapter does not read: try the next
    /// target.
    Unusable,
}

pub enum DecodedModel {
    Text(Seq<char>),
    Malformed,
    Unusable,
}

impl View for Decoded {
    type V = DecodedModel;

    open spec fn view(&self) -> DecodedModel {
        match self {
            Decoded::Text(s) => DecodedModel::Text(s@),
            Decoded::Malformed => DecodedModel::Malformed,
            Decoded::Unusable => DecodedModel::Unusable,
        }
    }
}

/// How a property value is read by its type: `UTF8_STRING` and `text/plain`
/// as UTF-8, `STRING` as Latin-1.
pub open spec fn decode_spec(a: XAtoms, property_type: u32, value: Seq<u8>) -> DecodedModel {
    if property_type == none_atom() || value.len() == 0 {
        DecodedModel::Unusable
    } else if property_type == a.utf8_string || property_type == a.text_plain {
        if valid_utf8(value) {
            DecodedModel::Text(decode_utf8(value))
        } else {
            DecodedModel::Malformed
        }
    } else if property_type == a.string {
        DecodedModel::Text(latin1_chars(value))
    } else {
        DecodedModel::Unusable
    }
}

/// The decisions of the X11 side: which selections it serves, with what, and
/// how it answers the server's events.
pub struct X11State {
    atoms: XAtoms,
    pub window: u32,
    clipboard_content: Option<String>,
    primary_content: Option<String>,
    policy: TimestampPolicy,
    last_time: u32,
}

pub open spec fn snapshot_view(s: Option<String>) -> Option<Seq<char>> {
    match s {
        Some(t) => Some(t@),
        None => None,
    }
}

impl View for X11State {
    type V = XModel;

    closed spec fn view(&self) -> XModel {
        XModel {
            window: self.window,
            atoms: self.atoms,
            clipboard: snapshot_view(self.clipboard_content),
            primary: snapshot_view(self.primary_content),
            policy: self.policy,
            last_time: self.last_time,
        }
    }
}

impl X11State {
    /// An adapter for `window`, owning nothing yet, that stamps its requests
    /// with `CURRENT_TIME`.
    pub fn new(window: u32, atoms: XAtoms) -> (r: X11State)
        ensures
            r@ == (XModel {
                window,
                atoms,
                clipboard: None,
                primary: None,
                policy: TimestampPolicy::CurrentTime,
                last_time: CURRENT_TIME,
            }),
    {
        X11State {
            atoms,
            window,
            clipboard_content: None,
            primary_content: None,
            policy: TimestampPolicy::CurrentTime,
            last_time: CURRENT_TIME,
        }
    }

    /// Chooses how claims and conversions are stamped.
    pub fn set_timestamp_policy(&mut self, policy: TimestampPolicy)
        ensures
            final(self)@ == (XModel { policy, ..old(self)@ }),
    {
        self.policy = policy;
    }

    /// Records the time of an event the window received.
    pub fn note_event_time(&mut self, time: u32)
        ensures
            final(self)@ == (XModel { last_time: time, ..old(self)@ }),
    {
        self.last_time = time;
    }

    /// The timestamp for the next claim or conversion.
    pub fn timestamp(&self) -> (r: u32)
        ensures
            r == self@.stamp(),
    {
        match self.policy {
            TimestampPolicy::CurrentTime => CURRENT_TIME,
            TimestampPolicy::LastEventTime => self.last_time,
        }
    }

    /// The interned atoms.
    pub fn atoms(&self) -> (r: XAtoms)
        ensures
            r == self@.atoms,
    {
        self.atoms
    }

    /// The text served for `kind`, if the adapter holds any.
    pub fn snapshot(&self, kind: ClipboardType) -> (r: Option<&String>)
        ensures
            match r {
                Some(t) => self@.snapshot(kind) == Some(t@),
                None => self@.snapshot(kind) is None,
            },
    {
        match kind {
            ClipboardType::Clipboard => self.clipboard_content.as_ref(),
            ClipboardType::Primary => self.primary_content.as_ref(),
        }
    }

    /// The atom interned for `name`.
    pub fn get_atom(&self, name: &str) -> (r: Option<u32>)
        ensures
            r == atom_named(self@.atoms, name@),
    {
        let a = self.atoms;
        if str_eq(name, CLIPBOARD_ATOM) {
            Some(a.clipboard)
        } else if str_eq(name, PRIMARY_ATOM) {
            Some(a.primary)
        } else if str_eq(name, TARGETS_ATOM) {
            Some(a.targets)
        } else if str_eq(name, MULTIPLE_ATOM) {
            Some(a.multiple)
        } else if str_eq(name, INCR_ATOM) {
            Some(a.incr)
        } else if str_eq(name, UTF8_STRING_ATOM) {
            Some(a.utf8_string)
        } else if str_eq(name, TEXT_ATOM) {
            Some(a.text)
        } else if str_eq(name, STRING_ATOM) {
            Some(a.string)
        } else if str_eq(name, TEXT_PLAIN_UTF8_ATOM) {
            Some(a.text_plain_utf8)
        } else if str_eq(name, TEXT_PLAIN_ATOM) {
            Some(a.text_plain)
        } else {
            None
        }
    }

    /// The selection atom of `kind`.
    pub fn selection_atom(&self, kind: ClipboardType) -> (r: u32)
        ensures
            r == selection_of(self@.atoms, kind),
    {
        match kind {
            ClipboardType::Clipboard => self.atoms.clipboard,
            ClipboardType::Primary => self.atoms.primary,
        }
    }

    /// The kind that `selection` names, if it is one the adapter tracks.
    pub fn kind_of_selection(&self, selection: u32) -> (r: Option<ClipboardType>)
        ensures
            r == kind_of(self@.atoms, selection),
    {
        if selection == self.atoms.clipboard {
            Some(ClipboardType::Clipboard)
        } else if selection == self.atoms.primary {
            Some(ClipboardType::Primary)
        } else {
            None
        }
    }

    /// Takes an assert command: stores what is to be served for `kind` and
    /// returns the claim to make on the server, if any.
    pub fn set_clipboard_content(&mut self, content: &ClipboardContent, kind: ClipboardType) -> (r:
        Option<OwnershipClaim>)
        ensures
            final(self)@ == x_assert(old(self)@, kind, content@),
            match text_of(content@) {
                Some(t) => r is Some && r->0.selection == selection_of(old(self)@.atoms, kind)
                    && r->0.time == old(self)@.stamp()
                    && r->0.property == old(self)@.atoms.utf8_string && r->0.property_type
                    == old(self)@.atoms.utf8_string && r->0.data@ == encode_utf8(t),
                None => r is None,
            },
    {
        match content.as_text() {
            Some(text) => {
                let data = crate::text::utf8_encode(text.as_str());
                match kind {
                    ClipboardType::Clipboard => self.clipboard_content = Some(text),
                    ClipboardType::Primary => self.primary_content = Some(text),
                }
                Some(
                    OwnershipClaim {
                        selection: self.selection_atom(kind),
                        time: self.timestamp(),
                        property: self.atoms.utf8_string,
                        property_type: self.atoms.utf8_string,
                        data,
                    },
                )
            },
            None => {
                if let ClipboardContent::Empty = content {
                    match kind {
                        ClipboardType::Clipboard => self.clipboard_content = None,
                        ClipboardType::Primary => self.primary_content = None,
                    }
                }
                None
            },
        }
    }

    /// Answers a `SelectionRequest` from another client.
    pub fn handle_selection_request(&self, req: &SelectionRequest) -> (r: SelectionReply)
        ensures
            r@ == x_reply(self@, *req),
    {
        let a = self.atoms;
        if req.target == a.targets {
            let atoms = vec![a.utf8_string, a.string, a.text, a.targets];
            proof {
                assert(atoms@ =~= seq![a.utf8_string, a.string, a.text, a.targets]);
            }
            SelectionReply {
                data: ReplyData::Atoms { property_type: atom_type_atom_value(), atoms },
                property: req.property,
            }
        } else if req.target == a.multiple {
            SelectionReply {
                data: ReplyData::ClearPairs { property_type: atom_type_string_value() },
                property: req.property,
            }
        } else if req.target == a.utf8_string || req.target == a.string || req.target == a.text {
            let held = match self.kind_of_selection(req.selection) {
                Some(kind) => self.snapshot(kind),
                None => None,
            };
            match held {
                Some(text) => SelectionReply {
                    data: ReplyData::Bytes {
                        property_type: a.utf8_string,
                        data: crate::text::utf8_encode(text.as_str()),
                    },
                    property: req.property,
                },
                None => SelectionReply { data: ReplyData::Nothing, property: none_atom_value() },
            }
        } else {
            SelectionReply { data: ReplyData::Nothing, property: none_atom_value() }
        }
    }

    /// Takes a `SelectionClear`: the adapter no longer owns `selection`, so it
    /// stops serving it. Nothing is reported; the owner change notification
    /// that follows does that.
    pub fn handle_selection_clear(&mut self, selection: u32)
        ensures
            match kind_of(old(self)@.atoms, selection) {
                Some(kind) => final(self)@ == old(self)@.with_snapshot(kind, None),
                None => final(self)@ == old(self)@,
            },
    {
        match self.kind_of_selection(selection) {
            Some(ClipboardType::Clipboard) => self.clipboard_content = None,
            Some(ClipboardType::Primary) => self.primary_content = None,
            None => {},
        }
    }

    /// Reads an XFixes selection-owner notification.
    pub fn handle_xfixes_selection_notify(&self, selection: u32, owner: u32) -> (r:
        SelectionChange)
        ensures
            r == (match kind_of(self@.atoms, selection) {
                None => SelectionChange::Ignore,
                Some(kind) => if owner == self@.window {
                    SelectionChange::Ignore
                } else if owner == none_atom() {
                    SelectionChange::Cleared(kind)
                } else {
                    SelectionChange::NewOwner(kind)
                },
            }),
    {
        match self.kind_of_selection(selection) {
            None => SelectionChange::Ignore,
            Some(kind) => {
                if owner == self.window {
                    SelectionChange::Ignore
                } else if owner == none_atom_value() {
                    SelectionChange::Cleared(kind)
                } else {
                    SelectionChange::NewOwner(kind)
                }
            },
        }
    }

    /// Begins pulling the content of `kind` from its owner.
    pub fn request_clipboard_content(&self, kind: ClipboardType) -> (r: (PullSession, PullAction))
        ensures
            r.0@ == (PullModel {
                atoms: self@.atoms,
                kind,
                attempt: 0,
                polls: 0,
                phase: PullPhase::AwaitNotify,
                stream_type: none_atom(),
                buffer: Seq::empty(),
            }),
            r.1@ == convert_for(r.0@, 0),
    {
        PullSession::start(self.atoms, kind)
    }

    /// Takes the owner's `SelectionNotify` for the pull in progress.
    pub fn handle_selection_notify(&self, pull: &mut PullSession, property: u32) -> (r: PullAction)
        ensures
            (final(pull)@, r@) == pull_step(old(pull)@, PullEventModel::Notified { property }),
    {
        pull.step(PullEvent::Notified { property })
    }

    /// Takes a new chunk of an incremental transfer for the pull in progress.
    pub fn handle_property_notify(
        &self,
        pull: &mut PullSession,
        property_type: u32,
        value: Vec<u8>,
    ) -> (r: PullAction)
        ensures
            (final(pull)@, r@) == pull_step(
                old(pull)@,
                PullEventModel::Chunk { property_type, value: value@ },
            ),
    {
        pull.step(PullEvent::Chunk { property_type, value })
    }

    /// Reads a property value that an owner wrote for a pull.
    pub fn decode_property(&self, property_type: u32, value: &Vec<u8>) -> (r: Decoded)
        ensures
            r@ == decode_spec(self@.atoms, property_type, value@),
    {
        decode_value(self.atoms, property_type, value)
    }
}

/// Reads a property value by its type.
pub fn decode_value(a: XAtoms, property_type: u32, value: &Vec<u8>) -> (r: Decoded)
    ensures
        r@ == decode_spec(a, property_type, value@),
{
    if property_type == none_atom_value() || value.len() == 0 {
        Decoded::Unusable
    } else if property_type == a.utf8_string || property_type == a.text_plain {
        match utf8_decode(vstd::slice::slice_to_vec(value.as_slice())) {
            Some(s) => Decoded::Text(s),
            None => Decoded::Malformed,
        }
    } else if property_type == a.string {
        Decoded::Text(latin1_decode(value.as_slice()))
    } else {
        Decoded::Unusable
    }
}

/// The stage a pull is in.
#[derive(Debug, Clone, Copy, PartialEq, Eq, Structural)]
pub enum PullPhase {
    /// Waiting for the owner's `SelectionNotify`.
    AwaitNotify,
    /// Waiting for the scratch property to be read.
    AwaitProperty,
    /// Collecting an incremental (`INCR`) transfer chunk by chunk.
    Streaming,
    /// Over: nothing more is asked.
    Done,
}

/// What happened, as far as a pull is concerned.
#[derive(Debug)]
pub enum PullEvent {
    /// The owner answered the current conversion; `property` is `None` when it
    /// refused.
    Notified { property: u32 },
    /// A poll brought nothing for this pull.
    Idle,
    /// The scratch property was read.
    PropertyRead { property_type: u32, value: Vec<u8> },
    /// During an incremental transfer, the next chunk was read from the
    /// scratch property; an empty chunk ends the transfer.
    Chunk { property_type: u32, value: Vec<u8> },
}

/// What a pull asks of the connection next. After each read of the scratch
/// property the property is deleted, which also starts an incremental
/// transfer.
#[derive(Debug)]
pub enum PullAction {
    /// Ask the owner of `selection` to convert it to `target` into the scratch
    /// property numbered `scratch` on the adapter's window.
    Convert { selection: u32, target: u32, scratch: usize },
    /// Read the scratch property numbered `scratch`.
    Read { scratch: usize },
    /// Keep polling.
    Wait,
    /// The pull is over; report `text` as observed if there is one.
    Finish { text: Option<String> },
}

pub enum PullEventModel {
    Notified { property: u32 },
    Idle,
    PropertyRead { property_type: u32, value: Seq<u8> },
    Chunk { property_type: u32, value: Seq<u8> },
}

pub enum PullActionModel {
    Convert { selection: u32, target: u32, scratch: nat },
    Read { scratch: nat },
    Wait,
    Finish { text: Option<Seq<char>> },
}

impl View for PullEvent {
    type V = PullEventModel;

    open spec fn view(&self) -> PullEventModel {
        match self {
            PullEvent::Notified { property } => PullEventModel::Notified { property: *property },
            PullEvent::Idle => PullEventModel::Idle,
            PullEvent::PropertyRead { property_type, value } => PullEventModel::PropertyRead {
                property_type: *property_type,
                value: value@,
            },
            PullEvent::Chunk { property_type, value } => PullEventModel::Chunk {
                property_type: *property_type,
                value: value@,
            },
        }
    }
}

impl View for PullAction {
    type V = PullActionModel;

    open spec fn view(&self) -> PullActionModel {
        match self {
            PullAction::Convert { selection, target, scratch } => PullActionModel::Convert {
                selection: *selection,
                target: *target,
                scratch: *scratch as nat,
            },
            PullAction::Read { scratch } => PullActionModel::Read { scratch: *scratch as nat },
            PullAction::Wait => PullActionModel::Wait,
            PullAction::Finish { text } => PullActionModel::Finish {
                text: match text {
                    Some(t) => Some(t@),
                    None => None,
                },
            },
        }
    }
}

/// The state of a pull of one selection's content from its owner.
pub struct PullModel {
    pub atoms: XAtoms,
    pub kind: ClipboardType,
    pub attempt: nat,
    pub polls: nat,
    pub phase: PullPhase,
    pub stream_type: u32,
    pub buffer: Seq<u8>,
}

/// The conversion that begins attempt `attempt`.
pub open spec fn convert_for(m: PullModel, attempt: nat) -> PullActionModel {
    PullActionModel::Convert {
        selection: selection_of(m.atoms, m.kind),
        target: pull_target(m.atoms, attempt as int),
        scratch: attempt,
    }
}

/// Gives up on the current target: the next one is tried, or the pull ends
/// with nothing once all have failed.
pub open spec fn pull_advance(m: PullModel) -> (PullModel, PullActionModel) {
    if m.attempt + 1 < PULL_TARGETS {
        let next = (m.attempt + 1) as nat;
        (
            PullModel {
                attempt: next,
                polls: 0,
                phase: PullPhase::AwaitNotify,
                stream_type: none_atom(),
                buffer: Seq::empty(),
                ..m
            },
            convert_for(m, next),
        )
    } else {
        (PullModel { phase: PullPhase::Done, ..m }, PullActionModel::Finish { text: None })
    }
}

/// Acts on a decoded value: text ends the pull with it; malformed text ends it
/// with nothing; an unusable value moves on to the next target.
pub open spec fn pull_settle(m: PullModel, d: DecodedModel) -> (PullModel, PullActionModel) {
    match d {
        DecodedModel::Text(t) => (
            PullModel { phase: PullPhase::Done, ..m },
            PullActionModel::Finish { text: Some(t) },
        ),
        DecodedModel::Malformed => (
            PullModel { phase: PullPhase::Done, ..m },
            PullActionModel::Finish { text: None },
        ),
        DecodedModel::Unusable => pull_advance(m),
    }
}

/// Counts a poll that brought nothing; the `POLLS_PER_TARGET`-th gives up on
/// the target (on the whole transfer, when streaming).
pub open spec fn pull_idle(m: PullModel) -> (PullModel, PullActionModel) {
    if m.polls + 1 >= POLLS_PER_TARGET {
        if m.phase == PullPhase::Streaming {
            (PullModel { phase: PullPhase::Done, ..m }, PullActionModel::Finish { text: None })
        } else {
            pull_advance(m)
        }
    } else {
        (PullModel { polls: m.polls + 1, ..m }, PullActionModel::Wait)
    }
}

/// One step of a pull.
pub open spec fn pull_step(m: PullModel, e: PullEventModel) -> (PullModel, PullActionModel) {
    match m.phase {
        PullPhase::Done => (m, PullActionModel::Wait),
        PullPhase::AwaitNotify => match e {
            PullEventModel::Notified { property } => if property == none_atom() {
                pull_advance(m)
            } else {
                (
                    PullModel { phase: PullPhase::AwaitProperty, ..m },
                    PullActionModel::Read { scratch: m.attempt },
                )
            },
            PullEventModel::Idle => pull_idle(m),
            _ => (m, PullActionModel::Wait),
        },
        PullPhase::AwaitProperty => match e {
            PullEventModel::PropertyRead { property_type, value } => if property_type
                == m.atoms.incr {
                (
                    PullModel {
                        phase: PullPhase::Streaming,
                        polls: 0,
                        stream_type: none_atom(),
                        buffer: Seq::empty(),
                        ..m
                    },
                    PullActionModel::Wait,
                )
            } else {
                pull_settle(m, decode_spec(m.atoms, property_type, value))
            },
            PullEventModel::Idle => pull_idle(m),
            _ => (m, PullActionModel::Wait),
        },
        PullPhase::Streaming => match e {
            PullEventModel::Chunk { property_type, value } => if value.len() == 0 {
                pull_settle(m, decode_spec(m.atoms, m.stream_type, m.buffer))
            } else {
                (
                    PullModel {
                        polls: 0,
                        stream_type: property_type,
                        buffer: m.buffer + value,
                        ..m
                    },
                    PullActionModel::Wait,
                )
            },
            PullEventModel::Idle => pull_idle(m),
            _ => (m, PullActionModel::Wait),
        },
    }
}

/// A pull in progress: the adapter converts the selection to each text target
/// in turn, reads what the owner wrote, follows incremental transfers, and
/// stops at the first text it can decode.
pub struct PullSession {
    atoms: XAtoms,
    kind: ClipboardType,
    attempt: usize,
    polls: u32,
    phase: PullPhase,
    stream_type: u32,
    buffer: Vec<u8>,
}

impl View for PullSession {
    type V = PullModel;

    closed spec fn view(&self) -> PullModel {
        PullModel {
            atoms: self.atoms,
            kind: self.kind,
            attempt: self.attempt as nat,
            polls: self.polls as nat,
            phase: self.phase,
            stream_type: self.stream_type,
            buffer: self.buffer@,
        }
    }
}

impl PullSession {
    #[verifier::type_invariant]
    spec fn bounded(self) -> bool {
        &&& self.attempt < PULL_TARGETS
        &&& self.polls < POLLS_PER_TARGET
    }

    /// Begins a pull of `kind`: the first conversion asks for `UTF8_STRING`.
    pub fn start(atoms: XAtoms, kind: ClipboardType) -> (r: (PullSession, PullAction))
        ensures
            r.0@ == (PullModel {
                atoms,
                kind,
                attempt: 0,
                polls: 0,
                phase: PullPhase::AwaitNotify,
                stream_type: none_atom(),
                buffer: Seq::empty(),
            }),
            r.1@ == convert_for(r.0@, 0),
    {
        let session = PullSession {
            atoms,
            kind,
            attempt: 0,
            polls: 0,
            phase: PullPhase::AwaitNotify,
            stream_type: none_atom_value(),
            buffer: Vec::new(),
        };
        let action = session.convert(0);
        (session, action)
    }

    /// The kind being pulled.
    pub fn kind(&self) -> (r: ClipboardType)
        ensures
            r == self@.kind,
    {
        self.kind
    }

    /// The stage the pull is in.
    pub fn phase(&self) -> (r: PullPhase)
        ensures
            r == self@.phase,
    {
        self.phase
    }

    /// Whether the pull is over.
    pub fn is_done(&self) -> (r: bool)
        ensures
            r == (self@.phase == PullPhase::Done),
    {
        self.phase == PullPhase::Done
    }

    fn convert(&self, attempt: usize) -> (r: PullAction)
        ensures
            r@ == convert_for(self@, attempt as nat),
    {
        let selection = match self.kind {
            ClipboardType::Clipboard => self.atoms.clipboard,
            ClipboardType::Primary => self.atoms.primary,
        };
        let target = if attempt == 0 {
            self.atoms.utf8_string
        } else if attempt == 1 {
            self.atoms.text_plain
        } else {
            self.atoms.string
        };
        PullAction::Convert { selection, target, scratch: attempt }
    }

    fn advance(&mut self) -> (r: PullAction)
        ensures
            (final(self)@, r@) == pull_advance(old(self)@),
    {
        proof {
            use_type_invariant(&*self);
        }
        if self.attempt + 1 < PULL_TARGETS {
            let next = self.attempt + 1;
            self.attempt = next;
            self.polls = 0;
            self.phase = PullPhase::AwaitNotify;
            self.stream_type = none_atom_value();
            self.buffer = Vec::new();
            self.convert(next)
        } else {
            self.phase = PullPhase::Done;
            PullAction::Finish { text: None }
        }
    }

    fn settle(&mut self, d: Decoded) -> (r: PullAction)
        ensures
            (final(self)@, r@) == pull_settle(old(self)@, d@),
    {
        proof {
            use_type_invariant(&*self);
        }
        match d {
            Decoded::Text(t) => {
                self.phase = PullPhase::Done;
                PullAction::Finish { text: Some(t) }
            },
            Decoded::Malformed => {
                self.phase = PullPhase::Done;
                PullAction::Finish { text: None }
            },
            Decoded::Unusable => self.advance(),
        }
    }

    fn idle(&mut self) -> (r: PullAction)
        ensures
            (final(self)@, r@) == pull_idle(old(self)@),
    {
        proof {
            use_type_invariant(&*self);
        }
        if self.polls + 1 >= POLLS_PER_TARGET {
            if self.phase == PullPhase::Streaming {
                self.phase = PullPhase::Done;
                PullAction::Finish { text: None }
            } else {
                self.advance()
            }
        } else {
            self.polls = self.polls + 1;
            PullAction::Wait
        }
    }

    /// Takes one event and says what to do next.
    pub fn step(&mut self, event: PullEvent) -> (r: PullAction)
        ensures
            (final(self)@, r@) == pull_step(old(self)@, event@),
    {
        proof {
            use_type_invariant(&*self);
        }
        match self.phase {
            PullPhase::Done => PullAction::Wait,
            PullPhase::AwaitNotify => match event {
                PullEvent::Notified { property } => {
                    if property == none_atom_value() {
                        self.advance()
                    } else {
                        self.phase = PullPhase::AwaitProperty;
                        PullAction::Read { scratch: self.attempt }
                    }
                },
                PullEvent::Idle => self.idle(),
                _ => PullAction::Wait,
            },
            PullPhase::AwaitProperty => match event {
                PullEvent::PropertyRead { property_type, value } => {
                    if property_type == self.atoms.incr {
                        self.phase = PullPhase::Streaming;
                        self.polls = 0;
                        self.stream_type = none_atom_value();
                        self.buffer = Vec::new();
                        PullAction::Wait
                    } else {
                        let d = decode_value(self.atoms, property_type, &value);
                        self.settle(d)
                    }
                },
                PullEvent::Idle => self.idle(),
                _ => PullAction::Wait,
            },
            PullPhase::Streaming => match event {
                PullEvent::Chunk { property_type, value } => {
                    if value.len() == 0 {
                        let d = decode_value(self.atoms, self.stream_type, &self.buffer);
                        self.settle(d)
                    } else {
                        let mut value = value;
                        let mut buffer: Vec<u8> = Vec::new();
                        std::mem::swap(&mut self.buffer, &mut buffer);
                        buffer.append(&mut value);
                        self.buffer = buffer;
                        self.polls = 0;
                        self.stream_type = property_type;
                        PullAction::Wait
                    }
                },
                PullEvent::Idle => self.idle(),
                _ => PullAction::Wait,
            },
        }
    }
}

/// The properties named in a `MULTIPLE` request's list of (target, property)
/// pairs, in order; an odd atom at the end is no pair and is skipped.
pub fn multiple_properties(pairs: &Vec<u32>) -> (r: Vec<u32>)
    ensures
        r@.len() == pairs@.len() / 2,
        forall|j: int| 0 <= j < r@.len() ==> r@[j] == pairs@[2 * j + 1],
{
    let mut r: Vec<u32> = Vec::new();
    let mut i: usize = 0;
    while i + 1 < pairs.len()
        invariant
            i % 2 == 0,
            i <= pairs@.len(),
            r@.len() == i / 2,
            forall|j: int| 0 <= j < r@.len() ==> r@[j] == pairs@[2 * j + 1],
        decreases pairs@.len() - i,
    {
        r.push(pairs[i + 1]);
        i = i + 2;
    }
    r
}

} // verus!
