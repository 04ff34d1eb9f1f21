use vstd::prelude::*;
use crate::content::{ClipboardContent, ClipboardType, ContentModel};

verus! {

/// One of the two display-server sides of the bridge.
#[derive(Debug, Clone, Copy, PartialEq, Eq, Structural)]
pub enum Side {
    X11,
    Wayland,
}

impl Side {
    /// The side that the other one forwards to.
    pub open spec fn opposite(self) -> Side {
        match self {
            Side::X11 => Side::Wayland,
            Side::Wayland => Side::X11,
        }
    }
}

/// An observation that an adapter reports: the content now held by the
/// selection of the given kind on its side.
#[derive(Debug)]
pub enum SyncEvent {
    X11ToWayland { content: ClipboardContent, clipboard_type: ClipboardType },
    WaylandToX11 { content: ClipboardContent, clipboard_type: ClipboardType },
}

/// An observation as the reconciler sees it.
pub struct Observation {
    pub side: Side,
    pub kind: ClipboardType,
    pub content: ContentModel,
}

impl View for SyncEvent {
    type V = Observation;

    open spec fn view(&self) -> Observation {
        match self {
            SyncEvent::X11ToWayland { content, clipboard_type } => Observation {
                side: Side::X11,
                kind: *clipboard_type,
                content: content@,
            },
            SyncEvent::WaylandToX11 { content, clipboard_type } => Observation {
                side: Side::Wayland,
                kind: *clipboard_type,
                content: content@,
            },
        }
    }
}

/// A command to the adapter of `target`: claim the selection of the given kind
/// and serve `content` from it.
#[derive(Debug)]
pub struct AssertCommand {
    pub target: Side,
    pub clipboard_type: ClipboardType,
    pub content: ClipboardContent,
}

/// An assert command as the reconciler's model sees it.
pub struct CommandModel {
    pub target: Side,
    pub kind: ClipboardType,
    pub content: ContentModel,
}

impl View for AssertCommand {
    type V = CommandModel;

    open spec fn view(&self) -> CommandModel {
        CommandModel { target: self.target, kind: self.clipboard_type, content: self.content@ }
    }
}

pub open spec fn command_view(c: Option<AssertCommand>) -> Option<CommandModel> {
    match c {
        Some(a) => Some(a@),
        None => None,
    }
}

/// The last content forwarded for each kind, in either direction.
pub struct LedgerModel {
    pub clipboard: Option<ContentModel>,
    pub primary: Option<ContentModel>,
}

impl LedgerModel {
    pub open spec fn get(self, kind: ClipboardType) -> Option<ContentModel> {
        match kind {
            ClipboardType::Clipboard => self.clipboard,
            ClipboardType::Primary => self.primary,
        }
    }

    pub open spec fn set(self, kind: ClipboardType, c: ContentModel) -> LedgerModel {
        match kind {
            ClipboardType::Clipboard => LedgerModel { clipboard: Some(c), ..self },
            ClipboardType::Primary => LedgerModel { primary: Some(c), ..self },
        }
    }
}

/// One step of the reconciler: an observation equal to what was last forwarded
/// for its kind is an echo and is dropped; any other is recorded and forwarded
/// to the opposite side.
pub open spec fn reconcile_step(l: LedgerModel, o: Observation) -> (LedgerModel, Option<CommandModel>) {
    if l.get(o.kind) == Some(o.content) {
        (l, None)
    } else {
        (
            l.set(o.kind, o.content),
            Some(CommandModel { target: o.side.opposite(), kind: o.kind, content: o.content }),
        )
    }
}

/// The ledger and the commands after a sequence of observations, in order.
pub open spec fn reconcile_run(l: LedgerModel, obs: Seq<Observation>) -> (LedgerModel, Seq<
    CommandModel,
>)
    decreases obs.len(),
{
    if obs.len() == 0 {
        (l, Seq::empty())
    } else {
        let (mid, cmds) = reconcile_run(l, obs.drop_last());
        let (next, out) = reconcile_step(mid, obs.last());
        match out {
            Some(c) => (next, cmds.push(c)),
            None => (next, cmds),
        }
    }
}

/// Couples the two adapters: holds, per selection kind, the content it last
/// forwarded, and forwards only true changes.
pub struct Reconciler {
    clipboard: Option<ClipboardContent>,
    primary: Option<ClipboardContent>,
}

pub open spec fn ledger_entry(c: Option<ClipboardContent>) -> Option<ContentModel> {
    match c {
        Some(x) => Some(x@),
        None => None,
    }
}

impl View for Reconciler {
    type V = LedgerModel;

    closed spec fn view(&self) -> LedgerModel {
        LedgerModel { clipboard: ledger_entry(self.clipboard), primary: ledger_entry(self.primary) }
    }
}

impl Reconciler {
    /// A reconciler that has forwarded nothing yet.
    pub fn new() -> (r: Reconciler)
        ensures
            r@ == (LedgerModel { clipboard: None, primary: None }),
    {
        Reconciler { clipboard: None, primary: None }
    }

    /// What was last forwarded for `kind`.
    pub fn ledger(&self, kind: ClipboardType) -> (r: Option<&ClipboardContent>)
        ensures
            match r {
                Some(c) => self@.get(kind) == Some(c@),
                None => self@.get(kind) is None,
            },
    {
        match kind {
            ClipboardType::Clipboard => self.clipboard.as_ref(),
            ClipboardType::Primary => self.primary.as_ref(),
        }
    }

    /// Handles one observation and returns the assert command it causes, if any.
    pub fn observe(&mut self, event: SyncEvent) -> (r: Option<AssertCommand>)
        ensures
            (final(self)@, command_view(r)) == reconcile_step(old(self)@, event@),
    {
        let (side, kind, content) = match event {
            SyncEvent::X11ToWayland { content, clipboard_type } => (
                Side::X11,
                clipboard_type,
                content,
            ),
            SyncEvent::WaylandToX11 { content, clipboard_type } => (
                Side::Wayland,
                clipboard_type,
                content,
            ),
        };
        let target = match side {
            Side::X11 => Side::Wayland,
            Side::Wayland => Side::X11,
        };
        let slot = match kind {
            ClipboardType::Clipboard => &mut self.clipboard,
            ClipboardType::Primary => &mut self.primary,
        };
        let echo = match slot {
            Some(held) => *held == content,
            None => false,
        };
        if echo {
            None
        } else {
            *slot = Some(content.clone());
            Some(AssertCommand { target, clipboard_type: kind, content })
        }
    }
}

/// Echo suppression: once the ledger holds `c` for `kind`, no run of
/// observations that carry `c` whenever they concern `kind` produces a single
/// command for `kind`, to either side, and the ledger keeps `c`.
pub proof fn lemma_echo_suppression(
    l: LedgerModel,
    kind: ClipboardType,
    c: ContentModel,
    obs: Seq<Observation>,
)
    requires
        l.get(kind) == Some(c),
        forall|i: int| 0 <= i < obs.len() && (#[trigger] obs[i]).kind == kind ==> obs[i].content == c,
    ensures
        reconcile_run(l, obs).0.get(kind) == Some(c),
        forall|j: int|
            0 <= j < reconcile_run(l, obs).1.len() ==> (#[trigger] reconcile_run(l, obs).1[j]).kind
                != kind,
    decreases obs.len(),
{
    if obs.len() > 0 {
        let prefix = obs.drop_last();
        assert forall|i: int| 0 <= i < prefix.len() && (#[trigger] prefix[i]).kind == kind implies prefix[i].content
            == c by {
            assert(prefix[i] == obs[i]);
        }
        lemma_echo_suppression(l, kind, c, prefix);
        let o = obs.last();
        assert(o == obs[obs.len() - 1]);
        let (mid, cmds) = reconcile_run(l, prefix);
        if o.kind != kind {
            assert(reconcile_step(mid, o).0.get(kind) == mid.get(kind));
        }
    }
}

/// One-way forward: an observation that is not an echo yields exactly one
/// command, which goes to the opposite side with the same kind and content,
/// and the ledger then holds that content.
pub proof fn lemma_one_way_forward(l: LedgerModel, o: Observation)
    requires
        l.get(o.kind) != Some(o.content),
    ensures
        reconcile_step(l, o).1 == Some(
            CommandModel { target: o.side.opposite(), kind: o.kind, content: o.content },
        ),
        o.side.opposite() != o.side,
        reconcile_step(l, o).0.get(o.kind) == Some(o.content),
{
}

/// An observation that repeats what the ledger holds for its kind yields no
/// command and leaves the ledger as it was.
pub proof fn lemma_echo_dropped(l: LedgerModel, o: Observation)
    requires
        l.get(o.kind) == Some(o.content),
    ensures
        reconcile_step(l, o) == (l, Option::<CommandModel>::None),
{
}

} // verus!
