use vstd::prelude::*;
use vstd::utf8::{decode_utf8, encode_utf8, encode_utf8_decode_utf8, encode_utf8_valid_utf8};
use crate::content::{ClipboardType, ContentModel, TEXT_PLAIN_UTF8_MIME};
use crate::reconciler::{reconcile_step, CommandModel, LedgerModel, Observation, Side};
use crate::wayland::{assert_plan, first_text, probe_map, probes_content, w_assert, w_send, text_hit, SourceActionModel, WModel};
use crate::x11::{decode_spec, none_atom, selection_of, x_assert, x_reply, DecodedModel, ReplyDataModel, SelectionRequest, XModel};

verus! {

/// What the compositor holds for one selection kind: the sources that exist
/// and the one selected.
pub struct WireModel {
    pub live: Set<u64>,
    pub selected: Option<u64>,
}

/// The effect of one data-control request on the compositor's view of `kind`.
pub open spec fn wire_apply(w: WireModel, kind: ClipboardType, a: SourceActionModel) -> WireModel {
    match a {
        SourceActionModel::Create { source } => WireModel { live: w.live.insert(source), ..w },
        SourceActionModel::Offer { .. } => w,
        SourceActionModel::Select { kind: k, selected } => if k == kind {
            WireModel { selected, ..w }
        } else {
            w
        },
        SourceActionModel::Destroy { source } => WireModel { live: w.live.remove(source), ..w },
    }
}

/// The compositor's view after a sequence of requests.
pub open spec fn wire_run(w: WireModel, kind: ClipboardType, acts: Seq<SourceActionModel>) -> WireModel
    decreases acts.len(),
{
    if acts.len() == 0 {
        w
    } else {
        wire_apply(wire_run(w, kind, acts.drop_last()), kind, acts.last())
    }
}

/// No torn ownership: while the Wayland adapter replaces the source of a kind
/// it owns, after every request of the replacement some live source is the
/// selection; at the end it is the new one.
pub proof fn lemma_no_torn_ownership(
    m: WModel,
    kind: ClipboardType,
    mimes: Seq<Seq<char>>,
    w: WireModel,
    n: int,
)
    requires
        m.wf(),
        m.source(kind) is Some,
        w.selected == m.source(kind),
        w.live.contains(m.source(kind)->0),
        0 <= n <= assert_plan(m.source(kind), m.next_source, kind, mimes).len(),
    ensures
        ({
            let w2 = wire_run(w, kind, assert_plan(m.source(kind), m.next_source, kind, mimes).take(n));
            w2.selected matches Some(s) && w2.live.contains(s)
        }),
        wire_run(w, kind, assert_plan(m.source(kind), m.next_source, kind, mimes)).selected == Some(
            m.next_source,
        ),
{
    let plan = assert_plan(m.source(kind), m.next_source, kind, mimes);
    lemma_plan_prefix(m, kind, mimes, w, n);
    lemma_plan_prefix(m, kind, mimes, w, plan.len() as int);
    assert(plan.take(plan.len() as int) =~= plan);
}

proof fn lemma_plan_prefix(
    m: WModel,
    kind: ClipboardType,
    mimes: Seq<Seq<char>>,
    w: WireModel,
    n: int,
)
    requires
        m.wf(),
        m.source(kind) is Some,
        w.selected == m.source(kind),
        w.live.contains(m.source(kind)->0),
        0 <= n <= assert_plan(m.source(kind), m.next_source, kind, mimes).len(),
    ensures
        ({
            let prev = m.source(kind)->0;
            let id = m.next_source;
            let k = mimes.len() as int;
            let w2 = wire_run(w, kind, assert_plan(m.source(kind), id, kind, mimes).take(n));
            &&& (n <= k + 1 ==> w2.selected == Some(prev) && w2.live.contains(prev))
            &&& (1 <= n ==> w2.live.contains(id))
            &&& (k + 2 <= n ==> w2.selected == Some(id))
        }),
    decreases n,
{
    let prev = m.source(kind)->0;
    let id = m.next_source;
    let k = mimes.len() as int;
    let plan = assert_plan(m.source(kind), id, kind, mimes);
    assert(plan.len() == k + 3);
    if n == 0 {
        assert(plan.take(0) =~= Seq::<SourceActionModel>::empty());
    } else {
        lemma_plan_prefix(m, kind, mimes, w, n - 1);
        assert(plan.take(n).drop_last() =~= plan.take(n - 1));
        assert(plan.take(n).last() == plan[n - 1]);
        assert(prev < id);
        if n - 1 == 0 {
            assert(plan[0] == SourceActionModel::Create { source: id });
        } else if n - 1 <= k {
            assert(plan[n - 1] == SourceActionModel::Offer { source: id, mime: mimes[n - 2] });
        } else if n - 1 == k + 1 {
            assert(plan[n - 1] == SourceActionModel::Select { kind, selected: Some(id) });
        } else {
            assert(plan[n - 1] == SourceActionModel::Destroy { source: prev });
        }
    }
}

/// Echo suppression around the loop: when the reconciler forwards a
/// non-empty observation from X, the Wayland adapter that takes the assert
/// then holds that content, and its own report of it produces no command.
/// The same holds from Wayland to X.
pub proof fn lemma_no_echo_after_forward(l: LedgerModel, o: Observation, wm: WModel, xm: XModel)
    requires
        l.get(o.kind) != Some(o.content),
        !(o.content is Empty),
        wm.ready(),
    ensures
        o.side == Side::X11 ==> w_assert(wm, o.kind, o.content).snapshot(o.kind) == Some(o.content),
        o.side == Side::Wayland && crate::content::text_of(o.content) is Some ==> x_assert(
            xm,
            o.kind,
            o.content,
        ).snapshot(o.kind) == crate::content::text_of(o.content),
        reconcile_step(
            reconcile_step(l, o).0,
            Observation { side: o.side.opposite(), kind: o.kind, content: o.content },
        ).1 is None,
{
}

/// Selection kinds are independent: an observation or an assert for one kind
/// leaves the ledger entry, the snapshots and the source of the other kind as
/// they were.
pub proof fn lemma_kinds_independent(
    l: LedgerModel,
    o: Observation,
    xm: XModel,
    wm: WModel,
    kind: ClipboardType,
    c: ContentModel,
)
    ensures
        reconcile_step(l, o).0.get(o.kind.other()) == l.get(o.kind.other()),
        x_assert(xm, kind, c).snapshot(kind.other()) == xm.snapshot(kind.other()),
        xm.with_snapshot(kind, None).snapshot(kind.other()) == xm.snapshot(kind.other()),
        w_assert(wm, kind, c).snapshot(kind.other()) == wm.snapshot(kind.other()),
        w_assert(wm, kind, c).source(kind.other()) == wm.source(kind.other()),
        wm.with_kind(kind, None, None).snapshot(kind.other()) == wm.snapshot(kind.other()),
{
}

proof fn lemma_encode_nonempty(s: Seq<char>)
    requires
        s.len() > 0,
    ensures
        encode_utf8(s).len() > 0,
{
    assert(encode_utf8(s) == vstd::utf8::encode_scalar(s[0] as u32) + encode_utf8(s.drop_first()));
}

/// Text round trip: a non-empty string that an X owner provides as
/// `UTF8_STRING` is decoded to itself, forwarded to Wayland, and served there
/// as its UTF-8 bytes; those bytes, read back from a Wayland offer as
/// `text/plain;charset=utf-8`, are decoded to the same string, forwarded to
/// X, and served to an X requestor byte for byte.
pub proof fn lemma_text_round_trip(
    s: Seq<char>,
    kind: ClipboardType,
    l: LedgerModel,
    wm: WModel,
    xm: XModel,
    mime: Seq<char>,
    req: SelectionRequest,
)
    requires
        s.len() > 0,
        xm.atoms.wf(),
        wm.wf(),
        wm.ready(),
        req.selection == selection_of(xm.atoms, kind),
        req.target == xm.atoms.utf8_string,
    ensures
        decode_spec(xm.atoms, xm.atoms.utf8_string, encode_utf8(s)) == DecodedModel::Text(s),
        l.get(kind) != Some(ContentModel::Text(s)) ==> reconcile_step(
            l,
            Observation { side: Side::X11, kind, content: ContentModel::Text(s) },
        ).1 == Some(CommandModel { target: Side::Wayland, kind, content: ContentModel::Text(s) }),
        w_send(w_assert(wm, kind, ContentModel::Text(s)), wm.next_source, mime) == Some(
            encode_utf8(s),
        ),
        probes_content(seq![(TEXT_PLAIN_UTF8_MIME@, encode_utf8(s))]) == Some(
            ContentModel::Text(s),
        ),
        l.get(kind) != Some(ContentModel::Text(s)) ==> reconcile_step(
            l,
            Observation { side: Side::Wayland, kind, content: ContentModel::Text(s) },
        ).1 == Some(CommandModel { target: Side::X11, kind, content: ContentModel::Text(s) }),
        x_reply(x_assert(xm, kind, ContentModel::Text(s)), req) == (
            ReplyDataModel::Bytes { property_type: xm.atoms.utf8_string, data: encode_utf8(s) },
            req.property,
        ),
{
    let a = xm.atoms;
    encode_utf8_valid_utf8(s);
    encode_utf8_decode_utf8(s);
    lemma_encode_nonempty(s);
    assert(a.all()[5] == a.utf8_string);
    assert(a.all()[5] != none_atom());
    assert(a.all()[0] != a.all()[1]);
    assert(a.all()[5] != a.all()[2]);
    assert(a.all()[5] != a.all()[3]);
    let rs = seq![(TEXT_PLAIN_UTF8_MIME@, encode_utf8(s))];
    reveal_strlit("text/plain;charset=utf-8");
    reveal_strlit("text/");
    assert(TEXT_PLAIN_UTF8_MIME@.subrange(0, 5) =~= crate::content::TEXT_MIME_PREFIX@);
    assert(text_hit(rs[0]));
    assert(first_text(rs, 0) == Some(decode_utf8(encode_utf8(s))));
}

/// Binary round trip on the Wayland side: a MIME map observed from Wayland is
/// recorded by the reconciler as it is, and once asserted to the Wayland
/// adapter each of its MIME types is served with exactly its bytes.
pub proof fn lemma_binary_round_trip(
    l: LedgerModel,
    wm: WModel,
    kind: ClipboardType,
    m: Map<Seq<char>, Seq<u8>>,
    mime: Seq<char>,
)
    requires
        wm.wf(),
        wm.ready(),
        m.contains_key(mime),
    ensures
        reconcile_step(
            l,
            Observation { side: Side::Wayland, kind, content: ContentModel::Binary(m) },
        ).0.get(kind) == Some(ContentModel::Binary(m)),
        w_send(w_assert(wm, kind, ContentModel::Binary(m)), wm.next_source, mime) == Some(m[mime]),
{
}

/// A probe that yields no text stands for the map of its non-empty values.
pub proof fn lemma_binary_probes(rs: Seq<(Seq<char>, Seq<u8>)>)
    requires
        forall|i: int| 0 <= i < rs.len() ==> !text_hit(#[trigger] rs[i]),
        probe_map(rs) != Map::<Seq<char>, Seq<u8>>::empty(),
    ensures
        probes_content(rs) == Some(ContentModel::Binary(probe_map(rs))),
{
    lemma_no_text(rs, 0);
}

proof fn lemma_no_text(rs: Seq<(Seq<char>, Seq<u8>)>, i: int)
    requires
        0 <= i,
        forall|j: int| 0 <= j < rs.len() ==> !text_hit(#[trigger] rs[j]),
    ensures
        first_text(rs, i) is None,
    decreases rs.len() - i,
{
    if i < rs.len() {
        lemma_no_text(rs, i + 1);
    }
}

} // verus!
