//! The mathematical model of the drag coordinator.
//!
//! `CoordView` is the abstract state: the member elements' contents, the
//! two per-element presentation markers, and the drag session (`active`,
//! `source`, `payload`). Each platform event is a total transition
//! function on `CoordView`; the executable handlers are proved to
//! implement exactly these transitions.

use vstd::prelude::*;

verus! {

/// Abstract state of the coordinator over a fixed member-element set.
///
/// The three leading sequences are indexed by member element and have
/// equal length (see [`CoordView::wf`]): `contents[i]` is element `i`'s
/// serialized content, `over[i]` its hover-during-drag marker, and
/// `origin[i]` its drag-origin marker. `active`, `source` and `payload`
/// form the single drag session: `source` is the member the current drag
/// started on, and `payload` the snapshot of its content taken at
/// `dragstart` time (the transfer carrier's content).
#[verifier::ext_equal]
pub struct CoordView {
    pub contents: Seq<Seq<char>>,
    pub over: Seq<bool>,
    pub origin: Seq<bool>,
    pub active: bool,
    pub source: Option<usize>,
    pub payload: Option<Seq<char>>,
}

impl CoordView {
    /// Well-formedness: marker sequences cover exactly the member set; a
    /// recorded source implies an active session, a member index, and a
    /// captured payload; and the drag-origin marker sits on at most one
    /// element, only while a session is active.
    pub open spec fn wf(self) -> bool {
        &&& self.over.len() == self.contents.len()
        &&& self.origin.len() == self.contents.len()
        &&& (self.source matches Some(i) ==> {
            &&& self.active
            &&& (i as int) < self.contents.len()
            &&& self.payload is Some
        })
        &&& (forall|i: int| 0 <= i < self.origin.len() && #[trigger] self.origin[i] ==> self.active)
        &&& (forall|i: int, j: int|
            0 <= i < self.origin.len() && 0 <= j < self.origin.len() && #[trigger] self.origin[i]
                && #[trigger] self.origin[j] ==> i == j)
    }

    /// Every invariant `dragend` must restore: session inactive, no
    /// retained source or payload, and no element carrying a marker.
    pub open spec fn cleaned_up(self) -> bool {
        &&& !self.active
        &&& self.source is None
        &&& self.payload is None
        &&& (forall|i: int| 0 <= i < self.over.len() ==> !(#[trigger] self.over[i]))
        &&& (forall|i: int| 0 <= i < self.origin.len() ==> !(#[trigger] self.origin[i]))
    }
}

/// The state a freshly attached coordinator starts in: the given
/// contents, no markers, no session.
pub open spec fn initial(contents: Seq<Seq<char>>) -> CoordView {
    CoordView {
        contents: contents,
        over: Seq::new(contents.len(), |i: int| false),
        origin: Seq::new(contents.len(), |i: int| false),
        active: false,
        source: None,
        payload: None,
    }
}

/// Whether an event target resolves to a member of the element set. A
/// target of `None` stands for an event whose target could not be
/// resolved to any member (a non-member element, or a malformed event).
pub open spec fn is_member(s: CoordView, target: Option<usize>) -> bool {
    target matches Some(i) && (i as int) < s.contents.len()
}

/// `dragstart`: if no session is active and the target is a member,
/// open a session — mark the target as drag origin, snapshot its content
/// into the payload, and record it as the source. A `dragstart` while a
/// session is already active is a re-entrancy guard no-op.
pub open spec fn drag_start_tr(s: CoordView, target: Option<usize>) -> CoordView {
    if s.active {
        s
    } else if is_member(s, target) {
        let i = target.unwrap();
        CoordView {
            origin: s.origin.update(i as int, true),
            active: true,
            source: Some(i),
            payload: Some(s.contents[i as int]),
            ..s
        }
    } else {
        s
    }
}

/// `dragenter`: mark a member target with the hover marker. Marker
/// presence is boolean, so repeated entries are idempotent.
pub open spec fn drag_enter_tr(s: CoordView, target: Option<usize>) -> CoordView {
    if is_member(s, target) {
        let i = target.unwrap();
        CoordView { over: s.over.update(i as int, true), ..s }
    } else {
        s
    }
}

/// `dragover`: no state change; the handler only directs the host to
/// suppress the platform default action and declare the move effect.
pub open spec fn drag_over_tr(s: CoordView, target: Option<usize>) -> CoordView {
    s
}

/// `dragleave`: clear a member target's hover marker.
pub open spec fn drag_leave_tr(s: CoordView, target: Option<usize>) -> CoordView {
    if is_member(s, target) {
        let i = target.unwrap();
        CoordView { over: s.over.update(i as int, false), ..s }
    } else {
        s
    }
}

/// `drop`: honored only on a member target while a source is recorded.
/// The source element receives the target's current content, the target
/// receives the payload snapshot, and the source and payload are
/// released (the session stays active until `dragend`). A drop anywhere
/// else — non-member target, unresolvable target, or no recorded source
/// — changes nothing.
pub open spec fn drop_tr(s: CoordView, target: Option<usize>) -> CoordView {
    if is_member(s, target) && s.source is Some {
        let t = target.unwrap();
        let src = s.source.unwrap();
        CoordView {
            contents: s.contents.update(src as int, s.contents[t as int]).update(
                t as int,
                s.payload.unwrap(),
            ),
            source: None,
            payload: None,
            ..s
        }
    } else {
        s
    }
}

/// `dragend`: unconditional full cleanup, whatever the target and
/// whether or not a drop occurred — every marker is cleared on every
/// member, and the session is closed. Contents are untouched.
pub open spec fn drag_end_tr(s: CoordView, target: Option<usize>) -> CoordView {
    CoordView {
        contents: s.contents,
        over: Seq::new(s.over.len(), |i: int| false),
        origin: Seq::new(s.origin.len(), |i: int| false),
        active: false,
        source: None,
        payload: None,
    }
}

/// One platform drag event, with the member index its target resolved
/// to (`None` where it resolved to no member).
pub enum Event {
    DragStart(Option<usize>),
    DragEnter(Option<usize>),
    DragOver(Option<usize>),
    DragLeave(Option<usize>),
    Drop(Option<usize>),
    DragEnd(Option<usize>),
}

/// The transition taken by one event.
pub open spec fn step(s: CoordView, e: Event) -> CoordView {
    match e {
        Event::DragStart(t) => drag_start_tr(s, t),
        Event::DragEnter(t) => drag_enter_tr(s, t),
        Event::DragOver(t) => drag_over_tr(s, t),
        Event::DragLeave(t) => drag_leave_tr(s, t),
        Event::Drop(t) => drop_tr(s, t),
        Event::DragEnd(t) => drag_end_tr(s, t),
    }
}

/// The state after a whole event sequence, delivered in order.
pub open spec fn run(s: CoordView, evs: Seq<Event>) -> CoordView
    decreases evs.len(),
{
    if evs.len() == 0 {
        s
    } else {
        run(step(s, evs[0]), evs.drop_first())
    }
}

/// Running a sequence and then one more event is one step after the run.
pub proof fn lemma_run_snoc(s: CoordView, evs: Seq<Event>, e: Event)
    ensures
        run(s, evs.push(e)) == step(run(s, evs), e),
    decreases evs.len(),
{
    if evs.len() == 0 {
        assert(evs.push(e)[0] == e);
        assert(evs.push(e).drop_first() =~= Seq::<Event>::empty());
        assert(run(step(s, e), Seq::<Event>::empty()) == step(s, e));
    } else {
        assert(evs.push(e)[0] == evs[0]);
        assert(evs.push(e).drop_first() =~= evs.drop_first().push(e));
        lemma_run_snoc(step(s, evs[0]), evs.drop_first(), e);
    }
}

/// Every event preserves well-formedness: the invariants hold in every
/// reachable state.
pub proof fn lemma_step_preserves_wf(s: CoordView, e: Event)
    requires
        s.wf(),
    ensures
        step(s, e).wf(),
{
}

/// Well-formedness holds after any event sequence from a well-formed
/// state.
pub proof fn lemma_run_preserves_wf(s: CoordView, evs: Seq<Event>)
    requires
        s.wf(),
    ensures
        run(s, evs).wf(),
    decreases evs.len(),
{
    if evs.len() > 0 {
        lemma_step_preserves_wf(s, evs[0]);
        lemma_run_preserves_wf(step(s, evs[0]), evs.drop_first());
    }
}

/// Mutual exclusion: a `dragstart` delivered while a session is active
/// changes nothing — in particular it does not overwrite the recorded
/// source.
pub proof fn lemma_dragstart_while_active_is_noop(s: CoordView, target: Option<usize>)
    requires
        s.active,
    ensures
        drag_start_tr(s, target) == s,
{
}

/// Mutual exclusion over whole sequences: once a session is active, any
/// number of further `dragstart` deliveries leaves the state — and so
/// the one active session and its source — exactly as it was.
pub proof fn lemma_dragstart_sequence_is_noop(s: CoordView, evs: Seq<Event>)
    requires
        s.active,
        forall|k: int| 0 <= k < evs.len() ==> (#[trigger] evs[k]) matches Event::DragStart(_),
    ensures
        run(s, evs) == s,
    decreases evs.len(),
{
    if evs.len() > 0 {
        assert(evs[0] matches Event::DragStart(_));
        lemma_dragstart_sequence_is_noop(s, evs.drop_first());
    }
}

/// The hover events — `dragenter`, `dragover`, `dragleave` — never touch
/// the contents or the session; only `dragstart`, `drop` and `dragend`
/// do.
pub proof fn lemma_hover_events_preserve_session(s: CoordView, e: Event)
    requires
        e matches Event::DragEnter(_) || e matches Event::DragOver(_) || e matches Event::DragLeave(
            _,
        ),
    ensures
        step(s, e).contents == s.contents,
        step(s, e).active == s.active,
        step(s, e).source == s.source,
        step(s, e).payload == s.payload,
        step(s, e).origin == s.origin,
{
}

/// Swap correctness: from an idle well-formed state, `dragstart` on
/// member `src` followed by `drop` on member `tgt` leaves `src` holding
/// `tgt`'s prior content and `tgt` holding `src`'s prior content; every
/// other element's content is untouched.
pub proof fn lemma_swap_correctness(s: CoordView, src: usize, tgt: usize)
    requires
        s.wf(),
        !s.active,
        (src as int) < s.contents.len(),
        (tgt as int) < s.contents.len(),
    ensures
        drop_tr(drag_start_tr(s, Some(src)), Some(tgt)).contents[src as int] == s.contents[tgt as int],
        drop_tr(drag_start_tr(s, Some(src)), Some(tgt)).contents[tgt as int] == s.contents[src as int],
        forall|k: int|
            0 <= k < s.contents.len() && k != src && k != tgt ==> drop_tr(
                drag_start_tr(s, Some(src)),
                Some(tgt),
            ).contents[k] == s.contents[k],
{
}

/// Dropping outside the member set — or with no resolvable target — is a
/// defined no-op: contents, markers and session are all unchanged.
pub proof fn lemma_drop_on_non_member_is_noop(s: CoordView, target: Option<usize>)
    requires
        !is_member(s, target),
    ensures
        drop_tr(s, target) == s,
{
}

/// A drop is honored only onto a member while a source is recorded; in
/// particular a drop with no open exchange changes nothing.
pub proof fn lemma_drop_without_source_is_noop(s: CoordView, target: Option<usize>)
    requires
        s.source is None,
    ensures
        drop_tr(s, target) == s,
{
}

/// Full cleanup: `dragend` restores every invariant whatever state it
/// finds — session closed, source and payload released, and no element
/// left carrying a marker — whether or not a drop preceded it.
pub proof fn lemma_dragend_restores_invariants(s: CoordView, target: Option<usize>)
    ensures
        drag_end_tr(s, target).cleaned_up(),
        drag_end_tr(s, target).contents == s.contents,
{
}

/// Full cleanup over whole sequences: any event sequence ending in
/// `dragend` — including one where no `drop` ever fired — ends in a
/// state with no residual markers and no session.
pub proof fn lemma_sequence_ending_in_dragend_is_clean(
    s: CoordView,
    evs: Seq<Event>,
    target: Option<usize>,
)
    ensures
        run(s, evs.push(Event::DragEnd(target))).cleaned_up(),
{
    lemma_run_snoc(s, evs, Event::DragEnd(target));
}

/// Idempotent markers: a repeated `dragenter` on the same element
/// without an intervening `dragleave` is absorbed — marker presence is
/// boolean, not counted.
pub proof fn lemma_dragenter_idempotent(s: CoordView, target: Option<usize>)
    requires
        s.wf(),
    ensures
        drag_enter_tr(drag_enter_tr(s, target), target) == drag_enter_tr(s, target),
{
    if is_member(s, target) {
        let i = target.unwrap() as int;
        assert(s.over.update(i, true).update(i, true) =~= s.over.update(i, true));
    }
}

} // verus!
