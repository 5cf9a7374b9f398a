//! The executable drag coordinator.
//!
//! `DragCoordinator` holds the member elements' contents and markers and
//! the single drag session. Each handler is proved to implement exactly
//! the matching transition of [`crate::model`] on the coordinator's
//! abstract view.

use vstd::prelude::*;

use crate::model::{
    drag_end_tr, drag_enter_tr, drag_leave_tr, drag_over_tr, drag_start_tr, drop_tr, initial,
    CoordView,
};

verus! {

/// Listener registration failed at attach time: the coordinator was
/// handed no member elements to bind to.
#[derive(Debug, PartialEq, Eq, Structural, Clone, Copy)]
pub struct BindingError;

/// What the host must do to the platform on a `dragover` delivery:
/// suppress the default action (without which the platform never
/// delivers `drop`) and declare the move-only drop effect.
#[derive(Debug, PartialEq, Eq, Structural, Clone, Copy)]
pub struct OverDirective {
    pub suppress_default: bool,
    pub effect_move: bool,
}

/// Arbitrates one drag-and-content-swap operation at a time over a
/// fixed set of member elements.
///
/// The host resolves each platform event's target to the index of a
/// member (or `None` where it is no member) and calls the matching
/// handler; it then mirrors contents and markers back onto its elements.
/// Events are delivered run-to-completion, one at a time, so plain
/// exclusive access is all the session needs.
pub struct DragCoordinator {
    contents: Vec<String>,
    over: Vec<bool>,
    origin: Vec<bool>,
    active: bool,
    source: Option<usize>,
    payload: Option<String>,
}

impl View for DragCoordinator {
    type V = CoordView;

    closed spec fn view(&self) -> CoordView {
        CoordView {
            contents: self.contents.deep_view(),
            over: self.over@,
            origin: self.origin@,
            active: self.active,
            source: self.source,
            payload: match self.payload {
                Some(p) => Some(p@),
                None => None,
            },
        }
    }
}

impl DragCoordinator {
    /// The coordinator's invariant, inherited from the abstract state.
    pub open spec fn wf(&self) -> bool {
        self@.wf()
    }

    /// Binds the coordinator to the member elements' initial contents.
    ///
    /// Fails with `BindingError` exactly when the member set is empty
    /// (there is nothing to register listeners on); otherwise the
    /// coordinator starts idle, with no markers set.
    pub fn attach(contents: Vec<String>) -> (r: Result<DragCoordinator, BindingError>)
        ensures
            r is Ok <==> contents@.len() > 0,
            r matches Ok(c) ==> c.wf() && c@ == initial(contents.deep_view()),
    {
        if contents.len() == 0 {
            return Err(BindingError);
        }
        let n = contents.len();
        let mut over: Vec<bool> = Vec::new();
        let mut origin: Vec<bool> = Vec::new();
        let mut i: usize = 0;
        while i < n
            invariant
                i <= n,
                over@ =~= Seq::new(i as nat, |k: int| false),
                origin@ =~= Seq::new(i as nat, |k: int| false),
            decreases n - i,
        {
            over.push(false);
            origin.push(false);
            i = i + 1;
        }
        let c = DragCoordinator {
            contents,
            over,
            origin,
            active: false,
            source: None,
            payload: None,
        };
        proof {
            assert(c@ =~= initial(c.contents.deep_view()));
        }
        Ok(c)
    }

    /// The number of member elements.
    pub fn len(&self) -> (n: usize)
        ensures
            n == self@.contents.len(),
    {
        self.contents.len()
    }

    /// `dragstart` handler: opens a session on a member target unless
    /// one is already active (re-entrancy guard).
    pub fn on_drag_start(&mut self, target: Option<usize>)
        requires
            old(self).wf(),
        ensures
            final(self).wf(),
            final(self)@ == drag_start_tr(old(self)@, target),
    {
        if self.active {
            return;
        }
        if let Some(i) = target {
            if i < self.contents.len() {
                self.origin.set(i, true);
                let snapshot = self.contents[i].clone();
                self.payload = Some(snapshot);
                self.source = Some(i);
                self.active = true;
            }
        }
    }

    /// `dragenter` handler: marks a member target with the hover marker.
    pub fn on_drag_enter(&mut self, target: Option<usize>)
        requires
            old(self).wf(),
        ensures
            final(self).wf(),
            final(self)@ == drag_enter_tr(old(self)@, target),
    {
        if let Some(i) = target {
            if i < self.over.len() {
                self.over.set(i, true);
            }
        }
    }

    /// `dragover` handler: leaves the state untouched and directs the
    /// host to suppress the platform default action on this delivery —
    /// a platform contract: without it `drop` is never delivered — and
    /// to declare the move-only drop effect.
    pub fn on_drag_over(&self, target: Option<usize>) -> (d: OverDirective)
        ensures
            d.suppress_default,
            d.effect_move,
            drag_over_tr(self@, target) == self@,
    {
        OverDirective { suppress_default: true, effect_move: true }
    }

    /// `dragleave` handler: clears a member target's hover marker.
    pub fn on_drag_leave(&mut self, target: Option<usize>)
        requires
            old(self).wf(),
        ensures
            final(self).wf(),
            final(self)@ == drag_leave_tr(old(self)@, target),
    {
        if let Some(i) = target {
            if i < self.over.len() {
                self.over.set(i, false);
            }
        }
    }

    /// `drop` handler: on a member target with a recorded source, gives
    /// the source the target's current content and the target the
    /// payload snapshot, then releases source and payload; anywhere
    /// else it is a no-op.
    pub fn on_drop(&mut self, target: Option<usize>)
        requires
            old(self).wf(),
        ensures
            final(self).wf(),
            final(self)@ == drop_tr(old(self)@, target),
    {
        if let Some(t) = target {
            if t < self.contents.len() {
                if let Some(src) = self.source {
                    let mut p = self.payload.take().unwrap();
                    self.contents.set_and_swap(t, &mut p);
                    if src != t {
                        self.contents.set(src, p);
                    }
                    self.source = None;
                    proof {
                        assert(self@.contents =~= drop_tr(old(self)@, target).contents);
                        assert(self@ =~= drop_tr(old(self)@, target));
                    }
                }
            }
        }
    }

    /// `dragend` handler: unconditional full cleanup on every member,
    /// whatever the event's target and whether or not a drop occurred.
    pub fn on_drag_end(&mut self, target: Option<usize>)
        requires
            old(self).wf(),
        ensures
            final(self).wf(),
            final(self)@ == drag_end_tr(old(self)@, target),
            final(self)@.cleaned_up(),
    {
        let n = self.over.len();
        let mut i: usize = 0;
        while i < n
            invariant
                i <= n,
                n == self.over.len(),
                n == self.origin.len(),
                self.contents == old(self).contents,
                self.active == old(self).active,
                self.source == old(self).source,
                self.payload == old(self).payload,
                forall|k: int| 0 <= k < i ==> !(#[trigger] self.over@[k]),
                forall|k: int| 0 <= k < i ==> !(#[trigger] self.origin@[k]),
            decreases n - i,
        {
            self.over.set(i, false);
            self.origin.set(i, false);
            i = i + 1;
        }
        self.active = false;
        self.source = None;
        self.payload = None;
        proof {
            assert(self@.over =~= drag_end_tr(old(self)@, target).over);
            assert(self@.origin =~= drag_end_tr(old(self)@, target).origin);
            assert(self@ =~= drag_end_tr(old(self)@, target));
        }
    }

    /// Whether a drag session is currently active.
    pub fn is_active(&self) -> (b: bool)
        ensures
            b == self@.active,
    {
        self.active
    }

    /// The recorded drag source, while one is held.
    pub fn source(&self) -> (s: Option<usize>)
        ensures
            s == self@.source,
    {
        self.source
    }

    /// Element `i`'s current content.
    pub fn content_of(&self, i: usize) -> (c: &String)
        requires
            i < self@.contents.len(),
        ensures
            c@ == self@.contents[i as int],
    {
        &self.contents[i]
    }

    /// Whether element `i` carries the hover marker.
    pub fn has_over_marker(&self, i: usize) -> (b: bool)
        requires
            self.wf(),
            i < self@.contents.len(),
        ensures
            b == self@.over[i as int],
    {
        self.over[i]
    }

    /// Whether element `i` carries the drag-origin marker.
    pub fn has_origin_marker(&self, i: usize) -> (b: bool)
        requires
            self.wf(),
            i < self@.contents.len(),
        ensures
            b == self@.origin[i as int],
    {
        self.origin[i]
    }
}

} // verus!
