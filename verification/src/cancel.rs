//! Native cancellation across threads and model switches.
//!
//! A cancel may arrive before sd.cpp's context exists (during a model load),
//! while it exists, or after it has been freed. The handle decides what each
//! cancel does: a cancel with a live context is forwarded to that context, a
//! cancel without one is parked and replayed when the next context is
//! published. Retracting a context is a compare-and-clear against the
//! context being freed, so freeing the previous context after a model switch
//! does not disarm cancellation for the new one.
use vstd::prelude::*;

verus! {

/// The abstract state of a cancel handle: the published context, if any,
/// and whether a cancel is parked.
pub struct CancelView {
    pub ctx: Option<u64>,
    pub pending: bool,
}

/// The decision-making half of native cancellation. Contexts are named by an
/// opaque token the caller chooses (the address of the sd.cpp context).
#[derive(Debug)]
pub struct CancelHandle {
    ctx: Option<u64>,
    pending: bool,
}

/// The state after a context is published, and the context to cancel now if
/// a parked cancel is replayed.
pub open spec fn after_set(h: CancelView, ctx: u64) -> (CancelView, Option<u64>) {
    (CancelView { ctx: Some(ctx), pending: false }, if h.pending { Some(ctx) } else { None })
}

/// The state after the context `ctx` is retracted: only that context is
/// cleared.
pub open spec fn after_clear(h: CancelView, ctx: u64) -> CancelView {
    if h.ctx == Some(ctx) {
        CancelView { ctx: None, pending: h.pending }
    } else {
        h
    }
}

/// The state after a cancel, and the context the cancel is forwarded to.
pub open spec fn after_cancel(h: CancelView) -> (CancelView, Option<u64>) {
    match h.ctx {
        Some(c) => (h, Some(c)),
        None => (CancelView { ctx: None, pending: true }, None),
    }
}

impl CancelHandle {
    /// The abstract state.
    pub closed spec fn view(&self) -> CancelView {
        CancelView { ctx: self.ctx, pending: self.pending }
    }

    /// No context, nothing parked.
    pub fn new() -> (h: CancelHandle)
        ensures
            h.view() == (CancelView { ctx: None, pending: false }),
    {
        CancelHandle { ctx: None, pending: false }
    }

    /// The published context, if any.
    pub fn context(&self) -> (c: Option<u64>)
        ensures
            c == self.view().ctx,
    {
        self.ctx
    }

    /// Whether a cancel is parked waiting for a context.
    pub fn is_pending(&self) -> (b: bool)
        ensures
            b == self.view().pending,
    {
        self.pending
    }

    /// Publish a freshly created context. Returns the context to cancel
    /// natively right away when a cancel was parked during the load.
    pub fn set(&mut self, ctx: u64) -> (replay: Option<u64>)
        ensures
            (final(self).view(), replay) == after_set(old(self).view(), ctx),
    {
        let replay = if self.pending {
            Some(ctx)
        } else {
            None
        };
        self.ctx = Some(ctx);
        self.pending = false;
        replay
    }

    /// Retract the context `ctx` before it is freed; a handle already
    /// re-pointed at a newer context is left armed.
    pub fn clear(&mut self, ctx: u64)
        ensures
            final(self).view() == after_clear(old(self).view(), ctx),
    {
        if self.ctx == Some(ctx) {
            self.ctx = None;
        }
    }

    /// Ask for the running generation to stop. Returns the context to cancel
    /// natively; with no context the cancel is parked instead.
    pub fn cancel(&mut self) -> (target: Option<u64>)
        ensures
            (final(self).view(), target) == after_cancel(old(self).view()),
    {
        match self.ctx {
            Some(c) => Some(c),
            None => {
                self.pending = true;
                None
            },
        }
    }
}

impl Default for CancelHandle {
    /// The same as [`CancelHandle::new`].
    fn default() -> (h: Self)
        ensures
            h.view() == (CancelView { ctx: None, pending: false }),
    {
        CancelHandle::new()
    }
}

// ---------------------------------------------------------------------------
// Laws
// ---------------------------------------------------------------------------

/// A cancel issued before the context exists is not lost: it is replayed
/// against the context published next.
pub proof fn law_early_cancel_is_replayed(h: CancelView, ctx: u64)
    requires
        h.ctx is None,
    ensures
        after_set(after_cancel(h).0, ctx).1 == Some(ctx),
{
}

/// A cancel never reaches a context that has been retracted: after the live
/// context is cleared, a cancel forwards to nothing and is parked.
pub proof fn law_cleared_context_is_never_cancelled(h: CancelView, ctx: u64)
    requires
        h.ctx == Some(ctx),
    ensures
        after_cancel(after_clear(h, ctx)).1 is None,
        after_cancel(after_clear(h, ctx)).0.pending,
{
}

/// Switching models keeps cancellation armed: publishing the new context and
/// then retracting the old one leaves cancels forwarded to the new context.
pub proof fn law_switch_stays_armed(h: CancelView, old_ctx: u64, new_ctx: u64)
    requires
        old_ctx != new_ctx,
    ensures
        after_cancel(after_clear(after_set(h, new_ctx).0, old_ctx)).1 == Some(new_ctx),
{
}

/// A cancel only ever targets the context most recently published.
pub proof fn law_cancel_targets_published_context(h: CancelView)
    ensures
        after_cancel(h).1 == h.ctx,
{
}

/// Publishing a context always consumes a parked cancel.
pub proof fn law_set_consumes_pending(h: CancelView, ctx: u64)
    ensures
        !after_set(h, ctx).0.pending,
        after_set(h, ctx).0.ctx == Some(ctx),
{
}

} // verus!
