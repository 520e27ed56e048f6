//! The slot of a secondary region, and the render pass that consumes it.
//!
//! A producer publishes a pending computation into a [`PortletCtx`] with
//! [`set`](PortletCtx::set) and withdraws it with
//! [`clear`](PortletCtx::clear). A [`PortletCtxRenderer`] is a read-only view
//! of the slot. Its [`into_render`](PortletCtxRenderer::into_render) begins
//! one render pass, which runs in this order:
//!
//! 1. the slot is read; what it holds at this point is what the pass renders;
//! 2. the pass waits behind the completion gate, if there is one;
//! 3. the computation that was found in step 1 is awaited ([`Fetch`]);
//! 4. its outcome is settled ([`settle`]) and converted for display
//!    ([`render`]).
//!
//! A change made to the slot while a pass waits is not seen by that pass. It
//! moves the slot's revision, and the pass that the next recomputation begins
//! reads the new state.
//!
//! Awaiting the message of a gate and the computation is the caller's part;
//! every decision between those two suspension points is made here.

use vstd::prelude::*;
use vstd::std_specs::cmp::PartialEqSpecImpl;
use tokio::sync::broadcast::Receiver;
use crate::sync_await::{admitted, MaybeWaiter, Message, WaitStep};

verus! {

/// What a slot holds: at most one pending computation, and a revision that
/// moves with every `set` and `clear`.
pub struct SlotState<R> {
    /// The computation that is current, if one is installed.
    pub current: Option<R>,
    /// The number of changes so far, counted within `usize`.
    pub revision: nat,
}

/// The revision that follows `revision`. The count starts over after
/// `usize::MAX`, so it never stands still.
pub open spec fn next_revision(revision: nat) -> nat {
    if revision >= usize::MAX {
        0
    } else {
        revision + 1
    }
}

impl<R> SlotState<R> {
    /// The slot as it is provided: empty, at revision zero.
    pub open spec fn fresh() -> Self {
        SlotState { current: None, revision: 0 }
    }

    /// The slot after `set`: `value` is current, whatever was before.
    pub open spec fn set(self, value: R) -> Self {
        SlotState { current: Some(value), revision: next_revision(self.revision) }
    }

    /// The slot after `clear`: nothing is current.
    pub open spec fn clear(self) -> Self {
        SlotState { current: None, revision: next_revision(self.revision) }
    }

    /// Two slot states are alike if both hold a computation or neither does.
    /// What they hold is not compared.
    pub open spec fn same_presence(self, other: Self) -> bool {
        self.current.is_some() == other.current.is_some()
    }
}

/// A required piece of the request's scope is missing. This is a mistake in
/// how the page was put together, not a condition to recover from.
#[derive(Clone, Copy, Debug, PartialEq, Eq, Structural)]
pub enum SetupError {
    /// No slot was provided where a renderer was asked for.
    SlotNotProvided,
}

/// A holder for at most one pending computation of type `R`.
#[derive(Debug)]
pub struct PortletCtx<R> {
    inner: Option<R>,
    refresh: usize,
}

impl<R> View for PortletCtx<R> {
    type V = SlotState<R>;

    closed spec fn view(&self) -> SlotState<R> {
        SlotState { current: self.inner, revision: self.refresh as nat }
    }
}

impl<R> PortletCtx<R> {
    /// Creates the slot of a request or subtree: empty.
    pub fn provide() -> (slot: Self)
        ensures
            slot@ == SlotState::<R>::fresh(),
    {
        PortletCtx { inner: None, refresh: 0 }
    }

    /// Installs `value` as the current computation. Whatever was installed
    /// before is dropped; nothing queues behind it.
    pub fn set(&mut self, value: R)
        ensures
            final(self)@ == old(self)@.set(value),
    {
        self.refresh = if self.refresh == usize::MAX {
            0
        } else {
            self.refresh + 1
        };
        self.inner = Some(value);
    }

    /// Removes the current computation. A renderer of the slot then renders
    /// nothing.
    pub fn clear(&mut self)
        ensures
            final(self)@ == old(self)@.clear(),
    {
        self.refresh = if self.refresh == usize::MAX {
            0
        } else {
            self.refresh + 1
        };
        self.inner = None;
    }

    /// Whether a computation is installed.
    pub fn is_set(&self) -> (set: bool)
        ensures
            set == self@.current.is_some(),
    {
        self.inner.is_some()
    }

    /// The slot's revision. It differs before and after every `set` and
    /// `clear`, so a change of it tells that a new pass is due.
    pub fn revision(&self) -> (revision: usize)
        ensures
            revision == self@.revision,
    {
        self.refresh
    }

    /// Binds a renderer to the slot that a lookup found, or reports that
    /// none was provided.
    pub fn expect_renderer<'a>(found: Option<&'a PortletCtx<R>>) -> (renderer: Result<
        PortletCtxRenderer<'a, R>,
        SetupError,
    >)
        ensures
            match found {
                Some(slot) => renderer matches Ok(bound) && bound.slot() == slot@,
                None => renderer == Err::<PortletCtxRenderer<'a, R>, SetupError>(
                    SetupError::SlotNotProvided,
                ),
            },
    {
        match found {
            Some(slot) => Ok(PortletCtxRenderer { inner: slot }),
            None => Err(SetupError::SlotNotProvided),
        }
    }
}

impl<R: Clone> Clone for PortletCtx<R> {
    /// A slot of its own at the same revision, holding a clone of the
    /// computation that is installed here, if any.
    fn clone(&self) -> (copy: Self)
        ensures
            copy@.revision == self@.revision,
            match self@.current {
                Some(computation) => copy@.current matches Some(other) && cloned(
                    computation,
                    other,
                ),
                None => copy@.current is None,
            },
    {
        let inner = match &self.inner {
            Some(computation) => Some(computation.clone()),
            None => None,
        };
        PortletCtx { inner, refresh: self.refresh }
    }
}

impl<R> Default for PortletCtx<R> {
    fn default() -> (slot: Self)
        ensures
            slot@ == SlotState::<R>::fresh(),
    {
        PortletCtx::provide()
    }
}

impl<R> PartialEq for PortletCtx<R> {
    fn eq(&self, other: &Self) -> (equal: bool) {
        self.inner.is_some() == other.inner.is_some()
    }
}

impl<R> PartialEqSpecImpl for PortletCtx<R> {
    open spec fn obeys_eq_spec() -> bool {
        true
    }

    open spec fn eq_spec(&self, other: &Self) -> bool {
        self@.same_presence(other@)
    }
}

/// A read-only view of a slot. Any number of renderers may be bound to one
/// slot; none of them can change it.
pub struct PortletCtxRenderer<'a, R> {
    inner: &'a PortletCtx<R>,
}

impl<'a, R> Clone for PortletCtxRenderer<'a, R> {
    /// Another renderer of the same slot.
    fn clone(&self) -> (copy: Self)
        ensures
            copy.slot() == self.slot(),
    {
        PortletCtxRenderer { inner: self.inner }
    }
}

impl<'a, R> Copy for PortletCtxRenderer<'a, R> {

}

/// What a render pass has to await once it is past its gate.
pub enum Fetch<'a, R> {
    /// Nothing is installed: the pass renders the empty placeholder.
    Empty,
    /// This computation is installed: the pass awaits its outcome.
    Pending(&'a R),
}

impl<'a, R> View for Fetch<'a, R> {
    type V = Option<R>;

    open spec fn view(&self) -> Option<R> {
        match self {
            Fetch::Empty => None,
            Fetch::Pending(computation) => Some(**computation),
        }
    }
}

/// A render pass that waits behind a pending gate.
pub struct GatedRender<'a, R> {
    /// The receiving end on which the message of completion arrives.
    pub receiver: Receiver<Message>,
    held: Fetch<'a, R>,
}

/// A render pass, as far as it got without suspending.
pub enum RenderPass<'a, R> {
    /// The primary branch has not finished: the pass waits for the message
    /// of completion.
    Gated(GatedRender<'a, R>),
    /// There is no gate, or it is resolved: the pass goes on with the fetch.
    Open(Fetch<'a, R>),
}

impl<'a, R> GatedRender<'a, R> {
    /// What the pass read from the slot before it began to wait.
    pub closed spec fn snapshot(&self) -> Option<R> {
        self.held@
    }

    /// Lets the pass go on. The message is the proof that completion was
    /// signalled; the fetch is the one that the pass read from the slot
    /// before it began to wait.
    pub fn release(self, notice: Message) -> (fetch: Fetch<'a, R>)
        ensures
            fetch@ == self.snapshot(),
    {
        self.held
    }
}

impl<'a, R> RenderPass<'a, R> {
    /// What the pass read from the slot when it began.
    pub open spec fn snapshot(&self) -> Option<R> {
        match self {
            RenderPass::Gated(gated) => gated.snapshot(),
            RenderPass::Open(fetch) => fetch@,
        }
    }
}

impl<'a, R> PortletCtxRenderer<'a, R> {
    /// The state of the slot that the renderer is bound to.
    pub closed spec fn slot(&self) -> SlotState<R> {
        self.inner@
    }

    /// Reads the slot: the computation that is current, if any.
    pub fn current(&self) -> (fetch: Fetch<'a, R>)
        ensures
            fetch@ == self.slot().current,
    {
        match &self.inner.inner {
            Some(computation) => Fetch::Pending(computation),
            None => Fetch::Empty,
        }
    }

    /// Begins a render pass.
    ///
    /// The slot is read first, and the pass renders what it holds now. Then
    /// the pass subscribes to `waiter`, if a gate was found. Behind a pending
    /// gate it is handed back gated, with the receiving end to suspend on;
    /// otherwise it is open and goes on with the fetch.
    pub fn into_render(self, waiter: &MaybeWaiter<'_>) -> (pass: RenderPass<'a, R>)
        ensures
            pass.snapshot() == self.slot().current,
            pass is Open <==> admitted(waiter.gate()),
    {
        let held = self.current();
        match waiter.subscribe().wait() {
            WaitStep::Ready => RenderPass::Open(held),
            WaitStep::Suspend(receiver) => RenderPass::Gated(GatedRender { receiver, held }),
        }
    }
}

/// What a pass settles on, given what it fetched: nothing where nothing was
/// installed, the value where the computation succeeded, and the
/// computation's own error where it failed.
pub open spec fn settled<T, E>(fetched: Option<Result<T, E>>) -> Result<Option<T>, E> {
    match fetched {
        None => Ok(None),
        Some(Ok(value)) => Ok(Some(value)),
        Some(Err(error)) => Err(error),
    }
}

/// Settles a pass on what it fetched: `None` where the slot was empty, else
/// the outcome of the awaited computation. An error is passed on unchanged.
pub fn settle<T, E>(fetched: Option<Result<T, E>>) -> (outcome: Result<Option<T>, E>)
    ensures
        outcome == settled(fetched),
{
    match fetched {
        None => Ok(None),
        Some(Ok(value)) => Ok(Some(value)),
        Some(Err(error)) => Err(error),
    }
}

/// Converts what a pass settled on for display: a value goes through
/// `convert`, the empty placeholder and an error are passed on unchanged.
pub fn render<T, V, E, F: FnOnce(T) -> V>(outcome: Result<Option<T>, E>, convert: F) -> (shown:
    Result<Option<V>, E>)
    requires
        outcome matches Ok(Some(value)) ==> convert.requires((value,)),
    ensures
        match outcome {
            Ok(Some(value)) => shown matches Ok(Some(node)) && convert.ensures((value,), node),
            Ok(None) => shown == Ok::<Option<V>, E>(None),
            Err(error) => shown == Err::<Option<V>, E>(error),
        },
{
    match outcome {
        Ok(Some(value)) => Ok(Some(convert(value))),
        Ok(None) => Ok(None),
        Err(error) => Err(error),
    }
}

/// One change of a slot, as a step in the history of a request.
pub enum SlotOp<R> {
    /// A producer calls [`PortletCtx::set`] with this computation.
    Install(R),
    /// A producer calls [`PortletCtx::clear`].
    Clear,
}

impl<R> SlotState<R> {
    /// The slot after one change.
    pub open spec fn step(self, op: SlotOp<R>) -> Self {
        match op {
            SlotOp::Install(value) => self.set(value),
            SlotOp::Clear => self.clear(),
        }
    }

    /// The slot after a history of changes.
    pub open spec fn after(self, history: Seq<SlotOp<R>>) -> Self
        decreases history.len(),
    {
        if history.len() == 0 {
            self
        } else {
            self.after(history.drop_last()).step(history.last())
        }
    }
}

/// What one change installs, whatever the slot held before.
pub open spec fn installed<R>(op: SlotOp<R>) -> Option<R> {
    match op {
        SlotOp::Install(value) => Some(value),
        SlotOp::Clear => None,
    }
}

/// What a pass that begins on `slot` settles on once it is past its gate,
/// where `resolve` tells what each computation resolves to.
pub open spec fn rendered<R, T, E>(
    slot: SlotState<R>,
    resolve: spec_fn(R) -> Result<T, E>,
) -> Result<Option<T>, E> {
    settled(
        match slot.current {
            Some(computation) => Some(resolve(computation)),
            None => None,
        },
    )
}

/// A fresh slot renders the empty placeholder.
pub proof fn lemma_fresh_slot_renders_empty<R, T, E>(resolve: spec_fn(R) -> Result<T, E>)
    ensures
        rendered(SlotState::<R>::fresh(), resolve) == Ok::<Option<T>, E>(None),
{
}

/// After `set`, a pass settles on what the installed computation resolves
/// to: its value, or its error unchanged. After a `clear` that follows, a
/// pass settles on the empty placeholder.
pub proof fn lemma_set_then_clear<R, T, E>(
    slot: SlotState<R>,
    computation: R,
    resolve: spec_fn(R) -> Result<T, E>,
)
    ensures
        rendered(slot.set(computation), resolve) == match resolve(computation) {
            Ok(value) => Ok::<Option<T>, E>(Some(value)),
            Err(error) => Err::<Option<T>, E>(error),
        },
        rendered(slot.set(computation).clear(), resolve) == Ok::<Option<T>, E>(None),
{
}

/// Of two `set` in a row only the second counts: a pass that begins
/// afterwards settles as if the first had never been made.
pub proof fn lemma_last_set_wins<R, T, E>(
    slot: SlotState<R>,
    first: R,
    second: R,
    resolve: spec_fn(R) -> Result<T, E>,
)
    ensures
        slot.set(first).set(second).current == Some(second),
        rendered(slot.set(first).set(second), resolve) == rendered(slot.set(second), resolve),
{
}

/// After any history of changes a slot holds what the last change
/// installed, and nothing of what came before it.
pub proof fn lemma_slot_holds_last_change<R>(slot: SlotState<R>, history: Seq<SlotOp<R>>)
    requires
        history.len() > 0,
    ensures
        slot.after(history).current == installed(history.last()),
{
}

/// Every `set` and every `clear` moves the revision, so no change of a slot
/// goes unnoticed.
pub proof fn lemma_every_change_moves_revision<R>(slot: SlotState<R>, op: SlotOp<R>)
    ensures
        slot.step(op).revision != slot.revision,
{
}

/// The revision of a slot never leaves `usize`.
pub proof fn lemma_revision_is_bounded<R>(slot: SlotState<R>, history: Seq<SlotOp<R>>)
    requires
        slot.revision <= usize::MAX,
    ensures
        slot.after(history).revision <= usize::MAX,
    decreases history.len(),
{
    if history.len() > 0 {
        lemma_revision_is_bounded(slot, history.drop_last());
    }
}

/// Alikeness of slot states is an equivalence, and it does not tell two
/// installed computations apart.
pub proof fn lemma_presence_is_an_equivalence<R>(
    a: SlotState<R>,
    b: SlotState<R>,
    c: SlotState<R>,
    first: R,
    second: R,
)
    ensures
        a.same_presence(a),
        a.same_presence(b) ==> b.same_presence(a),
        a.same_presence(b) && b.same_presence(c) ==> a.same_presence(c),
        a.set(first).same_presence(b.set(second)),
        !a.set(first).same_presence(b.clear()),
{
}

/// Two renderers bound to one slot read the same state, and the passes that
/// they begin settle alike, whatever gate each of them finds.
pub proof fn lemma_renderers_agree<R, T, E>(
    slot: PortletCtx<R>,
    first: PortletCtxRenderer<R>,
    second: PortletCtxRenderer<R>,
    resolve: spec_fn(R) -> Result<T, E>,
)
    requires
        first.slot() == slot@,
        second.slot() == slot@,
    ensures
        first.slot().current == second.slot().current,
        rendered(first.slot(), resolve) == rendered(second.slot(), resolve),
{
}

} // verus!
