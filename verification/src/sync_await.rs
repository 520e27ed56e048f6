//! The completion gate: a one-shot latch with fan-out notification.
//!
//! The primary branch of a request owns a [`Waiter`] and calls
//! [`Waiter::complete`] on every exit path. Secondary regions subscribe
//! through a [`MaybeWaiter`] and receive a [`WaiterHandle`], whose
//! [`wait`](WaiterHandle::wait) decides whether the caller may proceed at
//! once or has to suspend on a receiving end of the broadcast channel that
//! belongs to this gate.
//!
//! A gate is a plain value: `complete` takes `&mut self`, `subscribe` takes
//! `&self`. Whoever shares a gate between tasks keeps it behind one lock, so
//! that a receiving end is always acquired under the lock that `complete`
//! takes to set the flag. A completion can then not be missed by both the
//! flag and the channel: this is what [`lemma_no_waiter_is_missed`] states.
//!
//! Waking the suspended receiving ends is the channel's work and is not
//! proved here; what is proved is that every waiter either proceeds at once
//! or holds a receiving end that was subscribed before the only broadcast.

use vstd::prelude::*;
use tokio::sync::broadcast::{Receiver, Sender};

verus! {

/// `tokio::sync::broadcast::Sender`, the sending half of a broadcast channel.
/// Nothing inside it is visible to the verifier.
#[verifier::external_type_specification]
#[verifier::external_body]
#[verifier::reject_recursive_types(T)]
pub struct ExSender<T>(Sender<T>);

/// `tokio::sync::broadcast::Receiver`, one receiving end of a broadcast
/// channel. Nothing inside it is visible to the verifier.
#[verifier::external_type_specification]
#[verifier::external_body]
#[verifier::reject_recursive_types(T)]
pub struct ExReceiver<T>(Receiver<T>);

/// The capacity of a gate's channel. A gate broadcasts at most one message,
/// so no receiving end can ever lag behind.
pub const CHANNEL_CAPACITY: usize = 1;

/// The one notification that a gate broadcasts.
///
/// Only [`Waiter::complete`] makes one, so whoever holds a `Message` has
/// received it from a gate that was completed.
pub struct Message(());

impl Clone for Message {
    fn clone(&self) -> (copy: Self)
        ensures
            copy == *self,
    {
        Message(())
    }
}

/// What a gate is, as far as its waiters can tell.
pub enum GateState {
    /// The primary branch has not finished.
    Pending,
    /// The primary branch has finished. A gate stays here for good.
    Resolved,
}

impl GateState {
    /// The state after `complete`.
    pub open spec fn complete(self) -> GateState {
        GateState::Resolved
    }

    /// How many broadcasts a `complete` in this state performs.
    pub open spec fn signals(self) -> nat {
        if self is Pending {
            1
        } else {
            0
        }
    }

    /// Whether a waiter that subscribes in this state proceeds at once.
    pub open spec fn admits(self) -> bool {
        self is Resolved
    }
}

/// Whether a waiter bound to `gate` proceeds at once. Without a gate there
/// is nothing to wait for.
pub open spec fn admitted(gate: Option<GateState>) -> bool {
    match gate {
        Some(state) => state.admits(),
        None => true,
    }
}

/// What a call of [`Waiter::complete`] did.
#[derive(Clone, Copy, Debug, PartialEq, Eq, Structural)]
pub enum Completion {
    /// This call resolved its gate, and the broadcast went to this many
    /// subscribed receiving ends (at least one).
    Notified(usize),
    /// This call resolved its gate while no receiving end was subscribed.
    NoSubscribers,
    /// Its gate had been resolved before; nothing was broadcast.
    AlreadyResolved,
}

impl Completion {
    /// The outcome of the call that resolves a gate, from what the broadcast
    /// returned: the number of receiving ends, or nothing if there was none.
    pub open spec fn of_broadcast(sent: Option<usize>) -> Completion {
        match sent {
            Some(receivers) => Completion::Notified(receivers),
            None => Completion::NoSubscribers,
        }
    }

    /// The outcome of the call that resolves a gate, from what the broadcast
    /// returned.
    pub fn from_broadcast(sent: Option<usize>) -> (outcome: Completion)
        ensures
            outcome == Completion::of_broadcast(sent),
    {
        match sent {
            Some(receivers) => Completion::Notified(receivers),
            None => Completion::NoSubscribers,
        }
    }
}

/// The completion gate of one request.
pub struct Waiter {
    sender: Sender<Message>,
    resolved: bool,
}

impl View for Waiter {
    type V = GateState;

    closed spec fn view(&self) -> GateState {
        if self.resolved {
            GateState::Resolved
        } else {
            GateState::Pending
        }
    }
}

/// A gate that may be absent: what a lookup of the request's gate found.
#[derive(Clone, Copy)]
pub struct MaybeWaiter<'a>(Option<&'a Waiter>);

struct WaiterHandleInner<'a> {
    waiter: &'a Waiter,
    receiver: Receiver<Message>,
}

/// One subscription to a gate, consumed by [`wait`](WaiterHandle::wait).
/// It is unbound where no gate exists.
pub struct WaiterHandle<'a>(Option<WaiterHandleInner<'a>>);

/// What a waiter has to do.
pub enum WaitStep {
    /// Proceed: there is no gate, or it is resolved.
    Ready,
    /// Suspend until one [`Message`] arrives on this receiving end, which
    /// was subscribed while its gate was pending.
    Suspend(Receiver<Message>),
}

/// Calls `tokio::sync::broadcast::channel` and drops the receiving end
/// that comes with the sender, so that the channel starts without
/// subscribers. The outside function panics on a capacity of zero or above
/// `usize::MAX / 2`; nothing is claimed of the sender.
#[verifier::external_body]
fn open_channel(capacity: usize) -> (sender: Sender<Message>)
    requires
        0 < capacity <= usize::MAX / 2,
{
    let (sender, _) = tokio::sync::broadcast::channel(capacity);
    sender
}

/// Calls `tokio::sync::broadcast::Sender::subscribe`, which registers a new
/// receiving end for the values sent after this call. Nothing is claimed of
/// the receiving end. The outside function panics where the channel counts
/// a quarter of `usize::MAX` receiving ends that were never dropped; this
/// module drops or hands out every receiving end it makes.
#[verifier::external_body]
fn subscribe_to(sender: &Sender<Message>) -> (receiver: Receiver<Message>) {
    sender.subscribe()
}

/// Calls `tokio::sync::broadcast::Sender::send`. The outside function
/// returns the number of receiving ends subscribed at the time of the call,
/// or the message itself if there is none; so a number that comes back is
/// at least one. How many there are is the channel's state and no function
/// of the arguments.
#[verifier::external_body]
fn broadcast(sender: &Sender<Message>, message: Message) -> (sent: Option<usize>)
    ensures
        sent matches Some(receivers) ==> receivers >= 1,
{
    match sender.send(message) {
        Ok(receivers) => Some(receivers),
        Err(_) => None,
    }
}

/// Calls `tokio::sync::broadcast::Sender::receiver_count`, the number of
/// receiving ends subscribed right now. It changes whenever a receiving end
/// is made or dropped, so nothing is claimed of it.
#[verifier::external_body]
fn subscribers(sender: &Sender<Message>) -> (count: usize) {
    sender.receiver_count()
}

/// Creates the completion gate of a request: pending, with no subscriber.
pub fn provide_async_wait() -> (waiter: Waiter)
    ensures
        waiter@ is Pending,
{
    Waiter { sender: open_channel(CHANNEL_CAPACITY), resolved: false }
}

impl Waiter {
    /// Wraps what a lookup of the request's gate found.
    pub fn maybe<'a>(found: Option<&'a Waiter>) -> (gate: MaybeWaiter<'a>)
        ensures
            gate.found() == found,
    {
        MaybeWaiter(found)
    }

    /// Whether this gate is resolved.
    pub fn is_resolved(&self) -> (resolved: bool)
        ensures
            resolved == (self@ is Resolved),
    {
        self.resolved
    }

    /// The number of receiving ends subscribed to this gate right now, as the
    /// channel reports it. The number moves whenever a receiving end is made
    /// or dropped, so it is a snapshot for diagnostics and nothing is
    /// promised of it.
    pub fn count(&self) -> usize {
        subscribers(&self.sender)
    }

    /// Signals completion.
    ///
    /// The first call resolves this gate and broadcasts one [`Message`] to
    /// the receiving ends subscribed at that time. Every later call leaves
    /// this gate as it is and broadcasts nothing, so completion is signalled
    /// at most once and never reverts.
    pub fn complete(&mut self) -> (outcome: Completion)
        ensures
            final(self)@ == old(self)@.complete(),
            old(self)@ is Resolved <==> outcome is AlreadyResolved,
            outcome matches Completion::Notified(receivers) ==> receivers >= 1,
    {
        if self.resolved {
            Completion::AlreadyResolved
        } else {
            self.resolved = true;
            Completion::from_broadcast(broadcast(&self.sender, Message(())))
        }
    }
}

impl<'a> MaybeWaiter<'a> {
    /// What the lookup found.
    pub closed spec fn found(&self) -> Option<&'a Waiter> {
        self.0
    }

    /// The state of what the lookup found.
    pub open spec fn gate(&self) -> Option<GateState> {
        match self.found() {
            Some(waiter) => Some(waiter@),
            None => None,
        }
    }

    /// Whether a gate was found.
    pub fn is_some(&self) -> (present: bool)
        ensures
            present == self.found().is_some(),
    {
        self.0.is_some()
    }

    /// Subscribes, if a gate was found.
    ///
    /// The handle is bound to that gate in its present state and carries a
    /// receiving end registered now; without a gate the handle is unbound.
    pub fn subscribe(&self) -> (handle: WaiterHandle<'a>)
        ensures
            handle.gate() == self.gate(),
    {
        match self.0 {
            Some(waiter) => WaiterHandle(
                Some(WaiterHandleInner { waiter, receiver: subscribe_to(&waiter.sender) }),
            ),
            None => WaiterHandle(None),
        }
    }
}

impl<'a> WaiterHandle<'a> {
    /// The state of what the handle is bound to; `None` for an
    /// unbound handle.
    pub closed spec fn gate(&self) -> Option<GateState> {
        match self.0 {
            Some(inner) => Some(inner.waiter@),
            None => None,
        }
    }

    /// Whether the handle is bound to a gate.
    pub fn is_bound(&self) -> (bound: bool)
        ensures
            bound == self.gate().is_some(),
    {
        self.0.is_some()
    }

    /// Decides the wait.
    ///
    /// An unbound handle, and one whose gate is resolved, is ready at once
    /// and its receiving end is dropped unused. Otherwise the caller has to
    /// suspend on the receiving end, which was registered before the only
    /// broadcast.
    pub fn wait(self) -> (step: WaitStep)
        ensures
            step is Ready <==> admitted(self.gate()),
    {
        match self.0 {
            Some(inner) => {
                if inner.waiter.resolved {
                    WaitStep::Ready
                } else {
                    WaitStep::Suspend(inner.receiver)
                }
            },
            None => WaitStep::Ready,
        }
    }
}

/// One operation on a gate, as a step in the history of a request.
pub enum GateOp {
    /// The primary branch calls [`Waiter::complete`].
    Complete,
    /// A waiter subscribes and calls [`WaiterHandle::wait`].
    Wait,
}

impl GateState {
    /// The state after one operation. Only `complete` changes a gate.
    pub open spec fn step(self, op: GateOp) -> GateState {
        match op {
            GateOp::Complete => self.complete(),
            GateOp::Wait => self,
        }
    }

    /// The state after a history of operations.
    pub open spec fn after(self, history: Seq<GateOp>) -> GateState
        decreases history.len(),
    {
        if history.len() == 0 {
            self
        } else {
            self.after(history.drop_last()).step(history.last())
        }
    }

    /// How many broadcasts a history of operations performs.
    pub open spec fn broadcasts(self, history: Seq<GateOp>) -> nat
        decreases history.len(),
    {
        if history.len() == 0 {
            0
        } else {
            let earlier = history.drop_last();
            let last: nat = match history.last() {
                GateOp::Complete => self.after(earlier).signals(),
                GateOp::Wait => 0,
            };
            self.broadcasts(earlier) + last
        }
    }
}

/// Whether `complete` is called anywhere in a history.
pub open spec fn completes(history: Seq<GateOp>) -> bool {
    exists|i: int| 0 <= i < history.len() && history[i] is Complete
}

/// A gate is resolved after a history exactly if it was resolved before or
/// the history holds a `complete`.
pub proof fn lemma_resolved_iff_completed(start: GateState, history: Seq<GateOp>)
    ensures
        start.after(history) is Resolved <==> start is Resolved || completes(history),
    decreases history.len(),
{
    if history.len() > 0 {
        let earlier = history.drop_last();
        lemma_resolved_iff_completed(start, earlier);
        if completes(earlier) {
            let i = choose|i: int| 0 <= i < earlier.len() && earlier[i] is Complete;
            assert(history[i] is Complete);
        }
        if history.last() is Complete {
            assert(history[history.len() - 1] is Complete);
        }
        if completes(history) && !(history.last() is Complete) {
            let i = choose|i: int| 0 <= i < history.len() && history[i] is Complete;
            assert(earlier[i] is Complete);
        }
    }
}

/// Once resolved, a gate stays resolved whatever is done with it.
pub proof fn lemma_resolved_never_reverts(history: Seq<GateOp>)
    ensures
        GateState::Resolved.after(history) is Resolved,
{
    lemma_resolved_iff_completed(GateState::Resolved, history);
}

/// Calling `complete` twice leaves a gate as one call does, and the second
/// call broadcasts nothing.
pub proof fn lemma_complete_is_idempotent(gate: GateState)
    ensures
        gate.complete().complete() == gate.complete(),
        gate.complete().signals() == 0,
{
}

/// A history broadcasts once if it starts on a pending gate and holds a
/// `complete`, however many; otherwise it broadcasts nothing. So completion
/// is signalled at most once.
pub proof fn lemma_signalled_at_most_once(start: GateState, history: Seq<GateOp>)
    ensures
        start.broadcasts(history) == if start is Pending && completes(history) {
            1nat
        } else {
            0nat
        },
        start.broadcasts(history) <= 1,
    decreases history.len(),
{
    if history.len() > 0 {
        let earlier = history.drop_last();
        lemma_signalled_at_most_once(start, earlier);
        lemma_resolved_iff_completed(start, earlier);
        lemma_resolved_iff_completed(start, history);
    }
}

/// A history may be cut in two: the second part runs from the state that the
/// first part leaves, and the broadcasts add up.
pub proof fn lemma_history_splits(start: GateState, first: Seq<GateOp>, second: Seq<GateOp>)
    ensures
        start.after(first + second) == start.after(first).after(second),
        start.broadcasts(first + second) == start.broadcasts(first) + start.after(
            first,
        ).broadcasts(second),
    decreases second.len(),
{
    if second.len() == 0 {
        assert(first + second =~= first);
    } else {
        assert((first + second).drop_last() =~= first + second.drop_last());
        assert((first + second).last() == second.last());
        lemma_history_splits(start, first, second.drop_last());
    }
}

/// On a gate that starts pending, the waiter at position `at` of a history
/// proceeds at once exactly if `complete` was called before it; otherwise it
/// has to suspend.
pub proof fn lemma_wait_proceeds_iff_completed(history: Seq<GateOp>, at: int)
    requires
        0 <= at < history.len(),
        history[at] is Wait,
    ensures
        GateState::Pending.after(history.take(at)).admits() <==> completes(history.take(at)),
{
    lemma_resolved_iff_completed(GateState::Pending, history.take(at));
}

/// On a gate that starts pending and is completed at some point, however
/// often, exactly one broadcast is made, and every waiter of the history
/// either proceeds at once or subscribes before that broadcast. No waiter
/// subscribes to a gate that will stay silent.
pub proof fn lemma_no_waiter_is_missed(history: Seq<GateOp>, at: int)
    requires
        0 <= at < history.len(),
        history[at] is Wait,
        completes(history),
    ensures
        GateState::Pending.broadcasts(history) == 1,
        GateState::Pending.after(history.take(at)).admits() || GateState::Pending.after(
            history.take(at),
        ).broadcasts(history.skip(at)) == 1,
{
    let before = history.take(at);
    let rest = history.skip(at);
    assert(before + rest =~= history);
    lemma_signalled_at_most_once(GateState::Pending, history);
    lemma_signalled_at_most_once(GateState::Pending, before);
    lemma_history_splits(GateState::Pending, before, rest);
    lemma_resolved_iff_completed(GateState::Pending, before);
}

/// While `complete` is never called, no waiter proceeds and nothing is
/// broadcast: every waiter stays suspended for good. Signalling completion on
/// every exit path is the producer's obligation.
pub proof fn lemma_never_completed_never_admits(history: Seq<GateOp>, at: int)
    requires
        0 <= at <= history.len(),
        !completes(history),
    ensures
        !GateState::Pending.after(history.take(at)).admits(),
        GateState::Pending.broadcasts(history) == 0,
{
    let before = history.take(at);
    lemma_resolved_iff_completed(GateState::Pending, before);
    if completes(before) {
        let i = choose|i: int| 0 <= i < before.len() && before[i] is Complete;
        assert(history[i] is Complete);
    }
    lemma_signalled_at_most_once(GateState::Pending, history);
}

} // verus!
