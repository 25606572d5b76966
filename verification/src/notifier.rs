use vstd::prelude::*;

verus! {

// The latest-sequence notifier is a single-slot broadcast cell: publishing
// overwrites the slot and wakes all waiters, and a slow subscriber observes
// only the most recent value. That is exactly the semantics of a watch
// channel, which carries the cell here.

#[verifier::external_type_specification]
#[verifier::external_body]
#[verifier::reject_recursive_types(T)]
pub struct ExWatchSender<T>(tokio::sync::watch::Sender<T>);

#[verifier::external_type_specification]
#[verifier::external_body]
#[verifier::reject_recursive_types(T)]
pub struct ExWatchReceiver<T>(tokio::sync::watch::Receiver<T>);

/// The value currently held by the single-slot cell behind a watch sender:
/// `None` before any commit, and the sequence number most recently
/// published otherwise.
pub uninterp spec fn slot_latest(s: tokio::sync::watch::Sender<Option<u64>>) -> Option<u64>;

/// The identity of the single-slot cell a sender fronts: stable across
/// sends, and shared with every receiver subscribed from that sender.
pub uninterp spec fn cell_of(s: tokio::sync::watch::Sender<Option<u64>>) -> int;

/// The identity of the cell a receiver observes.
pub uninterp spec fn receiver_cell_of(r: tokio::sync::watch::Receiver<Option<u64>>) -> int;

/// Relies on `tokio::sync::watch::channel`: creates a single-slot cell
/// holding exactly the initial value handed to it.
#[verifier::external_body]
fn watch_channel_new(init: Option<u64>) -> (r: tokio::sync::watch::Sender<Option<u64>>)
    ensures
        slot_latest(r) == init,
{
    tokio::sync::watch::channel(init).0
}

/// Relies on `tokio::sync::watch::Sender::send_replace`: overwrites the
/// slot with the value sent, waking every waiting subscriber; it never
/// fails, whether or not receivers exist. The sender goes on fronting the
/// same cell.
#[verifier::external_body]
fn watch_send(s: &mut tokio::sync::watch::Sender<Option<u64>>, v: Option<u64>)
    ensures
        slot_latest(*final(s)) == v,
        cell_of(*final(s)) == cell_of(*old(s)),
{
    s.send_replace(v);
}

/// Relies on `tokio::sync::watch::Sender::borrow`: returns the most
/// recently sent value. Reading the cell as a function of the sender
/// value is sound only under this crate's discipline: the one sender is a
/// private field, sends go through an exclusive borrow, and the sender is
/// never cloned or exposed — receivers cannot write. So no send can race
/// this read.
#[verifier::external_body]
fn watch_current(s: &tokio::sync::watch::Sender<Option<u64>>) -> (r: Option<u64>)
    ensures
        r == slot_latest(*s),
{
    *s.borrow()
}

/// Relies on `tokio::sync::watch::Sender::subscribe`: returns a new
/// receiver observing the sender's own cell; a receiver sees the current
/// value at once and may await later changes. Receivers cannot write the
/// cell.
#[verifier::external_body]
fn watch_subscribe(s: &tokio::sync::watch::Sender<Option<u64>>) -> (r: tokio::sync::watch::Receiver<
    Option<u64>,
>)
    ensures
        receiver_cell_of(r) == cell_of(*s),
{
    s.subscribe()
}

/// The latest-sequence notifier of a frame log: a single-slot broadcast
/// cell holding the most recently committed sequence number, or `None`
/// before any commit.
pub struct FrameNotifier {
    sender: tokio::sync::watch::Sender<Option<u64>>,
}

impl FrameNotifier {
    /// The value the cell currently holds.
    pub closed spec fn latest(&self) -> Option<u64> {
        slot_latest(self.sender)
    }

    /// The identity of the cell this notifier publishes through.
    pub closed spec fn cell(&self) -> int {
        cell_of(self.sender)
    }

    /// A fresh notifier, holding no sequence number yet.
    pub fn new() -> (r: FrameNotifier)
        ensures
            r.latest() is None,
    {
        FrameNotifier { sender: watch_channel_new(None) }
    }

    /// Publish a newly committed sequence number, overwriting the slot and
    /// waking all waiting subscribers.
    pub fn publish(&mut self, frame_no: u64)
        ensures
            final(self).latest() == Some(frame_no),
            final(self).cell() == old(self).cell(),
    {
        watch_send(&mut self.sender, Some(frame_no));
    }

    /// The most recently published sequence number.
    pub fn current(&self) -> (r: Option<u64>)
        ensures
            r == self.latest(),
    {
        watch_current(&self.sender)
    }

    /// A new subscription handle on this notifier's own cell. The handle
    /// observes the current value immediately; awaiting a change on it is
    /// the caller's (asynchronous) business.
    pub fn subscribe(&self) -> (r: tokio::sync::watch::Receiver<Option<u64>>)
        ensures
            receiver_cell_of(r) == self.cell(),
    {
        watch_subscribe(&self.sender)
    }
}

/// Whether a waiter for "sequence number at least `target`" may resume
/// given the value the cell currently shows.
pub open spec fn spec_wait_satisfied(current: Option<u64>, target: u64) -> bool {
    match current {
        Some(v) => v >= target,
        None => false,
    }
}

/// The decision a polling waiter evaluates against the cell after each
/// wake: resume when the published value has reached the target, keep
/// waiting otherwise.
pub fn wait_satisfied(current: Option<u64>, target: u64) -> (r: bool)
    ensures
        r == spec_wait_satisfied(current, target),
{
    match current {
        Some(v) => v >= target,
        None => false,
    }
}

/// Law: a waiter for "sequence ≥ `target`" suspends exactly while the
/// published value is absent or below `target`, and resumes exactly once a
/// published value reaches it — the decision reads only the current value,
/// so intermediate published values change nothing.
pub proof fn lemma_wait_resumes_exactly_at_target(current: Option<u64>, target: u64)
    ensures
        spec_wait_satisfied(current, target) <==> (current matches Some(v) && v >= target),
        current is None ==> !spec_wait_satisfied(current, target),
{
}

/// Law: the wait decision is monotone in the published value: since the
/// publications of a frame log only increase, a waiter that could resume
/// never falls back to waiting.
pub proof fn lemma_wait_satisfied_monotone(v1: u64, v2: u64, target: u64)
    requires
        v1 <= v2,
        spec_wait_satisfied(Some(v1), target),
    ensures
        spec_wait_satisfied(Some(v2), target),
{
}

} // verus!
