//! The file-watch side of a reload: classifying filesystem events and
//! coalescing reload notifications into a single-slot bridge.
//!
//! The watch thread reduces each filesystem event to an [`FsEvent`] and
//! asks [`classify_fs_event`] whether to emit a reload; malformed or
//! unrelated events are ignored and never stop the watch.  Emitted
//! notifications land in a [`ReloadSlot`], which the frame driver
//! drains once per frame with [`process_pending`]: however many
//! notifications arrived between two frames, at most one reload runs,
//! and it re-reads the file, so it always compiles the latest content.
//! The trace lemmas at the end state the coalescing laws for whole
//! sequences of notifications and drains.

use vstd::prelude::*;

use crate::shader::CompileError;
use crate::state::RenderState;
use crate::state::reload_transition;

verus! {

/// A filesystem event, reduced to what the watch service reads of it:
/// whether it names a path at all, and whether its kind reports a
/// content modification of the watched file.
#[derive(Clone, Copy, Debug, PartialEq, Eq, Structural)]
pub struct FsEvent {
    pub carries_path: bool,
    pub is_modification: bool,
}

/// What the watch service does with one filesystem event.
#[derive(Clone, Copy, Debug, PartialEq, Eq, Structural)]
pub enum WatchAction {
    /// Send one reload notification to the frame driver.
    EmitReload,
    /// Log the event and move on; never stop the watch over it.
    Ignore,
}

/// Classify one filesystem event: a reload is emitted exactly for an
/// event that names a path and reports a content modification; anything
/// else — an event with no path, or an unrelated kind — is noise.
pub fn classify_fs_event(event: FsEvent) -> (a: WatchAction)
    ensures
        a is EmitReload <==> (event.carries_path && event.is_modification),
{
    if event.carries_path && event.is_modification {
        WatchAction::EmitReload
    } else {
        WatchAction::Ignore
    }
}

/// The single-slot notification bridge between the watch thread and the
/// frame driver.  A notification only sets the slot; notifications
/// arriving while one is already pending coalesce into it, which is
/// safe because a reload re-reads the file and is idempotent.
pub struct ReloadSlot {
    pub pending: bool,
}

impl ReloadSlot {
    /// A fresh slot holds no pending notification.
    pub fn new() -> (s: ReloadSlot)
        ensures
            !s.pending,
    {
        ReloadSlot { pending: false }
    }

    /// Record that the watched file changed.  Any number of calls
    /// before the next drain leave exactly one pending notification.
    pub fn notify(&mut self)
        ensures
            final(self).pending,
    {
        self.pending = true;
    }

    /// Drain the slot: report whether a notification was pending and
    /// clear it either way.
    pub fn take(&mut self) -> (r: bool)
        ensures
            r == old(self).pending,
            !final(self).pending,
    {
        let r = self.pending;
        self.pending = false;
        r
    }
}

/// Drain the slot at a frame boundary and run at most one reload: none
/// when no notification is pending, exactly one — on `read`, the file
/// content as it stands now — when one is.  Either way the slot is
/// empty afterwards, so the next frame reloads only if notified anew.
pub fn process_pending(
    slot: &mut ReloadSlot,
    state: &mut RenderState,
    read: Result<String, String>,
) -> (r: Option<Result<(), CompileError>>)
    requires
        old(state).inv(),
        old(state).generation < u64::MAX,
    ensures
        final(state).inv(),
        !final(slot).pending,
        !old(slot).pending ==> (r is None && *final(state) == *old(state)),
        old(slot).pending ==> (r matches Some(v) && reload_transition(
            *old(state),
            *final(state),
            read,
            v,
        )),
{
    if slot.take() {
        Some(state.on_reload(read))
    } else {
        None
    }
}

/// One step of a slot's history: a notification from the watch thread,
/// or a drain at a frame boundary.
#[derive(Clone, Copy, Debug, PartialEq, Eq, Structural)]
pub enum SlotOp {
    Notify,
    Take,
}

/// A history of `n` notifications and nothing else.
pub open spec fn notifies(n: nat) -> Seq<SlotOp> {
    Seq::new(n, |i: int| SlotOp::Notify)
}

/// How many notifications a history holds.
pub open spec fn notify_count(ops: Seq<SlotOp>) -> nat
    decreases ops.len(),
{
    if ops.len() == 0 {
        0
    } else {
        notify_count(ops.drop_last()) + if ops.last() is Notify {
            1nat
        } else {
            0nat
        }
    }
}

/// Whether a notification is pending after a slot that started with
/// `pending0` has seen the history `ops`.
pub open spec fn run_pending(pending0: bool, ops: Seq<SlotOp>) -> bool
    decreases ops.len(),
{
    if ops.len() == 0 {
        pending0
    } else {
        match ops.last() {
            SlotOp::Notify => true,
            SlotOp::Take => false,
        }
    }
}

/// How many drains found a notification pending — that is, how many
/// reloads the frame driver ran — over the history `ops`.
pub open spec fn reload_count(pending0: bool, ops: Seq<SlotOp>) -> nat
    decreases ops.len(),
{
    if ops.len() == 0 {
        0
    } else {
        match ops.last() {
            SlotOp::Notify => reload_count(pending0, ops.drop_last()),
            SlotOp::Take => reload_count(pending0, ops.drop_last()) + if run_pending(
                pending0,
                ops.drop_last(),
            ) {
                1nat
            } else {
                0nat
            },
        }
    }
}

/// A history of notifications alone never runs a reload: reloads happen
/// only at frame boundaries, when the driver drains the slot.
pub proof fn lemma_notifies_alone_no_reload(pending0: bool, n: nat)
    ensures
        reload_count(pending0, notifies(n)) == 0,
    decreases n,
{
    if n > 0 {
        assert(notifies(n).drop_last() =~= notifies((n - 1) as nat));
        lemma_notifies_alone_no_reload(pending0, (n - 1) as nat);
    }
}

/// Coalescing: however many notifications arrive between two frames —
/// any `n >= 1` — the single drain at the next frame boundary runs
/// exactly one reload, and leaves nothing pending, so the frame after
/// it runs none.
pub proof fn lemma_burst_drains_to_one(pending0: bool, n: nat)
    requires
        n >= 1,
    ensures
        reload_count(pending0, notifies(n).push(SlotOp::Take)) == 1,
        !run_pending(pending0, notifies(n).push(SlotOp::Take)),
{
    let ops = notifies(n).push(SlotOp::Take);
    assert(ops.drop_last() =~= notifies(n));
    lemma_notifies_alone_no_reload(pending0, n);
    assert(notifies(n).last() is Notify);
}

/// A save is never lost: in any history where some notification is
/// followed — however much later, and whatever else happens in between
/// — by a drain, at least one reload runs.
pub proof fn lemma_notify_then_take_reloads(pending0: bool, ops: Seq<SlotOp>)
    requires
        exists|i: int, j: int|
            0 <= i < j < ops.len() && #[trigger] ops[i] is Notify && #[trigger] ops[j] is Take,
    ensures
        reload_count(pending0, ops) >= 1,
    decreases ops.len(),
{
    let (i, j): (int, int) = choose|i: int, j: int|
        0 <= i < j < ops.len() && #[trigger] ops[i] is Notify && #[trigger] ops[j] is Take;
    let rest = ops.drop_last();
    match ops.last() {
        SlotOp::Notify => {
            // The drain at `j` is not the last step, so the pair sits
            // wholly inside the shorter history.
            assert(rest[i] is Notify && rest[j] is Take);
            lemma_notify_then_take_reloads(pending0, rest);
        },
        SlotOp::Take => {
            if exists|i2: int, j2: int|
                0 <= i2 < j2 < rest.len() && #[trigger] rest[i2] is Notify && #[trigger] rest[j2]
                    is Take {
                lemma_notify_then_take_reloads(pending0, rest);
            } else {
                // The drain at `j` can only be the last step, so the
                // notification at `i` is still pending when it runs:
                // were any later step of the shorter history a drain,
                // it would complete a pair inside it.
                assert(ops[i] is Notify && i < ops.len() - 1);
                assert(forall|j2: int|
                    i < j2 < rest.len() ==> !(#[trigger] rest[j2] is Take)) by {
                    assert(forall|j2: int| i < j2 < rest.len() && rest[j2] is Take ==> (0 <= i < j2
                        < rest.len() && rest[i] is Notify && #[trigger] rest[j2] is Take));
                }
                lemma_pending_carries_over(pending0, rest, i);
                assert(run_pending(pending0, rest));
            }
        },
    }
}

/// If the step at `i` is a notification and no later step drains, a
/// notification is still pending at the end of the history.
proof fn lemma_pending_carries_over(pending0: bool, ops: Seq<SlotOp>, i: int)
    requires
        0 <= i < ops.len(),
        ops[i] is Notify,
        forall|j: int| i < j < ops.len() ==> !(#[trigger] ops[j] is Take),
    ensures
        run_pending(pending0, ops),
{
    if i == ops.len() - 1 {
        assert(ops.last() is Notify);
    } else {
        assert(!(ops.last() is Take));
        assert(ops.last() is Notify);
    }
}

/// Over any interleaving of notifications and drains, the number of
/// reloads that run never exceeds the number of notifications (plus one
/// for a notification already pending at the start): a burst of `n`
/// saves causes at most `n` reloads.
pub proof fn lemma_reloads_at_most_notifications(pending0: bool, ops: Seq<SlotOp>)
    ensures
        reload_count(pending0, ops) + (if run_pending(pending0, ops) {
            1nat
        } else {
            0nat
        }) <= notify_count(ops) + (if pending0 {
            1nat
        } else {
            0nat
        }),
        reload_count(pending0, ops) <= notify_count(ops) + (if pending0 {
            1nat
        } else {
            0nat
        }),
    decreases ops.len(),
{
    if ops.len() > 0 {
        lemma_reloads_at_most_notifications(pending0, ops.drop_last());
    }
}

} // verus!
