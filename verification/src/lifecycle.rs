//! What holds of every run of a vault operation.
//!
//! A run is an operation's first step followed by the outcomes that its caller
//! reports, one for each action asked. [`run`] replays such a run on
//! mathematical values and keeps the book: the actions that were asked, in
//! order, and the `locked` flag as the store holds it. The laws below are
//! proved of all runs, whatever the outside world answers.

use vstd::prelude::*;
use crate::process_health::listing_shows_defunct;
use crate::vault_handler::{
    change_data_dir_spec,
    change_mount_point_spec,
    failed,
    lock_spec,
    resume_spec,
    succeeded,
    unlock_spec,
    ActionView,
    EventView,
    HandlerView,
    PendingView,
    StepView,
};
use crate::vault_handler_error::VaultHandlerError;

verus! {

/// The stored `locked` flag once `action` has been answered by `event`: a
/// flag that was stored successfully replaces the old one, and nothing else
/// touches it.
pub open spec fn stored_after(locked: bool, action: ActionView, event: EventView) -> bool {
    match action {
        ActionView::PersistLocked { id, locked: value } => match event {
            EventView::Persisted { ok: true } => value,
            _ => locked,
        },
        _ => locked,
    }
}

/// Where a run has got to.
pub struct Run {
    /// The handler after the last outcome.
    pub handler: HandlerView,
    /// The `locked` flag as the store holds it.
    pub locked: bool,
    /// The last step: the result, or the action that no outcome has answered
    /// yet.
    pub step: StepView,
    /// The actions that were answered, in the order in which they were asked.
    pub trace: Seq<ActionView>,
}

/// Replays a run: from handler `h`, stored flag `locked` and step `step`, the
/// outcomes `events` are fed in one after the other until the operation is
/// done or the outcomes run out.
pub open spec fn run(h: HandlerView, locked: bool, step: StepView, events: Seq<EventView>) -> Run
    decreases events.len(),
{
    match step {
        StepView::Done(_) => Run { handler: h, locked, step, trace: Seq::empty() },
        StepView::Await { pending, action } => if events.len() == 0 {
            Run { handler: h, locked, step, trace: Seq::empty() }
        } else {
            let next = resume_spec(h, pending, events[0]);
            let rest = run(
                next.0,
                stored_after(locked, action, events[0]),
                next.1,
                events.drop_first(),
            );
            Run { trace: seq![action] + rest.trace, ..rest }
        },
    }
}

/// `p` is a phase of a lock transition.
pub open spec fn in_lock(p: PendingView) -> bool {
    p is LockPersisting || p is LockTerminating || p is LockReadingVault || p is LockUnmounting
}

/// Whether an unlock follows the lock transition that `p` is a phase of.
pub open spec fn reopens(p: PendingView) -> bool {
    match p {
        PendingView::LockPersisting { mount_point, reopen } => reopen,
        PendingView::LockTerminating { mount_point, reopen } => reopen,
        PendingView::LockReadingVault { reopen } => reopen,
        PendingView::LockUnmounting { reopen } => reopen,
        _ => false,
    }
}

/// The phase `p` of a lock transition, with an unlock to follow.
pub open spec fn reopening(p: PendingView) -> PendingView {
    match p {
        PendingView::LockPersisting { mount_point, reopen } => PendingView::LockPersisting {
            mount_point,
            reopen: true,
        },
        PendingView::LockTerminating { mount_point, reopen } => PendingView::LockTerminating {
            mount_point,
            reopen: true,
        },
        PendingView::LockReadingVault { reopen } => PendingView::LockReadingVault { reopen: true },
        PendingView::LockUnmounting { reopen } => PendingView::LockUnmounting { reopen: true },
        _ => p,
    }
}

/// An operation that succeeds from phase `p` leaves the vault locked: `p` is
/// a phase of a lock transition that no unlock follows.
pub open spec fn ends_locked(p: PendingView) -> bool {
    in_lock(p) && !reopens(p)
}

/// The handler `h`, the stored flag `locked`, the phase `p` and the action
/// `a` fit together as they do in every run that an operation of the handler
/// began: the flag is written in the two persisting phases only; past the
/// first phase of a lock transition the intent is stored and no process is
/// tracked; an unlock tracks a process only once its health is established.
pub open spec fn coherent(h: HandlerView, locked: bool, p: PendingView, a: ActionView) -> bool {
    match p {
        PendingView::LockPersisting { mount_point, reopen } => a == (ActionView::PersistLocked {
            id: h.id,
            locked: true,
        }),
        PendingView::LockTerminating { mount_point, reopen } => !(a is PersistLocked) && locked
            && h.child is None,
        PendingView::LockReadingVault { reopen } => !(a is PersistLocked) && locked
            && h.child is None,
        PendingView::LockUnmounting { reopen } => !(a is PersistLocked) && locked
            && h.child is None,
        PendingView::RelocateReadingVault => !(a is PersistLocked),
        PendingView::UnlockPersisting => a == (ActionView::PersistLocked {
            id: h.id,
            locked: false,
        }) && h.child is Some,
        _ => !(a is PersistLocked) && h.child is None,
    }
}

/// A step of a coherent run that succeeds leaves handler and store in
/// agreement: locked with no process, or unlocked with one.
proof fn lemma_success_agrees(
    h: HandlerView,
    locked: bool,
    p: PendingView,
    a: ActionView,
    events: Seq<EventView>,
)
    requires
        coherent(h, locked, p, a),
    ensures
        ({
            let r = run(h, locked, StepView::Await { pending: p, action: a }, events);
            r.step == succeeded() ==> if ends_locked(p) {
                r.locked && r.handler.child is None
            } else {
                !r.locked && r.handler.child is Some
            }
        }),
    decreases events.len(),
{
    if events.len() > 0 {
        let next = resume_spec(h, p, events[0]);
        let flag = stored_after(locked, a, events[0]);
        match next.1 {
            StepView::Done(_) => {
                assert(run(next.0, flag, next.1, events.drop_first()).step == next.1);
            },
            StepView::Await { pending, action } => {
                assert(coherent(next.0, flag, pending, action));
                assert(ends_locked(pending) == ends_locked(p));
                lemma_success_agrees(next.0, flag, pending, action, events.drop_first());
            },
        }
    }
}

/// The number of outcomes after which an operation that stands at `p` has
/// ended at the latest.
pub open spec fn remaining(p: PendingView) -> nat {
    let unlock: nat = if reopens(p) {
        7
    } else {
        0
    };
    match p {
        PendingView::LockPersisting { mount_point, reopen } => 4 + unlock,
        PendingView::LockTerminating { mount_point, reopen } => 3 + unlock,
        PendingView::LockReadingVault { reopen } => 2 + unlock,
        PendingView::LockUnmounting { reopen } => 1 + unlock,
        PendingView::RelocateReadingVault => 12,
        PendingView::UnlockOpeningLogs => 7,
        PendingView::UnlockReadingVault => 6,
        PendingView::UnlockSpawning => 5,
        PendingView::UnlockWaiting => 4,
        PendingView::UnlockProbing { pid } => 3,
        PendingView::UnlockListing { pid } => 2,
        PendingView::UnlockKilling => 1,
        PendingView::UnlockPersisting => 1,
    }
}

/// Every operation ends: whatever the outcomes are, an operation that stands
/// at `p` asks no more than `remaining(p)` further actions, and once that
/// many outcomes are in, it has its result. A lock takes four outcomes at
/// most, an unlock seven, a relocation twelve.
pub proof fn law_every_operation_ends(
    h: HandlerView,
    locked: bool,
    p: PendingView,
    a: ActionView,
    events: Seq<EventView>,
)
    ensures
        ({
            let r = run(h, locked, StepView::Await { pending: p, action: a }, events);
            &&& r.trace.len() <= remaining(p)
            &&& r.trace.len() <= events.len()
            &&& events.len() >= remaining(p) ==> r.step is Done
        }),
    decreases events.len(),
{
    if events.len() > 0 {
        let next = resume_spec(h, p, events[0]);
        let flag = stored_after(locked, a, events[0]);
        match next.1 {
            StepView::Done(_) => {
                assert(run(next.0, flag, next.1, events.drop_first()).trace.len() == 0);
            },
            StepView::Await { pending, action } => {
                assert(remaining(pending) < remaining(p));
                law_every_operation_ends(next.0, flag, pending, action, events.drop_first());
            },
        }
    }
}

/// The kinds of failure in which an operation that stands at `p` can end: a
/// lock transition fails as a lock, an unlock as an unlock, and a relocation
/// passes on the failure of its lock or of its unlock, or fails as a
/// relocation where it cannot read the record.
pub open spec fn may_fail_with(p: PendingView, kind: VaultHandlerError) -> bool {
    if p is RelocateReadingVault {
        kind is CannotChangeDataDir || kind is CannotLockVault || kind is CannotUnlockVault
    } else if in_lock(p) {
        kind is CannotLockVault || (reopens(p) && kind is CannotUnlockVault)
    } else {
        kind is CannotUnlockVault
    }
}

/// Whatever the outcomes are, an operation that stands at `p` fails with one
/// of the kinds that `may_fail_with` allows it.
proof fn lemma_failure_kinds(
    h: HandlerView,
    locked: bool,
    p: PendingView,
    a: ActionView,
    events: Seq<EventView>,
    kind: VaultHandlerError,
)
    requires
        run(h, locked, StepView::Await { pending: p, action: a }, events).step == failed(kind),
    ensures
        may_fail_with(p, kind),
    decreases events.len(),
{
    if events.len() > 0 {
        let next = resume_spec(h, p, events[0]);
        let flag = stored_after(locked, a, events[0]);
        match next.1 {
            StepView::Done(_) => {
                assert(run(next.0, flag, next.1, events.drop_first()).step == next.1);
            },
            StepView::Await { pending, action } => {
                lemma_failure_kinds(next.0, flag, pending, action, events.drop_first(), kind);
            },
        }
    }
}

/// Every failure carries the kind of the transition that failed. Whatever
/// the outcomes are, a lock fails with `CannotLockVault` only and an unlock
/// with `CannotUnlockVault` only; a relocation of the mount point fails with
/// one of these two, and a relocation of the data directory with one of
/// these two or with `CannotChangeDataDir`. No operation fails with
/// `CannotChangeMountPoint`.
pub proof fn law_failures_name_their_transition(
    h: HandlerView,
    locked: bool,
    mount_point: Option<Seq<char>>,
    path: Seq<char>,
    events: Seq<EventView>,
    kind: VaultHandlerError,
)
    ensures
        run(h, locked, lock_spec(h, mount_point).1, events).step == failed(kind)
            ==> kind is CannotLockVault,
        run(h, locked, unlock_spec(h).1, events).step == failed(kind) ==> kind is CannotUnlockVault,
        run(h, locked, change_mount_point_spec(h, path).1, events).step == failed(kind)
            ==> kind is CannotLockVault || kind is CannotUnlockVault,
        run(h, locked, change_data_dir_spec(h, path).1, events).step == failed(kind)
            ==> kind is CannotLockVault || kind is CannotUnlockVault
            || kind is CannotChangeDataDir,
{
    match lock_spec(h, mount_point).1 {
        StepView::Await { pending, action } => {
            if run(h, locked, lock_spec(h, mount_point).1, events).step == failed(kind) {
                lemma_failure_kinds(h, locked, pending, action, events, kind);
            }
        },
        StepView::Done(_) => {},
    }
    match unlock_spec(h).1 {
        StepView::Await { pending, action } => {
            if run(h, locked, unlock_spec(h).1, events).step == failed(kind) {
                lemma_failure_kinds(h, locked, pending, action, events, kind);
            }
        },
        StepView::Done(_) => {},
    }
    match change_mount_point_spec(h, path).1 {
        StepView::Await { pending, action } => {
            if run(h, locked, change_mount_point_spec(h, path).1, events).step == failed(kind) {
                lemma_failure_kinds(h, locked, pending, action, events, kind);
            }
        },
        StepView::Done(_) => {},
    }
    match change_data_dir_spec(h, path).1 {
        StepView::Await { pending, action } => {
            if run(h, locked, change_data_dir_spec(h, path).1, events).step == failed(kind) {
                lemma_failure_kinds(h, locked, pending, action, events, kind);
            }
        },
        StepView::Done(_) => {},
    }
}

/// An unlock that cannot read the vault's record fails as an unlock, at
/// once: no process is started, none is tracked, and nothing is written to
/// the store.
pub proof fn law_unreadable_record_fails_unlock(h: HandlerView)
    ensures
        resume_spec(h, PendingView::UnlockReadingVault, EventView::VaultRead { vault: None }) == (
            h,
            failed(VaultHandlerError::CannotUnlockVault),
        ),
{
}

/// Locking a vault that is locked already stores the intent and does nothing
/// else: the only action asked is the write of the flag, and its outcome ends
/// the operation, with success if the write succeeded. No process is
/// terminated and nothing is unmounted.
pub proof fn law_lock_is_idempotent(
    h: HandlerView,
    mount_point: Option<Seq<char>>,
    event: EventView,
)
    requires
        h.child is None,
    ensures
        lock_spec(h, mount_point) == (
            h,
            StepView::Await {
                pending: PendingView::LockPersisting { mount_point, reopen: false },
                action: ActionView::PersistLocked { id: h.id, locked: true },
            },
        ),
        resume_spec(h, PendingView::LockPersisting { mount_point, reopen: false }, event) == (
            h,
            if event == (EventView::Persisted { ok: true }) {
                succeeded()
            } else {
                failed(VaultHandlerError::CannotLockVault)
            },
        ),
{
}

/// Every lock stores its intent before it touches the process: the first
/// action asked is the write of the flag, and unless that write succeeded
/// the lock fails with the handler as it was, its process still tracked.
pub proof fn law_lock_stores_intent_first(
    h: HandlerView,
    mount_point: Option<Seq<char>>,
    event: EventView,
)
    requires
        event != (EventView::Persisted { ok: true }),
    ensures
        lock_spec(h, mount_point) == (
            h,
            StepView::Await {
                pending: PendingView::LockPersisting { mount_point, reopen: false },
                action: ActionView::PersistLocked { id: h.id, locked: true },
            },
        ),
        resume_spec(h, PendingView::LockPersisting { mount_point, reopen: false }, event) == (
            h,
            failed(VaultHandlerError::CannotLockVault),
        ),
{
}

/// Unlocking a vault that is unlocked already succeeds at once: no action is
/// asked, so no second process is started, and the handler is unchanged.
pub proof fn law_unlock_is_idempotent(h: HandlerView)
    requires
        h.child is Some,
    ensures
        unlock_spec(h) == (h, succeeded()),
{
}

/// After a lock that succeeded the stored flag says locked and no process is
/// tracked, whatever the flag and the handler were before.
pub proof fn law_lock_leaves_locked(
    h: HandlerView,
    locked: bool,
    mount_point: Option<Seq<char>>,
    events: Seq<EventView>,
)
    ensures
        ({
            let r = run(h, locked, lock_spec(h, mount_point).1, events);
            r.step == succeeded() ==> r.locked && r.handler.child is None
        }),
{
    lemma_success_agrees(
        h,
        locked,
        PendingView::LockPersisting { mount_point, reopen: false },
        ActionView::PersistLocked { id: h.id, locked: true },
        events,
    );
}

/// After an unlock that succeeded the stored flag says unlocked and a process
/// is tracked, provided that handler and store agreed before: a handler that
/// tracks a process answers at once and writes nothing, so the flag stays
/// what it was.
pub proof fn law_unlock_leaves_unlocked(h: HandlerView, locked: bool, events: Seq<EventView>)
    requires
        h.child is Some ==> !locked,
    ensures
        ({
            let r = run(h, locked, unlock_spec(h).1, events);
            r.step == succeeded() ==> !r.locked && r.handler.child is Some
        }),
{
    match unlock_spec(h).1 {
        StepView::Done(_) => {},
        StepView::Await { pending, action } => {
            lemma_success_agrees(h, locked, pending, action, events);
        },
    }
}

/// After a relocation of an unlocked vault that succeeded the stored flag
/// says unlocked and a process is tracked.
pub proof fn law_relocation_leaves_unlocked(
    h: HandlerView,
    locked: bool,
    old_path: Seq<char>,
    events: Seq<EventView>,
)
    requires
        h.child is Some,
    ensures
        ({
            let r = run(h, locked, change_mount_point_spec(h, old_path).1, events);
            r.step == succeeded() ==> !r.locked && r.handler.child is Some
        }),
        ({
            let r = run(h, locked, change_data_dir_spec(h, old_path).1, events);
            r.step == succeeded() ==> !r.locked && r.handler.child is Some
        }),
{
    lemma_success_agrees(
        h,
        locked,
        PendingView::LockPersisting { mount_point: Some(old_path), reopen: true },
        ActionView::PersistLocked { id: h.id, locked: true },
        events,
    );
    lemma_success_agrees(
        h,
        locked,
        PendingView::RelocateReadingVault,
        ActionView::ReadVault { id: h.id },
        events,
    );
}

/// Relocating a vault that is locked does nothing: no action is asked, and
/// the handler is unchanged.
pub proof fn law_relocation_of_locked_vault_is_idle(h: HandlerView, old_path: Seq<char>)
    requires
        h.child is None,
    ensures
        change_mount_point_spec(h, old_path) == (h, succeeded()),
        change_data_dir_spec(h, old_path) == (h, succeeded()),
{
}

/// A lock transition with an unlock to follow runs as the lock alone does,
/// and where the lock alone would end in success, the unlock runs on what
/// the lock left.
proof fn lemma_reopening_run(
    h: HandlerView,
    locked: bool,
    p: PendingView,
    a: ActionView,
    events: Seq<EventView>,
)
    requires
        in_lock(p),
        !reopens(p),
    ensures
        ({
            let first = run(h, locked, StepView::Await { pending: p, action: a }, events);
            let whole = run(h, locked, StepView::Await { pending: reopening(p), action: a }, events);
            match first.step {
                StepView::Done(Ok(_)) => {
                    let second = run(
                        first.handler,
                        first.locked,
                        unlock_spec(first.handler).1,
                        events.skip(first.trace.len() as int),
                    );
                    &&& first.trace.len() <= events.len()
                    &&& whole.handler == second.handler
                    &&& whole.locked == second.locked
                    &&& whole.step == second.step
                    &&& whole.trace == first.trace + second.trace
                },
                StepView::Done(Err(_)) => whole == first,
                StepView::Await { pending, action } => {
                    &&& in_lock(pending)
                    &&& !reopens(pending)
                    &&& whole == Run {
                        step: StepView::Await { pending: reopening(pending), action },
                        ..first
                    }
                },
            }
        }),
    decreases events.len(),
{
    if events.len() > 0 {
        let rest = events.drop_first();
        let flag = stored_after(locked, a, events[0]);
        let plain = resume_spec(h, p, events[0]);
        let chained = resume_spec(h, reopening(p), events[0]);
        let first = run(h, locked, StepView::Await { pending: p, action: a }, events);
        let whole = run(h, locked, StepView::Await { pending: reopening(p), action: a }, events);
        match plain.1 {
            StepView::Done(Ok(_)) => {
                assert(chained == unlock_spec(plain.0));
                assert(unlock_spec(plain.0).0 == plain.0);
                assert(first.trace =~= seq![a]);
                assert(events.skip(1) =~= rest);
                let second = run(plain.0, flag, unlock_spec(plain.0).1, rest);
                assert(whole.trace =~= first.trace + second.trace);
            },
            StepView::Done(Err(_)) => {
                assert(chained == plain);
            },
            StepView::Await { pending, action } => {
                assert(chained == (
                    plain.0,
                    StepView::Await { pending: reopening(pending), action },
                ));
                lemma_reopening_run(plain.0, flag, pending, action, rest);
                let first_rest = run(plain.0, flag, plain.1, rest);
                let whole_rest = run(plain.0, flag, chained.1, rest);
                match first_rest.step {
                    StepView::Done(Ok(_)) => {
                        let k = first_rest.trace.len() as int;
                        assert(rest.skip(k) =~= events.skip(k + 1));
                        let second = run(
                            first_rest.handler,
                            first_rest.locked,
                            unlock_spec(first_rest.handler).1,
                            rest.skip(k),
                        );
                        assert(first.trace =~= seq![a] + first_rest.trace);
                        assert(whole.trace =~= first.trace + second.trace);
                    },
                    StepView::Done(Err(_)) => {},
                    StepView::Await { pending, action } => {},
                }
            },
        }
    }
}

/// Relocating the mount point of an unlocked vault is one lock transition
/// followed by one unlock transition, and nothing else. The run goes as the
/// run of `lock` on the same outcomes does, releasing the mount point the
/// vault had so far; where that lock fails, the relocation fails with the
/// same error and at the same point; where it succeeds, the run goes on as
/// the run of `unlock` does on the outcomes that are left, from the handler
/// and the store as the lock left them.
pub proof fn law_relocation_is_lock_then_unlock(
    h: HandlerView,
    locked: bool,
    old_mount_point: Seq<char>,
    events: Seq<EventView>,
)
    requires
        h.child is Some,
    ensures
        ({
            let whole = run(h, locked, change_mount_point_spec(h, old_mount_point).1, events);
            let first = run(h, locked, lock_spec(h, Some(old_mount_point)).1, events);
            match first.step {
                StepView::Done(Ok(_)) => {
                    let second = run(
                        first.handler,
                        first.locked,
                        unlock_spec(first.handler).1,
                        events.skip(first.trace.len() as int),
                    );
                    &&& first.handler.child is None
                    &&& whole.handler == second.handler
                    &&& whole.locked == second.locked
                    &&& whole.step == second.step
                    &&& whole.trace == first.trace + second.trace
                },
                StepView::Done(Err(_)) => whole == first,
                StepView::Await { pending, action } => {
                    &&& whole.handler == first.handler
                    &&& whole.locked == first.locked
                    &&& whole.trace == first.trace
                    &&& whole.step == (StepView::Await { pending: reopening(pending), action })
                },
            }
        }),
{
    let p = PendingView::LockPersisting { mount_point: Some(old_mount_point), reopen: false };
    let a = ActionView::PersistLocked { id: h.id, locked: true };
    assert(lock_spec(h, Some(old_mount_point)).1 == (StepView::Await { pending: p, action: a }));
    assert(change_mount_point_spec(h, old_mount_point).1 == (StepView::Await {
        pending: reopening(p),
        action: a,
    }));
    lemma_reopening_run(h, locked, p, a, events);
    lemma_success_agrees(h, locked, p, a, events);
    let first = run(h, locked, StepView::Await { pending: p, action: a }, events);
    if let StepView::Done(Ok(unit)) = first.step {
        assert(unit == ());
        assert(first.step == succeeded());
    }
}

/// Relocating the data directory of an unlocked vault first reads the
/// vault's record. Where the record cannot be read the relocation fails as
/// such. Otherwise it goes on exactly as the relocation of the mount point
/// does, releasing the mount point that the record names.
pub proof fn law_data_dir_relocation_reads_then_relocates(
    h: HandlerView,
    old_data_dir: Seq<char>,
    event: EventView,
)
    requires
        h.child is Some,
    ensures
        change_data_dir_spec(h, old_data_dir) == (
            h,
            StepView::Await {
                pending: PendingView::RelocateReadingVault,
                action: ActionView::ReadVault { id: h.id },
            },
        ),
        resume_spec(h, PendingView::RelocateReadingVault, event) == (match event {
            EventView::VaultRead { vault: Some(vault) } => change_mount_point_spec(
                h,
                vault.mount_point,
            ),
            _ => (h, failed(VaultHandlerError::CannotChangeDataDir)),
        }),
{
}

/// A handler comes to track a process in one way only: the process was
/// started by an unlock and passed its health check. The process table
/// showed it in a state that is not dead, zombie or stopped, and where the
/// host has a status listing, the listing did not mark it defunct. Beginning
/// an operation never changes the handler.
pub proof fn law_only_a_healthy_process_is_tracked(
    h: HandlerView,
    p: PendingView,
    e: EventView,
    path: Seq<char>,
    mount_point: Option<Seq<char>>,
)
    requires
        h.child is None,
    ensures
        lock_spec(h, mount_point).0 == h,
        unlock_spec(h).0 == h,
        change_mount_point_spec(h, path).0 == h,
        change_data_dir_spec(h, path).0 == h,
        resume_spec(h, p, e).0.child is Some ==> match p {
            PendingView::UnlockProbing { pid } => {
                &&& resume_spec(h, p, e).0.child == Some(pid)
                &&& !h.external_tools
                &&& e matches EventView::Probed { state: Some(state) }
                &&& !state.is_defunct_spec()
            },
            PendingView::UnlockListing { pid } => {
                &&& resume_spec(h, p, e).0.child == Some(pid)
                &&& e matches EventView::ProcessListed { output }
                &&& !listing_shows_defunct(output)
            },
            _ => false,
        },
{
}

/// A started process that the process table does not hold fails the unlock
/// at once, and it is not tracked.
pub proof fn law_missing_process_fails_unlock(h: HandlerView, pid: u32)
    ensures
        resume_spec(h, PendingView::UnlockProbing { pid }, EventView::Probed { state: None }) == (
            h,
            failed(VaultHandlerError::CannotUnlockVault),
        ),
{
}

/// Once the health check of a started process has failed, because the
/// process table does not hold it, or shows it dead, zombie or stopped, or
/// because the status listing marks it defunct, the unlock cannot succeed any
/// more: whatever is reported afterwards, the run writes nothing to the
/// store and leaves the handler as it was, so the process is not tracked; the
/// only action it may still ask is the kill of that process; and where it
/// ends, it ends with `CannotUnlockVault`.
pub proof fn law_unhealthy_process_fails_unlock(
    h: HandlerView,
    locked: bool,
    p: PendingView,
    event: EventView,
    events: Seq<EventView>,
)
    requires
        match p {
            PendingView::UnlockProbing { pid } => match event {
                EventView::Probed { state: Some(state) } => state.is_defunct_spec(),
                EventView::Probed { state: None } => true,
                _ => false,
            },
            PendingView::UnlockListing { pid } => match event {
                EventView::ProcessListed { output } => listing_shows_defunct(output),
                _ => false,
            },
            _ => false,
        },
    ensures
        ({
            let next = resume_spec(h, p, event);
            let r = run(next.0, locked, next.1, events);
            &&& r.handler == h
            &&& r.locked == locked
            &&& r.step != succeeded()
            &&& r.step is Done ==> r.step == failed(VaultHandlerError::CannotUnlockVault)
            &&& forall|i: int| 0 <= i < r.trace.len() ==> r.trace[i] is ForceKill
        }),
{
    let next = resume_spec(h, p, event);
    match next.1 {
        StepView::Done(_) => {},
        StepView::Await { pending, action } => {
            if events.len() > 0 {
                let last = resume_spec(next.0, pending, events[0]);
                assert(run(last.0, locked, last.1, events.drop_first()).trace.len() == 0);
            }
        },
    }
}

} // verus!
