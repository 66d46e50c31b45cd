//! The lifecycle of one vault.
//!
//! A vault is locked (no filesystem process) or unlocked (a process that was
//! seen healthy when it started). Locking, unlocking and relocating a vault
//! need work on the outside: the metadata store, the filesystem process, the
//! unmount utility. The handler does none of that work itself. It decides:
//! each operation answers with a [`Step`], which is either the final result or
//! an [`Action`] for the caller to perform together with a [`Pending`] that
//! remembers where the operation stands. The caller performs the action and
//! hands its outcome back as an [`Event`] through [`VaultHandler::resume`].
//!
//! Every decision is stated once, as a function on mathematical values
//! ([`lock_spec`], [`unlock_spec`], [`change_mount_point_spec`],
//! [`change_data_dir_spec`], [`resume_spec`]), and the executable methods are
//! proved to compute exactly that.

use vstd::prelude::*;
use crate::models::{Vault, VaultView};
use crate::process_health::{listing_shows_defunct, mentions_defunct, probe_process, ProcessState};
use crate::text::{decimal_digits, push_decimal, text_view, texts_view};
pub use crate::vault_handler_error::VaultHandlerError;

verus! {

/// How long a freshly started filesystem process is given to initialise
/// before its health is checked, in seconds.
pub const GRACE_SECONDS: u64 = 8;

/// The view of an optional vault record.
pub open spec fn vault_view(vault: Option<Vault>) -> Option<VaultView> {
    match vault {
        Some(v) => Some(v@),
        None => None,
    }
}

/// Work on the outside that an operation asks its caller to perform.
#[derive(Debug, PartialEq, Eq)]
pub enum Action {
    /// Store the `locked` flag of vault `id`.
    PersistLocked { id: u32, locked: bool },
    /// Terminate the filesystem process of vault `id`.
    TerminateChild { id: u32 },
    /// Read the record of vault `id` from the store.
    ReadVault { id: u32 },
    /// Release `mount_point` with the unmount utility.
    Unmount { mount_point: String },
    /// Open, for appending, the two log files of a vault in the logs directory.
    OpenLogs { stdout: String, stderr: String },
    /// Start the filesystem process of vault `id` with the arguments `args`,
    /// its output going to the log files opened before.
    Spawn { id: u32, args: Vec<String> },
    /// Wait for `seconds` seconds, then read the id of the started process.
    WaitGrace { seconds: u64 },
    /// Look process `pid` up in the process table.
    ProbeProcess { pid: u32 },
    /// Run the status listing on process `pid`.
    ListProcess { pid: u32 },
    /// Kill process `pid` with the kill utility.
    ForceKill { pid: u32 },
}

/// An [`Action`] as mathematical values.
pub enum ActionView {
    PersistLocked { id: u32, locked: bool },
    TerminateChild { id: u32 },
    ReadVault { id: u32 },
    Unmount { mount_point: Seq<char> },
    OpenLogs { stdout: Seq<char>, stderr: Seq<char> },
    Spawn { id: u32, args: Seq<Seq<char>> },
    WaitGrace { seconds: u64 },
    ProbeProcess { pid: u32 },
    ListProcess { pid: u32 },
    ForceKill { pid: u32 },
}

impl View for Action {
    type V = ActionView;

    open spec fn view(&self) -> ActionView {
        match *self {
            Action::PersistLocked { id, locked } => ActionView::PersistLocked { id, locked },
            Action::TerminateChild { id } => ActionView::TerminateChild { id },
            Action::ReadVault { id } => ActionView::ReadVault { id },
            Action::Unmount { mount_point } => ActionView::Unmount { mount_point: mount_point@ },
            Action::OpenLogs { stdout, stderr } => ActionView::OpenLogs {
                stdout: stdout@,
                stderr: stderr@,
            },
            Action::Spawn { id, args } => ActionView::Spawn { id, args: texts_view(args@) },
            Action::WaitGrace { seconds } => ActionView::WaitGrace { seconds },
            Action::ProbeProcess { pid } => ActionView::ProbeProcess { pid },
            Action::ListProcess { pid } => ActionView::ListProcess { pid },
            Action::ForceKill { pid } => ActionView::ForceKill { pid },
        }
    }
}

/// The outcome of an [`Action`], as its performer reports it.
#[derive(Debug, PartialEq, Eq)]
pub enum Event {
    /// The flag was stored (`ok`) or the store refused.
    Persisted { ok: bool },
    /// The process was terminated (`ok`) or terminating it failed.
    Terminated { ok: bool },
    /// The record that was read, or `None` where reading failed.
    VaultRead { vault: Option<Vault> },
    /// The mount point was released (`ok`). Any failure of the unmount, be it
    /// that the utility could not be run or that it ran and failed, is
    /// reported as not `ok`.
    Unmounted { ok: bool },
    /// The log files are open.
    LogsOpened,
    /// The process was started (`ok`) or starting it failed.
    Spawned { ok: bool },
    /// The grace period is over; `pid` is the id of the started process, or
    /// `None` where it has none any more.
    GraceElapsed { pid: Option<u32> },
    /// What the process table shows: the state of the process, or `None`
    /// where the table does not hold it.
    Probed { state: Option<ProcessState> },
    /// What the status listing printed.
    ProcessListed { output: String },
    /// The kill utility ran.
    Killed,
}

/// An [`Event`] as mathematical values.
pub enum EventView {
    Persisted { ok: bool },
    Terminated { ok: bool },
    VaultRead { vault: Option<VaultView> },
    Unmounted { ok: bool },
    LogsOpened,
    Spawned { ok: bool },
    GraceElapsed { pid: Option<u32> },
    Probed { state: Option<ProcessState> },
    ProcessListed { output: Seq<char> },
    Killed,
}

impl View for Event {
    type V = EventView;

    open spec fn view(&self) -> EventView {
        match *self {
            Event::Persisted { ok } => EventView::Persisted { ok },
            Event::Terminated { ok } => EventView::Terminated { ok },
            Event::VaultRead { vault } => EventView::VaultRead { vault: vault_view(vault) },
            Event::Unmounted { ok } => EventView::Unmounted { ok },
            Event::LogsOpened => EventView::LogsOpened,
            Event::Spawned { ok } => EventView::Spawned { ok },
            Event::GraceElapsed { pid } => EventView::GraceElapsed { pid },
            Event::Probed { state } => EventView::Probed { state },
            Event::ProcessListed { output } => EventView::ProcessListed { output: output@ },
            Event::Killed => EventView::Killed,
        }
    }
}

/// Where an operation stands while its caller performs an action: the outcome
/// that is awaited, and what the rest of the operation needs to remember.
///
/// In the phases of a lock transition, `reopen` says that an unlock follows
/// the lock (the vault is being relocated), and `mount_point` is the mount
/// point to unmount where the caller gave one.
#[derive(Debug, PartialEq, Eq)]
pub enum Pending {
    LockPersisting { mount_point: Option<String>, reopen: bool },
    LockTerminating { mount_point: Option<String>, reopen: bool },
    LockReadingVault { reopen: bool },
    LockUnmounting { reopen: bool },
    RelocateReadingVault,
    UnlockOpeningLogs,
    UnlockReadingVault,
    UnlockSpawning,
    UnlockWaiting,
    UnlockProbing { pid: u32 },
    UnlockListing { pid: u32 },
    UnlockKilling,
    UnlockPersisting,
}

/// A [`Pending`] as mathematical values.
pub enum PendingView {
    LockPersisting { mount_point: Option<Seq<char>>, reopen: bool },
    LockTerminating { mount_point: Option<Seq<char>>, reopen: bool },
    LockReadingVault { reopen: bool },
    LockUnmounting { reopen: bool },
    RelocateReadingVault,
    UnlockOpeningLogs,
    UnlockReadingVault,
    UnlockSpawning,
    UnlockWaiting,
    UnlockProbing { pid: u32 },
    UnlockListing { pid: u32 },
    UnlockKilling,
    UnlockPersisting,
}

impl View for Pending {
    type V = PendingView;

    open spec fn view(&self) -> PendingView {
        match *self {
            Pending::LockPersisting { mount_point, reopen } => PendingView::LockPersisting {
                mount_point: text_view(mount_point),
                reopen,
            },
            Pending::LockTerminating { mount_point, reopen } => PendingView::LockTerminating {
                mount_point: text_view(mount_point),
                reopen,
            },
            Pending::LockReadingVault { reopen } => PendingView::LockReadingVault { reopen },
            Pending::LockUnmounting { reopen } => PendingView::LockUnmounting { reopen },
            Pending::RelocateReadingVault => PendingView::RelocateReadingVault,
            Pending::UnlockOpeningLogs => PendingView::UnlockOpeningLogs,
            Pending::UnlockReadingVault => PendingView::UnlockReadingVault,
            Pending::UnlockSpawning => PendingView::UnlockSpawning,
            Pending::UnlockWaiting => PendingView::UnlockWaiting,
            Pending::UnlockProbing { pid } => PendingView::UnlockProbing { pid },
            Pending::UnlockListing { pid } => PendingView::UnlockListing { pid },
            Pending::UnlockKilling => PendingView::UnlockKilling,
            Pending::UnlockPersisting => PendingView::UnlockPersisting,
        }
    }
}

/// What an operation answers: its final result, or an action to perform and
/// the place to resume from once the action's outcome is known.
#[derive(Debug, PartialEq, Eq)]
pub enum Step {
    Done(Result<(), VaultHandlerError>),
    Await { pending: Pending, action: Action },
}

/// A [`Step`] as mathematical values.
pub enum StepView {
    Done(Result<(), VaultHandlerError>),
    Await { pending: PendingView, action: ActionView },
}

impl View for Step {
    type V = StepView;

    open spec fn view(&self) -> StepView {
        match *self {
            Step::Done(result) => StepView::Done(result),
            Step::Await { pending, action } => StepView::Await {
                pending: pending@,
                action: action@,
            },
        }
    }
}

/// The controller of one vault's lifecycle.
///
/// It knows the vault it governs, the filesystem process it tracks (none
/// while the vault is locked), and whether the host offers the unmount, status
/// listing and kill utilities. A process is tracked only once it has passed
/// the health check that follows its start.
#[derive(Debug)]
pub struct VaultHandler {
    id: u32,
    child: Option<u32>,
    external_tools: bool,
}

/// A [`VaultHandler`] as mathematical values.
pub struct HandlerView {
    /// The vault that the handler governs.
    pub id: u32,
    /// The id of the tracked filesystem process, `None` while locked.
    pub child: Option<u32>,
    /// Whether the host offers the unmount, status listing and kill utilities.
    pub external_tools: bool,
}

impl View for VaultHandler {
    type V = HandlerView;

    closed spec fn view(&self) -> HandlerView {
        HandlerView { id: self.id, child: self.child, external_tools: self.external_tools }
    }
}

/// A step that ends the operation with `error`.
pub open spec fn failed(error: VaultHandlerError) -> StepView {
    StepView::Done(Err(error))
}

/// A step that ends the operation with success.
pub open spec fn succeeded() -> StepView {
    StepView::Done(Ok(()))
}

/// The name of a log file of vault `id`: `vault_`, the id in decimal, and the
/// suffix.
pub open spec fn log_file_name(id: u32, suffix: Seq<char>) -> Seq<char> {
    "vault_"@ + decimal_digits(id as nat) + suffix
}

/// The arguments that the filesystem process is started with: where to mount,
/// where the encrypted data lies, and the request to unmount whatever an
/// earlier run left mounted.
pub open spec fn spawn_args(mount_point: Seq<char>, data_dir: Seq<char>) -> Seq<Seq<char>> {
    seq!["--mount-point"@, mount_point, "--data-dir"@, data_dir, "--umount-on-start"@]
}

/// A lock transition begins: the intent is stored first, before anything is
/// done to the process.
pub open spec fn lock_begun(h: HandlerView, mount_point: Option<Seq<char>>, reopen: bool) -> (
    HandlerView,
    StepView,
) {
    (
        h,
        StepView::Await {
            pending: PendingView::LockPersisting { mount_point, reopen },
            action: ActionView::PersistLocked { id: h.id, locked: true },
        },
    )
}

/// A lock transition has succeeded: the operation is over, unless the vault
/// is being relocated, in which case the unlock begins.
pub open spec fn lock_finished(h: HandlerView, reopen: bool) -> (HandlerView, StepView) {
    if reopen {
        unlock_spec(h)
    } else {
        (h, succeeded())
    }
}

/// The process is gone; what is left of the lock transition is to release the
/// mount point, where the host has the means.
pub open spec fn child_terminated(h: HandlerView, mount_point: Option<Seq<char>>, reopen: bool) -> (
    HandlerView,
    StepView,
) {
    if !h.external_tools {
        lock_finished(h, reopen)
    } else {
        match mount_point {
            Some(path) => (
                h,
                StepView::Await {
                    pending: PendingView::LockUnmounting { reopen },
                    action: ActionView::Unmount { mount_point: path },
                },
            ),
            None => (
                h,
                StepView::Await {
                    pending: PendingView::LockReadingVault { reopen },
                    action: ActionView::ReadVault { id: h.id },
                },
            ),
        }
    }
}

/// The started process failed its health check: it is killed where the host
/// has the means, and the unlock fails. The process is not tracked.
pub open spec fn health_failed(h: HandlerView, pid: u32) -> (HandlerView, StepView) {
    if h.external_tools {
        (
            h,
            StepView::Await {
                pending: PendingView::UnlockKilling,
                action: ActionView::ForceKill { pid },
            },
        )
    } else {
        (h, failed(VaultHandlerError::CannotUnlockVault))
    }
}

/// The started process passed its health check: it is tracked from now on,
/// and the store is told that the vault is unlocked.
pub open spec fn health_passed(h: HandlerView, pid: u32) -> (HandlerView, StepView) {
    (
        HandlerView { child: Some(pid), ..h },
        StepView::Await {
            pending: PendingView::UnlockPersisting,
            action: ActionView::PersistLocked { id: h.id, locked: false },
        },
    )
}

/// What `lock` decides: a lock transition that is an operation of its own.
pub open spec fn lock_spec(h: HandlerView, mount_point: Option<Seq<char>>) -> (
    HandlerView,
    StepView,
) {
    lock_begun(h, mount_point, false)
}

/// What `unlock` decides: nothing to do where a process is tracked already;
/// otherwise the unlock begins by opening the vault's log files.
pub open spec fn unlock_spec(h: HandlerView) -> (HandlerView, StepView) {
    if h.child is Some {
        (h, succeeded())
    } else {
        (
            h,
            StepView::Await {
                pending: PendingView::UnlockOpeningLogs,
                action: ActionView::OpenLogs {
                    stdout: log_file_name(h.id, ".out"@),
                    stderr: log_file_name(h.id, ".err"@),
                },
            },
        )
    }
}

/// What `change_mount_point` decides: nothing to do while locked; otherwise a
/// lock that unmounts the mount point the vault had so far, then an unlock.
pub open spec fn change_mount_point_spec(h: HandlerView, old_mount_point: Seq<char>) -> (
    HandlerView,
    StepView,
) {
    if h.child is Some {
        lock_begun(h, Some(old_mount_point), true)
    } else {
        (h, succeeded())
    }
}

/// What `change_data_dir` decides: nothing to do while locked; otherwise the
/// record is read for its mount point, and a lock and an unlock follow. The
/// data directory the vault had so far plays no part: content is not moved.
pub open spec fn change_data_dir_spec(h: HandlerView, old_data_dir: Seq<char>) -> (
    HandlerView,
    StepView,
) {
    if h.child is Some {
        (
            h,
            StepView::Await {
                pending: PendingView::RelocateReadingVault,
                action: ActionView::ReadVault { id: h.id },
            },
        )
    } else {
        (h, succeeded())
    }
}

/// The outcome "the process table shows `state`".
pub open spec fn probed(state: Option<ProcessState>) -> EventView {
    EventView::Probed { state }
}

/// What `resume` decides: how an operation that stands at `p` goes on once the
/// outcome `e` of its action is known.
///
/// A lock transition fails with `CannotLockVault` where the flag cannot be
/// stored, the process cannot be terminated, the record cannot be read, or
/// the mount point cannot be released. Once the intent is stored, a handler
/// that tracks no process has nothing left to do. One that tracks a process
/// forgets it as it asks for its termination, so the process is forgotten
/// whether or not terminating it succeeds.
///
/// An unlock fails with `CannotUnlockVault` where the record cannot be read,
/// the process cannot be started, has no id after the grace period, fails
/// its health check, or where the flag cannot be stored in the end. The
/// process is tracked from the moment it has passed its health check, so it
/// stays tracked where storing the flag fails afterwards.
///
/// A relocation that cannot read the record fails with
/// `CannotChangeDataDir`; the failures of its lock and of its unlock are
/// passed on as they are.
///
/// An outcome that does not answer the action asked fails the operation as
/// the failure of that action would.
pub open spec fn resume_spec(h: HandlerView, p: PendingView, e: EventView) -> (
    HandlerView,
    StepView,
) {
    match p {
        PendingView::LockPersisting { mount_point, reopen } => match e {
            EventView::Persisted { ok: true } => if h.child is Some {
                (
                    HandlerView { child: None, ..h },
                    StepView::Await {
                        pending: PendingView::LockTerminating { mount_point, reopen },
                        action: ActionView::TerminateChild { id: h.id },
                    },
                )
            } else {
                lock_finished(h, reopen)
            },
            _ => (h, failed(VaultHandlerError::CannotLockVault)),
        },
        PendingView::LockTerminating { mount_point, reopen } => match e {
            EventView::Terminated { ok: true } => child_terminated(h, mount_point, reopen),
            _ => (h, failed(VaultHandlerError::CannotLockVault)),
        },
        PendingView::LockReadingVault { reopen } => match e {
            EventView::VaultRead { vault: Some(vault) } => (
                h,
                StepView::Await {
                    pending: PendingView::LockUnmounting { reopen },
                    action: ActionView::Unmount { mount_point: vault.mount_point },
                },
            ),
            _ => (h, failed(VaultHandlerError::CannotLockVault)),
        },
        PendingView::LockUnmounting { reopen } => match e {
            EventView::Unmounted { ok: true } => lock_finished(h, reopen),
            _ => (h, failed(VaultHandlerError::CannotLockVault)),
        },
        PendingView::RelocateReadingVault => match e {
            EventView::VaultRead { vault: Some(vault) } => lock_begun(
                h,
                Some(vault.mount_point),
                true,
            ),
            _ => (h, failed(VaultHandlerError::CannotChangeDataDir)),
        },
        PendingView::UnlockOpeningLogs => match e {
            EventView::LogsOpened => (
                h,
                StepView::Await {
                    pending: PendingView::UnlockReadingVault,
                    action: ActionView::ReadVault { id: h.id },
                },
            ),
            _ => (h, failed(VaultHandlerError::CannotUnlockVault)),
        },
        PendingView::UnlockReadingVault => match e {
            EventView::VaultRead { vault: Some(vault) } => (
                h,
                StepView::Await {
                    pending: PendingView::UnlockSpawning,
                    action: ActionView::Spawn {
                        id: h.id,
                        args: spawn_args(vault.mount_point, vault.data_dir),
                    },
                },
            ),
            _ => (h, failed(VaultHandlerError::CannotUnlockVault)),
        },
        PendingView::UnlockSpawning => match e {
            EventView::Spawned { ok: true } => (
                h,
                StepView::Await {
                    pending: PendingView::UnlockWaiting,
                    action: ActionView::WaitGrace { seconds: GRACE_SECONDS },
                },
            ),
            _ => (h, failed(VaultHandlerError::CannotUnlockVault)),
        },
        PendingView::UnlockWaiting => match e {
            EventView::GraceElapsed { pid: Some(pid) } => (
                h,
                StepView::Await {
                    pending: PendingView::UnlockProbing { pid },
                    action: ActionView::ProbeProcess { pid },
                },
            ),
            _ => (h, failed(VaultHandlerError::CannotUnlockVault)),
        },
        PendingView::UnlockProbing { pid } => match e {
            EventView::Probed { state: Some(state) } => if state.is_defunct_spec() {
                health_failed(h, pid)
            } else if h.external_tools {
                (
                    h,
                    StepView::Await {
                        pending: PendingView::UnlockListing { pid },
                        action: ActionView::ListProcess { pid },
                    },
                )
            } else {
                health_passed(h, pid)
            },
            _ => (h, failed(VaultHandlerError::CannotUnlockVault)),
        },
        PendingView::UnlockListing { pid } => match e {
            EventView::ProcessListed { output } => if listing_shows_defunct(output) {
                health_failed(h, pid)
            } else {
                health_passed(h, pid)
            },
            _ => (h, failed(VaultHandlerError::CannotUnlockVault)),
        },
        PendingView::UnlockKilling => (h, failed(VaultHandlerError::CannotUnlockVault)),
        PendingView::UnlockPersisting => match e {
            EventView::Persisted { ok: true } => (h, succeeded()),
            _ => (h, failed(VaultHandlerError::CannotUnlockVault)),
        },
    }
}

/// Builds the name of a log file of vault `id`.
fn log_file(id: u32, suffix: &str) -> (name: String)
    ensures
        name@ == log_file_name(id, suffix@),
{
    let mut name: String = String::from_str("vault_");
    push_decimal(&mut name, id);
    name.append(suffix);
    name
}

/// Builds the arguments that the filesystem process is started with.
fn process_args(vault: Vault) -> (args: Vec<String>)
    ensures
        texts_view(args@) == spawn_args(vault@.mount_point, vault@.data_dir),
{
    let mut args: Vec<String> = Vec::new();
    args.push(String::from_str("--mount-point"));
    args.push(vault.mount_point);
    args.push(String::from_str("--data-dir"));
    args.push(vault.data_dir);
    args.push(String::from_str("--umount-on-start"));
    assert(texts_view(args@) =~= spawn_args(vault@.mount_point, vault@.data_dir));
    args
}

impl VaultHandler {
    /// A handler for vault `id`, which starts out locked. `external_tools`
    /// says whether the host offers the unmount, status listing and kill
    /// utilities.
    pub fn new(id: u32, external_tools: bool) -> (handler: VaultHandler)
        ensures
            handler@ == (HandlerView { id, child: None, external_tools }),
    {
        VaultHandler { id, child: None, external_tools }
    }

    /// The vault that this handler governs.
    pub fn id(&self) -> (id: u32)
        ensures
            id == self@.id,
    {
        self.id
    }

    /// The id of the tracked filesystem process; `None` while the vault is
    /// locked.
    pub fn child(&self) -> (child: Option<u32>)
        ensures
            child == self@.child,
    {
        self.child
    }

    /// Whether a filesystem process is tracked, that is, the vault is
    /// unlocked.
    pub fn is_unlocked(&self) -> (unlocked: bool)
        ensures
            unlocked == (self@.child is Some),
    {
        self.child.is_some()
    }

    /// Begins to lock the vault. `mount_point` names the mount point to
    /// release; without it the stored record is consulted.
    pub fn lock(&mut self, mount_point: Option<String>) -> (step: Step)
        ensures
            (final(self)@, step@) == lock_spec(old(self)@, text_view(mount_point)),
    {
        self.begin_lock(mount_point, false)
    }

    /// Begins to unlock the vault.
    pub fn unlock(&mut self) -> (step: Step)
        ensures
            (final(self)@, step@) == unlock_spec(old(self)@),
    {
        if self.child.is_some() {
            return Step::Done(Ok(()));
        }
        Step::Await {
            pending: Pending::UnlockOpeningLogs,
            action: Action::OpenLogs {
                stdout: log_file(self.id, ".out"),
                stderr: log_file(self.id, ".err"),
            },
        }
    }

    /// Begins to move an unlocked vault to the mount point that its record
    /// already names; `old_mount_point` is the one it is mounted on.
    pub fn change_mount_point(&mut self, old_mount_point: String) -> (step: Step)
        ensures
            (final(self)@, step@) == change_mount_point_spec(old(self)@, old_mount_point@),
    {
        if self.child.is_some() {
            self.begin_lock(Some(old_mount_point), true)
        } else {
            Step::Done(Ok(()))
        }
    }

    /// Begins to restart an unlocked vault on the data directory that its
    /// record already names; `old_data_dir` is the one it ran on.
    pub fn change_data_dir(&mut self, old_data_dir: String) -> (step: Step)
        ensures
            (final(self)@, step@) == change_data_dir_spec(old(self)@, old_data_dir@),
    {
        if self.child.is_some() {
            Step::Await {
                pending: Pending::RelocateReadingVault,
                action: Action::ReadVault { id: self.id },
            }
        } else {
            Step::Done(Ok(()))
        }
    }

    /// Goes on with the operation that stands at `pending`, now that the
    /// outcome `event` of its action is known.
    pub fn resume(&mut self, pending: Pending, event: Event) -> (step: Step)
        ensures
            (final(self)@, step@) == resume_spec(old(self)@, pending@, event@),
    {
        match pending {
            Pending::LockPersisting { mount_point, reopen } => match event {
                Event::Persisted { ok: true } => {
                    if self.child.is_some() {
                        self.child = None;
                        Step::Await {
                            pending: Pending::LockTerminating { mount_point, reopen },
                            action: Action::TerminateChild { id: self.id },
                        }
                    } else {
                        self.finish_lock(reopen)
                    }
                },
                _ => Step::Done(Err(VaultHandlerError::CannotLockVault)),
            },
            Pending::LockTerminating { mount_point, reopen } => match event {
                Event::Terminated { ok: true } => {
                    if !self.external_tools {
                        self.finish_lock(reopen)
                    } else {
                        match mount_point {
                            Some(path) => Step::Await {
                                pending: Pending::LockUnmounting { reopen },
                                action: Action::Unmount { mount_point: path },
                            },
                            None => Step::Await {
                                pending: Pending::LockReadingVault { reopen },
                                action: Action::ReadVault { id: self.id },
                            },
                        }
                    }
                },
                _ => Step::Done(Err(VaultHandlerError::CannotLockVault)),
            },
            Pending::LockReadingVault { reopen } => match event {
                Event::VaultRead { vault: Some(vault) } => Step::Await {
                    pending: Pending::LockUnmounting { reopen },
                    action: Action::Unmount { mount_point: vault.mount_point },
                },
                _ => Step::Done(Err(VaultHandlerError::CannotLockVault)),
            },
            Pending::LockUnmounting { reopen } => match event {
                Event::Unmounted { ok: true } => self.finish_lock(reopen),
                _ => Step::Done(Err(VaultHandlerError::CannotLockVault)),
            },
            Pending::RelocateReadingVault => match event {
                Event::VaultRead { vault: Some(vault) } => self.begin_lock(
                    Some(vault.mount_point),
                    true,
                ),
                _ => Step::Done(Err(VaultHandlerError::CannotChangeDataDir)),
            },
            Pending::UnlockOpeningLogs => match event {
                Event::LogsOpened => Step::Await {
                    pending: Pending::UnlockReadingVault,
                    action: Action::ReadVault { id: self.id },
                },
                _ => Step::Done(Err(VaultHandlerError::CannotUnlockVault)),
            },
            Pending::UnlockReadingVault => match event {
                Event::VaultRead { vault: Some(vault) } => Step::Await {
                    pending: Pending::UnlockSpawning,
                    action: Action::Spawn { id: self.id, args: process_args(vault) },
                },
                _ => Step::Done(Err(VaultHandlerError::CannotUnlockVault)),
            },
            Pending::UnlockSpawning => match event {
                Event::Spawned { ok: true } => Step::Await {
                    pending: Pending::UnlockWaiting,
                    action: Action::WaitGrace { seconds: GRACE_SECONDS },
                },
                _ => Step::Done(Err(VaultHandlerError::CannotUnlockVault)),
            },
            Pending::UnlockWaiting => match event {
                Event::GraceElapsed { pid: Some(pid) } => Step::Await {
                    pending: Pending::UnlockProbing { pid },
                    action: Action::ProbeProcess { pid },
                },
                _ => Step::Done(Err(VaultHandlerError::CannotUnlockVault)),
            },
            Pending::UnlockProbing { pid } => match event {
                Event::Probed { state: Some(state) } => {
                    if state.is_defunct() {
                        self.fail_health(pid)
                    } else if self.external_tools {
                        Step::Await {
                            pending: Pending::UnlockListing { pid },
                            action: Action::ListProcess { pid },
                        }
                    } else {
                        self.pass_health(pid)
                    }
                },
                _ => Step::Done(Err(VaultHandlerError::CannotUnlockVault)),
            },
            Pending::UnlockListing { pid } => match event {
                Event::ProcessListed { output } => {
                    if mentions_defunct(output.as_str()) {
                        self.fail_health(pid)
                    } else {
                        self.pass_health(pid)
                    }
                },
                _ => Step::Done(Err(VaultHandlerError::CannotUnlockVault)),
            },
            Pending::UnlockKilling => Step::Done(Err(VaultHandlerError::CannotUnlockVault)),
            Pending::UnlockPersisting => match event {
                Event::Persisted { ok: true } => Step::Done(Ok(())),
                _ => Step::Done(Err(VaultHandlerError::CannotUnlockVault)),
            },
        }
    }

    /// Goes on with the operation that stands at `pending` by asking the
    /// process table of this machine for the process that the operation
    /// wants looked up. What the table shows is not known beforehand: the
    /// operation goes on as `resume` does on the answer, whatever it is. An
    /// operation that awaits something else is answered as by an empty table.
    pub fn resume_probing(&mut self, pending: Pending) -> (step: Step)
        ensures
            exists|state: Option<ProcessState>|
                (final(self)@, step@) == resume_spec(
                    old(self)@,
                    pending@,
                    #[trigger] probed(state),
                ),
    {
        let state: Option<ProcessState> = match pending {
            Pending::UnlockProbing { pid } => probe_process(pid),
            _ => None,
        };
        let step: Step = self.resume(pending, Event::Probed { state });
        assert((self@, step@) == resume_spec(old(self)@, pending@, probed(state)));
        step
    }

    fn begin_lock(&mut self, mount_point: Option<String>, reopen: bool) -> (step: Step)
        ensures
            (final(self)@, step@) == lock_begun(old(self)@, text_view(mount_point), reopen),
    {
        Step::Await {
            pending: Pending::LockPersisting { mount_point, reopen },
            action: Action::PersistLocked { id: self.id, locked: true },
        }
    }

    fn finish_lock(&mut self, reopen: bool) -> (step: Step)
        ensures
            (final(self)@, step@) == lock_finished(old(self)@, reopen),
    {
        if reopen {
            self.unlock()
        } else {
            Step::Done(Ok(()))
        }
    }

    fn fail_health(&mut self, pid: u32) -> (step: Step)
        ensures
            (final(self)@, step@) == health_failed(old(self)@, pid),
    {
        if self.external_tools {
            Step::Await { pending: Pending::UnlockKilling, action: Action::ForceKill { pid } }
        } else {
            Step::Done(Err(VaultHandlerError::CannotUnlockVault))
        }
    }

    fn pass_health(&mut self, pid: u32) -> (step: Step)
        ensures
            (final(self)@, step@) == health_passed(old(self)@, pid),
    {
        self.child = Some(pid);
        Step::Await {
            pending: Pending::UnlockPersisting,
            action: Action::PersistLocked { id: self.id, locked: false },
        }
    }
}

} // verus!
