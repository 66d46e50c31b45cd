//! The lifecycle service: the entry point that remote requests reach.
//!
//! The service keeps one handler per vault, made when the vault is first
//! named and never dropped. A request is routed to the handler of its vault
//! and answered with the handler's step; a result is turned into the reply
//! that crosses the wire. Requests for different vaults never touch each
//! other's handlers.

use vstd::prelude::*;
use std::collections::HashMap;
use crate::process_health::ProcessState;
use crate::vault_handler::{
    change_data_dir_spec,
    change_mount_point_spec,
    lock_spec,
    probed,
    resume_spec,
    unlock_spec,
    Event,
    HandlerView,
    Pending,
    Step,
    VaultHandler,
    VaultHandlerError,
};
use crate::vault_service_error::{status_of, RpcStatus, RpcStatusView, VaultServiceError};

verus! {

broadcast use vstd::std_specs::hash::group_hash_axioms;

/// The reply to a request that succeeded: it says nothing but that.
#[derive(Clone, Copy, Debug, PartialEq, Eq, Structural)]
pub struct EmptyReply {}

/// The lifecycle service with its registry of handlers.
pub struct MyVaultService {
    handlers: HashMap<u32, VaultHandler>,
    external_tools: bool,
}

/// A [`MyVaultService`] as mathematical values.
pub struct ServiceView {
    /// The handler of each vault that was named so far.
    pub handlers: Map<u32, HandlerView>,
    /// Whether the host offers the unmount, status listing and kill
    /// utilities; every handler is made with this.
    pub external_tools: bool,
}

impl ServiceView {
    /// The handler that a vault starts with: locked.
    pub open spec fn fresh(self, id: u32) -> HandlerView {
        HandlerView { id, child: None, external_tools: self.external_tools }
    }

    /// The handler of vault `id`: the registered one, or a fresh one where
    /// the vault was never named.
    pub open spec fn handler(self, id: u32) -> HandlerView {
        if self.handlers.contains_key(id) {
            self.handlers[id]
        } else {
            self.fresh(id)
        }
    }

    /// The service once the handler of vault `id` has become `h`.
    pub open spec fn with_handler(self, id: u32, h: HandlerView) -> ServiceView {
        ServiceView { handlers: self.handlers.insert(id, h), ..self }
    }

    /// Every registered handler governs the vault it is registered for, and
    /// was made for this host.
    pub open spec fn well_formed(self) -> bool {
        forall|id: u32| #[trigger]
            self.handlers.contains_key(id) ==> self.handlers[id].id == id
                && self.handlers[id].external_tools == self.external_tools
    }
}

/// The reply that carries the result of an operation across the wire: an
/// empty acknowledgement, or the status that reports the failure.
pub open spec fn reply_of(response: Result<(), VaultHandlerError>) -> Result<
    EmptyReply,
    RpcStatusView,
> {
    match response {
        Ok(_) => Ok(EmptyReply {  }),
        Err(kind) => Err(status_of(VaultServiceError::VaultHandlerError(kind))),
    }
}

/// The view of a reply.
pub open spec fn reply_view(reply: Result<EmptyReply, RpcStatus>) -> Result<
    EmptyReply,
    RpcStatusView,
> {
    match reply {
        Ok(ack) => Ok(ack),
        Err(status) => Err(status@),
    }
}

/// The greeting for `name`.
pub open spec fn greeting(name: Seq<char>) -> Seq<char> {
    "Hello, "@ + name + "!"@
}

impl View for MyVaultService {
    type V = ServiceView;

    closed spec fn view(&self) -> ServiceView {
        ServiceView {
            handlers: self.handlers@.map_values(|h: VaultHandler| h@),
            external_tools: self.external_tools,
        }
    }
}

impl MyVaultService {
    /// A service that knows no vault yet. `external_tools` says whether the
    /// host offers the unmount, status listing and kill utilities.
    pub fn new(external_tools: bool) -> (service: MyVaultService)
        ensures
            service@ == (ServiceView { handlers: Map::empty(), external_tools }),
            service@.well_formed(),
    {
        let handlers: HashMap<u32, VaultHandler> = HashMap::new();
        assert(handlers@.map_values(|h: VaultHandler| h@) =~= Map::<u32, HandlerView>::empty());
        MyVaultService { handlers, external_tools }
    }

    /// Whether a handler is registered for vault `id`.
    pub fn knows(&self, id: u32) -> (known: bool)
        ensures
            known == self@.handlers.contains_key(id),
    {
        self.handlers.contains_key(&id)
    }

    /// Whether vault `id` is unlocked: its handler tracks a filesystem
    /// process.
    pub fn is_unlocked(&self, id: u32) -> (unlocked: bool)
        ensures
            unlocked == (self@.handler(id).child is Some),
    {
        match self.handlers.get(&id) {
            Some(handler) => handler.is_unlocked(),
            None => false,
        }
    }

    /// The handler of vault `id`. The first call for a vault makes its
    /// handler, locked, and registers it; every later call finds that one.
    /// This cannot fail.
    pub fn get_or_create(&mut self, id: u32) -> (handler: &VaultHandler)
        ensures
            handler@ == old(self)@.handler(id),
            final(self)@ == old(self)@.with_handler(id, old(self)@.handler(id)),
            old(self)@.well_formed() ==> final(self)@.well_formed(),
    {
        let found: VaultHandler = self.take(id);
        self.put(id, found);
        proof {
            assert(self@.handlers =~= old(self)@.handlers.insert(id, old(self)@.handler(id)));
            assert(self@.handlers.contains_key(id));
            assert(self.handlers@.contains_key(id));
            assert(self@.handlers[id] == self.handlers@[id]@);
        }
        let kept: Option<&VaultHandler> = self.handlers.get(&id);
        kept.unwrap()
    }

    /// Takes the handler of vault `id` out of the registry, or makes it where
    /// the vault was never named.
    fn take(&mut self, id: u32) -> (handler: VaultHandler)
        ensures
            handler@ == old(self)@.handler(id),
            final(self)@.external_tools == old(self)@.external_tools,
            final(self)@.handlers == old(self)@.handlers.remove(id),
    {
        let ghost before = self.handlers@;
        let taken: Option<VaultHandler> = self.handlers.remove(&id);
        assert(self.handlers@.map_values(|h: VaultHandler| h@) =~= before.map_values(
            |h: VaultHandler| h@,
        ).remove(id));
        match taken {
            Some(handler) => handler,
            None => VaultHandler::new(id, self.external_tools),
        }
    }

    /// Puts the handler of vault `id` back into the registry.
    fn put(&mut self, id: u32, handler: VaultHandler)
        ensures
            final(self)@ == old(self)@.with_handler(id, handler@),
    {
        let ghost before = self.handlers@;
        self.handlers.insert(id, handler);
        assert(self.handlers@.map_values(|h: VaultHandler| h@) =~= before.map_values(
            |h: VaultHandler| h@,
        ).insert(id, handler@));
    }

    /// Begins to lock vault `id`; the mount point to release is taken from
    /// the stored record.
    pub fn lock(&mut self, id: u32) -> (step: Step)
        ensures
            final(self)@ == old(self)@.with_handler(id, lock_spec(old(self)@.handler(id), None).0),
            step@ == lock_spec(old(self)@.handler(id), None).1,
            old(self)@.well_formed() ==> final(self)@.well_formed(),
    {
        let mut handler: VaultHandler = self.take(id);
        let step: Step = handler.lock(None);
        self.put(id, handler);
        proof {
            assert(self@.handlers =~= old(self)@.handlers.insert(id, handler@));
        }
        step
    }

    /// Begins to unlock vault `id`.
    pub fn unlock(&mut self, id: u32) -> (step: Step)
        ensures
            final(self)@ == old(self)@.with_handler(id, unlock_spec(old(self)@.handler(id)).0),
            step@ == unlock_spec(old(self)@.handler(id)).1,
            old(self)@.well_formed() ==> final(self)@.well_formed(),
    {
        let mut handler: VaultHandler = self.take(id);
        let step: Step = handler.unlock();
        self.put(id, handler);
        proof {
            assert(self@.handlers =~= old(self)@.handlers.insert(id, handler@));
        }
        step
    }

    /// Begins to move vault `id` to the mount point that its record already
    /// names; `value` is the mount point it is mounted on.
    pub fn change_mount_point(&mut self, id: u32, value: String) -> (step: Step)
        ensures
            final(self)@ == old(self)@.with_handler(
                id,
                change_mount_point_spec(old(self)@.handler(id), value@).0,
            ),
            step@ == change_mount_point_spec(old(self)@.handler(id), value@).1,
            old(self)@.well_formed() ==> final(self)@.well_formed(),
    {
        let mut handler: VaultHandler = self.take(id);
        let step: Step = handler.change_mount_point(value);
        self.put(id, handler);
        proof {
            assert(self@.handlers =~= old(self)@.handlers.insert(id, handler@));
        }
        step
    }

    /// Begins to restart vault `id` on the data directory that its record
    /// already names; `value` is the data directory it ran on.
    pub fn change_data_dir(&mut self, id: u32, value: String) -> (step: Step)
        ensures
            final(self)@ == old(self)@.with_handler(
                id,
                change_data_dir_spec(old(self)@.handler(id), value@).0,
            ),
            step@ == change_data_dir_spec(old(self)@.handler(id), value@).1,
            old(self)@.well_formed() ==> final(self)@.well_formed(),
    {
        let mut handler: VaultHandler = self.take(id);
        let step: Step = handler.change_data_dir(value);
        self.put(id, handler);
        proof {
            assert(self@.handlers =~= old(self)@.handlers.insert(id, handler@));
        }
        step
    }

    /// Goes on with the operation on vault `id` that stands at `pending`,
    /// now that the outcome `event` of its action is known.
    pub fn resume(&mut self, id: u32, pending: Pending, event: Event) -> (step: Step)
        ensures
            final(self)@ == old(self)@.with_handler(
                id,
                resume_spec(old(self)@.handler(id), pending@, event@).0,
            ),
            step@ == resume_spec(old(self)@.handler(id), pending@, event@).1,
            old(self)@.well_formed() ==> final(self)@.well_formed(),
    {
        let mut handler: VaultHandler = self.take(id);
        let step: Step = handler.resume(pending, event);
        self.put(id, handler);
        proof {
            assert(self@.handlers =~= old(self)@.handlers.insert(id, handler@));
        }
        step
    }

    /// Goes on with the operation on vault `id` that stands at `pending` by
    /// asking the process table of this machine, as
    /// [`VaultHandler::resume_probing`] does.
    pub fn resume_probing(&mut self, id: u32, pending: Pending) -> (step: Step)
        ensures
            exists|state: Option<ProcessState>|
                {
                    &&& final(self)@ == old(self)@.with_handler(
                        id,
                        resume_spec(old(self)@.handler(id), pending@, #[trigger] probed(state)).0,
                    )
                    &&& step@ == resume_spec(old(self)@.handler(id), pending@, probed(state)).1
                },
            old(self)@.well_formed() ==> final(self)@.well_formed(),
    {
        let mut handler: VaultHandler = self.take(id);
        let step: Step = handler.resume_probing(pending);
        self.put(id, handler);
        proof {
            assert(self@.handlers =~= old(self)@.handlers.insert(id, handler@));
            let state = choose|state: Option<ProcessState>|
                (handler@, step@) == resume_spec(
                    old(self)@.handler(id),
                    pending@,
                    #[trigger] probed(state),
                );
            assert(self@ == old(self)@.with_handler(
                id,
                resume_spec(old(self)@.handler(id), pending@, probed(state)).0,
            ));
        }
        step
    }

    /// Turns the result of an operation into the reply for the remote caller:
    /// an empty acknowledgement for success, and for a failure the status that
    /// names its kind.
    pub fn handle_handler_empty_response(response: Result<(), VaultHandlerError>) -> (reply: Result<
        EmptyReply,
        RpcStatus,
    >)
        ensures
            reply_view(reply) == reply_of(response),
    {
        match response {
            Ok(_) => Ok(EmptyReply {  }),
            Err(kind) => Err(
                RpcStatus::from(<VaultServiceError as From<VaultHandlerError>>::from(kind)),
            ),
        }
    }

    /// Greets `name`.
    pub fn hello(name: &str) -> (message: String)
        ensures
            message@ == greeting(name@),
    {
        let mut message: String = String::from_str("Hello, ");
        message.append(name);
        message.append("!");
        message
    }
}

/// An operation on one vault leaves the handler of every other vault as it
/// was: whatever `h` the handler of vault `id` becomes, a vault `other` is
/// known after the operation if and only if it was known before, and its
/// handler is the same.
pub proof fn law_other_vaults_untouched(service: ServiceView, id: u32, h: HandlerView, other: u32)
    requires
        other != id,
    ensures
        service.with_handler(id, h).handlers.contains_key(other) == service.handlers.contains_key(
            other,
        ),
        service.with_handler(id, h).handler(other) == service.handler(other),
{
}

/// Naming a vault registers its handler, once: after an operation on vault
/// `id` the vault is known, and an operation that changes nothing in the
/// handler of a known vault changes nothing in the service.
pub proof fn law_handler_is_registered_once(service: ServiceView, id: u32, h: HandlerView)
    ensures
        service.with_handler(id, h).handlers.contains_key(id),
        service.with_handler(id, h).handler(id) == h,
        service.handlers.contains_key(id) ==> service.with_handler(id, service.handler(id))
            == service,
{
    if service.handlers.contains_key(id) {
        assert(service.handlers.insert(id, service.handlers[id]) =~= service.handlers);
    }
}

} // verus!
