//! A [`ServiceManager`] manages a collection of services.
//!
//! The manager keeps the registry: which services there are, under which
//! names, and the last state each has reported. It decides; it does not
//! act. Every operation that asks something of a service hands back the
//! action that is to be carried out: a state to send to the service, a task
//! to start, a task to abort. Whoever runs the services carries the actions
//! out and feeds the events of the services back in.
use std::collections::BTreeMap;
use vstd::prelude::*;
use vstd::std_specs::iter::IteratorSpec;

use crate::api::resource::{random_uuid, Uuid};

verus! {

/// The states of a service.
#[derive(Debug, Clone, Copy, PartialEq, Eq, Structural, Hash)]
pub enum ServiceState {
    Registered,
    Starting,
    Running,
    Stopping,
    Stopped,
    Failed,
}

/// What moves a service from one state to the next.
#[derive(Debug, Clone, Copy, PartialEq, Eq, Structural, Hash)]
pub enum Transition {
    /// The service was asked to run, and does.
    Start,
    /// The service was asked to stop, and does.
    Stop,
    /// The service met an error.
    Error,
}

impl ServiceState {
    /// The state that a service in this state goes to on `t`: a service
    /// that is registered or has stopped runs once it is started, and one
    /// that runs stops once it is stopped and fails on an error. There is
    /// no other move.
    pub open spec fn after(self, t: Transition) -> Option<ServiceState> {
        match (self, t) {
            (ServiceState::Registered, Transition::Start) => Some(ServiceState::Running),
            (ServiceState::Stopped, Transition::Start) => Some(ServiceState::Running),
            (ServiceState::Running, Transition::Stop) => Some(ServiceState::Stopped),
            (ServiceState::Running, Transition::Error) => Some(ServiceState::Failed),
            _ => None,
        }
    }

    /// The state that a service in this state goes to on `t`, where there
    /// is such a move.
    pub fn next(self, t: Transition) -> (r: Option<ServiceState>)
        ensures
            r == self.after(t),
    {
        match (self, t) {
            (ServiceState::Registered, Transition::Start) => Some(ServiceState::Running),
            (ServiceState::Stopped, Transition::Start) => Some(ServiceState::Running),
            (ServiceState::Running, Transition::Stop) => Some(ServiceState::Stopped),
            (ServiceState::Running, Transition::Error) => Some(ServiceState::Failed),
            _ => None,
        }
    }

    /// A service that has failed moves no more, and no move leads back to
    /// `Registered`.
    pub proof fn lemma_failed_is_final(self, t: Transition)
        ensures
            ServiceState::Failed.after(t) is None,
            self.after(t) != Some(ServiceState::Registered),
    {
    }
}

/// A handle to a service: its name or its identifier.
#[derive(Debug, Clone, PartialEq, Eq)]
pub enum ServiceId {
    Name(String),
    Id(Uuid),
}

impl ServiceId {
    /// A copy of the handle.
    pub fn copy(&self) -> (c: ServiceId)
        ensures
            c == *self,
    {
        match self {
            ServiceId::Name(name) => ServiceId::Name(name.clone()),
            ServiceId::Id(id) => ServiceId::Id(*id),
        }
    }
}

/// Failures of the service manager.
#[derive(Debug, Clone, PartialEq, Eq)]
pub enum SvcError {
    /// No service goes by this handle.
    ServiceNotFound(ServiceId),
    /// A service of this name is registered already.
    ServiceAlreadyExists(String),
    /// A service that was waited for has failed.
    ServiceFailed,
    /// The manager has shut down.
    Shutdown,
}

pub type SvcResult<T> = Result<T, SvcError>;

/// What the manager knows of a service: its name and the last state it
/// reported.
#[derive(Debug, Clone, PartialEq, Eq)]
pub struct ServiceInstance {
    pub name: String,
    pub state: ServiceState,
}

/// A service reports its state.
#[derive(Debug, Clone, Copy, PartialEq, Eq, Structural)]
pub struct ServiceEvent {
    pub id: Uuid,
    pub state: ServiceState,
}

impl ServiceEvent {
    pub fn new(id: Uuid, state: ServiceState) -> (e: Self)
        ensures
            e == (ServiceEvent { id, state }),
    {
        ServiceEvent { id, state }
    }
}

/// Something to be done with a service.
#[derive(Debug, Clone, Copy, PartialEq, Eq, Structural)]
pub enum SvcAction {
    /// Start the task of the service with this identifier.
    Spawn(Uuid),
    /// Ask the service to go to this state.
    Send(Uuid, ServiceState),
    /// Abort the task of the service.
    Abort(Uuid),
}

/// A request to a [`ServiceManager`]
#[derive(Debug, Clone)]
pub enum SvmRequest {
    Stop(ServiceId),
    Start(ServiceId),
    Status(ServiceId),
    List,
    Register(String),
    Shutdown,
}

/// The answer to a request.
#[derive(Debug)]
pub enum SvmReply {
    /// The answer to `Stop` and `Start`.
    Done(SvcResult<()>),
    /// The answer to `Status`.
    Status(SvcResult<ServiceState>),
    /// The answer to `List`: the identifier and the name of each service.
    List(Vec<(Uuid, String)>),
    /// The answer to `Register`: the identifier of the new service.
    Registered(SvcResult<Uuid>),
    /// The answer to `Shutdown`: the services that were told to stop, and
    /// are to be waited for.
    ShuttingDown(SvcResult<Vec<Uuid>>),
}

/// A name and the service that goes by it.
#[derive(Debug, Clone, PartialEq, Eq)]
pub struct NameEntry {
    pub name: String,
    pub id: Uuid,
}

/// The longest that a shutdown waits for the services to stop, in seconds.
pub const SHUTDOWN_TIMEOUT_SECS: u64 = 3;

/// The registry of services.
pub struct ServiceManager {
    svcs: BTreeMap<Uuid, ServiceInstance>,
    names: Vec<NameEntry>,
    shutdown: bool,
}

/// The place of the name `name` in `names`, where it is there.
pub open spec fn name_at(names: Seq<NameEntry>, name: Seq<char>, i: int) -> bool {
    0 <= i < names.len() && names[i].name@ == name
}

/// The service that an action is about.
pub open spec fn target(action: SvcAction) -> Uuid {
    match action {
        SvcAction::Spawn(id) => id,
        SvcAction::Send(id, _) => id,
        SvcAction::Abort(id) => id,
    }
}

/// The actions are about services in increasing order of their
/// identifiers, and no two about the same.
pub open spec fn in_order(actions: Seq<SvcAction>) -> bool {
    forall|a: int, b: int|
        0 <= a < b < actions.len() ==> target(#[trigger] actions[a]) < target(
            #[trigger] actions[b],
        )
}

/// The identifiers come in increasing order, and none twice.
pub open spec fn increasing(ids: Seq<Uuid>) -> bool {
    forall|a: int, b: int| 0 <= a < b < ids.len() ==> ids[a] < ids[b]
}

/// The actions that ask each of `ids` to go to `state`.
pub open spec fn send_all(ids: Seq<Uuid>, state: ServiceState) -> Seq<SvcAction> {
    Seq::new(ids.len(), |i: int| SvcAction::Send(ids[i], state))
}

impl ServiceManager {
    /// The services, by identifier.
    pub closed spec fn svcs(&self) -> Map<Uuid, ServiceInstance> {
        self.svcs@
    }

    /// The names, in the order in which they were registered.
    pub closed spec fn names(&self) -> Seq<NameEntry> {
        self.names@
    }

    /// Whether the manager has shut down.
    pub closed spec fn is_shutdown(&self) -> bool {
        self.shutdown
    }

    /// The registry is sound: no name comes twice, and every name is that
    /// of a service.
    pub closed spec fn wf(&self) -> bool {
        &&& forall|i: int, j: int|
            0 <= i < self.names@.len() && 0 <= j < self.names@.len() && i != j
                ==> self.names@[i].name@ != self.names@[j].name@
        &&& forall|i: int|
            0 <= i < self.names@.len() ==> self.svcs@.contains_key(
                (#[trigger] self.names@[i]).id,
            )
    }

    /// A service goes by the name `name`.
    pub open spec fn knows_name(&self, name: Seq<char>) -> bool {
        exists|i: int| name_at(self.names(), name, i)
    }

    /// The service that goes by the name `name`.
    pub open spec fn id_of_name(&self, name: Seq<char>) -> Uuid {
        self.names()[choose|i: int| name_at(self.names(), name, i)].id
    }

    /// What the handle `handle` resolves to: the service that goes by the
    /// name, or the service with the identifier, where there is one.
    pub open spec fn resolved(&self, handle: ServiceId) -> Option<Uuid> {
        match handle {
            ServiceId::Name(name) => if self.knows_name(name@) {
                Some(self.id_of_name(name@))
            } else {
                None
            },
            ServiceId::Id(id) => if self.svcs().contains_key(id) {
                Some(id)
            } else {
                None
            },
        }
    }

    /// This registry holds the services and the names that `before` holds.
    pub open spec fn same_registry(&self, before: &ServiceManager) -> bool {
        self.svcs() == before.svcs() && self.names() == before.names()
    }

    /// One of the handles resolves to the service `id`.
    pub open spec fn named_by(&self, handles: Seq<ServiceId>, id: Uuid) -> bool {
        exists|i: int| 0 <= i < handles.len() && self.resolved(handles[i]) == Some(id)
    }

    /// Every one of the handles resolves to a service.
    pub open spec fn all_resolve(&self, handles: Seq<ServiceId>) -> bool {
        forall|i: int| 0 <= i < handles.len() ==> (#[trigger] self.resolved(handles[i])) is Some
    }

    /// `e` is the failure to resolve the handles: `ServiceNotFound` for the
    /// first of them that resolves to nothing.
    pub open spec fn fails_to_resolve(&self, handles: Seq<ServiceId>, e: SvcError) -> bool {
        exists|i: int|
            0 <= i < handles.len() && self.resolved(handles[i]) is None && e
                == SvcError::ServiceNotFound(handles[i]) && forall|j: int|
                0 <= j < i ==> (#[trigger] self.resolved(handles[j])) is Some
    }

    /// The action asks a service that one of the handles names to go to
    /// the state `state`.
    pub open spec fn asks_named(
        &self,
        handles: Seq<ServiceId>,
        action: SvcAction,
        state: ServiceState,
    ) -> bool {
        action == SvcAction::Send(target(action), state) && self.named_by(handles, target(action))
    }

    /// A handle that resolves, resolves to a service.
    pub proof fn lemma_resolved_is_service(&self, handle: ServiceId)
        requires
            self.wf(),
        ensures
            self.resolved(handle) matches Some(id) ==> self.svcs().contains_key(id),
    {
        if let ServiceId::Name(name) = handle {
            if self.knows_name(name@) {
                let i = choose|i: int| name_at(self.names(), name@, i);
                assert(self.svcs@.contains_key(self.names@[i].id));
            }
        }
    }

    /// A name that is known is that of a service.
    pub proof fn lemma_known_name_is_service(&self, name: Seq<char>)
        requires
            self.wf(),
            self.knows_name(name),
        ensures
            self.svcs().contains_key(self.id_of_name(name)),
    {
        let i = choose|i: int| name_at(self.names(), name, i);
        assert(self.svcs@.contains_key(self.names@[i].id));
    }

    /// The last state that the service behind the handle reported, where
    /// there is such a service.
    pub open spec fn status_of(&self, handle: ServiceId) -> Option<ServiceState> {
        match self.resolved(handle) {
            Some(id) => Some(self.svcs()[id].state),
            None => None,
        }
    }

    /// A name that a service was registered under is taken: to register a
    /// service under it once more fails.
    pub proof fn lemma_registered_name_taken(
        &self,
        before: &ServiceManager,
        name: Seq<char>,
        id: Uuid,
    )
        requires
            self.registered(before, name, id),
        ensures
            self.knows_name(name),
            self.resolved_name(name) == Some(id),
    {
    }

    /// What the name `name` resolves to.
    pub open spec fn resolved_name(&self, name: Seq<char>) -> Option<Uuid> {
        if self.knows_name(name) {
            Some(self.id_of_name(name))
        } else {
            None
        }
    }

    /// The state that a service reported last is its status, whatever was
    /// asked of it since.
    pub proof fn lemma_status_is_reported_state(&self, id: Uuid, state: ServiceState)
        requires
            self.svcs().contains_key(id),
            self.svcs()[id].state == state,
        ensures
            self.status_of(ServiceId::Id(id)) == Some(state),
    {
    }

    /// A registry without services.
    pub fn new() -> (m: Self)
        ensures
            m.wf(),
            m.svcs() == Map::<Uuid, ServiceInstance>::empty(),
            m.names() == Seq::<NameEntry>::empty(),
            !m.is_shutdown(),
    {
        ServiceManager { svcs: BTreeMap::new(), names: Vec::new(), shutdown: false }
    }

    /// Whether the manager has shut down.
    pub fn has_shut_down(&self) -> (b: bool)
        ensures
            b == self.is_shutdown(),
    {
        self.shutdown
    }

    /// Where the name `name` stands in the list of names.
    fn find_name(&self, name: &str) -> (r: Option<usize>)
        requires
            self.wf(),
        ensures
            match r {
                Some(i) => name_at(self.names(), name@, i as int) && self.knows_name(name@)
                    && self.id_of_name(name@) == self.names()[i as int].id,
                None => !self.knows_name(name@),
            },
    {
        let wanted = name.to_string();
        let n = self.names.len();
        let mut i: usize = 0;
        while i < n
            invariant
                n == self.names@.len(),
                i <= n,
                self.wf(),
                wanted@ == name@,
                forall|k: int| 0 <= k < i ==> self.names@[k].name@ != name@,
            decreases n - i,
        {
            if self.names[i].name == wanted {
                proof {
                    assert(name_at(self.names(), name@, i as int));
                    let c = choose|c: int| name_at(self.names(), name@, c);
                    assert(c == i);
                }
                return Some(i);
            }
            i += 1;
        }
        None
    }

    /// Registers a service under the name `name` and a new random
    /// identifier, as `register_as` does.
    pub fn register(&mut self, name: &str) -> (r: SvcResult<(Uuid, SvcAction)>)
        requires
            old(self).wf(),
        ensures
            final(self).wf(),
            final(self).is_shutdown() == old(self).is_shutdown(),
            old(self).knows_name(name@) <==> r is Err,
            r matches Err(e) ==> e matches SvcError::ServiceAlreadyExists(n) && n@ == name@
                && final(self).same_registry(old(self)),
            r matches Ok(reg) ==> final(self).registered(old(self), name@, reg.0) && reg.1
                == SvcAction::Spawn(reg.0),
    {
        self.register_as(name, random_uuid())
    }

    /// This registry is `before` with a service registered under the name
    /// `name` and the identifier `id`, in the state `Registered`.
    pub open spec fn registered(&self, before: &ServiceManager, name: Seq<char>, id: Uuid) -> bool {
        &&& self.svcs().dom() == before.svcs().dom().insert(id)
        &&& forall|other: Uuid|
            other != id && before.svcs().contains_key(other) ==> self.svcs()[other]
                == before.svcs()[other]
        &&& self.svcs()[id].name@ == name
        &&& self.svcs()[id].state == ServiceState::Registered
        &&& self.names().len() == before.names().len() + 1
        &&& self.names().subrange(0, before.names().len() as int) == before.names()
        &&& self.names().last().name@ == name
        &&& self.names().last().id == id
        &&& self.knows_name(name)
        &&& self.id_of_name(name) == id
    }

    /// Registers a service under the name `name` and the identifier `id`,
    /// in the state `Registered`, and asks for its task to be started.
    /// Fails with `ServiceAlreadyExists` where the name is taken; the
    /// registry is then as it was.
    pub fn register_as(&mut self, name: &str, id: Uuid) -> (r: SvcResult<(Uuid, SvcAction)>)
        requires
            old(self).wf(),
        ensures
            final(self).wf(),
            final(self).is_shutdown() == old(self).is_shutdown(),
            old(self).knows_name(name@) <==> r is Err,
            r matches Err(e) ==> e matches SvcError::ServiceAlreadyExists(n) && n@ == name@
                && final(self).same_registry(old(self)),
            r matches Ok(reg) ==> reg.0 == id && final(self).registered(old(self), name@, id)
                && reg.1 == SvcAction::Spawn(id),
    {
        if self.find_name(name).is_some() {
            return Err(SvcError::ServiceAlreadyExists(name.to_string()));
        }
        let rec = ServiceInstance { name: name.to_string(), state: ServiceState::Registered };
        self.svcs.insert(id, rec);
        self.names.push(NameEntry { name: name.to_string(), id });
        proof {
            let k = old(self).names@.len() as int;
            assert(self.names@.subrange(0, k) =~= old(self).names@);
            assert forall|i: int, j: int|
                0 <= i < self.names@.len() && 0 <= j < self.names@.len() && i
                    != j implies self.names@[i].name@
                != self.names@[j].name@ by {
                if i < k && j < k {
                } else if i < k {
                    if name_at(old(self).names(), name@, i) {
                        assert(old(self).knows_name(name@));
                    }
                } else {
                    if name_at(old(self).names(), name@, j) {
                        assert(old(self).knows_name(name@));
                    }
                }
            }
            assert(name_at(self.names(), name@, k));
            let c = choose|c: int| name_at(self.names(), name@, c);
            assert(c == k);
            assert(self.svcs@.dom() =~= old(self).svcs@.dom().insert(id));
        }
        Ok((id, SvcAction::Spawn(id)))
    }

    /// The identifiers of the services, in increasing order.
    pub fn list(&self) -> (ids: Vec<Uuid>)
        ensures
            forall|i: int, j: int| 0 <= i < j < ids@.len() ==> ids@[i] < ids@[j],
            ids@.no_duplicates(),
            ids@.len() == self.svcs().dom().len(),
            forall|i: int| 0 <= i < ids@.len() ==> self.svcs().contains_key(#[trigger] ids@[i]),
            forall|id: Uuid| self.svcs().contains_key(id) ==> ids@.contains(id),
    {
        let mut ids: Vec<Uuid> = Vec::new();
        let ghost all = self.svcs.iter().remaining();
        for kv in it: self.svcs.iter()
            invariant
                it.seq() == all,
                all == self.svcs.iter().remaining(),
                ids@.len() == it.index(),
                forall|i: int| 0 <= i < ids@.len() ==> ids@[i] == *(#[trigger] all[i]).0,
        {
            let (id, _inst) = kv;
            ids.push(*id);
        }
        proof {
            let keys = all.map_values(|kv: (&Uuid, &ServiceInstance)| *kv.0);
            assert(keys =~= ids@);
            crate::svc::order::lemma_increasing_ids(keys);
            assert forall|i: int| 0 <= i < ids@.len() implies self.svcs@.contains_key(
                #[trigger] ids@[i],
            ) by {
                assert(self.svcs@.contains_key(*all[i].0));
            }
            assert forall|id: Uuid| self.svcs@.contains_key(id) implies ids@.contains(id) by {
                assert(all.contains((&id, &self.svcs@[id])));
                let j = choose|j: int| 0 <= j < all.len() && all[j] == (&id, &self.svcs@[id]);
                assert(ids@[j] == id);
            }
            assert forall|i: int, j: int|
                0 <= i < ids@.len() && 0 <= j < ids@.len() && i != j implies ids@[i]
                != ids@[j] by {
                assert(self.svcs@.contains_key(*all[i].0));
                assert(self.svcs@.contains_key(*all[j].0));
                assert(all[i] != all[j]);
            }
        }
        ids
    }

    /// The identifier and the name of each registered name, in the order
    /// in which the names were registered.
    pub fn list_names(&self) -> (list: Vec<(Uuid, String)>)
        ensures
            list@.len() == self.names().len(),
            forall|i: int|
                0 <= i < list@.len() ==> (#[trigger] list@[i]).0 == self.names()[i].id
                    && list@[i].1@ == self.names()[i].name@,
    {
        let mut list: Vec<(Uuid, String)> = Vec::new();
        let n = self.names.len();
        let mut i: usize = 0;
        while i < n
            invariant
                n == self.names@.len(),
                i <= n,
                list@.len() == i,
                forall|k: int|
                    0 <= k < i ==> (#[trigger] list@[k]).0 == self.names@[k].id && list@[k].1@
                        == self.names@[k].name@,
            decreases n - i,
        {
            list.push((self.names[i].id, self.names[i].name.clone()));
            i += 1;
        }
        list
    }

    /// The service that goes by the name `name`.
    pub fn lookup(&self, name: &str) -> (r: Option<Uuid>)
        requires
            self.wf(),
        ensures
            r == (if self.knows_name(name@) {
                Some(self.id_of_name(name@))
            } else {
                None
            }),
    {
        match self.find_name(name) {
            Some(i) => Some(self.names[i].id),
            None => None,
        }
    }

    /// The service behind the handle. Fails with `ServiceNotFound` where
    /// there is none.
    pub fn resolve(&self, handle: &ServiceId) -> (r: SvcResult<Uuid>)
        requires
            self.wf(),
        ensures
            match r {
                Ok(id) => self.resolved(*handle) == Some(id) && self.svcs().contains_key(id),
                Err(e) => self.resolved(*handle) is None && e == SvcError::ServiceNotFound(
                    *handle,
                ),
            },
    {
        proof {
            self.lemma_resolved_is_service(*handle);
        }
        match handle {
            ServiceId::Name(name) => match self.find_name(name.as_str()) {
                Some(i) => Ok(self.names[i].id),
                None => Err(SvcError::ServiceNotFound(handle.copy())),
            },
            ServiceId::Id(uuid) => {
                if self.svcs.contains_key(uuid) {
                    Ok(*uuid)
                } else {
                    Err(SvcError::ServiceNotFound(handle.copy()))
                }
            },
        }
    }

    /// Takes the service behind the handle off the registry, with every
    /// name it goes by. Fails with `ServiceNotFound` where there is none.
    fn remove(&mut self, handle: &ServiceId) -> (r: SvcResult<Uuid>)
        requires
            old(self).wf(),
        ensures
            final(self).wf(),
            final(self).is_shutdown() == old(self).is_shutdown(),
            match r {
                Ok(id) => old(self).resolved(*handle) == Some(id) && final(self).removed(
                    old(self),
                    id,
                ),
                Err(e) => old(self).resolved(*handle) is None && e == SvcError::ServiceNotFound(
                    *handle,
                ) && final(self).same_registry(old(self)),
            },
    {
        let id = match self.resolve(handle) {
            Ok(id) => id,
            Err(e) => {
                return Err(e);
            },
        };
        let mut kept: Vec<NameEntry> = Vec::new();
        let n = self.names.len();
        let mut i: usize = 0;
        let ghost mut from: Seq<int> = Seq::empty();
        while i < n
            invariant
                n == self.names@.len(),
                i <= n,
                self.wf(),
                from.len() == kept@.len(),
                forall|k: int| 0 <= k < kept@.len() ==> 0 <= #[trigger] from[k] < i,
                forall|k: int|
                    0 <= k < kept@.len() ==> (#[trigger] kept@[k]).name@
                        == self.names@[from[k]].name@ && kept@[k].id == self.names@[from[k]].id
                        && kept@[k].id != id,
                forall|a: int, b: int|
                    0 <= a < b < kept@.len() ==> #[trigger] from[a] < #[trigger] from[b],
                forall|m: int|
                    0 <= m < i && (#[trigger] self.names@[m]).id != id ==> exists|k: int|
                        0 <= k < kept@.len() && #[trigger] from[k] == m,
            decreases n - i,
        {
            if self.names[i].id != id {
                let ghost old_kept = kept@;
                let ghost old_from = from;
                kept.push(NameEntry { name: self.names[i].name.clone(), id: self.names[i].id });
                proof {
                    from = from.push(i as int);
                    assert forall|k: int| 0 <= k < kept@.len() implies (#[trigger] kept@[k]).name@
                        == self.names@[from[k]].name@ && kept@[k].id == self.names@[from[k]].id
                        && kept@[k].id != id by {
                        if k < old_kept.len() {
                            assert(kept@[k] == old_kept[k]);
                            assert(from[k] == old_from[k]);
                        }
                    }
                    assert forall|m: int|
                        0 <= m < i + 1 && (#[trigger] self.names@[m]).id != id implies exists|
                        k: int,
                    |
                        0 <= k < kept@.len() && #[trigger] from[k] == m by {
                        if m < i {
                            let k = choose|k: int|
                                0 <= k < old_from.len() && #[trigger] old_from[k] == m;
                            assert(from[k] == m);
                        } else {
                            assert(from[kept@.len() - 1] == m);
                        }
                    }
                }
            }
            i += 1;
        }
        proof {
            assert forall|a: int, b: int|
                0 <= a < kept@.len() && 0 <= b < kept@.len() && a != b implies kept@[a].name@
                != kept@[b].name@ by {
                assert(kept@[a].name@ == self.names@[from[a]].name@);
                assert(kept@[b].name@ == self.names@[from[b]].name@);
                if a < b {
                    assert(from[a] < from[b]);
                } else {
                    assert(from[b] < from[a]);
                }
            }
            assert forall|k: int| 0 <= k < kept@.len() implies self.svcs@.remove(id).contains_key(
                (#[trigger] kept@[k]).id,
            ) by {
                assert(self.svcs@.contains_key(self.names@[from[k]].id));
            }
        }
        let ghost names_before = self.names@;
        self.names = kept;
        self.svcs.remove(&id);
        proof {
            assert forall|name: Seq<char>|
                self.knows_name(name) <==> old(self).knows_name(name) && old(self).id_of_name(name)
                    != id by {
                if self.knows_name(name) {
                    let k = choose|k: int| name_at(self.names(), name, k);
                    assert(name_at(names_before, name, from[k]));
                    let c = choose|c: int| name_at(old(self).names(), name, c);
                    assert(c == from[k]);
                }
                if old(self).knows_name(name) && old(self).id_of_name(name) != id {
                    let c = choose|c: int| name_at(old(self).names(), name, c);
                    let k = choose|k: int| 0 <= k < self.names@.len() && #[trigger] from[k] == c;
                    assert(name_at(self.names(), name, k));
                }
            }
            assert forall|name: Seq<char>| self.knows_name(name) implies self.id_of_name(name)
                == old(self).id_of_name(name) by {
                let k = choose|k: int| name_at(self.names(), name, k);
                assert(name_at(names_before, name, from[k]));
                let c = choose|c: int| name_at(old(self).names(), name, c);
                assert(c == from[k]);
            }
        }
        Ok(id)
    }

    /// This registry is `before` without the service `id` and without the
    /// names it went by.
    pub open spec fn removed(&self, before: &ServiceManager, id: Uuid) -> bool {
        &&& self.svcs() == before.svcs().remove(id)
        &&& forall|name: Seq<char>|
            self.knows_name(name) <==> before.knows_name(name) && before.id_of_name(name) != id
        &&& forall|name: Seq<char>|
            self.knows_name(name) ==> self.id_of_name(name) == before.id_of_name(name)
    }

    /// Takes the service behind the handle off the registry, and asks for
    /// its task to be aborted. Fails with `ServiceNotFound` where there is
    /// no such service.
    pub fn abort(&mut self, id: &ServiceId) -> (r: SvcResult<SvcAction>)
        requires
            old(self).wf(),
        ensures
            final(self).wf(),
            final(self).is_shutdown() == old(self).is_shutdown(),
            match r {
                Ok(action) => old(self).resolved(*id) matches Some(uuid) && action
                    == SvcAction::Abort(uuid) && final(self).removed(old(self), uuid),
                Err(e) => old(self).resolved(*id) is None && e == SvcError::ServiceNotFound(*id)
                    && final(self).same_registry(old(self)),
            },
    {
        match self.remove(id) {
            Ok(uuid) => Ok(SvcAction::Abort(uuid)),
            Err(e) => Err(e),
        }
    }

    /// What the manager knows of the service behind the handle. Fails with
    /// `ServiceNotFound` where there is none.
    pub fn get(&self, svc: &ServiceId) -> (r: SvcResult<&ServiceInstance>)
        requires
            self.wf(),
        ensures
            match r {
                Ok(inst) => self.resolved(*svc) matches Some(id) && *inst == self.svcs()[id],
                Err(e) => self.resolved(*svc) is None && e == SvcError::ServiceNotFound(*svc),
            },
    {
        let id = match self.resolve(svc) {
            Ok(id) => id,
            Err(e) => {
                return Err(e);
            },
        };
        match self.svcs.get(&id) {
            Some(inst) => Ok(inst),
            None => Err(SvcError::ServiceNotFound(svc.copy())),
        }
    }

    /// The last state that the service behind the handle reported. Fails
    /// with `ServiceNotFound` where there is no such service.
    pub fn status(&self, svc: &ServiceId) -> (r: SvcResult<ServiceState>)
        requires
            self.wf(),
        ensures
            match r {
                Ok(state) => self.status_of(*svc) == Some(state),
                Err(_) => self.status_of(*svc) is None,
            },
            match r {
                Ok(state) => self.resolved(*svc) matches Some(id) && state
                    == self.svcs()[id].state,
                Err(e) => self.resolved(*svc) is None && e == SvcError::ServiceNotFound(*svc),
            },
    {
        match self.get(svc) {
            Ok(inst) => Ok(inst.state),
            Err(e) => Err(e),
        }
    }

    /// Asks the service behind the handle to run. Fails with
    /// `ServiceNotFound` where there is no such service.
    pub fn start(&self, id: &ServiceId) -> (r: SvcResult<SvcAction>)
        requires
            self.wf(),
        ensures
            match r {
                Ok(action) => self.resolved(*id) matches Some(uuid) && action == SvcAction::Send(
                    uuid,
                    ServiceState::Running,
                ),
                Err(e) => self.resolved(*id) is None && e == SvcError::ServiceNotFound(*id),
            },
    {
        match self.resolve(id) {
            Ok(uuid) => Ok(SvcAction::Send(uuid, ServiceState::Running)),
            Err(e) => Err(e),
        }
    }

    /// What stopping the service `id` asks for: nothing where it has
    /// stopped, and else that it go to `Stopped`.
    pub open spec fn stop_action(&self, id: Uuid) -> Option<SvcAction> {
        if self.svcs()[id].state == ServiceState::Stopped {
            None
        } else {
            Some(SvcAction::Send(id, ServiceState::Stopped))
        }
    }

    /// Asks the service behind the handle to stop, unless it has stopped.
    /// Fails with `ServiceNotFound` where there is no such service.
    pub fn stop(&self, id: &ServiceId) -> (r: SvcResult<Option<SvcAction>>)
        requires
            self.wf(),
        ensures
            match r {
                Ok(action) => self.resolved(*id) matches Some(uuid) && action == self.stop_action(
                    uuid,
                ),
                Err(e) => self.resolved(*id) is None && e == SvcError::ServiceNotFound(*id),
            },
    {
        let inst = match self.get(id) {
            Ok(inst) => inst,
            Err(e) => {
                return Err(e);
            },
        };
        let uuid = match self.resolve(id) {
            Ok(uuid) => uuid,
            Err(e) => {
                return Err(e);
            },
        };
        if inst.state == ServiceState::Stopped {
            Ok(None)
        } else {
            Ok(Some(SvcAction::Send(uuid, ServiceState::Stopped)))
        }
    }

    /// Takes note of the state that a service reports: it is from now on
    /// the state of the service. Fails with `ServiceNotFound` where the
    /// service is not registered; the registry is then as it was.
    pub fn handle_service_event(&mut self, event: ServiceEvent) -> (r: SvcResult<()>)
        requires
            old(self).wf(),
        ensures
            final(self).wf(),
            final(self).names() == old(self).names(),
            final(self).is_shutdown() == old(self).is_shutdown(),
            match r {
                Ok(_) => old(self).svcs().contains_key(event.id) && final(self).svcs() == old(
                    self,
                ).svcs().insert(
                    event.id,
                    (ServiceInstance {
                        name: old(self).svcs()[event.id].name,
                        state: event.state,
                    }),
                ),
                Err(e) => !old(self).svcs().contains_key(event.id) && e
                    == SvcError::ServiceNotFound(ServiceId::Id(event.id)) && final(self).svcs()
                    == old(self).svcs(),
            },
    {
        let name = match self.svcs.get(&event.id) {
            Some(inst) => inst.name.clone(),
            None => {
                return Err(SvcError::ServiceNotFound(ServiceId::Id(event.id)));
            },
        };
        self.svcs.insert(event.id, ServiceInstance { name, state: event.state });
        Ok(())
    }

    /// Whether the service `id` has reached the state `expected`. Fails
    /// with `ServiceNotFound` where the service is not registered, and with
    /// `ServiceFailed` where it has failed and that was not what was
    /// expected.
    pub fn check_state(&self, id: Uuid, expected: ServiceState) -> (r: SvcResult<bool>)
        requires
            self.wf(),
        ensures
            match r {
                Ok(reached) => self.svcs().contains_key(id) && reached == (self.svcs()[id].state
                    == expected) && (reached || self.svcs()[id].state != ServiceState::Failed),
                Err(e) => if self.svcs().contains_key(id) {
                    self.svcs()[id].state == ServiceState::Failed && expected
                        != ServiceState::Failed && e == SvcError::ServiceFailed
                } else {
                    e == SvcError::ServiceNotFound(ServiceId::Id(id))
                },
            },
    {
        let state = match self.svcs.get(&id) {
            Some(inst) => inst.state,
            None => {
                return Err(SvcError::ServiceNotFound(ServiceId::Id(id)));
            },
        };
        if state == expected {
            Ok(true)
        } else if state == ServiceState::Failed {
            Err(SvcError::ServiceFailed)
        } else {
            Ok(false)
        }
    }

    /// The services behind the handles, each once, in increasing order of
    /// their identifiers. Fails with `ServiceNotFound`, for the first handle
    /// that it holds of, where a handle resolves to nothing.
    pub fn resolve_multiple(&self, handles: &[ServiceId]) -> (r: SvcResult<Vec<Uuid>>)
        requires
            self.wf(),
        ensures
            match r {
                Ok(ids) => {
                    &&& self.all_resolve(handles@)
                    &&& increasing(ids@)
                    &&& forall|id: Uuid| #[trigger]
                        ids@.contains(id) <==> self.named_by(handles@, id)
                    &&& forall|id: Uuid| ids@.contains(id) ==> self.svcs().contains_key(id)
                },
                Err(e) => self.fails_to_resolve(handles@, e),
            },
    {
        let mut found: Vec<Uuid> = Vec::new();
        let n = handles.len();
        let mut i: usize = 0;
        while i < n
            invariant
                n == handles@.len(),
                i <= n,
                self.wf(),
                found@.len() == i,
                forall|j: int|
                    0 <= j < i ==> (#[trigger] self.resolved(handles@[j])) == Some(found@[j]),
                forall|j: int| 0 <= j < i ==> self.svcs().contains_key(#[trigger] found@[j]),
            decreases n - i,
        {
            let id = match self.resolve(&handles[i]) {
                Ok(id) => id,
                Err(e) => {
                    return Err(e);
                },
            };
            found.push(id);
            i += 1;
        }
        let all = self.list();
        let mut ids: Vec<Uuid> = Vec::new();
        let ghost mut from: Seq<int> = Seq::empty();
        let total = all.len();
        let mut k: usize = 0;
        while k < total
            invariant
                total == all@.len(),
                k <= total,
                from.len() == ids@.len(),
                forall|a: int| 0 <= a < ids@.len() ==> 0 <= #[trigger] from[a] < k,
                forall|a: int|
                    0 <= a < ids@.len() ==> (#[trigger] ids@[a]) == all@[from[a]]
                        && found@.contains(ids@[a]),
                forall|a: int, b: int|
                    0 <= a < b < ids@.len() ==> #[trigger] from[a] < #[trigger] from[b],
                forall|m: int|
                    0 <= m < k && found@.contains(#[trigger] all@[m]) ==> exists|a: int|
                        0 <= a < ids@.len() && #[trigger] from[a] == m,
            decreases total - k,
        {
            let id = all[k];
            if contains_id(&found, id) {
                let ghost old_ids = ids@;
                let ghost old_from = from;
                ids.push(id);
                proof {
                    from = from.push(k as int);
                    assert forall|a: int| 0 <= a < ids@.len() implies (#[trigger] ids@[a])
                        == all@[from[a]] && found@.contains(ids@[a]) by {
                        if a < old_ids.len() {
                            assert(ids@[a] == old_ids[a]);
                            assert(from[a] == old_from[a]);
                        }
                    }
                    assert forall|m: int|
                        0 <= m < k + 1 && found@.contains(#[trigger] all@[m]) implies exists|
                        a: int,
                    |
                        0 <= a < ids@.len() && #[trigger] from[a] == m by {
                        if m < k {
                            let a = choose|a: int|
                                0 <= a < old_from.len() && #[trigger] old_from[a] == m;
                            assert(from[a] == m);
                        } else {
                            assert(from[ids@.len() - 1] == m);
                        }
                    }
                }
            }
            k += 1;
        }
        proof {
            assert forall|a: int, b: int| 0 <= a < b < ids@.len() implies ids@[a] < ids@[b] by {
                assert(ids@[a] == all@[from[a]]);
                assert(ids@[b] == all@[from[b]]);
                assert(from[a] < from[b]);
            }
            assert forall|id: Uuid| #[trigger] ids@.contains(id) <==> self.named_by(
                handles@,
                id,
            ) by {
                if ids@.contains(id) {
                    let k = choose|k: int| 0 <= k < ids@.len() && ids@[k] == id;
                    assert(found@.contains(ids@[k]));
                    let j = choose|j: int| 0 <= j < found@.len() && found@[j] == id;
                    assert(self.resolved(handles@[j]) == Some(id));
                }
                if self.named_by(handles@, id) {
                    let i = choose|i: int|
                        0 <= i < handles@.len() && self.resolved(handles@[i]) == Some(id);
                    assert(self.resolved(handles@[i]) == Some(found@[i]));
                    assert(self.svcs().contains_key(found@[i]));
                    assert(all@.contains(id));
                    let m = choose|m: int| 0 <= m < all@.len() && all@[m] == id;
                    assert(found@[i] == all@[m]);
                    assert(found@.contains(all@[m]));
                    let a = choose|a: int| 0 <= a < ids@.len() && #[trigger] from[a] == m;
                    assert(ids@[a] == id);
                }
            }
            assert forall|id: Uuid| ids@.contains(id) implies self.svcs().contains_key(id) by {
                let k = choose|k: int| 0 <= k < ids@.len() && ids@[k] == id;
                assert(ids@[k] == all@[from[k]]);
                assert(self.svcs().contains_key(all@[from[k]]));
            }
        }
        Ok(ids)
    }

    /// Asks every service behind the handles to run, each once, in
    /// increasing order of their identifiers. Fails as `resolve_multiple`
    /// does, and then asks nothing.
    pub fn start_multiple(&self, handles: &[ServiceId]) -> (r: SvcResult<Vec<SvcAction>>)
        requires
            self.wf(),
        ensures
            match r {
                Ok(actions) => {
                    &&& self.all_resolve(handles@)
                    &&& in_order(actions@)
                    &&& forall|a: SvcAction| #[trigger]
                        actions@.contains(a) <==> self.asks_named(
                            handles@,
                            a,
                            ServiceState::Running,
                        )
                },
                Err(e) => self.fails_to_resolve(handles@, e),
            },
    {
        let ids = match self.resolve_multiple(handles) {
            Ok(ids) => ids,
            Err(e) => {
                return Err(e);
            },
        };
        let mut actions: Vec<SvcAction> = Vec::new();
        let n = ids.len();
        let mut k: usize = 0;
        while k < n
            invariant
                n == ids@.len(),
                k <= n,
                actions@ == send_all(ids@.subrange(0, k as int), ServiceState::Running),
            decreases n - k,
        {
            actions.push(SvcAction::Send(ids[k], ServiceState::Running));
            k += 1;
            assert(actions@ =~= send_all(ids@.subrange(0, k as int), ServiceState::Running));
        }
        proof {
            assert(ids@.subrange(0, n as int) =~= ids@);
            assert forall|a: int, b: int| 0 <= a < b < actions@.len() implies target(
                #[trigger] actions@[a],
            ) < target(#[trigger] actions@[b]) by {
                assert(ids@[a] < ids@[b]);
            }
            assert forall|a: SvcAction| #[trigger] actions@.contains(a) <==> self.asks_named(
                handles@,
                a,
                ServiceState::Running,
            ) by {
                if actions@.contains(a) {
                    let w = choose|w: int| 0 <= w < actions@.len() && actions@[w] == a;
                    assert(ids@.contains(ids@[w]));
                }
                if self.asks_named(handles@, a, ServiceState::Running) {
                    assert(ids@.contains(target(a)));
                    let w = choose|w: int| 0 <= w < ids@.len() && ids@[w] == target(a);
                    assert(actions@[w] == a);
                }
            }
        }
        Ok(actions)
    }

    /// Asks every service behind the handles that has not stopped to stop,
    /// each once, in increasing order of their identifiers. Fails as
    /// `resolve_multiple` does, and then asks nothing.
    pub fn stop_multiple(&self, handles: &[ServiceId]) -> (r: SvcResult<Vec<SvcAction>>)
        requires
            self.wf(),
        ensures
            match r {
                Ok(actions) => {
                    &&& self.all_resolve(handles@)
                    &&& in_order(actions@)
                    &&& forall|a: SvcAction| #[trigger]
                        actions@.contains(a) <==> self.asks_named(
                            handles@,
                            a,
                            ServiceState::Stopped,
                        ) && self.svcs()[target(a)].state != ServiceState::Stopped
                },
                Err(e) => self.fails_to_resolve(handles@, e),
            },
    {
        let ids = match self.resolve_multiple(handles) {
            Ok(ids) => ids,
            Err(e) => {
                return Err(e);
            },
        };
        let actions = self.stop_all(&ids);
        Ok(actions)
    }

    /// Asks each of the services `ids` that has not stopped to stop, in the
    /// order of `ids`.
    fn stop_all(&self, ids: &Vec<Uuid>) -> (actions: Vec<SvcAction>)
        requires
            increasing(ids@),
        ensures
            in_order(actions@),
            forall|a: SvcAction| #[trigger]
                actions@.contains(a) <==> a == SvcAction::Send(target(a), ServiceState::Stopped)
                    && ids@.contains(target(a)) && self.svcs().contains_key(target(a))
                    && self.svcs()[target(a)].state != ServiceState::Stopped,
    {
        let mut actions: Vec<SvcAction> = Vec::new();
        let n = ids.len();
        let mut k: usize = 0;
        while k < n
            invariant
                n == ids@.len(),
                k <= n,
                increasing(ids@),
                in_order(actions@),
                forall|a: int|
                    0 <= a < actions@.len() ==> exists|w: int|
                        0 <= w < k && (#[trigger] actions@[a]) == SvcAction::Send(
                            ids@[w],
                            ServiceState::Stopped,
                        ) && self.svcs().contains_key(ids@[w]) && self.svcs()[ids@[w]].state
                            != ServiceState::Stopped,
                forall|j: int|
                    0 <= j < k && self.svcs().contains_key(#[trigger] ids@[j])
                        && self.svcs()[ids@[j]].state != ServiceState::Stopped
                        ==> actions@.contains(SvcAction::Send(ids@[j], ServiceState::Stopped)),
            decreases n - k,
        {
            let id = ids[k];
            let ghost before = actions@;
            let stopped = match self.svcs.get(&id) {
                Some(inst) => inst.state == ServiceState::Stopped,
                None => true,
            };
            if !stopped {
                actions.push(SvcAction::Send(id, ServiceState::Stopped));
            }
            proof {
                assert forall|a: int| 0 <= a < actions@.len() implies exists|w: int|
                    0 <= w < k + 1 && (#[trigger] actions@[a]) == SvcAction::Send(
                        ids@[w],
                        ServiceState::Stopped,
                    ) && self.svcs().contains_key(ids@[w]) && self.svcs()[ids@[w]].state
                        != ServiceState::Stopped by {
                    if a < before.len() {
                        assert(actions@[a] == before[a]);
                        let w = choose|w: int|
                            0 <= w < k && before[a] == SvcAction::Send(
                                ids@[w],
                                ServiceState::Stopped,
                            ) && self.svcs().contains_key(ids@[w]) && self.svcs()[ids@[w]].state
                                != ServiceState::Stopped;
                        assert(0 <= w < k + 1 && actions@[a] == SvcAction::Send(
                            ids@[w],
                            ServiceState::Stopped,
                        ) && self.svcs().contains_key(ids@[w]) && self.svcs()[ids@[w]].state
                            != ServiceState::Stopped);
                    } else {
                        assert(0 <= k < k + 1 && actions@[a] == SvcAction::Send(
                            ids@[k as int],
                            ServiceState::Stopped,
                        ) && self.svcs().contains_key(ids@[k as int])
                            && self.svcs()[ids@[k as int]].state != ServiceState::Stopped);
                    }
                }
                assert forall|a: int, b: int| 0 <= a < b < actions@.len() implies target(
                    #[trigger] actions@[a],
                ) < target(#[trigger] actions@[b]) by {
                    if b < before.len() {
                        assert(actions@[a] == before[a] && actions@[b] == before[b]);
                    } else {
                        assert(actions@[a] == before[a]);
                        let w = choose|w: int|
                            0 <= w < k && before[a] == SvcAction::Send(
                                ids@[w],
                                ServiceState::Stopped,
                            ) && self.svcs().contains_key(ids@[w]) && self.svcs()[ids@[w]].state
                                != ServiceState::Stopped;
                        assert(ids@[w] < ids@[k as int]);
                    }
                }
                assert forall|j: int|
                    0 <= j < k + 1 && self.svcs().contains_key(#[trigger] ids@[j])
                        && self.svcs()[ids@[j]].state
                        != ServiceState::Stopped implies actions@.contains(
                    SvcAction::Send(ids@[j], ServiceState::Stopped),
                ) by {
                    if j < k {
                        let act = SvcAction::Send(ids@[j], ServiceState::Stopped);
                        assert(before.contains(act));
                        let w = choose|w: int| 0 <= w < before.len() && before[w] == act;
                        assert(actions@[w] == act);
                    } else {
                        assert(actions@[actions@.len() - 1] == SvcAction::Send(
                            id,
                            ServiceState::Stopped,
                        ));
                    }
                }
            }
            k += 1;
        }
        proof {
            assert forall|a: SvcAction| #[trigger]
                actions@.contains(a) <==> a == SvcAction::Send(target(a), ServiceState::Stopped)
                    && ids@.contains(target(a)) && self.svcs().contains_key(target(a))
                    && self.svcs()[target(a)].state != ServiceState::Stopped by {
                if actions@.contains(a) {
                    let x = choose|x: int| 0 <= x < actions@.len() && actions@[x] == a;
                    let w = choose|w: int|
                        0 <= w < n && actions@[x] == SvcAction::Send(
                            ids@[w],
                            ServiceState::Stopped,
                        ) && self.svcs().contains_key(ids@[w]) && self.svcs()[ids@[w]].state
                            != ServiceState::Stopped;
                    assert(ids@.contains(ids@[w]));
                }
                if a == SvcAction::Send(target(a), ServiceState::Stopped) && ids@.contains(
                    target(a),
                ) && self.svcs().contains_key(target(a)) && self.svcs()[target(a)].state
                    != ServiceState::Stopped {
                    let j = choose|j: int| 0 <= j < ids@.len() && ids@[j] == target(a);
                    assert(self.svcs().contains_key(ids@[j]));
                }
            }
        }
        actions
    }

    /// Of the services `missing`, those that have not reached the state
    /// `target`, in their order: where the list is empty, all have.
    ///
    /// Fails for the first service, in the order of `missing`, that is not
    /// registered (`ServiceNotFound`) or has failed (`ServiceFailed`).
    pub fn check_multiple(&self, missing: &Vec<Uuid>, target: ServiceState) -> (r: SvcResult<
        Vec<Uuid>,
    >)
        requires
            self.wf(),
        ensures
            match r {
                Ok(rest) => {
                    &&& forall|i: int|
                        0 <= i < missing@.len() ==> self.svcs().contains_key(
                            #[trigger] missing@[i],
                        ) && self.svcs()[missing@[i]].state != ServiceState::Failed
                    &&& rest@ == missing@.filter(|id: Uuid| self.svcs()[id].state != target)
                },
                Err(e) => exists|i: int|
                    0 <= i < missing@.len() && self.fails_wait(missing@[i], e) && forall|j: int|
                        0 <= j < i ==> self.svcs().contains_key(#[trigger] missing@[j])
                            && self.svcs()[missing@[j]].state != ServiceState::Failed,
            },
    {
        let mut rest: Vec<Uuid> = Vec::new();
        let n = missing.len();
        let mut i: usize = 0;
        let ghost pending = |id: Uuid| self.svcs()[id].state != target;
        while i < n
            invariant
                n == missing@.len(),
                i <= n,
                pending == |id: Uuid| self.svcs()[id].state != target,
                forall|j: int|
                    0 <= j < i ==> self.svcs().contains_key(#[trigger] missing@[j])
                        && self.svcs()[missing@[j]].state != ServiceState::Failed,
                rest@ == missing@.subrange(0, i as int).filter(pending),
            decreases n - i,
        {
            let id = missing[i];
            let state = match self.svcs.get(&id) {
                Some(inst) => inst.state,
                None => {
                    assert(self.fails_wait(
                        missing@[i as int],
                        SvcError::ServiceNotFound(ServiceId::Id(id)),
                    ));
                    return Err(SvcError::ServiceNotFound(ServiceId::Id(id)));
                },
            };
            if state == ServiceState::Failed {
                assert(self.fails_wait(missing@[i as int], SvcError::ServiceFailed));
                return Err(SvcError::ServiceFailed);
            }
            if state != target {
                rest.push(id);
            }
            proof {
                let shorter = missing@.subrange(0, i as int);
                let longer = missing@.subrange(0, i + 1);
                assert(longer =~= shorter.push(id));
                assert(longer.drop_last() =~= shorter);
                reveal(Seq::filter);
            }
            i += 1;
        }
        assert(missing@.subrange(0, n as int) =~= missing@);
        Ok(rest)
    }

    /// Waiting for the service `id` fails with `e`: it is not registered,
    /// or it has failed.
    pub open spec fn fails_wait(&self, id: Uuid, e: SvcError) -> bool {
        if self.svcs().contains_key(id) {
            self.svcs()[id].state == ServiceState::Failed && e == SvcError::ServiceFailed
        } else {
            e == SvcError::ServiceNotFound(ServiceId::Id(id))
        }
    }

    /// The action asks a service that is registered and has not stopped to
    /// stop.
    pub open spec fn asks_to_stop(&self, action: SvcAction) -> bool {
        &&& action matches SvcAction::Send(id, state)
        &&& state == ServiceState::Stopped
        &&& self.svcs().contains_key(id)
        &&& self.svcs()[id].state != ServiceState::Stopped
    }

    /// Begins the shutdown: asks every service that has not stopped to
    /// stop, and hands back the services that are to be waited for, which
    /// are all of them; both in increasing order of the identifiers.
    pub fn begin_shutdown(&self) -> (r: (Vec<Uuid>, Vec<SvcAction>))
        requires
            self.wf(),
        ensures
            increasing(r.0@),
            forall|id: Uuid| #[trigger] r.0@.contains(id) <==> self.svcs().contains_key(id),
            in_order(r.1@),
            forall|a: SvcAction| #[trigger] r.1@.contains(a) <==> self.asks_to_stop(a),
    {
        let ids = self.list();
        let actions = self.stop_all(&ids);
        proof {
            assert forall|id: Uuid| #[trigger] ids@.contains(id) <==> self.svcs().contains_key(
                id,
            ) by {
                if ids@.contains(id) {
                    let j = choose|j: int| 0 <= j < ids@.len() && ids@[j] == id;
                    assert(self.svcs().contains_key(ids@[j]));
                }
            }
            assert forall|a: SvcAction| #[trigger] actions@.contains(a) <==> self.asks_to_stop(
                a,
            ) by {
                if self.asks_to_stop(a) {
                    assert(ids@.contains(target(a)));
                }
            }
        }
        (ids, actions)
    }

    /// The services that have stopped.
    pub open spec fn stopped(&self) -> Set<Uuid> {
        Set::new(|id: Uuid| self.svcs()[id].state == ServiceState::Stopped)
    }

    /// Ends the shutdown: every service that has still not stopped is
    /// taken off the registry, with every name it went by, and its task is
    /// to be aborted; the services that have stopped stay as they are, and
    /// are found by their names as before. The manager has then shut down.
    pub fn finish_shutdown(&mut self) -> (actions: Vec<SvcAction>)
        requires
            old(self).wf(),
        ensures
            final(self).wf(),
            final(self).is_shutdown(),
            final(self).svcs() == old(self).svcs().restrict(old(self).stopped()),
            forall|name: Seq<char>| #[trigger]
                final(self).knows_name(name) <==> old(self).knows_name(name) && old(
                    self,
                ).stopped().contains(old(self).id_of_name(name)),
            forall|name: Seq<char>| #[trigger]
                final(self).knows_name(name) ==> final(self).id_of_name(name) == old(
                    self,
                ).id_of_name(name),
            in_order(actions@),
            forall|a: SvcAction| #[trigger]
                actions@.contains(a) <==> a == SvcAction::Abort(target(a)) && old(
                    self,
                ).svcs().contains_key(target(a)) && !old(self).stopped().contains(target(a)),
    {
        let ids = self.list();
        let mut actions: Vec<SvcAction> = Vec::new();
        let n = ids.len();
        let mut k: usize = 0;
        proof {
            assert forall|name: Seq<char>| #[trigger]
                self.knows_name(name) implies self.svcs().contains_key(
                self.id_of_name(name),
            ) by {
                self.lemma_known_name_is_service(name);
            }
        }
        while k < n
            invariant
                n == ids@.len(),
                k <= n,
                self.wf(),
                self.is_shutdown() == old(self).is_shutdown(),
                forall|name: Seq<char>| #[trigger]
                    self.knows_name(name) <==> old(self).knows_name(name)
                        && self.svcs().contains_key(old(self).id_of_name(name)),
                forall|name: Seq<char>| #[trigger]
                    self.knows_name(name) ==> self.id_of_name(name) == old(self).id_of_name(
                        name,
                    ),
                ids@.no_duplicates(),
                forall|a: int, b: int| 0 <= a < b < ids@.len() ==> ids@[a] < ids@[b],
                in_order(actions@),
                forall|j: int|
                    0 <= j < ids@.len() ==> old(self).svcs().contains_key(#[trigger] ids@[j]),
                forall|id: Uuid| old(self).svcs().contains_key(id) ==> ids@.contains(id),
                forall|id: Uuid|
                    self.svcs().contains_key(id) <==> old(self).svcs().contains_key(id) && !(
                    exists|j: int|
                        0 <= j < k && ids@[j] == id && old(self).svcs()[id].state
                            != ServiceState::Stopped),
                forall|id: Uuid|
                    self.svcs().contains_key(id) ==> self.svcs()[id] == old(self).svcs()[id],
                forall|a: int|
                    0 <= a < actions@.len() ==> exists|j: int|
                        0 <= j < k && old(self).svcs()[ids@[j]].state != ServiceState::Stopped
                            && #[trigger] actions@[a] == SvcAction::Abort(ids@[j]),
                forall|j: int|
                    0 <= j < k && old(self).svcs()[#[trigger] ids@[j]].state
                        != ServiceState::Stopped ==> actions@.contains(SvcAction::Abort(ids@[j])),
            decreases n - k,
        {
            let id = ids[k];
            let ghost before = actions@;
            let ghost prev = *self;
            let stopped = match self.svcs.get(&id) {
                Some(inst) => inst.state == ServiceState::Stopped,
                None => true,
            };
            proof {
                assert(old(self).svcs().contains_key(ids@[k as int]));
                assert(self.svcs().contains_key(id)) by {
                    if exists|j: int|
                        0 <= j < k && ids@[j] == id && old(self).svcs()[id].state
                            != ServiceState::Stopped {
                        let j = choose|j: int|
                            0 <= j < k && ids@[j] == id && old(self).svcs()[id].state
                                != ServiceState::Stopped;
                        assert(ids@[j] == ids@[k as int]);
                    }
                }
            }
            if !stopped {
                match self.remove(&ServiceId::Id(id)) {
                    Ok(_) => {},
                    Err(_) => {},
                }
                actions.push(SvcAction::Abort(id));
            }
            proof {
                assert forall|name: Seq<char>| #[trigger]
                    self.knows_name(name) <==> old(self).knows_name(name)
                        && self.svcs().contains_key(old(self).id_of_name(name)) by {
                    if !stopped && prev.knows_name(name) {
                        assert(prev.id_of_name(name) == old(self).id_of_name(name));
                    }
                }
                assert forall|name: Seq<char>| #[trigger]
                    self.knows_name(name) implies self.id_of_name(name) == old(
                    self,
                ).id_of_name(name) by {
                    if !stopped {
                        assert(prev.knows_name(name));
                    }
                }
                assert forall|u: Uuid|
                    self.svcs().contains_key(u) <==> old(self).svcs().contains_key(u) && !(
                    exists|j: int|
                        0 <= j < k + 1 && ids@[j] == u && old(self).svcs()[u].state
                            != ServiceState::Stopped) by {
                    if u == id {
                        if !stopped {
                            assert(0 <= k < k + 1 && ids@[k as int] == u && old(
                                self,
                            ).svcs()[u].state
                                != ServiceState::Stopped);
                        } else {
                            if exists|j: int|
                                0 <= j < k + 1 && ids@[j] == u && old(self).svcs()[u].state
                                    != ServiceState::Stopped {
                            }
                        }
                    } else {
                        if exists|j: int|
                            0 <= j < k + 1 && ids@[j] == u && old(self).svcs()[u].state
                                != ServiceState::Stopped {
                            let j = choose|j: int|
                                0 <= j < k + 1 && ids@[j] == u && old(self).svcs()[u].state
                                    != ServiceState::Stopped;
                            assert(j < k);
                            assert(0 <= j < k && ids@[j] == u && old(self).svcs()[u].state
                                != ServiceState::Stopped);
                        }
                        if exists|j: int|
                            0 <= j < k && ids@[j] == u && old(self).svcs()[u].state
                                != ServiceState::Stopped {
                            let j = choose|j: int|
                                0 <= j < k && ids@[j] == u && old(self).svcs()[u].state
                                    != ServiceState::Stopped;
                            assert(0 <= j < k + 1 && ids@[j] == u && old(self).svcs()[u].state
                                != ServiceState::Stopped);
                        }
                    }
                }
                assert forall|a: int, b: int| 0 <= a < b < actions@.len() implies target(
                    #[trigger] actions@[a],
                ) < target(#[trigger] actions@[b]) by {
                    if b < before.len() {
                        assert(actions@[a] == before[a] && actions@[b] == before[b]);
                    } else {
                        assert(actions@[a] == before[a]);
                        let j = choose|j: int|
                            0 <= j < k && old(self).svcs()[ids@[j]].state != ServiceState::Stopped
                                && before[a] == SvcAction::Abort(ids@[j]);
                        assert(ids@[j] < ids@[k as int]);
                    }
                }
                assert forall|a: int| 0 <= a < actions@.len() implies exists|j: int|
                    0 <= j < k + 1 && old(self).svcs()[ids@[j]].state != ServiceState::Stopped
                        && #[trigger] actions@[a] == SvcAction::Abort(ids@[j]) by {
                    if a < before.len() {
                        assert(actions@[a] == before[a]);
                        let j = choose|j: int|
                            0 <= j < k && old(self).svcs()[ids@[j]].state != ServiceState::Stopped
                                && before[a] == SvcAction::Abort(ids@[j]);
                        assert(0 <= j < k + 1 && old(self).svcs()[ids@[j]].state
                            != ServiceState::Stopped && actions@[a] == SvcAction::Abort(ids@[j]));
                    } else {
                        assert(0 <= k < k + 1 && old(self).svcs()[ids@[k as int]].state
                            != ServiceState::Stopped && actions@[a] == SvcAction::Abort(
                            ids@[k as int],
                        ));
                    }
                }
                assert forall|j: int|
                    0 <= j < k + 1 && old(self).svcs()[#[trigger] ids@[j]].state
                        != ServiceState::Stopped implies actions@.contains(
                    SvcAction::Abort(ids@[j]),
                ) by {
                    if j < k {
                        let act = SvcAction::Abort(ids@[j]);
                        assert(before.contains(act));
                        let w = choose|w: int| 0 <= w < before.len() && before[w] == act;
                        assert(actions@[w] == act);
                    } else {
                        assert(actions@[actions@.len() - 1] == SvcAction::Abort(id));
                    }
                }
            }
            k += 1;
        }
        let ghost mid = *self;
        self.shutdown = true;
        proof {
            assert(self.names() == mid.names() && self.svcs() == mid.svcs());
            assert forall|name: Seq<char>| #[trigger]
                self.knows_name(name) implies self.id_of_name(name) == old(self).id_of_name(
                name,
            ) by {
                assert(mid.knows_name(name));
            }
            assert forall|id: Uuid|
                self.svcs().contains_key(id) <==> old(self).svcs().contains_key(id) && old(
                    self,
                ).svcs()[id].state == ServiceState::Stopped by {
                if old(self).svcs().contains_key(id) && old(self).svcs()[id].state
                    != ServiceState::Stopped {
                    assert(ids@.contains(id));
                    let j = choose|j: int| 0 <= j < ids@.len() && ids@[j] == id;
                    assert(0 <= j < n && ids@[j] == id && old(self).svcs()[id].state
                        != ServiceState::Stopped);
                }
            }
            assert(self.svcs() =~= old(self).svcs().restrict(old(self).stopped()));
            assert forall|name: Seq<char>| #[trigger]
                self.knows_name(name) <==> old(self).knows_name(name) && old(
                    self,
                ).stopped().contains(old(self).id_of_name(name)) by {
                assert(self.knows_name(name) == mid.knows_name(name));
                if old(self).knows_name(name) {
                    old(self).lemma_known_name_is_service(name);
                }
            }
            assert forall|a: SvcAction| #[trigger]
                actions@.contains(a) <==> a == SvcAction::Abort(target(a)) && old(
                    self,
                ).svcs().contains_key(target(a)) && !old(self).stopped().contains(target(a)) by {
                if actions@.contains(a) {
                    let x = choose|x: int| 0 <= x < actions@.len() && actions@[x] == a;
                    let j = choose|j: int|
                        0 <= j < n && old(self).svcs()[ids@[j]].state != ServiceState::Stopped
                            && actions@[x] == SvcAction::Abort(ids@[j]);
                    assert(old(self).svcs().contains_key(ids@[j]));
                }
                if a == SvcAction::Abort(target(a)) && old(self).svcs().contains_key(target(a))
                    && !old(self).stopped().contains(target(a)) {
                    assert(ids@.contains(target(a)));
                    let j = choose|j: int| 0 <= j < ids@.len() && ids@[j] == target(a);
                    assert(old(self).svcs()[ids@[j]].state != ServiceState::Stopped);
                }
            }
        }
        actions
    }

    /// Answers a request, and says what is to be done for it.
    ///
    /// `Start`, `Stop`, `Status` and `List` answer as the operations of
    /// these names do. `Register` registers a service under a new random
    /// identifier. `Shutdown` begins the shutdown: whoever runs the
    /// services waits for them to stop, for no longer than
    /// `SHUTDOWN_TIMEOUT_SECS`, and then ends it with `finish_shutdown`.
    pub fn handle_svm_request(&mut self, upd: SvmRequest) -> (r: (SvmReply, Vec<SvcAction>))
        requires
            old(self).wf(),
        ensures
            final(self).wf(),
            final(self).is_shutdown() == old(self).is_shutdown(),
            !(upd is Register) ==> final(self).same_registry(old(self)),
            match upd {
                SvmRequest::Start(id) => r.0 matches SvmReply::Done(res) && (match old(
                    self,
                ).resolved(id) {
                    Some(uuid) => res is Ok && r.1@ == seq![
                        SvcAction::Send(uuid, ServiceState::Running),
                    ],
                    None => res == Err::<(), _>(SvcError::ServiceNotFound(id)) && r.1@.len() == 0,
                }),
                SvmRequest::Stop(id) => r.0 matches SvmReply::Done(res) && (match old(
                    self,
                ).resolved(id) {
                    Some(uuid) => res is Ok && r.1@ == (match old(self).stop_action(uuid) {
                        Some(action) => seq![action],
                        None => seq![],
                    }),
                    None => res == Err::<(), _>(SvcError::ServiceNotFound(id)) && r.1@.len() == 0,
                }),
                SvmRequest::Status(id) => r.0 matches SvmReply::Status(res) && r.1@.len() == 0
                    && (match old(self).resolved(id) {
                    Some(uuid) => res == Ok::<_, SvcError>(old(self).svcs()[uuid].state),
                    None => res == Err::<ServiceState, _>(SvcError::ServiceNotFound(id)),
                }),
                SvmRequest::List => r.0 matches SvmReply::List(list) && r.1@.len() == 0
                    && list@.len() == old(self).names().len() && forall|i: int|
                    0 <= i < list@.len() ==> (#[trigger] list@[i]).0 == old(self).names()[i].id
                        && list@[i].1@ == old(self).names()[i].name@,
                SvmRequest::Register(name) => r.0 matches SvmReply::Registered(res) && (
                old(self).knows_name(name@) <==> res is Err) && (match res {
                    Ok(id) => final(self).registered(old(self), name@, id) && r.1@ == seq![
                        SvcAction::Spawn(id),
                    ],
                    Err(e) => e matches SvcError::ServiceAlreadyExists(n) && n@ == name@
                        && r.1@.len() == 0 && final(self).same_registry(old(self)),
                }),
                SvmRequest::Shutdown => r.0 matches SvmReply::ShuttingDown(res) && res matches Ok(
                    ids,
                ) && increasing(ids@) && (forall|id: Uuid| #[trigger]
                    ids@.contains(id) <==> old(self).svcs().contains_key(id)) && in_order(r.1@)
                    && (forall|a: SvcAction| #[trigger]
                    r.1@.contains(a) <==> old(self).asks_to_stop(a)),
            },
    {
        let mut actions: Vec<SvcAction> = Vec::new();
        match upd {
            SvmRequest::Start(id) => {
                let reply = match self.start(&id) {
                    Ok(action) => {
                        actions.push(action);
                        Ok(())
                    },
                    Err(e) => Err(e),
                };
                assert(reply is Ok ==> actions@ =~= seq![actions@[0]]);
                (SvmReply::Done(reply), actions)
            },
            SvmRequest::Stop(id) => {
                let reply = match self.stop(&id) {
                    Ok(Some(action)) => {
                        actions.push(action);
                        assert(actions@ =~= seq![action]);
                        Ok(())
                    },
                    Ok(None) => {
                        assert(actions@ =~= seq![]);
                        Ok(())
                    },
                    Err(e) => Err(e),
                };
                (SvmReply::Done(reply), actions)
            },
            SvmRequest::Status(id) => (SvmReply::Status(self.status(&id)), actions),
            SvmRequest::List => (SvmReply::List(self.list_names()), actions),
            SvmRequest::Register(name) => {
                let reply = match self.register(name.as_str()) {
                    Ok((id, action)) => {
                        actions.push(action);
                        assert(actions@ =~= seq![action]);
                        Ok(id)
                    },
                    Err(e) => Err(e),
                };
                (SvmReply::Registered(reply), actions)
            },
            SvmRequest::Shutdown => {
                let (ids, stops) = self.begin_shutdown();
                (SvmReply::ShuttingDown(Ok(ids)), stops)
            },
        }
    }
}

/// Whether `id` is among `ids`.
fn contains_id(ids: &Vec<Uuid>, id: Uuid) -> (found: bool)
    ensures
        found == ids@.contains(id),
{
    let n = ids.len();
    let mut i: usize = 0;
    while i < n
        invariant
            n == ids@.len(),
            i <= n,
            forall|k: int| 0 <= k < i ==> ids@[k] != id,
        decreases n - i,
    {
        if ids[i] == id {
            return true;
        }
        i += 1;
    }
    false
}

} // verus!
