//! What the controller decides when a service changes.
//!
//! The controller watches services and keeps their ports forwarded through a
//! port manager. Here are its decisions, on plain values: which forwards a
//! service asks for, what to ask of the port manager for an event, and what
//! to do next once the port manager has answered.

use vstd::prelude::*;

verus! {

/// The forwards wanted for one service, as handed to the port manager.
#[derive(Debug, Clone, PartialEq, Eq)]
pub struct PortForwardMap {
    /// Identifies this group of forwarded ports.
    pub key: String,
    /// The ports being forwarded.
    pub ports: Vec<PortForwardItem>,
}

/// One forward.
#[derive(Debug, Clone, PartialEq, Eq)]
pub struct PortForwardItem {
    /// Route from this port.
    pub from: i32,
    /// Route to this port.
    pub to: i32,
    /// The name of the protocol to forward.
    pub protocol: String,
}

/// One port of a service, as far as forwarding reads it.
#[derive(Debug, Clone, PartialEq, Eq)]
pub struct ServicePort {
    pub port: i32,
    pub node_port: Option<i32>,
    pub protocol: Option<String>,
}

/// A service, as far as forwarding reads it.
#[derive(Debug, Clone, PartialEq, Eq)]
pub struct Service {
    /// The unique identifier the cluster gave the service.
    pub uid: Option<String>,
    /// The ports the service declares; `None` where it declares no list.
    pub ports: Option<Vec<ServicePort>>,
}

/// What happened to a service.
#[derive(Debug, Clone, PartialEq, Eq)]
pub enum Event {
    /// The service exists and its forwards are to be in place.
    Apply(Service),
    /// The service is going away and its forwards are to be removed.
    Cleanup(Service),
}

/// What the controller does next with a service.
#[derive(Debug, Clone, Copy, PartialEq, Eq, Structural)]
pub enum Action {
    /// Look at the service again after so many seconds.
    Requeue { after_seconds: u64 },
    /// Wait until the service changes.
    AwaitChange,
}

/// What an event asks of the port manager.
#[derive(Debug, Clone, PartialEq, Eq)]
pub enum Plan {
    /// Nothing; the controller goes on with the action.
    Settle(Action),
    /// Register these forwards.
    Register(PortForwardMap),
    /// Unregister the forwards of this key.
    Unregister(String),
}

/// Why a reconciliation failed.
#[derive(Debug, Clone, PartialEq, Eq)]
pub enum ReconcileError<R, U> {
    /// The registration with the port manager failed.
    Register(R),
    /// The unregistration from the port manager failed.
    Unregister(U),
}

/// Why the controller could not bring a service to its wanted state.
#[derive(Debug, Clone, PartialEq, Eq)]
pub enum Error<R, U> {
    /// Applying the service failed.
    ApplyFailed(ReconcileError<R, U>),
    /// Cleaning up after the service failed.
    CleanupFailed(ReconcileError<R, U>),
    /// The finalizer could not be added to the service.
    AddFinalizer(String),
    /// The finalizer could not be removed from the service.
    RemoveFinalizer(String),
    /// The service has no name.
    UnnamedObject,
}

/// Seconds after which a reconciled service is looked at again.
pub const REQUEUE_SECONDS: u64 = 10;

/// Seconds after which a service is looked at again after a failure.
pub const ERROR_REQUEUE_SECONDS: u64 = 300;

/// Whether a port of a service is forwarded: it has a node port and names
/// its protocol.
pub open spec fn is_forwarded(port: ServicePort) -> bool {
    port.node_port is Some && port.protocol is Some
}

/// The forward for a port of a service: from the service's port to the node port.
pub open spec fn forward_of(port: ServicePort) -> PortForwardItem {
    PortForwardItem {
        from: port.port,
        to: port.node_port->Some_0,
        protocol: port.protocol->Some_0,
    }
}

/// The forwards for the ports of a service, in their order; ports that are
/// not forwarded are left out.
pub open spec fn forwards_of(ports: Seq<ServicePort>) -> Seq<PortForwardItem> {
    ports.filter(|p: ServicePort| is_forwarded(p)).map_values(|p: ServicePort| forward_of(p))
}

/// How `forwards_of` goes along a list of ports: the forward of the last
/// port, if it is forwarded, comes after the forwards of those before it.
proof fn lemma_forwards_step(ports: Seq<ServicePort>)
    ensures
        ports.len() == 0 ==> forwards_of(ports) == Seq::<PortForwardItem>::empty(),
        ports.len() > 0 && is_forwarded(ports.last()) ==> forwards_of(ports) == forwards_of(
            ports.drop_last(),
        ).push(forward_of(ports.last())),
        ports.len() > 0 && !is_forwarded(ports.last()) ==> forwards_of(ports) == forwards_of(
            ports.drop_last(),
        ),
{
    reveal_with_fuel(Seq::filter, 2);
    if ports.len() == 0 {
        assert(forwards_of(ports) =~= Seq::<PortForwardItem>::empty());
    } else if is_forwarded(ports.last()) {
        assert(forwards_of(ports) =~= forwards_of(ports.drop_last()).push(
            forward_of(ports.last()),
        ));
    }
}

/// The forwards a service asks for, under its unique identifier. A service
/// without identifier or without a list of ports asks for none.
pub fn make_port_forward_map(service: &Service) -> (map: Option<PortForwardMap>)
    ensures
        map is Some <==> service.uid is Some && service.ports is Some,
        map matches Some(m) ==> m.key == service.uid->Some_0 && m.ports@ == forwards_of(
            service.ports->Some_0@,
        ),
{
    let key = match &service.uid {
        Some(key) => key,
        None => {
            return None;
        },
    };
    let declared = match &service.ports {
        Some(declared) => declared,
        None => {
            return None;
        },
    };
    let mut ports: Vec<PortForwardItem> = Vec::new();
    let mut i: usize = 0;
    proof {
        assert(declared@.take(0) =~= Seq::<ServicePort>::empty());
        lemma_forwards_step(declared@.take(0));
    }
    while i < declared.len()
        invariant
            i <= declared@.len(),
            ports@ == forwards_of(declared@.take(i as int)),
        decreases declared@.len() - i,
    {
        proof {
            assert(declared@.take(i + 1).drop_last() =~= declared@.take(i as int));
            assert(declared@.take(i + 1).last() == declared@[i as int]);
            lemma_forwards_step(declared@.take(i + 1));
        }
        let item = &declared[i];
        match (&item.node_port, &item.protocol) {
            (Some(node_port), Some(protocol)) => {
                ports.push(
                    PortForwardItem { from: item.port, to: *node_port, protocol: protocol.clone() },
                );
            },
            _ => {},
        }
        i += 1;
    }
    proof {
        assert(declared@.take(i as int) =~= declared@);
    }
    Some(PortForwardMap { key: key.clone(), ports })
}

/// What `event` asks of the port manager.
pub open spec fn plan_of(event: Event, plan: Plan) -> bool {
    match event {
        Event::Apply(service) => if service.uid is Some && service.ports is Some {
            &&& plan matches Plan::Register(m)
            &&& m.key == service.uid->Some_0
            &&& m.ports@ == forwards_of(service.ports->Some_0@)
        } else {
            plan == Plan::Settle(Action::Requeue { after_seconds: 10 })
        },
        Event::Cleanup(service) => match service.uid {
            Some(key) => plan == Plan::Unregister(key),
            None => plan == Plan::Settle(Action::Requeue { after_seconds: 10 }),
        },
    }
}

/// Decides what an event asks of the port manager: a service that is applied
/// has its forwards registered, a service that is cleaned up has the forwards
/// of its identifier unregistered. A service that cannot be served yet is
/// looked at again after ten seconds.
pub fn reconcile_event(event: &Event) -> (plan: Plan)
    ensures
        plan_of(*event, plan),
{
    match event {
        Event::Apply(service) => match make_port_forward_map(service) {
            Some(request) => Plan::Register(request),
            None => Plan::Settle(Action::Requeue { after_seconds: REQUEUE_SECONDS }),
        },
        Event::Cleanup(service) => match &service.uid {
            Some(key) => Plan::Unregister(key.clone()),
            None => Plan::Settle(Action::Requeue { after_seconds: REQUEUE_SECONDS }),
        },
    }
}

/// What follows a registration: the service is looked at again after ten
/// seconds, or the reconciliation fails with the port manager's error.
pub fn applied<T, R, U>(registered: Result<T, R>) -> (r: Result<Action, ReconcileError<R, U>>)
    ensures
        match registered {
            Ok(_) => r == Ok::<Action, ReconcileError<R, U>>(Action::Requeue { after_seconds: 10 }),
            Err(e) => r == Err::<Action, ReconcileError<R, U>>(ReconcileError::Register(e)),
        },
{
    match registered {
        Ok(_) => Ok(Action::Requeue { after_seconds: REQUEUE_SECONDS }),
        Err(e) => Err(ReconcileError::Register(e)),
    }
}

/// What follows an unregistration: the controller waits for the service to
/// change, or the reconciliation fails with the port manager's error.
pub fn cleaned_up<T, R, U>(unregistered: Result<T, U>) -> (r: Result<Action, ReconcileError<R, U>>)
    ensures
        match unregistered {
            Ok(_) => r == Ok::<Action, ReconcileError<R, U>>(Action::AwaitChange),
            Err(e) => r == Err::<Action, ReconcileError<R, U>>(ReconcileError::Unregister(e)),
        },
{
    match unregistered {
        Ok(_) => Ok(Action::AwaitChange),
        Err(e) => Err(ReconcileError::Unregister(e)),
    }
}

/// The label under which a failure is counted.
pub open spec fn label_of<R, U>(err: Error<R, U>) -> Seq<char> {
    match err {
        Error::ApplyFailed(_) => "apply_failed"@,
        Error::CleanupFailed(_) => "cleanup_failed"@,
        Error::AddFinalizer(_) => "add_finalizer"@,
        Error::RemoveFinalizer(_) => "remove_finalizer"@,
        Error::UnnamedObject => "unnamed_object"@,
    }
}

/// The label under which a failure is counted, by its kind.
pub fn error_metric_label<R, U>(err: &Error<R, U>) -> (label: &'static str)
    ensures
        label@ == label_of(*err),
{
    match err {
        Error::ApplyFailed(_) => "apply_failed",
        Error::CleanupFailed(_) => "cleanup_failed",
        Error::AddFinalizer(_) => "add_finalizer",
        Error::RemoveFinalizer(_) => "remove_finalizer",
        Error::UnnamedObject => "unnamed_object",
    }
}

/// How a failure is treated: it is counted under the label of its kind, and
/// the service is looked at again after five minutes.
pub fn error_policy<R, U>(error: &Error<R, U>) -> (r: (&'static str, Action))
    ensures
        r.0@ == label_of(*error),
        r.1 == (Action::Requeue { after_seconds: 300 }),
{
    (error_metric_label(error), Action::Requeue { after_seconds: ERROR_REQUEUE_SECONDS })
}

} // verus!
