//! The port registry: it creates every port of a process, validates the
//! configuration, and enforces at most one active port per interface
//! name.

use vstd::prelude::*;
use vstd::string::StringExecFns;
use crate::counters::Counters;
use crate::port::{BackendKind, Link, Port, PortState};
use crate::shared_queue::RecycleQueue;

verus! {

/// Why a port could not be created. The registry itself refuses a
/// duplicate interface; the other cases come out of the backend bind
/// that the thread owning the socket or driver performs.
#[derive(Debug, PartialEq, Eq, Structural)]
pub enum PortError {
    /// The interface name is already bound to an active port.
    DuplicateInterface,
    /// The named interface does not exist.
    InterfaceMissing,
    /// The backend bind was refused for lack of privilege.
    PermissionDenied,
    /// The backend failed to initialise.
    BackendInit,
}

/// How the backend-specific bind went. Binding is an act on the world —
/// opening a raw socket, claiming a driver queue — performed by the
/// thread that owns the backend; its outcome reaches the registry as a
/// plain value.
#[derive(Clone, Copy, Debug, PartialEq, Eq, Structural)]
pub enum BindOutcome {
    /// The interface is bound and the port may come up.
    Bound,
    /// The named interface does not exist.
    InterfaceMissing,
    /// The bind was refused for lack of privilege.
    PermissionDenied,
    /// The backend failed to initialise.
    BackendInit,
}

/// The error a failed backend bind surfaces through `Registry::add`.
pub open spec fn bind_refusal(b: BindOutcome) -> PortError {
    match b {
        BindOutcome::InterfaceMissing => PortError::InterfaceMissing,
        BindOutcome::PermissionDenied => PortError::PermissionDenied,
        _ => PortError::BackendInit,
    }
}

/// Configuration for one port: the interface name, the backend to
/// drive, the link attaching the port to that backend, the recycle
/// queue through which spent transmit buffers return to their pool, and
/// how the backend bind went.
pub struct Params {
    pub name: String,
    pub hw: BackendKind,
    pub link: Link,
    pub recycle: RecycleQueue,
    pub bind: BindOutcome,
}

/// The registry of bound interface names.
pub struct Registry {
    names: Vec<String>,
}

impl Registry {
    /// Whether an active port is bound to `name`.
    pub closed spec fn bound(self, name: Seq<char>) -> bool {
        exists|i: int| 0 <= i < self.names@.len() && self.names@[i]@ == name
    }

    /// How many interface names are bound.
    pub closed spec fn bound_count(self) -> int {
        self.names@.len() as int
    }

    pub fn new() -> (r: Registry)
        ensures
            forall|n: Seq<char>| !r.bound(n),
            r.bound_count() == 0,
    {
        Registry { names: Vec::new() }
    }

    /// Validate `params` and bring the port up. Exactly when the
    /// interface name is not yet bound and the backend bind succeeded,
    /// the port comes back `Up`, wired to the given link and recycle
    /// queue and carrying its own counter set, and the name is recorded.
    /// A duplicate name, and then a failed bind, is refused with no
    /// state left behind.
    pub fn add(&mut self, params: Params) -> (r: Result<Port, PortError>)
        ensures
            r is Ok <==> !old(self).bound(params.name@) && params.bind == BindOutcome::Bound,
            r matches Ok(p) ==> {
                &&& p.name_spec() == params.name@
                &&& p.kind_spec() == params.hw
                &&& p.state_spec() == PortState::Up
                &&& p.tx_ring_spec() == params.link.tx_spec()
                &&& p.rx_ring_spec() == params.link.rx_spec()
                &&& p.recycle_spec() == params.recycle.queue_spec()
                &&& (forall|m: Seq<char>|
                    #[trigger] final(self).bound(m) <==> old(self).bound(m) || m == params.name@)
                &&& final(self).bound_count() == old(self).bound_count() + 1
            },
            old(self).bound(params.name@) ==> r == Err::<Port, PortError>(
                PortError::DuplicateInterface,
            ),
            !old(self).bound(params.name@) && params.bind != BindOutcome::Bound ==> r == Err::<
                Port,
                PortError,
            >(bind_refusal(params.bind)),
            r is Err ==> *final(self) == *old(self),
    {
        let total = self.names.len();
        let mut i: usize = 0;
        while i < total
            invariant
                total == self.names@.len(),
                i <= total,
                forall|k: int| 0 <= k < i ==> (#[trigger] self.names@[k])@ != params.name@,
            decreases total - i,
        {
            if self.names[i] == params.name {
                return Err(PortError::DuplicateInterface);
            }
            i = i + 1;
        }
        let Params { name, hw, link, recycle, bind } = params;
        match bind {
            BindOutcome::Bound => {},
            BindOutcome::InterfaceMissing => {
                return Err(PortError::InterfaceMissing);
            },
            BindOutcome::PermissionDenied => {
                return Err(PortError::PermissionDenied);
            },
            BindOutcome::BackendInit => {
                return Err(PortError::BackendInit);
            },
        }
        let counters = Counters::new(name.as_str());
        let registered = name.clone();
        let mut port = Port::attach(name, hw, link, recycle, counters);
        port.activate();
        self.names.push(registered);
        proof {
            assert forall|m: Seq<char>| #[trigger]
                self.bound(m) <==> old(self).bound(m) || m == params.name@ by {
                if self.bound(m) {
                    let k = choose|k: int|
                        0 <= k < self.names@.len() && self.names@[k]@ == m;
                    if k < old(self).names@.len() {
                        assert(old(self).bound(m));
                    }
                } else {
                    assert(!old(self).bound(m)) by {
                        if old(self).bound(m) {
                            let k = choose|k: int|
                                0 <= k < old(self).names@.len() && old(self).names@[k]@ == m;
                            assert(self.names@[k]@ == m);
                        }
                    }
                    assert(m != params.name@) by {
                        if m == params.name@ {
                            assert(self.names@[self.names@.len() - 1]@ == m);
                        }
                    }
                }
            }
        }
        Ok(port)
    }
}

/// The sysctl assignment that switches IPv6 off on interface `eth`, so
/// that a test link carries only the frames its own driver sends.
pub fn disable_ipv6(eth: &str) -> (r: String)
    ensures
        r@ == "net.ipv6.conf."@ + eth@ + ".disable_ipv6=1"@,
{
    let mut name = String::from_str("net.ipv6.conf.");
    name.append(eth);
    name.append(".disable_ipv6=1");
    name
}

} // verus!
