use vstd::prelude::*;

use crate::model::{Namespace, Service};
use crate::ports::{PortMap, ServicePorts};

verus! {

/// The persisted preference record: the last namespace, the last service and
/// the port mapping last chosen for each service. Every field may be missing.
pub struct DefaultSelections {
    pub namespace: Option<String>,
    pub last_service: Option<String>,
    pub ports: Option<ServicePorts>,
}

/// The port history that a loaded record offers as defaults: its mappings, or
/// none at all where there is no record or it holds no mappings.
pub open spec fn history_of(defaults: Option<DefaultSelections>) -> Map<Seq<char>, Map<u16, u16>> {
    match defaults {
        Some(d) => match d.ports {
            Some(p) => p@,
            None => Map::empty(),
        },
        None => Map::empty(),
    }
}

/// Whether `r` is the record holding namespace `ns`, last service `svc`
/// (none where `svc` is `None`) and the port history `ports`.
pub open spec fn is_record_of(
    r: DefaultSelections,
    ns: Seq<char>,
    svc: Option<Seq<char>>,
    ports: Map<Seq<char>, Map<u16, u16>>,
) -> bool {
    &&& r.namespace is Some
    &&& r.namespace->0@ == ns
    &&& match svc {
        Some(s) => r.last_service is Some && r.last_service->0@ == s,
        None => r.last_service is None,
    }
    &&& r.ports is Some
    &&& r.ports->0@ == ports
}

/// Whether `r` holds no preference at all.
pub open spec fn is_empty_record(r: DefaultSelections) -> bool {
    r.namespace is None && r.last_service is None && r.ports is None
}

impl DefaultSelections {
    /// The record with no preference.
    pub fn empty() -> (r: Self)
        ensures
            is_empty_record(r),
    {
        DefaultSelections { namespace: None, last_service: None, ports: None }
    }

    /// The record to start a run from, given what could be read and parsed
    /// from the preference file: that record, or the empty one where the file
    /// was absent, unreadable or malformed.
    pub fn loaded(parsed: Option<DefaultSelections>) -> (r: Self)
        ensures
            parsed is None ==> is_empty_record(r),
            parsed is Some ==> r == parsed->0,
    {
        match parsed {
            Some(d) => d,
            None => DefaultSelections::empty(),
        }
    }
}

/// The choices of a run once its namespace is known.
pub struct Selection {
    pub namespace: String,
    pub ports: ServicePorts,
}

impl Selection {
    /// Starts the choices of a run in `namespace`, carrying over the port
    /// history of the loaded record.
    pub fn from_defaults(namespace: &Namespace, defaults: &Option<DefaultSelections>) -> (r: Self)
        ensures
            r.namespace@ == namespace.metadata.name@,
            r.ports@ == history_of(*defaults),
    {
        let ports = match defaults {
            Some(d) => match &d.ports {
                Some(p) => p.clone(),
                None => ServicePorts::new(),
            },
            None => ServicePorts::new(),
        };
        Selection { namespace: namespace.metadata.name.clone(), ports }
    }

    /// Records `service` as the service chosen in this run.
    pub fn set_last_service(self, service: &Service) -> (r: SelectionWithService)
        ensures
            r.namespace == self.namespace,
            r.ports@ == self.ports@,
            r.last_service@ == service.metadata.name@,
    {
        SelectionWithService {
            last_service: service.metadata.name.clone(),
            namespace: self.namespace,
            ports: self.ports,
        }
    }

    /// The record that saving these choices writes: the namespace and the
    /// port history, with no last service.
    pub fn record(&self) -> (r: DefaultSelections)
        ensures
            is_record_of(r, self.namespace@, None, self.ports@),
    {
        DefaultSelections {
            namespace: Some(self.namespace.clone()),
            last_service: None,
            ports: Some(self.ports.clone()),
        }
    }
}

/// The choices of a run once its namespace and service are known.
pub struct SelectionWithService {
    pub namespace: String,
    pub ports: ServicePorts,
    pub last_service: String,
}

impl SelectionWithService {
    /// Records `service` as the service chosen in this run, in place of the
    /// earlier one.
    pub fn set_last_service(self, service: &Service) -> (r: Self)
        ensures
            r.namespace == self.namespace,
            r.ports@ == self.ports@,
            r.last_service@ == service.metadata.name@,
    {
        SelectionWithService { last_service: service.metadata.name.clone(), ..self }
    }

    /// The port mapping recorded for `service`, or an empty one where the
    /// service was never forwarded. The history itself is left as it is: a
    /// service enters it only once a mapping is chosen for it.
    pub fn ports_for(&self, service: &Service) -> (r: PortMap)
        ensures
            r@ == (if self.ports@.contains_key(service.metadata.name@) {
                self.ports@[service.metadata.name@]
            } else {
                Map::<u16, u16>::empty()
            }),
    {
        match self.ports.get(&service.metadata.name) {
            Some(m) => m.clone(),
            None => PortMap::new(),
        }
    }

    /// Replaces the port mapping of the service called `service_name` by
    /// `mapping`, leaving every other service's mapping as it was.
    pub fn set_ports(&mut self, service_name: String, mapping: PortMap)
        ensures
            final(self).namespace == old(self).namespace,
            final(self).last_service == old(self).last_service,
            final(self).ports@ == old(self).ports@.insert(service_name@, mapping@),
    {
        self.ports.insert(service_name, mapping);
    }

    /// The record that saving these choices writes: the namespace, the last
    /// service and the whole port history.
    pub fn record(&self) -> (r: DefaultSelections)
        ensures
            is_record_of(r, self.namespace@, Some(self.last_service@), self.ports@),
    {
        DefaultSelections {
            namespace: Some(self.namespace.clone()),
            last_service: Some(self.last_service.clone()),
            ports: Some(self.ports.clone()),
        }
    }
}

/// Reloading a saved record and making the same choices again saves the same
/// record: the same namespace, the same last service and the same port history.
pub proof fn lemma_reload_round_trip(
    saved: DefaultSelections,
    again: DefaultSelections,
    ns: Seq<char>,
    svc: Seq<char>,
    ports: Map<Seq<char>, Map<u16, u16>>,
)
    requires
        is_record_of(saved, ns, Some(svc), ports),
        is_record_of(again, ns, Some(svc), history_of(Some(saved))),
    ensures
        again.namespace->0@ == saved.namespace->0@,
        again.last_service->0@ == saved.last_service->0@,
        again.ports->0@ == saved.ports->0@,
{
}

/// Choosing the mapping `mapping` for `service` on top of a loaded record
/// keeps the mapping of every other service of that record unchanged.
pub proof fn lemma_untouched_services_kept(
    loaded: Option<DefaultSelections>,
    service: Seq<char>,
    mapping: Map<u16, u16>,
    other: Seq<char>,
)
    requires
        other != service,
        history_of(loaded).contains_key(other),
    ensures
        history_of(loaded).insert(service, mapping).contains_key(other),
        history_of(loaded).insert(service, mapping)[other] == history_of(loaded)[other],
{
}

/// A local port `local` saved for remote port `remote` of `service` is found
/// again, as that remote port's default, in the history of the next run.
pub proof fn lemma_saved_local_port_is_default(
    saved: DefaultSelections,
    service: Seq<char>,
    remote: u16,
    local: u16,
)
    requires
        saved.ports is Some,
        saved.ports->0@.contains_key(service),
        saved.ports->0@[service].contains_key(remote),
        saved.ports->0@[service][remote] == local,
    ensures
        history_of(Some(saved)).contains_key(service),
        history_of(Some(saved))[service].contains_key(remote),
        history_of(Some(saved))[service][remote] == local,
{
}

} // verus!
