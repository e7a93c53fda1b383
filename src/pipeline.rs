use vstd::prelude::*;

use crate::error::MainError;
use crate::model::{port_numbers, Namespace, Service};
use crate::ports::PortMap;
use crate::selection::{DefaultSelections, SelectionWithService, is_record_of};

verus! {

/// How a selection stage settles on one of its live options.
pub enum Choice {
    /// There is exactly one option: it is taken without asking.
    Auto,
    /// There are several: the user is asked, with the cursor on the option at
    /// `default` where there is one.
    Ask { default: Option<usize> },
}

/// Whether `default` is where the preferred value `preferred` first occurs
/// among `options`, or `None` where it does not occur or there is none.
pub open spec fn is_default_position(
    options: Seq<Seq<char>>,
    preferred: Option<Seq<char>>,
    default: Option<usize>,
) -> bool {
    match default {
        Some(i) => {
            &&& preferred is Some
            &&& i < options.len()
            &&& options[i as int] == preferred->0
            &&& forall|j: int| 0 <= j < i ==> options[j] != preferred->0
        },
        None => preferred is None || !options.contains(preferred->0),
    }
}

/// The plan of a stage over `options`, which is not empty.
pub open spec fn is_plan_of(options: Seq<Seq<char>>, preferred: Option<Seq<char>>, c: Choice) -> bool {
    if options.len() == 1 {
        c is Auto
    } else {
        c is Ask && is_default_position(options, preferred, c->default)
    }
}

/// The views of a list of strings.
pub open spec fn texts(v: Seq<String>) -> Seq<Seq<char>> {
    v.map_values(|s: String| s@)
}

/// The view of an optional string.
pub open spec fn opt_text(o: Option<String>) -> Option<Seq<char>> {
    match o {
        Some(s) => Some(s@),
        None => None,
    }
}

/// The names of a list of namespaces.
pub open spec fn namespace_names(v: Seq<Namespace>) -> Seq<Seq<char>> {
    v.map_values(|n: Namespace| n.metadata.name@)
}

/// The names of a list of services.
pub open spec fn service_names(v: Seq<Service>) -> Seq<Seq<char>> {
    v.map_values(|s: Service| s.metadata.name@)
}

/// Where `wanted` first occurs among `options`.
pub fn position_of(options: &Vec<String>, wanted: &String) -> (r: Option<usize>)
    ensures
        is_default_position(texts(options@), Some(wanted@), r),
{
    let mut i: usize = 0;
    while i < options.len()
        invariant
            i <= options@.len(),
            forall|j: int| 0 <= j < i ==> options@[j]@ != wanted@,
        decreases options@.len() - i,
    {
        if options[i] == *wanted {
            return Some(i);
        }
        i = i + 1;
    }
    proof {
        if texts(options@).contains(wanted@) {
            let j = choose|j: int| 0 <= j < options@.len() && texts(options@)[j] == wanted@;
            assert(options@[j]@ == wanted@);
        }
    }
    None
}

/// The plan for a non-empty list of options, preferring `preferred` as the
/// default of a chooser.
pub fn plan_choice(options: &Vec<String>, preferred: &Option<String>) -> (r: Choice)
    requires
        options@.len() > 0,
    ensures
        is_plan_of(texts(options@), opt_text(*preferred), r),
{
    if options.len() == 1 {
        Choice::Auto
    } else {
        let default = match preferred {
            Some(p) => position_of(options, p),
            None => None,
        };
        Choice::Ask { default }
    }
}

/// The names of `namespaces`, in order.
pub fn namespace_list(namespaces: &Vec<Namespace>) -> (r: Vec<String>)
    ensures
        texts(r@) == namespace_names(namespaces@),
        r@.len() == namespaces@.len(),
{
    let mut r: Vec<String> = Vec::new();
    let mut i: usize = 0;
    while i < namespaces.len()
        invariant
            i <= namespaces@.len(),
            r@.len() == i,
            forall|j: int| 0 <= j < i ==> #[trigger] r@[j]@ == namespaces@[j].metadata.name@,
        decreases namespaces@.len() - i,
    {
        let name = namespaces[i].metadata.name.clone();
        r.push(name);
        i = i + 1;
    }
    assert(texts(r@) =~= namespace_names(namespaces@));
    r
}

/// The names of `services`, in order.
pub fn service_list(services: &Vec<Service>) -> (r: Vec<String>)
    ensures
        texts(r@) == service_names(services@),
        r@.len() == services@.len(),
{
    let mut r: Vec<String> = Vec::new();
    let mut i: usize = 0;
    while i < services.len()
        invariant
            i <= services@.len(),
            r@.len() == i,
            forall|j: int| 0 <= j < i ==> #[trigger] r@[j]@ == services@[j].metadata.name@,
        decreases services@.len() - i,
    {
        let name = services[i].metadata.name.clone();
        r.push(name);
        i = i + 1;
    }
    assert(texts(r@) =~= service_names(services@));
    r
}

/// The context stage: fails where there is no context; otherwise the plan,
/// with the tool's current context as the chooser's default.
pub fn plan_context(contexts: &Vec<String>, current: &Option<String>) -> (r: Result<Choice, MainError>)
    ensures
        contexts@.len() == 0 <==> r is Err,
        r is Err ==> r == Err::<Choice, MainError>(MainError::NoContext),
        r is Ok ==> is_plan_of(texts(contexts@), opt_text(*current), r->Ok_0),
{
    if contexts.len() == 0 {
        Err(MainError::NoContext)
    } else {
        Ok(plan_choice(contexts, current))
    }
}

/// The namespace stage: fails where there is no namespace; otherwise the
/// plan, with the persisted namespace as the chooser's default.
pub fn plan_namespace(namespaces: &Vec<Namespace>, preferred: &Option<String>) -> (r: Result<
    Choice,
    MainError,
>)
    ensures
        namespaces@.len() == 0 <==> r is Err,
        r is Err ==> r == Err::<Choice, MainError>(MainError::NoNamespace),
        r is Ok ==> is_plan_of(namespace_names(namespaces@), opt_text(*preferred), r->Ok_0),
{
    if namespaces.len() == 0 {
        Err(MainError::NoNamespace)
    } else {
        let names = namespace_list(namespaces);
        Ok(plan_choice(&names, preferred))
    }
}

/// The service stage in `namespace`: fails, naming the namespace, where it
/// has no service; otherwise the plan, with the persisted last service as the
/// chooser's default.
pub fn plan_service(namespace: &Namespace, services: &Vec<Service>, preferred: &Option<String>) -> (r:
    Result<Choice, MainError>)
    ensures
        services@.len() == 0 <==> r is Err,
        r is Err ==> (match r->Err_0 {
            MainError::NoService(name) => name@ == namespace.metadata.name@,
            _ => false,
        }),
        r is Ok ==> is_plan_of(service_names(services@), opt_text(*preferred), r->Ok_0),
{
    if services.len() == 0 {
        Err(MainError::NoService(namespace.metadata.name.clone()))
    } else {
        let names = service_list(services);
        Ok(plan_choice(&names, preferred))
    }
}

/// How the remote ports of the chosen service are selected.
pub enum RemotePorts {
    /// The service has one port: the user confirms it on a one-item checklist,
    /// checked beforehand where `checked`.
    Confirm { port: u16, checked: bool },
    /// Every port of the service is taken, without asking.
    All,
}

/// The remote-port plan for a service with ports `ports`, given the mapping
/// that was last chosen for it.
pub open spec fn remote_plan_of(ports: Seq<u16>, history: Map<u16, u16>) -> RemotePorts {
    if ports.len() == 1 {
        RemotePorts::Confirm { port: ports[0], checked: history.contains_key(ports[0]) }
    } else {
        RemotePorts::All
    }
}

/// The remote ports selected under `plan` for a service with ports `ports`,
/// where `kept` tells whether the user left the single port checked.
pub open spec fn chosen_ports(plan: RemotePorts, ports: Seq<u16>, kept: bool) -> Seq<u16> {
    match plan {
        RemotePorts::Confirm { port, .. } => if kept {
            seq![port]
        } else {
            Seq::empty()
        },
        RemotePorts::All => ports,
    }
}

/// The remote-port plan for `service`, whose last chosen mapping is `history`.
pub fn plan_remote_ports(service: &Service, history: &PortMap) -> (r: RemotePorts)
    ensures
        r == remote_plan_of(port_numbers(service.spec.ports@), history@),
{
    if service.spec.ports.len() == 1 {
        let port = service.spec.ports[0].port;
        RemotePorts::Confirm { port, checked: history.contains_key(port) }
    } else {
        RemotePorts::All
    }
}

/// The remote ports selected under `plan` for `service`.
pub fn chosen_remote_ports(plan: &RemotePorts, service: &Service, kept: bool) -> (r: Vec<u16>)
    ensures
        r@ == chosen_ports(*plan, port_numbers(service.spec.ports@), kept),
{
    match plan {
        RemotePorts::Confirm { port, .. } => {
            let mut r: Vec<u16> = Vec::new();
            if kept {
                r.push(*port);
            }
            assert(r@ =~= chosen_ports(*plan, port_numbers(service.spec.ports@), kept));
            r
        },
        RemotePorts::All => service.remote_ports(),
    }
}

/// Ends the remote-port stage. With no port selected the run fails with
/// `NoPorts`, handing back the record to persist first: the namespace and
/// the service that were chosen.
pub fn check_remote_ports(selection: &SelectionWithService, chosen: Vec<u16>) -> (r: Result<
    Vec<u16>,
    (DefaultSelections, MainError),
>)
    ensures
        chosen@.len() > 0 ==> r == Ok::<Vec<u16>, (DefaultSelections, MainError)>(chosen),
        chosen@.len() == 0 ==> r is Err && r->Err_0.1 == MainError::NoPorts && is_record_of(
            r->Err_0.0,
            selection.namespace@,
            Some(selection.last_service@),
            selection.ports@,
        ),
{
    if chosen.len() == 0 {
        Err((selection.record(), MainError::NoPorts))
    } else {
        Ok(chosen)
    }
}

/// The default offered for the local port of `remote`: the local port last
/// chosen for it, or none.
pub fn local_port_default(history: &PortMap, remote: u16) -> (r: Option<u16>)
    ensures
        r == (if history@.contains_key(remote) { Some(history@[remote]) } else { None::<u16> }),
{
    history.get(remote)
}

/// The mapping that pairs each of `remote` with the local port at the same
/// place in `local`; a later pair replaces an earlier one for the same port.
pub open spec fn mapping_of(remote: Seq<u16>, local: Seq<u16>) -> Map<u16, u16>
    decreases remote.len(),
{
    if remote.len() == 0 || local.len() == 0 {
        Map::empty()
    } else {
        mapping_of(remote.drop_last(), local.drop_last()).insert(remote.last(), local.last())
    }
}

/// The local-port stage's result for the selected `remote` ports and the
/// local ports `local` answered for them, in the same order.
pub fn build_mapping(remote: &Vec<u16>, local: &Vec<u16>) -> (r: PortMap)
    requires
        remote@.len() == local@.len(),
    ensures
        r@ == mapping_of(remote@, local@),
{
    let mut r = PortMap::new();
    let mut i: usize = 0;
    while i < remote.len()
        invariant
            i <= remote@.len(),
            remote@.len() == local@.len(),
            r@ == mapping_of(remote@.take(i as int), local@.take(i as int)),
        decreases remote@.len() - i,
    {
        r.insert(remote[i], local[i]);
        proof {
            let a = remote@.take(i + 1);
            let b = local@.take(i + 1);
            assert(a.drop_last() =~= remote@.take(i as int));
            assert(b.drop_last() =~= local@.take(i as int));
        }
        i = i + 1;
    }
    assert(remote@.take(i as int) =~= remote@);
    assert(local@.take(i as int) =~= local@);
    r
}

/// A stage whose live options number exactly one takes that option without
/// asking.
pub proof fn lemma_single_option_is_automatic(
    options: Seq<Seq<char>>,
    preferred: Option<Seq<char>>,
    c: Choice,
)
    requires
        options.len() == 1,
        is_plan_of(options, preferred, c),
    ensures
        c is Auto,
{
}

/// A service with more than one port has all its ports selected, whatever
/// its last chosen mapping and whatever the user would answer.
pub proof fn lemma_multi_port_takes_all(ports: Seq<u16>, history: Map<u16, u16>, kept: bool)
    requires
        ports.len() > 1,
    ensures
        remote_plan_of(ports, history) is All,
        chosen_ports(remote_plan_of(ports, history), ports, kept) == ports,
{
}

/// A service with exactly one port is confirmed on a checklist, and
/// unchecking it selects no port, which ends the run with `NoPorts`.
pub proof fn lemma_single_port_unchecked_selects_none(ports: Seq<u16>, history: Map<u16, u16>)
    requires
        ports.len() == 1,
    ensures
        remote_plan_of(ports, history) is Confirm,
        chosen_ports(remote_plan_of(ports, history), ports, false).len() == 0,
        chosen_ports(remote_plan_of(ports, history), ports, true) == ports,
{
    assert(seq![ports[0]] =~= ports);
}

} // verus!
