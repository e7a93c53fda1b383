use vstd::prelude::*;

verus! {

/// The `items` of a list answer of the cluster tool.
pub struct KubectlList<T> {
    pub items: Vec<T>,
}

/// The metadata of a cluster object: its name.
pub struct Metadata {
    pub name: String,
}

impl Clone for Metadata {
    fn clone(&self) -> (r: Self)
        ensures
            r == *self,
    {
        Metadata { name: self.name.clone() }
    }
}

/// A namespace of the cluster, identified by its name.
pub struct Namespace {
    pub metadata: Metadata,
}

impl Namespace {
    /// The namespace's name, as shown to the user.
    pub fn to_string(&self) -> (r: String)
        ensures
            r@ == self.metadata.name@,
    {
        self.metadata.name.clone()
    }
}

impl Clone for Namespace {
    fn clone(&self) -> (r: Self)
        ensures
            r == *self,
    {
        Namespace { metadata: self.metadata.clone() }
    }
}

/// One port that a service exposes inside the cluster.
#[derive(Clone, Copy)]
pub struct Port {
    pub port: u16,
}

/// The ports of a service, in the order the cluster lists them.
pub struct ServiceSpec {
    pub ports: Vec<Port>,
}

impl Clone for ServiceSpec {
    fn clone(&self) -> (r: Self)
        ensures
            r.ports@ == self.ports@,
    {
        let mut ports: Vec<Port> = Vec::new();
        let mut i: usize = 0;
        while i < self.ports.len()
            invariant
                i <= self.ports@.len(),
                ports@ == self.ports@.take(i as int),
            decreases self.ports@.len() - i,
        {
            ports.push(self.ports[i]);
            i = i + 1;
            assert(ports@ =~= self.ports@.take(i as int));
        }
        assert(ports@ =~= self.ports@);
        ServiceSpec { ports }
    }
}

/// A service of a namespace, identified by its name within the namespace.
pub struct Service {
    pub metadata: Metadata,
    pub spec: ServiceSpec,
}

/// The remote port numbers of a list of service ports.
pub open spec fn port_numbers(ports: Seq<Port>) -> Seq<u16> {
    ports.map_values(|p: Port| p.port)
}

impl Service {
    /// The service's name, as shown to the user.
    pub fn to_string(&self) -> (r: String)
        ensures
            r@ == self.metadata.name@,
    {
        self.metadata.name.clone()
    }

    /// The remote ports the service exposes, in the order the cluster lists them.
    pub fn remote_ports(&self) -> (r: Vec<u16>)
        ensures
            r@ == port_numbers(self.spec.ports@),
    {
        let mut r: Vec<u16> = Vec::new();
        let mut i: usize = 0;
        while i < self.spec.ports.len()
            invariant
                i <= self.spec.ports@.len(),
                r@ == port_numbers(self.spec.ports@.take(i as int)),
            decreases self.spec.ports@.len() - i,
        {
            r.push(self.spec.ports[i].port);
            i = i + 1;
            assert(r@ =~= port_numbers(self.spec.ports@.take(i as int)));
        }
        assert(self.spec.ports@.take(i as int) =~= self.spec.ports@);
        r
    }
}

impl Clone for Service {
    fn clone(&self) -> (r: Self)
        ensures
            r.metadata == self.metadata,
            r.spec.ports@ == self.spec.ports@,
    {
        Service { metadata: self.metadata.clone(), spec: self.spec.clone() }
    }
}

} // verus!
