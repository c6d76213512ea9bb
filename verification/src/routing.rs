//! Routing of requests to the resources of registered services.
//!
//! A server holds named services, each holding named resources (methods,
//! subscriptions, notification consumers, raw stream handlers). A request
//! names a service and a resource; routing finds the handler or answers
//! with the error that the client receives.

use vstd::prelude::*;

use crate::errors::ResourceError;

verus! {

/// The map of `(name, value)` pairs, later pairs taking precedence.
pub open spec fn named_map<V>(s: Seq<(String, V)>) -> Map<Seq<char>, V>
    decreases s.len(),
{
    if s.len() == 0 {
        Map::empty()
    } else {
        named_map(s.drop_last()).insert(s.last().0@, s.last().1)
    }
}

/// No name appears twice.
pub open spec fn distinct_names<V>(s: Seq<(String, V)>) -> bool {
    forall|i: int, j: int| 0 <= i < j < s.len() ==> #[trigger] s[i].0@ != #[trigger] s[j].0@
}

proof fn lemma_named_map_dom<V>(s: Seq<(String, V)>, k: Seq<char>)
    ensures
        named_map(s).dom().contains(k) <==> exists|i: int| 0 <= i < s.len() && s[i].0@ == k,
    decreases s.len(),
{
    if s.len() > 0 {
        lemma_named_map_dom(s.drop_last(), k);
        if named_map(s).dom().contains(k) && k != s.last().0@ {
            let i = choose|i: int| 0 <= i < s.drop_last().len() && s.drop_last()[i].0@ == k;
            assert(s[i].0@ == k);
        }
        if exists|i: int| 0 <= i < s.len() && s[i].0@ == k {
            let i = choose|i: int| 0 <= i < s.len() && s[i].0@ == k;
            if i < s.len() - 1 {
                assert(s.drop_last()[i].0@ == k);
            }
        }
    }
}

proof fn lemma_distinct_names_drop_last<V>(s: Seq<(String, V)>)
    requires
        distinct_names(s),
        s.len() > 0,
    ensures
        distinct_names(s.drop_last()),
{
    let t = s.drop_last();
    assert forall|a: int, b: int| 0 <= a < b < t.len() implies #[trigger] t[a].0@ != #[trigger] t[b].0@ by {
        assert(t[a] == s[a] && t[b] == s[b]);
    }
}

proof fn lemma_named_map_at<V>(s: Seq<(String, V)>, i: int)
    requires
        distinct_names(s),
        0 <= i < s.len(),
    ensures
        named_map(s).dom().contains(s[i].0@),
        named_map(s)[s[i].0@] == s[i].1,
    decreases s.len(),
{
    if i < s.len() - 1 {
        let t = s.drop_last();
        lemma_distinct_names_drop_last(s);
        lemma_named_map_at(t, i);
        assert(t[i] == s[i]);
    }
}

proof fn lemma_named_map_update<V>(s: Seq<(String, V)>, i: int, entry: (String, V))
    requires
        distinct_names(s),
        0 <= i < s.len(),
        entry.0@ == s[i].0@,
    ensures
        named_map(s.update(i, entry)) == named_map(s).insert(entry.0@, entry.1),
        distinct_names(s.update(i, entry)),
    decreases s.len(),
{
    let u = s.update(i, entry);
    assert forall|a: int, b: int| 0 <= a < b < u.len() implies #[trigger] u[a].0@ != #[trigger] u[b].0@ by {
        assert(u[a].0@ == s[a].0@ && u[b].0@ == s[b].0@);
    }
    if i == s.len() - 1 {
        assert(u.drop_last() == s.drop_last());
        assert(named_map(s).insert(entry.0@, entry.1) =~= named_map(s.drop_last()).insert(entry.0@, entry.1));
    } else {
        let t = s.drop_last();
        lemma_distinct_names_drop_last(s);
        assert(t[i] == s[i]);
        lemma_named_map_update(t, i, entry);
        assert(u.drop_last() == t.update(i, entry));
        assert(s[i].0@ != s.last().0@);
        assert(named_map(u) =~= named_map(s).insert(entry.0@, entry.1));
    }
}

/// A map from names to values, each name held once.
pub struct NameMap<V> {
    entries: Vec<(String, V)>,
}

impl<V> View for NameMap<V> {
    type V = Map<Seq<char>, V>;

    closed spec fn view(&self) -> Map<Seq<char>, V> {
        named_map(self.entries@)
    }
}

impl<V> NameMap<V> {
    #[verifier::type_invariant]
    spec fn well_formed(self) -> bool {
        distinct_names(self.entries@)
    }

    /// The empty map.
    pub fn new() -> (r: NameMap<V>)
        ensures
            r@ == Map::<Seq<char>, V>::empty(),
    {
        NameMap { entries: Vec::new() }
    }

    fn find(&self, name: &String) -> (r: Option<usize>)
        ensures
            match r {
                Some(i) => i < self.entries@.len() && self.entries@[i as int].0@ == name@,
                None => forall|i: int| 0 <= i < self.entries@.len() ==> self.entries@[i].0@ != name@,
            },
    {
        let mut i: usize = 0;
        while i < self.entries.len()
            invariant
                i <= self.entries@.len(),
                forall|k: int| 0 <= k < i ==> self.entries@[k].0@ != name@,
            decreases self.entries@.len() - i,
        {
            if self.entries[i].0 == *name {
                return Some(i);
            }
            i = i + 1;
        }
        None
    }

    /// The value stored under `name`.
    pub fn get(&self, name: &String) -> (r: Option<&V>)
        ensures
            match r {
                Some(v) => self@.dom().contains(name@) && *v == self@[name@],
                None => !self@.dom().contains(name@),
            },
    {
        proof {
            use_type_invariant(self);
            lemma_named_map_dom(self.entries@, name@);
        }
        match self.find(name) {
            Some(i) => {
                proof {
                    lemma_named_map_at(self.entries@, i as int);
                }
                Some(&self.entries[i].1)
            },
            None => None,
        }
    }

    /// Stores `value` under `name`, replacing any value stored there.
    pub fn insert(&mut self, name: String, value: V)
        ensures
            final(self)@ == old(self)@.insert(name@, value),
    {
        proof {
            use_type_invariant(&*self);
        }
        let found = self.find(&name);
        let mut entries = Vec::new();
        std::mem::swap(&mut entries, &mut self.entries);
        let ghost s = entries@;
        match found {
            Some(i) => {
                proof {
                    lemma_named_map_update(s, i as int, (name, value));
                }
                entries.set(i, (name, value));
            },
            None => {
                proof {
                    lemma_named_map_dom(s, name@);
                }
                entries.push((name, value));
                proof {
                    assert(entries@.drop_last() == s);
                    assert forall|a: int, b: int| 0 <= a < b < entries@.len() implies
                        #[trigger] entries@[a].0@ != #[trigger] entries@[b].0@ by {
                        if b < s.len() {
                            assert(entries@[a] == s[a] && entries@[b] == s[b]);
                        } else {
                            assert(entries@[a] == s[a]);
                        }
                    }
                }
            },
        }
        self.entries = entries;
    }

    /// The number of names held.
    pub fn len(&self) -> (r: usize)
        ensures
            r == self@.dom().len(),
    {
        proof {
            use_type_invariant(self);
            lemma_named_map_len(self.entries@);
        }
        self.entries.len()
    }
}

proof fn lemma_named_map_len<V>(s: Seq<(String, V)>)
    requires
        distinct_names(s),
    ensures
        named_map(s).dom().finite(),
        named_map(s).dom().len() == s.len(),
    decreases s.len(),
{
    if s.len() > 0 {
        let t = s.drop_last();
        lemma_distinct_names_drop_last(s);
        lemma_named_map_len(t);
        lemma_named_map_dom(t, s.last().0@);
        if named_map(t).dom().contains(s.last().0@) {
            let i = choose|i: int| 0 <= i < t.len() && t[i].0@ == s.last().0@;
            assert(t[i] == s[i]);
        }
    }
}

/// The kind of endpoint a resource is.
#[derive(PartialEq, Eq, Structural, Clone, Copy, Debug)]
pub enum ResourceKind {
    /// Request/response method.
    Rpc,
    /// Server-to-client subscription.
    Subscription,
    /// Client-to-server notification stream.
    Notification,
    /// Raw bidirectional stream.
    Stream,
}

/// The outcome of routing a request.
pub open spec fn route_spec<H>(
    services: Map<Seq<char>, Map<Seq<char>, H>>,
    service: Seq<char>,
    resource: Seq<char>,
    r: Result<H, ResourceError>,
) -> bool {
    if !services.dom().contains(service) {
        r matches Err(ResourceError::ServiceNotFound { service: s }) && s@ == service
    } else if !services[service].dom().contains(resource) {
        r matches Err(ResourceError::ResourceNotFound { service: s, resource: res })
            && s@ == service && res@ == resource
    } else {
        r == Ok::<H, ResourceError>(services[service][resource])
    }
}

/// The services of a server, each with its named resources.
pub struct ServiceTable<H> {
    services: NameMap<NameMap<H>>,
}

impl<H> ServiceTable<H> {
    /// Service name to (resource name to handler).
    pub closed spec fn routes(&self) -> Map<Seq<char>, Map<Seq<char>, H>> {
        Map::new(
            |s: Seq<char>| self.services@.dom().contains(s),
            |s: Seq<char>| self.services@[s]@,
        )
    }

    /// No services.
    pub fn new() -> (r: ServiceTable<H>)
        ensures
            r.routes() == Map::<Seq<char>, Map<Seq<char>, H>>::empty(),
    {
        let r = ServiceTable { services: NameMap::new() };
        assert(r.routes() =~= Map::<Seq<char>, Map<Seq<char>, H>>::empty());
        r
    }

    /// Registers a service with its resources, replacing any service of
    /// the same name.
    pub fn add_service(&mut self, name: String, resources: NameMap<H>)
        ensures
            final(self).routes() == old(self).routes().insert(name@, resources@),
    {
        self.services.insert(name, resources);
        assert(self.routes() =~= old(self).routes().insert(name@, resources@));
    }

    /// Finds the handler of `resource` in `service`.
    pub fn route(&self, service: &str, resource: &str) -> (r: Result<&H, ResourceError>)
        ensures
            route_spec(self.routes(), service@, resource@, match r {
                Ok(h) => Ok(*h),
                Err(e) => Err(e),
            }),
    {
        let service = service.to_owned();
        let resource = resource.to_owned();
        match self.services.get(&service) {
            None => Err(ResourceError::ServiceNotFound { service }),
            Some(resources) => match resources.get(&resource) {
                None => Err(
                    ResourceError::ResourceNotFound { service, resource },
                ),
                Some(h) => Ok(h),
            },
        }
    }
}

/// Builds one service: a name and its resources.
pub struct ServiceBuilder<H> {
    name: String,
    resources: NameMap<H>,
}

impl<H> ServiceBuilder<H> {
    /// The service's name.
    pub closed spec fn name(&self) -> Seq<char> {
        self.name@
    }

    /// The service's resources so far.
    pub closed spec fn resources(&self) -> Map<Seq<char>, H> {
        self.resources@
    }

    /// Starts a service with no resources.
    pub fn new(name: String) -> (r: ServiceBuilder<H>)
        ensures
            r.name() == name@,
            r.resources() == Map::<Seq<char>, H>::empty(),
    {
        ServiceBuilder { name, resources: NameMap::new() }
    }

    /// Adds a resource, replacing any resource of the same name.
    pub fn resource(self, name: String, handler: H) -> (r: ServiceBuilder<H>)
        ensures
            r.name() == self.name(),
            r.resources() == self.resources().insert(name@, handler),
    {
        let mut b = self;
        b.resources.insert(name, handler);
        b
    }

    /// Registers the service in `table`, replacing any service of the same
    /// name.
    pub fn build(self, table: &mut ServiceTable<H>)
        ensures
            final(table).routes() == old(table).routes().insert(self.name(), self.resources()),
    {
        table.add_service(self.name, self.resources);
    }
}

} // verus!
