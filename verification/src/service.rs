//! Services and their registration: a service is a state with handlers
//! registered under method names, and a server holds services registered
//! under service names. Registering a name again replaces what it named.
//!
//! A handler is any value the caller chooses (a function of the state and of
//! the serialized argument); this module decides which handler a name gives.

use std::marker::PhantomData;
use std::sync::Arc;
use vstd::prelude::*;

use crate::error::Error;

verus! {

/// Type state for the `ServiceBuilder` when the builder is NOT ready to build a `Service`
pub struct BuilderUninitialized;

/// Type state for the `ServiceBuilder` when the builder is ready to build a `Service`
pub struct BuilderReady;

/// Values registered under names, in the order the names were first
/// registered; each name is held once
pub struct Registry<H> {
    names: Vec<String>,
    values: Vec<H>,
}

impl<H> Registry<H> {
    /// Each name is held once, with one value
    pub closed spec fn well_formed(&self) -> bool {
        &&& self.names@.len() == self.values@.len()
        &&& forall|i: int, j: int|
            0 <= i < j < self.names@.len() ==> self.names@[i]@ != self.names@[j]@
    }

    /// Whether position `i` holds name `k`
    pub closed spec fn holds(&self, i: int, k: Seq<char>) -> bool {
        0 <= i < self.names@.len() && self.names@[i]@ == k
    }

    closed spec fn index_of(&self, k: Seq<char>) -> int {
        choose|i: int| self.holds(i, k)
    }

    /// What each registered name stands for
    pub closed spec fn entries(&self) -> Map<Seq<char>, H> {
        Map::new(
            |k: Seq<char>| exists|i: int| self.holds(i, k),
            |k: Seq<char>| self.values@[self.index_of(k)],
        )
    }

    /// The registered names, in the order they were first registered
    pub closed spec fn names(&self) -> Seq<Seq<char>> {
        self.names@.map_values(|s: String| s@)
    }

    proof fn lemma_index_of(&self, k: Seq<char>, i: int)
        requires
            self.well_formed(),
            self.holds(i, k),
        ensures
            self.index_of(k) == i,
            self.entries().contains_key(k),
            self.entries()[k] == self.values@[i],
    {
        let j = self.index_of(k);
        assert(self.holds(j, k));
        if j < i {
            assert(self.names@[j]@ != self.names@[i]@);
        } else if i < j {
            assert(self.names@[i]@ != self.names@[j]@);
        }
    }

    /// An empty registry
    pub fn new() -> (r: Self)
        ensures
            r.well_formed(),
            r.entries() == Map::<Seq<char>, H>::empty(),
            r.names() == Seq::<Seq<char>>::empty(),
    {
        let r = Self { names: Vec::new(), values: Vec::new() };
        assert(r.entries() =~= Map::<Seq<char>, H>::empty());
        assert(r.names() =~= Seq::<Seq<char>>::empty());
        r
    }

    /// Number of registered names
    pub fn len(&self) -> (n: usize)
        requires
            self.well_formed(),
        ensures
            n == self.names().len(),
    {
        self.names.len()
    }

    /// Position of a name, if it is registered
    fn position(&self, name: &str) -> (r: Option<usize>)
        requires
            self.well_formed(),
        ensures
            r matches Some(i) ==> self.holds(i as int, name@),
            r is None ==> !self.entries().contains_key(name@),
    {
        let key = String::from_str(name);
        let mut i: usize = 0;
        while i < self.names.len()
            invariant
                i <= self.names@.len(),
                key@ == name@,
                forall|j: int| 0 <= j < i ==> self.names@[j]@ != name@,
            decreases self.names@.len() - i,
        {
            if self.names[i] == key {
                return Some(i);
            }
            i = i + 1;
        }
        assert(!self.entries().contains_key(name@)) by {
            if exists|j: int| self.holds(j, name@) {
                let j = choose|j: int| self.holds(j, name@);
                assert(self.names@[j]@ != name@);
            }
        }
        None
    }

    /// Registers a value under a name, replacing the value the name had; a
    /// new name goes after the names registered before
    pub fn register(&mut self, name: String, value: H)
        requires
            old(self).well_formed(),
        ensures
            final(self).well_formed(),
            final(self).entries() == old(self).entries().insert(name@, value),
            old(self).entries().contains_key(name@) ==> final(self).names() == old(self).names(),
            !old(self).entries().contains_key(name@) ==> final(self).names() == old(
                self,
            ).names().push(name@),
    {
        let ghost old_self = *self;
        match self.position(name.as_str()) {
            Some(p) => {
                self.values.set(p, value);
                proof {
                    assert(self.names@ == old_self.names@);
                    assert forall|k: Seq<char>| #[trigger]
                        self.entries().contains_key(k) == old_self.entries().insert(
                            name@,
                            value,
                        ).contains_key(k) by {
                        if k == name@ {
                            assert(self.holds(p as int, k));
                        }
                        if exists|i: int| old_self.holds(i, k) {
                            let i = choose|i: int| old_self.holds(i, k);
                            assert(self.holds(i, k));
                        }
                        if exists|i: int| self.holds(i, k) {
                            let i = choose|i: int| self.holds(i, k);
                            assert(old_self.holds(i, k));
                        }
                    }
                    assert forall|k: Seq<char>| self.entries().contains_key(k) implies #[trigger]
                        self.entries()[k] == old_self.entries().insert(name@, value)[k] by {
                        let i = choose|i: int| self.holds(i, k);
                        self.lemma_index_of(k, i);
                        old_self.lemma_index_of(k, i);
                        if k == name@ {
                            self.lemma_index_of(k, p as int);
                        }
                    }
                    assert(self.entries() =~= old_self.entries().insert(name@, value));
                    assert(self.names() =~= old_self.names());
                }
            },
            None => {
                self.names.push(name);
                self.values.push(value);
                proof {
                    let n = old_self.names@.len() as int;
                    assert(self.holds(n, name@));
                    assert forall|i: int, j: int|
                        0 <= i < j < self.names@.len() implies self.names@[i]@
                        != self.names@[j]@ by {
                        if j == n {
                            assert(!old_self.holds(i, name@));
                        } else {
                            assert(old_self.names@[i]@ != old_self.names@[j]@);
                        }
                    }
                    assert forall|k: Seq<char>| #[trigger]
                        self.entries().contains_key(k) == old_self.entries().insert(
                            name@,
                            value,
                        ).contains_key(k) by {
                        if exists|i: int| old_self.holds(i, k) {
                            let i = choose|i: int| old_self.holds(i, k);
                            assert(self.holds(i, k));
                        }
                        if exists|i: int| self.holds(i, k) {
                            let i = choose|i: int| self.holds(i, k);
                            if i < n {
                                assert(old_self.holds(i, k));
                            }
                        }
                    }
                    assert forall|k: Seq<char>| self.entries().contains_key(k) implies #[trigger]
                        self.entries()[k] == old_self.entries().insert(name@, value)[k] by {
                        let i = choose|i: int| self.holds(i, k);
                        self.lemma_index_of(k, i);
                        if i < n {
                            assert(old_self.holds(i, k));
                            old_self.lemma_index_of(k, i);
                        }
                    }
                    assert(self.entries() =~= old_self.entries().insert(name@, value));
                    assert(self.names() =~= old_self.names().push(name@));
                }
            },
        }
    }

    /// The value registered under a name, if any
    pub fn get(&self, name: &str) -> (r: Option<&H>)
        requires
            self.well_formed(),
        ensures
            r is Some <==> self.entries().contains_key(name@),
            r matches Some(h) ==> *h == self.entries()[name@],
    {
        match self.position(name) {
            Some(i) => {
                proof {
                    self.lemma_index_of(name@, i as int);
                }
                Some(&self.values[i])
            },
            None => None,
        }
    }

    /// The registered names, in the order they were first registered
    pub fn name_list(&self) -> (v: Vec<String>)
        requires
            self.well_formed(),
        ensures
            v@.len() == self.names().len(),
            forall|i: int| 0 <= i < v@.len() ==> #[trigger] v@[i]@ == self.names()[i],
    {
        let mut v: Vec<String> = Vec::new();
        let mut i: usize = 0;
        while i < self.names.len()
            invariant
                i <= self.names@.len(),
                v@.len() == i,
                forall|j: int| 0 <= j < i ==> #[trigger] v@[j]@ == self.names@[j]@,
            decreases self.names@.len() - i,
        {
            v.push(self.names[i].clone());
            i = i + 1;
        }
        v
    }

    /// The value registered under the name at position `k` of `names()`
    pub fn value_at(&self, k: usize) -> (r: &H)
        requires
            self.well_formed(),
            k < self.names().len(),
        ensures
            self.entries().contains_key(self.names()[k as int]),
            *r == self.entries()[self.names()[k as int]],
    {
        proof {
            self.lemma_index_of(self.names@[k as int]@, k as int);
        }
        &self.values[k]
    }
}

/// The entries after registering each pair of a list in turn
pub open spec fn registered<H>(m: Map<Seq<char>, H>, pairs: Seq<(Seq<char>, H)>) -> Map<
    Seq<char>,
    H,
>
    decreases pairs.len(),
{
    if pairs.len() == 0 {
        m
    } else {
        registered(m, pairs.drop_last()).insert(pairs.last().0, pairs.last().1)
    }
}

/// A clone of an `Arc`, pointing to the same value (`Arc::clone`).
#[verifier::external_body]
fn arc_clone<T>(a: &Arc<T>) -> (r: Arc<T>)
    ensures
        r == *a,
{
    Arc::clone(a)
}

/// A service: a state and the handlers of its methods
pub struct Service<State, H> {
    state: Arc<State>,
    handlers: Registry<H>,
}

impl<State, H> Service<State, H> {
    /// The state the handlers are called with
    pub closed spec fn state(&self) -> Arc<State> {
        self.state
    }

    /// The handler of each method
    pub closed spec fn methods(&self) -> Map<Seq<char>, H> {
        self.handlers.entries()
    }

    /// The service is consistent
    pub closed spec fn well_formed(&self) -> bool {
        self.handlers.well_formed()
    }

    /// Creates a `ServiceBuilder`
    pub fn builder() -> (b: ServiceBuilder<State, H, BuilderUninitialized>)
        ensures
            b.state is None,
            b.handlers.well_formed(),
            b.handlers.entries() == Map::<Seq<char>, H>::empty(),
    {
        ServiceBuilder::new()
    }

    /// Returns the internal state
    pub fn get_state(&self) -> (s: Arc<State>)
        ensures
            s == self.state(),
    {
        arc_clone(&self.state)
    }

    /// Returns the handler of the requested method
    pub fn get_method(&self, name: &str) -> (r: Option<&H>)
        requires
            self.well_formed(),
        ensures
            r is Some <==> self.methods().contains_key(name@),
            r matches Some(h) ==> *h == self.methods()[name@],
    {
        self.handlers.get(name)
    }

    /// The handler that a call of the method runs; a method that is not
    /// registered is `MethodNotFound`
    pub fn method(&self, name: &str) -> (r: Result<&H, Error>)
        requires
            self.well_formed(),
        ensures
            self.methods().contains_key(name@) ==> (r matches Ok(h) && *h == self.methods()[name@]),
            !self.methods().contains_key(name@) ==> r matches Err(Error::MethodNotFound),
    {
        match self.handlers.get(name) {
            Some(h) => Ok(h),
            None => Err(Error::MethodNotFound),
        }
    }
}

/// Service builder. The builder uses type state to control whether the builder is ready
/// to build a `Service`.
///
/// A `Service` can be built without any handler but cannot be built without internal state.
pub struct ServiceBuilder<State, H, BuilderMode> {
    /// Internal state of the builder, which will be the internal state of the `Service`
    pub state: Option<Arc<State>>,
    /// RPC method handlers
    pub handlers: Registry<H>,
    /// The type state
    pub mode: PhantomData<BuilderMode>,
}

impl<State, H> ServiceBuilder<State, H, BuilderUninitialized> {
    /// Creates a new builder without any internal state.
    pub fn new() -> (b: Self)
        ensures
            b.state is None,
            b.handlers.well_formed(),
            b.handlers.entries() == Map::<Seq<char>, H>::empty(),
    {
        Self { state: None, handlers: Registry::new(), mode: PhantomData }
    }

    /// Creates a new builder with an internal state.
    pub fn with_state(s: Arc<State>) -> (b: ServiceBuilder<State, H, BuilderReady>)
        ensures
            b.state == Some(s),
            b.handlers.well_formed(),
            b.handlers.entries() == Map::<Seq<char>, H>::empty(),
    {
        ServiceBuilder { state: Some(s), handlers: Registry::new(), mode: PhantomData }
    }
}

impl<State, H> Default for ServiceBuilder<State, H, BuilderUninitialized> {
    fn default() -> (b: Self)
        ensures
            b.state is None,
            b.handlers.well_formed(),
            b.handlers.entries() == Map::<Seq<char>, H>::empty(),
    {
        Self::new()
    }
}

impl<State, H, BuilderMode> ServiceBuilder<State, H, BuilderMode> {
    /// Register the internal state
    pub fn register_state(self, s: Arc<State>) -> (b: ServiceBuilder<State, H, BuilderReady>)
        ensures
            b.state == Some(s),
            b.handlers == self.handlers,
    {
        ServiceBuilder { state: Some(s), handlers: self.handlers, mode: PhantomData }
    }

    /// Register a handler for a method, replacing the one it had
    pub fn register_handler(self, method: String, handler: H) -> (b: Self)
        requires
            self.handlers.well_formed(),
        ensures
            b.state == self.state,
            b.handlers.well_formed(),
            b.handlers.entries() == self.handlers.entries().insert(method@, handler),
    {
        let mut builder = self;
        builder.handlers.register(method, handler);
        builder
    }

    /// Register a list of handlers, each in turn
    pub fn register_handlers(self, handlers: Vec<(String, H)>) -> (b: Self)
        requires
            self.handlers.well_formed(),
        ensures
            b.state == self.state,
            b.handlers.well_formed(),
            b.handlers.entries() == registered(
                self.handlers.entries(),
                handlers@.map_values(|p: (String, H)| (p.0@, p.1)),
            ),
    {
        let ghost start = self.handlers.entries();
        let ghost pairs = handlers@.map_values(|p: (String, H)| (p.0@, p.1));
        let mut builder = self;
        let mut rest = handlers;
        let n = rest.len();
        let mut k: usize = 0;
        while k < n
            invariant
                n == pairs.len(),
                n == handlers@.len(),
                pairs == handlers@.map_values(|p: (String, H)| (p.0@, p.1)),
                k <= n,
                rest@ == handlers@.skip(k as int),
                builder.state == self.state,
                builder.handlers.well_formed(),
                builder.handlers.entries() == registered(start, pairs.take(k as int)),
            decreases n - k,
        {
            assert(rest@[0] == handlers@[k as int]);
            let (method, handler) = rest.remove(0);
            proof {
                assert(pairs[k as int] == (method@, handler));
                assert(pairs.take(k + 1).drop_last() =~= pairs.take(k as int));
                assert(pairs.take(k + 1).last() == (method@, handler));
                assert(rest@ =~= handlers@.skip(k + 1));
            }
            builder.handlers.register(method, handler);
            k = k + 1;
        }
        assert(pairs.take(n as int) =~= pairs);
        builder
    }
}

impl<State, H> ServiceBuilder<State, H, BuilderReady> {
    /// Build a `Service`
    pub fn build(self) -> (s: Service<State, H>)
        requires
            self.state is Some,
            self.handlers.well_formed(),
        ensures
            s.well_formed(),
            s.state() == self.state.unwrap(),
            s.methods() == self.handlers.entries(),
    {
        let state = self.state.unwrap();
        Service { state, handlers: self.handlers }
    }
}

/// Convenience function to build a `Service` with the internal state and the handlers
pub fn build_service<State, H>(state: Arc<State>, handlers: Vec<(String, H)>) -> (s: Service<
    State,
    H,
>)
    ensures
        s.well_formed(),
        s.state() == state,
        s.methods() == registered(
            Map::<Seq<char>, H>::empty(),
            handlers@.map_values(|p: (String, H)| (p.0@, p.1)),
        ),
{
    Service::builder().register_state(state).register_handlers(handlers).build()
}

} // verus!
