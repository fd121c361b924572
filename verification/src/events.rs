//! Collection of execution event callbacks. Callbacks for entity events are
//! kept in registration order; callbacks for component events are kept per
//! component, keyed by the component's raw identifier, in registration
//! order. The runtime dispatches an event to every callback registered for
//! it, in that order.

use vstd::prelude::*;

use std::collections::HashMap;

use crate::ids::ComponentId;
use crate::types::Component;

verus! {

broadcast use vstd::std_specs::hash::group_hash_axioms;

/// The callbacks registered per component, as sequences.
pub open spec fn lists_of<D>(m: Map<i32, Vec<D>>) -> Map<i32, Seq<D>> {
    m.map_values(|v: Vec<D>| v@)
}

/// The callbacks registered for component `id` (none where nothing was
/// registered for it).
pub open spec fn callbacks_of<D>(m: Map<i32, Seq<D>>, id: i32) -> Seq<D> {
    if m.contains_key(id) {
        m[id]
    } else {
        Seq::empty()
    }
}

/// `m` after registering `cb` for component `id`: the callback follows the
/// ones already registered for `id`; every other component keeps its list.
pub open spec fn registered<D>(m: Map<i32, Seq<D>>, id: i32, cb: D) -> Map<i32, Seq<D>> {
    m.insert(id, callbacks_of(m, id).push(cb))
}

/// The registered callbacks of a collector.
pub struct EventsView<E, D> {
    pub entity_created: Seq<E>,
    pub init: Map<i32, Seq<D>>,
    pub update: Map<i32, Seq<D>>,
    pub remove: Map<i32, Seq<D>>,
    pub entity_destroyed: Seq<E>,
}

/// Callbacks to run on the events of a system execution. `E` is the type of
/// entity event callbacks, `D` that of component event callbacks.
pub struct ExecutionEventsCollector<E, D> {
    pub entity_created_callbacks: Vec<E>,
    pub init_callbacks: HashMap<i32, Vec<D>>,
    pub update_callbacks: HashMap<i32, Vec<D>>,
    pub remove_callbacks: HashMap<i32, Vec<D>>,
    pub entity_destroyed_callbacks: Vec<E>,
}

impl<E, D> View for ExecutionEventsCollector<E, D> {
    type V = EventsView<E, D>;

    open spec fn view(&self) -> EventsView<E, D> {
        EventsView {
            entity_created: self.entity_created_callbacks@,
            init: lists_of(self.init_callbacks@),
            update: lists_of(self.update_callbacks@),
            remove: lists_of(self.remove_callbacks@),
            entity_destroyed: self.entity_destroyed_callbacks@,
        }
    }
}

/// Adds `cb` to the callbacks registered for `id`.
fn push_callback<D>(map: &mut HashMap<i32, Vec<D>>, id: i32, cb: D)
    ensures
        lists_of(final(map)@) == registered(lists_of(old(map)@), id, cb),
{
    let ghost before = lists_of(map@);
    let mut list = match map.remove(&id) {
        Some(list) => list,
        None => Vec::new(),
    };
    assert(list@ == callbacks_of(before, id));
    list.push(cb);
    map.insert(id, list);
    assert(lists_of(map@) =~= registered(before, id, cb));
}

/// The callbacks registered for `id`, if any.
fn get_callbacks<D>(map: &HashMap<i32, Vec<D>>, id: i32) -> (r: Option<&Vec<D>>)
    ensures
        match r {
            Some(v) => lists_of(map@).contains_key(id) && v@ == lists_of(map@)[id],
            None => !lists_of(map@).contains_key(id),
        },
{
    map.get(&id)
}

impl<E, D> ExecutionEventsCollector<E, D> {
    /// A collector with no callbacks.
    pub fn new() -> (r: Self)
        ensures
            r@.entity_created == Seq::<E>::empty(),
            r@.init == Map::<i32, Seq<D>>::empty(),
            r@.update == Map::<i32, Seq<D>>::empty(),
            r@.remove == Map::<i32, Seq<D>>::empty(),
            r@.entity_destroyed == Seq::<E>::empty(),
    {
        let r = ExecutionEventsCollector {
            entity_created_callbacks: Vec::new(),
            init_callbacks: HashMap::new(),
            update_callbacks: HashMap::new(),
            remove_callbacks: HashMap::new(),
            entity_destroyed_callbacks: Vec::new(),
        };
        assert(r@.init =~= Map::<i32, Seq<D>>::empty());
        assert(r@.update =~= Map::<i32, Seq<D>>::empty());
        assert(r@.remove =~= Map::<i32, Seq<D>>::empty());
        r
    }

    /// Adds a callback to run when an entity is created.
    pub fn on_entity_created(self, callback: E) -> (r: Self)
        ensures
            r@.entity_created == self@.entity_created.push(callback),
            r@.init == self@.init,
            r@.update == self@.update,
            r@.remove == self@.remove,
            r@.entity_destroyed == self@.entity_destroyed,
    {
        let mut s = self;
        s.entity_created_callbacks.push(callback);
        s
    }

    /// Adds a callback to run when a component of type `C` is added.
    pub fn on_init<C: Component>(self, callback: D) -> (r: Self)
        ensures
            r@.init == registered(self@.init, <C as Component>::ID, callback),
            r@.entity_created == self@.entity_created,
            r@.update == self@.update,
            r@.remove == self@.remove,
            r@.entity_destroyed == self@.entity_destroyed,
    {
        let mut s = self;
        push_callback(&mut s.init_callbacks, <C as Component>::ID, callback);
        s
    }

    /// Adds a callback to run when a component of type `C` is updated.
    pub fn on_update<C: Component>(self, callback: D) -> (r: Self)
        ensures
            r@.update == registered(self@.update, <C as Component>::ID, callback),
            r@.entity_created == self@.entity_created,
            r@.init == self@.init,
            r@.remove == self@.remove,
            r@.entity_destroyed == self@.entity_destroyed,
    {
        let mut s = self;
        push_callback(&mut s.update_callbacks, <C as Component>::ID, callback);
        s
    }

    /// Adds a callback to run when a component of type `C` is removed.
    pub fn on_remove<C: Component>(self, callback: D) -> (r: Self)
        ensures
            r@.remove == registered(self@.remove, <C as Component>::ID, callback),
            r@.entity_created == self@.entity_created,
            r@.init == self@.init,
            r@.update == self@.update,
            r@.entity_destroyed == self@.entity_destroyed,
    {
        let mut s = self;
        push_callback(&mut s.remove_callbacks, <C as Component>::ID, callback);
        s
    }

    /// Adds a callback to run when an entity is destroyed.
    pub fn on_entity_destroyed(self, callback: E) -> (r: Self)
        ensures
            r@.entity_destroyed == self@.entity_destroyed.push(callback),
            r@.entity_created == self@.entity_created,
            r@.init == self@.init,
            r@.update == self@.update,
            r@.remove == self@.remove,
    {
        let mut s = self;
        s.entity_destroyed_callbacks.push(callback);
        s
    }

    /// The callbacks to run when a component with identifier `component_id`
    /// is added, if any were registered.
    pub fn init_callbacks_for(&self, component_id: ComponentId) -> (r: Option<&Vec<D>>)
        ensures
            match r {
                Some(v) => self@.init.contains_key(component_id.0) && v@ == self@.init[component_id.0],
                None => !self@.init.contains_key(component_id.0),
            },
    {
        get_callbacks(&self.init_callbacks, component_id.0)
    }

    /// The callbacks to run when a component with identifier `component_id`
    /// is updated, if any were registered.
    pub fn update_callbacks_for(&self, component_id: ComponentId) -> (r: Option<&Vec<D>>)
        ensures
            match r {
                Some(v) => self@.update.contains_key(component_id.0) && v@ == self@.update[component_id.0],
                None => !self@.update.contains_key(component_id.0),
            },
    {
        get_callbacks(&self.update_callbacks, component_id.0)
    }

    /// The callbacks to run when a component with identifier `component_id`
    /// is removed, if any were registered.
    pub fn remove_callbacks_for(&self, component_id: ComponentId) -> (r: Option<&Vec<D>>)
        ensures
            match r {
                Some(v) => self@.remove.contains_key(component_id.0) && v@ == self@.remove[component_id.0],
                None => !self@.remove.contains_key(component_id.0),
            },
    {
        get_callbacks(&self.remove_callbacks, component_id.0)
    }
}

impl<E, D> Default for ExecutionEventsCollector<E, D> {
    fn default() -> (r: Self)
        ensures
            r@.entity_created == Seq::<E>::empty(),
            r@.init == Map::<i32, Seq<D>>::empty(),
            r@.update == Map::<i32, Seq<D>>::empty(),
            r@.remove == Map::<i32, Seq<D>>::empty(),
            r@.entity_destroyed == Seq::<E>::empty(),
    {
        Self::new()
    }
}

/// Registering a callback for a component makes it the last callback run
/// for that component, after those registered before it, and changes no
/// other component's callbacks.
pub proof fn lemma_registration_dispatch<D>(m: Map<i32, Seq<D>>, id: i32, cb: D, other: i32)
    requires
        other != id,
    ensures
        callbacks_of(registered(m, id, cb), id) == callbacks_of(m, id).push(cb),
        callbacks_of(registered(m, id, cb), other) == callbacks_of(m, other),
{
}

/// Two registrations for the same component run in the order they were
/// made, after the callbacks registered before them.
pub proof fn lemma_registration_order<D>(m: Map<i32, Seq<D>>, id: i32, first: D, second: D)
    ensures
        callbacks_of(registered(registered(m, id, first), id, second), id) == callbacks_of(
            m,
            id,
        ).push(first).push(second),
{
}

/// Registrations for different components commute.
pub proof fn lemma_registration_commutes<D>(m: Map<i32, Seq<D>>, a: i32, ca: D, b: i32, cb: D)
    requires
        a != b,
    ensures
        registered(registered(m, a, ca), b, cb) == registered(registered(m, b, cb), a, ca),
{
    assert(registered(registered(m, a, ca), b, cb) =~= registered(registered(m, b, cb), a, ca));
}

} // verus!
