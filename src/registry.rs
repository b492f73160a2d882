//! The endpoint's table from connection ID to the route that delivers
//! inbound packets to that connection.
use std::collections::HashMap;
use vstd::prelude::*;

verus! {

broadcast use vstd::std_specs::hash::group_hash_axioms;

/// An ID is usable for a connection when it is neither the "no connection
/// yet" sentinel (0) nor the "not-yet-existing connection" one (`u32::MAX`).
pub open spec fn is_assignable_id(id: u32) -> bool {
    id != 0 && id != u32::MAX
}

/// One row of the table: a connection ID and its inbound route.
pub struct ConnectionMeta<R> {
    connection_id: u32,
    to_connection_tx: R,
}

impl<R> ConnectionMeta<R> {
    pub closed spec fn id(&self) -> u32 {
        self.connection_id
    }

    pub closed spec fn route(&self) -> R {
        self.to_connection_tx
    }

    pub fn new(connection_id: u32, to_connection_tx: R) -> (r: Self)
        ensures
            r.id() == connection_id,
            r.route() == to_connection_tx,
    {
        ConnectionMeta { connection_id, to_connection_tx }
    }

    pub fn get_id(&self) -> (r: u32)
        ensures
            r == self.id(),
    {
        self.connection_id
    }

    pub fn get_tx(&self) -> (r: &R)
        ensures
            *r == self.route(),
    {
        &self.to_connection_tx
    }
}

/// Why the registry refused a request.
#[derive(Debug, Clone, Copy, PartialEq, Eq, Structural)]
pub enum RegistryError {
    /// Every assignable ID has been handed out.
    IdsExhausted,
    /// The ID is 0 or `u32::MAX`, which never name a connection.
    ReservedId,
    /// A route is already registered under the ID.
    AlreadyRegistered,
}

/// The routing table, with a counter that hands out each ID at most once.
pub struct Registry<R> {
    table: HashMap<u32, ConnectionMeta<R>>,
    next: u32,
    /// Every ID handed out so far, in order.
    issued: Ghost<Seq<u32>>,
}

impl<R> Registry<R> {
    /// The registered routes, by connection ID.
    pub closed spec fn routes(&self) -> Map<u32, R> {
        Map::new(|k: u32| self.table@.contains_key(k), |k: u32| self.table@[k].route())
    }

    /// The IDs handed out so far, in order.
    pub closed spec fn issued(&self) -> Seq<u32> {
        self.issued@
    }

    /// The ID that the next allocation hands out, if any is left.
    pub closed spec fn next_free(&self) -> u32 {
        self.next
    }

    pub closed spec fn wf(&self) -> bool {
        &&& 1 <= self.next
        &&& self.issued@.len() == self.next - 1
        &&& forall|i: int| 0 <= i < self.issued@.len() ==> #[trigger] self.issued@[i] == i + 1
        &&& forall|k: u32| #[trigger]
            self.table@.contains_key(k) ==> self.table@[k].id() == k && is_assignable_id(k)
    }

    pub fn new() -> (r: Self)
        ensures
            r.wf(),
            r.routes() == Map::<u32, R>::empty(),
            r.issued() == Seq::<u32>::empty(),
            r.next_free() == 1,
    {
        let r = Registry { table: HashMap::new(), next: 1, issued: Ghost(Seq::empty()) };
        assert(r.routes() =~= Map::<u32, R>::empty());
        r
    }

    /// Hands out a fresh ID: the counter's value, which then moves on. IDs
    /// never repeat, also after deregistration, and skip the sentinels.
    pub fn next_id(&mut self) -> (r: Result<u32, RegistryError>)
        requires
            old(self).wf(),
        ensures
            final(self).wf(),
            final(self).routes() == old(self).routes(),
            old(self).next_free() < u32::MAX ==> {
                &&& r == Ok::<u32, RegistryError>(old(self).next_free())
                &&& is_assignable_id(old(self).next_free())
                &&& final(self).issued() == old(self).issued().push(old(self).next_free())
                &&& final(self).next_free() == old(self).next_free() + 1
            },
            old(self).next_free() == u32::MAX ==> {
                &&& r == Err::<u32, RegistryError>(RegistryError::IdsExhausted)
                &&& final(self).issued() == old(self).issued()
                &&& final(self).next_free() == old(self).next_free()
            },
    {
        if self.next == u32::MAX {
            return Err(RegistryError::IdsExhausted);
        }
        let id = self.next;
        self.next = self.next + 1;
        self.issued = Ghost(self.issued@.push(id));
        assert(self.routes() == old(self).routes());
        Ok(id)
    }

    /// Registers `route` under `id`, unless the ID is reserved or taken.
    pub fn register(&mut self, id: u32, route: R) -> (r: Result<(), RegistryError>)
        requires
            old(self).wf(),
        ensures
            final(self).wf(),
            final(self).issued() == old(self).issued(),
            final(self).next_free() == old(self).next_free(),
            !is_assignable_id(id) ==> r == Err::<(), RegistryError>(RegistryError::ReservedId),
            is_assignable_id(id) && old(self).routes().contains_key(id) ==> r == Err::<
                (),
                RegistryError,
            >(RegistryError::AlreadyRegistered),
            is_assignable_id(id) && !old(self).routes().contains_key(id) ==> r == Ok::<
                (),
                RegistryError,
            >(()),
            r is Ok ==> final(self).routes() == old(self).routes().insert(id, route),
            r is Err ==> final(self).routes() == old(self).routes(),
    {
        if id == 0 || id == u32::MAX {
            return Err(RegistryError::ReservedId);
        }
        if self.table.contains_key(&id) {
            return Err(RegistryError::AlreadyRegistered);
        }
        self.table.insert(id, ConnectionMeta::new(id, route));
        assert(self.routes() =~= old(self).routes().insert(id, route));
        Ok(())
    }

    /// The route registered under `id`; a miss is no error.
    pub fn lookup(&self, id: u32) -> (r: Option<&R>)
        requires
            self.wf(),
        ensures
            match r {
                Some(route) => self.routes().contains_key(id) && *route == self.routes()[id],
                None => !self.routes().contains_key(id),
            },
    {
        match self.table.get(&id) {
            Some(meta) => Some(meta.get_tx()),
            None => None,
        }
    }

    /// Removes the route of `id` and hands it back; the ID stays used.
    pub fn deregister(&mut self, id: u32) -> (r: Option<R>)
        requires
            old(self).wf(),
        ensures
            final(self).wf(),
            final(self).issued() == old(self).issued(),
            final(self).next_free() == old(self).next_free(),
            final(self).routes() == old(self).routes().remove(id),
            match r {
                Some(route) => old(self).routes().contains_key(id) && route == old(self).routes()[id],
                None => !old(self).routes().contains_key(id),
            },
    {
        let removed = self.table.remove(&id);
        assert(self.routes() =~= old(self).routes().remove(id));
        match removed {
            Some(meta) => Some(meta.into_route()),
            None => None,
        }
    }

    /// The number of registered routes.
    pub fn len(&self) -> (r: usize)
        ensures
            r == self.routes().len(),
    {
        assert(self.routes().dom() =~= self.table@.dom());
        self.table.len()
    }
}

impl<R> ConnectionMeta<R> {
    fn into_route(self) -> (r: R)
        ensures
            r == self.route(),
    {
        self.to_connection_tx
    }
}

/// Every ID that a registry has handed out is distinct from every other and
/// from both sentinels.
pub proof fn lemma_issued_ids_unique<R>(reg: &Registry<R>)
    requires
        reg.wf(),
    ensures
        forall|i: int, j: int|
            0 <= i < j < reg.issued().len() ==> reg.issued()[i] != reg.issued()[j],
        forall|i: int| 0 <= i < reg.issued().len() ==> is_assignable_id(#[trigger] reg.issued()[i]),
{
    assert forall|i: int, j: int| 0 <= i < j < reg.issued().len() implies reg.issued()[i]
        != reg.issued()[j] by {
        assert(reg.issued@[i] == i + 1);
        assert(reg.issued@[j] == j + 1);
    }
    assert forall|i: int| 0 <= i < reg.issued().len() implies is_assignable_id(
        #[trigger] reg.issued()[i],
    ) by {
        assert(reg.issued@[i] == i + 1);
    }
}

} // verus!
