//! The services that the daemon runs, and what can be asked of them.
use super::{Service, ServiceView};
use crate::time::Timestamp;
use vstd::prelude::*;

verus! {

/// What a client can ask of one service.
#[derive(Debug, Clone, Copy, PartialEq, Eq, Structural)]
pub enum ServiceThreadCommand {
    Start,
    Stop,
    Remove,
    Status,
    Kill,
}

/// How a service is doing.
#[derive(Debug, Clone, Copy, PartialEq, Eq, Structural)]
pub struct ServiceState {
    /// When the process was started; `None` when there is no live process.
    pub alive_since: Option<Timestamp>,
    pub starts: usize,
    pub explicitly_stopped: bool,
}

impl DeepView for ServiceState {
    type V = ServiceState;

    open spec fn deep_view(&self) -> ServiceState {
        *self
    }
}

/// One service of the daemon, with the number by which the daemon tells it from the others.
#[derive(Debug)]
pub struct ServiceThread {
    pub service: Service,
    pub id: usize,
}

/// The contents of a [`ServiceThread`].
pub struct ServiceThreadView {
    pub service: ServiceView,
    pub id: usize,
}

impl View for ServiceThread {
    type V = ServiceThreadView;

    open spec fn view(&self) -> ServiceThreadView {
        ServiceThreadView { service: self.service@, id: self.id }
    }
}

impl DeepView for ServiceThread {
    type V = ServiceThreadView;

    open spec fn deep_view(&self) -> ServiceThreadView {
        self@
    }
}

/// A list of services, in the order in which they were added.
#[derive(Debug)]
pub struct ServicePool {
    pub threads: Vec<ServiceThread>,
}

impl View for ServicePool {
    type V = Seq<ServiceThreadView>;

    open spec fn view(&self) -> Seq<ServiceThreadView> {
        self.threads.deep_view()
    }
}

/// Gives services their numbers. A process has one counter for all of its pools, so that no two
/// of its services get the same number.
#[derive(Debug)]
pub struct ThreadCounter {
    pub next_id: usize,
}

/// The number behind this one. The numbers start over when they run out.
pub open spec fn number_after(id: usize) -> usize {
    if id == usize::MAX {
        0
    } else {
        (id + 1) as usize
    }
}

impl ThreadCounter {
    /// A counter that has given out no number.
    pub fn new() -> (counter: ThreadCounter)
        ensures
            counter.next_id == 0,
    {
        ThreadCounter { next_id: 0 }
    }

    /// The next number.
    pub fn take(&mut self) -> (id: usize)
        ensures
            id == old(self).next_id,
            final(self).next_id == number_after(id),
    {
        let id: usize = self.next_id;
        self.next_id = if id == usize::MAX {
            0
        } else {
            id + 1
        };
        id
    }
}

/// The services of a pool, and the number that the next service gets.
#[verifier::ext_equal]
pub struct PoolState {
    pub threads: Seq<ServiceThreadView>,
    pub next_id: usize,
}

/// A pool, with a counter beside it.
pub open spec fn pool_state(pool: ServicePool, counter: ThreadCounter) -> PoolState {
    PoolState { threads: pool@, next_id: counter.next_id }
}

/// Whether one of the services has this name.
pub open spec fn has_name(threads: Seq<ServiceThreadView>, name: Seq<char>) -> bool {
    exists|i: int| 0 <= i < threads.len() && (#[trigger] threads[i]).service.name == name
}

/// The position of the service that has this name; of the last one, where several have it.
pub open spec fn position_of(threads: Seq<ServiceThreadView>, name: Seq<char>) -> Option<int>
    decreases threads.len(),
{
    if threads.len() == 0 {
        None
    } else if threads.last().service.name == name {
        Some(threads.len() - 1)
    } else {
        position_of(threads.drop_last(), name)
    }
}

/// The services, without their numbers.
pub open spec fn services_of(threads: Seq<ServiceThreadView>) -> Seq<ServiceView> {
    threads.map_values(|thread: ServiceThreadView| thread.service)
}

/// The services without those of this number.
pub open spec fn without_number(threads: Seq<ServiceThreadView>, id: usize) -> Seq<
    ServiceThreadView,
> {
    threads.filter(|thread: ServiceThreadView| thread.id != id)
}

impl PoolState {
    /// The pool with one more service.
    pub open spec fn added(self, service: ServiceView) -> PoolState {
        PoolState {
            threads: self.threads.push(ServiceThreadView { service, id: self.next_id }),
            next_id: number_after(self.next_id),
        }
    }

    /// The pool with all these services more, in their order.
    pub open spec fn added_all(self, services: Seq<ServiceView>) -> PoolState
        decreases services.len(),
    {
        if services.len() == 0 {
            self
        } else {
            self.added_all(services.drop_last()).added(services.last())
        }
    }

    /// The pool without the services of this number.
    pub open spec fn removed(self, id: usize) -> PoolState {
        PoolState { threads: without_number(self.threads, id), next_id: self.next_id }
    }
}

impl ServiceThread {
    /// Adds a service to the pool and returns its number, which it takes from the counter.
    pub fn add_to(pool: &mut ServicePool, counter: &mut ThreadCounter, service: Service) -> (id:
        usize)
        ensures
            id == old(counter).next_id,
            final(pool)@ == old(pool)@.push(ServiceThreadView { service: service@, id }),
            final(counter).next_id == number_after(id),
            pool_state(*final(pool), *final(counter)) == pool_state(
                *old(pool),
                *old(counter),
            ).added(service@),
    {
        let id: usize = counter.take();
        pool.threads.push(ServiceThread { service, id });
        assert(pool@ =~= old(pool)@.push(ServiceThreadView { service: service@, id }));
        id
    }

    /// A copy of the service.
    pub fn clone_service(&self) -> (service: Service)
        ensures
            service@ == self@.service,
    {
        self.service.clone()
    }
}

impl ServicePool {
    /// A pool without services.
    pub fn new() -> (pool: ServicePool)
        ensures
            pool@ == Seq::<ServiceThreadView>::empty(),
    {
        let pool = ServicePool { threads: Vec::new() };
        assert(pool@ =~= Seq::<ServiceThreadView>::empty());
        pool
    }

    /// Whether one of the services has this name.
    pub fn contains_name(&self, name: &String) -> (found: bool)
        ensures
            found == has_name(self@, name@),
    {
        let mut i: usize = 0;
        while i < self.threads.len()
            invariant
                i <= self.threads.len(),
                forall|j: int|
                    0 <= j < i ==> (#[trigger] self@[j]).service.name != name@,
            decreases self.threads.len() - i,
        {
            if self.threads[i].service.name == *name {
                assert(self@[i as int].service.name == name@);
                return true;
            }
            i += 1;
        }
        false
    }

    /// The position of the service that has this name; of the last one, where several have it.
    pub fn find(&self, name: &String) -> (position: Option<usize>)
        ensures
            match position {
                Some(i) => i < self@.len() && position_of(self@, name@) == Some(
                    i as int,
                ),
                None => position_of(self@, name@) is None,
            },
    {
        let mut position: Option<usize> = None;
        let mut i: usize = 0;
        while i < self.threads.len()
            invariant
                i <= self.threads.len(),
                match position {
                    Some(p) => p < i && position_of(self@.take(i as int), name@) == Some(
                        p as int,
                    ),
                    None => position_of(self@.take(i as int), name@) is None,
                },
            decreases self.threads.len() - i,
        {
            if self.threads[i].service.name == *name {
                position = Some(i);
            }
            i += 1;
            assert(self@.take(i as int).drop_last() =~= self@.take(i - 1));
        }
        assert(self@.take(i as int) =~= self@);
        position
    }

    /// Takes the services of this number out of the pool. The others keep their order.
    pub fn remove(&mut self, id: usize)
        ensures
            final(self)@ == without_number(old(self)@, id),
    {
        let ghost keep = |thread: ServiceThreadView| thread.id != id;
        let ghost all = self@;
        let ghost mut seen: int = 0;
        let mut i: usize = 0;
        assert(all.take(0).filter(keep) =~= Seq::<ServiceThreadView>::empty());
        while i < self.threads.len()
            invariant
                i <= self.threads.len(),
                0 <= seen <= all.len(),
                self.threads.len() - i == all.len() - seen,
                keep == (|thread: ServiceThreadView| thread.id != id),
                all.take(seen).filter(keep) == self@.take(i as int),
                all.skip(seen) == self@.skip(i as int),
            decreases self.threads.len() - i,
        {
            let ghost before = self@;
            proof {
                assert(all.skip(seen)[0] == before.skip(i as int)[0]);
                assert(all[seen] == before[i as int]);
                assert(all.take(seen + 1) =~= all.take(seen).push(all[seen]));
                all.take(seen).lemma_filter_push(all[seen], keep);
            }
            if self.threads[i].id == id {
                let _gone = self.threads.remove(i);
                assert(self@ =~= before.remove(i as int));
                assert(self@.take(i as int) =~= before.take(i as int));
                assert(self@.skip(i as int) =~= before.skip(i + 1));
            } else {
                i += 1;
                assert(self@.take(i as int) =~= before.take(i - 1).push(before[i - 1]));
            }
            proof {
                assert(all.skip(seen + 1) =~= all.skip(seen).skip(1));
                assert(self@.skip(i as int) =~= all.skip(seen + 1)) by {
                    if self@.len() == before.len() {
                        assert(before.skip(i as int) =~= before.skip(i - 1).skip(1));
                    } else {
                        assert(before.skip(i + 1) =~= before.skip(i as int).skip(1));
                    }
                }
                seen = seen + 1;
            }
        }
        assert(all.take(seen) =~= all);
        assert(self@.take(i as int) =~= self@);
    }

    /// Copies of the services, in their order: what is saved for the next run of the daemon.
    pub fn services(&self) -> (services: Vec<Service>)
        ensures
            services.deep_view() == services_of(self@),
    {
        let mut services: Vec<Service> = Vec::new();
        let mut i: usize = 0;
        while i < self.threads.len()
            invariant
                i <= self.threads.len(),
                services.len() == i,
                forall|j: int|
                    0 <= j < i ==> (#[trigger] services[j])@ == self@[j].service,
            decreases self.threads.len() - i,
        {
            services.push(self.threads[i].clone_service());
            i += 1;
        }
        assert(services.deep_view() =~= services_of(self@));
        services
    }

    /// Adds services in their order, such as those that an earlier run of the daemon saved.
    pub fn restore(&mut self, counter: &mut ThreadCounter, services: &Vec<Service>)
        ensures
            pool_state(*final(self), *final(counter)) == pool_state(
                *old(self),
                *old(counter),
            ).added_all(services.deep_view()),
    {
        let ghost list = services.deep_view();
        let mut i: usize = 0;
        assert(list.take(0) =~= Seq::<ServiceView>::empty());
        while i < services.len()
            invariant
                i <= services.len(),
                list == services.deep_view(),
                pool_state(*self, *counter) == pool_state(*old(self), *old(counter)).added_all(
                    list.take(i as int),
                ),
            decreases services.len() - i,
        {
            let _id: usize = ServiceThread::add_to(self, counter, services[i].clone());
            i += 1;
            assert(list.take(i as int).drop_last() =~= list.take(i - 1));
        }
        assert(list.take(i as int) =~= list);
    }
}

} // verus!
