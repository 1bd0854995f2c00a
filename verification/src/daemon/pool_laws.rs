//! What holds of the pool of services as services come and go.
use super::service_threads::{
    has_name, number_after, pool_state, position_of, services_of, without_number, PoolState,
    ServicePool, ServiceThreadView, ThreadCounter,
};
use super::ServiceView;
use vstd::prelude::*;

verus! {

/// Whether no two services have the same number, and the next number is a fresh one.
pub open spec fn numbers_differ(pool: PoolState) -> bool {
    &&& forall|i: int, j: int|
        0 <= i < j < pool.threads.len() ==> (#[trigger] pool.threads[i]).id != (
        #[trigger] pool.threads[j]).id
    &&& forall|i: int| 0 <= i < pool.threads.len() ==> (#[trigger] pool.threads[i]).id < pool.next_id
}

/// Whether no two services have the same name.
pub open spec fn names_differ(pool: PoolState) -> bool {
    forall|i: int, j: int|
        0 <= i < j < pool.threads.len() ==> (#[trigger] pool.threads[i]).service.name != (
        #[trigger] pool.threads[j]).service.name
}

/// All pools of a process, and the number that the next service gets in whichever of them.
#[verifier::ext_equal]
pub struct PoolsState {
    pub pools: Seq<Seq<ServiceThreadView>>,
    pub next_id: usize,
}

impl PoolsState {
    /// One of the pools, with the counter beside it.
    pub open spec fn pool(self, at: int) -> PoolState {
        PoolState { threads: self.pools[at], next_id: self.next_id }
    }

    /// The pools after one of them, or the counter, has changed.
    pub open spec fn with_pool(self, at: int, pool: PoolState) -> PoolsState {
        PoolsState { pools: self.pools.update(at, pool.threads), next_id: pool.next_id }
    }

    /// The pools after a change.
    pub open spec fn after(self, change: PoolChange) -> PoolsState {
        match change {
            PoolChange::Created => PoolsState {
                pools: self.pools.push(Seq::empty()),
                next_id: self.next_id,
            },
            PoolChange::Added { at, service } => self.with_pool(at, self.pool(at).added(service)),
            PoolChange::Removed { at, id } => self.with_pool(at, self.pool(at).removed(id)),
        }
    }
}

/// One thing that happens to the pools of a process.
pub enum PoolChange {
    /// There is one more pool.
    Created,
    /// A service is added to the pool at this position.
    Added { at: int, service: ServiceView },
    /// The services of a number are taken out of the pool at this position.
    Removed { at: int, id: usize },
}

/// The pools after a series of changes.
pub open spec fn changed(pools: PoolsState, changes: Seq<PoolChange>) -> PoolsState
    decreases changes.len(),
{
    if changes.len() == 0 {
        pools
    } else {
        changed(pools, changes.drop_last()).after(changes.last())
    }
}

/// Whether each change of a series concerns a pool that is there.
pub open spec fn possible(pools: PoolsState, changes: Seq<PoolChange>) -> bool
    decreases changes.len(),
{
    changes.len() == 0 || {
        let count = changed(pools, changes.drop_last()).pools.len();
        &&& possible(pools, changes.drop_last())
        &&& match changes.last() {
            PoolChange::Created => true,
            PoolChange::Added { at, .. } => 0 <= at < count,
            PoolChange::Removed { at, .. } => 0 <= at < count,
        }
    }
}

/// How many services were added in a series of changes.
pub open spec fn additions(changes: Seq<PoolChange>) -> nat
    decreases changes.len(),
{
    if changes.len() == 0 {
        0
    } else {
        additions(changes.drop_last()) + if changes.last() is Added {
            1nat
        } else {
            0nat
        }
    }
}

/// Whether no two services have the same number, be they in one pool or in two, and the next
/// number is a fresh one.
pub open spec fn numbers_differ_everywhere(pools: PoolsState) -> bool {
    &&& forall|p: int, i: int, q: int, j: int|
        0 <= p < pools.pools.len() && 0 <= i < pools.pools[p].len() && 0 <= q < pools.pools.len()
            && 0 <= j < pools.pools[q].len() && (p != q || i != j)
            ==> (#[trigger] pools.pools[p][i]).id != (#[trigger] pools.pools[q][j]).id
    &&& forall|p: int, i: int|
        0 <= p < pools.pools.len() && 0 <= i < pools.pools[p].len() ==> (
        #[trigger] pools.pools[p][i]).id < pools.next_id
}

/// Nothing is taken out where no service has the number.
proof fn lemma_nothing_to_remove(threads: Seq<ServiceThreadView>, id: usize)
    requires
        forall|i: int| 0 <= i < threads.len() ==> (#[trigger] threads[i]).id != id,
    ensures
        threads.filter(|thread: ServiceThreadView| thread.id != id) == threads,
    decreases threads.len(),
{
    let keep = |thread: ServiceThreadView| thread.id != id;
    reveal(Seq::filter);
    if threads.len() > 0 {
        let others = threads.drop_last();
        assert forall|i: int| 0 <= i < others.len() implies (#[trigger] others[i]).id != id by {
            assert(others[i] == threads[i]);
        }
        lemma_nothing_to_remove(others, id);
        assert(threads[threads.len() - 1].id != id);
        assert(threads =~= others.push(threads.last()));
    }
}

/// What is left after a removal was there before.
proof fn lemma_left_was_there(threads: Seq<ServiceThreadView>, id: usize, i: int)
    requires
        0 <= i < threads.filter(|thread: ServiceThreadView| thread.id != id).len(),
    ensures
        exists|j: int|
            0 <= j < threads.len() && #[trigger] threads[j] == threads.filter(
                |thread: ServiceThreadView| thread.id != id,
            )[i],
{
    let keep = |thread: ServiceThreadView| thread.id != id;
    let left = threads.filter(keep);
    assert(left.contains(left[i]));
    threads.lemma_filter_contains_rev(keep, left[i]);
}

/// A service that is added gets a number that no other service has.
pub proof fn added_service_has_its_own_number(pool: PoolState, service: ServiceView)
    requires
        numbers_differ(pool),
        pool.next_id < usize::MAX,
    ensures
        numbers_differ(pool.added(service)),
{
}

/// After a removal the services that are left still have different numbers.
pub proof fn removal_keeps_numbers_different(pool: PoolState, id: usize)
    requires
        numbers_differ(pool),
    ensures
        numbers_differ(pool.removed(id)),
    decreases pool.threads.len(),
{
    let keep = |thread: ServiceThreadView| thread.id != id;
    reveal(Seq::filter);
    if pool.threads.len() > 0 {
        let others = PoolState { threads: pool.threads.drop_last(), next_id: pool.next_id };
        removal_keeps_numbers_different(others, id);
        assert forall|i: int| 0 <= i < others.removed(id).threads.len() implies (
        #[trigger] others.removed(id).threads[i]).id != pool.threads.last().id by {
            lemma_left_was_there(others.threads, id, i);
            let j = choose|j: int|
                0 <= j < others.threads.len() && #[trigger] others.threads[j]
                    == others.threads.filter(keep)[i];
            assert(pool.threads[j].id != pool.threads[pool.threads.len() - 1].id);
        }
    }
}

/// A removal takes out exactly the service that has the number, and leaves the others in their
/// order.
pub proof fn removal_takes_out_one(pool: PoolState, position: int)
    requires
        numbers_differ(pool),
        0 <= position < pool.threads.len(),
    ensures
        pool.removed(pool.threads[position].id).threads == pool.threads.remove(position),
{
    let threads = pool.threads;
    let id = threads[position].id;
    let keep = |thread: ServiceThreadView| thread.id != id;
    let front = threads.take(position);
    let back = threads.skip(position + 1);
    assert(threads =~= front.push(threads[position]) + back);
    Seq::filter_distributes_over_add(front.push(threads[position]), back, keep);
    front.lemma_filter_push(threads[position], keep);
    assert forall|i: int| 0 <= i < front.len() implies (#[trigger] front[i]).id != id by {
        assert(front[i] == threads[i]);
    }
    assert forall|i: int| 0 <= i < back.len() implies (#[trigger] back[i]).id != id by {
        assert(back[i] == threads[i + position + 1]);
    }
    lemma_nothing_to_remove(front, id);
    lemma_nothing_to_remove(back, id);
    assert(front + back =~= threads.remove(position));
}

/// A service that is added and then removed leaves the other services as they were.
pub proof fn removal_undoes_addition(pool: PoolState, service: ServiceView)
    requires
        numbers_differ(pool),
    ensures
        pool.added(service).removed(pool.next_id).threads == pool.threads,
{
    let keep = |thread: ServiceThreadView| thread.id != pool.next_id;
    pool.threads.lemma_filter_push(ServiceThreadView { service, id: pool.next_id }, keep);
    lemma_nothing_to_remove(pool.threads, pool.next_id);
}

/// Two services that are added one after the other are both in the pool, though they be the same.
/// The number of the second is the greater one, and a removal of either number takes out that
/// service and leaves the other.
pub proof fn services_are_told_apart_by_number(
    pool: PoolState,
    first: ServiceView,
    second: ServiceView,
)
    requires
        numbers_differ(pool),
        pool.next_id < usize::MAX,
    ensures
        ({
            let both = pool.added(first).added(second);
            let one = ServiceThreadView { service: first, id: pool.next_id };
            let other = ServiceThreadView { service: second, id: pool.added(first).next_id };
            &&& one.id < other.id
            &&& both.threads == pool.threads.push(one).push(other)
            &&& both.removed(one.id).threads == pool.threads.push(other)
            &&& both.removed(other.id).threads == pool.threads.push(one)
        }),
{
    let single = pool.added(first);
    let other = ServiceThreadView { service: second, id: single.next_id };
    added_service_has_its_own_number(pool, first);
    removal_undoes_addition(pool, first);
    removal_undoes_addition(single, second);
    single.threads.lemma_filter_push(other, |thread: ServiceThreadView| thread.id != pool.next_id);
}

/// A service that is added to one of the pools gets a number that no service of any pool has.
pub proof fn added_service_has_its_own_number_everywhere(
    pools: PoolsState,
    at: int,
    service: ServiceView,
)
    requires
        numbers_differ_everywhere(pools),
        0 <= at < pools.pools.len(),
        pools.next_id < usize::MAX,
    ensures
        numbers_differ_everywhere(pools.after(PoolChange::Added { at, service })),
{
}

/// After a removal from one of the pools the services that are left in all of them still have
/// different numbers.
pub proof fn removal_keeps_numbers_different_everywhere(pools: PoolsState, at: int, id: usize)
    requires
        numbers_differ_everywhere(pools),
        0 <= at < pools.pools.len(),
    ensures
        numbers_differ_everywhere(pools.after(PoolChange::Removed { at, id })),
{
    let before = pools.pools;
    let left = pools.after(PoolChange::Removed { at, id }).pools;
    removal_keeps_numbers_different(pools.pool(at), id);
    assert forall|i: int| 0 <= i < left[at].len() implies exists|k: int|
        0 <= k < before[at].len() && #[trigger] before[at][k] == #[trigger] left[at][i] by {
        lemma_left_was_there(before[at], id, i);
    }
    assert forall|p: int, i: int, q: int, j: int|
        0 <= p < left.len() && 0 <= i < left[p].len() && 0 <= q < left.len() && 0 <= j
            < left[q].len() && (p != q || i != j) implies (#[trigger] left[p][i]).id != (
    #[trigger] left[q][j]).id by {
        if p == q && p == at {
            assert(pools.pool(at).removed(id).threads[i].id != pools.pool(at).removed(
                id,
            ).threads[j].id);
        }
    }
}

/// As pools are made, and services come to them and go, each service that is added takes the next
/// number, and none is given back: all services of all pools always have different numbers, as
/// long as the numbers do not run out.
pub proof fn numbers_differ_throughout(pools: PoolsState, changes: Seq<PoolChange>)
    requires
        numbers_differ_everywhere(pools),
        possible(pools, changes),
        pools.next_id + additions(changes) <= usize::MAX,
    ensures
        numbers_differ_everywhere(changed(pools, changes)),
        changed(pools, changes).next_id == pools.next_id + additions(changes),
        forall|at: int|
            0 <= at < changed(pools, changes).pools.len() ==> numbers_differ(
                #[trigger] changed(pools, changes).pool(at),
            ),
    decreases changes.len(),
{
    if changes.len() > 0 {
        let before = changed(pools, changes.drop_last());
        numbers_differ_throughout(pools, changes.drop_last());
        match changes.last() {
            PoolChange::Created => {},
            PoolChange::Added { at, service } => {
                added_service_has_its_own_number_everywhere(before, at, service);
            },
            PoolChange::Removed { at, id } => {
                removal_keeps_numbers_different_everywhere(before, at, id);
            },
        }
    }
}

/// A service that is added gets a greater number than every service that was added to any pool
/// before, also than those that were removed since.
pub proof fn later_service_has_a_greater_number(
    pools: PoolsState,
    at: int,
    earlier: ServiceView,
    changes: Seq<PoolChange>,
    later_at: int,
    later: ServiceView,
)
    requires
        numbers_differ_everywhere(pools),
        0 <= at < pools.pools.len(),
        possible(pools.after(PoolChange::Added { at, service: earlier }), changes),
        0 <= later_at < changed(
            pools.after(PoolChange::Added { at, service: earlier }),
            changes,
        ).pools.len(),
        pools.next_id + 1 + additions(changes) <= usize::MAX,
    ensures
        ({
            let then = pools.after(PoolChange::Added { at, service: earlier });
            let now = changed(then, changes);
            let last = now.after(PoolChange::Added { at: later_at, service: later });
            let id = last.pools[later_at].last().id;
            &&& then.pools[at] == pools.pools[at].push(
                ServiceThreadView { service: earlier, id: pools.next_id },
            )
            &&& last.pools[later_at] == now.pools[later_at].push(
                ServiceThreadView { service: later, id },
            )
            &&& pools.next_id < id
            &&& forall|p: int, i: int|
                0 <= p < now.pools.len() && 0 <= i < now.pools[p].len() ==> (
                #[trigger] now.pools[p][i]).id < id
        }),
{
    let then = pools.after(PoolChange::Added { at, service: earlier });
    added_service_has_its_own_number_everywhere(pools, at, earlier);
    numbers_differ_throughout(then, changes);
}

/// After a removal no service has the number.
pub proof fn removed_service_is_gone(pool: PoolState, id: usize, i: int)
    requires
        0 <= i < pool.removed(id).threads.len(),
    ensures
        pool.removed(id).threads[i].id != id,
{
    pool.threads.lemma_filter_pred(|thread: ServiceThreadView| thread.id != id, i);
}

/// A service of a new name that is added leaves all names different.
pub proof fn new_name_keeps_names_different(pool: PoolState, service: ServiceView)
    requires
        names_differ(pool),
        !has_name(pool.threads, service.name),
    ensures
        names_differ(pool.added(service)),
        has_name(pool.added(service).threads, service.name),
{
    let threads = pool.added(service).threads;
    assert(threads[threads.len() - 1].service.name == service.name);
}

/// After a removal the services that are left still have different names.
pub proof fn removal_keeps_names_different(pool: PoolState, id: usize)
    requires
        names_differ(pool),
    ensures
        names_differ(pool.removed(id)),
    decreases pool.threads.len(),
{
    let keep = |thread: ServiceThreadView| thread.id != id;
    reveal(Seq::filter);
    if pool.threads.len() > 0 {
        let others = PoolState { threads: pool.threads.drop_last(), next_id: pool.next_id };
        removal_keeps_names_different(others, id);
        assert forall|i: int| 0 <= i < others.removed(id).threads.len() implies (
        #[trigger] others.removed(id).threads[i]).service.name
            != pool.threads.last().service.name by {
            lemma_left_was_there(others.threads, id, i);
            let j = choose|j: int|
                0 <= j < others.threads.len() && #[trigger] others.threads[j]
                    == others.threads.filter(keep)[i];
            assert(pool.threads[j].service.name != pool.threads[pool.threads.len()
                - 1].service.name);
        }
    }
}

/// A service is found by its name exactly when there is one of that name. What is found has the
/// name, and no service behind it has.
pub proof fn service_is_found_by_name(threads: Seq<ServiceThreadView>, name: Seq<char>)
    ensures
        position_of(threads, name) is Some <==> has_name(threads, name),
        position_of(threads, name) matches Some(i) ==> {
            &&& 0 <= i < threads.len()
            &&& threads[i].service.name == name
            &&& forall|j: int| i < j < threads.len() ==> (#[trigger] threads[j]).service.name != name
        },
    decreases threads.len(),
{
    if threads.len() > 0 {
        let others = threads.drop_last();
        service_is_found_by_name(others, name);
        assert(threads[threads.len() - 1] == threads.last());
        if has_name(threads, name) && threads.last().service.name != name {
            let i = choose|i: int|
                0 <= i < threads.len() && (#[trigger] threads[i]).service.name == name;
            assert(others[i].service.name == name);
        }
        if has_name(others, name) {
            let i = choose|i: int|
                0 <= i < others.len() && (#[trigger] others[i]).service.name == name;
            assert(threads[i].service.name == name);
        }
        if let Some(i) = position_of(others, name) {
            assert(others[i] == threads[i]);
            assert forall|j: int| i < j < threads.len() && threads.last().service.name
                != name implies (#[trigger] threads[j]).service.name != name by {
                if j < threads.len() - 1 {
                    assert(others[j] == threads[j]);
                }
            }
        }
    }
}

/// Services that are saved and then restored are the same services in the same order, behind
/// those that were there.
pub proof fn restore_brings_back_what_was_saved(
    pool: PoolState,
    services: Seq<ServiceView>,
)
    ensures
        services_of(pool.added_all(services).threads) == services_of(pool.threads) + services,
    decreases services.len(),
{
    let whole = pool.added_all(services);
    if services.len() == 0 {
        assert(services_of(whole.threads) =~= services_of(pool.threads) + services);
    } else {
        restore_brings_back_what_was_saved(pool, services.drop_last());
        let before = pool.added_all(services.drop_last());
        assert(services_of(whole.threads) =~= services_of(before.threads).push(services.last()));
        assert(services =~= services.drop_last().push(services.last()));
        assert(services_of(whole.threads) =~= services_of(pool.threads) + services);
    }
}

/// Restored services have different numbers, as long as the numbers do not run out.
pub proof fn restored_services_have_their_own_numbers(
    pool: PoolState,
    services: Seq<ServiceView>,
)
    requires
        numbers_differ(pool),
        pool.next_id + services.len() <= usize::MAX,
    ensures
        numbers_differ(pool.added_all(services)),
        pool.added_all(services).next_id == pool.next_id + services.len(),
    decreases services.len(),
{
    if services.len() > 0 {
        restored_services_have_their_own_numbers(pool, services.drop_last());
        added_service_has_its_own_number(
            pool.added_all(services.drop_last()),
            services.last(),
        );
    }
}

/// The contents of a pool are its services, each with its number, in their order.
pub proof fn contents_of_a_pool(pool: ServicePool, counter: ThreadCounter)
    ensures
        pool_state(pool, counter).threads == pool@,
        pool_state(pool, counter).next_id == counter.next_id,
        pool@.len() == pool.threads.len(),
        forall|i: int|
            0 <= i < pool.threads.len() ==> {
                &&& (#[trigger] pool@[i]).service == pool.threads[i].service@
                &&& pool@[i].id == pool.threads[i].id
                &&& pool.threads[i]@ == pool@[i]
            },
{
}

/// Numbers are given out in turn. Each is by one greater than the one before; only behind the
/// greatest number comes zero.
pub proof fn numbers_are_given_in_turn(id: usize)
    ensures
        id < usize::MAX ==> number_after(id) == id + 1,
        number_after(usize::MAX) == 0,
{
}

/// An addition puts one service, with the next number, behind all that are there. These stay as
/// they are, whatever their names and numbers.
pub proof fn addition_goes_to_the_end(pool: PoolState, service: ServiceView)
    ensures
        ({
            let after = pool.added(service);
            &&& after.threads.len() == pool.threads.len() + 1
            &&& after.threads.drop_last() == pool.threads
            &&& after.threads.last().service == service
            &&& after.threads.last().id == pool.next_id
            &&& pool.next_id < usize::MAX ==> after.next_id == pool.next_id + 1
            &&& pool.next_id == usize::MAX ==> after.next_id == 0
        }),
{
    assert(pool.added(service).threads.drop_last() =~= pool.threads);
}

/// Services that are added together come behind those that are there, in their order and with
/// numbers that follow each other. Those that were there stay as they are.
pub proof fn additions_keep_their_order(pool: PoolState, services: Seq<ServiceView>)
    ensures
        ({
            let after = pool.added_all(services);
            let count = pool.threads.len();
            &&& after.threads.len() == count + services.len()
            &&& after.threads.take(count as int) == pool.threads
            &&& forall|i: int|
                0 <= i < services.len() ==> (#[trigger] after.threads[count + i]).service
                    == services[i]
            &&& pool.next_id + services.len() <= usize::MAX ==> {
                &&& after.next_id == pool.next_id + services.len()
                &&& forall|i: int|
                    0 <= i < services.len() ==> (#[trigger] after.threads[count + i]).id
                        == pool.next_id + i
            }
        }),
    decreases services.len(),
{
    let after = pool.added_all(services);
    let count = pool.threads.len();
    if services.len() > 0 {
        let before = pool.added_all(services.drop_last());
        additions_keep_their_order(pool, services.drop_last());
        addition_goes_to_the_end(before, services.last());
        assert(after.threads.take(count as int) =~= before.threads.take(count as int));
        assert forall|i: int| 0 <= i < services.len() implies (
        #[trigger] after.threads[count + i]).service == services[i] by {
            if i < services.len() - 1 {
                assert(after.threads[count + i] == before.threads[count + i]);
            }
        }
        if pool.next_id + services.len() <= usize::MAX {
            assert forall|i: int| 0 <= i < services.len() implies (
            #[trigger] after.threads[count + i]).id == pool.next_id + i by {
                if i < services.len() - 1 {
                    assert(after.threads[count + i] == before.threads[count + i]);
                }
            }
        }
    } else {
        assert(after.threads.take(count as int) =~= pool.threads);
    }
}

/// A removal decides of each service by its number alone: of a list that ends in some service, it
/// leaves what it leaves of the others, and behind them that service unless it has the number.
pub proof fn removal_goes_by_the_number(
    threads: Seq<ServiceThreadView>,
    last: ServiceThreadView,
    id: usize,
    next_id: usize,
)
    ensures
        without_number(Seq::empty(), id) == Seq::<ServiceThreadView>::empty(),
        last.id == id ==> without_number(threads.push(last), id) == without_number(threads, id),
        last.id != id ==> without_number(threads.push(last), id) == without_number(
            threads,
            id,
        ).push(last),
        (PoolState { threads, next_id }).removed(id).threads == without_number(threads, id),
        (PoolState { threads, next_id }).removed(id).next_id == next_id,
{
    let keep = |thread: ServiceThreadView| thread.id != id;
    threads.lemma_filter_push(last, keep);
    assert(Seq::<ServiceThreadView>::empty().filter(keep).len() == 0) by {
        reveal(Seq::filter);
    }
}

/// A name is taken exactly when some service has it; the service that is found by it is the last
/// one that has it.
pub proof fn name_is_looked_up_everywhere(threads: Seq<ServiceThreadView>, name: Seq<char>)
    ensures
        has_name(threads, name) <==> !forall|i: int|
            0 <= i < threads.len() ==> (#[trigger] threads[i]).service.name != name,
        position_of(threads, name) is None <==> forall|i: int|
            0 <= i < threads.len() ==> (#[trigger] threads[i]).service.name != name,
        forall|i: int|
            position_of(threads, name) == Some(i) <==> {
                &&& 0 <= i < threads.len()
                &&& (#[trigger] threads[i]).service.name == name
                &&& forall|j: int|
                    i < j < threads.len() ==> (#[trigger] threads[j]).service.name != name
            },
{
    service_is_found_by_name(threads, name);
    if let Some(p) = position_of(threads, name) {
        assert(threads[p].service.name == name);
        assert forall|i: int|
            0 <= i < threads.len() && (#[trigger] threads[i]).service.name == name && (forall|j: int|
                i < j < threads.len() ==> (#[trigger] threads[j]).service.name != name) implies i
            == p by {}
    }
}

/// What is saved of a pool is each of its services, in their order.
pub proof fn every_service_is_saved(threads: Seq<ServiceThreadView>)
    ensures
        services_of(threads).len() == threads.len(),
        forall|i: int|
            0 <= i < threads.len() ==> #[trigger] services_of(threads)[i] == threads[i].service,
{
}

/// To add services together is to add them one after the other.
pub proof fn addition_goes_one_by_one(
    pool: PoolState,
    services: Seq<ServiceView>,
    last: ServiceView,
)
    ensures
        pool.added_all(Seq::empty()) == pool,
        pool.added_all(services.push(last)) == pool.added_all(services).added(last),
{
    assert(services.push(last).drop_last() =~= services);
}

} // verus!
