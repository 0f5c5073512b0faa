//! Start-up discovery: which of the compositor's current objects the service keeps.
//!
//! At start-up the service lists the compositor's layers, clients, monitors and
//! workspaces, builds a model for each and starts its monitoring. A listing that
//! fails counts as an empty one, every layer is kept, and a client, monitor or
//! workspace is kept only when its monitoring started; the order of the listing
//! is kept throughout.
use vstd::prelude::*;

verus! {

/// The items of `items` whose flag in `started` is set, in the order in which they came.
pub open spec fn started_only<T>(items: Seq<T>, started: Seq<bool>) -> Seq<T>
    decreases items.len(),
{
    if items.len() == 0 {
        Seq::empty()
    } else {
        let rest = started_only(items.drop_last(), started.take(items.len() - 1));
        if started[items.len() - 1] {
            rest.push(items.last())
        } else {
            rest
        }
    }
}

/// What a listing yields: its items, or none when the listing failed.
pub open spec fn listed_items<T, E>(listing: Result<Vec<T>, E>) -> Seq<T> {
    match listing {
        Ok(items) => items@,
        Err(_) => Seq::empty(),
    }
}

/// The items of a listing, or none when the compositor could not be asked.
pub fn listed_or_none<T, E>(listing: Result<Vec<T>, E>) -> (items: Vec<T>)
    ensures
        items@ == listed_items(listing),
{
    match listing {
        Ok(items) => items,
        Err(_) => Vec::new(),
    }
}

/// Keeps the items whose monitoring started (`started[i]` for `items[i]`),
/// in the order in which they were listed.
pub fn keep_started<T>(items: Vec<T>, started: &Vec<bool>) -> (kept: Vec<T>)
    requires
        items.len() == started.len(),
    ensures
        kept@ == started_only(items@, started@),
{
    let ghost all = items@;
    let mut kept: Vec<T> = Vec::new();
    let mut idx: usize = 0;
    for item in it: items
        invariant
            it.seq() == all,
            idx == it.index(),
            idx <= all.len(),
            all.len() == started.len(),
            kept@ == started_only(all.take(idx as int), started@.take(idx as int)),
    {
        proof {
            let next = all.take(idx + 1);
            assert(next.drop_last() =~= all.take(idx as int));
            assert(started@.take(idx + 1).take(idx as int) =~= started@.take(idx as int));
            assert(next.last() == all[idx as int]);
        }
        if started[idx] {
            kept.push(item);
        }
        idx = idx + 1;
    }
    proof {
        assert(all.take(all.len() as int) =~= all);
        assert(started@.take(started@.len() as int) =~= started@);
    }
    kept
}

/// The objects found at start-up, each kind in the order in which the compositor
/// listed it.
pub struct HyprlandDiscovery<W, C, M, L> {
    pub workspaces: Vec<W>,
    pub clients: Vec<C>,
    pub monitors: Vec<M>,
    pub layers: Vec<L>,
}

impl<W, C, M, L> HyprlandDiscovery<W, C, M, L> {
    /// Assembles the discovery from the listed objects and, for each client,
    /// monitor and workspace, whether its monitoring started: every layer is
    /// kept, the others only where their monitoring started.
    pub fn new(
        layers: Vec<L>,
        clients: Vec<C>,
        clients_started: &Vec<bool>,
        monitors: Vec<M>,
        monitors_started: &Vec<bool>,
        workspaces: Vec<W>,
        workspaces_started: &Vec<bool>,
    ) -> (found: Self)
        requires
            clients.len() == clients_started.len(),
            monitors.len() == monitors_started.len(),
            workspaces.len() == workspaces_started.len(),
        ensures
            found.layers@ == layers@,
            found.clients@ == started_only(clients@, clients_started@),
            found.monitors@ == started_only(monitors@, monitors_started@),
            found.workspaces@ == started_only(workspaces@, workspaces_started@),
    {
        HyprlandDiscovery {
            workspaces: keep_started(workspaces, workspaces_started),
            clients: keep_started(clients, clients_started),
            monitors: keep_started(monitors, monitors_started),
            layers,
        }
    }
}

} // verus!
