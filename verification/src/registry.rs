//! The table that leads from a callback identifier to its handler.
//!
//! The native runtime hands out the identifiers; the table only keeps what it
//! is told. It holds one handler under each identifier and never drops one,
//! except to put a newer handler in its place.

use std::collections::HashMap;
use vstd::prelude::*;

verus! {

broadcast use vstd::std_specs::hash::group_hash_axioms;

/// Handlers of type `H`, each under the callback identifier that the native
/// runtime gave it. Its view is the map from identifier to handler.
pub struct Registry<H> {
    handlers: HashMap<usize, H>,
}

impl<H> View for Registry<H> {
    type V = Map<usize, H>;

    closed spec fn view(&self) -> Map<usize, H> {
        self.handlers@
    }
}

/// The handler that `table` holds under `bind_id`, if it holds one.
pub open spec fn resolve<H>(table: Map<usize, H>, bind_id: usize) -> Option<H> {
    if table.contains_key(bind_id) {
        Some(table[bind_id])
    } else {
        None
    }
}

/// The table after the handlers of `bindings` were registered in it, one
/// after the other, each under the identifier that stands beside it.
pub open spec fn register_all<H>(table: Map<usize, H>, bindings: Seq<(usize, H)>) -> Map<usize, H>
    decreases bindings.len(),
{
    if bindings.len() == 0 {
        table
    } else {
        register_all(table, bindings.drop_last()).insert(bindings.last().0, bindings.last().1)
    }
}

/// No two of `bindings` share an identifier.
pub open spec fn distinct_ids<H>(bindings: Seq<(usize, H)>) -> bool {
    forall|i: int, j: int|
        0 <= i < j < bindings.len() ==> (#[trigger] bindings[i]).0 != (#[trigger] bindings[j]).0
}

impl<H> Registry<H> {
    /// A table without handlers.
    pub fn new() -> (registry: Self)
        ensures
            registry@ == Map::<usize, H>::empty(),
    {
        Registry { handlers: HashMap::new() }
    }

    /// Puts `handler` under `bind_id` and leaves every other identifier as it
    /// was. Returns the handler that stood under `bind_id` before, if there
    /// was one: `None` says that the identifier was new to the table.
    pub fn register(&mut self, bind_id: usize, handler: H) -> (displaced: Option<H>)
        ensures
            final(self)@ == old(self)@.insert(bind_id, handler),
            displaced == resolve(old(self)@, bind_id),
    {
        self.handlers.insert(bind_id, handler)
    }

    /// The handler under `bind_id`, if the table holds one.
    pub fn lookup(&self, bind_id: usize) -> (found: Option<&H>)
        ensures
            match found {
                Some(handler) => resolve(self@, bind_id) == Some(*handler),
                None => resolve(self@, bind_id) is None,
            },
    {
        self.handlers.get(&bind_id)
    }

    /// Whether the table holds a handler under `bind_id`.
    pub fn contains(&self, bind_id: usize) -> (held: bool)
        ensures
            held == self@.contains_key(bind_id),
    {
        self.handlers.contains_key(&bind_id)
    }

    /// The number of identifiers that have a handler.
    pub fn len(&self) -> (n: usize)
        ensures
            n == self@.len(),
            self@.dom().finite(),
    {
        self.handlers.len()
    }

    /// Whether no identifier has a handler.
    pub fn is_empty(&self) -> (empty: bool)
        ensures
            empty == (self@.len() == 0),
            self@.dom().finite(),
    {
        self.handlers.len() == 0
    }
}

/// A registration is seen by the next lookup: the identifier leads to the new
/// handler, to that one alone, and whatever else the table held is still
/// there, under the identifier it had.
pub proof fn registered_is_resolved<H>(table: Map<usize, H>, bind_id: usize, handler: H)
    ensures
        resolve(table.insert(bind_id, handler), bind_id) == Some(handler),
        forall|other: usize|
            other != bind_id ==> #[trigger] resolve(table.insert(bind_id, handler), other)
                == resolve(table, other),
        table.insert(bind_id, handler).dom() == table.dom().insert(bind_id),
{
}

/// An identifier that was new to a finite table makes it larger by one; one
/// that the table knew leaves its size as it was.
pub proof fn registered_counts_once<H>(table: Map<usize, H>, bind_id: usize, handler: H)
    requires
        table.dom().finite(),
    ensures
        table.insert(bind_id, handler).dom().finite(),
        !table.contains_key(bind_id) ==> table.insert(bind_id, handler).len() == table.len() + 1,
        table.contains_key(bind_id) ==> table.insert(bind_id, handler).len() == table.len(),
{
    assert(table.insert(bind_id, handler).dom() == table.dom().insert(bind_id));
    if table.contains_key(bind_id) {
        assert(table.dom().insert(bind_id) == table.dom());
    }
}

/// Registrations do not lose entries: what the table held under an
/// identifier that none of `bindings` uses is still there.
pub proof fn registrations_keep_others<H>(
    table: Map<usize, H>,
    bindings: Seq<(usize, H)>,
    bind_id: usize,
)
    requires
        forall|i: int| 0 <= i < bindings.len() ==> (#[trigger] bindings[i]).0 != bind_id,
    ensures
        resolve(register_all(table, bindings), bind_id) == resolve(table, bind_id),
    decreases bindings.len(),
{
    if bindings.len() > 0 {
        let earlier = bindings.drop_last();
        assert forall|i: int| 0 <= i < earlier.len() implies (#[trigger] earlier[i]).0
            != bind_id by {
            assert(earlier[i] == bindings[i]);
        }
        registrations_keep_others(table, earlier, bind_id);
        assert(bindings.last() == bindings[bindings.len() - 1]);
    }
}

/// Registrations under distinct identifiers all take effect: each of them is
/// resolved to its own handler afterwards.
pub proof fn distinct_registrations_all_resolve<H>(
    table: Map<usize, H>,
    bindings: Seq<(usize, H)>,
    k: int,
)
    requires
        distinct_ids(bindings),
        0 <= k < bindings.len(),
    ensures
        resolve(register_all(table, bindings), bindings[k].0) == Some(bindings[k].1),
    decreases bindings.len(),
{
    let earlier = bindings.drop_last();
    if k == bindings.len() - 1 {
        assert(bindings.last() == bindings[k]);
    } else {
        assert forall|i: int, j: int| 0 <= i < j < earlier.len() implies (#[trigger] earlier[i]).0
            != (#[trigger] earlier[j]).0 by {
            assert(earlier[i] == bindings[i]);
            assert(earlier[j] == bindings[j]);
        }
        distinct_registrations_all_resolve(table, earlier, k);
        assert(earlier[k] == bindings[k]);
        assert(bindings.last() == bindings[bindings.len() - 1]);
    }
}

/// Registrations under distinct identifiers that are all new to a finite
/// table make it larger by their number.
pub proof fn distinct_registrations_count<H>(table: Map<usize, H>, bindings: Seq<(usize, H)>)
    requires
        table.dom().finite(),
        distinct_ids(bindings),
        forall|i: int| 0 <= i < bindings.len() ==> !table.contains_key((#[trigger] bindings[i]).0),
    ensures
        register_all(table, bindings).dom().finite(),
        register_all(table, bindings).len() == table.len() + bindings.len(),
    decreases bindings.len(),
{
    if bindings.len() > 0 {
        let earlier = bindings.drop_last();
        let last = bindings.last();
        assert(last == bindings[bindings.len() - 1]);
        assert forall|i: int, j: int| 0 <= i < j < earlier.len() implies (#[trigger] earlier[i]).0
            != (#[trigger] earlier[j]).0 by {
            assert(earlier[i] == bindings[i]);
            assert(earlier[j] == bindings[j]);
        }
        assert forall|i: int| 0 <= i < earlier.len() implies !table.contains_key(
            (#[trigger] earlier[i]).0,
        ) by {
            assert(earlier[i] == bindings[i]);
        }
        distinct_registrations_count(table, earlier);
        assert forall|i: int| 0 <= i < earlier.len() implies (#[trigger] earlier[i]).0
            != last.0 by {
            assert(earlier[i] == bindings[i]);
        }
        registrations_keep_others(table, earlier, last.0);
        registered_counts_once(register_all(table, earlier), last.0, last.1);
    }
}

} // verus!
