//! How many strong references the adapters hold.
//!
//! The foreign runtime counts the references to an object; the native side
//! owes it one acquisition for each adapter that comes to be and one
//! release for each that is dropped. Here the adapters alive at one moment
//! are a sequence, and the references they hold to an object are the
//! adapters of that object among them.

use vstd::prelude::*;
use crate::error::BridgeLayerError;
use crate::listener::JniChatListener;

verus! {

/// The number of strong references that `holders` keep to `object`: one for
/// each adapter of that object.
pub open spec fn strong_references(holders: Seq<JniChatListener>, object: u64) -> nat
    decreases holders.len(),
{
    if holders.len() == 0 {
        0
    } else {
        let held: nat = if holders.last().spec_target() == object {
            1
        } else {
            0
        };
        strong_references(holders.drop_last(), object) + held
    }
}

/// The adapters alive after an attempt to construct one.
pub open spec fn after_construction(
    holders: Seq<JniChatListener>,
    made: Result<JniChatListener, BridgeLayerError>,
) -> Seq<JniChatListener> {
    match made {
        Ok(adapter) => holders.push(adapter),
        Err(_) => holders,
    }
}

/// `count` adapters that are all clones of `adapter`, itself included.
pub open spec fn clones_of(adapter: JniChatListener, count: nat) -> Seq<JniChatListener> {
    Seq::new(count, |i: int| adapter)
}

/// A construction that fails keeps no reference: the count of every object
/// is what it was.
pub proof fn lemma_failed_construction_holds_nothing(
    holders: Seq<JniChatListener>,
    made: Result<JniChatListener, BridgeLayerError>,
    object: u64,
)
    requires
        made is Err,
    ensures
        strong_references(after_construction(holders, made), object) == strong_references(holders, object),
{
}

/// An adapter that comes to be, by construction or by `clone`, holds
/// exactly one more reference to its own object and none to any other.
pub proof fn lemma_new_adapter_acquires_one(holders: Seq<JniChatListener>, adapter: JniChatListener, object: u64)
    ensures
        strong_references(holders.push(adapter), object) == strong_references(holders, object) + (if object
            == adapter.spec_target() {
            1nat
        } else {
            0nat
        }),
{
    assert(holders.push(adapter).drop_last() =~= holders);
}

/// Dropping an adapter releases exactly one reference to its own object
/// and none to any other.
pub proof fn lemma_dropped_adapter_releases_one(holders: Seq<JniChatListener>, at: int, object: u64)
    requires
        0 <= at < holders.len(),
    ensures
        strong_references(holders.remove(at), object) + (if object == holders[at].spec_target() {
            1nat
        } else {
            0nat
        }) == strong_references(holders, object),
    decreases holders.len(),
{
    if at == holders.len() - 1 {
        assert(holders.remove(at) =~= holders.drop_last());
    } else {
        let rest = holders.remove(at);
        assert(rest.drop_last() =~= holders.drop_last().remove(at));
        assert(rest.last() == holders.last());
        lemma_dropped_adapter_releases_one(holders.drop_last(), at, object);
    }
}

/// An adapter and its clones, `count` in all, hold `count` references to
/// their object between them.
pub proof fn lemma_clones_hold_one_each(holders: Seq<JniChatListener>, adapter: JniChatListener, count: nat)
    ensures
        strong_references(holders + clones_of(adapter, count), adapter.spec_target()) == strong_references(
            holders,
            adapter.spec_target(),
        ) + count,
    decreases count,
{
    if count == 0 {
        assert(holders + clones_of(adapter, count) =~= holders);
    } else {
        let fewer = (count - 1) as nat;
        lemma_clones_hold_one_each(holders, adapter, fewer);
        assert(holders + clones_of(adapter, count) =~= (holders + clones_of(adapter, fewer)).push(adapter));
        lemma_new_adapter_acquires_one(holders + clones_of(adapter, fewer), adapter, adapter.spec_target());
    }
}

/// Acquisitions and releases are paired: an adapter and its `clones` clones
/// add one reference each to what their object had before, and once all of
/// them have been dropped the object is referenced as often as before the
/// adapter was constructed.
pub proof fn lemma_references_balance(holders: Seq<JniChatListener>, adapter: JniChatListener, clones: nat)
    ensures
        ({
            let object = adapter.spec_target();
            let alive = holders + clones_of(adapter, clones + 1);
            let left = alive.take(alive.len() - (clones + 1));
            &&& strong_references(alive, object) == strong_references(holders, object) + clones + 1
            &&& left == holders
            &&& strong_references(left, object) == strong_references(holders, object)
        }),
{
    lemma_clones_hold_one_each(holders, adapter, clones + 1);
    let alive = holders + clones_of(adapter, clones + 1);
    assert(alive.take(alive.len() - (clones + 1)) =~= holders);
}

} // verus!
