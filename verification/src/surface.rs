//! Which surface is which: the registry that leads from the object id of a
//! surface to the identity under which the application knows it.
//!
//! A surface is entered when it is created and retired when the compositor
//! announces its end. A retired surface is kept as a tombstone, because the
//! event that closes it arrives after it was retired. The tombstone goes when
//! the caller evicts it, and at the latest when the compositor hands the same
//! object id out again: from then on no event can mean the old surface.

use vstd::prelude::*;
use std::collections::HashMap;
use crate::handle::ObjectId;
use crate::handle::SurfaceId;

verus! {

/// The identity of a surface: the role it plays, and its id in the
/// application.
#[derive(Debug, Clone, Copy, PartialEq, Eq, Hash, Structural)]
pub enum SurfaceIdentity {
    /// A window.
    Window(SurfaceId),
    /// A popup.
    Popup(SurfaceId),
    /// A surface of the layer shell.
    LayerSurface(SurfaceId),
    /// A surface that covers an output while the session is locked.
    SessionLock(SurfaceId),
    /// The icon of a drag.
    DragIcon(SurfaceId),
}

impl SurfaceIdentity {
    /// The id in the application, whatever the role.
    pub open spec fn spec_inner(&self) -> SurfaceId {
        match *self {
            SurfaceIdentity::Window(id) => id,
            SurfaceIdentity::Popup(id) => id,
            SurfaceIdentity::LayerSurface(id) => id,
            SurfaceIdentity::SessionLock(id) => id,
            SurfaceIdentity::DragIcon(id) => id,
        }
    }

    /// The id in the application, whatever the role.
    #[verifier::when_used_as_spec(spec_inner)]
    pub fn inner(&self) -> (id: SurfaceId)
        ensures
            id == self.spec_inner(),
    {
        match *self {
            SurfaceIdentity::Window(id) => id,
            SurfaceIdentity::Popup(id) => id,
            SurfaceIdentity::LayerSurface(id) => id,
            SurfaceIdentity::SessionLock(id) => id,
            SurfaceIdentity::DragIcon(id) => id,
        }
    }
}

/// What a map says of a handle.
pub open spec fn resolve(
    surfaces: Map<ObjectId, SurfaceIdentity>,
    handle: ObjectId,
) -> Option<SurfaceIdentity> {
    if surfaces.contains_key(handle) {
        Some(surfaces[handle])
    } else {
        None
    }
}

/// Looks a handle up in a map of surfaces.
pub fn lookup(surfaces: &HashMap<ObjectId, SurfaceIdentity>, handle: ObjectId) -> (found: Option<
    SurfaceIdentity,
>)
    ensures
        found == resolve(surfaces@, handle),
{
    broadcast use vstd::std_specs::hash::group_hash_axioms;

    match surfaces.get(&handle) {
        Some(identity) => Some(*identity),
        None => None,
    }
}

/// The registry as two maps: the surfaces that live, and the tombstones.
pub ghost struct RegistryView {
    /// The surfaces that live.
    pub live: Map<ObjectId, SurfaceIdentity>,
    /// The surfaces that were retired and are still remembered.
    pub destroyed: Map<ObjectId, SurfaceIdentity>,
}

impl RegistryView {
    /// No handle is both alive and a tombstone.
    pub open spec fn well_formed(self) -> bool {
        forall|handle: ObjectId|
            !(#[trigger] self.live.contains_key(handle) && self.destroyed.contains_key(handle))
    }

    /// The registry without any surface.
    pub open spec fn empty() -> RegistryView {
        RegistryView { live: Map::empty(), destroyed: Map::empty() }
    }

    /// The identity of a living surface.
    pub open spec fn resolve_live(self, handle: ObjectId) -> Option<SurfaceIdentity> {
        resolve(self.live, handle)
    }

    /// The identity of a retired surface.
    pub open spec fn resolve_destroyed(self, handle: ObjectId) -> Option<SurfaceIdentity> {
        resolve(self.destroyed, handle)
    }

    /// Whether the handle can be entered with the identity: it is free, or it
    /// has that identity already.
    pub open spec fn accepts(self, handle: ObjectId, identity: SurfaceIdentity) -> bool {
        self.live.contains_key(handle) ==> self.live[handle] == identity
    }

    /// The registry after the handle was entered; a handle that lives under
    /// another identity keeps it, and nothing changes.
    pub open spec fn register(self, handle: ObjectId, identity: SurfaceIdentity) -> RegistryView {
        if self.accepts(handle, identity) {
            RegistryView {
                live: self.live.insert(handle, identity),
                destroyed: self.destroyed.remove(handle),
            }
        } else {
            self
        }
    }

    /// The registry after the handle was retired; a handle that does not
    /// live changes nothing.
    pub open spec fn retire(self, handle: ObjectId) -> RegistryView {
        if self.live.contains_key(handle) {
            RegistryView {
                live: self.live.remove(handle),
                destroyed: self.destroyed.insert(handle, self.live[handle]),
            }
        } else {
            self
        }
    }

    /// The registry after the tombstone of the handle was dropped.
    pub open spec fn evict(self, handle: ObjectId) -> RegistryView {
        RegistryView { live: self.live, destroyed: self.destroyed.remove(handle) }
    }

    /// The registry after all tombstones were dropped.
    pub open spec fn reconcile(self) -> RegistryView {
        RegistryView { live: self.live, destroyed: Map::empty() }
    }
}

/// The registry of surfaces.
pub struct SurfaceRegistry {
    live: HashMap<ObjectId, SurfaceIdentity>,
    destroyed: HashMap<ObjectId, SurfaceIdentity>,
}

impl View for SurfaceRegistry {
    type V = RegistryView;

    closed spec fn view(&self) -> RegistryView {
        RegistryView { live: self.live@, destroyed: self.destroyed@ }
    }
}

impl SurfaceRegistry {
    /// No handle is both alive and a tombstone.
    pub open spec fn well_formed(&self) -> bool {
        self@.well_formed()
    }

    /// A registry without any surface.
    pub fn new() -> (registry: SurfaceRegistry)
        ensures
            registry@ == RegistryView::empty(),
            registry.well_formed(),
    {
        SurfaceRegistry { live: HashMap::new(), destroyed: HashMap::new() }
    }

    /// Enters a surface under its handle and tells whether it was taken.
    ///
    /// A handle that lives under another identity is not taken, and the
    /// registry stays as it is. A handle that lives under the same identity is
    /// taken again without effect. A tombstone under the handle is dropped.
    pub fn register(&mut self, handle: ObjectId, identity: SurfaceIdentity) -> (accepted: bool)
        requires
            old(self).well_formed(),
        ensures
            accepted == old(self)@.accepts(handle, identity),
            final(self)@ == old(self)@.register(handle, identity),
            final(self).well_formed(),
    {
        broadcast use vstd::std_specs::hash::group_hash_axioms;

        let held = lookup(&self.live, handle);
        let accepted = match held {
            Some(other) => other == identity,
            None => true,
        };
        if accepted {
            self.live.insert(handle, identity);
            self.destroyed.remove(&handle);
        }
        accepted
    }

    /// The identity of a living surface, if the handle names one.
    pub fn resolve_live(&self, handle: ObjectId) -> (identity: Option<SurfaceIdentity>)
        ensures
            identity == self@.resolve_live(handle),
    {
        lookup(&self.live, handle)
    }

    /// The identity of a retired surface, if the handle names one.
    pub fn resolve_destroyed(&self, handle: ObjectId) -> (identity: Option<SurfaceIdentity>)
        ensures
            identity == self@.resolve_destroyed(handle),
    {
        lookup(&self.destroyed, handle)
    }

    /// Moves a surface from the living to the tombstones, in one step, and
    /// returns its identity. A handle that does not live changes nothing.
    pub fn retire(&mut self, handle: ObjectId) -> (retired: Option<SurfaceIdentity>)
        requires
            old(self).well_formed(),
        ensures
            retired == old(self)@.resolve_live(handle),
            final(self)@ == old(self)@.retire(handle),
            final(self).well_formed(),
    {
        broadcast use vstd::std_specs::hash::group_hash_axioms;

        match self.live.remove(&handle) {
            Some(identity) => {
                self.destroyed.insert(handle, identity);
                Some(identity)
            },
            None => {
                assert(self.live@ =~= old(self).live@);
                None
            },
        }
    }

    /// Drops the tombstone of a handle and returns the identity it held.
    pub fn evict(&mut self, handle: ObjectId) -> (evicted: Option<SurfaceIdentity>)
        requires
            old(self).well_formed(),
        ensures
            evicted == old(self)@.resolve_destroyed(handle),
            final(self)@ == old(self)@.evict(handle),
            final(self).well_formed(),
    {
        broadcast use vstd::std_specs::hash::group_hash_axioms;

        self.destroyed.remove(&handle)
    }

    /// Drops all tombstones.
    pub fn reconcile(&mut self)
        requires
            old(self).well_formed(),
        ensures
            final(self)@ == old(self)@.reconcile(),
            final(self).well_formed(),
    {
        self.destroyed.clear();
    }

    /// The map of the living surfaces.
    pub fn live(&self) -> (surfaces: &HashMap<ObjectId, SurfaceIdentity>)
        ensures
            surfaces@ == self@.live,
    {
        &self.live
    }

    /// The map of the tombstones.
    pub fn destroyed(&self) -> (surfaces: &HashMap<ObjectId, SurfaceIdentity>)
        ensures
            surfaces@ == self@.destroyed,
    {
        &self.destroyed
    }
}

/// One change of the registry.
pub ghost enum RegistryChange {
    /// A surface is entered.
    Register(ObjectId, SurfaceIdentity),
    /// A surface is retired.
    Retire(ObjectId),
    /// A tombstone is dropped.
    Evict(ObjectId),
    /// All tombstones are dropped.
    Reconcile,
}

impl RegistryView {
    /// The registry after one change.
    pub open spec fn apply(self, change: RegistryChange) -> RegistryView {
        match change {
            RegistryChange::Register(handle, identity) => self.register(handle, identity),
            RegistryChange::Retire(handle) => self.retire(handle),
            RegistryChange::Evict(handle) => self.evict(handle),
            RegistryChange::Reconcile => self.reconcile(),
        }
    }

    /// The registry after a sequence of changes, the first of them first.
    pub open spec fn apply_all(self, changes: Seq<RegistryChange>) -> RegistryView
        decreases changes.len(),
    {
        if changes.len() == 0 {
            self
        } else {
            self.apply(changes[0]).apply_all(changes.skip(1))
        }
    }
}

/// Whether none of the changes retires the handle.
pub open spec fn never_retires(changes: Seq<RegistryChange>, handle: ObjectId) -> bool {
    forall|i: int| 0 <= i < changes.len() ==> changes[i] != RegistryChange::Retire(handle)
}

/// Whether none of the changes drops tombstones of the handle or enters the
/// handle anew.
pub open spec fn keeps_tombstone(changes: Seq<RegistryChange>, handle: ObjectId) -> bool {
    forall|i: int|
        0 <= i < changes.len() ==> {
            &&& changes[i] != RegistryChange::Evict(handle)
            &&& changes[i] != RegistryChange::Reconcile
            &&& !(changes[i] matches RegistryChange::Register(h, _) && h == handle)
        }
}

/// Every change keeps the living and the tombstones apart.
pub proof fn lemma_changes_keep_well_formed(registry: RegistryView, changes: Seq<RegistryChange>)
    requires
        registry.well_formed(),
    ensures
        registry.apply_all(changes).well_formed(),
    decreases changes.len(),
{
    if changes.len() > 0 {
        lemma_changes_keep_well_formed(registry.apply(changes[0]), changes.skip(1));
    }
}

/// A handle that was entered resolves to its identity until it is retired:
/// whatever else is entered, retired or dropped in between, the living
/// registry gives the identity under which the handle was taken.
pub proof fn lemma_registered_until_retired(
    registry: RegistryView,
    handle: ObjectId,
    identity: SurfaceIdentity,
    changes: Seq<RegistryChange>,
)
    requires
        registry.accepts(handle, identity),
        never_retires(changes, handle),
    ensures
        registry.register(handle, identity).apply_all(changes).resolve_live(handle) == Some(
            identity,
        ),
{
    lemma_live_until_retired(registry.register(handle, identity), handle, changes);
}

/// A living handle keeps its identity through changes that do not retire it.
pub proof fn lemma_live_until_retired(
    registry: RegistryView,
    handle: ObjectId,
    changes: Seq<RegistryChange>,
)
    requires
        registry.live.contains_key(handle),
        never_retires(changes, handle),
    ensures
        registry.apply_all(changes).resolve_live(handle) == registry.resolve_live(handle),
    decreases changes.len(),
{
    if changes.len() > 0 {
        let next = registry.apply(changes[0]);
        assert(changes[0] != RegistryChange::Retire(handle));
        assert(next.resolve_live(handle) == registry.resolve_live(handle));
        assert forall|i: int| 0 <= i < changes.skip(1).len() implies changes.skip(1)[i]
            != RegistryChange::Retire(handle) by {
            assert(changes.skip(1)[i] == changes[i + 1]);
        }
        lemma_live_until_retired(next, handle, changes.skip(1));
    }
}

/// Once a living handle is retired, the living registry no longer knows it
/// and the tombstones give the identity it had.
pub proof fn lemma_retired_is_remembered(registry: RegistryView, handle: ObjectId)
    requires
        registry.live.contains_key(handle),
    ensures
        registry.retire(handle).resolve_live(handle) is None,
        registry.retire(handle).resolve_destroyed(handle) == registry.resolve_live(handle),
{
}

/// A retired handle stays retired: as long as it is not entered anew and its
/// tombstone is not dropped, the living registry does not know it and the
/// tombstones give its identity.
pub proof fn lemma_tombstone_stays(
    registry: RegistryView,
    handle: ObjectId,
    changes: Seq<RegistryChange>,
)
    requires
        registry.well_formed(),
        registry.destroyed.contains_key(handle),
        keeps_tombstone(changes, handle),
    ensures
        registry.apply_all(changes).resolve_live(handle) is None,
        registry.apply_all(changes).resolve_destroyed(handle) == registry.resolve_destroyed(
            handle,
        ),
    decreases changes.len(),
{
    if changes.len() > 0 {
        let next = registry.apply(changes[0]);
        assert(changes[0] != RegistryChange::Evict(handle));
        assert(changes[0] != RegistryChange::Reconcile);
        assert(!(changes[0] matches RegistryChange::Register(h, _) && h == handle));
        assert(!registry.live.contains_key(handle));
        assert(next.destroyed.contains_key(handle));
        assert(next.resolve_destroyed(handle) == registry.resolve_destroyed(handle));
        lemma_changes_keep_well_formed(registry, seq![changes[0]]);
        assert(registry.apply_all(seq![changes[0]]) == next) by {
            assert(seq![changes[0]].skip(1).len() == 0);
            reveal_with_fuel(RegistryView::apply_all, 2);
        }
        assert forall|i: int| 0 <= i < changes.skip(1).len() implies {
            &&& changes.skip(1)[i] != RegistryChange::Evict(handle)
            &&& changes.skip(1)[i] != RegistryChange::Reconcile
            &&& !(changes.skip(1)[i] matches RegistryChange::Register(h, _) && h == handle)
        } by {
            assert(changes.skip(1)[i] == changes[i + 1]);
        }
        lemma_tombstone_stays(next, handle, changes.skip(1));
    }
}

/// What is done to one handle leaves every other handle as it was.
pub proof fn lemma_other_handles_untouched(
    registry: RegistryView,
    handle: ObjectId,
    other: ObjectId,
    identity: SurfaceIdentity,
)
    requires
        handle != other,
    ensures
        registry.register(other, identity).resolve_live(handle) == registry.resolve_live(handle),
        registry.register(other, identity).resolve_destroyed(handle) == registry.resolve_destroyed(
            handle,
        ),
        registry.retire(other).resolve_live(handle) == registry.resolve_live(handle),
        registry.retire(other).resolve_destroyed(handle) == registry.resolve_destroyed(handle),
        registry.evict(other).resolve_live(handle) == registry.resolve_live(handle),
        registry.evict(other).resolve_destroyed(handle) == registry.resolve_destroyed(handle),
{
}

} // verus!
