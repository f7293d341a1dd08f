//! The memoized descriptor registry.
//!
//! A [`Registry`] maps stable identities to descriptors and hands out one
//! canonical descriptor per identity: the first registration under an
//! identity is kept, and every later query returns that stored value
//! unchanged. [`TypeInfo::of`] and [`TypeInfo::of_val`] are the query entry
//! points: on a miss they build the descriptor through the type's
//! [`TypeInfoProvider`] implementation and cache it; on a hit they return
//! the cached value and leave the registry untouched. Lookup and
//! construction are total: they cannot fail.
//!
//! The registry is a value. A caller that shares one registry between
//! threads wraps it in a reader/writer lock and re-checks under the
//! exclusive section by calling these same re-checking operations, so a
//! racing build is wasted work, never a second canonical descriptor.

use vstd::prelude::*;
use vstd::hash_map::HashMapWithView;
use crate::provider::TypeInfoProvider;
use crate::type_info::TypeInfo;

verus! {

broadcast use vstd::std_specs::hash::group_hash_axioms;

/// The memoized map from stable identity to canonical descriptor.
pub struct Registry {
    map: HashMapWithView<u64, TypeInfo>,
}

impl View for Registry {
    type V = Map<u64, TypeInfo>;

    closed spec fn view(&self) -> Map<u64, TypeInfo> {
        self.map@
    }
}

impl Registry {
    /// A registry stores every descriptor under the descriptor's own stable
    /// identity.
    pub open spec fn wf(&self) -> bool {
        forall|k: u64| #[trigger] self@.contains_key(k) ==> self@[k].type_id_spec() == k
    }

    /// An empty registry.
    pub fn new() -> (r: Registry)
        ensures
            r@ == Map::<u64, TypeInfo>::empty(),
            r.wf(),
    {
        Registry { map: HashMapWithView::new() }
    }

    /// Whether a descriptor is cached under `id`.
    pub fn contains(&self, id: u64) -> (r: bool)
        ensures
            r == self@.contains_key(id),
    {
        self.map.contains_key(&id)
    }

    /// The cached descriptor under `id`, when there is one.
    pub fn lookup(&self, id: u64) -> (r: Option<&TypeInfo>)
        ensures
            match r {
                Some(info) => self@.contains_key(id) && *info == self@[id],
                None => !self@.contains_key(id),
            },
    {
        self.map.get(&id)
    }

    /// Register a descriptor under its own stable identity. The first
    /// registration under an identity wins: when the identity is already
    /// cached, the registry is unchanged.
    pub fn register(&mut self, info: TypeInfo)
        requires
            old(self).wf(),
        ensures
            final(self).wf(),
            final(self)@.contains_key(info.type_id_spec()),
            old(self)@.contains_key(info.type_id_spec()) ==> final(self)@ == old(self)@,
            !old(self)@.contains_key(info.type_id_spec()) ==> final(self)@ == old(self)@.insert(
                info.type_id_spec(),
                info,
            ),
    {
        let id = info.type_id();
        if !self.map.contains_key(&id) {
            self.map.insert(id, info);
            proof {
                assert forall|k: u64| #[trigger] self@.contains_key(k) implies self@[k].type_id_spec()
                    == k by {
                    if k != id {
                        assert(old(self)@.contains_key(k));
                    }
                }
            }
        }
    }

    /// The cached descriptor under `key`, building and caching one with
    /// `default` when the key is missing. The caller's builder must produce
    /// a descriptor whose stable identity is `key`; the first stored value
    /// per key is retained thereafter.
    pub fn get_or_insert_with<F: FnOnce() -> TypeInfo>(&mut self, key: u64, default: F) -> (r:
        &TypeInfo)
        requires
            old(self).wf(),
            call_requires(default, ()),
            forall|v: TypeInfo| call_ensures(default, (), v) ==> v.type_id_spec() == key,
        ensures
            final(self).wf(),
            final(self)@.contains_key(key),
            *r == final(self)@[key],
            old(self)@.contains_key(key) ==> final(self)@ == old(self)@ && *r == old(self)@[key],
            !old(self)@.contains_key(key) ==> final(self)@ == old(self)@.insert(key, *r)
                && call_ensures(default, (), *r),
    {
        if !self.map.contains_key(&key) {
            let built = default();
            self.map.insert(key, built);
        }
        let looked_up = self.map.get(&key);
        looked_up.unwrap()
    }
}

/// What one query for the identity `id` guarantees, over the registry's map
/// before (`pre`) and after (`post`) the query and the returned descriptor
/// `info`: the result is the canonical stored value for `id`; a hit leaves
/// the registry untouched and returns the stored value; a miss stores
/// exactly the returned descriptor; and no stored descriptor is ever
/// replaced or dropped.
pub open spec fn of_post(
    pre: Map<u64, TypeInfo>,
    post: Map<u64, TypeInfo>,
    id: u64,
    info: TypeInfo,
) -> bool {
    &&& post.contains_key(id)
    &&& info == post[id]
    &&& pre.contains_key(id) ==> post == pre && info == pre[id]
    &&& !pre.contains_key(id) ==> post == pre.insert(id, info)
    &&& forall|k: u64| #[trigger] pre.contains_key(k) ==> post.contains_key(k) && post[k] == pre[k]
}

impl TypeInfo {
    /// The canonical descriptor of the type `T`.
    ///
    /// On the first query for `T` the descriptor is built through `T`'s
    /// [`TypeInfoProvider`] implementation and cached under `T`'s stable
    /// identity; every later query returns that cached value and leaves the
    /// registry unchanged. Identities already cached are never overwritten,
    /// so all queries for one identity agree. The query cannot fail.
    pub fn of<T: TypeInfoProvider + ?Sized>(registry: &mut Registry) -> (info: &TypeInfo)
        requires
            old(registry).wf(),
        ensures
            final(registry).wf(),
            of_post(old(registry)@, final(registry)@, T::stable_id_spec(), *info),
            info.type_id_spec() == T::stable_id_spec(),
            !old(registry)@.contains_key(T::stable_id_spec()) ==> T::provided_info_ok(info)
                && info.display_name_view() == T::display_name_spec(),
    {
        let id = T::stable_id();
        if !registry.contains(id) {
            let built = T::type_info();
            registry.register(built);
        }
        let looked_up = registry.lookup(id);
        looked_up.unwrap()
    }

    /// The canonical descriptor of the type `T`, queried from a reference to
    /// an extant `T`. Behaves exactly as [`TypeInfo::of`]: in particular,
    /// the borrow duration of the reference never reaches the identity or
    /// the descriptor.
    pub fn of_val<'a, T: TypeInfoProvider + ?Sized>(_val: &T, registry: &'a mut Registry) -> (info:
        &'a TypeInfo)
        requires
            old(registry).wf(),
        ensures
            final(registry).wf(),
            of_post(old(registry)@, final(registry)@, T::stable_id_spec(), *info),
            info.type_id_spec() == T::stable_id_spec(),
            !old(registry)@.contains_key(T::stable_id_spec()) ==> T::provided_info_ok(info)
                && info.display_name_view() == T::display_name_spec(),
    {
        TypeInfo::of::<T>(registry)
    }
}

/// Registry singleton: two queries for one identity agree. However many
/// queries for other identities stand between them, the later query returns
/// exactly the descriptor the earlier one left cached, and that cached value
/// never changes.
pub proof fn lemma_registry_singleton(
    m0: Map<u64, TypeInfo>,
    m1: Map<u64, TypeInfo>,
    m2: Map<u64, TypeInfo>,
    m3: Map<u64, TypeInfo>,
    id: u64,
    other_id: u64,
    first: TypeInfo,
    other: TypeInfo,
    second: TypeInfo,
)
    requires
        of_post(m0, m1, id, first),
        of_post(m1, m2, other_id, other),
        of_post(m2, m3, id, second),
    ensures
        second == first,
        m3.contains_key(id) && m3[id] == first,
{
    assert(m1.contains_key(id));
    assert(m2.contains_key(id) && m2[id] == first);
}

} // verus!
