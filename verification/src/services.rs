//! The service registry: a key-addressed heterogeneous store.
//!
//! Every shared resource ("service") of an application lives here, keyed by a
//! stable numeric type identity.  Heterogeneity is obtained without unchecked
//! type erasure: the application chooses one store value type `V` (commonly an
//! enum with one variant per service type) and implements [`IntoService`] for
//! each service type, providing the key and a checked conversion in both
//! directions.  At most one service is stored per key; registering a second
//! one for the same key replaces the first (last write wins).

use vstd::prelude::*;

verus! {

/// The mathematical content of an association list: later entries shadow
/// earlier ones (which the registry's uniqueness invariant makes moot).
pub open spec fn map_of<V>(s: Seq<(u64, V)>) -> Map<u64, V>
    decreases s.len(),
{
    if s.len() == 0 {
        Map::empty()
    } else {
        map_of(s.drop_last()).insert(s.last().0, s.last().1)
    }
}

/// A key occurs in `map_of(s)` exactly when some entry holds it.
proof fn lemma_map_of_domain<V>(s: Seq<(u64, V)>)
    ensures
        forall|k: u64|
            map_of(s).contains_key(k) <==> exists|i: int| 0 <= i < s.len() && (#[trigger] s[i]).0 == k,
    decreases s.len(),
{
    if s.len() > 0 {
        lemma_map_of_domain(s.drop_last());
        assert forall|k: u64| map_of(s).contains_key(k) implies exists|i: int|
            0 <= i < s.len() && (#[trigger] s[i]).0 == k by {
            if s.last().0 == k {
                assert(s[s.len() - 1].0 == k);
            } else {
                assert(map_of(s.drop_last()).contains_key(k));
                let i = choose|i: int|
                    0 <= i < s.drop_last().len() && (#[trigger] s.drop_last()[i]).0 == k;
                assert(s.drop_last()[i] == s[i]);
                assert(s[i].0 == k);
            }
        }
        assert forall|k: u64|
            (exists|i: int| 0 <= i < s.len() && (#[trigger] s[i]).0 == k) implies map_of(
            s,
        ).contains_key(k) by {
            let i = choose|i: int| 0 <= i < s.len() && (#[trigger] s[i]).0 == k;
            if i < s.len() - 1 {
                assert(s.drop_last()[i] == s[i]);
                assert(map_of(s.drop_last()).contains_key(k));
            }
        }
    }
}

/// Each entry's key is in the domain of `map_of`.
proof fn lemma_map_of_contains_at<V>(s: Seq<(u64, V)>, i: int)
    requires
        0 <= i < s.len(),
    ensures
        map_of(s).contains_key(s[i].0),
    decreases s.len(),
{
    if i < s.len() - 1 {
        lemma_map_of_contains_at(s.drop_last(), i);
        assert(s.drop_last()[i] == s[i]);
    }
}

/// With pairwise distinct keys, `map_of` maps each entry's key to its value.
proof fn lemma_map_of_index<V>(s: Seq<(u64, V)>, i: int)
    requires
        0 <= i < s.len(),
        forall|a: int, b: int| 0 <= a < b < s.len() ==> (#[trigger] s[a]).0 != (#[trigger] s[b]).0,
    ensures
        map_of(s).contains_key(s[i].0),
        map_of(s)[s[i].0] == s[i].1,
    decreases s.len(),
{
    if i < s.len() - 1 {
        lemma_map_of_index(s.drop_last(), i);
        assert(s.drop_last()[i] == s[i]);
        assert(s.last().0 != s[i].0);
    }
}

/// Removing the entry that holds `k` removes `k` from the map.
proof fn lemma_map_of_remove<V>(s: Seq<(u64, V)>, i: int)
    requires
        0 <= i < s.len(),
        forall|a: int, b: int| 0 <= a < b < s.len() ==> (#[trigger] s[a]).0 != (#[trigger] s[b]).0,
    ensures
        map_of(s.remove(i)) == map_of(s).remove(s[i].0),
    decreases s.len(),
{
    let k = s[i].0;
    if i == s.len() - 1 {
        assert(s.remove(i) =~= s.drop_last());
        lemma_map_of_domain(s.drop_last());
        assert(!map_of(s.drop_last()).contains_key(k));
        assert(map_of(s.drop_last()) =~= map_of(s).remove(k));
    } else {
        lemma_map_of_remove(s.drop_last(), i);
        assert(s.remove(i).drop_last() =~= s.drop_last().remove(i));
        assert(s.remove(i).last() == s.last());
        assert(map_of(s.remove(i)) == map_of(s.drop_last().remove(i)).insert(s.last().0, s.last().1));
        assert(s.last().0 != k);
        assert(map_of(s.drop_last()).remove(k).insert(s.last().0, s.last().1) =~= map_of(
            s,
        ).remove(k));
    }
}

/// The heterogeneous service store: a mapping from a stable type-identity
/// key to exactly one value.
pub struct Services<V> {
    entries: Vec<(u64, V)>,
}

impl<V> Services<V> {
    /// Abstract contents: a partial map from keys to stored values.
    pub closed spec fn view(&self) -> Map<u64, V> {
        map_of(self.entries@)
    }

    /// Internal well-formedness: at most one entry per key.
    pub closed spec fn wf(&self) -> bool {
        forall|a: int, b: int|
            0 <= a < b < self.entries@.len() ==> (#[trigger] self.entries@[a]).0 != (
            #[trigger] self.entries@[b]).0
    }

    /// Creates an empty registry.
    pub fn new() -> (r: Self)
        ensures
            r.wf(),
            r@ == Map::<u64, V>::empty(),
    {
        Services { entries: Vec::new() }
    }

    /// Position of the entry holding `key`, if any.
    fn position_of(&self, key: u64) -> (r: Option<usize>)
        requires
            self.wf(),
        ensures
            match r {
                Some(i) => 0 <= i < self.entries@.len() && self.entries@[i as int].0 == key
                    && self@.contains_key(key),
                None => !self@.contains_key(key),
            },
    {
        proof {
            lemma_map_of_domain(self.entries@);
        }
        let n = self.entries.len();
        let mut i: usize = 0;
        while i < n
            invariant
                n == self.entries@.len(),
                0 <= i <= n,
                forall|j: int| 0 <= j < i ==> (#[trigger] self.entries@[j]).0 != key,
            decreases n - i,
        {
            if self.entries[i].0 == key {
                proof {
                    lemma_map_of_contains_at(self.entries@, i as int);
                }
                return Some(i);
            }
            i = i + 1;
        }
        None
    }

    /// True when a service is registered under `key`.
    pub fn contains(&self, key: u64) -> (r: bool)
        requires
            self.wf(),
        ensures
            r == self@.contains_key(key),
    {
        self.position_of(key).is_some()
    }

    /// Removes and returns the service registered under `key`.
    pub fn take(&mut self, key: u64) -> (r: Option<V>)
        requires
            old(self).wf(),
        ensures
            final(self).wf(),
            match r {
                Some(v) => old(self)@.contains_key(key) && v == old(self)@[key] && final(self)@
                    == old(self)@.remove(key),
                None => !old(self)@.contains_key(key) && final(self)@ == old(self)@,
            },
    {
        match self.position_of(key) {
            Some(i) => {
                proof {
                    lemma_map_of_index(self.entries@, i as int);
                    lemma_map_of_remove(self.entries@, i as int);
                }
                let (_, v) = self.entries.remove(i);
                Some(v)
            },
            None => None,
        }
    }

    /// Registers `value` under `key`, replacing any previous service with the
    /// same key (last write wins).
    pub fn add(&mut self, key: u64, value: V)
        requires
            old(self).wf(),
        ensures
            final(self).wf(),
            final(self)@ == old(self)@.insert(key, value),
    {
        let _ = self.take(key);
        proof {
            lemma_map_of_domain(self.entries@);
        }
        let ghost pre = self.entries@;
        self.entries.push((key, value));
        proof {
            assert(!map_of(pre).contains_key(key));
            assert forall|a: int| 0 <= a < pre.len() implies (#[trigger] pre[a]).0 != key by {
                if pre[a].0 == key {
                    assert(map_of(pre).contains_key(key));
                }
            }
            assert(self.entries@.drop_last() =~= pre);
            assert(forall|a: int|
                0 <= a < pre.len() ==> #[trigger] self.entries@[a] == pre[a]);
            assert(map_of(self.entries@) == map_of(pre).insert(key, value));
            assert(map_of(pre).insert(key, value) =~= old(self)@.insert(key, value));
        }
    }

    /// Shared access to the service registered under `key`.
    pub fn get(&self, key: u64) -> (r: Option<&V>)
        requires
            self.wf(),
        ensures
            match r {
                Some(v) => self@.contains_key(key) && *v == self@[key],
                None => !self@.contains_key(key),
            },
    {
        match self.position_of(key) {
            Some(i) => {
                proof {
                    lemma_map_of_index(self.entries@, i as int);
                }
                Some(&self.entries[i].1)
            },
            None => None,
        }
    }
}

/// Registration is last-write-wins: a fetch sees exactly the value most
/// recently registered under its key, a registration under one key leaves
/// every other key's value untouched, and registering the same key twice is
/// the same as registering only the second value.
pub proof fn lemma_last_write_wins<V>(m: Map<u64, V>, key: u64, other: u64, v1: V, v2: V)
    ensures
        m.insert(key, v1).contains_key(key),
        m.insert(key, v1)[key] == v1,
        key != other && m.contains_key(other) ==> m.insert(key, v1)[other] == m[other],
        m.insert(key, v1).insert(key, v2) == m.insert(key, v2),
{
    assert(m.insert(key, v1).insert(key, v2) =~= m.insert(key, v2));
}

/// Checked two-way conversion between a concrete service type and the
/// application's store value type, together with the service's stable
/// type-identity key.  Implemented by the application, once per service type;
/// the conversion plays the role of a checked downcast out of the store
/// value (commonly an enum with one variant per service type).
pub trait IntoService: Sized {
    /// The store value type of the registry this service lives in.
    type Store;

    /// The type-identity key this service type is stored under.
    spec fn spec_key() -> u64;

    /// The store value this service converts to.
    spec fn spec_pack(self) -> Self::Store;

    /// The service recovered from a store value, if it is of this type.
    spec fn spec_unpack(v: Self::Store) -> Option<Self>;

    /// Packing then unpacking recovers the service unchanged.
    proof fn pack_unpack(s: Self)
        ensures
            Self::spec_unpack(s.spec_pack()) == Some(s),
    ;

    /// Unpacking then packing recovers the store value unchanged.
    proof fn unpack_pack(v: Self::Store, s: Self)
        requires
            Self::spec_unpack(v) == Some(s),
        ensures
            s.spec_pack() == v,
    ;

    /// Returns the type-identity key of this service type.
    fn key() -> (k: u64)
        ensures
            k == Self::spec_key(),
    ;

    /// Converts the service into a store value.
    fn pack(self) -> (v: Self::Store)
        ensures
            v == self.spec_pack(),
    ;

    /// Recovers the service from a store value; a checked downcast that
    /// hands the store value back when it is of another service type.
    fn unpack(v: Self::Store) -> (r: Result<Self, Self::Store>)
        ensures
            match r {
                Ok(s) => Self::spec_unpack(v) == Some(s),
                Err(v2) => Self::spec_unpack(v) is None && v2 == v,
            },
    ;

    /// Shared access to the service inside a store value; a checked
    /// downcast by reference.
    fn unpack_ref(v: &Self::Store) -> (r: Option<&Self>)
        ensures
            match r {
                Some(s) => Self::spec_unpack(*v) == Some(*s),
                None => Self::spec_unpack(*v) is None,
            },
    ;
}

impl<V> Services<V> {
    /// Registers a service instance under its own type-identity key,
    /// replacing any previous instance of the same type (last write wins).
    pub fn add_service<S: IntoService<Store = V>>(&mut self, service: S)
        requires
            old(self).wf(),
        ensures
            final(self).wf(),
            final(self)@ == old(self)@.insert(S::spec_key(), service.spec_pack()),
    {
        let key = S::key();
        self.add(key, service.pack());
    }

    /// Shared access to the unique stored instance of the service type `S`,
    /// or nothing if it was never added (no implicit construction).
    pub fn get_service<S: IntoService<Store = V>>(&self) -> (r: Option<&S>)
        requires
            self.wf(),
        ensures
            match r {
                Some(s) => self@.contains_key(S::spec_key()) && S::spec_unpack(
                    self@[S::spec_key()],
                ) == Some(*s),
                None => !self@.contains_key(S::spec_key()) || S::spec_unpack(
                    self@[S::spec_key()],
                ) is None,
            },
    {
        let key = S::key();
        match self.get(key) {
            None => None,
            Some(v) => S::unpack_ref(v),
        }
    }
}

} // verus!
