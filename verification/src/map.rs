use vstd::prelude::*;

use std::collections::hash_map::{Entry, Iter};
use std::collections::HashMap;

use vstd::std_specs::hash::spec_hash_map_iter;
use vstd::std_specs::iter::IteratorSpec;

use crate::{HashFlt, Vec3};

verus! {

broadcast use vstd::std_specs::hash::group_hash_axioms;

/// The id under which something is placed on the map.
pub type MapId = u64;

/// The abstract state of a `MapMap`: the entries by id, and the id counter.
pub type MapModel<T> = (Map<MapId, (Vec3, T)>, MapId);

/// Position of `j` in the order in which ids are probed for a new entry when
/// the counter stands at `start`: `start, start + 1, ..., u64::MAX, 1, 2, ...`.
/// The probe never comes back to `0` once it has wrapped around, so `-1`
/// marks an id that is never probed.
pub open spec fn probe_rank(start: MapId, j: MapId) -> int {
    if j >= start {
        j - start
    } else if j >= 1 {
        (u64::MAX - start) + j
    } else {
        -1
    }
}

/// `id` is the first id, in probe order from `start`, that `m` does not use.
pub open spec fn is_first_free<V>(m: Map<MapId, V>, start: MapId, id: MapId) -> bool {
    &&& probe_rank(start, id) >= 0
    &&& !m.contains_key(id)
    &&& forall|j: MapId|
        #![trigger m.contains_key(j)]
        0 <= probe_rank(start, j) < probe_rank(start, id) ==> m.contains_key(j)
}

/// Some id on the probe order from `start` is unused, so that looking for a
/// new id comes to an end.
pub open spec fn has_free_id<V>(m: Map<MapId, V>, start: MapId) -> bool {
    exists|j: MapId| #![trigger m.contains_key(j)] probe_rank(start, j) >= 0 && !m.contains_key(j)
}

/// The id that a new entry receives.
pub open spec fn first_free_id<V>(m: Map<MapId, V>, start: MapId) -> MapId {
    choose|id: MapId| is_first_free(m, start, id)
}

/// Adding `x` at `p`: it goes under the first free id, which also becomes
/// the counter.
pub open spec fn add_model<T>(mm: MapModel<T>, p: Vec3, x: T) -> MapModel<T> {
    let id = first_free_id(mm.0, mm.1);
    (mm.0.insert(id, (p, x)), id)
}

/// Some entry of `m` lies at position `p`.
pub open spec fn has_position<T>(m: Map<MapId, (Vec3, T)>, p: Vec3) -> bool {
    exists|id: MapId| #![trigger m[id]] m.contains_key(id) && m[id].0 == p
}

/// Adding `x` at `p` unless something already lies at `p`.
pub open spec fn add_no_matching_model<T>(mm: MapModel<T>, p: Vec3, x: T) -> MapModel<T> {
    if has_position(mm.0, p) {
        mm
    } else {
        add_model(mm, p, x)
    }
}

/// Adding `x` at each position of `ps` in turn, skipping positions that are
/// already taken.
pub open spec fn add_all_no_matching<T>(mm: MapModel<T>, ps: Seq<Vec3>, x: T) -> MapModel<T>
    decreases ps.len(),
{
    if ps.len() == 0 {
        mm
    } else {
        add_no_matching_model(add_all_no_matching(mm, ps.drop_last(), x), ps.last(), x)
    }
}

/// No two entries of `m` lie at the same position.
pub open spec fn unique_positions<T>(m: Map<MapId, (Vec3, T)>) -> bool {
    forall|i: MapId, j: MapId|
        #![trigger m[i], m[j]]
        m.contains_key(i) && m.contains_key(j) && m[i].0 == m[j].0 ==> i == j
}

/// Two ids with the same valid probe rank are the same id.
proof fn lemma_probe_rank_injective(start: MapId, a: MapId, b: MapId)
    requires
        probe_rank(start, a) >= 0,
        probe_rank(start, a) == probe_rank(start, b),
    ensures
        a == b,
{
}

/// There is only one first free id.
proof fn lemma_first_free_unique<V>(m: Map<MapId, V>, start: MapId, a: MapId, b: MapId)
    requires
        is_first_free(m, start, a),
        is_first_free(m, start, b),
    ensures
        a == b,
{
    if probe_rank(start, a) < probe_rank(start, b) {
        assert(m.contains_key(a));
    } else if probe_rank(start, b) < probe_rank(start, a) {
        assert(m.contains_key(b));
    } else {
        lemma_probe_rank_injective(start, a, b);
    }
}

/// Once `id` is known to be the first free id, `first_free_id` names it.
proof fn lemma_first_free_id_is<V>(m: Map<MapId, V>, start: MapId, id: MapId)
    requires
        is_first_free(m, start, id),
    ensures
        first_free_id(m, start) == id,
        is_first_free(m, start, first_free_id(m, start)),
{
    let c = first_free_id(m, start);
    assert(is_first_free(m, start, c));
    lemma_first_free_unique(m, start, c, id);
}

/// Some id on the probe order is unused, so there is a first one.
proof fn lemma_first_free_exists<V>(m: Map<MapId, V>, start: MapId, k: MapId)
    requires
        probe_rank(start, k) >= 0,
        !m.contains_key(k),
    ensures
        is_first_free(m, start, first_free_id(m, start)),
    decreases probe_rank(start, k),
{
    if exists|j: MapId|
        #![trigger m.contains_key(j)]
        0 <= probe_rank(start, j) < probe_rank(start, k) && !m.contains_key(j) {
        let j = choose|j: MapId|
            #![trigger m.contains_key(j)]
            0 <= probe_rank(start, j) < probe_rank(start, k) && !m.contains_key(j);
        lemma_first_free_exists(m, start, j);
    } else {
        assert(is_first_free(m, start, k));
        lemma_first_free_id_is(m, start, k);
    }
}

/// The ids `1..=n`.
spec fn ids_up_to(n: MapId) -> Set<MapId> {
    Set::new(|j: MapId| 1 <= j <= n)
}

proof fn lemma_ids_up_to_len(n: MapId)
    ensures
        ids_up_to(n).finite(),
        ids_up_to(n).len() == n,
    decreases n,
{
    if n == 0 {
        assert(ids_up_to(0) =~= Set::<MapId>::empty());
    } else {
        let m = (n - 1) as MapId;
        lemma_ids_up_to_len(m);
        assert(ids_up_to(n) =~= ids_up_to(m).insert(n));
    }
}

/// A map with fewer than `u64::MAX` entries leaves some id free on every
/// probe order.
pub proof fn lemma_free_id_exists<V>(m: Map<MapId, V>, start: MapId)
    requires
        m.dom().finite(),
        m.dom().len() < u64::MAX,
    ensures
        has_free_id(m, start),
{
    if !has_free_id(m, start) {
        assert forall|j: MapId| ids_up_to(u64::MAX).contains(j) implies m.dom().contains(j) by {
            assert(probe_rank(start, j) >= 0);
            assert(m.contains_key(j));
        }
        lemma_ids_up_to_len(u64::MAX);
        vstd::set_lib::lemma_len_subset(ids_up_to(u64::MAX), m.dom());
    }
}

/// `k` is the first place in the walk `v` over a map whose entry lies at
/// position `p`.
pub open spec fn is_first_at<T>(v: Seq<(&MapId, &(Vec3, T))>, p: Vec3, k: int) -> bool {
    &&& 0 <= k < v.len()
    &&& (*v[k].1).0 == p
    &&& forall|j: int| 0 <= j < k ==> (*v[j].1).0 != p
}

/// Where an entry lies at `p`, a walk meets a first one.
proof fn lemma_first_at_exists<T>(v: Seq<(&MapId, &(Vec3, T))>, p: Vec3, k: int)
    requires
        0 <= k < v.len(),
        (*v[k].1).0 == p,
    ensures
        exists|j: int| is_first_at(v, p, j),
    decreases k,
{
    if exists|j: int| 0 <= j < k && (*v[j].1).0 == p {
        let j = choose|j: int| 0 <= j < k && (*v[j].1).0 == p;
        lemma_first_at_exists(v, p, j);
    } else {
        assert(is_first_at(v, p, k));
    }
}

/// A map (ie key value pairs) of things on a map (ie where gameplay takes
/// place).
///
/// A `MapMap` maps `MapId`s to a position and an item. This lets you
/// position items on the map using unique ids; ids are handed out by the
/// provided methods.
#[derive(Clone, Debug, PartialEq)]
pub struct MapMap<T>(pub HashMap<MapId, (Vec3, T)>, pub MapId);

impl<T> View for MapMap<T> {
    type V = MapModel<T>;

    open spec fn view(&self) -> MapModel<T> {
        (self.0@, self.1)
    }
}

impl<T> MapMap<T> {
    /// An empty map whose id counter stands at `0`.
    pub fn new() -> (r: Self)
        ensures
            r@ == (Map::<MapId, (Vec3, T)>::empty(), 0u64),
    {
        MapMap(HashMap::new(), 0)
    }

    /// Adds `x` at position `p` and returns its id: the first id, counting
    /// up from the counter and wrapping around past `u64::MAX` to `1`, that
    /// is not in use. The counter then stands at that id.
    pub fn add(&mut self, p: Vec3, x: T) -> (id: MapId)
        requires
            has_free_id(old(self)@.0, old(self)@.1),
        ensures
            is_first_free(old(self)@.0, old(self)@.1, id),
            id == first_free_id(old(self)@.0, old(self)@.1),
            final(self)@ == add_model(old(self)@, p, x),
            final(self)@ == (old(self)@.0.insert(id, (p, x)), id),
            final(self)@.0.len() == old(self)@.0.len() + 1,
    {
        let ghost start = self.1;
        let ghost k = choose|j: MapId| probe_rank(start, j) >= 0 && !self.0@.contains_key(j);
        /* skip any existing ids */
        while self.0.contains_key(&self.1)
            invariant
                self.0@ == old(self).0@,
                start == old(self).1,
                probe_rank(start, self.1) >= 0,
                forall|j: MapId|
                    #![trigger self.0@.contains_key(j)]
                    0 <= probe_rank(start, j) < probe_rank(start, self.1) ==> self.0@.contains_key(j),
                probe_rank(start, k) >= 0,
                !self.0@.contains_key(k),
            decreases probe_rank(start, k) - probe_rank(start, self.1),
        {
            if self.1 >= u64::MAX {
                self.1 = 0;
            }
            self.1 = self.1 + 1;
        }
        proof {
            lemma_first_free_id_is(old(self).0@, start, self.1);
            assert(old(self).0@.dom().finite());
        }
        /* insert at the next id */
        self.0.insert(self.1, (p, x));
        self.1
    }

    /// The number of entries.
    pub fn len(&self) -> (r: u64)
        ensures
            r == self@.0.len(),
    {
        self.0.len() as u64
    }

    /// The position and item stored under `index`.
    pub fn index(&self, index: MapId) -> (r: &(Vec3, T))
        requires
            self@.0.contains_key(index),
        ensures
            *r == self@.0[index],
    {
        self.0.get(&index).unwrap()
    }

    /// The position and item stored under `index`, to be changed in place.
    /// A missing `index` first gets an entry at the origin holding
    /// `T::default()`; the id counter is left alone.
    pub fn index_mut(&mut self, index: MapId) -> (r: &mut (Vec3, T))
        where
            T: Default,
        ensures
            old(self)@.0.contains_key(index) ==> *r == old(self)@.0[index],
            !old(self)@.0.contains_key(index) ==> r.0 == Vec3(HashFlt(0), HashFlt(0), HashFlt(0))
                && call_ensures(T::default, (), r.1),
            final(self)@ == (old(self)@.0.insert(index, *final(r)), old(self)@.1),
    {
        if !self.0.contains_key(&index) {
            self.0.insert(index, (Vec3::zero(), T::default()));
        }
        match self.0.entry(index) {
            Entry::Occupied(e) => e.into_mut(),
            Entry::Vacant(_) => vstd::pervasive::unreached(),
        }
    }

    /// The entries, each as a reference to its id and to its position and
    /// item, in the hash map's order.
    pub fn iter(&self) -> (r: Iter<'_, MapId, (Vec3, T)>)
        ensures
            r == spec_hash_map_iter(&self.0),
            r.remaining().len() == self@.0.len(),
            r.remaining().no_duplicates(),
            forall|i: int|
                #![trigger r.remaining()[i]]
                0 <= i < r.remaining().len() ==> self@.0.contains_key(*r.remaining()[i].0)
                    && self@.0[*r.remaining()[i].0] == *r.remaining()[i].1,
            forall|id: MapId|
                #[trigger] self@.0.contains_key(id) ==> r.remaining().contains((&id, &self@.0[id])),
    {
        self.0.iter()
    }

    /// Adds `x` at position `p`, doing nothing if something already lies at
    /// `p`: then the id of such an entry is returned.
    pub fn add_no_matching_pos(&mut self, p: Vec3, x: T) -> (id: MapId)
        requires
            has_position(old(self)@.0, p) || has_free_id(old(self)@.0, old(self)@.1),
        ensures
            final(self)@ == add_no_matching_model(old(self)@, p, x),
            has_position(old(self)@.0, p) ==> old(self)@.0.contains_key(id) && old(self)@.0[id].0
                == p,
            !has_position(old(self)@.0, p) ==> id == first_free_id(old(self)@.0, old(self)@.1),
            has_position(old(self)@.0, p) ==> exists|k: int|
                is_first_at(spec_hash_map_iter(&old(self).0).remaining(), p, k) && id
                    == *spec_hash_map_iter(&old(self).0).remaining()[k].0,
            has_position(old(self)@.0, p) ==> *final(self) == *old(self),
            final(self)@.0.contains_key(id),
            final(self)@.0[id].0 == p,
            final(self)@.0.len() <= old(self)@.0.len() + 1,
            unique_positions(old(self)@.0) ==> unique_positions(final(self)@.0),
    {
        /* check if there's already something in this map at position p */
        for entry in it: self.0.iter()
            invariant
                it.seq() == spec_hash_map_iter(&self.0).remaining(),
                forall|k: int| 0 <= k < it.index() ==> (*it.seq()[k].1).0 != p,
        {
            let (i, (q, _)) = entry;
            if p == *q {
                proof {
                    let v = spec_hash_map_iter(&self.0).remaining();
                    assert(self.0@.contains_key(*v[it.index()].0));
                    assert(is_first_at(v, p, it.index()));
                }
                return *i;
            }
        }
        proof {
            let v = spec_hash_map_iter(&self.0).remaining();
            assert forall|id: MapId| #![trigger self.0@[id]] self.0@.contains_key(id) implies self.0@[id].0 != p by {
                assert(v.contains((&id, &self.0@[id])));
                let k = choose|k: int| 0 <= k < v.len() && v[k] == (&id, &self.0@[id]);
            }
        }
        self.add(p, x)
    }
}

/// Adding an entry stores it under an id that was not in use, leaves every
/// other entry as it was, and grows the map by one; reading the new id
/// gives back the position and item just added.
pub proof fn law_add_stores_fresh<T>(mm: MapModel<T>, p: Vec3, x: T)
    requires
        mm.0.dom().finite(),
        has_free_id(mm.0, mm.1),
    ensures
        !mm.0.contains_key(add_model(mm, p, x).1),
        add_model(mm, p, x).0.contains_key(add_model(mm, p, x).1),
        add_model(mm, p, x).0[add_model(mm, p, x).1] == (p, x),
        forall|id: MapId|
            #[trigger] mm.0.contains_key(id) ==> add_model(mm, p, x).0.contains_key(id) && add_model(
                mm,
                p,
                x,
            ).0[id] == mm.0[id],
        add_model(mm, p, x).0.len() == mm.0.len() + 1,
{
    let k = choose|j: MapId| #![trigger mm.0.contains_key(j)] probe_rank(mm.1, j) >= 0 && !mm.0.contains_key(j);
    lemma_first_free_exists(mm.0, mm.1, k);
}

/// Adding at a position that an earlier add without duplicates already
/// filled changes nothing: the second call finds the first one's entry.
pub proof fn law_add_no_matching_idempotent<T>(mm: MapModel<T>, p: Vec3, x: T, y: T)
    ensures
        add_no_matching_model(add_no_matching_model(mm, p, x), p, y) == add_no_matching_model(
            mm,
            p,
            x,
        ),
        has_position(add_no_matching_model(mm, p, x).0, p),
{
    let m1 = add_no_matching_model(mm, p, x);
    if !has_position(mm.0, p) {
        let id = first_free_id(mm.0, mm.1);
        assert(m1.0.contains_key(id) && m1.0[id].0 == p);
    }
}

/// Adding a sequence of positions without duplicates: afterwards every
/// position of the sequence is taken, the earlier entries are unchanged,
/// each new entry holds the added item, the map grows by at most the length
/// of the sequence, and a map without two entries at one position keeps
/// that property.
pub proof fn law_add_all_no_matching<T>(mm: MapModel<T>, ps: Seq<Vec3>, x: T)
    requires
        mm.0.dom().finite(),
        mm.0.len() + ps.len() < u64::MAX,
    ensures
        add_all_no_matching(mm, ps, x).0.dom().finite(),
        add_all_no_matching(mm, ps, x).0.len() <= mm.0.len() + ps.len(),
        forall|k: int| 0 <= k < ps.len() ==> has_position(add_all_no_matching(mm, ps, x).0, #[trigger] ps[k]),
        forall|id: MapId|
            #[trigger] mm.0.contains_key(id) ==> add_all_no_matching(mm, ps, x).0.contains_key(id)
                && add_all_no_matching(mm, ps, x).0[id] == mm.0[id],
        forall|id: MapId|
            #[trigger] add_all_no_matching(mm, ps, x).0.contains_key(id) && !mm.0.contains_key(id)
                ==> add_all_no_matching(mm, ps, x).0[id].1 == x,
        forall|id: MapId|
            #[trigger] add_all_no_matching(mm, ps, x).0.contains_key(id) && !mm.0.contains_key(id)
                ==> exists|k: int| 0 <= k < ps.len() && ps[k] == add_all_no_matching(mm, ps, x).0[id].0,
        unique_positions(mm.0) ==> unique_positions(add_all_no_matching(mm, ps, x).0),
    decreases ps.len(),
{
    if ps.len() > 0 {
        let pre = ps.drop_last();
        law_add_all_no_matching(mm, pre, x);
        let m0 = add_all_no_matching(mm, pre, x);
        let p = ps.last();
        if !has_position(m0.0, p) {
            lemma_free_id_exists(m0.0, m0.1);
            law_add_stores_fresh(m0, p, x);
            let id = first_free_id(m0.0, m0.1);
            assert(add_all_no_matching(mm, ps, x) == add_model(m0, p, x));
            assert forall|j: MapId|
                #[trigger] add_all_no_matching(mm, ps, x).0.contains_key(j) && !mm.0.contains_key(j)
                    implies exists|k: int| 0 <= k < ps.len() && ps[k] == add_all_no_matching(mm, ps, x).0[j].0 by {
                if j == id {
                    assert(ps[ps.len() - 1] == add_all_no_matching(mm, ps, x).0[j].0);
                } else {
                    assert(m0.0.contains_key(j));
                    let k = choose|k: int| 0 <= k < pre.len() && pre[k] == m0.0[j].0;
                    assert(ps[k] == pre[k]);
                }
            }
            assert forall|k: int| 0 <= k < ps.len() implies has_position(
                add_all_no_matching(mm, ps, x).0,
                #[trigger] ps[k],
            ) by {
                if k < ps.len() - 1 {
                    assert(pre[k] == ps[k]);
                    let j = choose|j: MapId| #![trigger m0.0[j]] m0.0.contains_key(j) && m0.0[j].0 == ps[k];
                    assert(add_model(m0, p, x).0[j] == m0.0[j]);
                } else {
                    assert(add_model(m0, p, x).0[id] == (p, x));
                }
            }
        } else {
            assert forall|k: int| 0 <= k < ps.len() implies has_position(
                add_all_no_matching(mm, ps, x).0,
                #[trigger] ps[k],
            ) by {
                if k < ps.len() - 1 {
                    assert(pre[k] == ps[k]);
                }
            }
            assert forall|j: MapId|
                #[trigger] add_all_no_matching(mm, ps, x).0.contains_key(j) && !mm.0.contains_key(j)
                    implies exists|k: int| 0 <= k < ps.len() && ps[k] == add_all_no_matching(mm, ps, x).0[j].0 by {
                let k = choose|k: int| 0 <= k < pre.len() && pre[k] == m0.0[j].0;
                assert(ps[k] == pre[k]);
            }
        }
    }
}

/// On a map whose ids are exactly `0..n`, with the counter at the last id
/// handed out (or at `0` while the map is empty), the next id is `n`: ids
/// are handed out one after the other from `0`.
pub proof fn law_add_counts_up<T>(mm: MapModel<T>, n: MapId, p: Vec3, x: T)
    requires
        forall|j: MapId| #[trigger] mm.0.contains_key(j) <==> j < n,
        mm.1 == (if n == 0 {
            0
        } else {
            (n - 1) as MapId
        }),
        n < u64::MAX,
    ensures
        first_free_id(mm.0, mm.1) == n,
        add_model(mm, p, x).1 == n,
        forall|j: MapId| #[trigger] add_model(mm, p, x).0.contains_key(j) <==> j <= n,
{
    assert(is_first_free(mm.0, mm.1, n));
    lemma_first_free_id_is(mm.0, mm.1, n);
}

/// Adding at `p` without duplicates leaves an entry at `p`, and keeps a map
/// without two entries at one position so.
pub proof fn law_add_no_matching_keeps_unique<T>(mm: MapModel<T>, p: Vec3, x: T)
    requires
        mm.0.dom().finite(),
        has_position(mm.0, p) || has_free_id(mm.0, mm.1),
    ensures
        has_position(add_no_matching_model(mm, p, x).0, p),
        unique_positions(mm.0) ==> unique_positions(add_no_matching_model(mm, p, x).0),
{
    if !has_position(mm.0, p) {
        law_add_stores_fresh(mm, p, x);
        let id = first_free_id(mm.0, mm.1);
        assert(add_model(mm, p, x).0[id] == (p, x));
    }
}

/// Calling `add_no_matching_pos` a second time with the same position, on
/// the map that the first call left, changes nothing whatever the item, and
/// gives back the same id: where the first call added an entry, that entry
/// is the only one at `p`, so the first entry at `p` on any walk is it.
/// `s1` stands for any map that the first call may leave behind from `s0`.
pub proof fn law_add_no_matching_twice<T>(s0: MapMap<T>, s1: MapMap<T>, p: Vec3, x: T, y: T)
    requires
        has_position(s0@.0, p) || has_free_id(s0@.0, s0@.1),
        s1@ == add_no_matching_model(s0@, p, x),
        has_position(s0@.0, p) ==> s1 == s0,
    ensures
        has_position(s1@.0, p),
        add_no_matching_model(s1@, p, y) == s1@,
        !has_position(s0@.0, p) ==> exists|k: int|
            is_first_at(spec_hash_map_iter(&s1.0).remaining(), p, k),
        !has_position(s0@.0, p) ==> forall|k: int|
            is_first_at(spec_hash_map_iter(&s1.0).remaining(), p, k)
                ==> *spec_hash_map_iter(&s1.0).remaining()[k].0 == first_free_id(s0@.0, s0@.1),
{
    if !has_position(s0@.0, p) {
        assert(s0.0@.dom().finite());
        law_add_stores_fresh(s0@, p, x);
        let r1 = first_free_id(s0@.0, s0@.1);
        assert(s1@.0[r1] == (p, x));
        assert(has_position(s1@.0, p));
        let v = spec_hash_map_iter(&s1.0).remaining();
        assert(s1.0@.contains_key(r1));
        assert(v.contains((&r1, &s1.0@[r1])));
        let k0 = choose|k: int| 0 <= k < v.len() && v[k] == (&r1, &s1.0@[r1]);
        lemma_first_at_exists(v, p, k0);
        assert forall|k: int| is_first_at(v, p, k) implies *v[k].0 == r1 by {
            let id = *v[k].0;
            assert(s1.0@.contains_key(id) && s1.0@[id] == *v[k].1);
        }
    }
}

} // verus!
