//! Pools, the registry that holds them by name, and the engine that provisions them.

use crate::names::{
    compare_names, contains_string, lemma_name_lt_irreflexive, lemma_name_lt_transitive, name_lt,
    str_eq, strings_view, NameOrder,
};
use crate::types::{ErrorEnum, StratisError, StratisResult};
use vstd::prelude::*;

verus! {

/// A storage pool: the path of its object on the bus, and what it owns.
#[derive(Debug, Clone, PartialEq, Eq)]
pub struct Pool {
    pub object_path: String,
    pub filesystems: Vec<String>,
    pub block_devs: Vec<String>,
    pub cache_devs: Vec<String>,
}

/// What a `Pool` holds.
pub struct PoolView {
    pub object_path: Seq<char>,
    pub filesystems: Seq<Seq<char>>,
    pub block_devs: Seq<Seq<char>>,
    pub cache_devs: Seq<Seq<char>>,
}

impl View for Pool {
    type V = PoolView;

    open spec fn view(&self) -> PoolView {
        PoolView {
            object_path: self.object_path@,
            filesystems: strings_view(self.filesystems@),
            block_devs: strings_view(self.block_devs@),
            cache_devs: strings_view(self.cache_devs@),
        }
    }
}

/// Why a pool cannot be removed: the text names the first kind of thing that it still owns,
/// filesystems before devices before cache devices. A pool that owns nothing can go.
pub open spec fn busy_reason(pool: PoolView) -> Option<Seq<char>> {
    if pool.filesystems.len() > 0 {
        Some("filesystems remaining on pool"@)
    } else if pool.block_devs.len() > 0 {
        Some("devices remaining in pool"@)
    } else if pool.cache_devs.len() > 0 {
        Some("cache devices remaining in pool"@)
    } else {
        None
    }
}

/// The pool under the name, if there is one.
pub open spec fn pool_named(pools: Map<Seq<char>, PoolView>, name: Seq<char>) -> Option<PoolView> {
    if pools.contains_key(name) {
        Some(pools[name])
    } else {
        None
    }
}

/// The kinds of things that a pool owns.
#[derive(Debug, Clone, Copy, PartialEq, Eq, Structural)]
pub enum Owned {
    Filesystem,
    BlockDev,
    CacheDev,
}

/// Whether the pool owns a thing of the kind under the name.
pub open spec fn owns(pool: PoolView, kind: Owned, name: Seq<char>) -> bool {
    match kind {
        Owned::Filesystem => pool.filesystems.contains(name),
        Owned::BlockDev => pool.block_devs.contains(name),
        Owned::CacheDev => pool.cache_devs.contains(name),
    }
}

/// The first of the names whose pool owns a thing of the kind under the name `thing`.
pub open spec fn first_owner(
    names: Seq<Seq<char>>,
    pools: Map<Seq<char>, PoolView>,
    kind: Owned,
    thing: Seq<char>,
) -> Option<Seq<char>>
    decreases names.len(),
{
    if names.len() == 0 {
        None
    } else if pools.contains_key(names[0]) && owns(pools[names[0]], kind, thing) {
        Some(names[0])
    } else {
        first_owner(names.drop_first(), pools, kind, thing)
    }
}

/// The first owner is a pool of the registry that owns the thing, and no pool before it
/// does; where there is no first owner, no pool under any of the names owns the thing.
pub proof fn lemma_first_owner(
    names: Seq<Seq<char>>,
    pools: Map<Seq<char>, PoolView>,
    kind: Owned,
    thing: Seq<char>,
)
    ensures
        match first_owner(names, pools, kind, thing) {
            Some(name) => exists|i: int|
                0 <= i < names.len() && #[trigger] names[i] == name && pools.contains_key(name)
                    && owns(pools[name], kind, thing) && forall|k: int|
                    0 <= k < i ==> !(pools.contains_key(#[trigger] names[k]) && owns(
                        pools[names[k]],
                        kind,
                        thing,
                    )),
            None => forall|k: int|
                0 <= k < names.len() ==> !(pools.contains_key(#[trigger] names[k]) && owns(
                    pools[names[k]],
                    kind,
                    thing,
                )),
        },
    decreases names.len(),
{
    if names.len() > 0 {
        let rest = names.drop_first();
        if pools.contains_key(names[0]) && owns(pools[names[0]], kind, thing) {
            assert(names[0] == names[0]);
        } else {
            lemma_first_owner(rest, pools, kind, thing);
            match first_owner(rest, pools, kind, thing) {
                Some(name) => {
                    let i = choose|i: int|
                        0 <= i < rest.len() && #[trigger] rest[i] == name && pools.contains_key(name)
                            && owns(pools[name], kind, thing) && forall|k: int|
                            0 <= k < i ==> !(pools.contains_key(#[trigger] rest[k]) && owns(
                                pools[rest[k]],
                                kind,
                                thing,
                            ));
                    assert(names[i + 1] == name);
                    assert forall|k: int| 0 <= k < i + 1 implies !(pools.contains_key(
                        #[trigger] names[k],
                    ) && owns(pools[names[k]], kind, thing)) by {
                        if k > 0 {
                            assert(rest[k - 1] == names[k]);
                        }
                    }
                },
                None => {
                    assert forall|k: int| 0 <= k < names.len() implies !(pools.contains_key(
                        #[trigger] names[k],
                    ) && owns(pools[names[k]], kind, thing)) by {
                        if k > 0 {
                            assert(rest[k - 1] == names[k]);
                        }
                    }
                },
            }
        }
    }
}

impl Pool {
    /// Whether the pool owns a thing of the kind under the name.
    pub fn owns(&self, kind: Owned, name: &str) -> (found: bool)
        ensures
            found == owns(self@, kind, name@),
    {
        match kind {
            Owned::Filesystem => contains_string(&self.filesystems, name),
            Owned::BlockDev => contains_string(&self.block_devs, name),
            Owned::CacheDev => contains_string(&self.cache_devs, name),
        }
    }

    /// What a pool holds that lies at `object_path` and owns `block_devs` and nothing else.
    pub open spec fn spec_new(object_path: Seq<char>, block_devs: Seq<Seq<char>>) -> PoolView {
        PoolView { object_path, filesystems: Seq::empty(), block_devs, cache_devs: Seq::empty() }
    }

    /// A pool that owns the given devices and nothing else.
    pub fn new(object_path: String, block_devs: Vec<String>) -> (pool: Pool)
        ensures
            pool@ == Self::spec_new(object_path@, strings_view(block_devs@)),
    {
        let pool = Pool { object_path, filesystems: Vec::new(), block_devs, cache_devs: Vec::new() };
        assert(pool@.filesystems =~= Seq::<Seq<char>>::empty());
        assert(pool@.cache_devs =~= Seq::<Seq<char>>::empty());
        pool
    }

    /// Why the pool cannot be removed, if it cannot.
    pub fn busy(&self) -> (reason: Option<&'static str>)
        ensures
            reason is Some <==> busy_reason(self@) is Some,
            reason matches Some(text) ==> Some(text@) == busy_reason(self@),
    {
        if self.filesystems.len() > 0 {
            Some("filesystems remaining on pool")
        } else if self.block_devs.len() > 0 {
            Some("devices remaining in pool")
        } else if self.cache_devs.len() > 0 {
            Some("cache devices remaining in pool")
        } else {
            None
        }
    }
}

/// A pool under its name.
#[derive(Debug, Clone, PartialEq, Eq)]
struct PoolEntry {
    name: String,
    pool: Pool,
}

/// Whether the entries stand in the strict order of their names.
spec fn sorted(entries: Seq<PoolEntry>) -> bool {
    forall|i: int, j: int|
        0 <= i < j < entries.len() ==> name_lt(
            (#[trigger] entries[i]).name@,
            (#[trigger] entries[j]).name@,
        )
}

/// Whether an entry stands under `name`.
spec fn has_name(entries: Seq<PoolEntry>, name: Seq<char>) -> bool {
    exists|i: int| 0 <= i < entries.len() && #[trigger] entries[i].name@ == name
}

/// The place of an entry under `name`.
spec fn place_of(entries: Seq<PoolEntry>, name: Seq<char>) -> int {
    choose|i: int| 0 <= i < entries.len() && #[trigger] entries[i].name@ == name
}

/// The entries as a map from names to pools.
spec fn entries_map(entries: Seq<PoolEntry>) -> Map<Seq<char>, PoolView> {
    Map::new(
        |name: Seq<char>| has_name(entries, name),
        |name: Seq<char>| entries[place_of(entries, name)].pool@,
    )
}

/// In sorted entries each name stands once, and the map gives under it the pool of its entry.
proof fn lemma_entry(entries: Seq<PoolEntry>, i: int)
    requires
        sorted(entries),
        0 <= i < entries.len(),
    ensures
        has_name(entries, entries[i].name@),
        place_of(entries, entries[i].name@) == i,
        entries_map(entries).contains_key(entries[i].name@),
        entries_map(entries)[entries[i].name@] == entries[i].pool@,
{
    let name = entries[i].name@;
    assert(entries[i].name@ == name);
    let k = place_of(entries, name);
    lemma_name_lt_irreflexive(name);
    if k < i {
        assert(name_lt(entries[k].name@, entries[i].name@));
    } else if i < k {
        assert(name_lt(entries[i].name@, entries[k].name@));
    }
}

/// A name that comes before the entry at `p` and after all entries before `p` stands under
/// no entry.
proof fn lemma_absent(entries: Seq<PoolEntry>, p: int, name: Seq<char>)
    requires
        sorted(entries),
        0 <= p <= entries.len(),
        forall|i: int| 0 <= i < p ==> name_lt((#[trigger] entries[i]).name@, name),
        p < entries.len() ==> name_lt(name, entries[p].name@),
    ensures
        !has_name(entries, name),
        forall|j: int| p <= j < entries.len() ==> name_lt(name, (#[trigger] entries[j]).name@),
{
    assert forall|j: int| p <= j < entries.len() implies name_lt(
        name,
        (#[trigger] entries[j]).name@,
    ) by {
        if p < j {
            assert(name_lt(entries[p].name@, entries[j].name@));
            lemma_name_lt_transitive(name, entries[p].name@, entries[j].name@);
        }
    }
    lemma_name_lt_irreflexive(name);
    if has_name(entries, name) {
        let k = place_of(entries, name);
        if k < p {
            assert(name_lt(entries[k].name@, name));
        } else {
            assert(name_lt(name, entries[k].name@));
        }
    }
}

/// Putting a new name at its place keeps the order and adds the name to the map.
proof fn lemma_insert(entries: Seq<PoolEntry>, p: int, entry: PoolEntry)
    requires
        sorted(entries),
        0 <= p <= entries.len(),
        forall|i: int| 0 <= i < p ==> name_lt((#[trigger] entries[i]).name@, entry.name@),
        p < entries.len() ==> name_lt(entry.name@, entries[p].name@),
    ensures
        sorted(entries.insert(p, entry)),
        entries_map(entries.insert(p, entry)) == entries_map(entries).insert(
            entry.name@,
            entry.pool@,
        ),
{
    let after = entries.insert(p, entry);
    lemma_absent(entries, p, entry.name@);
    assert forall|i: int, j: int| 0 <= i < j < after.len() implies name_lt(
        (#[trigger] after[i]).name@,
        (#[trigger] after[j]).name@,
    ) by {
        if i < p {
            if j == p {
                assert(name_lt(entries[i].name@, entry.name@));
            } else if j < p {
                assert(name_lt(entries[i].name@, entries[j].name@));
            } else {
                assert(name_lt(entries[i].name@, entries[j - 1].name@));
            }
        } else if i == p {
            assert(name_lt(entry.name@, entries[j - 1].name@));
        } else {
            assert(name_lt(entries[i - 1].name@, entries[j - 1].name@));
        }
    }
    let left = entries_map(after);
    let right = entries_map(entries).insert(entry.name@, entry.pool@);
    assert forall|name: Seq<char>| left.contains_key(name) <==> right.contains_key(name) by {
        if has_name(after, name) {
            let k = place_of(after, name);
            if k < p {
                assert(entries[k].name@ == name);
            } else if k > p {
                assert(entries[k - 1].name@ == name);
            }
        }
        if has_name(entries, name) {
            let k = place_of(entries, name);
            if k < p {
                assert(after[k].name@ == name);
            } else {
                assert(after[k + 1].name@ == name);
            }
        }
        if name == entry.name@ {
            assert(after[p].name@ == name);
        }
    }
    assert forall|name: Seq<char>| left.contains_key(name) implies left[name] == right[name] by {
        let k = place_of(after, name);
        lemma_entry(after, k);
        if k < p {
            lemma_entry(entries, k);
        } else if k > p {
            lemma_entry(entries, k - 1);
        }
    }
    assert(left =~= right);
}

/// Taking an entry out keeps the order and takes its name out of the map.
proof fn lemma_remove(entries: Seq<PoolEntry>, p: int)
    requires
        sorted(entries),
        0 <= p < entries.len(),
    ensures
        sorted(entries.remove(p)),
        entries_map(entries.remove(p)) == entries_map(entries).remove(entries[p].name@),
{
    let after = entries.remove(p);
    assert forall|i: int, j: int| 0 <= i < j < after.len() implies name_lt(
        (#[trigger] after[i]).name@,
        (#[trigger] after[j]).name@,
    ) by {
        let a = if i < p { i } else { i + 1 };
        let b = if j < p { j } else { j + 1 };
        assert(name_lt(entries[a].name@, entries[b].name@));
    }
    let left = entries_map(after);
    let right = entries_map(entries).remove(entries[p].name@);
    assert forall|name: Seq<char>| left.contains_key(name) <==> right.contains_key(name) by {
        if has_name(after, name) {
            let k = place_of(after, name);
            let a = if k < p { k } else { k + 1 };
            assert(entries[a].name@ == name);
            lemma_entry(entries, a);
            lemma_entry(entries, p);
        }
        if has_name(entries, name) && name != entries[p].name@ {
            let k = place_of(entries, name);
            if k < p {
                assert(after[k].name@ == name);
            } else {
                assert(after[k - 1].name@ == name);
            }
        }
    }
    assert forall|name: Seq<char>| left.contains_key(name) implies left[name] == right[name] by {
        let k = place_of(after, name);
        lemma_entry(after, k);
        let a = if k < p { k } else { k + 1 };
        lemma_entry(entries, a);
    }
    assert(left =~= right);
}

/// Giving an entry another pool keeps the order and puts the pool under its name.
proof fn lemma_update(entries: Seq<PoolEntry>, p: int, pool: Pool)
    requires
        sorted(entries),
        0 <= p < entries.len(),
    ensures
        sorted(entries.update(p, PoolEntry { name: entries[p].name, pool })),
        entries_map(entries.update(p, PoolEntry { name: entries[p].name, pool })) == entries_map(
            entries,
        ).insert(entries[p].name@, pool@),
{
    let after = entries.update(p, PoolEntry { name: entries[p].name, pool });
    assert forall|i: int, j: int| 0 <= i < j < after.len() implies name_lt(
        (#[trigger] after[i]).name@,
        (#[trigger] after[j]).name@,
    ) by {
        assert(name_lt(entries[i].name@, entries[j].name@));
    }
    let left = entries_map(after);
    let right = entries_map(entries).insert(entries[p].name@, pool@);
    assert forall|name: Seq<char>| left.contains_key(name) <==> right.contains_key(name) by {
        if has_name(after, name) {
            let k = place_of(after, name);
            assert(entries[k].name@ == name);
        }
        if has_name(entries, name) {
            let k = place_of(entries, name);
            assert(after[k].name@ == name);
        }
        if name == entries[p].name@ {
            assert(after[p].name@ == name);
        }
    }
    assert forall|name: Seq<char>| left.contains_key(name) implies left[name] == right[name] by {
        let k = place_of(after, name);
        lemma_entry(after, k);
        lemma_entry(entries, k);
        lemma_entry(entries, p);
    }
    assert(left =~= right);
}

/// The registry: the pools of the daemon, each under its name, in the order of the names.
#[derive(Debug, Clone, PartialEq, Eq)]
pub struct Pools {
    entries: Vec<PoolEntry>,
}

impl View for Pools {
    type V = Map<Seq<char>, PoolView>;

    /// What the pools hold, by their names.
    closed spec fn view(&self) -> Map<Seq<char>, PoolView> {
        entries_map(self.entries@)
    }
}

impl Pools {
    /// The entries stand in the strict order of their names, so that no name stands twice.
    pub closed spec fn wf(&self) -> bool {
        sorted(self.entries@)
    }

    /// The names of the pools, in their order.
    pub closed spec fn names(&self) -> Seq<Seq<char>> {
        Seq::new(self.entries@.len(), |i: int| self.entries@[i].name@)
    }

    /// The names are those under which the registry holds a pool, each once and in strictly
    /// ascending order.
    pub proof fn lemma_names(&self)
        requires
            self.wf(),
        ensures
            forall|i: int, j: int|
                0 <= i < j < self.names().len() ==> name_lt(
                    #[trigger] self.names()[i],
                    #[trigger] self.names()[j],
                ),
            forall|name: Seq<char>| self@.contains_key(name) <==> self.names().contains(name),
            self@.dom().finite(),
            self@.dom().len() == self.names().len(),
    {
        let names = self.names();
        assert forall|i: int, j: int| 0 <= i < j < names.len() implies name_lt(
            #[trigger] names[i],
            #[trigger] names[j],
        ) by {
            assert(name_lt(self.entries@[i].name@, self.entries@[j].name@));
        }
        assert forall|name: Seq<char>| self@.contains_key(name) <==> names.contains(name) by {
            if has_name(self.entries@, name) {
                let k = place_of(self.entries@, name);
                assert(names[k] == name);
            }
            if names.contains(name) {
                let k = choose|k: int| 0 <= k < names.len() && names[k] == name;
                assert(self.entries@[k].name@ == name);
            }
        }
        assert forall|i: int, j: int| 0 <= i < j < names.len() implies names[i] != names[j] by {
            lemma_name_lt_irreflexive(names[i]);
        }
        assert(names.no_duplicates());
        names.unique_seq_to_set();
        assert(names.to_set() =~= self@.dom());
    }

    /// A registry without pools.
    pub fn new() -> (pools: Pools)
        ensures
            pools.wf(),
            pools@ == Map::<Seq<char>, PoolView>::empty(),
            pools.names() == Seq::<Seq<char>>::empty(),
    {
        let pools = Pools { entries: Vec::new() };
        assert(pools@ =~= Map::<Seq<char>, PoolView>::empty());
        assert(pools.names() =~= Seq::<Seq<char>>::empty());
        pools
    }

    /// The number of pools.
    pub fn len(&self) -> (n: usize)
        ensures
            n == self.names().len(),
    {
        self.entries.len()
    }

    /// Where `name` stands or would stand, and whether it stands there.
    fn find(&self, name: &str) -> (place: (usize, bool))
        requires
            self.wf(),
        ensures
            place.0 <= self.entries@.len(),
            forall|i: int| 0 <= i < place.0 ==> name_lt((#[trigger] self.entries@[i]).name@, name@),
            place.1 ==> place.0 < self.entries@.len() && self.entries@[place.0 as int].name@
                == name@,
            !place.1 && place.0 < self.entries@.len() ==> name_lt(
                name@,
                self.entries@[place.0 as int].name@,
            ),
            place.1 == self@.contains_key(name@),
            place.1 ==> self@[name@] == self.entries@[place.0 as int].pool@,
    {
        let mut i: usize = 0;
        while i < self.entries.len()
            invariant
                0 <= i <= self.entries.len(),
                self.wf(),
                forall|k: int| 0 <= k < i ==> name_lt((#[trigger] self.entries@[k]).name@, name@),
            decreases self.entries.len() - i,
        {
            match compare_names(self.entries[i].name.as_str(), name) {
                NameOrder::Before => {
                    i = i + 1;
                },
                NameOrder::Same => {
                    proof {
                        lemma_entry(self.entries@, i as int);
                    }
                    return (i, true);
                },
                NameOrder::After => {
                    proof {
                        lemma_absent(self.entries@, i as int, name@);
                    }
                    return (i, false);
                },
            }
        }
        proof {
            lemma_absent(self.entries@, i as int, name@);
        }
        (i, false)
    }

    /// Whether a pool stands under `name`.
    pub fn contains_key(&self, name: &str) -> (found: bool)
        requires
            self.wf(),
        ensures
            found == self@.contains_key(name@),
    {
        self.find(name).1
    }

    /// The pool under `name`.
    pub fn get(&self, name: &str) -> (found: Option<&Pool>)
        requires
            self.wf(),
        ensures
            match pool_named(self@, name@) {
                Some(held) => found matches Some(pool) && pool@ == held,
                None => found is None,
            },
    {
        let (place, found) = self.find(name);
        if found {
            Some(&self.entries[place].pool)
        } else {
            None
        }
    }

    /// Puts `pool` under `name` unless a pool stands there already; says whether it did.
    pub fn insert(&mut self, name: String, pool: Pool) -> (inserted: bool)
        requires
            old(self).wf(),
        ensures
            final(self).wf(),
            inserted == !old(self)@.contains_key(name@),
            inserted ==> final(self)@ == old(self)@.insert(name@, pool@),
            !inserted ==> *final(self) == *old(self),
    {
        let (place, found) = self.find(name.as_str());
        if found {
            return false;
        }
        let entry = PoolEntry { name, pool };
        proof {
            lemma_insert(self.entries@, place as int, entry);
        }
        self.entries.insert(place, entry);
        true
    }

    /// What `remove` answers for `name`, and what it leaves in the registry.
    pub open spec fn spec_remove(pools: Map<Seq<char>, PoolView>, name: Seq<char>) -> (
        Result<bool, Seq<char>>,
        Map<Seq<char>, PoolView>,
    ) {
        if !pools.contains_key(name) {
            (Ok(false), pools)
        } else if busy_reason(pools[name]) is Some {
            (Err(busy_reason(pools[name])->0), pools)
        } else {
            (Ok(true), pools.remove(name))
        }
    }

    /// Takes the pool under `name` out of the registry. Where no pool stands there nothing
    /// is done, which is no failure. A pool that still owns something stays, and the
    /// failure says what it owns.
    pub fn remove(&mut self, name: &str) -> (res: StratisResult<bool>)
        requires
            old(self).wf(),
        ensures
            final(self).wf(),
            final(self)@ == Self::spec_remove(old(self)@, name@).1,
            match Self::spec_remove(old(self)@, name@).0 {
                Ok(removed) => res == Ok::<bool, StratisError>(removed),
                Err(reason) => res matches Err(StratisError::Stratis(ErrorEnum::Busy(text)))
                    && text@ == reason,
            },
            !(res matches Ok(true)) ==> *final(self) == *old(self),
    {
        let (place, found) = self.find(name);
        if !found {
            return Ok(false);
        }
        match self.entries[place].pool.busy() {
            Some(reason) => Err(StratisError::Stratis(ErrorEnum::Busy(reason.to_owned()))),
            None => {
                proof {
                    lemma_remove(self.entries@, place as int);
                }
                self.entries.remove(place);
                Ok(true)
            },
        }
    }

    /// The pool under `name`, to be changed in place.
    pub fn get_mut(&mut self, name: &str) -> (res: StratisResult<&mut Pool>)
        requires
            old(self).wf(),
        ensures
            final(self).wf(),
            old(self)@.contains_key(name@) ==> res is Ok && res->Ok_0@ == old(self)@[name@]
                && final(self)@ == old(self)@.insert(name@, final(res->Ok_0)@)
                && final(self).names() == old(self).names(),
            !old(self)@.contains_key(name@) ==> *final(self) == *old(self) && (
            res matches Err(StratisError::Stratis(ErrorEnum::NotFound(text))) && text@ == name@),
    {
        let (place, found) = self.find(name);
        if !found {
            return Err(StratisError::Stratis(ErrorEnum::NotFound(name.to_owned())));
        }
        let pool = &mut self.entries[place].pool;
        proof {
            lemma_update(old(self).entries@, place as int, *final(pool));
        }
        Ok(pool)
    }

    /// What `rename` answers for the two names, and what it leaves in the registry. The
    /// failure carries the name that is taken.
    pub open spec fn spec_rename(
        pools: Map<Seq<char>, PoolView>,
        old_name: Seq<char>,
        new_name: Seq<char>,
    ) -> (Result<bool, Seq<char>>, Map<Seq<char>, PoolView>) {
        if old_name == new_name {
            (Ok(false), pools)
        } else if pools.contains_key(new_name) {
            if pools.contains_key(old_name) {
                (Err(new_name), pools)
            } else {
                (Ok(false), pools)
            }
        } else if pools.contains_key(old_name) {
            (Ok(true), pools.remove(old_name).insert(new_name, pools[old_name]))
        } else {
            (Ok(false), pools)
        }
    }

    /// Puts the pool that stands under `old_name` under `new_name`, as it is. Where the two
    /// names are the same, or no pool stands under `old_name`, nothing is done, which is no
    /// failure. Where pools stand under both names, nothing is done and that is a failure.
    pub fn rename(&mut self, old_name: &str, new_name: &str) -> (res: StratisResult<bool>)
        requires
            old(self).wf(),
        ensures
            final(self).wf(),
            final(self)@ == Self::spec_rename(old(self)@, old_name@, new_name@).1,
            match Self::spec_rename(old(self)@, old_name@, new_name@).0 {
                Ok(renamed) => res == Ok::<bool, StratisError>(renamed),
                Err(taken) => res matches Err(StratisError::Stratis(ErrorEnum::AlreadyExists(text)))
                    && text@ == taken,
            },
            !(res matches Ok(true)) ==> *final(self) == *old(self),
    {
        if str_eq(old_name, new_name) {
            return Ok(false);
        }
        if self.contains_key(new_name) {
            if self.contains_key(old_name) {
                return Err(StratisError::Stratis(ErrorEnum::AlreadyExists(new_name.to_owned())));
            } else {
                return Ok(false);
            }
        }
        let (place, found) = self.find(old_name);
        if !found {
            return Ok(false);
        }
        proof {
            lemma_remove(self.entries@, place as int);
        }
        let entry = self.entries.remove(place);
        let (new_place, _) = self.find(new_name);
        let renamed = PoolEntry { name: new_name.to_owned(), pool: entry.pool };
        proof {
            lemma_insert(self.entries@, new_place as int, renamed);
        }
        self.entries.insert(new_place, renamed);
        Ok(true)
    }

    /// The first pool, in the order of the names, that owns a thing of the kind under the
    /// name `thing`.
    pub fn owner_of(&self, kind: Owned, thing: &str) -> (found: Option<&Pool>)
        requires
            self.wf(),
        ensures
            match first_owner(self.names(), self@, kind, thing@) {
                Some(name) => found matches Some(pool) && self@.contains_key(name) && pool@
                    == self@[name],
                None => found is None,
            },
    {
        let mut i: usize = 0;
        assert(self.names().skip(0) =~= self.names());
        while i < self.entries.len()
            invariant
                0 <= i <= self.entries.len(),
                self.wf(),
                first_owner(self.names(), self@, kind, thing@) == first_owner(
                    self.names().skip(i as int),
                    self@,
                    kind,
                    thing@,
                ),
            decreases self.entries.len() - i,
        {
            proof {
                lemma_entry(self.entries@, i as int);
                assert(self.names().skip(i as int)[0] == self.entries@[i as int].name@);
                assert(self.names().skip(i as int).drop_first() =~= self.names().skip(i as int + 1));
            }
            if self.entries[i].pool.owns(kind, thing) {
                return Some(&self.entries[i].pool);
            }
            i = i + 1;
        }
        None
    }

    /// The names of the pools: each name under which a pool stands, once, in ascending
    /// order.
    pub fn list(&self) -> (names: Vec<String>)
        requires
            self.wf(),
        ensures
            strings_view(names@) == self.names(),
            forall|name: Seq<char>|
                self@.contains_key(name) <==> strings_view(names@).contains(name),
            forall|i: int, j: int|
                0 <= i < j < names@.len() ==> name_lt(
                    #[trigger] strings_view(names@)[i],
                    #[trigger] strings_view(names@)[j],
                ),
    {
        proof {
            self.lemma_names();
        }
        let mut names: Vec<String> = Vec::new();
        let mut i: usize = 0;
        while i < self.entries.len()
            invariant
                0 <= i <= self.entries.len(),
                names@.len() == i,
                forall|k: int| 0 <= k < i ==> (#[trigger] names@[k])@ == self.entries@[k].name@,
            decreases self.entries.len() - i,
        {
            names.push(self.entries[i].name.clone());
            i = i + 1;
        }
        assert(strings_view(names@) =~= self.names());
        names
    }
}

/// Removing a name under which no pool stands is no failure, and nothing changes.
pub proof fn lemma_remove_absent(pools: Map<Seq<char>, PoolView>, name: Seq<char>)
    requires
        !pools.contains_key(name),
    ensures
        Pools::spec_remove(pools, name) == (Ok::<bool, Seq<char>>(false), pools),
{
}

/// Removing a pool that owns a filesystem, a device or a cache device fails, the failure
/// says what the pool owns, and nothing changes.
pub proof fn lemma_remove_busy(pools: Map<Seq<char>, PoolView>, name: Seq<char>)
    requires
        pools.contains_key(name),
        pools[name].filesystems.len() > 0 || pools[name].block_devs.len() > 0
            || pools[name].cache_devs.len() > 0,
    ensures
        Pools::spec_remove(pools, name).0 is Err,
        Pools::spec_remove(pools, name).0 == Err::<bool, Seq<char>>(busy_reason(pools[name])->0),
        Pools::spec_remove(pools, name).1 == pools,
{
}

/// Removing a pool that owns nothing takes it out of the registry and leaves the others.
pub proof fn lemma_remove_idle(pools: Map<Seq<char>, PoolView>, name: Seq<char>)
    requires
        pools.contains_key(name),
        pools[name].filesystems.len() == 0,
        pools[name].block_devs.len() == 0,
        pools[name].cache_devs.len() == 0,
    ensures
        Pools::spec_remove(pools, name) == (Ok::<bool, Seq<char>>(true), pools.remove(name)),
        pool_named(Pools::spec_remove(pools, name).1, name) is None,
        forall|other: Seq<char>|
            other != name ==> pool_named(Pools::spec_remove(pools, name).1, other) == pool_named(
                pools,
                other,
            ),
{
}

/// Renaming a pool to the name that it has does nothing and says so.
pub proof fn lemma_rename_same(pools: Map<Seq<char>, PoolView>, name: Seq<char>)
    ensures
        Pools::spec_rename(pools, name, name) == (Ok::<bool, Seq<char>>(false), pools),
{
}

/// Renaming a pool to another name under which a pool stands fails, the failure names the
/// name that is taken, and both pools stay as they are.
pub proof fn lemma_rename_conflict(
    pools: Map<Seq<char>, PoolView>,
    old_name: Seq<char>,
    new_name: Seq<char>,
)
    requires
        old_name != new_name,
        pools.contains_key(old_name),
        pools.contains_key(new_name),
    ensures
        Pools::spec_rename(pools, old_name, new_name) == (Err::<bool, Seq<char>>(new_name), pools),
{
}

/// After a pool is renamed to a name that was free, the pool stands under the new name as
/// it was, no pool stands under the old name, and every other name has what it had.
pub proof fn lemma_rename_moves(
    pools: Map<Seq<char>, PoolView>,
    old_name: Seq<char>,
    new_name: Seq<char>,
)
    requires
        pools.contains_key(old_name),
        !pools.contains_key(new_name),
    ensures
        Pools::spec_rename(pools, old_name, new_name).0 == Ok::<bool, Seq<char>>(true),
        pool_named(Pools::spec_rename(pools, old_name, new_name).1, new_name) == Some(
            pools[old_name],
        ),
        pool_named(Pools::spec_rename(pools, old_name, new_name).1, old_name) is None,
        forall|other: Seq<char>|
            other != old_name && other != new_name ==> pool_named(
                Pools::spec_rename(pools, old_name, new_name).1,
                other,
            ) == pool_named(pools, other),
{
}

/// Renaming a pool that is not there does nothing and says so.
pub proof fn lemma_rename_absent(
    pools: Map<Seq<char>, PoolView>,
    old_name: Seq<char>,
    new_name: Seq<char>,
)
    requires
        !pools.contains_key(old_name),
    ensures
        Pools::spec_rename(pools, old_name, new_name) == (Ok::<bool, Seq<char>>(false), pools),
{
}

/// The engine: what provisions pools on the storage itself. The daemon asks it and goes by
/// its answer; how it does its work is its own business.
pub trait Engine {
    /// Provisions a pool of the given name over the given devices.
    fn create_pool(&mut self, name: &str, blockdev_paths: &Vec<String>, raid_level: u16) -> StratisResult<()>;

    /// Says which pools the storage holds.
    fn list_pools(&self) -> StratisResult<Vec<String>>;
}

} // verus!
