//! The override table: network addresses mapped to stake weights, together
//! with the auto-reload flag decoded from the same source document.

use vstd::prelude::*;

verus! {

/// A network address as plain data: an IPv4 address as its 32-bit value,
/// or an IPv6 address as its 128-bit value.
#[derive(Clone, Copy, PartialEq, Eq, Structural, Debug, Hash)]
pub enum IpAddrKey {
    V4(u32),
    V6(u128),
}

/// Builds the key for an IPv4 address given as its four dotted-quad octets.
pub fn ipv4(a: u8, b: u8, c: u8, d: u8) -> (r: IpAddrKey)
    ensures
        r == IpAddrKey::V4(
            ((a as u32) * 0x1000000 + (b as u32) * 0x10000 + (c as u32) * 0x100
                + (d as u32)) as u32,
        ),
{
    IpAddrKey::V4(
        (a as u32) * 0x1000000 + (b as u32) * 0x10000 + (c as u32) * 0x100 + (d as u32),
    )
}

/// No two entries of the sequence name the same address.
pub open spec fn unique_keys(s: Seq<(IpAddrKey, u64)>) -> bool {
    forall|i: int, j: int|
        0 <= i < j < s.len() ==> (#[trigger] s[i]).0 != (#[trigger] s[j]).0
}

/// Some entry of the sequence names address `k`.
pub open spec fn has_key(s: Seq<(IpAddrKey, u64)>, k: IpAddrKey) -> bool {
    exists|i: int| 0 <= i < s.len() && (#[trigger] s[i]).0 == k
}

/// An index of an entry that names address `k` (meaningful when `has_key`).
pub open spec fn key_index(s: Seq<(IpAddrKey, u64)>, k: IpAddrKey) -> int {
    choose|i: int| 0 <= i < s.len() && (#[trigger] s[i]).0 == k
}

/// The table built by reading the entries left to right, a later entry for
/// an address overriding an earlier one.
pub open spec fn stake_map_of(s: Seq<(IpAddrKey, u64)>) -> Map<IpAddrKey, u64>
    decreases s.len(),
{
    if s.len() == 0 {
        Map::empty()
    } else {
        stake_map_of(s.drop_last()).insert(s.last().0, s.last().1)
    }
}

/// When the keys of `s` are unique, any entry naming `k` is the entry that
/// `key_index` picks.
proof fn lemma_key_index_unique(s: Seq<(IpAddrKey, u64)>, k: IpAddrKey, i: int)
    requires
        unique_keys(s),
        0 <= i < s.len(),
        s[i].0 == k,
    ensures
        has_key(s, k),
        key_index(s, k) == i,
{
    assert(has_key(s, k));
    let j = key_index(s, k);
    if j < i {
        assert(s[j].0 != s[i].0);
    }
    if i < j {
        assert(s[i].0 != s[j].0);
    }
}

/// A mapping from network address to stake weight, with each address held at
/// most once.
pub struct StakeMap {
    entries: Vec<(IpAddrKey, u64)>,
}

impl View for StakeMap {
    type V = Map<IpAddrKey, u64>;

    closed spec fn view(&self) -> Map<IpAddrKey, u64> {
        Map::new(
            |k: IpAddrKey| has_key(self.entries@, k),
            |k: IpAddrKey| self.entries@[key_index(self.entries@, k)].1,
        )
    }
}

impl StakeMap {
    /// Each address appears in at most one entry.
    pub closed spec fn wf(&self) -> bool {
        unique_keys(self.entries@)
    }

    /// The empty table.
    pub fn new() -> (r: Self)
        ensures
            r.wf(),
            r@ == Map::<IpAddrKey, u64>::empty(),
    {
        let r = StakeMap { entries: Vec::new() };
        proof {
            assert(r@ =~= Map::<IpAddrKey, u64>::empty());
        }
        r
    }

    /// The weight recorded for `addr`, if any.
    pub fn get(&self, addr: IpAddrKey) -> (r: Option<u64>)
        requires
            self.wf(),
        ensures
            r == (if self@.dom().contains(addr) {
                Some(self@[addr])
            } else {
                None::<u64>
            }),
    {
        let n = self.entries.len();
        let mut i: usize = 0;
        while i < n
            invariant
                n == self.entries@.len(),
                0 <= i <= n,
                self.wf(),
                forall|j: int| 0 <= j < i ==> (#[trigger] self.entries@[j]).0 != addr,
            decreases n - i,
        {
            if self.entries[i].0 == addr {
                proof {
                    lemma_key_index_unique(self.entries@, addr, i as int);
                }
                return Some(self.entries[i].1);
            }
            i += 1;
        }
        proof {
            assert(!has_key(self.entries@, addr));
        }
        None
    }

    /// Records `weight` for `addr`, replacing any weight recorded before.
    pub fn insert(&mut self, addr: IpAddrKey, weight: u64)
        requires
            old(self).wf(),
        ensures
            final(self).wf(),
            final(self)@ == old(self)@.insert(addr, weight),
    {
        let n = self.entries.len();
        let mut i: usize = 0;
        while i < n
            invariant
                *self == *old(self),
                old(self).wf(),
                n == self.entries@.len(),
                0 <= i <= n,
                forall|j: int| 0 <= j < i ==> (#[trigger] self.entries@[j]).0 != addr,
            decreases n - i,
        {
            if self.entries[i].0 == addr {
                let updated = (addr, weight);
                self.entries.set(i, updated);
                proof {
                    let s_old = old(self).entries@;
                    let s_new = self.entries@;
                    assert(s_new == s_old.update(i as int, (addr, weight)));
                    assert forall|p: int, q: int| 0 <= p < q < s_new.len() implies (
                        #[trigger] s_new[p]).0 != (#[trigger] s_new[q]).0 by {
                        assert(s_old[p].0 != s_old[q].0);
                    }
                    assert forall|k: IpAddrKey| #[trigger]
                        has_key(s_new, k) <==> has_key(s_old, k) by {
                        if has_key(s_new, k) {
                            let w = key_index(s_new, k);
                            assert(s_old[w].0 == s_new[w].0 || w == i);
                            assert(0 <= w < s_old.len() && s_old[w].0 == k);
                        }
                        if has_key(s_old, k) {
                            let w = key_index(s_old, k);
                            assert(0 <= w < s_new.len() && s_new[w].0 == k);
                        }
                    }
                    assert forall|k: IpAddrKey| has_key(s_new, k) implies #[trigger]
                        self@[k] == old(self)@.insert(addr, weight)[k] by {
                        let w = key_index(s_new, k);
                        assert(0 <= w < s_new.len() && s_new[w].0 == k);
                        lemma_key_index_unique(s_new, k, w);
                        if k == addr {
                            lemma_key_index_unique(s_new, addr, i as int);
                        } else {
                            assert(w != i);
                            assert(s_old[w] == s_new[w]);
                            lemma_key_index_unique(s_old, k, w);
                        }
                    }
                    assert(self@ =~= old(self)@.insert(addr, weight));
                }
                return;
            }
            i += 1;
        }
        self.entries.push((addr, weight));
        proof {
            let s_old = old(self).entries@;
            let s_new = self.entries@;
            assert(s_new == s_old.push((addr, weight)));
            assert(s_new[n as int] == (addr, weight));
            assert forall|p: int, q: int| 0 <= p < q < s_new.len() implies (
                #[trigger] s_new[p]).0 != (#[trigger] s_new[q]).0 by {
                if q < n {
                    assert(s_old[p].0 != s_old[q].0);
                } else {
                    assert(s_new[p].0 == s_old[p].0);
                }
            }
            assert forall|k: IpAddrKey| #[trigger]
                has_key(s_new, k) <==> has_key(s_old, k) || k == addr by {
                if has_key(s_new, k) {
                    let w = key_index(s_new, k);
                    if w < n {
                        assert(0 <= w < s_old.len() && s_old[w].0 == k);
                    }
                }
                if has_key(s_old, k) {
                    let w = key_index(s_old, k);
                    assert(0 <= w < s_new.len() && s_new[w].0 == k);
                }
                if k == addr {
                    assert(s_new[n as int].0 == k);
                }
            }
            assert forall|k: IpAddrKey| has_key(s_new, k) implies #[trigger]
                self@[k] == old(self)@.insert(addr, weight)[k] by {
                let w = key_index(s_new, k);
                assert(0 <= w < s_new.len() && s_new[w].0 == k);
                lemma_key_index_unique(s_new, k, w);
                if k == addr {
                    lemma_key_index_unique(s_new, addr, n as int);
                } else {
                    assert(w != n);
                    assert(s_old[w] == s_new[w]);
                    lemma_key_index_unique(s_old, k, w);
                }
            }
            assert(self@ =~= old(self)@.insert(addr, weight));
        }
    }

    /// A copy of the table, entry for entry.
    pub fn duplicate(&self) -> (r: Self)
        ensures
            r@ == self@,
            r.wf() == self.wf(),
    {
        let mut copied: Vec<(IpAddrKey, u64)> = Vec::new();
        let n = self.entries.len();
        let mut i: usize = 0;
        while i < n
            invariant
                n == self.entries@.len(),
                0 <= i <= n,
                copied@ == self.entries@.take(i as int),
            decreases n - i,
        {
            copied.push(self.entries[i]);
            proof {
                assert(self.entries@.take(i + 1) =~= self.entries@.take(i as int).push(
                    self.entries@[i as int],
                ));
            }
            i += 1;
        }
        let r = StakeMap { entries: copied };
        proof {
            assert(self.entries@.take(n as int) =~= self.entries@);
            assert(r@ =~= self@);
        }
        r
    }

    /// Builds the table from a sequence of entries, a later entry for an
    /// address overriding an earlier one.
    pub fn from_entries(entries: Vec<(IpAddrKey, u64)>) -> (r: Self)
        ensures
            r.wf(),
            r@ == stake_map_of(entries@),
    {
        let mut r = StakeMap::new();
        let n = entries.len();
        let mut i: usize = 0;
        while i < n
            invariant
                n == entries@.len(),
                0 <= i <= n,
                r.wf(),
                r@ == stake_map_of(entries@.take(i as int)),
            decreases n - i,
        {
            let e = entries[i];
            r.insert(e.0, e.1);
            proof {
                assert(entries@.take(i + 1).drop_last() =~= entries@.take(i as int));
                assert(entries@.take(i + 1).last() == entries@[i as int]);
            }
            i += 1;
        }
        proof {
            assert(entries@.take(n as int) =~= entries@);
        }
        r
    }
}

/// The contents decoded from one source document, and likewise the shared
/// snapshot that the updater publishes: the override table together with the
/// auto-reload flag from the same load.
pub struct StakedNodesOverrides {
    pub auto_reload: bool,
    pub stake_map: StakeMap,
}

impl StakedNodesOverrides {
    /// The override table holds each address at most once.
    pub open spec fn wf(&self) -> bool {
        self.stake_map.wf()
    }

    /// Pairs a table with the auto-reload flag decoded beside it.
    pub fn new(auto_reload: bool, stake_map: StakeMap) -> (r: Self)
        ensures
            r.auto_reload == auto_reload,
            r.stake_map == stake_map,
    {
        StakedNodesOverrides { auto_reload, stake_map }
    }

    /// A copy of the snapshot: same flag, same table contents.
    pub fn duplicate(&self) -> (r: Self)
        ensures
            r.auto_reload == self.auto_reload,
            r.stake_map@ == self.stake_map@,
            r.wf() == self.wf(),
    {
        StakedNodesOverrides {
            auto_reload: self.auto_reload,
            stake_map: self.stake_map.duplicate(),
        }
    }
}

impl Default for StakedNodesOverrides {
    /// The snapshot before any successful load: auto-reload off, empty table.
    fn default() -> (r: Self)
        ensures
            r.wf(),
            r.auto_reload == false,
            r.stake_map@ == Map::<IpAddrKey, u64>::empty(),
    {
        StakedNodesOverrides { auto_reload: false, stake_map: StakeMap::new() }
    }
}

} // verus!
