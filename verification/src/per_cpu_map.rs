//! The generic accessor protocol for kernel-resident per-CPU keyed maps.
//!
//! A per-CPU map holds, for each key, one independent value per CPU core.
//! The kernel side is walked with a cursor ("the key after the previous
//! one", then one lookup per key); the unverified shell performs those
//! calls and materialises what the cursor produced as a snapshot: a list
//! of entries, each a key with its per-CPU value slice, every slice
//! exactly as wide as the number of CPUs discovered at process start.
//! The scan over a snapshot — every entry visited exactly once, in order,
//! each visit handed a slice of the fixed width — is verified here.

use vstd::prelude::*;

verus! {

/// One key of a per-CPU map, with its value slice: one value per CPU,
/// ordered by CPU index.
pub struct MapEntry<K, V> {
    pub key: K,
    pub per_cpu: Vec<V>,
}

/// A snapshot of a kernel-resident per-CPU map: the keys the cursor
/// produced, in cursor order, each with its per-CPU value slice.
pub struct BpfPerCpuMap<K, V> {
    /// The number of CPUs discovered at process start; every value slice
    /// has exactly this length.
    pub num_cpus: usize,
    /// The entries in cursor order.
    pub entries: Vec<MapEntry<K, V>>,
}

/// A visitor for a map scan.  The two spec functions are the visitor's
/// abstraction: the slice width it expects, and the visits it has received
/// so far, each the key with the value slice handed alongside it, in
/// order.  `visit` must account for exactly one more visit and must not
/// change the expected width; the reference it is handed is only valid for
/// the duration of the call, which the signature already enforces.
pub trait MapVisitor<K, V>: Sized {
    /// The per-CPU slice width every visit must have.
    spec fn cpus(&self) -> nat;

    /// The visits received so far, in order.
    spec fn log(&self) -> Seq<(K, Seq<V>)>;

    /// Receives one key and its per-CPU value slice.
    fn visit(&mut self, key: &K, per_cpu: &Vec<V>)
        requires
            per_cpu@.len() == old(self).cpus(),
        ensures
            final(self).cpus() == old(self).cpus(),
            final(self).log() == old(self).log().push((*key, per_cpu@)),
    ;
}

impl<K, V> BpfPerCpuMap<K, V> {
    /// Every value slice is exactly `num_cpus` wide.
    pub open spec fn wf(self) -> bool {
        forall|i: int|
            0 <= i < self.entries@.len() ==> (#[trigger] self.entries@[i]).per_cpu@.len()
                == self.num_cpus
    }

    /// The keys the cursor produced are pairwise distinct, as the kernel
    /// guarantees for a map's key space.
    pub open spec fn keys_distinct(self) -> bool {
        forall|i: int, j: int|
            0 <= i < j < self.entries@.len() ==> (#[trigger] self.entries@[i]).key != (
            #[trigger] self.entries@[j]).key
    }

    /// The scan's contents: each key with its value slice, in cursor order.
    pub open spec fn spec_contents(self) -> Seq<(K, Seq<V>)> {
        self.entries@.map_values(|e: MapEntry<K, V>| (e.key, e.per_cpu@))
    }

    /// Assembles a snapshot, accepting it only when every value slice is
    /// exactly `num_cpus` wide.
    pub fn new(num_cpus: usize, entries: Vec<MapEntry<K, V>>) -> (r: Option<BpfPerCpuMap<K, V>>)
        ensures
            r is Some <==> (forall|i: int|
                0 <= i < entries@.len() ==> (#[trigger] entries@[i]).per_cpu@.len() == num_cpus),
            r matches Some(m) ==> m.num_cpus == num_cpus && m.entries@ == entries@ && m.wf(),
    {
        let mut i: usize = 0;
        while i < entries.len()
            invariant
                0 <= i <= entries@.len(),
                forall|j: int|
                    0 <= j < i ==> (#[trigger] entries@[j]).per_cpu@.len() == num_cpus,
            decreases entries@.len() - i,
        {
            if entries[i].per_cpu.len() != num_cpus {
                return None;
            }
            i += 1;
        }
        Some(BpfPerCpuMap { num_cpus, entries })
    }

    /// The cursor-based full scan over the snapshot: starting from "no
    /// previous key", every entry is visited exactly once, in order, each
    /// visit handed a value slice of the width discovered at startup.  A
    /// map with zero keys invokes the visitor zero times and returns
    /// without error.  The number of visits made is returned.
    pub fn for_each<Vis: MapVisitor<K, V>>(&self, visitor: &mut Vis) -> (n: usize)
        requires
            self.wf(),
            old(visitor).cpus() == self.num_cpus,
        ensures
            n == self.entries@.len(),
            final(visitor).cpus() == old(visitor).cpus(),
            final(visitor).log() == old(visitor).log() + self.spec_contents(),
    {
        let ghost initial_log = visitor.log();
        let mut i: usize = 0;
        while i < self.entries.len()
            invariant
                0 <= i <= self.entries@.len(),
                self.wf(),
                visitor.cpus() == self.num_cpus,
                visitor.log() == initial_log + self.spec_contents().take(i as int),
            decreases self.entries@.len() - i,
        {
            visitor.visit(&self.entries[i].key, &self.entries[i].per_cpu);
            proof {
                assert(self.spec_contents().take(i + 1) =~= self.spec_contents().take(
                    i as int,
                ).push(self.spec_contents()[i as int]));
            }
            i += 1;
        }
        proof {
            assert(self.spec_contents().take(self.entries@.len() as int) =~= self.spec_contents());
        }
        i
    }
}

/// A visitor that materialises the scan: every key with an owned copy of
/// its per-CPU slice, in visit order.  `rows` is exactly the visit log.
pub struct CollectingVisitor<K, V> {
    /// The slice width every visit must have.
    pub expected_cpus: usize,
    /// The visits received so far.
    pub rows: Vec<(K, Vec<V>)>,
}

impl<K: Copy, V: Copy> CollectingVisitor<K, V> {
    /// A fresh visitor expecting slices of `expected_cpus` values.
    pub fn new(expected_cpus: usize) -> (v: CollectingVisitor<K, V>)
        ensures
            v.cpus() == expected_cpus,
            v.log() == Seq::<(K, Seq<V>)>::empty(),
            v.rows@.len() == 0,
    {
        let v = CollectingVisitor { expected_cpus, rows: Vec::new() };
        proof {
            assert(v.rows@.map_values(|r: (K, Vec<V>)| (r.0, r.1@)) =~= Seq::<
                (K, Seq<V>),
            >::empty());
        }
        v
    }
}

impl<K: Copy, V: Copy> MapVisitor<K, V> for CollectingVisitor<K, V> {
    open spec fn cpus(&self) -> nat {
        self.expected_cpus as nat
    }

    open spec fn log(&self) -> Seq<(K, Seq<V>)> {
        self.rows@.map_values(|r: (K, Vec<V>)| (r.0, r.1@))
    }

    fn visit(&mut self, key: &K, per_cpu: &Vec<V>) {
        let mut row: Vec<V> = Vec::new();
        let mut j: usize = 0;
        while j < per_cpu.len()
            invariant
                0 <= j <= per_cpu@.len(),
                row@ == per_cpu@.take(j as int),
            decreases per_cpu@.len() - j,
        {
            row.push(per_cpu[j]);
            proof {
                assert(per_cpu@.take(j + 1) =~= per_cpu@.take(j as int).push(per_cpu@[j as int]));
            }
            j += 1;
        }
        proof {
            assert(per_cpu@.take(per_cpu@.len() as int) =~= per_cpu@);
        }
        let entry = (*key, row);
        proof {
            assert(self.rows@.push(entry).map_values(|r: (K, Vec<V>)| (r.0, r.1@)) =~= self.rows@
                .map_values(|r: (K, Vec<V>)| (r.0, r.1@)).push((*key, per_cpu@)));
        }
        self.rows.push(entry);
    }
}

/// Once per distinct key: when the cursor's keys are pairwise distinct, no
/// key appears twice in the scan's contents, so a scan over a map with N
/// keys visits each of the N keys exactly once.
pub proof fn lemma_distinct_keys_visited_once<K, V>(m: BpfPerCpuMap<K, V>)
    requires
        m.keys_distinct(),
    ensures
        forall|i: int, j: int|
            0 <= i < j < m.spec_contents().len() ==> (#[trigger] m.spec_contents()[i]).0 != (
            #[trigger] m.spec_contents()[j]).0,
{
    assert forall|i: int, j: int|
        0 <= i < j < m.spec_contents().len() implies (#[trigger] m.spec_contents()[i]).0 != (
    #[trigger] m.spec_contents()[j]).0 by {
        assert(m.spec_contents()[i].0 == m.entries@[i].key);
        assert(m.spec_contents()[j].0 == m.entries@[j].key);
    }
}

} // verus!
