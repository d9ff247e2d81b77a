//! Lazily rebuilt binding contents: the exact offsets table and
//! descriptor byte stream that the compute stage's binding set is
//! built from, cached until the face store changes.

use vstd::prelude::*;

use crate::direction::Direction;
use crate::face::FaceData;
use crate::store::FaceStore;
use crate::store::concat_of;
use crate::store::lemma_concat_len;
use crate::store::prefix_total;
use crate::store::total_of;
use crate::bytes::faces_wire_bytes;
use crate::bytes::faces_to_bytes;

verus! {

/// The seven-entry offsets table uploaded for the compute stage: the
/// six inclusive cumulative counts, then one closing sentinel equal to
/// the final total, so the GPU program has an unconditional upper
/// bound for the last direction.
pub open spec fn offsets_table(ss: Seq<Seq<FaceData>>) -> Seq<int> {
    seq![
        prefix_total(ss, 0),
        prefix_total(ss, 1),
        prefix_total(ss, 2),
        prefix_total(ss, 3),
        prefix_total(ss, 4),
        prefix_total(ss, 5),
        prefix_total(ss, 5),
    ]
}

/// The descriptor buffer's byte contents: the wire bytes of the whole
/// concatenation, or a single zero byte when the store is logically
/// empty, since the downstream GPU API rejects zero-length buffers.
pub open spec fn payload_bytes(ss: Seq<Seq<FaceData>>) -> Seq<u8> {
    if total_of(ss) == 0 {
        seq![0u8]
    } else {
        faces_wire_bytes(concat_of(ss))
    }
}

/// The contents the compute stage's binding set is built from: the
/// offsets buffer's words and the descriptor buffer's bytes. The
/// shared output buffer is the binding's third entry; it is fixed for
/// the scene's life and owned by the unverified device layer.
#[derive(Debug)]
pub struct BindingSet {
    /// Seven offset words: six inclusive cumulative counts plus the
    /// closing sentinel.
    pub offsets: Vec<u32>,
    /// The concatenated descriptor records, or one zero byte when the
    /// store is empty.
    pub descriptor_bytes: Vec<u8>,
}

/// True when `b` holds exactly the buffer contents derived from the
/// face lists `ss`.
pub open spec fn binding_matches(b: BindingSet, ss: Seq<Seq<FaceData>>) -> bool {
    &&& b.offsets@.len() == 7
    &&& (forall|i: int| 0 <= i < 7 ==> b.offsets@[i] == offsets_table(ss)[i])
    &&& b.descriptor_bytes@ == payload_bytes(ss)
}

/// The cache's two states. The only legal transitions are Fresh to
/// Stale on a store mutation and Stale to Fresh inside a rebuild.
#[derive(Debug, Clone, Copy, PartialEq, Eq, Structural)]
pub enum CacheState {
    Fresh,
    Stale,
}

/// A directional face store together with the lazily rebuilt binding
/// contents derived from it. While the state is Fresh, the cached
/// contents are exactly those of the current store; any mutation goes
/// through this type and marks the cache Stale before the next
/// consumption.
#[derive(Debug)]
pub struct BindingCache {
    store: FaceStore,
    bindings: Option<BindingSet>,
    state: CacheState,
    rebuilds: u64,
}

impl BindingCache {
    /// The six face lists of the underlying store.
    pub closed spec fn seqs(self) -> Seq<Seq<FaceData>> {
        self.store.seqs()
    }

    /// Whether the cached contents are current.
    pub closed spec fn is_fresh(self) -> bool {
        self.state is Fresh
    }

    /// How many rebuilds have run so far.
    pub closed spec fn rebuilds_spec(self) -> u64 {
        self.rebuilds
    }

    /// The cached binding contents, absent only before the first
    /// rebuild.
    pub closed spec fn bindings_spec(self) -> Option<BindingSet> {
        self.bindings
    }

    /// True when the cached contents exist and are exactly those
    /// derived from the current store.
    pub closed spec fn cached_matches(self) -> bool {
        match self.bindings {
            Option::Some(b) => binding_matches(b, self.seqs()),
            Option::None => false,
        }
    }

    /// Well-formedness: the store's mask invariant holds, and while
    /// the cache is Fresh its contents are exactly those derived from
    /// the current store — a Fresh cache is never stale in substance.
    pub closed spec fn wf(self) -> bool {
        &&& self.store.wf()
        &&& (self.is_fresh() ==> self.cached_matches())
    }

    /// Wraps an initial store. The cache starts Stale with no cached
    /// contents, so the first consumption always rebuilds.
    pub fn new(store: FaceStore) -> (c: Self)
        requires
            store.wf(),
        ensures
            c.wf(),
            c.seqs() == store.seqs(),
            !c.is_fresh(),
            c.rebuilds_spec() == 0,
            c.bindings_spec() is None,
    {
        BindingCache { store, bindings: None, state: CacheState::Stale, rebuilds: 0 }
    }

    /// Overwrites one direction's face list and marks the cache Stale.
    /// This is the only way to mutate the store, so no mutation can
    /// escape invalidation.
    pub fn replace(&mut self, direction: Direction, faces: Vec<FaceData>)
        ensures
            final(self).wf(),
            final(self).seqs() == old(self).seqs().update(direction.index_spec(), faces@),
            !final(self).is_fresh(),
            final(self).rebuilds_spec() == old(self).rebuilds_spec(),
    {
        self.store.replace(direction, faces);
        self.state = CacheState::Stale;
    }

    /// The visibility mask of the underlying store.
    pub fn mask(&self) -> (m: u32)
        requires
            self.wf(),
        ensures
            m == crate::store::mask_of(self.seqs()),
            m < 64,
    {
        self.store.mask()
    }

    /// The total face count of the underlying store.
    pub fn total_count(&self) -> (n: u32)
        requires
            total_of(self.seqs()) <= u32::MAX,
        ensures
            n == total_of(self.seqs()),
    {
        self.store.total_count()
    }

    /// How many rebuilds have run so far.
    pub fn rebuild_count(&self) -> (n: u64)
        ensures
            n == self.rebuilds_spec(),
    {
        self.rebuilds
    }

    /// Returns the binding contents for the current store, rebuilding
    /// them first if and only if the cache is Stale. A Fresh cache is
    /// returned unchanged, with no new allocation; a Stale cache is
    /// never served.
    pub fn get_or_rebuild(&mut self) -> (r: &BindingSet)
        requires
            old(self).wf(),
            total_of(old(self).seqs()) <= u32::MAX,
            old(self).rebuilds_spec() < u64::MAX,
        ensures
            final(self).wf(),
            final(self).seqs() == old(self).seqs(),
            final(self).is_fresh(),
            binding_matches(*r, old(self).seqs()),
            final(self).bindings_spec() == Some(*r),
            old(self).is_fresh() ==> *final(self) == *old(self),
            old(self).is_fresh() ==> final(self).rebuilds_spec() == old(self).rebuilds_spec(),
            !old(self).is_fresh() ==> final(self).rebuilds_spec() == old(self).rebuilds_spec()
                + 1,
    {
        let rebuild = match self.state {
            CacheState::Stale => true,
            CacheState::Fresh => false,
        };
        if rebuild {
            let mut offsets = self.store.prefix_offsets();
            let last = offsets[5];
            offsets.push(last);
            let faces = self.store.concat_all();
            proof {
                lemma_concat_len(self.store.seqs());
            }
            let descriptor_bytes: Vec<u8> = if faces.len() == 0 {
                let mut b: Vec<u8> = Vec::new();
                b.push(0u8);
                proof {
                    assert(b@ =~= payload_bytes(self.store.seqs()));
                }
                b
            } else {
                faces_to_bytes(&faces)
            };
            let built = BindingSet { offsets, descriptor_bytes };
            proof {
                assert(binding_matches(built, self.store.seqs()));
            }
            self.bindings = Some(built);
            self.state = CacheState::Fresh;
            self.rebuilds = self.rebuilds + 1;
        }
        match &self.bindings {
            Some(b) => b,
            None => unreached(),
        }
    }
}

/// Law: a well-formed Fresh cache always serves contents derived from
/// its current store — no stale binding set can be observed.
pub proof fn lemma_fresh_cache_is_current(c: BindingCache)
    requires
        c.wf(),
        c.is_fresh(),
    ensures
        c.bindings_spec() matches Some(b) && binding_matches(b, c.seqs()),
{
}

} // verus!
