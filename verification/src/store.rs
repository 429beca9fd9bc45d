//! Model of the content-addressed store collaborator.
//!
//! The store keeps three tables keyed by content digest: container headers,
//! containers and chunks. Storing is an idempotent upsert, retrieval of an
//! absent key is not an error, and `filter_unknown` reports which of a list
//! of candidate chunk ids the store does not yet hold. A worker owns one
//! such table set as its view of the external store; the surrounding
//! process mirrors every write to the real store service.

use vstd::prelude::*;

use crate::idmap::IdMap;
use crate::ids::{Chunk, ChunkId, Container, ContainerHeader, ContainerId, ContainerV, HeaderV};

verus! {

/// The set of digests that a list of chunk ids mentions.
pub open spec fn id_set(s: Seq<ChunkId>) -> Set<Seq<u8>> {
    Set::new(|k: Seq<u8>| exists|i: int| 0 <= i < s.len() && (#[trigger] s[i])@ == k)
}

/// No digest appears twice in the list.
pub open spec fn distinct_ids(s: Seq<ChunkId>) -> bool {
    forall|i: int, j: int| 0 <= i < j < s.len() ==> (#[trigger] s[i])@ != (#[trigger] s[j])@
}

/// Whether a list of chunk ids mentions the given digest.
pub fn ids_contain(v: &Vec<ChunkId>, id: &ChunkId) -> (r: bool)
    ensures
        r == id_set(v@).contains(id@),
{
    let mut i: usize = 0;
    while i < v.len()
        invariant
            i <= v@.len(),
            forall|j: int| 0 <= j < i ==> (#[trigger] v@[j])@ != id@,
        decreases v@.len() - i,
    {
        if v[i].eq_id(id) {
            assert(id_set(v@).contains(id@));
            return true;
        }
        i = i + 1;
    }
    assert(!id_set(v@).contains(id@));
    false
}

/// The three content tables of the store.
pub struct Store {
    pub headers: IdMap<ContainerHeader>,
    pub containers: IdMap<Container>,
    pub chunks: IdMap<Chunk>,
}

impl Store {
    /// Every table keys each digest at most once.
    pub open spec fn wf(&self) -> bool {
        &&& self.headers.wf()
        &&& self.containers.wf()
        &&& self.chunks.wf()
    }

    /// What the header table states, by container id.
    pub open spec fn headers_v(&self) -> Map<Seq<u8>, HeaderV> {
        self.headers@.map_values(|h: ContainerHeader| h@)
    }

    /// What the container table states, by container id.
    pub open spec fn containers_v(&self) -> Map<Seq<u8>, ContainerV> {
        self.containers@.map_values(|c: Container| c@)
    }

    /// The chunk bytes held, by chunk id.
    pub open spec fn chunks_v(&self) -> Map<Seq<u8>, Seq<u8>> {
        self.chunks@.map_values(|c: Chunk| c@)
    }

    /// An empty store.
    pub fn new() -> (r: Store)
        ensures
            r.wf(),
            r.headers@ == Map::<Seq<u8>, ContainerHeader>::empty(),
            r.containers@ == Map::<Seq<u8>, Container>::empty(),
            r.chunks@ == Map::<Seq<u8>, Chunk>::empty(),
    {
        Store { headers: IdMap::new(), containers: IdMap::new(), chunks: IdMap::new() }
    }

    /// Upserts a container header under its container id.
    pub fn store_header(&mut self, id: &ContainerId, header: ContainerHeader)
        requires
            old(self).wf(),
        ensures
            final(self).wf(),
            final(self).headers_v() == old(self).headers_v().insert(id@, header@),
            final(self).containers_v() == old(self).containers_v(),
            final(self).chunks_v() == old(self).chunks_v(),
    {
        let ghost h = header@;
        self.headers.insert(id.bytes, header);
        proof {
            assert(final(self).headers_v() =~= old(self).headers_v().insert(id@, h));
        }
    }

    /// The header stored under a container id, if any; a miss is not an
    /// error.
    pub fn retrieve_header(&self, id: &ContainerId) -> (r: Option<&ContainerHeader>)
        requires
            self.wf(),
        ensures
            match r {
                Some(h) => self.headers_v().contains_key(id@) && h@ == self.headers_v()[id@],
                None => !self.headers_v().contains_key(id@),
            },
    {
        self.headers.get(&id.bytes)
    }

    /// Upserts a container under its container id.
    pub fn store_container(&mut self, id: &ContainerId, container: Container)
        requires
            old(self).wf(),
        ensures
            final(self).wf(),
            final(self).containers_v() == old(self).containers_v().insert(id@, container@),
            final(self).headers_v() == old(self).headers_v(),
            final(self).chunks_v() == old(self).chunks_v(),
    {
        let ghost c = container@;
        self.containers.insert(id.bytes, container);
        proof {
            assert(final(self).containers_v() =~= old(self).containers_v().insert(id@, c));
        }
    }

    /// The container stored under a container id, if any.
    pub fn retrieve_container(&self, id: &ContainerId) -> (r: Option<&Container>)
        requires
            self.wf(),
        ensures
            match r {
                Some(c) => self.containers_v().contains_key(id@) && c@ == self.containers_v()[id@],
                None => !self.containers_v().contains_key(id@),
            },
    {
        self.containers.get(&id.bytes)
    }

    /// Upserts a chunk under its chunk id.
    pub fn store_chunk(&mut self, id: &ChunkId, chunk: Chunk)
        requires
            old(self).wf(),
        ensures
            final(self).wf(),
            final(self).chunks_v() == old(self).chunks_v().insert(id@, chunk@),
            final(self).headers_v() == old(self).headers_v(),
            final(self).containers_v() == old(self).containers_v(),
    {
        let ghost c = chunk@;
        self.chunks.insert(id.bytes, chunk);
        proof {
            assert(final(self).chunks_v() =~= old(self).chunks_v().insert(id@, c));
        }
    }

    /// The chunk stored under a chunk id, if any.
    pub fn retrieve_chunk(&self, id: &ChunkId) -> (r: Option<&Chunk>)
        requires
            self.wf(),
        ensures
            match r {
                Some(c) => self.chunks_v().contains_key(id@) && c@ == self.chunks_v()[id@],
                None => !self.chunks_v().contains_key(id@),
            },
    {
        self.chunks.get(&id.bytes)
    }

    /// The candidate chunk ids that the store does not yet hold, without
    /// repetition, in the order of their first occurrence.
    pub fn filter_unknown(&self, candidates: &Vec<ChunkId>) -> (r: Vec<ChunkId>)
        ensures
            distinct_ids(r@),
            id_set(r@) == id_set(candidates@).difference(self.chunks_v().dom()),
            r@.len() <= candidates@.len(),
    {
        proof {
            assert(self.chunks_v().dom() =~= self.chunks@.dom());
        }
        let mut r: Vec<ChunkId> = Vec::new();
        let mut i: usize = 0;
        while i < candidates.len()
            invariant
                i <= candidates@.len(),
                r@.len() <= i,
                distinct_ids(r@),
                id_set(r@) =~= id_set(candidates@.take(i as int)).difference(self.chunks@.dom()),
            decreases candidates@.len() - i,
        {
            let ghost prev = r@;
            if !self.chunks.contains_key(&candidates[i].bytes) && !ids_contain(&r, &candidates[i]) {
                r.push(candidates[i]);
                proof {
                    assert(r@.drop_last() =~= prev);
                    assert(distinct_ids(r@)) by {
                        assert forall|a: int, b: int|
                            0 <= a < b < r@.len() implies (#[trigger] r@[a])@ != (#[trigger] r@[b])@ by {
                            if b < r@.len() - 1 {
                                assert(prev[a]@ != prev[b]@);
                            } else {
                                assert(id_set(prev).contains(r@[a]@));
                            }
                        }
                    }
                }
            }
            proof {
                assert(candidates@.take(i + 1).drop_last() =~= candidates@.take(i as int));
                assert(id_set(r@) =~= id_set(candidates@.take(i + 1)).difference(
                    self.chunks@.dom(),
                )) by {
                    assert forall|k: Seq<u8>| id_set(r@).contains(k) implies id_set(
                        candidates@.take(i + 1),
                    ).difference(self.chunks@.dom()).contains(k) by {
                        let j = choose|j: int| 0 <= j < r@.len() && (#[trigger] r@[j])@ == k;
                        if j < prev.len() {
                            assert(id_set(prev).contains(k));
                            let j2 = choose|j2: int|
                                0 <= j2 < candidates@.take(i as int).len() && (#[trigger] candidates@.take(
                                    i as int,
                                )[j2])@ == k;
                            assert(candidates@.take(i + 1)[j2]@ == k);
                        } else {
                            assert(candidates@.take(i + 1)[i as int]@ == k);
                        }
                    }
                    assert forall|k: Seq<u8>| id_set(candidates@.take(i + 1)).difference(
                        self.chunks@.dom(),
                    ).contains(k) implies id_set(r@).contains(k) by {
                        let j = choose|j: int|
                            0 <= j < candidates@.take(i + 1).len() && (#[trigger] candidates@.take(
                                i + 1,
                            )[j])@ == k;
                        if j < i {
                            assert(candidates@.take(i as int)[j]@ == k);
                            assert(id_set(candidates@.take(i as int)).difference(
                                self.chunks@.dom(),
                            ).contains(k));
                            assert(id_set(prev).contains(k));
                            let j2 = choose|j2: int|
                                0 <= j2 < prev.len() && (#[trigger] prev[j2])@ == k;
                            assert(r@[j2]@ == k);
                        } else {
                            assert(candidates@[i as int]@ == k);
                            if id_set(prev).contains(k) {
                                let j2 = choose|j2: int|
                                    0 <= j2 < prev.len() && (#[trigger] prev[j2])@ == k;
                                assert(r@[j2]@ == k);
                            } else {
                                assert(r@ == prev.push(candidates@[i as int]));
                                assert(r@[r@.len() - 1]@ == k);
                            }
                            assert(id_set(r@).contains(k));
                        }
                    }
                }
            }
            i = i + 1;
        }
        proof {
            assert(candidates@.take(candidates@.len() as int) =~= candidates@);
        }
        r
    }
}

/// Storing a value twice under one key leaves the table exactly as one
/// store left it: the upsert is idempotent.
pub proof fn lemma_store_idempotent<V>(table: Map<Seq<u8>, V>, k: Seq<u8>, v: V)
    ensures
        table.insert(k, v).insert(k, v) == table.insert(k, v),
{
    assert(table.insert(k, v).insert(k, v) =~= table.insert(k, v));
}

} // verus!
