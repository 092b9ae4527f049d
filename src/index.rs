use vstd::prelude::*;

use crate::error::ServiceError;
use crate::vector::{Point, DIM};

verus! {

/// The entries of the nearest-neighbour index, in insertion order: a multimap
/// from points to the sentences they were embedded from. The search graph is
/// built over exactly these entries, in this order.
pub struct SentenceIndex {
    points: Vec<Point>,
    payloads: Vec<String>,
}

impl View for SentenceIndex {
    type V = Seq<(Seq<u32>, Seq<char>)>;

    closed spec fn view(&self) -> Seq<(Seq<u32>, Seq<char>)> {
        Seq::new(self.points@.len(), |i: int| (self.points@[i]@, self.payloads@[i]@))
    }
}

/// Every point of `entries` has exactly `DIM` lanes.
pub open spec fn all_dim(entries: Seq<(Seq<u32>, Seq<char>)>) -> bool {
    forall|i: int| 0 <= i < entries.len() ==> (#[trigger] entries[i]).0.len() == DIM
}

/// The entries made by pairing `points` with `payloads`.
pub open spec fn pair_entries(points: Seq<Point>, payloads: Seq<String>) -> Seq<(Seq<u32>, Seq<char>)>
    recommends
        points.len() == payloads.len(),
{
    Seq::new(points.len(), |i: int| (points[i]@, payloads[i]@))
}

impl SentenceIndex {
    pub closed spec fn wf(&self) -> bool {
        &&& self.points@.len() == self.payloads@.len()
        &&& forall|i: int| 0 <= i < self.points@.len() ==> (#[trigger] self.points@[i]).wf()
    }

    /// A well-formed index holds only points of `DIM` lanes.
    pub proof fn lemma_dims(&self)
        requires
            self.wf(),
        ensures
            all_dim(self@),
    {
        assert forall|i: int| 0 <= i < self@.len() implies (#[trigger] self@[i]).0.len() == DIM by {
            assert(self.points@[i].wf());
        }
    }

    /// An index with no entries.
    pub fn new() -> (r: SentenceIndex)
        ensures
            r.wf(),
            r@ == Seq::<(Seq<u32>, Seq<char>)>::empty(),
    {
        let r = SentenceIndex { points: Vec::new(), payloads: Vec::new() };
        assert(r@ =~= Seq::<(Seq<u32>, Seq<char>)>::empty());
        r
    }

    /// Builds an index from scratch, pairing the i-th point with the i-th
    /// sentence; the two lists must be of equal length.
    pub fn build(points: Vec<Point>, payloads: Vec<String>) -> (r: Result<SentenceIndex, ServiceError>)
        requires
            forall|i: int| 0 <= i < points@.len() ==> (#[trigger] points@[i]).wf(),
        ensures
            r is Ok <==> points@.len() == payloads@.len(),
            r matches Ok(ix) ==> ix.wf() && ix@ == pair_entries(points@, payloads@),
            points@.len() != payloads@.len() ==> r == Err::<SentenceIndex, ServiceError>(
                ServiceError::BadInput,
            ),
    {
        if points.len() != payloads.len() {
            return Err(ServiceError::BadInput);
        }
        let r = SentenceIndex { points, payloads };
        assert(r@ =~= pair_entries(points@, payloads@));
        Ok(r)
    }

    /// Number of entries.
    pub fn size(&self) -> (r: usize)
        requires
            self.wf(),
        ensures
            r == self@.len(),
    {
        self.points.len()
    }

    /// The index holds no entry.
    pub fn is_empty(&self) -> (r: bool)
        requires
            self.wf(),
        ensures
            r == (self@.len() == 0),
    {
        self.points.len() == 0
    }

    /// Adds one entry after all earlier ones, which stay as they were.
    pub fn insert(&mut self, point: Point, payload: String)
        requires
            old(self).wf(),
            point.wf(),
        ensures
            final(self).wf(),
            final(self)@ == old(self)@.push((point@, payload@)),
    {
        let ghost before = self@;
        self.points.push(point);
        self.payloads.push(payload);
        assert(self@ =~= before.push((point@, payload@)));
    }

    /// Drops every entry.
    pub fn clear(&mut self)
        ensures
            final(self).wf(),
            final(self)@.len() == 0,
    {
        self.points.clear();
        self.payloads.clear();
    }

    /// The point of the i-th entry.
    pub fn point(&self, i: usize) -> (r: &Point)
        requires
            self.wf(),
            i < self@.len(),
        ensures
            r@ == self@[i as int].0,
            r.wf(),
    {
        &self.points[i]
    }

    /// The sentence of the i-th entry.
    pub fn payload(&self, i: usize) -> (r: &String)
        requires
            self.wf(),
            i < self@.len(),
        ensures
            r@ == self@[i as int].1,
    {
        &self.payloads[i]
    }
}

} // verus!
