use vstd::prelude::*;

use crate::error::ServiceError;

verus! {

/// Number of lanes of every embedding vector.
pub const DIM: usize = 1536;

/// A point of the embedding space: exactly `DIM` lanes, each the bit pattern
/// of a single-precision value.
#[derive(Clone, Debug)]
pub struct Point {
    lanes: Vec<u32>,
}

impl View for Point {
    type V = Seq<u32>;

    closed spec fn view(&self) -> Seq<u32> {
        self.lanes@
    }
}

impl Point {
    /// Every point built by this library has exactly `DIM` lanes.
    pub open spec fn wf(&self) -> bool {
        self@.len() == DIM
    }

    /// Builds a point from its lanes; fails unless there are exactly `DIM`.
    pub fn from_slice(slice: &[u32]) -> (r: Result<Point, ServiceError>)
        ensures
            slice@.len() == DIM <==> r is Ok,
            r matches Ok(p) ==> p@ == slice@ && p.wf(),
            slice@.len() != DIM ==> r == Err::<Point, ServiceError>(
                ServiceError::BadDimension { expected: DIM, found: slice@.len() as usize },
            ),
    {
        if slice.len() != DIM {
            return Err(ServiceError::BadDimension { expected: DIM, found: slice.len() });
        }
        let mut lanes: Vec<u32> = Vec::with_capacity(DIM);
        let mut i: usize = 0;
        while i < slice.len()
            invariant
                i <= slice@.len(),
                lanes@ == slice@.subrange(0, i as int),
            decreases slice@.len() - i,
        {
            lanes.push(slice[i]);
            i = i + 1;
        }
        assert(lanes@ =~= slice@);
        Ok(Point { lanes })
    }

    /// Builds a point from an owned vector of lanes, without copying.
    pub fn from_vec(lanes: Vec<u32>) -> (r: Result<Point, ServiceError>)
        ensures
            lanes@.len() == DIM <==> r is Ok,
            r matches Ok(p) ==> p@ == lanes@ && p.wf(),
            lanes@.len() != DIM ==> r == Err::<Point, ServiceError>(
                ServiceError::BadDimension { expected: DIM, found: lanes@.len() as usize },
            ),
    {
        if lanes.len() != DIM {
            let found: usize = lanes.len();
            return Err(ServiceError::BadDimension { expected: DIM, found });
        }
        Ok(Point { lanes })
    }

    /// A copy of the point.
    pub fn clone_point(&self) -> (r: Point)
        ensures
            r@ == self@,
    {
        Point { lanes: self.lanes.clone() }
    }

    /// The lanes of the point, in order.
    pub fn lanes(&self) -> (r: &Vec<u32>)
        ensures
            r@ == self@,
    {
        &self.lanes
    }

    /// A copy of the lanes of the point.
    pub fn to_vec(&self) -> (r: Vec<u32>)
        ensures
            r@ == self@,
    {
        self.lanes.clone()
    }

    /// Reads back a cached vector, in either stored form: a plain list of
    /// lanes, or that list as the single element of an outer list. Anything
    /// else is `Corrupt`.
    pub fn from_stored(stored: StoredVector) -> (r: Result<Point, ServiceError>)
        ensures
            r is Ok <==> stored.holds_point(),
            r matches Ok(p) ==> p@ == stored.lanes_spec() && p.wf(),
            !stored.holds_point() ==> r == Err::<Point, ServiceError>(ServiceError::Corrupt),
    {
        match stored {
            StoredVector::Flat(lanes) => {
                if lanes.len() != DIM {
                    return Err(ServiceError::Corrupt);
                }
                Ok(Point { lanes })
            },
            StoredVector::Nested(mut rows) => {
                if rows.len() != 1 {
                    return Err(ServiceError::Corrupt);
                }
                let lanes = rows.pop().unwrap();
                if lanes.len() != DIM {
                    return Err(ServiceError::Corrupt);
                }
                Ok(Point { lanes })
            },
        }
    }
}

impl Default for Point {
    /// The origin: every lane is the pattern of `+0.0`, which is all zero bits.
    fn default() -> (r: Point)
        ensures
            r@ == Seq::new(DIM as nat, |i: int| 0u32),
            r.wf(),
    {
        Point { lanes: vec![0u32; DIM] }
    }
}

/// A cached vector as it was read back from the metadata store, before its
/// shape is checked.
#[derive(Clone, Debug)]
pub enum StoredVector {
    /// `[x, y, ...]`
    Flat(Vec<u32>),
    /// `[[x, y, ...], ...]`
    Nested(Vec<Vec<u32>>),
}

impl StoredVector {
    /// The stored value is one well-sized point.
    pub open spec fn holds_point(&self) -> bool {
        match self {
            StoredVector::Flat(l) => l@.len() == DIM,
            StoredVector::Nested(rows) => rows@.len() == 1 && rows@[0]@.len() == DIM,
        }
    }

    /// The lanes that a well-shaped stored value holds.
    pub open spec fn lanes_spec(&self) -> Seq<u32> {
        match self {
            StoredVector::Flat(l) => l@,
            StoredVector::Nested(rows) => rows@[0]@,
        }
    }
}

} // verus!
