use vstd::prelude::*;

verus! {

/// Distance at or below which a fresh vector counts as already indexed: the
/// bit pattern of the single-precision value 0.002.
pub const INSERT_THRESHOLD: u32 = 0x3b03_126f;

/// Where the vector of a sentence came from.
#[derive(Clone, Copy, Debug, PartialEq, Eq, Structural)]
pub enum Source {
    /// Read back from the metadata store.
    Cache,
    /// Computed by the embedding source for this request.
    Fresh,
}

/// What happened to the index for one sentence.
#[derive(Clone, Copy, Debug, PartialEq, Eq, Structural)]
pub enum Insertion {
    Success,
    NoInsert,
    AlreadyExists,
}

/// The wording of each outcome on the wire.
pub open spec fn insertion_text(i: Insertion) -> Seq<char> {
    match i {
        Insertion::Success => "success"@,
        Insertion::NoInsert => "no insert"@,
        Insertion::AlreadyExists => "already exists"@,
    }
}

impl Insertion {
    /// The outcome as it is reported.
    pub fn text(&self) -> (r: String)
        ensures
            r@ == insertion_text(*self),
    {
        match self {
            Insertion::Success => String::from_str("success"),
            Insertion::NoInsert => String::from_str("no insert"),
            Insertion::AlreadyExists => String::from_str("already exists"),
        }
    }
}

/// A vector whose nearest indexed neighbour lies at `nearest` is far enough
/// from everything indexed; with no neighbour at all it always is.
pub open spec fn clears_gate(nearest: Option<u32>) -> bool {
    match nearest {
        Some(d) => d > INSERT_THRESHOLD,
        None => true,
    }
}

/// The outcome for a sentence. A cached vector never enters the index a
/// second time; a fresh one enters only when insertion is requested and its
/// nearest neighbour lies beyond the threshold.
pub open spec fn insertion_for(should_insert: bool, source: Source, nearest: Option<u32>) -> Insertion {
    if source == Source::Cache {
        Insertion::AlreadyExists
    } else if should_insert && clears_gate(nearest) {
        Insertion::Success
    } else {
        Insertion::NoInsert
    }
}

/// A fresh vector is written to the metadata store when the request asks
/// for it, before the index is touched.
pub open spec fn writes_back(should_insert: bool, source: Source) -> bool {
    should_insert && source == Source::Fresh
}

/// Decides the outcome for one sentence.
pub fn decide_insertion(should_insert: bool, source: Source, nearest: Option<u32>) -> (r: Insertion)
    ensures
        r == insertion_for(should_insert, source, nearest),
{
    match source {
        Source::Cache => Insertion::AlreadyExists,
        Source::Fresh => {
            let clears = match nearest {
                Some(d) => d > INSERT_THRESHOLD,
                None => true,
            };
            if should_insert && clears {
                Insertion::Success
            } else {
                Insertion::NoInsert
            }
        },
    }
}

/// A fresh sentence whose nearest indexed vector lies within the threshold
/// is never inserted, yet it is written to the metadata store whenever the
/// request asks for insertion.
pub proof fn lemma_insertion_gate(should_insert: bool, d: u32)
    requires
        d <= INSERT_THRESHOLD,
    ensures
        insertion_for(should_insert, Source::Fresh, Some(d)) != Insertion::Success,
        should_insert ==> writes_back(should_insert, Source::Fresh),
{
}

} // verus!
