use vstd::prelude::*;

use crate::error::ServiceError;
use crate::index::{pair_entries, SentenceIndex};
use crate::ranking::{hits_view, Neighbor};
use crate::vector::{Point, DIM};

verus! {

/// Every row of `rows` has exactly `DIM` lanes.
pub open spec fn rows_fit(rows: Seq<Vec<u32>>) -> bool {
    forall|i: int| 0 <= i < rows.len() ==> (#[trigger] rows[i])@.len() == DIM
}

/// `points` are the rows of `rows`, one for one.
pub open spec fn points_match(points: Seq<Point>, rows: Seq<Vec<u32>>) -> bool {
    &&& points.len() == rows.len()
    &&& forall|i: int| 0 <= i < rows.len() ==> (#[trigger] points[i])@ == rows[i]@ && points[i].wf()
}

/// Turns the vectors of a request into points; any row of the wrong length
/// makes the whole request `BadInput`.
pub fn points_from_rows(rows: &Vec<Vec<u32>>) -> (r: Result<Vec<Point>, ServiceError>)
    ensures
        r is Ok <==> rows_fit(rows@),
        r matches Ok(ps) ==> points_match(ps@, rows@),
        !rows_fit(rows@) ==> r == Err::<Vec<Point>, ServiceError>(ServiceError::BadInput),
{
    let mut points: Vec<Point> = Vec::with_capacity(rows.len());
    let mut i: usize = 0;
    while i < rows.len()
        invariant
            i <= rows@.len(),
            rows_fit(rows@.take(i as int)),
            points_match(points@, rows@.take(i as int)),
        decreases rows@.len() - i,
    {
        match Point::from_slice(rows[i].as_slice()) {
            Ok(p) => {
                points.push(p);
            },
            Err(_) => {
                assert(!rows_fit(rows@)) by {
                    assert(rows@[i as int]@.len() != DIM);
                }
                return Err(ServiceError::BadInput);
            },
        }
        proof {
            assert forall|m: int| 0 <= m < i + 1 implies (#[trigger] rows@.take(i as int + 1)[m])@.len() == DIM by {
                if m < i {
                    assert(rows@.take(i as int + 1)[m] == rows@.take(i as int)[m]);
                }
            }
            assert forall|m: int| 0 <= m < i + 1 implies (#[trigger] points@[m])@ == rows@.take(i as int + 1)[m]@ && points@[m].wf() by {
                if m < i {
                    assert(rows@.take(i as int + 1)[m] == rows@.take(i as int)[m]);
                }
            }
        }
        i = i + 1;
    }
    assert(rows@.take(rows@.len() as int) =~= rows@);
    Ok(points)
}

/// The index rebuilt from a request's sentences and vectors, which must pair
/// up one for one and have the right length.
pub fn init_index(sentences: Vec<String>, vectors: &Vec<Vec<u32>>) -> (r: Result<SentenceIndex, ServiceError>)
    ensures
        r is Ok <==> (rows_fit(vectors@) && sentences@.len() == vectors@.len()),
        r is Err ==> r == Err::<SentenceIndex, ServiceError>(ServiceError::BadInput),
        r matches Ok(ix) ==> ix.wf() && ix@.len() == sentences@.len() && (forall|i: int|
            0 <= i < sentences@.len() ==> #[trigger] ix@[i] == (vectors@[i]@, sentences@[i]@)),
{
    let points = points_from_rows(vectors)?;
    let r = SentenceIndex::build(points, sentences);
    proof {
        if r is Ok {
            assert forall|i: int| 0 <= i < sentences@.len() implies #[trigger] pair_entries(points@, sentences@)[i] == (vectors@[i]@, sentences@[i]@) by {
                assert(points@[i]@ == vectors@[i]@);
            }
        }
    }
    r
}

/// The index held in a restored snapshot, from its points and their payloads
/// in graph order; a snapshot that does not pair them up with points of the
/// right length is `Corrupt`.
pub fn restore_index(payloads: Vec<String>, rows: &Vec<Vec<u32>>) -> (r: Result<SentenceIndex, ServiceError>)
    ensures
        r is Ok <==> (rows_fit(rows@) && payloads@.len() == rows@.len()),
        r is Err ==> r == Err::<SentenceIndex, ServiceError>(ServiceError::Corrupt),
        r matches Ok(ix) ==> ix.wf() && ix@.len() == payloads@.len() && (forall|i: int|
            0 <= i < payloads@.len() ==> #[trigger] ix@[i] == (rows@[i]@, payloads@[i]@)),
{
    match init_index(payloads, rows) {
        Ok(ix) => Ok(ix),
        Err(_) => Err(ServiceError::Corrupt),
    }
}

/// Adds a request's sentence/vector pairs to the index, in request order.
/// A malformed request changes nothing.
pub fn update_index(index: &mut SentenceIndex, sentences: Vec<String>, vectors: &Vec<Vec<u32>>) -> (r: Result<(), ServiceError>)
    requires
        old(index).wf(),
    ensures
        final(index).wf(),
        r is Ok <==> (rows_fit(vectors@) && sentences@.len() == vectors@.len()),
        r is Err ==> r == Err::<(), ServiceError>(ServiceError::BadInput) && final(index)@ == old(index)@,
        r is Ok ==> final(index)@ == old(index)@ + Seq::new(sentences@.len(), |i: int| (vectors@[i]@, sentences@[i]@)),
{
    if sentences.len() != vectors.len() {
        return Err(ServiceError::BadInput);
    }
    let points = points_from_rows(vectors)?;
    let ghost start = index@;
    let ghost added = Seq::new(sentences@.len(), |i: int| (vectors@[i]@, sentences@[i]@));
    let mut i: usize = 0;
    while i < points.len()
        invariant
            i <= points@.len(),
            points@.len() == sentences@.len(),
            points_match(points@, vectors@),
            added == Seq::new(sentences@.len(), |i: int| (vectors@[i]@, sentences@[i]@)),
            index.wf(),
            index@ == start + added.take(i as int),
        decreases points@.len() - i,
    {
        index.insert(points[i].clone_point(), sentences[i].clone());
        assert(start + added.take(i as int + 1) =~= (start + added.take(i as int)).push(added[i as int]));
        i = i + 1;
    }
    assert(added.take(i as int) =~= added);
    Ok(())
}

/// The body answered to a nearest-point query: the nearest sentence followed
/// by a newline, or nothing when the index holds nothing.
pub fn nearest_line(ranked: &Vec<Neighbor>) -> (r: String)
    ensures
        ranked@.len() == 0 ==> r@ == Seq::<char>::empty(),
        ranked@.len() > 0 ==> r@ == hits_view(ranked@)[0].0.push('\n'),
{
    if ranked.len() == 0 {
        return String::new();
    }
    let line = ranked[0].payload.clone();
    let r = line.concat("\n");
    proof {
        reveal_strlit("\n");
    }
    assert(r@ =~= ranked@[0].payload@.push('\n'));
    r
}

} // verus!
