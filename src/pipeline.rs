use vstd::prelude::*;

use crate::error::{ProviderFailure, ServiceError};
use crate::gate::{decide_insertion, insertion_for, writes_back, Insertion, Source};
use crate::index::SentenceIndex;
use crate::ranking::{
    hits_view, is_ascending, lemma_nearest_ascending, nearest, rank_neighbors, Neighbor, K_LABELLED,
    K_UNLABELLED,
};
use crate::vector::{Point, StoredVector, DIM};

verus! {

/// Where the processing of one sentence stands.
#[derive(Clone, Copy, Debug, PartialEq, Eq, Structural)]
pub enum Stage {
    /// Waiting for the cached vector of the sentence, if any.
    LookUp,
    /// Waiting for the embedding source.
    Embedding,
    /// Waiting for the metadata store to take the fresh vector.
    WritingBack,
    /// Waiting for the raw hits of the search graph.
    Searching,
    /// Waiting for the labels of the hits.
    Labelling,
    /// Finished: an answer or a failure was given.
    Done,
}

/// The answer for one sentence: the payloads and distances of its nearest
/// neighbours, nearest first, what happened to the index, and, for a labelled
/// request, the labels of those neighbours.
#[derive(Clone, Debug)]
pub struct MyResponse {
    pub search_result: Vec<String>,
    pub search_distance: Vec<u32>,
    pub insertion: Insertion,
    pub labels: Vec<String>,
}

/// What the outside world reports back to a sentence in progress.
#[derive(Debug)]
pub enum Event {
    /// The metadata store's answer for the sentence: nothing, or what it holds.
    Looked(Option<StoredVector>),
    /// The embedding source's answer.
    Embedded(Result<Vec<u32>, ProviderFailure>),
    /// The metadata store took the write, or failed.
    Stored(Result<(), ServiceError>),
    /// Raw hits of the search graph, in any order.
    Found(Vec<Neighbor>),
    /// The label stored for each hit, in hit order.
    Labels(Vec<Option<String>>),
}

/// What the outside world is asked to do next.
#[derive(Debug)]
pub enum Action {
    /// Read the cached vector of this sentence.
    LookUpVector(String),
    /// Compute the vector of this sentence.
    Embed(String),
    /// Upsert the vector of the sentence and, when there is one, its label.
    StoreVector { sentence: String, lanes: Vec<u32>, label: Option<String> },
    /// Ask the search graph for the hits nearest to these lanes; the `k`
    /// nearest are kept.
    Search { lanes: Vec<u32>, k: usize },
    /// Read the label of each of these sentences.
    LookUpLabels(Vec<String>),
    /// Answer the sentence.
    Respond(MyResponse),
    /// Give up on the sentence, and on the batch it belongs to.
    Fail(ServiceError),
}

/// The views of a sequence of strings.
pub open spec fn strings_view(s: Seq<String>) -> Seq<Seq<char>> {
    s.map_values(|x: String| x@)
}

/// The views of a sequence of optional strings.
pub open spec fn options_view(s: Seq<Option<String>>) -> Seq<Option<Seq<char>>> {
    s.map_values(|o: Option<String>|
        match o {
            Some(x) => Some(x@),
            None => None,
        })
}

pub open spec fn payloads_of(h: Seq<(Seq<char>, u32)>) -> Seq<Seq<char>> {
    h.map_values(|x: (Seq<char>, u32)| x.0)
}

pub open spec fn distances_of(h: Seq<(Seq<char>, u32)>) -> Seq<u32> {
    h.map_values(|x: (Seq<char>, u32)| x.1)
}

/// The distance of the nearest hit, if there is one.
pub open spec fn first_distance(h: Seq<(Seq<char>, u32)>) -> Option<u32> {
    if h.len() > 0 {
        Some(h[0].1)
    } else {
        None
    }
}

/// The labels that were found, in order; hits without a label add nothing.
pub open spec fn present_labels(s: Seq<Option<Seq<char>>>) -> Seq<Seq<char>>
    decreases s.len(),
{
    if s.len() == 0 {
        Seq::empty()
    } else {
        let rest = present_labels(s.drop_last());
        match s.last() {
            Some(l) => rest.push(l),
            None => rest,
        }
    }
}

/// A cached value counts only when it holds a well-sized point; anything
/// else is a miss, to be overwritten by a fresh embedding.
pub open spec fn lookup_source(c: Option<StoredVector>) -> Source {
    match c {
        Some(sv) => if sv.holds_point() {
            Source::Cache
        } else {
            Source::Fresh
        },
        None => Source::Fresh,
    }
}

/// The number of neighbours asked for.
pub open spec fn k_for(labelled: bool) -> usize {
    if labelled {
        K_LABELLED
    } else {
        K_UNLABELLED
    }
}

/// `r` reports these hits, this outcome and these labels.
pub open spec fn response_matches(
    r: MyResponse,
    hits: Seq<(Seq<char>, u32)>,
    insertion: Insertion,
    labels: Seq<Seq<char>>,
) -> bool {
    &&& strings_view(r.search_result@) == payloads_of(hits)
    &&& r.search_distance@ == distances_of(hits)
    &&& r.insertion == insertion
    &&& strings_view(r.labels@) == labels
}

/// `a` answers with these hits, this outcome and these labels.
pub open spec fn responds(
    a: Action,
    hits: Seq<(Seq<char>, u32)>,
    insertion: Insertion,
    labels: Seq<Seq<char>>,
) -> bool {
    a matches Action::Respond(r) && response_matches(r, hits, insertion, labels)
}

/// The event that a sentence waits for at each stage.
pub open spec fn expects(stage: Stage, e: Event) -> bool {
    match stage {
        Stage::LookUp => e is Looked,
        Stage::Embedding => e is Embedded,
        Stage::WritingBack => e is Stored,
        Stage::Searching => e is Found,
        Stage::Labelling => e is Labels,
        Stage::Done => false,
    }
}

/// Builds the answer for these hits.
pub fn make_response(hits: &Vec<Neighbor>, insertion: Insertion, labels: Vec<String>) -> (r: MyResponse)
    ensures
        response_matches(r, hits_view(hits@), insertion, strings_view(labels@)),
{
    let mut search_result: Vec<String> = Vec::with_capacity(hits.len());
    let mut search_distance: Vec<u32> = Vec::with_capacity(hits.len());
    let mut i: usize = 0;
    while i < hits.len()
        invariant
            i <= hits@.len(),
            search_result@.len() == i,
            strings_view(search_result@) == payloads_of(hits_view(hits@)).take(i as int),
            search_distance@ == distances_of(hits_view(hits@)).take(i as int),
        decreases hits@.len() - i,
    {
        let ghost prev = search_result@;
        let p = hits[i].payload.clone();
        search_result.push(p);
        search_distance.push(hits[i].distance);
        assert(hits_view(hits@)[i as int] == hits@[i as int]@);
        assert forall|j: int| 0 <= j < i + 1 implies #[trigger] strings_view(search_result@)[j]
            == payloads_of(hits_view(hits@))[j] by {
            if j < i {
                assert(search_result@[j] == prev[j]);
                assert(strings_view(prev)[j] == payloads_of(hits_view(hits@)).take(i as int)[j]);
            }
        }
        assert(strings_view(search_result@) =~= payloads_of(hits_view(hits@)).take(i as int + 1));
        assert(search_distance@ =~= distances_of(hits_view(hits@)).take(i as int + 1));
        i = i + 1;
    }
    assert(payloads_of(hits_view(hits@)).take(i as int) =~= payloads_of(hits_view(hits@)));
    assert(distances_of(hits_view(hits@)).take(i as int) =~= distances_of(hits_view(hits@)));
    MyResponse { search_result, search_distance, insertion, labels }
}

/// Gathers the labels that were found, in hit order.
pub fn collect_labels(found: &Vec<Option<String>>) -> (r: Vec<String>)
    ensures
        strings_view(r@) == present_labels(options_view(found@)),
{
    let ghost all = options_view(found@);
    let mut out: Vec<String> = Vec::new();
    let mut i: usize = 0;
    while i < found.len()
        invariant
            i <= found@.len(),
            all == options_view(found@),
            strings_view(out@) == present_labels(all.take(i as int)),
        decreases found@.len() - i,
    {
        assert(all.take(i as int + 1).drop_last() =~= all.take(i as int));
        match &found[i] {
            Some(l) => {
                out.push(l.clone());
                assert(strings_view(out@) =~= present_labels(all.take(i as int)).push(l@));
            },
            None => {},
        }
        i = i + 1;
    }
    assert(all.take(i as int) =~= all);
    out
}

/// The processing of one sentence of a request.
pub struct SentenceTask {
    sentence: String,
    label: Option<String>,
    should_insert: bool,
    stage: Stage,
    source: Source,
    point: Point,
    hits: Vec<Neighbor>,
    insertion: Insertion,
}

impl SentenceTask {
    pub closed spec fn sentence_spec(&self) -> Seq<char> {
        self.sentence@
    }

    pub closed spec fn label_spec(&self) -> Option<Seq<char>> {
        match self.label {
            Some(l) => Some(l@),
            None => None,
        }
    }

    /// The request is labelled.
    pub closed spec fn labelled(&self) -> bool {
        self.label is Some
    }

    pub closed spec fn should_insert_spec(&self) -> bool {
        self.should_insert
    }

    pub closed spec fn stage_spec(&self) -> Stage {
        self.stage
    }

    pub closed spec fn source_spec(&self) -> Source {
        self.source
    }

    /// The vector of the sentence, once known.
    pub closed spec fn point_spec(&self) -> Seq<u32> {
        self.point@
    }

    /// The ranked hits, once searched.
    pub closed spec fn hits_spec(&self) -> Seq<(Seq<char>, u32)> {
        hits_view(self.hits@)
    }

    pub closed spec fn insertion_spec(&self) -> Insertion {
        self.insertion
    }

    pub closed spec fn wf(&self) -> bool {
        &&& self.point.wf()
        &&& (self.stage == Stage::Embedding || self.stage == Stage::WritingBack) ==> self.source
            == Source::Fresh
        &&& is_ascending(hits_view(self.hits@))
        &&& self.hits@.len() <= k_for(self.label is Some)
    }

    /// The same sentence and request, further along.
    pub open spec fn same_request(&self, other: &SentenceTask) -> bool {
        &&& other.sentence_spec() == self.sentence_spec()
        &&& other.label_spec() == self.label_spec()
        &&& other.labelled() == self.labelled()
        &&& other.should_insert_spec() == self.should_insert_spec()
    }

    /// With the vector known: bootstraps an empty index with this one entry
    /// and answers at once, or asks for a search.
    pub open spec fn proceeds(
        &self,
        after: &SentenceTask,
        before_ix: Seq<(Seq<u32>, Seq<char>)>,
        after_ix: Seq<(Seq<u32>, Seq<char>)>,
        a: Action,
    ) -> bool {
        if before_ix.len() == 0 {
            &&& after_ix == seq![(after.point_spec(), self.sentence_spec())]
            &&& after.stage_spec() == Stage::Done
            &&& responds(
                a,
                Seq::empty(),
                if after.source_spec() == Source::Cache {
                    Insertion::AlreadyExists
                } else {
                    Insertion::Success
                },
                Seq::empty(),
            )
        } else {
            &&& after_ix == before_ix
            &&& after.stage_spec() == Stage::Searching
            &&& a matches Action::Search { lanes, k } && lanes@ == after.point_spec() && k == k_for(
                self.labelled(),
            )
        }
    }

    /// Starts on a sentence: its cached vector is looked up first.
    pub fn new(sentence: String, label: Option<String>, should_insert: bool) -> (r: (SentenceTask, Action))
        ensures
            r.0.wf(),
            r.0.stage_spec() == Stage::LookUp,
            r.0.sentence_spec() == sentence@,
            r.0.label_spec() == (match label {
                Some(l) => Some(l@),
                None => None::<Seq<char>>,
            }),
            r.0.labelled() == label is Some,
            r.0.should_insert_spec() == should_insert,
            r.1 matches Action::LookUpVector(s) && s@ == sentence@,
    {
        let task = SentenceTask {
            sentence: sentence.clone(),
            label,
            should_insert,
            stage: Stage::LookUp,
            source: Source::Fresh,
            point: Point::default(),
            hits: Vec::new(),
            insertion: Insertion::NoInsert,
        };
        assert(is_ascending(hits_view(task.hits@)));
        (task, Action::LookUpVector(sentence))
    }

    pub fn stage(&self) -> (r: Stage)
        ensures
            r == self.stage_spec(),
    {
        self.stage
    }

    /// The task is waiting for this kind of event.
    pub fn accepts(&self, e: &Event) -> (r: bool)
        ensures
            r == expects(self.stage_spec(), *e),
    {
        match self.stage {
            Stage::LookUp => matches!(e, Event::Looked(_)),
            Stage::Embedding => matches!(e, Event::Embedded(_)),
            Stage::WritingBack => matches!(e, Event::Stored(_)),
            Stage::Searching => matches!(e, Event::Found(_)),
            Stage::Labelling => matches!(e, Event::Labels(_)),
            Stage::Done => false,
        }
    }

    fn finish(&mut self, e: ServiceError) -> (a: Action)
        requires
            old(self).wf(),
        ensures
            final(self).wf(),
            old(self).same_request(final(self)),
            final(self).stage_spec() == Stage::Done,
            final(self).source_spec() == old(self).source_spec(),
            final(self).point_spec() == old(self).point_spec(),
            a == Action::Fail(e),
    {
        self.stage = Stage::Done;
        Action::Fail(e)
    }

    fn with_vector(&mut self, index: &mut SentenceIndex) -> (a: Action)
        requires
            old(self).wf(),
            old(index).wf(),
        ensures
            final(self).wf(),
            final(index).wf(),
            old(self).same_request(final(self)),
            final(self).source_spec() == old(self).source_spec(),
            final(self).point_spec() == old(self).point_spec(),
            old(self).proceeds(final(self), old(index)@, final(index)@, a),
    {
        if index.is_empty() {
            index.insert(self.point.clone_point(), self.sentence.clone());
            assert(index@ =~= seq![(self.point@, self.sentence@)]);
            let insertion = match self.source {
                Source::Cache => Insertion::AlreadyExists,
                Source::Fresh => Insertion::Success,
            };
            self.insertion = insertion;
            self.stage = Stage::Done;
            let none: Vec<Neighbor> = Vec::new();
            let no_labels: Vec<String> = Vec::new();
            let r = make_response(&none, insertion, no_labels);
            assert(hits_view(none@) =~= Seq::<(Seq<char>, u32)>::empty());
            assert(strings_view(no_labels@) =~= Seq::<Seq<char>>::empty());
            Action::Respond(r)
        } else {
            self.stage = Stage::Searching;
            let k: usize = if self.label.is_some() {
                K_LABELLED
            } else {
                K_UNLABELLED
            };
            Action::Search { lanes: self.point.to_vec(), k }
        }
    }

    /// One step of the pipeline: on this event the task moves to its next
    /// state and yields an action, while the entries of the index go from the
    /// first sequence to the second.
    pub open spec fn stepped(
        &self,
        after: &SentenceTask,
        before_ix: Seq<(Seq<u32>, Seq<char>)>,
        after_ix: Seq<(Seq<u32>, Seq<char>)>,
        event: Event,
        a: Action,
    ) -> bool {
        &&& self.same_request(after)
        // the cache answered
        &&& (event matches Event::Looked(c) ==> {
            &&& after.source_spec() == lookup_source(c)
            &&& lookup_source(c) == Source::Cache ==> {
                &&& after.point_spec() == c.unwrap().lanes_spec()
                &&& self.proceeds(after, before_ix, after_ix, a)
            }
            &&& lookup_source(c) == Source::Fresh ==> {
                &&& after_ix == before_ix
                &&& after.stage_spec() == Stage::Embedding
                &&& a matches Action::Embed(s) && s@ == self.sentence_spec()
            }
        })
        // the embedding source answered
        &&& (event matches Event::Embedded(res) ==> {
            &&& after.source_spec() == Source::Fresh
            &&& res matches Err(f) ==> {
                &&& after_ix == before_ix
                &&& after.stage_spec() == Stage::Done
                &&& a == Action::Fail(ServiceError::EmbedProvider(f))
            }
            &&& res matches Ok(l) ==> {
                &&& l@.len() != DIM ==> {
                    &&& after_ix == before_ix
                    &&& after.stage_spec() == Stage::Done
                    &&& a == Action::Fail(
                        ServiceError::BadDimension { expected: DIM, found: l@.len() as usize },
                    )
                }
                &&& l@.len() == DIM ==> after.point_spec() == l@
                &&& (l@.len() == DIM && writes_back(self.should_insert_spec(), Source::Fresh)) ==> {
                    &&& after_ix == before_ix
                    &&& after.stage_spec() == Stage::WritingBack
                    &&& a matches Action::StoreVector { sentence, lanes, label } && sentence@
                        == self.sentence_spec() && lanes@ == l@ && (match label {
                        Some(x) => Some(x@),
                        None => None::<Seq<char>>,
                    }) == self.label_spec()
                }
                &&& (l@.len() == DIM && !writes_back(self.should_insert_spec(), Source::Fresh)) ==> self.proceeds(
                    after,
                    before_ix,
                    after_ix,
                    a,
                )
            }
        })
        // the metadata store took the write
        &&& (event matches Event::Stored(res) ==> {
            &&& after.source_spec() == self.source_spec()
            &&& after.point_spec() == self.point_spec()
            &&& res matches Err(e) ==> {
                &&& after_ix == before_ix
                &&& after.stage_spec() == Stage::Done
                &&& a == Action::Fail(e)
            }
            &&& res is Ok ==> self.proceeds(after, before_ix, after_ix, a)
        })
        // the search graph answered
        &&& (event matches Event::Found(raw) ==> {
            let h = nearest(hits_view(raw@), k_for(self.labelled()) as nat);
            let ins = insertion_for(
                self.should_insert_spec(),
                self.source_spec(),
                first_distance(h),
            );
            &&& after.hits_spec() == h
            &&& is_ascending(h)
            &&& h.len() <= k_for(self.labelled())
            &&& after.insertion_spec() == ins
            &&& after_ix == (if ins == Insertion::Success {
                before_ix.push((self.point_spec(), self.sentence_spec()))
            } else {
                before_ix
            })
            &&& self.labelled() ==> {
                &&& after.stage_spec() == Stage::Labelling
                &&& a matches Action::LookUpLabels(ps) && strings_view(ps@) == payloads_of(h)
            }
            &&& !self.labelled() ==> {
                &&& after.stage_spec() == Stage::Done
                &&& responds(a, h, ins, Seq::empty())
            }
        })
        // the labels of the hits came back
        &&& (event matches Event::Labels(found) ==> {
            &&& after_ix == before_ix
            &&& after.stage_spec() == Stage::Done
            &&& is_ascending(self.hits_spec())
            &&& self.hits_spec().len() <= k_for(self.labelled())
            &&& responds(
                a,
                self.hits_spec(),
                self.insertion_spec(),
                present_labels(options_view(found@)),
            )
        })
    }

    /// Takes one event and says what to do next.
    pub fn step(&mut self, index: &mut SentenceIndex, event: Event) -> (a: Action)
        requires
            old(self).wf(),
            old(index).wf(),
            expects(old(self).stage_spec(), event),
        ensures
            final(self).wf(),
            final(index).wf(),
            old(self).stepped(final(self), old(index)@, final(index)@, event, a),
    {
        match event {
            Event::Looked(c) => {
                match c {
                    Some(sv) => {
                        match Point::from_stored(sv) {
                            Ok(p) => {
                                self.source = Source::Cache;
                                self.point = p;
                                self.with_vector(index)
                            },
                            Err(_) => {
                                self.source = Source::Fresh;
                                self.stage = Stage::Embedding;
                                Action::Embed(self.sentence.clone())
                            },
                        }
                    },
                    None => {
                        self.source = Source::Fresh;
                        self.stage = Stage::Embedding;
                        Action::Embed(self.sentence.clone())
                    },
                }
            },
            Event::Embedded(res) => {
                match res {
                    Err(f) => self.finish(ServiceError::EmbedProvider(f)),
                    Ok(l) => {
                        match Point::from_vec(l) {
                            Err(e) => self.finish(e),
                            Ok(p) => {
                                self.point = p;
                                if self.should_insert {
                                    self.stage = Stage::WritingBack;
                                    let label = match &self.label {
                                        Some(x) => Some(x.clone()),
                                        None => None,
                                    };
                                    Action::StoreVector {
                                        sentence: self.sentence.clone(),
                                        lanes: self.point.to_vec(),
                                        label,
                                    }
                                } else {
                                    self.with_vector(index)
                                }
                            },
                        }
                    },
                }
            },
            Event::Stored(res) => {
                match res {
                    Err(e) => self.finish(e),
                    Ok(()) => self.with_vector(index),
                }
            },
            Event::Found(raw) => {
                let k: usize = if self.label.is_some() {
                    K_LABELLED
                } else {
                    K_UNLABELLED
                };
                proof {
                    lemma_nearest_ascending(hits_view(raw@), k as nat);
                }
                let hits = rank_neighbors(raw, k);
                let nearest_distance = if hits.len() > 0 {
                    Some(hits[0].distance)
                } else {
                    None
                };
                let insertion = decide_insertion(self.should_insert, self.source, nearest_distance);
                match insertion {
                    Insertion::Success => {
                        index.insert(self.point.clone_point(), self.sentence.clone());
                    },
                    _ => {},
                }
                self.hits = hits;
                self.insertion = insertion;
                if self.label.is_some() {
                    self.stage = Stage::Labelling;
                    let r = make_response(&self.hits, insertion, Vec::new());
                    Action::LookUpLabels(r.search_result)
                } else {
                    self.stage = Stage::Done;
                    let no_labels: Vec<String> = Vec::new();
                    let r = make_response(&self.hits, insertion, no_labels);
                    assert(strings_view(no_labels@) =~= Seq::<Seq<char>>::empty());
                    Action::Respond(r)
                }
            },
            Event::Labels(found) => {
                let labels = collect_labels(&found);
                self.stage = Stage::Done;
                Action::Respond(make_response(&self.hits, self.insertion, labels))
            },
        }
    }
}

/// Two requests for one sentence, both asking for insertion. Whatever the
/// first lookup found, a fresh vector is written back; once the store hands
/// that vector back, the second request is a cache hit on the very same
/// vector, reports `already exists`, and so at most one of the two reports
/// `success`.
pub proof fn lemma_cache_idempotence(
    first: Option<StoredVector>,
    second: StoredVector,
    v: Seq<u32>,
    nearest_first: Option<u32>,
    nearest_second: Option<u32>,
)
    requires
        v.len() == DIM,
        second.holds_point(),
        second.lanes_spec() == v,
    ensures
        lookup_source(first) == Source::Fresh ==> writes_back(true, lookup_source(first)),
        lookup_source(Some(second)) == Source::Cache,
        insertion_for(true, lookup_source(Some(second)), nearest_second) == Insertion::AlreadyExists,
        !(insertion_for(true, lookup_source(first), nearest_first) == Insertion::Success
            && insertion_for(true, lookup_source(Some(second)), nearest_second)
            == Insertion::Success),
{
}

/// After a wipe the metadata store holds nothing, so every lookup finds
/// nothing; and a lookup that finds nothing is a miss, so the sentence is
/// embedded afresh.
pub proof fn lemma_wipe_misses(found: Option<StoredVector>)
    requires
        found is None,
    ensures
        lookup_source(found) == Source::Fresh,
{
}

} // verus!
