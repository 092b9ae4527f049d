use vstd::prelude::*;

use crate::error::ServiceError;
use crate::index::SentenceIndex;
use crate::pipeline::{expects, strings_view, Action, Event, MyResponse, SentenceTask, Stage};

verus! {

/// What a request needs next, or how it ended.
#[derive(Debug)]
pub enum BatchStep {
    /// The sentence in progress needs this done.
    Next(Action),
    /// Every sentence was answered: one answer per sentence, in order.
    Finished(Vec<MyResponse>),
    /// A sentence failed, and with it the whole request: no answers at all.
    Failed(ServiceError),
}

/// A request of several sentences, run one after the other.
pub struct RequestTask {
    sentences: Vec<String>,
    labels: Option<Vec<String>>,
    should_insert: bool,
    current: usize,
    task: SentenceTask,
    answers: Vec<MyResponse>,
    done: bool,
}

impl RequestTask {
    pub closed spec fn sentences_spec(&self) -> Seq<Seq<char>> {
        strings_view(self.sentences@)
    }

    /// The label of each sentence, for a labelled request.
    pub closed spec fn labels_spec(&self) -> Option<Seq<Seq<char>>> {
        match self.labels {
            Some(ls) => Some(strings_view(ls@)),
            None => None,
        }
    }

    /// The request asks for write-through.
    pub closed spec fn should_insert_spec(&self) -> bool {
        self.should_insert
    }

    /// Index of the sentence in progress.
    pub closed spec fn current_spec(&self) -> nat {
        self.current as nat
    }

    /// The answers of the sentences done so far, in order.
    pub closed spec fn answers_spec(&self) -> Seq<MyResponse> {
        self.answers@
    }

    pub closed spec fn is_done(&self) -> bool {
        self.done
    }

    /// The sentence in progress.
    pub closed spec fn task_spec(&self) -> SentenceTask {
        self.task
    }

    /// Stage of the sentence in progress.
    pub open spec fn task_stage(&self) -> Stage {
        self.task_spec().stage_spec()
    }

    /// The label that goes with sentence `i`.
    pub open spec fn label_of(&self, i: int) -> Option<Seq<char>> {
        match self.labels_spec() {
            Some(ls) => Some(ls[i]),
            None => None,
        }
    }

    /// While the request runs, the task in progress is that of the current
    /// sentence, with its label and the request's write-through setting, and
    /// every earlier sentence has its answer.
    pub open spec fn in_progress(&self) -> bool {
        &&& self.labels_spec() matches Some(ls) ==> ls.len() == self.sentences_spec().len()
        &&& !self.is_done() ==> {
            &&& self.current_spec() < self.sentences_spec().len()
            &&& self.answers_spec().len() == self.current_spec()
            &&& self.task_spec().sentence_spec() == self.sentences_spec()[self.current_spec() as int]
            &&& self.task_spec().label_spec() == self.label_of(self.current_spec() as int)
            &&& self.task_spec().labelled() == self.labels_spec() is Some
            &&& self.task_spec().should_insert_spec() == self.should_insert_spec()
        }
    }

    /// `after` has just started on sentence `i`, whose lookup `a` asks for.
    pub open spec fn starts(&self, after: &RequestTask, i: int, a: Action) -> bool {
        &&& !after.is_done()
        &&& after.current_spec() as int == i
        &&& after.task_stage() == Stage::LookUp
        &&& a matches Action::LookUpVector(s) && s@ == self.sentences_spec()[i]
    }

    /// How the request moves on once the sentence in progress became `t` and
    /// asked for `a`: an answer is kept and the next sentence starts, or, after
    /// the last one, all answers are handed out; a failure fails the request;
    /// anything else is passed on.
    pub open spec fn advances(&self, t: SentenceTask, a: Action, after: &RequestTask, r: BatchStep) -> bool {
        match a {
            Action::Fail(e) => {
                &&& after.is_done()
                &&& r == BatchStep::Failed(e)
            },
            Action::Respond(x) => {
                let answers = self.answers_spec().push(x);
                if self.current_spec() + 1 == self.sentences_spec().len() {
                    &&& after.is_done()
                    &&& r matches BatchStep::Finished(rs) && rs@ == answers
                } else {
                    &&& after.answers_spec() == answers
                    &&& self.starts(after, self.current_spec() + 1int, a_next(r))
                    &&& r is Next
                }
            },
            _ => {
                &&& !after.is_done()
                &&& after.current_spec() == self.current_spec()
                &&& after.answers_spec() == self.answers_spec()
                &&& after.task_spec() == t
                &&& r == BatchStep::Next(a)
            },
        }
    }

    pub closed spec fn wf(&self) -> bool {
        &&& self.task.wf()
        &&& self.in_progress()
    }

    fn start(&mut self) -> (a: Action)
        requires
            old(self).current < old(self).sentences@.len(),
            old(self).labels matches Some(ls) ==> ls@.len() == old(self).sentences@.len(),
        ensures
            final(self).sentences == old(self).sentences,
            final(self).labels == old(self).labels,
            final(self).should_insert == old(self).should_insert,
            final(self).current == old(self).current,
            final(self).answers == old(self).answers,
            final(self).done == old(self).done,
            final(self).task.wf(),
            final(self).task.stage_spec() == Stage::LookUp,
            final(self).task.sentence_spec() == old(self).sentences@[old(self).current as int]@,
            final(self).task.label_spec() == old(self).label_of(old(self).current as int),
            final(self).task.labelled() == old(self).labels is Some,
            final(self).task.should_insert_spec() == old(self).should_insert,
            a matches Action::LookUpVector(s) && s@ == old(self).sentences@[old(self).current as int]@,
    {
        let label = match &self.labels {
            Some(ls) => Some(ls[self.current].clone()),
            None => None,
        };
        let (t, a) = SentenceTask::new(self.sentences[self.current].clone(), label, self.should_insert);
        self.task = t;
        a
    }

    /// Starts a request. A labelled request must give one label per sentence.
    pub fn new(sentences: Vec<String>, labels: Option<Vec<String>>, should_insert: bool) -> (r: Result<(RequestTask, BatchStep), ServiceError>)
        ensures
            r is Err <==> (labels matches Some(ls) && ls@.len() != sentences@.len()),
            r is Err ==> r == Err::<(RequestTask, BatchStep), ServiceError>(ServiceError::BadInput),
            r matches Ok((t, s)) ==> {
                &&& t.wf()
                &&& t.in_progress()
                &&& t.sentences_spec() == strings_view(sentences@)
                &&& t.labels_spec() == (match labels {
                    Some(ls) => Some(strings_view(ls@)),
                    None => None::<Seq<Seq<char>>>,
                })
                &&& t.should_insert_spec() == should_insert
                &&& t.current_spec() == 0
                &&& t.answers_spec().len() == 0
                &&& sentences@.len() == 0 ==> (t.is_done() && (s matches BatchStep::Finished(rs) && rs@.len() == 0))
                &&& sentences@.len() > 0 ==> (s matches BatchStep::Next(a) && t.starts(&t, 0, a))
            },
    {
        if let Some(ls) = &labels {
            if ls.len() != sentences.len() {
                return Err(ServiceError::BadInput);
            }
        }
        let n: usize = sentences.len();
        let (idle, _) = SentenceTask::new(String::new(), None, should_insert);
        let mut t = RequestTask {
            sentences,
            labels,
            should_insert,
            current: 0,
            task: idle,
            answers: Vec::new(),
            done: n == 0,
        };
        if n == 0 {
            return Ok((t, BatchStep::Finished(Vec::new())));
        }
        let a = t.start();
        Ok((t, BatchStep::Next(a)))
    }

    /// The request is waiting for this event.
    pub fn accepts(&self, e: &Event) -> (r: bool)
        ensures
            r == (!self.is_done() && expects(self.task_stage(), *e)),
    {
        !self.done && self.task.accepts(e)
    }

    /// Hands an event to the sentence in progress, which takes a step of the
    /// pipeline on the index; the request then moves on as `advances` says.
    pub fn step(&mut self, index: &mut SentenceIndex, event: Event) -> (r: BatchStep)
        requires
            old(self).wf(),
            old(index).wf(),
            !old(self).is_done(),
            expects(old(self).task_stage(), event),
        ensures
            final(self).wf(),
            final(self).in_progress(),
            final(index).wf(),
            final(self).sentences_spec() == old(self).sentences_spec(),
            final(self).labels_spec() == old(self).labels_spec(),
            final(self).should_insert_spec() == old(self).should_insert_spec(),
            exists|t: SentenceTask, a: Action|
                #[trigger] old(self).task_spec().stepped(&t, old(index)@, final(index)@, event, a)
                    && old(self).advances(t, a, final(self), r),
    {
        let n: usize = self.sentences.len();
        let ghost before = *self;
        let ghost ev = event;
        let a = self.task.step(index, event);
        let ghost ga = a;
        let ghost gt = self.task;
        let r = match a {
            Action::Respond(answer) => {
                assert(self.current < n);
                self.answers.push(answer);
                self.current = self.current + 1;
                if self.current == n {
                    self.done = true;
                    let mut out: Vec<MyResponse> = Vec::new();
                    std::mem::swap(&mut out, &mut self.answers);
                    BatchStep::Finished(out)
                } else {
                    let next = self.start();
                    BatchStep::Next(next)
                }
            },
            Action::Fail(e) => {
                self.done = true;
                BatchStep::Failed(e)
            },
            other => BatchStep::Next(other),
        };
        assert(before.task_spec().stepped(&gt, old(index)@, index@, ev, ga) && before.advances(gt, ga, self, r));
        r
    }
}

/// The action a step hands on, if it hands one on.
pub open spec fn a_next(r: BatchStep) -> Action {
    match r {
        BatchStep::Next(a) => a,
        _ => Action::Fail(ServiceError::Index),
    }
}

} // verus!
